//! Command-line tooling core: argument analysis, clone planning, status
//! reports and callable-command generation.

pub mod analyzer;
pub mod callable;
pub mod cli;
pub mod gcl;
pub mod status;
pub mod term;
pub mod text;
