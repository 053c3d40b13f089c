# termutils

The core of a small set of terminal tools (`term`, `cls`, `gcl`, `gst`),
written in Verus with its behaviour stated in contracts and proved.

- `src/analyzer.rs` – a small argument analyser (`Arguments`).
- `src/gcl.rs` – what a `gcl` (git clone) command line asks for: help,
  version, a public clone or a private clone, with URL and destination.
- `src/status.rs` – the `gst` status report: how files are classified,
  which sections are shown in which order, and the printed lines.
- `src/cli.rs` – the `argrust` parser as the `term` command uses it.
- `src/term.rs` – what a `term` / `term create` command line asks for.
- `src/callable.rs` – the shell text of callable commands.
- `src/text.rs` – character replacement and string search.

`app/` holds the programs themselves: reading the command line, the
terminal, files and git repositories, and printing.
