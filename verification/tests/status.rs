use termutils::status::{
    build_report, classify_entry, count_section, head_line, head_state, join_with, render_report,
    section_header, HeadState, Report,
    Section, StatusEntry, StatusFlags,
};

fn none() -> StatusFlags {
    StatusFlags {
        index_new: false,
        index_modified: false,
        index_deleted: false,
        index_renamed: false,
        wt_new: false,
        wt_modified: false,
        wt_deleted: false,
        wt_renamed: false,
        conflicted: false,
        ignored: false,
    }
}

fn entry(flags: StatusFlags, path: &str) -> StatusEntry {
    StatusEntry { flags, path: Some(path.to_string()) }
}

#[test]
fn classification_priority() {
    let mut f = none();
    f.index_modified = true;
    f.wt_modified = true;
    assert!(classify_entry(&f) == Some(Section::Added));
    let mut f = none();
    f.wt_modified = true;
    f.wt_deleted = true;
    assert!(classify_entry(&f) == Some(Section::Modified));
    let mut f = none();
    f.wt_new = true;
    assert!(classify_entry(&f) == Some(Section::Untracked));
    let mut f = none();
    f.wt_renamed = true;
    f.conflicted = true;
    assert!(classify_entry(&f) == Some(Section::Conflicted));
    let mut f = none();
    f.ignored = true;
    assert!(classify_entry(&f) == Some(Section::Ignored));
    assert!(classify_entry(&none()) == None);
}

#[test]
fn only_ignored_is_up_to_date() {
    let mut f = none();
    f.ignored = true;
    let entries = vec![entry(f, "target/")];
    assert!(matches!(build_report(&entries), Report::UpToDate));
    assert!(matches!(build_report(&Vec::new()), Report::UpToDate));
}

#[test]
fn readme_example_report() {
    let mut m = none();
    m.wt_modified = true;
    let mut i = none();
    i.ignored = true;
    let entries = vec![
        entry(m, "Cargo.toml"),
        entry(m, "README.md"),
        entry(i, "Cargo.lock"),
        entry(i, "target/"),
    ];
    match build_report(&entries) {
        Report::Changes(sections) => {
            assert_eq!(sections.len(), 2);
            assert!(sections[0].section == Section::Modified);
            assert!(!sections[0].blank_before);
            assert_eq!(sections[0].lines, vec!["Cargo.toml".to_string(), "README.md".to_string()]);
            assert!(sections[1].section == Section::Ignored);
            assert!(sections[1].blank_before);
            assert_eq!(sections[1].lines, vec!["Cargo.lock, target/".to_string()]);
        }
        Report::UpToDate => panic!("expected changes"),
    }
}

#[test]
fn sections_in_order_with_unknown_path() {
    let mut d = none();
    d.wt_deleted = true;
    let mut n = none();
    n.wt_new = true;
    let mut a = none();
    a.index_new = true;
    let entries = vec![
        entry(d, "gone.rs"),
        StatusEntry { flags: n, path: None },
        entry(a, "staged.rs"),
    ];
    match build_report(&entries) {
        Report::Changes(sections) => {
            let kinds: Vec<Section> = sections.iter().map(|s| s.section).collect();
            assert!(kinds == vec![Section::Untracked, Section::Added, Section::Deleted]);
            assert!(sections[0].blank_before);
            assert!(sections[1].blank_before);
            assert_eq!(sections[0].lines, vec!["{unknown}".to_string()]);
            assert_eq!(sections[1].lines, vec!["staged.rs".to_string()]);
            assert_eq!(sections[2].lines, vec!["gone.rs".to_string()]);
        }
        Report::UpToDate => panic!("expected changes"),
    }
}

#[test]
fn listing_uses_flags_not_counts() {
    // a staged file that is also modified in the working tree is counted
    // as added but listed under both sections once the modified section
    // is shown
    let mut both = none();
    both.index_modified = true;
    both.wt_modified = true;
    let mut m = none();
    m.wt_modified = true;
    let entries = vec![entry(both, "a.rs"), entry(m, "b.rs")];
    assert_eq!(count_section(&entries, Section::Added), 1);
    assert_eq!(count_section(&entries, Section::Modified), 1);
    match build_report(&entries) {
        Report::Changes(sections) => {
            assert_eq!(sections.len(), 2);
            assert_eq!(sections[1].lines, vec!["a.rs".to_string(), "b.rs".to_string()]);
        }
        Report::UpToDate => panic!("expected changes"),
    }
}

#[test]
fn join_examples() {
    assert_eq!(join_with(&vec![], ", "), "");
    assert_eq!(join_with(&vec!["a".to_string()], ", "), "a");
    assert_eq!(join_with(&vec!["a".to_string(), "b".to_string(), "c".to_string()], ", "), "a, b, c");
}

#[test]
fn head_states() {
    assert!(matches!(head_state(true, Some("main".to_string())), HeadState::Branch(n) if n == "main"));
    assert!(matches!(head_state(true, None), HeadState::UnnamedBranch));
    assert!(matches!(head_state(false, Some("x".to_string())), HeadState::Detached));
}

#[test]
fn headers_are_coloured() {
    assert_eq!(section_header(Section::Untracked), "\x1b[31muntracked\\\x1b[0m");
    assert_eq!(section_header(Section::Added), "\x1b[32mAdded\\\x1b[0m");
    assert_eq!(section_header(Section::Modified), "\x1b[34m\x1b[47mModified\\\x1b[0m\x1b[0m");
    assert_eq!(section_header(Section::Ignored), "\x1b[32m\x1b[40mIgnored\\\x1b[0m\x1b[0m");
}

#[test]
fn head_lines() {
    assert_eq!(head_line(&HeadState::Branch("main".to_string())), "on branch: \x1b[32mmain\x1b[0m");
    assert_eq!(head_line(&HeadState::Detached), "HEAD is detached.");
    assert_eq!(head_line(&HeadState::UnnamedBranch), "HEAD is not pointing to any branch.");
}

#[test]
fn rendered_report_lines() {
    let mut n = none();
    n.wt_new = true;
    let mut m = none();
    m.wt_modified = true;
    let entries = vec![entry(n, "new.rs"), entry(m, "old.rs")];
    let lines = render_report(&build_report(&entries));
    assert_eq!(
        lines,
        vec![
            "".to_string(),
            "\x1b[31muntracked\\\x1b[0m".to_string(),
            "    new.rs".to_string(),
            "".to_string(),
            "\x1b[34m\x1b[47mModified\\\x1b[0m\x1b[0m".to_string(),
            "    old.rs".to_string(),
        ]
    );
    assert_eq!(render_report(&Report::UpToDate), vec!["\x1b[34mup-to-date.\x1b[0m".to_string()]);
}
