use termutils::analyzer::Arguments;

fn strings(v: &[&str]) -> Vec<String> {
    v.iter().map(|s| s.to_string()).collect()
}

#[test]
fn new_keeps_given_arguments() {
    let args = Arguments::new(strings(&["user", "repo"]));
    assert_eq!(args.gotlen(), 2);
    assert!(args.arguments.is_empty());
}

#[test]
fn fetch_counts_from_one() {
    let args = Arguments::new(strings(&["user", "repo", "dest"]));
    assert_eq!(args.fetch(1), "user");
    assert_eq!(args.fetch(2), "repo");
    assert_eq!(args.fetch(3), "dest");
}

#[test]
fn analyze_finds_registered_flag() {
    let mut args = Arguments::new(strings(&["user", "--priv", "repo"]));
    args.add("--priv");
    args.analyze();
    assert_eq!(args.arguments, strings(&["--priv"]));
    assert_eq!(args.found_arguments(), &strings(&["--priv"]));
}

#[test]
fn analyze_skips_absent_flag() {
    let mut args = Arguments::new(strings(&["user", "repo"]));
    args.add("--priv");
    args.analyze();
    assert!(args.arguments.is_empty());
}

#[test]
fn analyze_keeps_registration_order() {
    let mut args = Arguments::new(strings(&["-b", "x", "-a"]));
    args.add("-a");
    args.add("-c");
    args.add("-b");
    args.analyze();
    assert_eq!(args.arguments, strings(&["-a", "-b"]));
}

#[test]
fn analyze_twice_appends_again() {
    let mut args = Arguments::new(strings(&["-a"]));
    args.add("-a");
    args.analyze();
    args.analyze();
    assert_eq!(args.arguments, strings(&["-a", "-a"]));
}

#[test]
fn empty_arguments() {
    let mut args = Arguments::new(Vec::new());
    args.add("--priv");
    args.analyze();
    assert_eq!(args.gotlen(), 0);
    assert!(args.arguments.is_empty());
}

#[test]
fn registrations_and_analyses_keep_given_arguments() {
    let mut args = Arguments::new(strings(&["a", "--priv", "b"]));
    args.add("--priv");
    args.analyze();
    args.add("a");
    args.analyze();
    assert_eq!(args.gotlen(), 3);
    assert_eq!(args.fetch(1), "a");
    assert_eq!(args.fetch(2), "--priv");
    assert_eq!(args.fetch(3), "b");
}
