use termutils::term::{application_values, create_command, top_command, CreateCommand, Platform, TopCommand};

fn strings(v: &[&str]) -> Vec<String> {
    v.iter().map(|s| s.to_string()).collect()
}

#[test]
fn help_wins() {
    assert!(matches!(top_command(strings(&["help", "version"])), TopCommand::Help));
    assert!(matches!(top_command(strings(&["-h"])), TopCommand::Help));
    assert!(matches!(top_command(strings(&["-l", "-v"])), TopCommand::License));
    assert!(matches!(top_command(strings(&["version"])), TopCommand::Version));
}

#[test]
fn nothing_recognised() {
    assert!(matches!(top_command(Vec::new()), TopCommand::Nothing));
    assert!(matches!(top_command(strings(&["frobnicate"])), TopCommand::Nothing));
}

#[test]
fn create_takes_the_rest() {
    match top_command(strings(&["create", "callable", "init"])) {
        TopCommand::Create(rest) => assert_eq!(rest, strings(&["callable", "init"])),
        _ => panic!("expected create"),
    }
    match top_command(strings(&["-c", "callable"])) {
        TopCommand::Create(rest) => assert_eq!(rest, strings(&["callable"])),
        _ => panic!("expected create"),
    }
}

#[test]
fn create_init() {
    assert!(matches!(
        create_command(strings(&["callable", "init"]), Platform::Linux),
        CreateCommand::InitCallables
    ));
    assert!(matches!(
        create_command(strings(&["-cal", "-i"]), Platform::MacOs),
        CreateCommand::InitCallables
    ));
    assert!(matches!(create_command(strings(&["init"]), Platform::Linux), CreateCommand::DidYouMean));
    assert!(matches!(create_command(Vec::new(), Platform::Linux), CreateCommand::Nothing));
}

#[test]
fn create_shell_callable() {
    assert!(matches!(
        create_command(strings(&["callable"]), Platform::Linux),
        CreateCommand::ShellCallable
    ));
    assert!(matches!(
        create_command(strings(&["callable", "-app", "Safari"]), Platform::Linux),
        CreateCommand::ShellCallable
    ));
    assert!(matches!(
        create_command(strings(&["callable"]), Platform::MacOs),
        CreateCommand::ShellCallable
    ));
}

#[test]
fn create_app_callable() {
    match create_command(strings(&["callable", "application", "Google Chrome", "chrome"]), Platform::MacOs) {
        CreateCommand::AppCallable { values, system } => {
            assert_eq!(values, strings(&["Google Chrome", "chrome"]));
            assert!(!system);
        }
        _ => panic!("expected an application callable"),
    }
    match create_command(strings(&["callable", "application", "App Store", "store", "system"]), Platform::MacOs) {
        CreateCommand::AppCallable { values, system } => {
            assert_eq!(values, strings(&["App Store", "store"]));
            assert!(system);
        }
        _ => panic!("expected an application callable"),
    }
    match create_command(strings(&["callable", "-app", "Safari"]), Platform::MacOs) {
        CreateCommand::AppCallable { values, system } => {
            assert_eq!(values, strings(&["Safari"]));
            assert!(!system);
        }
        _ => panic!("expected an application callable"),
    }
}

#[test]
fn application_values_after_callable() {
    assert_eq!(
        application_values(strings(&["-app", "Google Chrome", "chrome"])),
        Some(strings(&["Google Chrome", "chrome"]))
    );
    assert_eq!(application_values(strings(&["system"])), None);
    assert_eq!(application_values(Vec::new()), None);
}
