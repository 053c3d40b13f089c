use termutils::callable::{
    app_target, app_trigger, is_body_end, rc_file_name, shell_callable, source_line,
    typed_nickname, typed_rc_file_name, AppTarget,
};
use termutils::text::replace_char_with;

#[test]
fn app_target_from_values() {
    assert!(matches!(app_target(&vec!["Safari".to_string()]), AppTarget::AskNickname(a) if a == "Safari"));
    assert!(matches!(
        app_target(&vec!["Google Chrome".to_string(), "chrome".to_string()]),
        AppTarget::Named(a, n) if a == "Google Chrome" && n == "chrome"
    ));
    assert!(matches!(app_target(&vec![]), AppTarget::Named(a, n) if a.is_empty() && n.is_empty()));
}

#[test]
fn typed_nickname_is_trimmed() {
    assert_eq!(typed_nickname(&"  my app \n".to_string()), "my app");
}

#[test]
fn chrome_trigger() {
    let t = app_trigger(&"Google Chrome".to_string(), &"chrome".to_string(), false);
    assert_eq!(
        t.script,
        "\nfunction chrome() {\n    echo \"Opening chrome...\"\n    open /Applications/Google\\ Chrome.app\n    echo \"done.\"\n}"
    );
    assert_eq!(t.app_label, "GOOGLE CHROME");
    assert_eq!(t.nick_label, "CHROME");
}

#[test]
fn system_trigger_with_spaced_nickname() {
    let t = app_trigger(&"App Store".to_string(), &"app store".to_string(), true);
    assert_eq!(
        t.script,
        "\nfunction app_store() {\n    echo \"Opening app_store...\"\n    open /System/Applications/App\\ Store.app\n    echo \"done.\"\n}"
    );
    assert_eq!(t.app_label, "APP STORE");
    assert_eq!(t.nick_label, "APP_STORE");
}

#[test]
fn shell_callable_from_readme() {
    let c = shell_callable(
        &"print hello world\n".to_string(),
        &"hello world\n".to_string(),
        &"prints hello world in the terminal\n".to_string(),
        &vec!["echo \"hello, world!\"\n".to_string()],
    );
    assert_eq!(c.nickname, "hello_world\n");
    assert_eq!(
        c.script,
        "\n# command: print hello world\n# nickname: hello_world\n# description: prints hello world in the terminal\nfunction hello_world() {\n    echo \"hello, world!\"\n}\n"
    );
}

#[test]
fn shell_callable_default_description() {
    let c = shell_callable(&"n".to_string(), &"x".to_string(), &String::new(), &vec![]);
    assert_eq!(c.script, "\n# command: n# nickname: x# description: Callable Commandfunction x() {\n}\n");
}

#[test]
fn shell_callable_enter_gives_default_description() {
    let c = shell_callable(&"n\n".to_string(), &"x\n".to_string(), &"\n".to_string(), &vec![]);
    assert_eq!(
        c.script,
        "\n# command: n\n# nickname: x\n# description: Callable Commandfunction x() {\n}\n"
    );
}

#[test]
fn typed_nickname_trims_unicode_white_space() {
    assert_eq!(typed_nickname(&"\u{3000}\tnick\u{a0}\r\n".to_string()), "nick");
    assert_eq!(typed_nickname(&" \n".to_string()), "");
    assert_eq!(typed_nickname(&"a b".to_string()), "a b");
}

#[test]
fn body_end_marker() {
    assert!(is_body_end(&"END\n".to_string()));
    assert!(!is_body_end(&"END".to_string()));
    assert!(!is_body_end(&"end\n".to_string()));
}

#[test]
fn shell_files() {
    assert_eq!(rc_file_name("zsh"), ".zshrc");
    // the typed line follows the "." already in place
    assert_eq!(typed_rc_file_name(&".zsh\n".to_string()), "..zshrc");
    assert_eq!(source_line("/home/u/.termutils"), "\nsource /home/u/.termutils\n");
}

#[test]
fn replace_examples() {
    assert_eq!(replace_char_with("a b  c", ' ', "_"), "a_b__c");
    assert_eq!(replace_char_with("", ' ', "_"), "");
    assert_eq!(replace_char_with("App Store", ' ', "\\ "), "App\\ Store");
}
