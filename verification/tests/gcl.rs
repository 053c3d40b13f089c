use termutils::gcl::{can_plan, clean_token, github_url, plan_clone, ClonePlan};

fn strings(v: &[&str]) -> Vec<String> {
    v.iter().map(|s| s.to_string()).collect()
}

#[test]
fn help_and_version() {
    assert!(matches!(plan_clone(strings(&["help"])), ClonePlan::Help));
    assert!(matches!(plan_clone(strings(&["version"])), ClonePlan::Version));
    assert!(matches!(plan_clone(strings(&["other"])), ClonePlan::Nothing));
    assert!(matches!(plan_clone(Vec::new()), ClonePlan::Nothing));
}

#[test]
fn public_clone_into_repo_directory() {
    match plan_clone(strings(&["d33pster", "gcl"])) {
        ClonePlan::Public { username, repo, url, destination } => {
            assert_eq!(username, "d33pster");
            assert_eq!(repo, "gcl");
            assert_eq!(url, "https://github.com/d33pster/gcl.git");
            assert_eq!(destination, None);
        }
        _ => panic!("expected a public clone"),
    }
}

#[test]
fn public_clone_with_destination() {
    match plan_clone(strings(&["user", "repo", "/tmp/dest"])) {
        ClonePlan::Public { url, destination, .. } => {
            assert_eq!(url, "https://github.com/user/repo.git");
            assert_eq!(destination, Some("/tmp/dest".to_string()));
        }
        _ => panic!("expected a public clone"),
    }
}

#[test]
fn public_clone_with_four_arguments_ignores_destination() {
    match plan_clone(strings(&["user", "repo", "a", "b"])) {
        ClonePlan::Public { destination, .. } => assert_eq!(destination, None),
        _ => panic!("expected a public clone"),
    }
}

#[test]
fn private_clone_flag_first() {
    match plan_clone(strings(&["--priv", "user", "repo"])) {
        ClonePlan::Private { username, repo, url, destination } => {
            assert_eq!(username, "user");
            assert_eq!(repo, "repo");
            assert_eq!(url, "https://github.com/user/repo.git");
            assert_eq!(destination, None);
        }
        _ => panic!("expected a private clone"),
    }
}

#[test]
fn private_clone_flag_last_with_destination() {
    match plan_clone(strings(&["user", "repo", "dest", "--priv"])) {
        ClonePlan::Private { username, repo, destination, .. } => {
            assert_eq!(username, "user");
            assert_eq!(repo, "repo");
            assert_eq!(destination, Some("dest".to_string()));
        }
        _ => panic!("expected a private clone"),
    }
}

#[test]
fn private_clone_destination_only_among_first_three() {
    // the destination is looked for among the first three arguments only
    match plan_clone(strings(&["user", "--priv", "repo", "dest"])) {
        ClonePlan::Private { username, repo, destination, .. } => {
            assert_eq!(username, "user");
            assert_eq!(repo, "repo");
            assert_eq!(destination, None);
        }
        _ => panic!("expected a private clone"),
    }
}

#[test]
fn private_clone_repeated_name_is_skipped() {
    match plan_clone(strings(&["--priv", "same", "same"])) {
        ClonePlan::Private { username, repo, .. } => {
            assert_eq!(username, "same");
            assert_eq!(repo, "");
        }
        _ => panic!("expected a private clone"),
    }
}

#[test]
fn private_clone_without_repo_cannot_be_planned() {
    assert!(!can_plan(&strings(&["--priv", "user"])));
    assert!(!can_plan(&strings(&["--priv"])));
    assert!(can_plan(&strings(&["--priv", "user", "repo"])));
    assert!(can_plan(&strings(&["user"])));
    assert!(can_plan(&Vec::new()));
}

#[test]
fn url_is_built_from_user_and_repo() {
    assert_eq!(
        github_url(&"a".to_string(), &"b".to_string()),
        "https://github.com/a/b.git"
    );
}

#[test]
fn token_loses_line_breaks() {
    assert_eq!(clean_token(&"ghp_abc\n".to_string()), "ghp_abc");
    assert_eq!(clean_token(&"a\nb\n\nc".to_string()), "abc");
    assert_eq!(clean_token(&String::new()), "");
}
