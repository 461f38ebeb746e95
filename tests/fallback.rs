use git_credential_github_keychain::util::{fallback_command, fallback_input};

#[test]
fn fallback_by_helper_name_runs_through_git() {
    let cmd = fallback_command("osxkeychain --verbose").unwrap();
    assert_eq!(cmd.program, "git");
    assert_eq!(cmd.args, vec!["credential-osxkeychain".to_string(), "--verbose".to_string(), "get".to_string()]);
}

#[test]
fn fallback_by_absolute_path_runs_directly() {
    let cmd = fallback_command("  /usr/bin/helper\ta  b ").unwrap();
    assert_eq!(cmd.program, "/usr/bin/helper");
    assert_eq!(cmd.args, vec!["a".to_string(), "b".to_string(), "get".to_string()]);
}

#[test]
fn fallback_without_words_gives_nothing() {
    assert!(fallback_command("").is_none());
    assert!(fallback_command(" \t\n").is_none());
}

#[test]
fn fallback_input_names_host_and_protocol() {
    assert_eq!(fallback_input(&"example.org".to_string()), "host=example.org\nprotocol=https\n");
}

#[test]
fn fallback_splits_on_unicode_white_space() {
    let cmd = fallback_command("helper\u{3000}x\u{a0}y").unwrap();
    assert_eq!(cmd.program, "git");
    assert_eq!(cmd.args, vec!["credential-helper".to_string(), "x".to_string(), "y".to_string(), "get".to_string()]);
}
