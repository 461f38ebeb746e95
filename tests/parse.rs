use git_credential_github_keychain::util::{parse_input, parse_line, resolve_username};
use git_credential_github_keychain::{AppConfig, CredentialRequest, GithubKeychainConfig};

fn empty_request() -> CredentialRequest {
    CredentialRequest::empty(GithubKeychainConfig::default())
}

#[test]
fn test_parse_line() {
    let mut input = empty_request();
    let line = "username=foo".to_string();
    input = parse_line(line, input).unwrap();
    assert_eq!(input.username, "foo");

    let line = "host=bar".to_string();
    input = parse_line(line, input).unwrap();
    assert_eq!(input.host, "bar");

    let line = "protocol=https".to_string();
    input = parse_line(line, input).unwrap();
    assert_eq!(input.protocol, "https");

    let line = "path=/foo/bar".to_string();
    input = parse_line(line, input).unwrap();
    assert_eq!(input.path, "/foo/bar");

    // These are valid per git but we ignore them
    let line = "wwwauth[]=foo".to_string();
    input = parse_line(line, input).unwrap();
    let line = "capabilities[]=foo".to_string();
    input = parse_line(line, input).unwrap();
    assert_eq!(input.username, "foo");
}

#[test]
fn parse_sequence_of_lines() {
    let mut input = empty_request();
    input = parse_line("username=foo".to_string(), input).unwrap();
    input = parse_line("host=bar".to_string(), input).unwrap();
    input = parse_line("path=/a/b".to_string(), input).unwrap();
    assert_eq!(input.username, "foo");
    assert_eq!(input.host, "bar");
    assert_eq!(input.path, "/a/b");
    assert_eq!(input.protocol, "");
}

#[test]
fn parse_line_without_equals_is_an_error() {
    assert!(parse_line("username".to_string(), empty_request()).is_err());
    assert!(parse_line("".to_string(), empty_request()).is_err());
}

#[test]
fn parse_capability_line_changes_nothing() {
    let mut input = empty_request();
    input = parse_line("username=foo".to_string(), input).unwrap();
    input = parse_line("capabilities[]=x".to_string(), input).unwrap();
    assert_eq!(input.username, "foo");
    assert_eq!(input.host, "github.com");
    assert_eq!(input.protocol, "");
    assert_eq!(input.path, "");
}

#[test]
fn parse_unknown_attribute_is_an_error() {
    let r = parse_line("colour=blue".to_string(), empty_request());
    assert!(r.is_err());
}

#[test]
fn parse_password_is_ignored() {
    let input = parse_line("password=secret".to_string(), empty_request()).unwrap();
    assert_eq!(input.username, "");
    assert_eq!(input.host, "github.com");
}

#[test]
fn parse_value_stops_at_second_equals() {
    let input = parse_line("username=a=b".to_string(), empty_request()).unwrap();
    assert_eq!(input.username, "a");
    let input = parse_line("path=".to_string(), input).unwrap();
    assert_eq!(input.path, "");
}

fn config_with_default() -> GithubKeychainConfig {
    let mut config = GithubKeychainConfig::default();
    config.app_configs = Some(vec![
        AppConfig { path: "acme".to_string(), client_id: "acme-id".to_string() },
        AppConfig { path: "default".to_string(), client_id: "default-id".to_string() },
    ]);
    config
}

#[test]
fn resolve_username_prefers_given_client_id() {
    let id = "given".to_string();
    let r = resolve_username(Some(&id), config_with_default()).unwrap();
    assert_eq!(r.username, "given");
    assert_eq!(r.host, "github.com");
}

#[test]
fn resolve_username_uses_default_binding() {
    let r = resolve_username(None, config_with_default()).unwrap();
    assert_eq!(r.username, "default-id");
}

#[test]
fn resolve_username_without_default_reads_input() {
    let mut config = GithubKeychainConfig::default();
    config.app_configs = Some(vec![]);
    assert!(resolve_username(None, config).is_none());
}

#[test]
fn parse_input_stops_at_blank_line() {
    let text = "username=foo\nhost=bar\npath=/a/b\n\nusername=later\n".to_string();
    let r = parse_input(text, empty_request()).unwrap();
    assert_eq!(r.username, "foo");
    assert_eq!(r.host, "bar");
    assert_eq!(r.path, "/a/b");
}

#[test]
fn parse_input_without_trailing_newline() {
    let r = parse_input("protocol=https\nhost=example.org".to_string(), empty_request()).unwrap();
    assert_eq!(r.protocol, "https");
    assert_eq!(r.host, "example.org");
}

#[test]
fn parse_input_of_empty_text_changes_nothing() {
    let r = parse_input(String::new(), empty_request()).unwrap();
    assert_eq!(r.host, "github.com");
    assert_eq!(r.username, "");
}

#[test]
fn parse_input_refuses_bad_line() {
    assert!(parse_input("username=foo\nbogus\n".to_string(), empty_request()).is_err());
    assert!(parse_input("username=foo\nshoe=size\n".to_string(), empty_request()).is_err());
    let r = parse_input("username=foo\n\nbogus\n".to_string(), empty_request()).unwrap();
    assert_eq!(r.username, "foo");
}
