use git_credential_github_keychain::storage::{
    bind_credential, delete_credential, fetch_credential, fetch_file_credential, store_credential,
    Backend,
};
use git_credential_github_keychain::util::credential_error;
use git_credential_github_keychain::{AppConfig, Credential, CredentialRequest, GithubKeychainConfig};

fn bound_config() -> GithubKeychainConfig {
    let mut config = GithubKeychainConfig::default();
    config.app_configs = Some(vec![
        AppConfig { path: "acme".to_string(), client_id: "acme-id".to_string() },
        AppConfig { path: "gist".to_string(), client_id: "gist-id".to_string() },
    ]);
    config
}

fn acme_request() -> CredentialRequest {
    let mut r = CredentialRequest::empty(bound_config());
    r.path = "acme/widgets.git".to_string();
    r
}

fn bundle(token: &str) -> Credential {
    Credential {
        client_id: String::new(),
        token: token.to_string(),
        expiry: "2030-01-01T00:00:00Z".to_string(),
        refresh_token: "r-".to_string() + token,
    }
}

#[test]
fn binding_is_chosen_by_first_path_segment() {
    let r = acme_request();
    assert!(r.is_configured());
    assert_eq!(r.app_config().unwrap().client_id, "acme-id");
    let mut other = CredentialRequest::empty(bound_config());
    other.path = "nobody/repo".to_string();
    assert!(!other.is_configured());
}

#[test]
fn gist_host_selects_gist_binding() {
    let mut r = CredentialRequest::empty(bound_config());
    r.host = "gist.github.com".to_string();
    r.path = "acme/x".to_string();
    assert_eq!(r.app_config().unwrap().client_id, "gist-id");
}

#[test]
fn no_bindings_means_not_configured() {
    let mut r = CredentialRequest::empty(GithubKeychainConfig::default());
    r.path = "acme/x".to_string();
    assert!(!r.is_configured());
    assert!(r.app_config().is_none());
}

#[test]
fn client_id_prefers_named_username() {
    let mut r = acme_request();
    assert_eq!(r.client_id(), "acme-id");
    r.username = "x-oauth-token".to_string();
    assert_eq!(r.client_id(), "acme-id");
    r.username = "someone".to_string();
    assert_eq!(r.client_id(), "someone");
}

#[test]
fn file_store_then_fetch_round_trips() {
    let mut r = acme_request();
    let mut c = bundle("T1");
    let backend = store_credential(&mut c, &mut r, false);
    assert_eq!(backend, Backend::File);
    assert_eq!(c.client_id, "acme-id");
    let got = fetch_credential(&r, None).unwrap();
    assert_eq!(got.client_id, "acme-id");
    assert_eq!(got.token, "T1");
    assert_eq!(got.expiry, "2030-01-01T00:00:00Z");
    assert_eq!(got.refresh_token, "r-T1");
}

#[test]
fn file_store_replaces_entry_of_same_identity() {
    let mut r = acme_request();
    let mut c1 = bundle("T1");
    store_credential(&mut c1, &mut r, false);
    let mut c2 = bundle("T2");
    store_credential(&mut c2, &mut r, false);
    assert_eq!(r.config.credentials.as_ref().unwrap().len(), 1);
    assert_eq!(fetch_file_credential(&r).unwrap().token, "T2");
}

#[test]
fn file_delete_then_fetch_is_absent() {
    let mut r = acme_request();
    let mut c = bundle("T1");
    store_credential(&mut c, &mut r, false);
    let backend = delete_credential(&mut r, false);
    assert_eq!(backend, Backend::File);
    assert!(fetch_credential(&r, None).is_none());
    assert!(r.config.credentials.is_none());
}

#[test]
fn delete_of_missing_entry_is_silent() {
    let mut r = acme_request();
    delete_credential(&mut r, false);
    assert!(r.config.credentials.is_none());
    assert!(fetch_credential(&r, None).is_none());
}

#[test]
fn keychain_write_leaves_file_store_alone() {
    let mut r = acme_request();
    let mut c = bundle("T1");
    let backend = store_credential(&mut c, &mut r, true);
    assert_eq!(backend, Backend::Keychain);
    assert_eq!(c.client_id, "acme-id");
    assert!(r.config.credentials.is_none());
}

#[test]
fn keychain_delete_leaves_file_store_alone() {
    let mut r = acme_request();
    let mut c = bundle("T1");
    store_credential(&mut c, &mut r, false);
    assert_eq!(delete_credential(&mut r, true), Backend::Keychain);
    assert_eq!(fetch_file_credential(&r).unwrap().token, "T1");
}

#[test]
fn keychain_result_takes_precedence() {
    let mut r = acme_request();
    let mut c = bundle("file");
    store_credential(&mut c, &mut r, false);
    let mut k = bundle("keychain");
    bind_credential(&mut k, &r);
    assert_eq!(fetch_credential(&r, Some(k)).unwrap().token, "keychain");
    assert_eq!(fetch_credential(&r, None).unwrap().token, "file");
}

#[test]
fn request_delete_credential_returns_updated_copy() {
    let mut r = acme_request();
    let mut c = bundle("T1");
    store_credential(&mut c, &mut r, false);
    let conf = r.delete_credential();
    assert!(conf.credentials.is_none());
    assert!(r.config.credentials.is_some());
}

#[test]
fn credential_for_and_default_config() {
    let mut config = bound_config();
    let mut c = Credential::empty();
    c.client_id = "x".to_string();
    config.store_credential(&c);
    assert!(config.credential_for("x".to_string()).is_some());
    assert!(config.credential_for("y".to_string()).is_none());
    assert!(config.default_config().is_none());
}

#[test]
fn credential_error_carries_message() {
    assert_eq!(credential_error("boom").0, "boom");
}

#[test]
fn delete_without_bundles_needs_no_identity() {
    let mut config = GithubKeychainConfig::default();
    let unbound = CredentialRequest::empty(GithubKeychainConfig::default());
    config.delete_credential(&unbound);
    assert!(config.credentials.is_none());
    let conf = unbound.delete_credential();
    assert!(conf.credentials.is_none());
}
