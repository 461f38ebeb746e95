use git_credential_github_keychain::clock::Timestamp;
use git_credential_github_keychain::Credential;

fn with_expiry(expiry: &str) -> Credential {
    let mut c = Credential::empty();
    c.expiry = expiry.to_string();
    c
}

// 2020-01-01T00:00:00Z
const EPOCH_2020: i64 = 1577836800;

#[test]
fn one_second_after_expiry_is_expired() {
    let c = with_expiry("2020-01-01T00:00:00Z");
    assert!(c.is_expired_at(Timestamp { secs: EPOCH_2020 + 1, nanos: 0 }));
}

#[test]
fn one_second_before_expiry_is_not_expired() {
    let c = with_expiry("2020-01-01T00:00:00Z");
    assert!(!c.is_expired_at(Timestamp { secs: EPOCH_2020 - 1, nanos: 0 }));
}

#[test]
fn expiry_instant_itself_is_not_expired() {
    let c = with_expiry("2020-01-01T00:00:00Z");
    assert!(!c.is_expired_at(Timestamp { secs: EPOCH_2020, nanos: 0 }));
    assert!(c.is_expired_at(Timestamp { secs: EPOCH_2020, nanos: 1 }));
}

#[test]
fn expiry_offset_is_honoured() {
    let c = with_expiry("2020-01-01T01:00:00+01:00");
    assert!(c.is_expired_at(Timestamp { secs: EPOCH_2020 + 1, nanos: 0 }));
    assert!(!c.is_expired_at(Timestamp { secs: EPOCH_2020 - 1, nanos: 0 }));
}

#[test]
fn empty_expiry_never_expires() {
    let c = with_expiry("");
    assert!(!c.is_expired_at(Timestamp { secs: i64::MAX, nanos: 0 }));
    assert!(!c.is_expired());
}

#[test]
fn unreadable_expiry_never_expires() {
    let c = with_expiry("tomorrow");
    assert!(!c.is_expired_at(Timestamp { secs: i64::MAX, nanos: 0 }));
    assert!(!c.is_expired());
}

#[test]
fn is_expired_uses_current_time() {
    assert!(with_expiry("1971-01-01T00:00:00Z").is_expired());
    assert!(!with_expiry("9999-12-31T23:59:59Z").is_expired());
}
