use git_credential_github_keychain::github::{
    apply_refresh, from_token, DevicePoll, PollResponse, PollStep, Token, MAX_POLL_ATTEMPTS,
};
use git_credential_github_keychain::Credential;

fn token(t: &str) -> Token {
    Token { token: t.to_string(), expiry: String::new(), refresh_token: String::new() }
}

#[test]
fn grant_after_two_pending_polls() {
    let mut poll = DevicePoll::new(MAX_POLL_ATTEMPTS);
    let script = vec![PollResponse::Pending, PollResponse::Pending, PollResponse::Granted(token("T"))];
    let mut result = None;
    for response in script {
        assert!(poll.may_poll());
        match poll.record(response) {
            PollStep::Wait => {}
            PollStep::Done(c) => {
                result = Some(c);
                break;
            }
            PollStep::Fail(e) => panic!("unexpected failure: {}", e.0),
        }
    }
    let c = result.unwrap();
    assert_eq!(c.token, "T");
    assert_eq!(poll.attempts, 3);
}

#[test]
fn only_pending_exhausts_the_budget() {
    let mut poll = DevicePoll::new(MAX_POLL_ATTEMPTS);
    let mut failed = false;
    let mut polls = 0;
    for _ in 0..30 {
        if !poll.may_poll() {
            break;
        }
        polls += 1;
        match poll.record(PollResponse::Pending) {
            PollStep::Wait => {}
            PollStep::Done(_) => panic!("no token was issued"),
            PollStep::Fail(_) => {
                failed = true;
                break;
            }
        }
    }
    assert!(failed);
    assert_eq!(polls, 20);
    assert_eq!(poll.attempts, 20);
    assert!(!poll.may_poll());
}

#[test]
fn terminal_error_stops_polling() {
    let mut poll = DevicePoll::new(MAX_POLL_ATTEMPTS);
    assert!(matches!(poll.record(PollResponse::Pending), PollStep::Wait));
    match poll.record(PollResponse::Failed("access_denied".to_string())) {
        PollStep::Fail(e) => assert_eq!(e.0, "access_denied"),
        _ => panic!("expected failure"),
    }
    assert_eq!(poll.attempts, 2);
}

#[test]
fn issued_token_becomes_bundle() {
    let t = Token {
        token: "A".to_string(),
        expiry: "2030-01-01T00:00:00Z".to_string(),
        refresh_token: "R".to_string(),
    };
    let c = from_token(t);
    assert_eq!(c.client_id, "");
    assert_eq!(c.token, "A");
    assert_eq!(c.refresh_token, "R");
}

#[test]
fn refresh_keeps_identity_and_replaces_token() {
    let mut c = Credential {
        client_id: "id".to_string(),
        token: "old".to_string(),
        expiry: "2000-01-01T00:00:00Z".to_string(),
        refresh_token: "r-old".to_string(),
    };
    let renewed = Token {
        token: "new".to_string(),
        expiry: "2030-01-01T00:00:00Z".to_string(),
        refresh_token: "r-new".to_string(),
    };
    let r = apply_refresh(&mut c, renewed);
    assert_eq!(r.client_id, "id");
    assert_eq!(r.token, "new");
    assert_eq!(c.expiry, "2030-01-01T00:00:00Z");
    assert_eq!(c.refresh_token, "r-new");
}
