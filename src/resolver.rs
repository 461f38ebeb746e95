use vstd::prelude::*;

use crate::clock::{expired_at, rfc3339_instant, Timestamp};
use crate::github::Token;
use crate::{Credential, CredentialError, CredentialRequest};

verus! {

/// What the resolver asks its driver to do next.
#[derive(Debug)]
pub enum Step {
    /// No binding applies: hand the request to the fallback helper.
    Delegate,
    /// Look up the stored bundle of the request.
    FetchStored,
    /// The stored bundle is still valid: hand it back.
    ReturnCached(Credential),
    /// The stored bundle has expired: exchange its refresh token.
    Refresh(Credential),
    /// Run the device flow to obtain a new bundle.
    Authenticate,
    /// Store this bundle, then hand it back.
    StoreAndReturn(Credential),
    /// Resolution failed.
    Fail(CredentialError),
}

/// The kind of a step, without what it carries.
#[derive(Debug, Clone, Copy, PartialEq, Eq, Structural)]
pub enum Action {
    Delegate,
    FetchStored,
    ReturnCached,
    Refresh,
    Authenticate,
    StoreAndReturn,
    Fail,
}

impl Step {
    /// The kind of this step.
    pub open spec fn action(&self) -> Action {
        match self {
            Step::Delegate => Action::Delegate,
            Step::FetchStored => Action::FetchStored,
            Step::ReturnCached(_) => Action::ReturnCached,
            Step::Refresh(_) => Action::Refresh,
            Step::Authenticate => Action::Authenticate,
            Step::StoreAndReturn(_) => Action::StoreAndReturn,
            Step::Fail(_) => Action::Fail,
        }
    }
}

/// The step that follows a refresh exchange that succeeded (`ok`) or failed.
pub open spec fn after_refresh_action(ok: bool) -> Action {
    if ok {
        Action::StoreAndReturn
    } else {
        Action::Authenticate
    }
}

/// The step that follows a device flow that succeeded (`ok`) or failed.
pub open spec fn after_authenticate_action(ok: bool) -> Action {
    if ok {
        Action::StoreAndReturn
    } else {
        Action::Fail
    }
}

/// `out` is `inp` with its username set to its storage identity.
pub open spec fn identity_pinned(out: CredentialRequest, inp: CredentialRequest) -> bool {
    &&& out.username@ == inp.identity()
    &&& out.host == inp.host
    &&& out.protocol == inp.protocol
    &&& out.path == inp.path
    &&& out.port == inp.port
    &&& out.config == inp.config
    &&& out.binding() == inp.binding()
    &&& out.identity() == inp.identity()
}

/// First step of `get`: without a binding the request goes to the fallback
/// helper and the store is never consulted.
pub fn begin_get(request: &CredentialRequest) -> (r: Step)
    ensures
        request.binding() is None ==> r is Delegate,
        request.binding() is Some ==> r is FetchStored,
{
    if request.is_configured() {
        Step::FetchStored
    } else {
        Step::Delegate
    }
}

/// Sets the username of `request` to its storage identity, as the device
/// flow and the refresh exchange expect.
fn pin_identity(request: &mut CredentialRequest)
    requires
        old(request).binding() is Some,
    ensures
        identity_pinned(*final(request), *old(request)),
{
    request.username = request.client_id();
}

/// The step after the store was consulted for `stored`, at time `now`: no bundle
/// means authenticating, a valid one is handed back, an expired one is refreshed.
/// Before a refresh or an authentication the username is set to the identity.
pub fn after_fetch_at(request: &mut CredentialRequest, stored: Option<Credential>, now: Timestamp) -> (r:
    Step)
    requires
        old(request).binding() is Some,
    ensures
        stored is None ==> r is Authenticate && identity_pinned(*final(request), *old(request)),
        stored is Some && !expired_at(stored->0.expiry@, now) ==> r == Step::ReturnCached(stored->0)
            && *final(request) == *old(request),
        stored is Some && expired_at(stored->0.expiry@, now) ==> r == Step::Refresh(stored->0)
            && identity_pinned(*final(request), *old(request)),
{
    match stored {
        None => {
            pin_identity(request);
            Step::Authenticate
        },
        Some(c) => {
            if c.is_expired_at(now) {
                pin_identity(request);
                Step::Refresh(c)
            } else {
                Step::ReturnCached(c)
            }
        },
    }
}

/// As `after_fetch_at`, at the current time.
pub fn after_fetch(request: &mut CredentialRequest, stored: Option<Credential>) -> (r: Step)
    requires
        old(request).binding() is Some,
    ensures
        stored is None ==> r is Authenticate && identity_pinned(*final(request), *old(request)),
        stored is Some ==> (r == Step::ReturnCached(stored->0) && *final(request) == *old(request))
            || (r == Step::Refresh(stored->0) && identity_pinned(*final(request), *old(request))),
        stored is Some && r is Refresh ==> exists|now: Timestamp|
            expired_at(stored->0.expiry@, now),
        stored is Some && r is ReturnCached ==> exists|now: Timestamp|
            !expired_at(stored->0.expiry@, now),
        stored is Some && rfc3339_instant(stored->0.expiry@) is None ==> r is ReturnCached,
{
    match stored {
        None => {
            pin_identity(request);
            Step::Authenticate
        },
        Some(c) => {
            if c.is_expired() {
                pin_identity(request);
                Step::Refresh(c)
            } else {
                Step::ReturnCached(c)
            }
        },
    }
}

/// The step after the refresh exchange for the expired bundle `stored`: a renewed
/// token is merged into the bundle and stored; a failed exchange is not retried,
/// the device flow runs instead.
pub fn after_refresh(stored: Credential, refreshed: Result<Token, String>) -> (r: Step)
    ensures
        r.action() == after_refresh_action(refreshed is Ok),
        refreshed is Ok ==> {
            &&& r is StoreAndReturn
            &&& r->StoreAndReturn_0.client_id == stored.client_id
            &&& r->StoreAndReturn_0.token == refreshed->Ok_0.token
            &&& r->StoreAndReturn_0.expiry == refreshed->Ok_0.expiry
            &&& r->StoreAndReturn_0.refresh_token == refreshed->Ok_0.refresh_token
        },
{
    match refreshed {
        Ok(t) => {
            let mut c = stored;
            let renewed = crate::github::apply_refresh(&mut c, t);
            Step::StoreAndReturn(renewed)
        },
        Err(_) => Step::Authenticate,
    }
}

/// The step after the device flow: a new bundle is stored, a failure ends resolution.
pub fn after_authenticate(authenticated: Result<Credential, CredentialError>) -> (r: Step)
    ensures
        r.action() == after_authenticate_action(authenticated is Ok),
        authenticated is Ok ==> r == Step::StoreAndReturn(authenticated->Ok_0),
        authenticated is Err ==> r == Step::Fail(authenticated->Err_0),
{
    match authenticated {
        Ok(c) => Step::StoreAndReturn(c),
        Err(e) => Step::Fail(e),
    }
}

/// First step of `login`: a request without a username is refused; one whose
/// storage identity can be told is authenticated; any other is refused too.
pub fn begin_login(request: &CredentialRequest) -> (r: Step)
    ensures
        request.username@.len() == 0 ==> r is Fail,
        request.username@.len() > 0 && request.identity_known() ==> r is Authenticate,
        !request.identity_known() ==> r is Fail,
{
    if request.username.as_str().is_empty() {
        return Step::Fail(CredentialError("No Client ID configuration found.".to_owned()));
    }
    let named = !(request.username == "x-oauth-token".to_owned());
    if named || request.is_configured() {
        Step::Authenticate
    } else {
        Step::Fail(CredentialError("No Client ID configuration found.".to_owned()))
    }
}

/// A failed refresh leads to exactly one authentication: the refresh is not
/// retried, and no outcome of that authentication leads to another refresh or
/// another authentication.
pub proof fn lemma_refresh_failure_authenticates_once(ok: bool)
    ensures
        after_refresh_action(false) == Action::Authenticate,
        after_authenticate_action(ok) != Action::Refresh,
        after_authenticate_action(ok) != Action::Authenticate,
{
}

} // verus!
