use vstd::prelude::*;

use crate::{Credential, CredentialError};

verus! {

/// The number of polls the device flow makes before it gives up.
pub const MAX_POLL_ATTEMPTS: u32 = 20;

/// A token as the provider issued or renewed it.
#[derive(Debug)]
pub struct Token {
    pub token: String,
    pub expiry: String,
    pub refresh_token: String,
}

/// What one poll of the token endpoint reported.
#[derive(Debug)]
pub enum PollResponse {
    /// Not authorized yet (`authorization_pending`, or `slow_down`).
    Pending,
    /// The operator authorized the device: the token issued.
    Granted(Token),
    /// The endpoint answered with a terminal error, described by the text.
    Failed(String),
}

/// Where a sequence of poll responses leaves the device flow, with the number of polls made.
pub enum PollEnd {
    /// Still waiting for authorization.
    Waiting(nat),
    /// A token was issued.
    Granted(Token, nat),
    /// The endpoint refused.
    Refused(nat),
    /// The poll budget is spent.
    Exhausted(nat),
}

/// Feeds `rs` to a device flow that has polled `attempts` times out of `max`,
/// stopping at the first token, the first refusal, or the last poll of the budget.
pub open spec fn poll_run(attempts: nat, max: nat, rs: Seq<PollResponse>) -> PollEnd
    decreases rs.len(),
{
    if rs.len() == 0 {
        PollEnd::Waiting(attempts)
    } else {
        match rs[0] {
            PollResponse::Granted(t) => PollEnd::Granted(t, attempts + 1),
            PollResponse::Failed(_) => PollEnd::Refused(attempts + 1),
            PollResponse::Pending => if attempts + 1 >= max {
                PollEnd::Exhausted(attempts + 1)
            } else {
                poll_run(attempts + 1, max, rs.drop_first())
            },
        }
    }
}

/// `c` is the bundle that the device flow makes of `t`: no identity yet, the token's fields.
pub open spec fn issued(c: Credential, t: Token) -> bool {
    &&& c.client_id@.len() == 0
    &&& c.token == t.token
    &&& c.expiry == t.expiry
    &&& c.refresh_token == t.refresh_token
}

/// What the poller tells its driver after a poll.
#[derive(Debug)]
pub enum PollStep {
    /// Wait the poll interval, then poll again.
    Wait,
    /// Authorization is done: the new bundle.
    Done(Credential),
    /// The flow failed; nothing more is polled.
    Fail(CredentialError),
}

/// The device flow's poll loop: counts polls against a fixed budget.
#[derive(Debug)]
pub struct DevicePoll {
    pub attempts: u32,
    pub max_attempts: u32,
}

impl DevicePoll {
    /// A poller that has not polled yet, with a budget of `max_attempts` polls.
    pub fn new(max_attempts: u32) -> (r: DevicePoll)
        ensures
            r.attempts == 0,
            r.max_attempts == max_attempts,
    {
        DevicePoll { attempts: 0, max_attempts }
    }

    /// Whether the budget allows another poll.
    pub fn may_poll(&self) -> (r: bool)
        ensures
            r == (self.attempts < self.max_attempts),
    {
        self.attempts < self.max_attempts
    }

    /// Takes the response of one more poll and says what comes next.
    pub fn record(&mut self, response: PollResponse) -> (r: PollStep)
        requires
            old(self).attempts < old(self).max_attempts,
        ensures
            final(self).attempts == old(self).attempts + 1,
            final(self).max_attempts == old(self).max_attempts,
            response is Pending ==> (r is Wait <==> final(self).attempts < final(self).max_attempts),
            response is Pending ==> (r is Fail <==> final(self).attempts == final(self).max_attempts),
            response is Granted ==> r is Done && issued(r->Done_0, response->Granted_0),
            response is Failed ==> r is Fail && r->Fail_0.0 == response->Failed_0,
            match poll_run(
                old(self).attempts as nat,
                old(self).max_attempts as nat,
                seq![response],
            ) {
                PollEnd::Waiting(_) => r is Wait,
                PollEnd::Granted(t, _) => r is Done && issued(r->Done_0, t),
                PollEnd::Refused(_) => r is Fail,
                PollEnd::Exhausted(_) => r is Fail,
            },
    {
        proof {
            let rs = seq![response];
            assert(rs.drop_first() =~= Seq::<PollResponse>::empty());
            assert(poll_run((old(self).attempts + 1) as nat, old(self).max_attempts as nat, rs.drop_first())
                == PollEnd::Waiting((old(self).attempts + 1) as nat));
        }
        self.attempts = self.attempts + 1;
        match response {
            PollResponse::Pending => {
                if self.attempts < self.max_attempts {
                    PollStep::Wait
                } else {
                    PollStep::Fail(CredentialError("Max poll iterations reached".to_owned()))
                }
            },
            PollResponse::Granted(t) => PollStep::Done(from_token(t)),
            PollResponse::Failed(reason) => PollStep::Fail(CredentialError(reason)),
        }
    }
}

/// The bundle that the device flow makes of an issued token.
pub fn from_token(t: Token) -> (r: Credential)
    ensures
        issued(r, t),
{
    Credential {
        client_id: String::new(),
        token: t.token,
        expiry: t.expiry,
        refresh_token: t.refresh_token,
    }
}

/// Puts a renewed token into `credential` and returns the result; its identity stays.
pub fn apply_refresh(credential: &mut Credential, renewed: Token) -> (r: Credential)
    ensures
        final(credential).client_id == old(credential).client_id,
        final(credential).token == renewed.token,
        final(credential).expiry == renewed.expiry,
        final(credential).refresh_token == renewed.refresh_token,
        r == *final(credential),
{
    credential.token = renewed.token;
    credential.refresh_token = renewed.refresh_token;
    credential.expiry = renewed.expiry;
    credential.clone()
}

/// A device flow that hears only "pending" ends with its budget spent:
/// exactly `max` polls, never more, and no token.
pub proof fn lemma_only_pending_exhausts(attempts: nat, max: nat, rs: Seq<PollResponse>)
    requires
        attempts < max,
        rs.len() >= max - attempts,
        forall|i: int| 0 <= i < rs.len() ==> #[trigger] rs[i] is Pending,
    ensures
        poll_run(attempts, max, rs) == PollEnd::Exhausted(max),
    decreases rs.len(),
{
    if attempts + 1 < max {
        let rest = rs.drop_first();
        assert forall|i: int| 0 <= i < rest.len() implies #[trigger] rest[i] is Pending by {
            assert(rest[i] == rs[i + 1]);
        }
        lemma_only_pending_exhausts(attempts + 1, max, rest);
    }
}

/// `k` "pending" answers followed by a grant, within the budget, give the
/// granted token after exactly `k + 1` polls.
pub proof fn lemma_grant_after_pending(
    attempts: nat,
    max: nat,
    k: nat,
    rs: Seq<PollResponse>,
    t: Token,
)
    requires
        attempts + k < max,
        rs.len() > k,
        forall|i: int| 0 <= i < k ==> #[trigger] rs[i] is Pending,
        rs[k as int] == PollResponse::Granted(t),
    ensures
        poll_run(attempts, max, rs) == PollEnd::Granted(t, attempts + k + 1),
    decreases k,
{
    if k > 0 {
        let rest = rs.drop_first();
        assert forall|i: int| 0 <= i < k - 1 implies #[trigger] rest[i] is Pending by {
            assert(rest[i] == rs[i + 1]);
        }
        assert(rest[k - 1] == rs[k as int]);
        lemma_grant_after_pending(attempts + 1, max, (k - 1) as nat, rest, t);
    }
}

} // verus!
