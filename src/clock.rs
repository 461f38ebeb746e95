use vstd::prelude::*;

use crate::Credential;

verus! {

/// An instant: whole seconds since the Unix epoch, and nanoseconds past them
/// (a leap second carries them to 1_000_000_000 and beyond).
#[derive(Debug, Clone, Copy, PartialEq, Eq, Structural)]
pub struct Timestamp {
    pub secs: i64,
    pub nanos: u32,
}

/// `a` comes strictly before `b`.
pub open spec fn earlier(a: Timestamp, b: Timestamp) -> bool {
    a.secs < b.secs || (a.secs == b.secs && a.nanos < b.nanos)
}

/// The instant that an RFC 3339 text denotes, as seconds since the Unix epoch
/// and nanoseconds past them; none when the text is no RFC 3339 date-time.
pub uninterp spec fn rfc3339_instant(s: Seq<char>) -> Option<(i64, u32)>;

/// A bundle with expiry text `expiry` counts as expired at `now`: the text
/// denotes an instant and `now` is past it. Text that denotes no instant never expires.
pub open spec fn expired_at(expiry: Seq<char>, now: Timestamp) -> bool {
    match rfc3339_instant(expiry) {
        Some(e) => earlier(Timestamp { secs: e.0, nanos: e.1 }, now),
        None => false,
    }
}

/// Relies on chrono's `DateTime::parse_from_rfc3339`, read back with `timestamp`
/// and `timestamp_subsec_nanos`; an empty text is no date-time.
#[verifier::external_body]
fn parse_rfc3339(s: &str) -> (r: Option<(i64, u32)>)
    ensures
        r == rfc3339_instant(s@),
        s@.len() == 0 ==> r is None,
{
    match chrono::DateTime::parse_from_rfc3339(s) {
        Ok(t) => Some((t.timestamp(), t.timestamp_subsec_nanos())),
        Err(_) => None,
    }
}

/// Relies on chrono's `From<SystemTime>` for `DateTime<Utc>` (which also takes
/// a clock set before 1970) applied to `SystemTime::now`, read back with
/// `timestamp` and `timestamp_subsec_nanos`.
#[verifier::external_body]
fn now_utc() -> (r: (i64, u32)) {
    let t = chrono::DateTime::<chrono::Utc>::from(std::time::SystemTime::now());
    (t.timestamp(), t.timestamp_subsec_nanos())
}

impl Credential {
    /// Whether this bundle has expired at `now`.
    pub fn is_expired_at(&self, now: Timestamp) -> (r: bool)
        ensures
            r == expired_at(self.expiry@, now),
            self.expiry@.len() == 0 ==> !r,
    {
        match parse_rfc3339(self.expiry.as_str()) {
            Some((secs, nanos)) => secs < now.secs || (secs == now.secs && nanos < now.nanos),
            None => false,
        }
    }

    /// Whether this bundle has expired at the current time.
    pub fn is_expired(&self) -> (r: bool)
        ensures
            exists|now: Timestamp| r == expired_at(self.expiry@, now),
            rfc3339_instant(self.expiry@) is None ==> !r,
            self.expiry@.len() == 0 ==> !r,
    {
        let (secs, nanos) = now_utc();
        self.is_expired_at(Timestamp { secs, nanos })
    }
}

/// A bundle whose expiry text denotes no instant (empty or unreadable) is never expired.
pub proof fn lemma_unreadable_expiry_never_expires(expiry: Seq<char>, now: Timestamp)
    requires
        rfc3339_instant(expiry) is None,
    ensures
        !expired_at(expiry, now),
{
}

/// One second after the expiry instant a bundle is expired; one second before it, not.
pub proof fn lemma_expiry_one_second(expiry: Seq<char>, secs: i64, nanos: u32, now: Timestamp)
    requires
        rfc3339_instant(expiry) == Some((secs, nanos)),
        now.nanos == nanos,
    ensures
        now.secs == secs + 1 ==> expired_at(expiry, now),
        now.secs == secs - 1 ==> !expired_at(expiry, now),
{
}

} // verus!
