//! When a session ends.
//!
//! Moments are Unix timestamps and spans are whole seconds, both `i64`: what
//! the store takes as the deadline of a record and a cookie as its age.

use vstd::prelude::*;

verus! {

/// The longest that the store keeps a record without a fixed deadline, in
/// seconds: two weeks. A session whose end is left to the browser lasts that
/// long in the store, and no span of inactivity counts for more.
pub const DEFAULT_DURATION: i64 = 1_209_600;

/// `a + b`, held within the range of `i64`.
pub open spec fn saturating_sum(a: int, b: int) -> int {
    if a + b > i64::MAX {
        i64::MAX as int
    } else if a + b < i64::MIN {
        i64::MIN as int
    } else {
        a + b
    }
}

/// `a - b`, held within the range of `i64`.
pub open spec fn saturating_difference(a: int, b: int) -> int {
    saturating_sum(a, -b)
}

/// The span of inactivity that counts for `duration`: none for a negative
/// one, and no more than [`DEFAULT_DURATION`].
pub open spec fn held_inactivity(duration: int) -> int {
    if duration < 0 {
        0
    } else if duration > DEFAULT_DURATION {
        DEFAULT_DURATION as int
    } else {
        duration
    }
}

/// `a + b`, held within the range of `i64`.
pub fn saturating_add(a: i64, b: i64) -> (r: i64)
    ensures
        r == saturating_sum(a as int, b as int),
{
    match a.checked_add(b) {
        Some(sum) => sum,
        None => if b < 0 {
            i64::MIN
        } else {
            i64::MAX
        },
    }
}

/// `a - b`, held within the range of `i64`.
pub fn saturating_sub(a: i64, b: i64) -> (r: i64)
    ensures
        r == saturating_difference(a as int, b as int),
{
    match a.checked_sub(b) {
        Some(difference) => difference,
        None => if b < 0 {
            i64::MAX
        } else {
            i64::MIN
        },
    }
}

/// Calls `OffsetDateTime::now_utc` of `time` and takes its Unix timestamp.
///
/// Nothing is believed of the moment that comes back.
#[verifier::external_body]
fn now_utc() -> i64 {
    time::OffsetDateTime::now_utc().unix_timestamp()
}

/// Session expiry configuration.
#[derive(Clone, Copy, Debug, PartialEq, Eq, Structural)]
pub enum Expiry {
    /// Expire on current session end, as defined by the browser. The store
    /// keeps the record for [`DEFAULT_DURATION`].
    OnSessionEnd,
    /// Expire after this many seconds of inactivity, counted from the last
    /// time the session was written. The store never keeps the record for
    /// longer than [`DEFAULT_DURATION`], nor for less than no time.
    OnInactivity(i64),
    /// Expire at this moment.
    AtDateTime(i64),
}

impl Expiry {
    /// The moment at which a session with this policy, written at `now`, ends.
    /// Without a fixed deadline that is `now` or later, and no later than
    /// [`DEFAULT_DURATION`] after `now`.
    pub open spec fn date_at(self, now: int) -> int {
        match self {
            Expiry::OnInactivity(duration) => saturating_sum(now, held_inactivity(duration as int)),
            Expiry::AtDateTime(datetime) => datetime as int,
            Expiry::OnSessionEnd => saturating_sum(now, DEFAULT_DURATION as int),
        }
    }

    /// The seconds left at `now` until the session ends, never negative.
    pub open spec fn age_at(self, now: int) -> int {
        let left = saturating_difference(self.date_at(now), now);
        if left < 0 {
            0
        } else {
            left
        }
    }

    /// The `Max-Age` of the cookie that carries the session, issued at `now`:
    /// none where the browser decides.
    pub open spec fn cookie_age_at(self, now: int) -> Option<int> {
        match self {
            Expiry::OnInactivity(duration) => Some(duration as int),
            Expiry::AtDateTime(datetime) => Some(saturating_difference(datetime as int, now)),
            Expiry::OnSessionEnd => None,
        }
    }

    /// Session expiry as a moment, for a session written at `now`.
    pub fn expiry_date_at(&self, now: i64) -> (date: i64)
        ensures
            date == self.date_at(now as int),
            *self is OnInactivity ==> now <= date <= saturating_sum(
                now as int,
                DEFAULT_DURATION as int,
            ),
            *self is OnSessionEnd ==> date >= now,
    {
        match self {
            Expiry::OnInactivity(duration) => {
                let held = if *duration < 0 {
                    0
                } else if *duration > DEFAULT_DURATION {
                    DEFAULT_DURATION
                } else {
                    *duration
                };
                saturating_add(now, held)
            },
            Expiry::AtDateTime(datetime) => *datetime,
            Expiry::OnSessionEnd => saturating_add(now, DEFAULT_DURATION),
        }
    }

    /// Session expiry as a moment, counted from the clock's present reading.
    pub fn expiry_date(&self) -> (date: i64)
        ensures
            exists|now: i64| date == self.date_at(now as int),
            *self matches Expiry::AtDateTime(datetime) ==> date == datetime,
    {
        let now = now_utc();
        self.expiry_date_at(now)
    }

    /// Seconds until the session ends, counted from `now`; zero once it has
    /// ended.
    pub fn expiry_age_at(&self, now: i64) -> (age: i64)
        ensures
            age == self.age_at(now as int),
            age >= 0,
            !(*self is AtDateTime) ==> age <= DEFAULT_DURATION,
    {
        let left = saturating_sub(self.expiry_date_at(now), now);
        if left < 0 {
            0
        } else {
            left
        }
    }

    /// Seconds until the session ends, counted from the clock's present
    /// reading.
    pub fn expiry_age(&self) -> (age: i64)
        ensures
            exists|now: i64| age == self.age_at(now as int),
            age >= 0,
    {
        let now = now_utc();
        self.expiry_age_at(now)
    }

    /// The `Max-Age` of a cookie issued at `now`.
    pub fn max_age_at(&self, now: i64) -> (age: Option<i64>)
        ensures
            age.is_some() == self.cookie_age_at(now as int).is_some(),
            age matches Some(seconds) ==> self.cookie_age_at(now as int) == Some(seconds as int),
    {
        match self {
            Expiry::OnInactivity(duration) => Some(*duration),
            Expiry::AtDateTime(datetime) => Some(saturating_sub(*datetime, now)),
            Expiry::OnSessionEnd => None,
        }
    }
}

/// The end of a session without a fixed deadline is never before the moment
/// at which it was written, nor more than [`DEFAULT_DURATION`] after it,
/// however long or short the span of inactivity that the policy names.
pub proof fn lemma_expiry_date_within_cap(expiry: Expiry, now: i64)
    requires
        !(expiry is AtDateTime),
    ensures
        now <= expiry.date_at(now as int) <= saturating_sum(now as int, DEFAULT_DURATION as int),
        0 <= expiry.age_at(now as int) <= DEFAULT_DURATION,
{
}

/// A later clock never gives an earlier end: the end of a session written at
/// `later` is no earlier than that of one written at `earlier`.
pub proof fn lemma_expiry_date_monotonic(expiry: Expiry, earlier: int, later: int)
    requires
        earlier <= later,
    ensures
        expiry.date_at(earlier) <= expiry.date_at(later),
{
}

/// Evaluating a policy is idempotent: the moment it yields, taken as a fixed
/// deadline, yields itself whatever the clock shows.
pub proof fn lemma_expiry_date_idempotent(expiry: Expiry, now: i64, again: int)
    ensures
        Expiry::AtDateTime(expiry.date_at(now as int) as i64).date_at(again) == expiry.date_at(
            now as int,
        ),
{
}

} // verus!
