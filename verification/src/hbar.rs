//! Amounts of the ledger's currency and spans of time.

use vstd::prelude::*;

verus! {

/// An amount of hbar, counted in tinybars.
#[derive(Clone, Copy, Debug, PartialEq, Eq, Structural)]
pub struct Hbar {
    pub tinybars: i64,
}

impl Hbar {
    /// No hbar.
    pub fn zero() -> (h: Hbar)
        ensures
            h.tinybars == 0,
    {
        Hbar { tinybars: 0 }
    }

    /// The amount of `tinybars` tinybars.
    pub fn from_tinybars(tinybars: i64) -> (h: Hbar)
        ensures
            h.tinybars == tinybars,
    {
        Hbar { tinybars }
    }

    /// The amount in tinybars.
    pub fn to_tinybars(&self) -> (t: i64)
        ensures
            t == self.tinybars,
    {
        self.tinybars
    }
}

/// The number of seconds in a day.
pub const SECONDS_PER_DAY: i64 = 86_400;

/// A span of time in whole seconds.
#[derive(Clone, Copy, Debug, PartialEq, Eq, Structural)]
pub struct Duration {
    pub seconds: i64,
}

impl Duration {
    /// The span of `seconds` seconds.
    pub fn seconds(seconds: i64) -> (d: Duration)
        ensures
            d.seconds == seconds,
    {
        Duration { seconds }
    }

    /// The span of `days` days.
    pub fn days(days: i64) -> (d: Duration)
        requires
            i64::MIN <= days * SECONDS_PER_DAY <= i64::MAX,
        ensures
            d.seconds == days * SECONDS_PER_DAY,
    {
        Duration { seconds: whole_seconds_of_days(days) }
    }
}

/// Calls `time::Duration::days` and reads the result back with
/// `whole_seconds`. The time crate builds the duration from `days * 86_400`
/// seconds and panics where that product overflows, which the precondition
/// leaves out; `whole_seconds` returns that number of seconds.
#[verifier::external_body]
fn whole_seconds_of_days(days: i64) -> (seconds: i64)
    requires
        i64::MIN <= days * SECONDS_PER_DAY <= i64::MAX,
    ensures
        seconds == days * SECONDS_PER_DAY,
{
    time::Duration::days(days).whole_seconds()
}

} // verus!
