//! Wall-clock time in milliseconds.

use chrono::Timelike;
use vstd::prelude::*;

verus! {

/// A reading of the wall clock: whole seconds since the Unix epoch, and the
/// nanoseconds that have passed since that whole second.
#[derive(Clone, Copy, Debug)]
pub struct Moment {
    pub seconds: i64,
    pub nanoseconds: u32,
}

impl Moment {
    /// The reading in milliseconds since the Unix epoch: a thousand for each whole
    /// second, and one for each full million of nanoseconds.
    pub open spec fn in_ms(self) -> int {
        self.seconds * 1000 + self.nanoseconds / 1_000_000
    }

    /// A reading that a clock can give: within ten trillion seconds of the epoch,
    /// with less than two seconds' worth of nanoseconds.
    pub open spec fn plausible(self) -> bool {
        &&& -10_000_000_000_000 <= self.seconds <= 10_000_000_000_000
        &&& self.nanoseconds < 2_000_000_000
    }

    /// The reading in nanoseconds since the Unix epoch.
    pub open spec fn in_ns(self) -> int {
        self.seconds * 1_000_000_000 + self.nanoseconds
    }

    /// Milliseconds lose less than a millisecond: the reading lies at or after
    /// its milliseconds, and before the next millisecond.
    pub proof fn lemma_within_a_millisecond(self)
        ensures
            self.in_ms() * 1_000_000 <= self.in_ns() < (self.in_ms() + 1) * 1_000_000,
    {
    }

    /// The reading in milliseconds since the Unix epoch.
    pub fn millis(&self) -> (ms: i64)
        requires
            i64::MIN <= self.in_ms() <= i64::MAX,
        ensures
            ms == self.in_ms(),
    {
        let whole: i128 = self.seconds as i128 * 1000;
        let part: i128 = (self.nanoseconds / 1_000_000) as i128;
        (whole + part) as i64
    }
}

/// Reads the clock with `chrono::Local::now` and takes from the reading its
/// `timestamp` and its `nanosecond`. The contract claims what chrono documents of
/// every date and time it can hold: the year lies between 262144 BCE and 262143
/// CE, which is within ten trillion seconds of the epoch, and the nanoseconds
/// stay below two billion, the second billion standing for a leap second.
#[verifier::external_body]
pub(crate) fn wall_clock() -> (now: Moment)
    ensures
        now.plausible(),
{
    let now = chrono::Local::now();
    Moment { seconds: now.timestamp(), nanoseconds: now.nanosecond() }
}

/// Returns Unix timestamp in ms.
///
/// What the clock shows is not known beforehand; whatever it shows, the result
/// is `Moment::in_ms` of a plausible reading.
pub fn now_in_ms() -> (ms: i64)
    ensures
        exists|now: Moment| now.plausible() && ms == now.in_ms(),
        -10_000_000_000_000_000 <= ms <= 10_000_000_000_001_999,
{
    let now = wall_clock();
    now.millis()
}

} // verus!
