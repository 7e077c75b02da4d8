//! Moments in time, without an offset from UTC.

use vstd::prelude::*;

use crate::outside::{add_seconds, saturating_add_seconds};

verus! {

/// The nanoseconds of one second.
pub const NANOS_PER_SECOND: i128 = 1_000_000_000;

/// The start of the year -9999, in nanoseconds since the Unix epoch.
pub const MIN_UNIX_NANOS: i128 = -377_705_116_800_000_000_000;

/// The last nanosecond of the year 9999, in nanoseconds since the Unix epoch.
pub const MAX_UNIX_NANOS: i128 = 253_402_300_799_999_999_999;

/// A moment, as nanoseconds since the Unix epoch.
#[derive(Clone, Copy, Debug, PartialEq, Eq, Structural)]
pub struct PrimitiveDateTime {
    pub unix_nanos: i128,
}

impl PrimitiveDateTime {
    /// Whether the moment lies within the years that can be expressed.
    pub open spec fn wf(self) -> bool {
        MIN_UNIX_NANOS <= self.unix_nanos <= MAX_UNIX_NANOS
    }

    /// The moment that lies `unix_nanos` nanoseconds after the Unix epoch.
    pub fn from_unix_nanos(unix_nanos: i128) -> (r: Option<PrimitiveDateTime>)
        ensures
            r is Some <==> MIN_UNIX_NANOS <= unix_nanos <= MAX_UNIX_NANOS,
            r matches Some(moment) ==> moment.wf() && moment.unix_nanos == unix_nanos,
    {
        if MIN_UNIX_NANOS <= unix_nanos && unix_nanos <= MAX_UNIX_NANOS {
            Some(PrimitiveDateTime { unix_nanos })
        } else {
            None
        }
    }

    /// Whether this moment lies after `other`.
    pub fn is_after(&self, other: &PrimitiveDateTime) -> (r: bool)
        ensures
            r == (self.unix_nanos > other.unix_nanos),
    {
        self.unix_nanos > other.unix_nanos
    }

    /// Whether the moment `seconds` later can be expressed.
    pub open spec fn can_add(self, seconds: int) -> bool {
        MIN_UNIX_NANOS <= self.unix_nanos + seconds * NANOS_PER_SECOND <= MAX_UNIX_NANOS
    }

    /// The moment `seconds` later.
    pub fn plus_seconds(self, seconds: i64) -> (r: PrimitiveDateTime)
        requires
            self.wf(),
            self.can_add(seconds as int),
        ensures
            r.wf(),
            r.unix_nanos == self.unix_nanos + seconds * NANOS_PER_SECOND,
    {
        PrimitiveDateTime { unix_nanos: add_seconds(self.unix_nanos, seconds) }
    }

    /// The moment `seconds` later, held within the years that can be expressed.
    pub open spec fn saturated_sum(self, seconds: int) -> int {
        let sum = self.unix_nanos + seconds * NANOS_PER_SECOND;
        if sum < MIN_UNIX_NANOS {
            MIN_UNIX_NANOS as int
        } else if sum > MAX_UNIX_NANOS {
            MAX_UNIX_NANOS as int
        } else {
            sum
        }
    }

    /// Computes [`PrimitiveDateTime::saturated_sum`].
    pub fn saturating_plus_seconds(self, seconds: i64) -> (r: PrimitiveDateTime)
        requires
            self.wf(),
        ensures
            r.wf(),
            r.unix_nanos == self.saturated_sum(seconds as int),
    {
        PrimitiveDateTime { unix_nanos: saturating_add_seconds(self.unix_nanos, seconds) }
    }
}

/// The moments that can be expressed are those from the start of the year -9999
/// to the end of the year 9999, to the nanosecond.
pub proof fn moments_span_their_years(unix_nanos: i128, moment: Option<PrimitiveDateTime>)
    requires
        call_ensures(PrimitiveDateTime::from_unix_nanos, (unix_nanos,), moment),
    ensures
        moment is Some <==> -4_371_587 * 86_400 * 1_000_000_000 <= unix_nanos < 2_932_897 * 86_400
            * 1_000_000_000,
        moment matches Some(value) ==> value.unix_nanos == unix_nanos,
{
}

/// Seconds that were added can be taken off again, a later moment is after an
/// earlier one, and no moment is after itself.
pub proof fn seconds_are_added(
    start: PrimitiveDateTime,
    seconds: i64,
    end: PrimitiveDateTime,
    is_later: bool,
)
    requires
        start.wf(),
        start.can_add(seconds as int),
        call_ensures(PrimitiveDateTime::plus_seconds, (start, seconds), end),
        call_ensures(PrimitiveDateTime::is_after, (&end, &start), is_later),
    ensures
        end.unix_nanos - start.unix_nanos == seconds * 1_000_000_000,
        is_later <==> seconds > 0,
{
    assert(NANOS_PER_SECOND == 1_000_000_000);
}

/// A sum that is held within the years that can be expressed is the exact one
/// where that can be expressed, and else the moment next to it that can.
pub proof fn sums_are_held_within_the_years(
    start: PrimitiveDateTime,
    seconds: i64,
    end: PrimitiveDateTime,
)
    requires
        start.wf(),
        call_ensures(PrimitiveDateTime::saturating_plus_seconds, (start, seconds), end),
    ensures
        start.can_add(seconds as int) ==> end.unix_nanos - start.unix_nanos == seconds
            * 1_000_000_000,
        !start.can_add(seconds as int) && seconds > 0 ==> end.unix_nanos + 1 == 2_932_897 * 86_400
            * 1_000_000_000,
        !start.can_add(seconds as int) && seconds < 0 ==> end.unix_nanos == -4_371_587 * 86_400
            * 1_000_000_000,
{
    assert(NANOS_PER_SECOND == 1_000_000_000);
}

/// Of two moments the one with more nanoseconds behind it lies after the other,
/// however close they are; so at most one of two lies after the other.
pub proof fn moments_are_in_order(
    moment: PrimitiveDateTime,
    other: PrimitiveDateTime,
    is_after: bool,
    is_before: bool,
)
    requires
        call_ensures(PrimitiveDateTime::is_after, (&moment, &other), is_after),
        call_ensures(PrimitiveDateTime::is_after, (&other, &moment), is_before),
    ensures
        is_after <==> moment.unix_nanos - other.unix_nanos >= 1,
        !(is_after && is_before),
        !is_after && !is_before ==> moment == other,
{
}

} // verus!
