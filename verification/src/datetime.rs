//! Calendar date-times as plain values: year, month, day, hour, minute,
//! second, with a well-formedness predicate and a verified lexicographic
//! order. The remote service and the store exchange times in this shape;
//! whatever clock or time-zone work is needed happens outside this crate.

use vstd::prelude::*;

verus! {

/// A wall-clock date and time, to second precision.
#[derive(Clone, Copy, PartialEq, Eq, Structural, Debug, Hash)]
pub struct DateTime {
    pub year: i32,
    pub month: u8,
    pub day: u8,
    pub hour: u8,
    pub minute: u8,
    pub second: u8,
}

impl DateTime {
    /// Field ranges of a plausible calendar time. Month lengths are not
    /// modelled: the values come from the remote service, which already
    /// emits real dates.
    pub open spec fn wf(self) -> bool {
        &&& 1 <= self.month <= 12
        &&& 1 <= self.day <= 31
        &&& self.hour < 24
        &&& self.minute < 60
        &&& self.second < 60
    }

    /// Lexicographic order on (year, month, day, hour, minute, second):
    /// the chronological order for well-formed values.
    pub open spec fn spec_le(a: DateTime, b: DateTime) -> bool {
        if a.year != b.year {
            a.year < b.year
        } else if a.month != b.month {
            a.month < b.month
        } else if a.day != b.day {
            a.day < b.day
        } else if a.hour != b.hour {
            a.hour < b.hour
        } else if a.minute != b.minute {
            a.minute < b.minute
        } else {
            a.second <= b.second
        }
    }

    pub fn new(year: i32, month: u8, day: u8, hour: u8, minute: u8, second: u8) -> (r: DateTime)
        requires
            1 <= month <= 12,
            1 <= day <= 31,
            hour < 24,
            minute < 60,
            second < 60,
        ensures
            r == (DateTime { year, month, day, hour, minute, second }),
            r.wf(),
    {
        DateTime { year, month, day, hour, minute, second }
    }

    /// Whether `self` is at or before `other` in chronological order.
    pub fn le(&self, other: &DateTime) -> (r: bool)
        ensures
            r == Self::spec_le(*self, *other),
    {
        if self.year != other.year {
            self.year < other.year
        } else if self.month != other.month {
            self.month < other.month
        } else if self.day != other.day {
            self.day < other.day
        } else if self.hour != other.hour {
            self.hour < other.hour
        } else if self.minute != other.minute {
            self.minute < other.minute
        } else {
            self.second <= other.second
        }
    }
}

/// The lexicographic order on date-times is total: of any two values, one is
/// at or before the other, and mutual order means equality.
pub proof fn lemma_datetime_order_total(a: DateTime, b: DateTime)
    ensures
        DateTime::spec_le(a, b) || DateTime::spec_le(b, a),
        DateTime::spec_le(a, b) && DateTime::spec_le(b, a) ==> a == b,
{
}

} // verus!
