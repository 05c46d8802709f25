//! Identifiers and points in time.
use vstd::prelude::*;
use crate::external;
use crate::external::{MAX_UTC_MILLIS, MIN_UTC_MILLIS};

verus! {

/// A 128-bit identifier of a record, account, tenant or device.
#[derive(Clone, Copy, Debug, PartialEq, Eq, Structural)]
pub struct Uuid {
    pub value: u128,
}

impl Uuid {
    /// Reads an identifier in any notation that the `uuid` crate accepts.
    pub fn parse(text: &str) -> (r: Option<Uuid>)
        ensures
            r == parsed(text@),
    {
        match external::uuid_parse_str(text) {
            Some(value) => Some(Uuid { value }),
            None => None,
        }
    }

    /// The hyphenated lower-case notation, which `parse` reads back.
    pub fn text(&self) -> (r: String)
        ensures
            r@ == self.text_spec(),
            parsed(r@) == Some(*self),
    {
        external::uuid_to_string(self.value)
    }

    pub open spec fn text_spec(self) -> Seq<char> {
        external::uuid_text(self.value)
    }
}

/// The identifier that a text names.
pub open spec fn parsed(text: Seq<char>) -> Option<Uuid> {
    match external::uuid_parsed(text) {
        Some(value) => Some(Uuid { value }),
        None => None,
    }
}

/// A point in UTC: whole seconds since the epoch and the nanoseconds after them.
/// A leap second is written with a billion nanoseconds or more.
#[derive(Clone, Copy, Debug, PartialEq, Eq, Structural)]
pub struct UtcTime {
    pub seconds: i64,
    pub nanos: u32,
}

impl UtcTime {
    /// What a calendar time can be.
    pub open spec fn valid(self) -> bool {
        &&& MIN_UTC_MILLIS <= self.seconds * 1000
        &&& self.seconds * 1000 + 999 <= MAX_UTC_MILLIS
        &&& self.nanos < 1_000_000_000 || (self.nanos < 2_000_000_000 && self.seconds % 60 == 59)
    }

    /// Whole milliseconds since the epoch.
    pub open spec fn millis_spec(self) -> int {
        self.seconds * 1000 + self.nanos as int / 1_000_000
    }

    pub fn millis(&self) -> (r: i64)
        requires
            self.valid(),
        ensures
            r == self.millis_spec(),
    {
        self.seconds * 1000 + (self.nanos / 1_000_000) as i64
    }

    /// The time of a millisecond.
    pub open spec fn of_millis(millis: int) -> UtcTime {
        UtcTime { seconds: (millis / 1000) as i64, nanos: ((millis % 1000) * 1_000_000) as u32 }
    }

    /// The time of a millisecond, where the calendar reaches that far.
    pub fn from_millis(millis: i64) -> (r: Option<UtcTime>)
        ensures
            r == (if MIN_UTC_MILLIS <= millis <= MAX_UTC_MILLIS {
                Some(UtcTime::of_millis(millis as int))
            } else {
                None
            }),
            r is Some ==> r.unwrap().valid(),
    {
        match external::utc_from_millis(millis) {
            Some((seconds, nanos)) => Some(UtcTime { seconds, nanos }),
            None => None,
        }
    }
}

/// A millisecond within the calendar survives the way into a calendar time and back.
pub proof fn law_millis_round_trip(millis: int)
    requires
        MIN_UTC_MILLIS <= millis <= MAX_UTC_MILLIS,
    ensures
        UtcTime::of_millis(millis).valid(),
        UtcTime::of_millis(millis).millis_spec() == millis,
{
}

} // verus!
