//! Times of day, and the reading of the device timestamp of an event.

use chrono::Timelike;
use vstd::prelude::*;

verus! {

/// A wall-clock time of day, as stored with an event; its date is not kept.
#[derive(Clone, Copy, Debug, PartialEq, Eq, Structural)]
pub struct TimeOfDay {
    pub hour: u32,
    pub minute: u32,
    pub second: u32,
}

impl TimeOfDay {
    /// Hours, minutes and seconds are each in their range.
    pub open spec fn wf(self) -> bool {
        self.hour < 24 && self.minute < 60 && self.second < 60
    }

    pub open spec fn hms(self) -> (u32, u32, u32) {
        (self.hour, self.minute, self.second)
    }
}

/// Hour, minute and second of a time of day, if there is one.
pub open spec fn hms_of(t: Option<TimeOfDay>) -> Option<(u32, u32, u32)> {
    match t {
        Some(t) => Some(t.hms()),
        None => None,
    }
}

/// What chrono's parse of a device timestamp with the format `%Y-%m-%dT%H:%M`
/// yields as hour, minute and second, or `None` where it refuses the text.
pub uninterp spec fn parsed_clock_time(s: Seq<char>) -> Option<(u32, u32, u32)>;

pub open spec fn is_digit(c: char) -> bool {
    '0' <= c && c <= '9'
}

pub open spec fn digit_value(c: char) -> nat {
    (c as int - '0' as int) as nat
}

pub open spec fn digits_at(s: Seq<char>, start: int, n: int) -> bool {
    forall|j: int| start <= j < start + n ==> #[trigger] is_digit(s[j])
}

/// The number written by the two digits at `i` and `i + 1`.
pub open spec fn two_digit_value(s: Seq<char>, i: int) -> nat {
    digit_value(s[i]) * 10 + digit_value(s[i + 1])
}

pub open spec fn is_leap_year(y: nat) -> bool {
    y % 4 == 0 && (y % 100 != 0 || y % 400 == 0)
}

pub open spec fn days_in_month(y: nat, m: nat) -> nat {
    if m == 2 {
        if is_leap_year(y) { 29 } else { 28 }
    } else if m == 4 || m == 6 || m == 9 || m == 11 {
        30
    } else {
        31
    }
}

pub open spec fn stamp_year(s: Seq<char>) -> nat {
    two_digit_value(s, 0) * 100 + two_digit_value(s, 2)
}

pub open spec fn stamp_month(s: Seq<char>) -> nat {
    two_digit_value(s, 5)
}

pub open spec fn stamp_day(s: Seq<char>) -> nat {
    two_digit_value(s, 8)
}

pub open spec fn stamp_hour(s: Seq<char>) -> nat {
    two_digit_value(s, 11)
}

pub open spec fn stamp_minute(s: Seq<char>) -> nat {
    two_digit_value(s, 14)
}

/// `s` is a local date and time written exactly as `YYYY-MM-DDTHH:MM`, and
/// names a real calendar day and a real time of day.
pub open spec fn is_stamp(s: Seq<char>) -> bool {
    &&& s.len() == 16
    &&& digits_at(s, 0, 4)
    &&& s[4] == '-'
    &&& digits_at(s, 5, 2)
    &&& s[7] == '-'
    &&& digits_at(s, 8, 2)
    &&& s[10] == 'T'
    &&& digits_at(s, 11, 2)
    &&& s[13] == ':'
    &&& digits_at(s, 14, 2)
    &&& 1 <= stamp_month(s) <= 12
    &&& 1 <= stamp_day(s) <= days_in_month(stamp_year(s), stamp_month(s))
    &&& stamp_hour(s) < 24
    &&& stamp_minute(s) < 60
}

/// The time of day that a device timestamp is stored as: the time of day that
/// the parse yields, or none where the timestamp is absent or refused.
pub open spec fn stored_time_of(stamp: Option<String>) -> Option<(u32, u32, u32)> {
    match stamp {
        Some(s) => parsed_clock_time(s@),
        None => None,
    }
}

/// The time of day whose time-of-day fields a stamp written as
/// `YYYY-MM-DDTHH:MM` gives.
pub open spec fn stamp_time(s: Seq<char>) -> TimeOfDay {
    TimeOfDay { hour: stamp_hour(s) as u32, minute: stamp_minute(s) as u32, second: 0 }
}

/// `t` is what the device timestamp `stamp` is stored as: the time of day that
/// the parse yields, in range and with zero seconds; the hour and minute of a
/// stamp written as `YYYY-MM-DDTHH:MM`; and none for an absent stamp.
pub open spec fn is_stored_time(t: Option<TimeOfDay>, stamp: Option<String>) -> bool {
    &&& hms_of(t) == stored_time_of(stamp)
    &&& t matches Some(x) ==> x.wf() && x.second == 0
    &&& stamp is None ==> t is None
    &&& stamp is Some && is_stamp(stamp->Some_0@) ==> t == Some(stamp_time(stamp->Some_0@))
}

/// The date of a stamp is dropped: two stamps written as `YYYY-MM-DDTHH:MM`
/// with the same time of day are stored as the same time, whatever their dates.
pub proof fn lemma_date_is_dropped(t1: Option<TimeOfDay>, s1: String, t2: Option<TimeOfDay>, s2: String)
    requires
        is_stamp(s1@),
        is_stamp(s2@),
        s1@.subrange(11, 16) == s2@.subrange(11, 16),
        is_stored_time(t1, Some(s1)),
        is_stored_time(t2, Some(s2)),
    ensures
        t1 == t2,
{
    assert(s1@[11] == s2@.subrange(11, 16)[0]);
    assert(s1@[12] == s2@.subrange(11, 16)[1]);
    assert(s1@[14] == s2@.subrange(11, 16)[3]);
    assert(s1@[15] == s2@.subrange(11, 16)[4]);
}

#[verifier::external_type_specification]
#[verifier::external_body]
pub struct ExParseError(chrono::format::ParseError);

/// Relies on chrono's `NaiveDateTime::parse_from_str` with the format
/// `%Y-%m-%dT%H:%M`, and on its `Timelike` methods `hour`, `minute` and
/// `second`. The result depends on the text alone; a time of day
/// is in range, and its seconds are zero since the format has none; text written
/// exactly in that form, naming a real day and time, parses to its own hour and
/// minute.
#[verifier::external_body]
fn parse_local_stamp(s: &str) -> (r: Result<TimeOfDay, chrono::format::ParseError>)
    ensures
        match r {
            Ok(t) => parsed_clock_time(s@) == Some(t.hms()) && t.wf() && t.second == 0,
            Err(_) => parsed_clock_time(s@) is None,
        },
        is_stamp(s@) ==> (r is Ok && r->Ok_0.hour == stamp_hour(s@) && r->Ok_0.minute
            == stamp_minute(s@)),
{
    match chrono::NaiveDateTime::parse_from_str(s, "%Y-%m-%dT%H:%M") {
        Ok(dt) => Ok(TimeOfDay { hour: dt.hour(), minute: dt.minute(), second: dt.second() }),
        Err(e) => Err(e),
    }
}

/// The time of day that an event's device timestamp is stored as.
///
/// Only the time of day is kept; the date is dropped. An absent timestamp, or
/// one that does not parse, is stored as no time at all: a parse failure is
/// never reported to the sender.
pub fn normalize_device_time(stamp: &Option<String>) -> (r: Option<TimeOfDay>)
    ensures
        is_stored_time(r, *stamp),
{
    match stamp {
        Some(text) => {
            match parse_local_stamp(text.as_str()) {
                Ok(t) => Some(t),
                // An unparseable timestamp is kept as no time, the same as an
                // absent one.
                Err(_) => None,
            }
        },
        None => None,
    }
}

} // verus!
