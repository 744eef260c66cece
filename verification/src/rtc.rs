//! The real-time clock's date and time, the edits that clock commands make
//! to it, and its timestamp.
use vstd::prelude::*;
use crate::error::LINE_START;
use crate::token::{decimal, push_bytes, push_decimal};

verus! {

/// A date and time as the PCF8523 clock keeps it; `year` counts from 2000.
#[derive(Debug, Clone, Copy, PartialEq, Eq, Structural)]
pub struct DateTime {
    pub second: u8,
    pub minute: u8,
    pub hour: u8,
    pub day: u8,
    pub month: u8,
    pub year: u8,
}

/// Whether `2000 + year` is a leap year; in the clock's range, 2000 to
/// 2099, that is every fourth year.
pub open spec fn is_leap(year: u8) -> bool {
    year % 4 == 0
}

/// Days in `month` of the year `2000 + year`.
pub open spec fn days_in_month(month: u8, year: u8) -> nat {
    if month == 2 {
        if is_leap(year) {
            29
        } else {
            28
        }
    } else if month == 4 || month == 6 || month == 9 || month == 11 {
        30
    } else {
        31
    }
}

/// Days of a common year before the first of `month` (1 to 13: 13 counts
/// the whole year).
pub open spec fn common_days_before(month: u8) -> nat {
    if month <= 1 {
        0
    } else if month == 2 {
        31
    } else if month == 3 {
        59
    } else if month == 4 {
        90
    } else if month == 5 {
        120
    } else if month == 6 {
        151
    } else if month == 7 {
        181
    } else if month == 8 {
        212
    } else if month == 9 {
        243
    } else if month == 10 {
        273
    } else if month == 11 {
        304
    } else if month == 12 {
        334
    } else {
        365
    }
}

/// Days from 2000-01-01 to the first of January of `2000 + year`.
pub open spec fn days_before_year(year: u8) -> nat {
    (365 * year + (year + 3) / 4) as nat
}

/// Seconds from 2000-01-01 00:00:00 to a date and time, by the calendar.
pub open spec fn seconds_since_2000(dt: DateTime) -> int {
    let days = days_before_year(dt.year) + common_days_before(dt.month) + (if dt.month > 2 && is_leap(dt.year) {
        1int
    } else {
        0int
    }) + dt.day - 1;
    ((days * 24 + dt.hour) * 60 + dt.minute) * 60 + dt.second
}

/// The day count that the PCF8523 driver uses (`days_since_2000` in
/// `Pcf8523DateTime::timestamp`): like the calendar's, except that it adds
/// the leap day from February on rather than from March on.
pub open spec fn driver_days(dt: DateTime) -> int {
    days_before_year(dt.year) + common_days_before(dt.month) + (if dt.month > 1 && is_leap(dt.year) {
        1int
    } else {
        0int
    }) + dt.day - 1
}

/// What `Pcf8523DateTime::timestamp` computes for a date and time: 2000's
/// Unix time plus the seconds of the driver's day count and the time of day.
pub open spec fn driver_timestamp(dt: DateTime) -> int {
    946684800 + ((driver_days(dt) * 24 + dt.hour) * 60 + dt.minute) * 60 + dt.second
}

/// The inputs on which the driver's timestamp neither underflows (day or
/// month 0), reads past its month table (month 14 or more), nor overflows.
pub open spec fn timestamp_defined(dt: DateTime) -> bool {
    &&& 1 <= dt.day
    &&& 1 <= dt.month <= 13
    &&& driver_timestamp(dt) <= u32::MAX
}

/// An edit that a clock command makes to the current date and time.
#[derive(Debug, Clone, Copy, PartialEq, Eq, Structural)]
pub enum RtcEdit {
    /// One second later: minute, hour, day, month and year carry.
    AddSecond,
    /// One second earlier: minute, hour, day, month and year borrow.
    SubSecond,
    SetDay(u8),
    SetHour(u8),
    SetMinute(u8),
    SetMonth(u8),
    SetSecond(u8),
    SetYear(u8),
}

/// The last second of the clock's range, 2099-12-31 23:59:59.
pub open spec fn is_last_second(dt: DateTime) -> bool {
    dt.year == 99 && dt.month == 12 && dt.day == 31 && dt.hour == 23 && dt.minute == 59 && dt.second
        == 59
}

/// The first second of the clock's range, 2000-01-01 00:00:00.
pub open spec fn is_first_second(dt: DateTime) -> bool {
    dt.year == 0 && dt.month == 1 && dt.day == 1 && dt.hour == 0 && dt.minute == 0 && dt.second == 0
}

/// The date and time one second later. A second field short of 59 (or
/// past it, outside the calendar) just counts on; at 59 it carries into the
/// minute, hour, day, month and year.
pub open spec fn second_later(dt: DateTime) -> DateTime {
    if dt.second != 59 {
        DateTime { second: (dt.second + 1) as u8, ..dt }
    } else if dt.minute < 59 {
        DateTime { second: 0, minute: (dt.minute + 1) as u8, ..dt }
    } else if dt.hour < 23 {
        DateTime { second: 0, minute: 0, hour: (dt.hour + 1) as u8, ..dt }
    } else if dt.day < days_in_month(dt.month, dt.year) {
        DateTime { second: 0, minute: 0, hour: 0, day: (dt.day + 1) as u8, ..dt }
    } else if dt.month < 12 {
        DateTime { second: 0, minute: 0, hour: 0, day: 1, month: (dt.month + 1) as u8, ..dt }
    } else {
        DateTime { second: 0, minute: 0, hour: 0, day: 1, month: 1, year: (dt.year + 1) as u8 }
    }
}

/// The date and time one second earlier. A second field above 0 just
/// counts down; at 0 it borrows from the minute, hour, day, month and year.
pub open spec fn second_earlier(dt: DateTime) -> DateTime {
    if dt.second > 0 {
        DateTime { second: (dt.second - 1) as u8, ..dt }
    } else if dt.minute > 0 {
        DateTime { second: 59, minute: (dt.minute - 1) as u8, ..dt }
    } else if dt.hour > 0 {
        DateTime { second: 59, minute: 59, hour: (dt.hour - 1) as u8, ..dt }
    } else if dt.day > 1 {
        DateTime { second: 59, minute: 59, hour: 23, day: (dt.day - 1) as u8, ..dt }
    } else if dt.month > 1 {
        DateTime {
            second: 59,
            minute: 59,
            hour: 23,
            day: days_in_month((dt.month - 1) as u8, dt.year) as u8,
            month: (dt.month - 1) as u8,
            ..dt
        }
    } else {
        DateTime { second: 59, minute: 59, hour: 23, day: 31, month: 12, year: (dt.year - 1) as u8 }
    }
}

/// Days in `month` of the year `2000 + year`.
fn month_length(month: u8, year: u8) -> (n: u8)
    ensures
        n == days_in_month(month, year),
{
    if month == 2 {
        if year % 4 == 0 {
            29
        } else {
            28
        }
    } else if month == 4 || month == 6 || month == 9 || month == 11 {
        30
    } else {
        31
    }
}

impl DateTime {
    /// Inside the clock's range, 2000-01-01 00:00:00 to 2099-12-31 23:59:59.
    pub open spec fn valid(self) -> bool {
        &&& self.second < 60
        &&& self.minute < 60
        &&& self.hour < 24
        &&& 1 <= self.month <= 12
        &&& self.year <= 99
        &&& 1 <= self.day <= days_in_month(self.month, self.year)
    }

    /// Whether the date and time lies inside the clock's range.
    pub fn is_valid(&self) -> (r: bool)
        ensures
            r == self.valid(),
    {
        if self.second >= 60 || self.minute >= 60 || self.hour >= 24 {
            return false;
        }
        if self.month < 1 || self.month > 12 || self.year > 99 || self.day < 1 {
            return false;
        }
        self.day <= month_length(self.month, self.year)
    }

    /// Whether the clock driver can compute this date and time's timestamp.
    pub fn has_timestamp(&self) -> (r: bool)
        ensures
            r == timestamp_defined(*self),
    {
        if self.day < 1 || self.month < 1 || self.month > 13 {
            return false;
        }
        let year = self.year as u64;
        let before: u64 = if self.month <= 1 {
            0
        } else if self.month == 2 {
            31
        } else if self.month == 3 {
            59
        } else if self.month == 4 {
            90
        } else if self.month == 5 {
            120
        } else if self.month == 6 {
            151
        } else if self.month == 7 {
            181
        } else if self.month == 8 {
            212
        } else if self.month == 9 {
            243
        } else if self.month == 10 {
            273
        } else if self.month == 11 {
            304
        } else if self.month == 12 {
            334
        } else {
            365
        };
        let leap: u64 = if self.month > 1 && self.year % 4 == 0 {
            1
        } else {
            0
        };
        let days: u64 = 365 * year + (year + 3) / 4 + before + leap + self.day as u64 - 1;
        let total: u64 = 946684800 + ((days * 24 + self.hour as u64) * 60 + self.minute as u64) * 60
            + self.second as u64;
        assert(days == driver_days(*self));
        total <= 0xFFFF_FFFF
    }

    /// The Unix timestamp that the clock driver gives this date and time.
    pub fn timestamp(&self) -> (t: u32)
        requires
            timestamp_defined(*self),
        ensures
            t == driver_timestamp(*self),
    {
        pcf8523_timestamp_of(self)
    }

    /// Whether `edit` can be applied. Adding a second can, whatever the other
    /// fields hold, unless the second field is 59 or 255: at 59 it carries,
    /// which needs a valid date and time short of the clock's last second.
    /// Taking a second away can unless the second field is 0: then it
    /// borrows, which needs a valid date and time past the clock's first
    /// second. Setting a field always can.
    pub open spec fn can_edit(self, edit: RtcEdit) -> bool {
        match edit {
            RtcEdit::AddSecond => if self.second != 59 {
                self.second < 255
            } else {
                self.valid() && !is_last_second(self)
            },
            RtcEdit::SubSecond => self.second != 0 || (self.valid() && !is_first_second(self)),
            _ => true,
        }
    }

    /// The date and time after `edit`.
    pub open spec fn spec_edit(self, edit: RtcEdit) -> DateTime {
        match edit {
            RtcEdit::AddSecond => second_later(self),
            RtcEdit::SubSecond => second_earlier(self),
            RtcEdit::SetDay(v) => DateTime { day: v, ..self },
            RtcEdit::SetHour(v) => DateTime { hour: v, ..self },
            RtcEdit::SetMinute(v) => DateTime { minute: v, ..self },
            RtcEdit::SetMonth(v) => DateTime { month: v, ..self },
            RtcEdit::SetSecond(v) => DateTime { second: v, ..self },
            RtcEdit::SetYear(v) => DateTime { year: v, ..self },
        }
    }

    /// The date and time after `edit`; a set edit keeps every other field.
    pub fn edit(&self, edit: RtcEdit) -> (r: DateTime)
        requires
            self.can_edit(edit),
        ensures
            r == self.spec_edit(edit),
    {
        let mut r = *self;
        match edit {
            RtcEdit::AddSecond => {
                if self.second != 59 {
                    r.second = self.second + 1;
                } else if self.minute < 59 {
                    r.second = 0;
                    r.minute = self.minute + 1;
                } else if self.hour < 23 {
                    r.second = 0;
                    r.minute = 0;
                    r.hour = self.hour + 1;
                } else if self.day < month_length(self.month, self.year) {
                    r.second = 0;
                    r.minute = 0;
                    r.hour = 0;
                    r.day = self.day + 1;
                } else if self.month < 12 {
                    r.second = 0;
                    r.minute = 0;
                    r.hour = 0;
                    r.day = 1;
                    r.month = self.month + 1;
                } else {
                    r = DateTime { second: 0, minute: 0, hour: 0, day: 1, month: 1, year: self.year + 1 };
                }
            },
            RtcEdit::SubSecond => {
                if self.second > 0 {
                    r.second = self.second - 1;
                } else if self.minute > 0 {
                    r.second = 59;
                    r.minute = self.minute - 1;
                } else if self.hour > 0 {
                    r.second = 59;
                    r.minute = 59;
                    r.hour = self.hour - 1;
                } else if self.day > 1 {
                    r.second = 59;
                    r.minute = 59;
                    r.hour = 23;
                    r.day = self.day - 1;
                } else if self.month > 1 {
                    r.second = 59;
                    r.minute = 59;
                    r.hour = 23;
                    r.day = month_length(self.month - 1, self.year);
                    r.month = self.month - 1;
                } else {
                    r = DateTime { second: 59, minute: 59, hour: 23, day: 31, month: 12, year: self.year - 1 };
                }
            },
            RtcEdit::SetDay(v) => {
                r.day = v;
            },
            RtcEdit::SetHour(v) => {
                r.hour = v;
            },
            RtcEdit::SetMinute(v) => {
                r.minute = v;
            },
            RtcEdit::SetMonth(v) => {
                r.month = v;
            },
            RtcEdit::SetSecond(v) => {
                r.second = v;
            },
            RtcEdit::SetYear(v) => {
                r.year = v;
            },
        }
        r
    }

    /// The date and time after `edit`, or none where the edit cannot be
    /// applied: a second that would carry or borrow past the clock's range or
    /// through a date and time outside the calendar, or a second field at 255.
    pub fn try_edit(&self, edit: RtcEdit) -> (r: Option<DateTime>)
        ensures
            r == if self.can_edit(edit) {
                Some(self.spec_edit(edit))
            } else {
                None::<DateTime>
            },
    {
        let allowed = match edit {
            RtcEdit::AddSecond => if self.second != 59 {
                self.second < 255
            } else {
                self.is_valid() && !(self.year == 99 && self.month == 12 && self.day == 31
                    && self.hour == 23 && self.minute == 59)
            },
            RtcEdit::SubSecond => self.second != 0 || (self.is_valid() && !(self.year == 0
                && self.month == 1 && self.day == 1 && self.hour == 0 && self.minute == 0)),
            _ => true,
        };
        if allowed {
            Some(self.edit(edit))
        } else {
            None
        }
    }
}

/// Calls `nxp_pcf8523::datetime::Pcf8523DateTime::timestamp` on a driver
/// datetime with the six fields of `dt`. Claimed: the result is the driver's
/// computation as its source writes it (`driver_timestamp`): 2000's Unix
/// time plus the seconds of its day count, which adds a leap day from
/// February of a leap year on, and the time of day. Required: the inputs on
/// which that computation neither underflows, indexes past the driver's
/// month table, nor overflows.
#[verifier::external_body]
fn pcf8523_timestamp_of(dt: &DateTime) -> (t: u32)
    requires
        timestamp_defined(*dt),
    ensures
        t == driver_timestamp(*dt),
{
    nxp_pcf8523::datetime::Pcf8523DateTime {
        second: dt.second,
        minute: dt.minute,
        hour: dt.hour,
        day: dt.day,
        month: dt.month,
        year: dt.year,
    }.timestamp()
}

/// Whether the driver can write this date and time to the clock: it stores
/// each field as two decimal digits and asserts that each is below 100.
pub open spec fn writable(dt: DateTime) -> bool {
    dt.second < 100 && dt.minute < 100 && dt.hour < 100 && dt.day < 100 && dt.month < 100 && dt.year
        < 100
}

impl DateTime {
    /// Whether the driver can write this date and time to the clock.
    pub fn is_writable(&self) -> (r: bool)
        ensures
            r == writable(*self),
    {
        self.second < 100 && self.minute < 100 && self.hour < 100 && self.day < 100 && self.month
            < 100 && self.year < 100
    }
}

/// The text that ends a reported line: a carriage return and a line feed.
pub const LINE_END: [u8; 2] = ['\r' as u8, '\n' as u8];

/// The line that `rtc_now` reports: `"\n\r{timestamp}\r\n"`.
pub open spec fn spec_time_message(timestamp: u32) -> Seq<u8> {
    LINE_START@ + decimal(timestamp as nat) + LINE_END@
}

/// The line reported for a timestamp read from the clock.
pub fn time_message(timestamp: u32) -> (m: Vec<u8>)
    ensures
        m@ == spec_time_message(timestamp),
{
    let mut m: Vec<u8> = Vec::new();
    push_bytes(&mut m, LINE_START.as_slice());
    push_decimal(timestamp, &mut m);
    push_bytes(&mut m, LINE_END.as_slice());
    m
}

/// The line that reporting the clock's time gives, for a date and time read
/// from it.
pub fn now_message(now: &DateTime) -> (m: Vec<u8>)
    requires
        timestamp_defined(*now),
    ensures
        m@ == spec_time_message(driver_timestamp(*now) as u32),
{
    time_message(now.timestamp())
}

/// Every date and time in the clock's range has a driver timestamp.
pub proof fn lemma_valid_has_timestamp(dt: DateTime)
    requires
        dt.valid(),
    ensures
        timestamp_defined(dt),
{
    let d = driver_days(dt);
    assert(d <= 36525) by {
        assert(days_before_year(dt.year) <= 36160);
    }
    assert(d >= 0);
    let h = dt.hour as int;
    let m = dt.minute as int;
    let s = dt.second as int;
    assert(946684800 + ((d * 24 + h) * 60 + m) * 60 + s <= 4102531199) by (nonlinear_arith)
        requires
            0 <= d <= 36525,
            0 <= h < 24,
            0 <= m < 60,
            0 <= s < 60,
    ;
}

proof fn lemma_year_step(year: u8)
    requires
        year < 99,
    ensures
        days_before_year((year + 1) as u8) == days_before_year(year) + 365 + (if is_leap(year) {
            1int
        } else {
            0int
        }),
{
}

/// Adding a second to any valid date and time short of 2099's last second
/// is allowed and gives a valid date and time exactly one second later by
/// the calendar; taking the second away again gives back the same date and
/// time.
pub proof fn lemma_second_later(dt: DateTime)
    requires
        dt.valid(),
        !is_last_second(dt),
    ensures
        dt.can_edit(RtcEdit::AddSecond),
        dt.spec_edit(RtcEdit::AddSecond).valid(),
        seconds_since_2000(dt.spec_edit(RtcEdit::AddSecond)) == seconds_since_2000(dt) + 1,
        !is_first_second(dt.spec_edit(RtcEdit::AddSecond)),
        dt.spec_edit(RtcEdit::AddSecond).can_edit(RtcEdit::SubSecond),
        dt.spec_edit(RtcEdit::AddSecond).spec_edit(RtcEdit::SubSecond) == dt,
{
    if dt.second == 59 && dt.minute == 59 && dt.hour == 23 && dt.day == days_in_month(dt.month, dt.year)
        && dt.month == 12 {
        lemma_year_step(dt.year);
    }
}

/// Taking a second away from any valid date and time past 2000's first
/// second is allowed and gives a valid date and time exactly one second
/// earlier by the calendar; adding the second again gives back the same date
/// and time.
pub proof fn lemma_second_earlier(dt: DateTime)
    requires
        dt.valid(),
        !is_first_second(dt),
    ensures
        dt.can_edit(RtcEdit::SubSecond),
        dt.spec_edit(RtcEdit::SubSecond).valid(),
        seconds_since_2000(dt.spec_edit(RtcEdit::SubSecond)) == seconds_since_2000(dt) - 1,
        !is_last_second(dt.spec_edit(RtcEdit::SubSecond)),
        dt.spec_edit(RtcEdit::SubSecond).can_edit(RtcEdit::AddSecond),
        dt.spec_edit(RtcEdit::SubSecond).spec_edit(RtcEdit::AddSecond) == dt,
{
    if dt.second == 0 && dt.minute == 0 && dt.hour == 0 && dt.day == 1 && dt.month == 1 {
        lemma_year_step((dt.year - 1) as u8);
    }
}

/// Where the second field does not wrap, adding or taking away a second is
/// always allowed, changes only the second field by one, and keeps every
/// other field, whatever they hold.
pub proof fn lemma_second_without_wrap(dt: DateTime)
    ensures
        dt.second != 59 && dt.second < 255 ==> dt.can_edit(RtcEdit::AddSecond) && dt.spec_edit(
            RtcEdit::AddSecond,
        ) == (DateTime { second: (dt.second + 1) as u8, ..dt }),
        dt.second != 0 ==> dt.can_edit(RtcEdit::SubSecond) && dt.spec_edit(RtcEdit::SubSecond) == (
        DateTime { second: (dt.second - 1) as u8, ..dt }),
{
}

/// Setting a field is always allowed, stores the given value in that field
/// unchanged, and keeps every other field.
pub proof fn lemma_setters_store_their_value(dt: DateTime, v: u8)
    ensures
        dt.can_edit(RtcEdit::SetDay(v)),
        dt.can_edit(RtcEdit::SetHour(v)),
        dt.can_edit(RtcEdit::SetMinute(v)),
        dt.can_edit(RtcEdit::SetMonth(v)),
        dt.can_edit(RtcEdit::SetSecond(v)),
        dt.can_edit(RtcEdit::SetYear(v)),
        dt.spec_edit(RtcEdit::SetDay(v)) == (DateTime {
            second: dt.second,
            minute: dt.minute,
            hour: dt.hour,
            day: v,
            month: dt.month,
            year: dt.year,
        }),
        dt.spec_edit(RtcEdit::SetHour(v)) == (DateTime {
            second: dt.second,
            minute: dt.minute,
            hour: v,
            day: dt.day,
            month: dt.month,
            year: dt.year,
        }),
        dt.spec_edit(RtcEdit::SetMinute(v)) == (DateTime {
            second: dt.second,
            minute: v,
            hour: dt.hour,
            day: dt.day,
            month: dt.month,
            year: dt.year,
        }),
        dt.spec_edit(RtcEdit::SetMonth(v)) == (DateTime {
            second: dt.second,
            minute: dt.minute,
            hour: dt.hour,
            day: dt.day,
            month: v,
            year: dt.year,
        }),
        dt.spec_edit(RtcEdit::SetSecond(v)) == (DateTime {
            second: v,
            minute: dt.minute,
            hour: dt.hour,
            day: dt.day,
            month: dt.month,
            year: dt.year,
        }),
        dt.spec_edit(RtcEdit::SetYear(v)) == (DateTime {
            second: dt.second,
            minute: dt.minute,
            hour: dt.hour,
            day: dt.day,
            month: dt.month,
            year: v,
        }),
{
}

} // verus!
