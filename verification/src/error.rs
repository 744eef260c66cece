//! Failures of clock commands, and the line reported for each.
use vstd::prelude::*;
use crate::token::push_bytes;

verus! {

/// A clock command whose write to the real-time clock failed.
#[derive(Debug, Clone, Copy, PartialEq, Eq, Structural)]
pub enum HomeIotError {
    RtcAddSec,
    RtcSetDay,
    RtcSetHour,
    RtcSetMin,
    RtcSetMonth,
    RtcSetSec,
    RtcSetYear,
    RtcSubSec,
}

/// The name `RtcAddSec`.
pub const NAME_RTC_ADD_SEC: [u8; 9] = ['R' as u8, 't' as u8, 'c' as u8, 'A' as u8, 'd' as u8, 'd' as u8, 'S' as u8, 'e' as u8, 'c' as u8];

/// The name `RtcSetDay`.
pub const NAME_RTC_SET_DAY: [u8; 9] = ['R' as u8, 't' as u8, 'c' as u8, 'S' as u8, 'e' as u8, 't' as u8, 'D' as u8, 'a' as u8, 'y' as u8];

/// The name `RtcSetHour`.
pub const NAME_RTC_SET_HOUR: [u8; 10] = ['R' as u8, 't' as u8, 'c' as u8, 'S' as u8, 'e' as u8, 't' as u8, 'H' as u8, 'o' as u8, 'u' as u8, 'r' as u8];

/// The name `RtcSetMin`.
pub const NAME_RTC_SET_MIN: [u8; 9] = ['R' as u8, 't' as u8, 'c' as u8, 'S' as u8, 'e' as u8, 't' as u8, 'M' as u8, 'i' as u8, 'n' as u8];

/// The name `RtcSetMonth`.
pub const NAME_RTC_SET_MONTH: [u8; 11] = ['R' as u8, 't' as u8, 'c' as u8, 'S' as u8, 'e' as u8, 't' as u8, 'M' as u8, 'o' as u8, 'n' as u8, 't' as u8, 'h' as u8];

/// The name `RtcSetSec`.
pub const NAME_RTC_SET_SEC: [u8; 9] = ['R' as u8, 't' as u8, 'c' as u8, 'S' as u8, 'e' as u8, 't' as u8, 'S' as u8, 'e' as u8, 'c' as u8];

/// The name `RtcSetYear`.
pub const NAME_RTC_SET_YEAR: [u8; 10] = ['R' as u8, 't' as u8, 'c' as u8, 'S' as u8, 'e' as u8, 't' as u8, 'Y' as u8, 'e' as u8, 'a' as u8, 'r' as u8];

/// The name `RtcSubSec`.
pub const NAME_RTC_SUB_SEC: [u8; 9] = ['R' as u8, 't' as u8, 'c' as u8, 'S' as u8, 'u' as u8, 'b' as u8, 'S' as u8, 'e' as u8, 'c' as u8];

/// The text that opens a reported line: a line feed and a carriage return.
pub const LINE_START: [u8; 2] = ['\n' as u8, '\r' as u8];

/// The text that follows the name of a failed command.
pub const FAILED_SUFFIX: [u8; 9] = [' ' as u8, 'f' as u8, 'a' as u8, 'i' as u8, 'l' as u8, 'e' as u8, 'd' as u8, '\r' as u8, '\n' as u8];

impl HomeIotError {
    /// The variant's name, as `{:?}` prints it.
    pub open spec fn spec_name(self) -> Seq<u8> {
        match self {
            HomeIotError::RtcAddSec => NAME_RTC_ADD_SEC@,
            HomeIotError::RtcSetDay => NAME_RTC_SET_DAY@,
            HomeIotError::RtcSetHour => NAME_RTC_SET_HOUR@,
            HomeIotError::RtcSetMin => NAME_RTC_SET_MIN@,
            HomeIotError::RtcSetMonth => NAME_RTC_SET_MONTH@,
            HomeIotError::RtcSetSec => NAME_RTC_SET_SEC@,
            HomeIotError::RtcSetYear => NAME_RTC_SET_YEAR@,
            HomeIotError::RtcSubSec => NAME_RTC_SUB_SEC@,
        }
    }

    /// The line reported on the serial console: `"\n\r{name} failed\r\n"`.
    pub open spec fn spec_message(self) -> Seq<u8> {
        LINE_START@ + self.spec_name() + FAILED_SUFFIX@
    }

    /// The line reported on the serial console when the command fails.
    pub fn message(&self) -> (m: Vec<u8>)
        ensures
            m@ == self.spec_message(),
    {
        let mut m: Vec<u8> = Vec::new();
        push_bytes(&mut m, LINE_START.as_slice());
        match self {
            HomeIotError::RtcAddSec => push_bytes(&mut m, NAME_RTC_ADD_SEC.as_slice()),
            HomeIotError::RtcSetDay => push_bytes(&mut m, NAME_RTC_SET_DAY.as_slice()),
            HomeIotError::RtcSetHour => push_bytes(&mut m, NAME_RTC_SET_HOUR.as_slice()),
            HomeIotError::RtcSetMin => push_bytes(&mut m, NAME_RTC_SET_MIN.as_slice()),
            HomeIotError::RtcSetMonth => push_bytes(&mut m, NAME_RTC_SET_MONTH.as_slice()),
            HomeIotError::RtcSetSec => push_bytes(&mut m, NAME_RTC_SET_SEC.as_slice()),
            HomeIotError::RtcSetYear => push_bytes(&mut m, NAME_RTC_SET_YEAR.as_slice()),
            HomeIotError::RtcSubSec => push_bytes(&mut m, NAME_RTC_SUB_SEC.as_slice()),
        }
        push_bytes(&mut m, FAILED_SUFFIX.as_slice());
        assert(m@ =~= self.spec_message());
        m
    }
}

} // verus!
