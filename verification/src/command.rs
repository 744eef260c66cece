//! Commands typed on the serial console: their grammar, and what each one
//! makes the command task do.
use vstd::prelude::*;
use vstd::utf8::valid_utf8;
use crate::error::HomeIotError;
use crate::gpio::Led;
use crate::rtc::RtcEdit;
use crate::token::{
    bytes_eq, decimal, find_space, first_space, lemma_ascii_valid_utf8, lemma_decimal_digits,
    lemma_first_space_at, lemma_trim_end_at, lemma_trim_start_at, parse_u8, parse_u8_at,
    push_bytes, trim_nul, trim_nul_bounds, unsigned_digits, SPACE,
};

verus! {

/// Length of a typed command line; shorter lines are padded with NUL bytes.
pub const CMD_SIZE: usize = 17;

/// The command word `green_led_toggle`.
pub const GREEN_LED_TOGGLE: [u8; 16] = ['g' as u8, 'r' as u8, 'e' as u8, 'e' as u8, 'n' as u8, '_' as u8, 'l' as u8, 'e' as u8, 'd' as u8, '_' as u8, 't' as u8, 'o' as u8, 'g' as u8, 'g' as u8, 'l' as u8, 'e' as u8];

/// The command word `red_led_toggle`.
pub const RED_LED_TOGGLE: [u8; 14] = ['r' as u8, 'e' as u8, 'd' as u8, '_' as u8, 'l' as u8, 'e' as u8, 'd' as u8, '_' as u8, 't' as u8, 'o' as u8, 'g' as u8, 'g' as u8, 'l' as u8, 'e' as u8];

/// The command word `yellow_led_toggle`.
pub const YELLOW_LED_TOGGLE: [u8; 17] = ['y' as u8, 'e' as u8, 'l' as u8, 'l' as u8, 'o' as u8, 'w' as u8, '_' as u8, 'l' as u8, 'e' as u8, 'd' as u8, '_' as u8, 't' as u8, 'o' as u8, 'g' as u8, 'g' as u8, 'l' as u8, 'e' as u8];

/// The command word `rtc_add_sec`.
pub const RTC_ADD_SEC: [u8; 11] = ['r' as u8, 't' as u8, 'c' as u8, '_' as u8, 'a' as u8, 'd' as u8, 'd' as u8, '_' as u8, 's' as u8, 'e' as u8, 'c' as u8];

/// The command word `rtc_now`.
pub const RTC_NOW: [u8; 7] = ['r' as u8, 't' as u8, 'c' as u8, '_' as u8, 'n' as u8, 'o' as u8, 'w' as u8];

/// The command word `rtc_set_day`.
pub const RTC_SET_DAY: [u8; 11] = ['r' as u8, 't' as u8, 'c' as u8, '_' as u8, 's' as u8, 'e' as u8, 't' as u8, '_' as u8, 'd' as u8, 'a' as u8, 'y' as u8];

/// The command word `rtc_set_hour`.
pub const RTC_SET_HOUR: [u8; 12] = ['r' as u8, 't' as u8, 'c' as u8, '_' as u8, 's' as u8, 'e' as u8, 't' as u8, '_' as u8, 'h' as u8, 'o' as u8, 'u' as u8, 'r' as u8];

/// The command word `rtc_set_min`.
pub const RTC_SET_MIN: [u8; 11] = ['r' as u8, 't' as u8, 'c' as u8, '_' as u8, 's' as u8, 'e' as u8, 't' as u8, '_' as u8, 'm' as u8, 'i' as u8, 'n' as u8];

/// The command word `rtc_set_month`.
pub const RTC_SET_MONTH: [u8; 13] = ['r' as u8, 't' as u8, 'c' as u8, '_' as u8, 's' as u8, 'e' as u8, 't' as u8, '_' as u8, 'm' as u8, 'o' as u8, 'n' as u8, 't' as u8, 'h' as u8];

/// The command word `rtc_set_sec`.
pub const RTC_SET_SEC: [u8; 11] = ['r' as u8, 't' as u8, 'c' as u8, '_' as u8, 's' as u8, 'e' as u8, 't' as u8, '_' as u8, 's' as u8, 'e' as u8, 'c' as u8];

/// The command word `rtc_set_year`.
pub const RTC_SET_YEAR: [u8; 12] = ['r' as u8, 't' as u8, 'c' as u8, '_' as u8, 's' as u8, 'e' as u8, 't' as u8, '_' as u8, 'y' as u8, 'e' as u8, 'a' as u8, 'r' as u8];

/// The command word `rtc_sub_sec`.
pub const RTC_SUB_SEC: [u8; 11] = ['r' as u8, 't' as u8, 'c' as u8, '_' as u8, 's' as u8, 'u' as u8, 'b' as u8, '_' as u8, 's' as u8, 'e' as u8, 'c' as u8];
/// A command that the console accepts.
#[derive(Debug, Clone, Copy, PartialEq, Eq, Structural)]
pub enum Command {
    RtcAddSec,
    RtcNow,
    RtcSetDay(u8),
    RtcSetHour(u8),
    RtcSetMin(u8),
    RtcSetMonth(u8),
    RtcSetSec(u8),
    RtcSetYear(u8),
    RtcSubSec,
    ToggleGreenLed,
    ToggleRedLed,
    ToggleYellowLed,
}

/// A command line padded with NUL bytes to `CMD_SIZE`.
pub open spec fn padded(typed: Seq<u8>) -> Seq<u8> {
    typed + Seq::new((CMD_SIZE - typed.len()) as nat, |i: int| 0u8)
}

/// The command that a command word without an argument names.
pub open spec fn plain_command(word: Seq<u8>) -> Option<Command> {
    if word == GREEN_LED_TOGGLE@ {
        Some(Command::ToggleGreenLed)
    } else if word == RED_LED_TOGGLE@ {
        Some(Command::ToggleRedLed)
    } else if word == YELLOW_LED_TOGGLE@ {
        Some(Command::ToggleYellowLed)
    } else if word == RTC_ADD_SEC@ {
        Some(Command::RtcAddSec)
    } else if word == RTC_NOW@ {
        Some(Command::RtcNow)
    } else if word == RTC_SUB_SEC@ {
        Some(Command::RtcSubSec)
    } else {
        None
    }
}

/// The command that a command word taking a `u8` argument names, with argument `v`.
pub open spec fn setter_command(word: Seq<u8>, v: u8) -> Option<Command> {
    if word == RTC_SET_DAY@ {
        Some(Command::RtcSetDay(v))
    } else if word == RTC_SET_HOUR@ {
        Some(Command::RtcSetHour(v))
    } else if word == RTC_SET_MIN@ {
        Some(Command::RtcSetMin(v))
    } else if word == RTC_SET_MONTH@ {
        Some(Command::RtcSetMonth(v))
    } else if word == RTC_SET_SEC@ {
        Some(Command::RtcSetSec(v))
    } else if word == RTC_SET_YEAR@ {
        Some(Command::RtcSetYear(v))
    } else {
        None
    }
}

/// Whether the command word takes an argument.
pub open spec fn takes_argument(word: Seq<u8>) -> bool {
    setter_command(word, 0) is Some
}

/// The command word of a line: its text up to the first space, without NUL padding.
pub open spec fn command_word(raw: Seq<u8>) -> Seq<u8> {
    trim_nul(raw.take(first_space(raw) as int))
}

/// The argument of a line: the text between its first and second space (or
/// the end), without NUL padding, read as a `u8`; none when the line has no space.
pub open spec fn command_argument(raw: Seq<u8>) -> Option<u8> {
    let p = first_space(raw) as int;
    if p < raw.len() {
        let rest = raw.subrange(p + 1, raw.len() as int);
        parse_u8(trim_nul(rest.take(first_space(rest) as int)))
    } else {
        None
    }
}

/// The command that a typed line stands for, if any: the line must be UTF-8,
/// and its command word one of the console's; a clock setter also needs a
/// decimal `u8` argument. Anything after the argument is ignored.
pub open spec fn parse_command(raw: Seq<u8>) -> Option<Command> {
    if !valid_utf8(raw) {
        None
    } else {
        let word = command_word(raw);
        if takes_argument(word) {
            match command_argument(raw) {
                Some(v) => setter_command(word, v),
                None => None,
            }
        } else {
            plain_command(word)
        }
    }
}

/// Runs `heapless::String::<32>::from_utf8` on a copy of `bytes` in a
/// `heapless::Vec<u8, 32>`. Claimed: it succeeds exactly when `bytes` is
/// well-formed UTF-8 (vstd's `valid_utf8`), since heapless checks the bytes
/// with `core::str::from_utf8` and fails only there. Required: the bytes fit
/// in the 32-byte vector, so that the copy succeeds.
#[verifier::external_body]
fn heapless_utf8_ok(bytes: &[u8]) -> (ok: bool)
    requires
        bytes@.len() <= 32,
    ensures
        ok == valid_utf8(bytes@),
{
    match heapless::Vec::<u8, 32>::from_slice(bytes) {
        Ok(v) => heapless::String::<32>::from_utf8(v).is_ok(),
        Err(_) => false,
    }
}

/// The command that `s[a..b]` names when it takes no argument.
fn match_plain(s: &[u8], a: usize, b: usize) -> (r: Option<Command>)
    requires
        a <= b <= s@.len(),
    ensures
        r == plain_command(s@.subrange(a as int, b as int)),
{
    if bytes_eq(s, a, b, GREEN_LED_TOGGLE.as_slice()) {
        Some(Command::ToggleGreenLed)
    } else if bytes_eq(s, a, b, RED_LED_TOGGLE.as_slice()) {
        Some(Command::ToggleRedLed)
    } else if bytes_eq(s, a, b, YELLOW_LED_TOGGLE.as_slice()) {
        Some(Command::ToggleYellowLed)
    } else if bytes_eq(s, a, b, RTC_ADD_SEC.as_slice()) {
        Some(Command::RtcAddSec)
    } else if bytes_eq(s, a, b, RTC_NOW.as_slice()) {
        Some(Command::RtcNow)
    } else if bytes_eq(s, a, b, RTC_SUB_SEC.as_slice()) {
        Some(Command::RtcSubSec)
    } else {
        None
    }
}

/// The command that `s[a..b]` names with argument `v`, when it takes one.
fn match_setter(s: &[u8], a: usize, b: usize, v: u8) -> (r: Option<Command>)
    requires
        a <= b <= s@.len(),
    ensures
        r == setter_command(s@.subrange(a as int, b as int), v),
{
    if bytes_eq(s, a, b, RTC_SET_DAY.as_slice()) {
        Some(Command::RtcSetDay(v))
    } else if bytes_eq(s, a, b, RTC_SET_HOUR.as_slice()) {
        Some(Command::RtcSetHour(v))
    } else if bytes_eq(s, a, b, RTC_SET_MIN.as_slice()) {
        Some(Command::RtcSetMin(v))
    } else if bytes_eq(s, a, b, RTC_SET_MONTH.as_slice()) {
        Some(Command::RtcSetMonth(v))
    } else if bytes_eq(s, a, b, RTC_SET_SEC.as_slice()) {
        Some(Command::RtcSetSec(v))
    } else if bytes_eq(s, a, b, RTC_SET_YEAR.as_slice()) {
        Some(Command::RtcSetYear(v))
    } else {
        None
    }
}

impl Command {
    /// Reads a typed command line.
    pub fn try_from(raw: [u8; CMD_SIZE]) -> (res: Result<Command, ()>)
        ensures
            res == match parse_command(raw@) {
                Some(c) => Ok::<Command, ()>(c),
                None => Err(()),
            },
    {
        let s = raw.as_slice();
        assert(s@ == raw@);
        if !heapless_utf8_ok(s) {
            return Err(());
        }
        let p = find_space(s, 0);
        assert(s@.subrange(0, s@.len() as int) =~= s@);
        let (a, b) = trim_nul_bounds(s, 0, p);
        assert(s@.subrange(0, p as int) =~= s@.take(first_space(s@) as int));
        let ghost word = s@.subrange(a as int, b as int);
        assert(word == command_word(raw@));
        match match_setter(s, a, b, 0) {
            Some(_) => {
                if p >= s.len() {
                    return Err(());
                }
                let q = find_space(s, p + 1);
                let (c, d) = trim_nul_bounds(s, p + 1, q);
                proof {
                    let rest = s@.subrange(p + 1, s@.len() as int);
                    assert(rest.take(first_space(rest) as int) =~= s@.subrange(p + 1, q as int));
                }
                match parse_u8_at(s, c, d) {
                    Some(v) => match match_setter(s, a, b, v) {
                        Some(cmd) => Ok(cmd),
                        None => Err(()),
                    },
                    None => Err(()),
                }
            },
            None => match match_plain(s, a, b) {
                Some(cmd) => Ok(cmd),
                None => Err(()),
            },
        }
    }
}

/// What the command task does to carry out a command.
#[derive(Debug, Clone, Copy, PartialEq, Eq, Structural)]
pub enum CommandAction {
    /// Read the clock, make `edit`, and write the result back; when the
    /// write fails, report `on_failure`.
    EditClock { edit: RtcEdit, on_failure: HomeIotError },
    /// Read the clock and report its timestamp.
    ReportTime,
    /// Switch one LED over: lit if it was dark, dark if it was lit.
    Toggle(Led),
}

impl Command {
    /// What the command task does for this command.
    pub open spec fn spec_action(self) -> CommandAction {
        match self {
            Command::RtcAddSec => CommandAction::EditClock {
                edit: RtcEdit::AddSecond,
                on_failure: HomeIotError::RtcAddSec,
            },
            Command::RtcNow => CommandAction::ReportTime,
            Command::RtcSetDay(v) => CommandAction::EditClock {
                edit: RtcEdit::SetDay(v),
                on_failure: HomeIotError::RtcSetDay,
            },
            Command::RtcSetHour(v) => CommandAction::EditClock {
                edit: RtcEdit::SetHour(v),
                on_failure: HomeIotError::RtcSetHour,
            },
            Command::RtcSetMin(v) => CommandAction::EditClock {
                edit: RtcEdit::SetMinute(v),
                on_failure: HomeIotError::RtcSetMin,
            },
            Command::RtcSetMonth(v) => CommandAction::EditClock {
                edit: RtcEdit::SetMonth(v),
                on_failure: HomeIotError::RtcSetMonth,
            },
            Command::RtcSetSec(v) => CommandAction::EditClock {
                edit: RtcEdit::SetSecond(v),
                on_failure: HomeIotError::RtcSetSec,
            },
            Command::RtcSetYear(v) => CommandAction::EditClock {
                edit: RtcEdit::SetYear(v),
                on_failure: HomeIotError::RtcSetYear,
            },
            Command::RtcSubSec => CommandAction::EditClock {
                edit: RtcEdit::SubSecond,
                on_failure: HomeIotError::RtcSubSec,
            },
            Command::ToggleGreenLed => CommandAction::Toggle(Led::Green),
            Command::ToggleRedLed => CommandAction::Toggle(Led::Red),
            Command::ToggleYellowLed => CommandAction::Toggle(Led::Yellow),
        }
    }

    /// What the command task does for this command.
    pub fn action(&self) -> (r: CommandAction)
        ensures
            r == self.spec_action(),
    {
        match *self {
            Command::RtcAddSec => CommandAction::EditClock {
                edit: RtcEdit::AddSecond,
                on_failure: HomeIotError::RtcAddSec,
            },
            Command::RtcNow => CommandAction::ReportTime,
            Command::RtcSetDay(v) => CommandAction::EditClock {
                edit: RtcEdit::SetDay(v),
                on_failure: HomeIotError::RtcSetDay,
            },
            Command::RtcSetHour(v) => CommandAction::EditClock {
                edit: RtcEdit::SetHour(v),
                on_failure: HomeIotError::RtcSetHour,
            },
            Command::RtcSetMin(v) => CommandAction::EditClock {
                edit: RtcEdit::SetMinute(v),
                on_failure: HomeIotError::RtcSetMin,
            },
            Command::RtcSetMonth(v) => CommandAction::EditClock {
                edit: RtcEdit::SetMonth(v),
                on_failure: HomeIotError::RtcSetMonth,
            },
            Command::RtcSetSec(v) => CommandAction::EditClock {
                edit: RtcEdit::SetSecond(v),
                on_failure: HomeIotError::RtcSetSec,
            },
            Command::RtcSetYear(v) => CommandAction::EditClock {
                edit: RtcEdit::SetYear(v),
                on_failure: HomeIotError::RtcSetYear,
            },
            Command::RtcSubSec => CommandAction::EditClock {
                edit: RtcEdit::SubSecond,
                on_failure: HomeIotError::RtcSubSec,
            },
            Command::ToggleGreenLed => CommandAction::Toggle(Led::Green),
            Command::ToggleRedLed => CommandAction::Toggle(Led::Red),
            Command::ToggleYellowLed => CommandAction::Toggle(Led::Yellow),
        }
    }
}

/// The prompt shown before each command: `"\n\renter cmd: "`.
pub const PROMPT: [u8; 13] = ['\n' as u8, '\r' as u8, 'e' as u8, 'n' as u8, 't' as u8, 'e' as u8, 'r' as u8, ' ' as u8, 'c' as u8, 'm' as u8, 'd' as u8, ':' as u8, ' ' as u8];

/// The prompt shown before each command.
pub fn prompt_message() -> (m: Vec<u8>)
    ensures
        m@ == PROMPT@,
{
    let mut m: Vec<u8> = Vec::new();
    push_bytes(&mut m, PROMPT.as_slice());
    assert(m@ =~= PROMPT@);
    m
}

/// The text typed for a command, as the console's table lists it: the
/// command word, and for a clock setter a space and the decimal argument.
pub open spec fn command_text(c: Command) -> Seq<u8> {
    match c {
        Command::RtcAddSec => RTC_ADD_SEC@,
        Command::RtcNow => RTC_NOW@,
        Command::RtcSetDay(v) => RTC_SET_DAY@ + seq![SPACE] + decimal(v as nat),
        Command::RtcSetHour(v) => RTC_SET_HOUR@ + seq![SPACE] + decimal(v as nat),
        Command::RtcSetMin(v) => RTC_SET_MIN@ + seq![SPACE] + decimal(v as nat),
        Command::RtcSetMonth(v) => RTC_SET_MONTH@ + seq![SPACE] + decimal(v as nat),
        Command::RtcSetSec(v) => RTC_SET_SEC@ + seq![SPACE] + decimal(v as nat),
        Command::RtcSetYear(v) => RTC_SET_YEAR@ + seq![SPACE] + decimal(v as nat),
        Command::RtcSubSec => RTC_SUB_SEC@,
        Command::ToggleGreenLed => GREEN_LED_TOGGLE@,
        Command::ToggleRedLed => RED_LED_TOGGLE@,
        Command::ToggleYellowLed => YELLOW_LED_TOGGLE@,
    }
}

/// A command word: lower-case ASCII letters and underscores.
spec fn is_word(w: Seq<u8>) -> bool {
    &&& w.len() > 0
    &&& forall|i: int| 0 <= i < w.len() ==> ('_' as u8) <= #[trigger] w[i] <= ('z' as u8)
}

/// A line that holds a bare command word reads back as that word.
proof fn lemma_plain_line(w: Seq<u8>)
    requires
        is_word(w),
        w.len() <= CMD_SIZE,
    ensures
        valid_utf8(padded(w)),
        command_word(padded(w)) == w,
{
    let line = padded(w);
    assert forall|i: int| 0 <= i < line.len() implies line[i] < 0x80 by {
        if i < w.len() {
            assert(line[i] == w[i]);
        }
    }
    lemma_ascii_valid_utf8(line);
    assert forall|j: int| 0 <= j < CMD_SIZE implies line[j] != SPACE by {
        if j < w.len() {
            assert(line[j] == w[j]);
        }
    }
    lemma_first_space_at(line, CMD_SIZE as int);
    assert(line.take(CMD_SIZE as int) =~= line);
    assert(line[0] == w[0]);
    lemma_trim_start_at(line, 0);
    assert(line.subrange(0, line.len() as int) =~= line);
    assert forall|j: int| w.len() <= j < line.len() implies line[j] == 0u8 by {}
    assert(line[w.len() - 1] == w[w.len() - 1]);
    lemma_trim_end_at(line, w.len() as int);
    assert(line.subrange(0, w.len() as int) =~= w);
}

/// A line that holds a command word, a space and a decimal `u8` reads back
/// as that word and that argument.
proof fn lemma_setter_line(w: Seq<u8>, v: u8)
    requires
        is_word(w),
        w.len() + 1 + decimal(v as nat).len() <= CMD_SIZE,
    ensures
        valid_utf8(padded(w + seq![SPACE] + decimal(v as nat))),
        command_word(padded(w + seq![SPACE] + decimal(v as nat))) == w,
        command_argument(padded(w + seq![SPACE] + decimal(v as nat))) == Some(v),
{
    let d = decimal(v as nat);
    lemma_decimal_digits(v as nat);
    let text = w + seq![SPACE] + d;
    let line = padded(text);
    let n = w.len() as int;
    assert forall|i: int| 0 <= i < line.len() implies line[i] < 0x80 by {
        if i < n {
            assert(line[i] == w[i]);
        } else if n < i < text.len() {
            assert(line[i] == d[i - n - 1]);
        }
    }
    lemma_ascii_valid_utf8(line);
    // The command word ends at the space.
    assert forall|j: int| 0 <= j < n implies line[j] != SPACE by {
        assert(line[j] == w[j]);
    }
    assert(line[n] == SPACE);
    lemma_first_space_at(line, n);
    let head = line.take(n);
    assert(head =~= w);
    lemma_trim_start_at(w, 0);
    assert(w.subrange(0, n) =~= w);
    lemma_trim_end_at(w, n);
    // The argument is the decimal text, up to the NUL padding.
    let rest = line.subrange(n + 1, line.len() as int);
    let k = d.len() as int;
    assert forall|j: int| 0 <= j < rest.len() implies rest[j] != SPACE by {
        if j < k {
            assert(rest[j] == d[j]);
        } else {
            assert(rest[j] == 0u8);
        }
    }
    lemma_first_space_at(rest, rest.len() as int);
    assert(rest.take(rest.len() as int) =~= rest);
    assert(rest[0] == d[0]);
    assert(d[0] != 0u8);
    lemma_trim_start_at(rest, 0);
    assert(rest.subrange(0, rest.len() as int) =~= rest);
    assert forall|j: int| k <= j < rest.len() implies rest[j] == 0u8 by {}
    assert(rest[k - 1] == d[k - 1]);
    assert(d[k - 1] != 0u8);
    lemma_trim_end_at(rest, k);
    assert(rest.subrange(0, k) =~= d);
    assert(unsigned_digits(d) == d);
}

proof fn lemma_setter_text_printable(w: Seq<u8>, v: u8)
    requires
        is_word(w),
    ensures
        forall|i: int|
            0 <= i < (w + seq![SPACE] + decimal(v as nat)).len() ==> SPACE <= #[trigger] (w
                + seq![SPACE] + decimal(v as nat))[i] < 0x80,
{
    let d = decimal(v as nat);
    lemma_decimal_digits(v as nat);
    let t = w + seq![SPACE] + d;
    assert forall|i: int| 0 <= i < t.len() implies SPACE <= #[trigger] t[i] < 0x80 by {
        if i < w.len() {
            assert(t[i] == w[i]);
        } else if i > w.len() {
            assert(t[i] == d[i - w.len() - 1]);
        }
    }
}

/// Every command of the console's table, typed as the table lists it and
/// padded with NUL bytes, reads back as that command; the text is printable
/// ASCII and always fits on a command line.
pub proof fn lemma_typed_command_parses(c: Command)
    ensures
        command_text(c).len() <= CMD_SIZE,
        forall|i: int| 0 <= i < command_text(c).len() ==> SPACE <= #[trigger] command_text(c)[i] < 0x80,
        parse_command(padded(command_text(c))) == Some(c),
{
    match c {
        Command::RtcSetDay(v) => {
            lemma_decimal_digits(v as nat);
            lemma_setter_line(RTC_SET_DAY@, v);
            lemma_setter_text_printable(RTC_SET_DAY@, v);
        },
        Command::RtcSetHour(v) => {
            lemma_decimal_digits(v as nat);
            lemma_setter_line(RTC_SET_HOUR@, v);
            lemma_setter_text_printable(RTC_SET_HOUR@, v);
        },
        Command::RtcSetMin(v) => {
            lemma_decimal_digits(v as nat);
            lemma_setter_line(RTC_SET_MIN@, v);
            lemma_setter_text_printable(RTC_SET_MIN@, v);
        },
        Command::RtcSetMonth(v) => {
            lemma_decimal_digits(v as nat);
            lemma_setter_line(RTC_SET_MONTH@, v);
            lemma_setter_text_printable(RTC_SET_MONTH@, v);
        },
        Command::RtcSetSec(v) => {
            lemma_decimal_digits(v as nat);
            lemma_setter_line(RTC_SET_SEC@, v);
            lemma_setter_text_printable(RTC_SET_SEC@, v);
        },
        Command::RtcSetYear(v) => {
            lemma_decimal_digits(v as nat);
            lemma_setter_line(RTC_SET_YEAR@, v);
            lemma_setter_text_printable(RTC_SET_YEAR@, v);
        },
        _ => {
            lemma_plain_line(command_text(c));
        },
    }
}

/// Every clock setter command, for every argument, sets its own field to
/// that argument and reports its own failure; the other commands add or take
/// away a second, report the time, or toggle their own LED.
pub proof fn lemma_actions_carry_their_argument(v: u8)
    ensures
        Command::RtcSetDay(v).spec_action() == (CommandAction::EditClock {
            edit: RtcEdit::SetDay(v),
            on_failure: HomeIotError::RtcSetDay,
        }),
        Command::RtcSetHour(v).spec_action() == (CommandAction::EditClock {
            edit: RtcEdit::SetHour(v),
            on_failure: HomeIotError::RtcSetHour,
        }),
        Command::RtcSetMin(v).spec_action() == (CommandAction::EditClock {
            edit: RtcEdit::SetMinute(v),
            on_failure: HomeIotError::RtcSetMin,
        }),
        Command::RtcSetMonth(v).spec_action() == (CommandAction::EditClock {
            edit: RtcEdit::SetMonth(v),
            on_failure: HomeIotError::RtcSetMonth,
        }),
        Command::RtcSetSec(v).spec_action() == (CommandAction::EditClock {
            edit: RtcEdit::SetSecond(v),
            on_failure: HomeIotError::RtcSetSec,
        }),
        Command::RtcSetYear(v).spec_action() == (CommandAction::EditClock {
            edit: RtcEdit::SetYear(v),
            on_failure: HomeIotError::RtcSetYear,
        }),
        Command::RtcAddSec.spec_action() == (CommandAction::EditClock {
            edit: RtcEdit::AddSecond,
            on_failure: HomeIotError::RtcAddSec,
        }),
        Command::RtcSubSec.spec_action() == (CommandAction::EditClock {
            edit: RtcEdit::SubSecond,
            on_failure: HomeIotError::RtcSubSec,
        }),
        Command::RtcNow.spec_action() == CommandAction::ReportTime,
        Command::ToggleGreenLed.spec_action() == CommandAction::Toggle(Led::Green),
        Command::ToggleRedLed.spec_action() == CommandAction::Toggle(Led::Red),
        Command::ToggleYellowLed.spec_action() == CommandAction::Toggle(Led::Yellow),
{
}

} // verus!
