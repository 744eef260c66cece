use home_iot::command::{prompt_message, Command, CommandAction, CMD_SIZE};
use home_iot::error::HomeIotError;
use home_iot::gpio::Led;
use home_iot::rtc::RtcEdit;

fn line(text: &[u8]) -> [u8; CMD_SIZE] {
    let mut raw = [0u8; CMD_SIZE];
    raw[..text.len()].copy_from_slice(text);
    raw
}

fn parse(text: &[u8]) -> Result<Command, ()> {
    Command::try_from(line(text))
}

#[test]
fn plain_commands_parse() {
    assert_eq!(parse(b"rtc_add_sec"), Ok(Command::RtcAddSec));
    assert_eq!(parse(b"rtc_now"), Ok(Command::RtcNow));
    assert_eq!(parse(b"rtc_sub_sec"), Ok(Command::RtcSubSec));
    assert_eq!(parse(b"green_led_toggle"), Ok(Command::ToggleGreenLed));
    assert_eq!(parse(b"red_led_toggle"), Ok(Command::ToggleRedLed));
    assert_eq!(parse(b"yellow_led_toggle"), Ok(Command::ToggleYellowLed));
}

#[test]
fn led_commands_are_only_their_toggle_words() {
    assert_eq!(parse(b"green_led_pulse"), Err(()));
    assert_eq!(parse(b"red_led_pulse"), Err(()));
    assert_eq!(parse(b"yellow_led_pulse"), Err(()));
}

#[test]
fn setters_parse_their_argument() {
    assert_eq!(parse(b"rtc_set_day 19"), Ok(Command::RtcSetDay(19)));
    assert_eq!(parse(b"rtc_set_hour 7"), Ok(Command::RtcSetHour(7)));
    assert_eq!(parse(b"rtc_set_min 59"), Ok(Command::RtcSetMin(59)));
    assert_eq!(parse(b"rtc_set_month 255"), Ok(Command::RtcSetMonth(255)));
    assert_eq!(parse(b"rtc_set_sec 0"), Ok(Command::RtcSetSec(0)));
    assert_eq!(parse(b"rtc_set_year 25"), Ok(Command::RtcSetYear(25)));
}

#[test]
fn argument_forms_follow_u8_parsing() {
    assert_eq!(parse(b"rtc_set_day +5"), Ok(Command::RtcSetDay(5)));
    assert_eq!(parse(b"rtc_set_day 007"), Ok(Command::RtcSetDay(7)));
    assert_eq!(parse(b"rtc_set_day 256"), Err(()));
    assert_eq!(parse(b"rtc_set_day -1"), Err(()));
    assert_eq!(parse(b"rtc_set_day +"), Err(()));
    assert_eq!(parse(b"rtc_set_day ++5"), Err(()));
    assert_eq!(parse(b"rtc_set_day 1a"), Err(()));
    assert_eq!(parse(b"rtc_set_day"), Err(()));
    assert_eq!(parse(b"rtc_set_day "), Err(()));
    assert_eq!(parse(b"rtc_set_day  5"), Err(()));
}

#[test]
fn text_after_the_argument_is_ignored() {
    assert_eq!(parse(b"rtc_set_day 5 6"), Ok(Command::RtcSetDay(5)));
    assert_eq!(parse(b"rtc_now 5"), Ok(Command::RtcNow));
    assert_eq!(parse(b"rtc_now x y"), Ok(Command::RtcNow));
}

#[test]
fn nul_padding_is_trimmed_at_both_ends() {
    assert_eq!(parse(b"\0\0rtc_now"), Ok(Command::RtcNow));
    assert_eq!(parse(b"rtc_set_sec \0\x30"), Ok(Command::RtcSetSec(0)));
    assert_eq!(parse(b"rtc\0now"), Err(()));
}

#[test]
fn commands_are_case_sensitive() {
    assert_eq!(parse(b"RTC_NOW"), Err(()));
    assert_eq!(parse(b"Rtc_now"), Err(()));
}

#[test]
fn unknown_and_empty_lines_are_rejected() {
    assert_eq!(parse(b""), Err(()));
    assert_eq!(parse(b"rtc"), Err(()));
    assert_eq!(parse(b"green_led"), Err(()));
    assert_eq!(parse(b" rtc_now"), Err(()));
}

#[test]
fn lines_that_are_not_utf8_are_rejected() {
    let mut raw = line(b"rtc_now");
    raw[16] = 0xFF;
    assert_eq!(Command::try_from(raw), Err(()));
    let mut raw = line(b"rtc_now ");
    raw[10] = 0xC3;
    raw[11] = 0xA9;
    assert_eq!(Command::try_from(raw), Ok(Command::RtcNow));
    let mut raw = line(b"rtc_now ");
    raw[10] = 0xC3;
    assert_eq!(Command::try_from(raw), Err(()));
    let mut raw = line(b"rtc_now");
    raw[10] = 0xC3;
    raw[11] = 0xA9;
    assert_eq!(Command::try_from(raw), Err(()));
}

#[test]
fn commands_map_to_their_actions() {
    assert_eq!(
        Command::RtcAddSec.action(),
        CommandAction::EditClock { edit: RtcEdit::AddSecond, on_failure: HomeIotError::RtcAddSec }
    );
    assert_eq!(
        Command::RtcSubSec.action(),
        CommandAction::EditClock { edit: RtcEdit::SubSecond, on_failure: HomeIotError::RtcSubSec }
    );
    assert_eq!(
        Command::RtcSetDay(3).action(),
        CommandAction::EditClock { edit: RtcEdit::SetDay(3), on_failure: HomeIotError::RtcSetDay }
    );
    assert_eq!(
        Command::RtcSetHour(4).action(),
        CommandAction::EditClock { edit: RtcEdit::SetHour(4), on_failure: HomeIotError::RtcSetHour }
    );
    assert_eq!(
        Command::RtcSetMin(5).action(),
        CommandAction::EditClock { edit: RtcEdit::SetMinute(5), on_failure: HomeIotError::RtcSetMin }
    );
    assert_eq!(
        Command::RtcSetMonth(6).action(),
        CommandAction::EditClock { edit: RtcEdit::SetMonth(6), on_failure: HomeIotError::RtcSetMonth }
    );
    assert_eq!(
        Command::RtcSetSec(7).action(),
        CommandAction::EditClock { edit: RtcEdit::SetSecond(7), on_failure: HomeIotError::RtcSetSec }
    );
    assert_eq!(
        Command::RtcSetYear(8).action(),
        CommandAction::EditClock { edit: RtcEdit::SetYear(8), on_failure: HomeIotError::RtcSetYear }
    );
    assert_eq!(Command::RtcNow.action(), CommandAction::ReportTime);
    assert_eq!(Command::ToggleGreenLed.action(), CommandAction::Toggle(Led::Green));
    assert_eq!(Command::ToggleRedLed.action(), CommandAction::Toggle(Led::Red));
    assert_eq!(Command::ToggleYellowLed.action(), CommandAction::Toggle(Led::Yellow));
}

#[test]
fn prompt_text() {
    assert_eq!(prompt_message(), b"\n\renter cmd: ".to_vec());
}

#[test]
fn failure_messages_name_the_command() {
    assert_eq!(HomeIotError::RtcAddSec.message(), b"\n\rRtcAddSec failed\r\n".to_vec());
    assert_eq!(HomeIotError::RtcSetDay.message(), b"\n\rRtcSetDay failed\r\n".to_vec());
    assert_eq!(HomeIotError::RtcSubSec.message(), b"\n\rRtcSubSec failed\r\n".to_vec());
    assert_eq!(HomeIotError::RtcSetMonth.message(), b"\n\rRtcSetMonth failed\r\n".to_vec());
    assert_eq!(HomeIotError::RtcSetHour.message(), format!("\n\r{:?} failed\r\n", HomeIotError::RtcSetHour).into_bytes());
    assert_eq!(HomeIotError::RtcSetYear.message(), format!("\n\r{:?} failed\r\n", HomeIotError::RtcSetYear).into_bytes());
}
