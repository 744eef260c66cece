use home_iot::command::{Command, CMD_SIZE};
use home_iot::event::{Event, EventAction};
use home_iot::uart::{echo_message, too_long_message, CommandLine, LineEvent, ENTER};

fn type_bytes(line: &mut CommandLine, text: &[u8]) {
    for &b in text {
        match line.feed(b) {
            LineEvent::Echo(e) => assert_eq!(e, b),
            other => panic!("unexpected {:?}", other),
        }
    }
}

#[test]
fn typed_line_is_handed_over_padded_on_enter() {
    let mut line = CommandLine::new();
    type_bytes(&mut line, b"rtc_set_day 5");
    assert_eq!(line.len(), 13);
    match line.feed(ENTER) {
        LineEvent::Entered(raw) => {
            let mut expected = [0u8; CMD_SIZE];
            expected[..13].copy_from_slice(b"rtc_set_day 5");
            assert_eq!(raw, expected);
            assert_eq!(Command::try_from(raw), Ok(Command::RtcSetDay(5)));
        }
        other => panic!("unexpected {:?}", other),
    }
    assert_eq!(line.len(), 0);
}

#[test]
fn typed_command_reaches_the_command_task() {
    let mut line = CommandLine::new();
    type_bytes(&mut line, b"rtc_now");
    let raw = match line.feed(ENTER) {
        LineEvent::Entered(raw) => raw,
        other => panic!("unexpected {:?}", other),
    };
    assert!(matches!(Event::RawCmdEntered(raw).handle(), EventAction::Execute(Command::RtcNow)));
}

#[test]
fn enter_on_an_empty_line_hands_over_nul_bytes() {
    let mut line = CommandLine::new();
    match line.feed(ENTER) {
        LineEvent::Entered(raw) => assert_eq!(raw, [0u8; CMD_SIZE]),
        other => panic!("unexpected {:?}", other),
    }
}

#[test]
fn a_byte_past_a_full_line_drops_the_line() {
    let mut line = CommandLine::new();
    type_bytes(&mut line, b"yellow_led_toggle");
    assert_eq!(line.len(), CMD_SIZE);
    assert!(matches!(line.feed(b'x'), LineEvent::TooLong));
    assert_eq!(line.len(), 0);
    type_bytes(&mut line, b"rtc_now");
    assert_eq!(line.len(), 7);
}

#[test]
fn full_line_is_still_entered() {
    let mut line = CommandLine::new();
    type_bytes(&mut line, b"yellow_led_toggle");
    match line.feed(ENTER) {
        LineEvent::Entered(raw) => {
            assert_eq!(&raw[..], b"yellow_led_toggle");
            assert_eq!(Command::try_from(raw), Ok(Command::ToggleYellowLed));
        }
        other => panic!("unexpected {:?}", other),
    }
}

#[test]
fn echo_is_the_utf8_of_the_byte_as_a_char() {
    assert_eq!(echo_message(b'a'), b"a".to_vec());
    assert_eq!(echo_message(0x7F), vec![0x7F]);
    assert_eq!(echo_message(0xE9), vec![0xC3, 0xA9]);
    assert_eq!(echo_message(0x80), vec![0xC2, 0x80]);
    for b in 0u8..=255 {
        assert_eq!(echo_message(b), (b as char).to_string().into_bytes());
    }
}

#[test]
fn too_long_text() {
    assert_eq!(too_long_message(), b"invalid command length\r\n".to_vec());
}
