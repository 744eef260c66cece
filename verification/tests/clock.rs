use home_iot::rtc::{now_message, time_message, DateTime, RtcEdit};

#[test]
fn seconds_outside_the_calendar_still_count() {
    assert_eq!(dt(0, 0, 5, 1, 0, 0).try_edit(RtcEdit::AddSecond), Some(dt(0, 0, 6, 1, 0, 0)));
    assert_eq!(dt(0, 0, 5, 1, 0, 0).try_edit(RtcEdit::SubSecond), Some(dt(0, 0, 4, 1, 0, 0)));
    assert_eq!(dt(0, 0, 80, 8, 19, 25).try_edit(RtcEdit::AddSecond), Some(dt(0, 0, 81, 8, 19, 25)));
    assert_eq!(dt(0, 0, 80, 8, 19, 25).try_edit(RtcEdit::SubSecond), Some(dt(0, 0, 79, 8, 19, 25)));
    assert_eq!(dt(0, 0, 60, 1, 1, 0).try_edit(RtcEdit::AddSecond), Some(dt(0, 0, 61, 1, 1, 0)));
    assert_eq!(dt(30, 70, 58, 14, 40, 150).edit(RtcEdit::AddSecond), dt(30, 70, 59, 14, 40, 150));
}

#[test]
fn only_two_digit_fields_can_be_written() {
    assert!(dt(23, 59, 59, 12, 31, 99).is_writable());
    assert!(dt(99, 99, 99, 99, 99, 99).is_writable());
    assert!(!dt(0, 0, 0, 1, 1, 200).is_writable());
    assert!(!dt(0, 0, 100, 1, 1, 0).is_writable());
}

fn dt(hour: u8, minute: u8, second: u8, month: u8, day: u8, year: u8) -> DateTime {
    DateTime { second, minute, hour, day, month, year }
}

#[test]
fn timestamps_from_the_clock_driver() {
    assert_eq!(dt(0, 0, 0, 1, 1, 0).timestamp(), 946684800);
    assert_eq!(dt(0, 0, 0, 3, 1, 1).timestamp(), 983404800);
    assert_eq!(dt(15, 23, 11, 8, 21, 25).timestamp(), 1755789791);
    assert_eq!(dt(23, 59, 59, 12, 31, 24).timestamp(), 1735689599);
}

#[test]
fn time_report_lines() {
    assert_eq!(time_message(1755789791), b"\n\r1755789791\r\n".to_vec());
    assert_eq!(time_message(0), b"\n\r0\r\n".to_vec());
    assert_eq!(time_message(u32::MAX), b"\n\r4294967295\r\n".to_vec());
    assert_eq!(now_message(&dt(0, 0, 0, 1, 1, 0)), b"\n\r946684800\r\n".to_vec());
}

#[test]
fn adding_a_second_carries_through_the_calendar() {
    assert_eq!(dt(0, 0, 59, 8, 19, 25).edit(RtcEdit::AddSecond), dt(0, 1, 0, 8, 19, 25));
    assert_eq!(dt(1, 2, 20, 3, 4, 5).edit(RtcEdit::AddSecond), dt(1, 2, 21, 3, 4, 5));
    assert_eq!(dt(9, 59, 59, 8, 19, 25).edit(RtcEdit::AddSecond), dt(10, 0, 0, 8, 19, 25));
    assert_eq!(dt(23, 59, 59, 8, 19, 25).edit(RtcEdit::AddSecond), dt(0, 0, 0, 8, 20, 25));
    assert_eq!(dt(23, 59, 59, 8, 31, 25).edit(RtcEdit::AddSecond), dt(0, 0, 0, 9, 1, 25));
    assert_eq!(dt(23, 59, 59, 2, 28, 24).edit(RtcEdit::AddSecond), dt(0, 0, 0, 2, 29, 24));
    assert_eq!(dt(23, 59, 59, 2, 28, 25).edit(RtcEdit::AddSecond), dt(0, 0, 0, 3, 1, 25));
    assert_eq!(dt(23, 59, 59, 12, 31, 25).edit(RtcEdit::AddSecond), dt(0, 0, 0, 1, 1, 26));
}

#[test]
fn taking_a_second_away_borrows_through_the_calendar() {
    assert_eq!(dt(0, 1, 0, 8, 19, 25).edit(RtcEdit::SubSecond), dt(0, 0, 59, 8, 19, 25));
    assert_eq!(dt(1, 2, 20, 3, 4, 5).edit(RtcEdit::SubSecond), dt(1, 2, 19, 3, 4, 5));
    assert_eq!(dt(0, 0, 0, 8, 19, 25).edit(RtcEdit::SubSecond), dt(23, 59, 59, 8, 18, 25));
    assert_eq!(dt(0, 0, 0, 3, 1, 24).edit(RtcEdit::SubSecond), dt(23, 59, 59, 2, 29, 24));
    assert_eq!(dt(0, 0, 0, 3, 1, 25).edit(RtcEdit::SubSecond), dt(23, 59, 59, 2, 28, 25));
    assert_eq!(dt(0, 0, 0, 5, 1, 25).edit(RtcEdit::SubSecond), dt(23, 59, 59, 4, 30, 25));
    assert_eq!(dt(0, 0, 0, 1, 1, 26).edit(RtcEdit::SubSecond), dt(23, 59, 59, 12, 31, 25));
}

#[test]
fn a_second_added_then_taken_away_gives_the_same_time() {
    for t in [dt(23, 59, 59, 2, 29, 24), dt(0, 0, 0, 1, 1, 0), dt(12, 30, 59, 6, 30, 50)] {
        assert_eq!(t.edit(RtcEdit::AddSecond).edit(RtcEdit::SubSecond), t);
    }
}

#[test]
fn seconds_cannot_leave_the_clocks_range() {
    assert_eq!(dt(23, 59, 59, 12, 31, 99).try_edit(RtcEdit::AddSecond), None);
    assert_eq!(dt(0, 0, 0, 1, 1, 0).try_edit(RtcEdit::SubSecond), None);
    assert_eq!(dt(0, 59, 59, 1, 0, 0).try_edit(RtcEdit::AddSecond), None);
    assert_eq!(dt(0, 0, 255, 1, 1, 0).try_edit(RtcEdit::AddSecond), None);
    assert_eq!(dt(0, 0, 0, 2, 30, 24).try_edit(RtcEdit::SubSecond), None);
    assert_eq!(dt(0, 0, 0, 1, 1, 0).try_edit(RtcEdit::AddSecond), Some(dt(0, 0, 1, 1, 1, 0)));
    assert_eq!(dt(0, 0, 60, 1, 1, 0).try_edit(RtcEdit::SetSecond(3)), Some(dt(0, 0, 3, 1, 1, 0)));
}

#[test]
fn timestamps_outside_the_calendar_follow_the_driver() {
    let odd = dt(0, 0, 60, 1, 1, 0);
    assert!(odd.has_timestamp());
    assert_eq!(odd.timestamp(), 946684860);
    let feb30 = dt(0, 0, 0, 2, 30, 24);
    assert!(feb30.has_timestamp());
    assert_eq!(feb30.timestamp(), dt(0, 0, 0, 3, 1, 24).timestamp() + 86400);
    assert!(dt(0, 0, 0, 13, 1, 0).has_timestamp());
    assert!(!dt(0, 0, 0, 14, 1, 0).has_timestamp());
    assert!(!dt(0, 0, 0, 0, 1, 0).has_timestamp());
    assert!(!dt(0, 0, 0, 1, 0, 0).has_timestamp());
    assert!(!dt(0, 0, 0, 1, 1, 255).has_timestamp());
    assert!(dt(23, 59, 59, 12, 31, 99).has_timestamp());
    assert_eq!(dt(23, 59, 59, 12, 31, 99).timestamp(), 4102444799);
}

#[test]
fn setters_replace_one_field() {
    let t = dt(10, 30, 15, 5, 4, 25);
    assert_eq!(t.edit(RtcEdit::SetDay(9)), dt(10, 30, 15, 5, 9, 25));
    assert_eq!(t.edit(RtcEdit::SetHour(9)), dt(9, 30, 15, 5, 4, 25));
    assert_eq!(t.edit(RtcEdit::SetMinute(9)), dt(10, 9, 15, 5, 4, 25));
    assert_eq!(t.edit(RtcEdit::SetMonth(9)), dt(10, 30, 15, 9, 4, 25));
    assert_eq!(t.edit(RtcEdit::SetSecond(9)), dt(10, 30, 9, 5, 4, 25));
    assert_eq!(t.edit(RtcEdit::SetYear(9)), dt(10, 30, 15, 5, 4, 9));
}

#[test]
fn validity_follows_the_calendar() {
    assert!(dt(0, 0, 0, 8, 19, 25).is_valid());
    assert!(dt(23, 59, 59, 12, 31, 99).is_valid());
    assert!(dt(0, 0, 0, 2, 29, 24).is_valid());
    assert!(dt(0, 0, 0, 2, 29, 0).is_valid());
    assert!(!dt(0, 0, 0, 2, 29, 25).is_valid());
    assert!(!dt(0, 0, 0, 4, 31, 25).is_valid());
    assert!(!dt(0, 0, 0, 13, 1, 25).is_valid());
    assert!(!dt(0, 0, 0, 0, 1, 25).is_valid());
    assert!(!dt(0, 0, 0, 1, 0, 25).is_valid());
    assert!(!dt(0, 0, 0, 1, 1, 100).is_valid());
    assert!(!dt(24, 0, 0, 1, 1, 25).is_valid());
    assert!(!dt(0, 60, 0, 1, 1, 25).is_valid());
    assert!(!dt(0, 0, 60, 1, 1, 25).is_valid());
}

#[test]
fn february_of_a_leap_year_follows_the_driver() {
    // The driver counts the leap day from February on, one day ahead of the
    // calendar there; March onwards agrees with the calendar again.
    assert_eq!(dt(0, 0, 0, 2, 10, 24).timestamp(), 1707523200 + 86400);
    assert_eq!(dt(0, 0, 0, 3, 1, 24).timestamp(), 1709251200);
}
