use home_iot::gpio::{Led, LedLevels};

#[test]
fn toggling_switches_one_led_over() {
    let mut levels = LedLevels::new();
    assert!(!levels.is_lit(Led::Green) && !levels.is_lit(Led::Red) && !levels.is_lit(Led::Yellow));
    assert!(levels.toggle(Led::Green));
    assert!(levels.is_lit(Led::Green));
    assert!(!levels.is_lit(Led::Red) && !levels.is_lit(Led::Yellow));
    assert!(levels.toggle(Led::Yellow));
    assert!(!levels.toggle(Led::Green));
    assert_eq!(levels, LedLevels { green: false, red: false, yellow: true });
}
