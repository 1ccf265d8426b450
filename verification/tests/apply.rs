use slider_brightness::apply::{
    register_units, set_brightness, HW_MAX_BRIGHTNESS, HW_MIN_BRIGHTNESS, REGISTER_MAX,
    REGISTER_MIN,
};

#[test]
fn clamps_low_request_up_to_floor() {
    assert_eq!(set_brightness(5), HW_MIN_BRIGHTNESS);
}

#[test]
fn clamps_negative_request_up_to_floor() {
    assert_eq!(set_brightness(-50), HW_MIN_BRIGHTNESS);
}

#[test]
fn clamps_huge_request_down_to_ceiling() {
    assert_eq!(set_brightness(9999), HW_MAX_BRIGHTNESS);
}

#[test]
fn passes_safe_request_through() {
    assert_eq!(set_brightness(55), 55);
    assert_eq!(set_brightness(HW_MIN_BRIGHTNESS as i32), HW_MIN_BRIGHTNESS);
    assert_eq!(set_brightness(HW_MAX_BRIGHTNESS as i32), HW_MAX_BRIGHTNESS);
}

#[test]
fn always_lands_in_the_safe_range() {
    for requested in [i32::MIN, -50, -1, 0, 5, 10, 55, 100, 101, 9999, i32::MAX] {
        let applied = set_brightness(requested);
        assert!(HW_MIN_BRIGHTNESS <= applied && applied <= HW_MAX_BRIGHTNESS);
    }
}

#[test]
fn repeated_application_reports_the_same_value() {
    for requested in [-50, 5, 55, 9999] {
        let first = set_brightness(requested);
        let second = set_brightness(requested);
        assert_eq!(first, second);
        // Clamping what was already applied changes nothing.
        assert_eq!(set_brightness(first as i32), first);
    }
}

#[test]
fn scales_percent_to_register_units() {
    assert_eq!(register_units(10), 1);
    assert_eq!(register_units(55), 5);
    assert_eq!(register_units(100), 10);
}

#[test]
fn register_units_stay_in_register_range() {
    for applied in 0..=255u8 {
        let units = register_units(applied);
        assert!(REGISTER_MIN <= units && units <= REGISTER_MAX);
    }
}
