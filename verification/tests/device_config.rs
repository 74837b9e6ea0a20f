use input::accel_config::{points_in_reach, AccelType};
use input::device::{
    config_result, has_result, lists_flag, seat_name_result, state_from_raw, state_to_raw,
    AccelProfile, ClickMethod, DeviceCapability, DeviceConfigError, Led, ScrollMethod,
    SendEventsMode, TapButtonMap,
};

#[test]
fn capabilities_have_the_numbers_of_the_c_enumeration() {
    let table = [
        (DeviceCapability::Keyboard, 0u32),
        (DeviceCapability::Pointer, 1),
        (DeviceCapability::Touch, 2),
        (DeviceCapability::TabletTool, 3),
        (DeviceCapability::TabletPad, 4),
        (DeviceCapability::Gesture, 5),
        (DeviceCapability::Switch, 6),
    ];
    for (capability, code) in table {
        assert_eq!(capability.to_raw(), code);
        assert_eq!(DeviceCapability::from_raw(code), Some(capability));
    }
    assert_eq!(DeviceCapability::from_raw(7), None);
    assert_eq!(DeviceCapability::from_raw(u32::MAX), None);
}

#[test]
fn accel_types_have_the_numbers_of_the_c_enumeration() {
    assert_eq!(AccelType::Fallback.to_raw(), 0);
    assert_eq!(AccelType::Motion.to_raw(), 1);
    assert_eq!(AccelType::Scroll.to_raw(), 2);
}

#[test]
fn no_more_points_are_read_than_are_there() {
    assert!(points_in_reach(0, 0));
    assert!(points_in_reach(0, 3));
    assert!(points_in_reach(3, 3));
    assert!(points_in_reach(2, 3));
    assert!(!points_in_reach(4, 3));
    assert!(!points_in_reach(1, 0));
    assert!(!points_in_reach(usize::MAX, 64));
}

#[test]
fn accel_profiles_are_read_and_written() {
    assert_eq!(AccelProfile::Flat.to_raw(), 1);
    assert_eq!(AccelProfile::Adaptive.to_raw(), 2);
    assert_eq!(AccelProfile::Custom.to_raw(), 4);
    assert_eq!(AccelProfile::from_raw(1), Some(AccelProfile::Flat));
    assert_eq!(AccelProfile::from_raw(2), Some(AccelProfile::Adaptive));
    assert_eq!(AccelProfile::from_raw(4), Some(AccelProfile::Custom));
    assert_eq!(AccelProfile::from_raw(0), None);
    assert_eq!(AccelProfile::from_raw(3), None);
}

#[test]
fn a_device_without_acceleration_has_no_profile() {
    assert_eq!(AccelProfile::from_config(0), Some(None));
    assert_eq!(AccelProfile::from_config(1), Some(Some(AccelProfile::Flat)));
    assert_eq!(AccelProfile::from_config(2), Some(Some(AccelProfile::Adaptive)));
    assert_eq!(AccelProfile::from_config(4), Some(Some(AccelProfile::Custom)));
    assert_eq!(AccelProfile::from_config(3), None);
    assert_eq!(AccelProfile::from_config(8), None);
}

#[test]
fn click_methods_are_read_and_written() {
    assert_eq!(ClickMethod::ButtonAreas.to_raw(), 1);
    assert_eq!(ClickMethod::Clickfinger.to_raw(), 2);
    assert_eq!(ClickMethod::from_raw(1), Some(ClickMethod::ButtonAreas));
    assert_eq!(ClickMethod::from_raw(2), Some(ClickMethod::Clickfinger));
    assert_eq!(ClickMethod::from_raw(3), None);
    assert_eq!(ClickMethod::from_config(0), Some(None));
    assert_eq!(ClickMethod::from_config(1), Some(Some(ClickMethod::ButtonAreas)));
    assert_eq!(ClickMethod::from_config(2), Some(Some(ClickMethod::Clickfinger)));
    assert_eq!(ClickMethod::from_config(4), None);
}

#[test]
fn scroll_methods_are_read_and_written() {
    let table = [
        (ScrollMethod::NoScroll, 0u32),
        (ScrollMethod::TwoFinger, 1),
        (ScrollMethod::Edge, 2),
        (ScrollMethod::OnButtonDown, 4),
    ];
    for (method, code) in table {
        assert_eq!(method.to_raw(), code);
        assert_eq!(ScrollMethod::from_raw(code), Some(method));
    }
    assert_eq!(ScrollMethod::from_raw(3), None);
    assert_eq!(ScrollMethod::from_raw(8), None);
}

#[test]
fn tap_button_maps_are_read_and_written() {
    assert_eq!(TapButtonMap::LeftRightMiddle.to_raw(), 0);
    assert_eq!(TapButtonMap::LeftMiddleRight.to_raw(), 1);
    assert_eq!(TapButtonMap::from_raw(0), Some(TapButtonMap::LeftRightMiddle));
    assert_eq!(TapButtonMap::from_raw(1), Some(TapButtonMap::LeftMiddleRight));
    assert_eq!(TapButtonMap::from_raw(2), None);
}

#[test]
fn a_device_that_counts_no_finger_has_no_tap_button_map() {
    assert_eq!(TapButtonMap::from_config(0, 0), Some(None));
    assert_eq!(TapButtonMap::from_config(0, 1), Some(None));
    assert_eq!(TapButtonMap::from_config(0, 77), Some(None));
    assert_eq!(TapButtonMap::from_config(1, 0), Some(Some(TapButtonMap::LeftRightMiddle)));
    assert_eq!(TapButtonMap::from_config(3, 1), Some(Some(TapButtonMap::LeftMiddleRight)));
    assert_eq!(TapButtonMap::from_config(3, 2), None);
}

#[test]
fn a_device_taps_where_it_counts_a_finger() {
    assert!(!TapButtonMap::can_tap(0));
    assert!(TapButtonMap::can_tap(1));
    assert!(TapButtonMap::can_tap(5));
    assert!(TapButtonMap::can_tap(u32::MAX));
}

#[test]
fn a_mask_lists_a_flag_where_it_holds_its_bit() {
    assert!(lists_flag(1, 1));
    assert!(lists_flag(3, 1));
    assert!(lists_flag(3, 2));
    assert!(lists_flag(7, 4));
    assert!(lists_flag(u32::MAX, 4));
    assert!(!lists_flag(0, 1));
    assert!(!lists_flag(2, 1));
    assert!(!lists_flag(3, 4));
    assert!(!lists_flag(8, 4));
}

#[test]
fn only_the_empty_mask_lists_the_number_zero() {
    assert!(lists_flag(0, 0));
    assert!(!lists_flag(1, 0));
    assert!(!lists_flag(4, 0));
    assert!(!lists_flag(u32::MAX, 0));
}

#[test]
fn accel_profiles_of_a_mask() {
    let (flat, adaptive, custom) =
        (AccelProfile::Flat, AccelProfile::Adaptive, AccelProfile::Custom);
    assert_eq!(AccelProfile::from_bitmask(0), vec![]);
    assert_eq!(AccelProfile::from_bitmask(1), vec![flat]);
    assert_eq!(AccelProfile::from_bitmask(2), vec![adaptive]);
    assert_eq!(AccelProfile::from_bitmask(3), vec![flat, adaptive]);
    assert_eq!(AccelProfile::from_bitmask(4), vec![custom]);
    assert_eq!(AccelProfile::from_bitmask(5), vec![flat, custom]);
    assert_eq!(AccelProfile::from_bitmask(6), vec![adaptive, custom]);
    assert_eq!(AccelProfile::from_bitmask(7), vec![flat, adaptive, custom]);
    assert_eq!(AccelProfile::from_bitmask(8), vec![]);
    assert_eq!(AccelProfile::from_bitmask(9), vec![flat]);
}

#[test]
fn click_methods_of_a_mask() {
    let (areas, finger) = (ClickMethod::ButtonAreas, ClickMethod::Clickfinger);
    assert_eq!(ClickMethod::from_bitmask(0), vec![]);
    assert_eq!(ClickMethod::from_bitmask(1), vec![areas]);
    assert_eq!(ClickMethod::from_bitmask(2), vec![finger]);
    assert_eq!(ClickMethod::from_bitmask(3), vec![finger, areas]);
    assert_eq!(ClickMethod::from_bitmask(4), vec![]);
    assert_eq!(ClickMethod::from_bitmask(7), vec![finger, areas]);
}

#[test]
fn scroll_methods_of_a_mask() {
    let (none, two, edge, button) = (
        ScrollMethod::NoScroll,
        ScrollMethod::TwoFinger,
        ScrollMethod::Edge,
        ScrollMethod::OnButtonDown,
    );
    assert_eq!(ScrollMethod::from_bitmask(0), vec![none]);
    assert_eq!(ScrollMethod::from_bitmask(1), vec![two]);
    assert_eq!(ScrollMethod::from_bitmask(2), vec![edge]);
    assert_eq!(ScrollMethod::from_bitmask(3), vec![two, edge]);
    assert_eq!(ScrollMethod::from_bitmask(4), vec![button]);
    assert_eq!(ScrollMethod::from_bitmask(5), vec![two, button]);
    assert_eq!(ScrollMethod::from_bitmask(6), vec![edge, button]);
    assert_eq!(ScrollMethod::from_bitmask(7), vec![two, edge, button]);
    assert_eq!(ScrollMethod::from_bitmask(8), vec![]);
    assert_eq!(ScrollMethod::from_bitmask(u32::MAX), vec![two, edge, button]);
}

#[test]
fn send_events_modes_of_a_mask() {
    let (enabled, disabled, external) = (
        SendEventsMode::Enabled,
        SendEventsMode::Disabled,
        SendEventsMode::DisabledOnExternalMouse,
    );
    assert_eq!(SendEventsMode::from_bitmask(0), vec![enabled]);
    assert_eq!(SendEventsMode::from_bitmask(1), vec![disabled]);
    assert_eq!(SendEventsMode::from_bitmask(2), vec![external]);
    assert_eq!(SendEventsMode::from_bitmask(3), vec![disabled, external]);
    assert_eq!(SendEventsMode::from_bitmask(4), vec![]);
}

#[test]
fn a_value_is_listed_once_and_exactly_where_its_bit_is_set() {
    let methods = [ScrollMethod::TwoFinger, ScrollMethod::Edge, ScrollMethod::OnButtonDown];
    for mask in 0u32..64 {
        let listed = ScrollMethod::from_bitmask(mask);
        for method in methods {
            let times = listed.iter().filter(|found| **found == method).count();
            assert_eq!(times, usize::from(mask & method.to_raw() != 0), "mask {}", mask);
        }
        assert_eq!(listed.contains(&ScrollMethod::NoScroll), mask == 0);
        let profiles = AccelProfile::from_bitmask(mask);
        for profile in [AccelProfile::Flat, AccelProfile::Adaptive, AccelProfile::Custom] {
            let times = profiles.iter().filter(|found| **found == profile).count();
            assert_eq!(times, usize::from(mask & profile.to_raw() != 0), "mask {}", mask);
        }
    }
}

#[test]
fn reading_a_built_mask_gives_the_modes_back() {
    let (enabled, disabled, external) = (
        SendEventsMode::Enabled,
        SendEventsMode::Disabled,
        SendEventsMode::DisabledOnExternalMouse,
    );
    let read = |modes: &[SendEventsMode]| {
        SendEventsMode::from_bitmask(SendEventsMode::to_bitmask(modes))
    };
    assert_eq!(read(&[]), vec![enabled]);
    assert_eq!(read(&[enabled]), vec![enabled]);
    assert_eq!(read(&[disabled]), vec![disabled]);
    assert_eq!(read(&[external, disabled]), vec![disabled, external]);
    assert_eq!(read(&[external, enabled, external]), vec![external]);
}

#[test]
fn send_events_modes_have_the_numbers_of_the_c_enumeration() {
    assert_eq!(SendEventsMode::Enabled.to_raw(), 0);
    assert_eq!(SendEventsMode::Disabled.to_raw(), 1);
    assert_eq!(SendEventsMode::DisabledOnExternalMouse.to_raw(), 2);
}

#[test]
fn send_events_modes_make_a_mask() {
    let (enabled, disabled, external) = (
        SendEventsMode::Enabled,
        SendEventsMode::Disabled,
        SendEventsMode::DisabledOnExternalMouse,
    );
    assert_eq!(SendEventsMode::to_bitmask(&[]), 0);
    assert_eq!(SendEventsMode::to_bitmask(&[enabled]), 0);
    assert_eq!(SendEventsMode::to_bitmask(&[disabled]), 1);
    assert_eq!(SendEventsMode::to_bitmask(&[external]), 2);
    assert_eq!(SendEventsMode::to_bitmask(&[disabled, external]), 3);
    assert_eq!(SendEventsMode::to_bitmask(&[external, enabled, disabled]), 3);
    assert_eq!(SendEventsMode::to_bitmask(&[disabled, disabled, enabled]), 1);
}

#[test]
fn leds_make_a_mask() {
    assert_eq!(Led::NumLock.to_raw(), 1);
    assert_eq!(Led::CapsLock.to_raw(), 2);
    assert_eq!(Led::ScrollLock.to_raw(), 4);
    assert_eq!(Led::to_bitmask(&[]), 0);
    assert_eq!(Led::to_bitmask(&[Led::NumLock]), 1);
    assert_eq!(Led::to_bitmask(&[Led::CapsLock]), 2);
    assert_eq!(Led::to_bitmask(&[Led::ScrollLock]), 4);
    assert_eq!(Led::to_bitmask(&[Led::NumLock, Led::ScrollLock]), 5);
    assert_eq!(Led::to_bitmask(&[Led::ScrollLock, Led::NumLock]), 5);
    assert_eq!(Led::to_bitmask(&[Led::CapsLock, Led::CapsLock, Led::CapsLock]), 2);
    assert_eq!(Led::to_bitmask(&[Led::ScrollLock, Led::CapsLock, Led::NumLock, Led::CapsLock]), 7);
}

#[test]
fn the_led_mask_holds_a_flag_exactly_where_the_led_occurs() {
    let all = [Led::NumLock, Led::CapsLock, Led::ScrollLock];
    for pick in 0u32..8 {
        let leds: Vec<Led> =
            all.iter().copied().filter(|led| pick & led.to_raw() != 0).collect();
        let mask = Led::to_bitmask(&leds);
        assert_eq!(mask, pick);
        for led in all {
            assert_eq!(mask & led.to_raw() != 0, leds.contains(&led));
        }
    }
}

#[test]
fn a_config_status_becomes_a_result() {
    assert_eq!(config_result(0), Some(Ok(())));
    assert_eq!(config_result(1), Some(Err(DeviceConfigError::Unsupported)));
    assert_eq!(config_result(2), Some(Err(DeviceConfigError::Invalid)));
    assert_eq!(config_result(3), None);
    assert_eq!(config_result(u32::MAX), None);
}

#[test]
fn a_two_state_value_becomes_a_bool() {
    assert_eq!(state_to_raw(false), 0);
    assert_eq!(state_to_raw(true), 1);
    assert_eq!(state_from_raw(0), Some(false));
    assert_eq!(state_from_raw(1), Some(true));
    assert_eq!(state_from_raw(2), None);
    for enabled in [false, true] {
        assert_eq!(state_from_raw(state_to_raw(enabled)), Some(enabled));
    }
}

#[test]
fn the_answer_to_a_has_query() {
    assert_eq!(has_result(1), Some(Ok(true)));
    assert_eq!(has_result(0), Some(Ok(false)));
    assert_eq!(has_result(-1), Some(Err(())));
    assert_eq!(has_result(2), None);
    assert_eq!(has_result(-2), None);
    assert_eq!(has_result(i32::MIN), None);
}

#[test]
fn only_zero_says_that_the_seat_name_was_set() {
    assert_eq!(seat_name_result(0), Ok(()));
    assert_eq!(seat_name_result(1), Err(()));
    assert_eq!(seat_name_result(-1), Err(()));
    assert_eq!(seat_name_result(i32::MAX), Err(()));
}
