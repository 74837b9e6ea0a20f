use input::event::keyboard::KeyState;
use input::event::pointer::{Axis, AxisSource, ButtonState};
use input::event::switch::{Switch, SwitchState};
use input::event::tablet_pad::{RingAxisSource, StripAxisSource};
use input::event::tablet_tool::{ProximityState, TabletToolType, TipState};
use input::event::touch::slot_from_raw;

#[test]
fn key_state_codes() {
    assert_eq!(KeyState::from_raw(0), Some(KeyState::Released));
    assert_eq!(KeyState::from_raw(1), Some(KeyState::Pressed));
    assert_eq!(KeyState::from_raw(2), None);
}

#[test]
fn button_state_codes() {
    assert_eq!(ButtonState::from_raw(0), Some(ButtonState::Released));
    assert_eq!(ButtonState::from_raw(1), Some(ButtonState::Pressed));
    assert_eq!(ButtonState::from_raw(2), None);
    assert_eq!(ButtonState::from_raw(u32::MAX), None);
}

#[test]
fn axis_codes() {
    assert_eq!(Axis::Vertical.to_raw(), 0);
    assert_eq!(Axis::Horizontal.to_raw(), 1);
}

#[test]
fn axis_source_codes() {
    assert_eq!(AxisSource::from_raw(1), Some(AxisSource::Wheel));
    assert_eq!(AxisSource::from_raw(2), Some(AxisSource::Finger));
    assert_eq!(AxisSource::from_raw(3), Some(AxisSource::Continuous));
    assert_eq!(AxisSource::from_raw(4), Some(AxisSource::WheelTilt));
    assert_eq!(AxisSource::from_raw(0), None);
    assert_eq!(AxisSource::from_raw(5), None);
}

#[test]
fn only_wheels_count_in_steps() {
    assert!(AxisSource::Wheel.has_discrete_steps());
    assert!(AxisSource::WheelTilt.has_discrete_steps());
    assert!(!AxisSource::Finger.has_discrete_steps());
    assert!(!AxisSource::Continuous.has_discrete_steps());
}

#[test]
fn switch_codes() {
    assert_eq!(Switch::Lid.to_raw(), 1);
    assert_eq!(Switch::TabletMode.to_raw(), 2);
    assert_eq!(Switch::from_raw(1), Some(Switch::Lid));
    assert_eq!(Switch::from_raw(2), Some(Switch::TabletMode));
    assert_eq!(Switch::from_raw(0), None);
    assert_eq!(Switch::from_raw(3), None);
    assert_eq!(SwitchState::from_raw(0), Some(SwitchState::Off));
    assert_eq!(SwitchState::from_raw(1), Some(SwitchState::On));
    assert_eq!(SwitchState::from_raw(2), None);
}

#[test]
fn pad_source_codes() {
    assert_eq!(RingAxisSource::from_raw(1), Some(RingAxisSource::Unknown));
    assert_eq!(RingAxisSource::from_raw(2), Some(RingAxisSource::Finger));
    assert_eq!(RingAxisSource::from_raw(0), None);
    assert_eq!(RingAxisSource::from_raw(3), None);
    assert_eq!(StripAxisSource::from_raw(1), Some(StripAxisSource::Unknown));
    assert_eq!(StripAxisSource::from_raw(2), Some(StripAxisSource::Finger));
    assert_eq!(StripAxisSource::from_raw(0), None);
    assert_eq!(StripAxisSource::from_raw(3), None);
}

#[test]
fn tablet_tool_codes() {
    let table = [
        (1u32, TabletToolType::Pen),
        (2, TabletToolType::Eraser),
        (3, TabletToolType::Brush),
        (4, TabletToolType::Pencil),
        (5, TabletToolType::Airbrush),
        (6, TabletToolType::Mouse),
        (7, TabletToolType::Lens),
    ];
    for (code, tool) in table {
        assert_eq!(TabletToolType::from_raw(code), Some(tool));
    }
    assert_eq!(TabletToolType::from_raw(0), None);
    assert_eq!(TabletToolType::from_raw(8), None);
    assert_eq!(ProximityState::from_raw(0), Some(ProximityState::Out));
    assert_eq!(ProximityState::from_raw(1), Some(ProximityState::In));
    assert_eq!(ProximityState::from_raw(2), None);
    assert_eq!(TipState::from_raw(0), Some(TipState::Up));
    assert_eq!(TipState::from_raw(1), Some(TipState::Down));
    assert_eq!(TipState::from_raw(2), None);
}

#[test]
fn a_touch_slot_is_a_number_or_missing() {
    assert_eq!(slot_from_raw(0), Some(Some(0)));
    assert_eq!(slot_from_raw(5), Some(Some(5)));
    assert_eq!(slot_from_raw(i32::MAX), Some(Some(2147483647)));
    assert_eq!(slot_from_raw(-1), Some(None));
    assert_eq!(slot_from_raw(-2), None);
    assert_eq!(slot_from_raw(i32::MIN), None);
}
