use input::event::device::{DeviceAddedEvent, DeviceEvent, DeviceEventTrait};
use input::event::gesture::{
    GestureEvent, GestureEventTrait, GesturePinchEvent, GesturePinchEventTrait,
    GesturePinchUpdateEvent, GestureSwipeBeginEvent, GestureSwipeEvent, GestureSwipeEventTrait,
};
use input::event::keyboard::{KeyboardEvent, KeyboardEventTrait, KeyboardKeyEvent};
use input::event::pointer::{PointerButtonEvent, PointerEvent, PointerEventTrait};
use input::event::switch::{SwitchEvent, SwitchEventTrait, SwitchToggleEvent};
use input::event::tablet_pad::{TabletPadEvent, TabletPadEventTrait, TabletPadRingEvent};
use input::event::tablet_tool::{TabletToolEvent, TabletToolEventTrait, TabletToolTipEvent};
use input::event::touch::{TouchEvent, TouchEventTrait, TouchUpEvent};
use input::event::{Event, EventTrait};

#[test]
fn a_leaf_converts_into_its_family_and_into_an_event() {
    let button = PointerButtonEvent::from_raw(402, 3u8);
    assert_eq!(
        button.into_pointer_event(),
        PointerEvent::Button(PointerButtonEvent::from_raw(402, 3))
    );
    let button = PointerButtonEvent::from_raw(402, 3u8);
    assert_eq!(
        button.into_event(),
        Event::Pointer(PointerEvent::Button(PointerButtonEvent::from_raw(402, 3)))
    );
}

#[test]
fn a_converted_event_keeps_type_and_handle() {
    let event = KeyboardKeyEvent::from_raw(300, 11u32).into_event();
    assert_eq!(event.event_type(), 300);
    assert_eq!(event.into_handle(), 11);
    let event = TouchUpEvent::from_raw(501, 12u32).into_touch_event().into_event();
    assert_eq!(event.event_type(), 501);
    assert_eq!(event, Event::from_raw(501, 12));
    let event = TabletPadRingEvent::from_raw(701, 13u32).into_event();
    assert_eq!(event, Event::from_raw(701, 13));
    let event = TabletToolTipEvent::from_raw(602, 14u32).into_event();
    assert_eq!(event, Event::from_raw(602, 14));
    let event = SwitchToggleEvent::from_raw(900, 15u32).into_event();
    assert_eq!(event, Event::from_raw(900, 15));
    let event = DeviceAddedEvent::from_raw(1, 16u32).into_event();
    assert_eq!(event, Event::from_raw(1, 16));
}

#[test]
fn a_family_converts_into_itself_and_into_an_event() {
    let key = KeyboardEvent::Key(KeyboardKeyEvent::from_raw(300, 'k'));
    assert_eq!(key.into_keyboard_event(), KeyboardEvent::Key(KeyboardKeyEvent::from_raw(300, 'k')));
    let added = DeviceEvent::Added(DeviceAddedEvent::from_raw(1, 1));
    assert_eq!(added.into_device_event().into_event(), Event::from_raw(1, 1));
    let toggle = SwitchToggleEvent::from_raw(900, 2).into_switch_event();
    assert_eq!(toggle, SwitchEvent::Toggle(SwitchToggleEvent::from_raw(900, 2)));
    let ring = TabletPadRingEvent::from_raw(701, 3).into_tablet_pad_event();
    assert_eq!(ring, TabletPadEvent::Ring(TabletPadRingEvent::from_raw(701, 3)));
    let tip = TabletToolTipEvent::from_raw(602, 4).into_tablet_tool_event();
    assert_eq!(tip, TabletToolEvent::Tip(TabletToolTipEvent::from_raw(602, 4)));
    let up = TouchUpEvent::from_raw(501, 5).into_touch_event();
    assert_eq!(up, TouchEvent::Up(TouchUpEvent::from_raw(501, 5)));
    let event = Event::from_raw(402, 6);
    assert_eq!(event.into_event(), Event::from_raw(402, 6));
}

#[test]
fn gesture_events_convert_through_every_level() {
    let begin = GestureSwipeBeginEvent::from_raw(800, 1u8);
    assert_eq!(
        begin.into_gesture_swipe_event(),
        GestureSwipeEvent::Begin(GestureSwipeBeginEvent::from_raw(800, 1))
    );
    let begin = GestureSwipeBeginEvent::from_raw(800, 1u8);
    assert_eq!(
        begin.into_gesture_event(),
        GestureEvent::Swipe(GestureSwipeEvent::Begin(GestureSwipeBeginEvent::from_raw(800, 1)))
    );
    let begin = GestureSwipeBeginEvent::from_raw(800, 1u8);
    assert_eq!(begin.into_event(), Event::from_raw(800, 1));
    let update = GesturePinchUpdateEvent::from_raw(804, 2u8);
    assert_eq!(
        update.into_gesture_pinch_event(),
        GesturePinchEvent::Update(GesturePinchUpdateEvent::from_raw(804, 2))
    );
    let pinch = GesturePinchEvent::Update(GesturePinchUpdateEvent::from_raw(804, 2u8));
    assert_eq!(pinch.into_gesture_event().into_event(), Event::from_raw(804, 2));
    let swipe = GestureSwipeEvent::from_raw(802, 3u8);
    assert_eq!(swipe.into_event(), Event::from_raw(802, 3));
}
