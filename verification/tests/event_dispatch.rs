use input::event::device::{DeviceAddedEvent, DeviceEvent, DeviceRemovedEvent};
use input::event::gesture::{
    GestureEvent, GesturePinchBeginEvent, GesturePinchEndEvent, GesturePinchEvent,
    GesturePinchUpdateEvent, GestureSwipeBeginEvent, GestureSwipeEndEvent, GestureSwipeEvent,
    GestureSwipeUpdateEvent,
};
use input::event::keyboard::{KeyboardEvent, KeyboardKeyEvent};
use input::event::pointer::{
    PointerAxisEvent, PointerButtonEvent, PointerEvent, PointerMotionAbsoluteEvent,
    PointerMotionEvent, PointerScrollContinuousEvent, PointerScrollFingerEvent,
    PointerScrollWheelEvent,
};
use input::event::switch::{SwitchEvent, SwitchToggleEvent};
use input::event::tablet_pad::{
    TabletPadButtonEvent, TabletPadEvent, TabletPadKeyEvent, TabletPadRingEvent,
    TabletPadStripEvent,
};
use input::event::tablet_tool::{
    TabletToolAxisEvent, TabletToolButtonEvent, TabletToolEvent, TabletToolProximityEvent,
    TabletToolTipEvent,
};
use input::event::touch::{
    TouchCancelEvent, TouchDownEvent, TouchEvent, TouchFrameEvent, TouchMotionEvent, TouchUpEvent,
};
use input::event::{
    next_step, Event, NextStep, LIBINPUT_EVENT_KEYBOARD_KEY, LIBINPUT_EVENT_NONE,
};

/// Every type that the library sorts, with the event it must give around
/// the handle 7.
fn table() -> Vec<(u32, Event<u32>)> {
    let handle = 7u32;
    vec![
        (1, Event::Device(DeviceEvent::Added(DeviceAddedEvent::from_raw(1, handle)))),
        (2, Event::Device(DeviceEvent::Removed(DeviceRemovedEvent::from_raw(2, handle)))),
        (300, Event::Keyboard(KeyboardEvent::Key(KeyboardKeyEvent::from_raw(300, handle)))),
        (400, Event::Pointer(PointerEvent::Motion(PointerMotionEvent::from_raw(400, handle)))),
        (
            401,
            Event::Pointer(PointerEvent::MotionAbsolute(
                PointerMotionAbsoluteEvent::from_raw(401, handle),
            )),
        ),
        (402, Event::Pointer(PointerEvent::Button(PointerButtonEvent::from_raw(402, handle)))),
        (403, Event::Pointer(PointerEvent::Axis(PointerAxisEvent::from_raw(403, handle)))),
        (
            404,
            Event::Pointer(PointerEvent::ScrollWheel(
                PointerScrollWheelEvent::from_raw(404, handle),
            )),
        ),
        (
            405,
            Event::Pointer(PointerEvent::ScrollFinger(
                PointerScrollFingerEvent::from_raw(405, handle),
            )),
        ),
        (
            406,
            Event::Pointer(PointerEvent::ScrollContinuous(
                PointerScrollContinuousEvent::from_raw(406, handle),
            )),
        ),
        (500, Event::Touch(TouchEvent::Down(TouchDownEvent::from_raw(500, handle)))),
        (501, Event::Touch(TouchEvent::Up(TouchUpEvent::from_raw(501, handle)))),
        (502, Event::Touch(TouchEvent::Motion(TouchMotionEvent::from_raw(502, handle)))),
        (503, Event::Touch(TouchEvent::Cancel(TouchCancelEvent::from_raw(503, handle)))),
        (504, Event::Touch(TouchEvent::Frame(TouchFrameEvent::from_raw(504, handle)))),
        (600, Event::Tablet(TabletToolEvent::Axis(TabletToolAxisEvent::from_raw(600, handle)))),
        (
            601,
            Event::Tablet(TabletToolEvent::Proximity(
                TabletToolProximityEvent::from_raw(601, handle),
            )),
        ),
        (602, Event::Tablet(TabletToolEvent::Tip(TabletToolTipEvent::from_raw(602, handle)))),
        (603, Event::Tablet(TabletToolEvent::Button(TabletToolButtonEvent::from_raw(603, handle)))),
        (
            700,
            Event::TabletPad(TabletPadEvent::Button(
                TabletPadButtonEvent::from_raw(700, handle),
            )),
        ),
        (701, Event::TabletPad(TabletPadEvent::Ring(TabletPadRingEvent::from_raw(701, handle)))),
        (702, Event::TabletPad(TabletPadEvent::Strip(TabletPadStripEvent::from_raw(702, handle)))),
        (703, Event::TabletPad(TabletPadEvent::Key(TabletPadKeyEvent::from_raw(703, handle)))),
        (
            800,
            Event::Gesture(GestureEvent::Swipe(GestureSwipeEvent::Begin(
                GestureSwipeBeginEvent::from_raw(800, handle),
            ))),
        ),
        (
            801,
            Event::Gesture(GestureEvent::Swipe(GestureSwipeEvent::Update(
                GestureSwipeUpdateEvent::from_raw(801, handle),
            ))),
        ),
        (
            802,
            Event::Gesture(GestureEvent::Swipe(GestureSwipeEvent::End(
                GestureSwipeEndEvent::from_raw(802, handle),
            ))),
        ),
        (
            803,
            Event::Gesture(GestureEvent::Pinch(GesturePinchEvent::Begin(
                GesturePinchBeginEvent::from_raw(803, handle),
            ))),
        ),
        (
            804,
            Event::Gesture(GestureEvent::Pinch(GesturePinchEvent::Update(
                GesturePinchUpdateEvent::from_raw(804, handle),
            ))),
        ),
        (
            805,
            Event::Gesture(GestureEvent::Pinch(GesturePinchEvent::End(
                GesturePinchEndEvent::from_raw(805, handle),
            ))),
        ),
        (900, Event::Switch(SwitchEvent::Toggle(SwitchToggleEvent::from_raw(900, handle)))),
    ]
}

#[test]
fn the_table_holds_every_type() {
    assert_eq!(table().len(), 30);
}

#[test]
fn every_event_type_is_sorted_into_its_variant() {
    for (code, expected) in table() {
        assert_eq!(Event::try_from_raw(code, 7u32), Some(expected), "type {}", code);
    }
}

#[test]
fn from_raw_agrees_with_try_from_raw_on_known_types() {
    for (code, expected) in table() {
        assert!(Event::<u32>::has_type(code));
        assert_eq!(Event::from_raw(code, 7u32), expected);
    }
}

#[test]
fn event_type_reads_the_type_back() {
    for (code, event) in table() {
        assert_eq!(event.event_type(), code);
        assert_eq!(*event.as_handle(), 7);
        assert_eq!(event.into_handle(), 7);
    }
}

#[test]
fn the_handle_is_carried_through() {
    let event = Event::try_from_raw(LIBINPUT_EVENT_KEYBOARD_KEY, String::from("key"));
    match event {
        Some(Event::Keyboard(KeyboardEvent::Key(key))) => assert_eq!(key.into_handle(), "key"),
        other => panic!("unexpected {:?}", other),
    }
    assert_ne!(Event::try_from_raw(300, 1u8), Event::try_from_raw(300, 2u8));
}

#[test]
fn none_is_no_event() {
    assert_eq!(Event::try_from_raw(LIBINPUT_EVENT_NONE, 0u8), None);
    assert!(!Event::<u8>::has_type(0));
}

#[test]
fn types_outside_the_table_are_skipped() {
    let known: Vec<u32> = table().iter().map(|(code, _)| *code).collect();
    for code in 0u32..1200 {
        let sorted = Event::try_from_raw(code, ());
        assert_eq!(sorted.is_some(), known.contains(&code), "type {}", code);
        assert_eq!(Event::<()>::has_type(code), known.contains(&code));
    }
    for code in [3u32, 299, 301, 399, 407, 499, 505, 599, 604, 699, 704, 799, 806, 807, 899, 901] {
        assert_eq!(Event::try_from_raw(code, ()), None, "type {}", code);
    }
    assert_eq!(Event::try_from_raw(u32::MAX, ()), None);
}

#[test]
fn a_family_takes_its_own_types_only() {
    for (code, event) in table() {
        let families = [
            DeviceEvent::<u32>::has_type(code),
            KeyboardEvent::<u32>::has_type(code),
            PointerEvent::<u32>::has_type(code),
            TouchEvent::<u32>::has_type(code),
            TabletToolEvent::<u32>::has_type(code),
            TabletPadEvent::<u32>::has_type(code),
            GestureEvent::<u32>::has_type(code),
            SwitchEvent::<u32>::has_type(code),
        ];
        assert_eq!(families.iter().filter(|taken| **taken).count(), 1, "type {}", code);
        let expected = match event {
            Event::Device(_) => 0,
            Event::Keyboard(_) => 1,
            Event::Pointer(_) => 2,
            Event::Touch(_) => 3,
            Event::Tablet(_) => 4,
            Event::TabletPad(_) => 5,
            Event::Gesture(_) => 6,
            Event::Switch(_) => 7,
        };
        assert!(families[expected]);
    }
}

#[test]
fn family_sorters_give_the_variant_of_the_type() {
    assert_eq!(
        DeviceEvent::try_from_raw(2, 'd'),
        Some(DeviceEvent::Removed(DeviceRemovedEvent::from_raw(2, 'd')))
    );
    assert_eq!(DeviceEvent::try_from_raw(300, 'd'), None);
    assert_eq!(
        PointerEvent::try_from_raw(406, 1i8),
        Some(PointerEvent::ScrollContinuous(PointerScrollContinuousEvent::from_raw(406, 1)))
    );
    assert_eq!(PointerEvent::try_from_raw(407, 1i8), None);
    assert_eq!(PointerEvent::try_from_raw(500, 1i8), None);
    assert_eq!(
        TouchEvent::from_raw(504, 9u64),
        TouchEvent::Frame(TouchFrameEvent::from_raw(504, 9))
    );
    assert_eq!(TouchEvent::try_from_raw(505, 9u64), None);
    assert_eq!(
        TabletPadEvent::from_raw(703, 2u16).event_type(),
        703
    );
    assert_eq!(
        TabletToolEvent::try_from_raw(601, 3usize),
        Some(TabletToolEvent::Proximity(TabletToolProximityEvent::from_raw(601, 3)))
    );
    assert_eq!(KeyboardEvent::try_from_raw(301, ()), None);
    assert_eq!(SwitchEvent::try_from_raw(900, 5u8).map(|event| event.into_handle()), Some(5));
}

#[test]
fn a_swipe_is_no_pinch() {
    for code in [800u32, 801, 802] {
        assert!(GestureSwipeEvent::<()>::has_type(code));
        assert!(!GesturePinchEvent::<()>::has_type(code));
        assert_eq!(GesturePinchEvent::try_from_raw(code, ()), None);
        assert_eq!(GestureSwipeEvent::from_raw(code, ()).event_type(), code);
    }
    for code in [803u32, 804, 805] {
        assert!(GesturePinchEvent::<()>::has_type(code));
        assert!(!GestureSwipeEvent::<()>::has_type(code));
        assert_eq!(GestureSwipeEvent::try_from_raw(code, ()), None);
        assert_eq!(GesturePinchEvent::from_raw(code, ()).event_type(), code);
    }
    assert_eq!(
        GestureEvent::from_raw(802, 4u8),
        GestureEvent::Swipe(GestureSwipeEvent::End(GestureSwipeEndEvent::from_raw(802, 4)))
    );
    assert_eq!(
        GestureEvent::from_raw(803, 4u8),
        GestureEvent::Pinch(GesturePinchEvent::Begin(GesturePinchBeginEvent::from_raw(803, 4)))
    );
    assert_eq!(GestureEvent::try_from_raw(806, 4u8), None);
}

#[test]
fn an_empty_queue_ends_the_reading() {
    assert_eq!(next_step::<u32>(None), NextStep::Finished);
}

#[test]
fn a_known_event_is_handed_out() {
    for (code, expected) in table() {
        assert_eq!(next_step(Some((code, 7u32))), NextStep::Deliver(expected));
    }
}

#[test]
fn an_unknown_event_is_skipped() {
    for code in [0u32, 3, 299, 407, 704, 806, 901, u32::MAX] {
        assert_eq!(next_step(Some((code, 7u32))), NextStep::Skip(code));
    }
}

#[test]
fn reading_a_queue_hands_out_the_known_events_in_order() {
    let mut queue = vec![(0u32, 'a'), (300, 'b'), (999, 'c'), (1, 'd'), (805, 'e')];
    queue.reverse();
    let mut read = Vec::new();
    loop {
        match next_step(queue.pop()) {
            NextStep::Finished => break,
            NextStep::Deliver(event) => read.push((event.event_type(), event.into_handle())),
            NextStep::Skip(_) => continue,
        }
    }
    assert_eq!(read, vec![(300, 'b'), (1, 'd'), (805, 'e')]);
}

#[test]
fn a_leaf_event_is_built_for_its_own_type_only() {
    assert!(PointerButtonEvent::try_from_raw(402, 1u8).is_some());
    assert_eq!(PointerButtonEvent::try_from_raw(401, 1u8), None);
    assert_eq!(PointerButtonEvent::try_from_raw(300, 1u8), None);
    assert_eq!(KeyboardKeyEvent::try_from_raw(402, 1u8), None);
    assert_eq!(TouchFrameEvent::try_from_raw(0, 1u8), None);
    let event = GesturePinchEndEvent::try_from_raw(805, 'p');
    assert_eq!(event.as_ref().map(|end| end.event_type()), Some(805));
    assert_eq!(event.as_ref().map(|end| *end.as_handle()), Some('p'));
    assert_eq!(event.map(|end| end.into_handle()), Some('p'));
}

#[test]
fn every_leaf_event_knows_its_type() {
    for (code, event) in table() {
        let handle = match event {
            Event::Pointer(PointerEvent::Button(button)) => {
                assert_eq!(button.event_type(), code);
                button.into_handle()
            }
            Event::Touch(TouchEvent::Frame(frame)) => {
                assert_eq!(frame.event_type(), code);
                frame.into_handle()
            }
            Event::Switch(SwitchEvent::Toggle(toggle)) => {
                assert_eq!(toggle.event_type(), code);
                toggle.into_handle()
            }
            other => other.into_handle(),
        };
        assert_eq!(handle, 7);
    }
}
