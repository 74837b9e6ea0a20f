//! Events and the table that sorts them by `libinput_event_type`.
//!
//! An event is modelled as the pair of its type code and an opaque handle
//! `H` supplied by the caller. Every enumeration in this module is the
//! partial inverse of its `code`: building an event from a code and reading
//! the code back gives the same number.

use vstd::prelude::*;

pub mod device;
pub mod gesture;
pub mod keyboard;
pub mod pointer;
pub mod switch;
pub mod tablet_pad;
pub mod tablet_tool;
pub mod touch;

pub use self::device::DeviceEvent;
pub use self::gesture::GestureEvent;
pub use self::keyboard::KeyboardEvent;
pub use self::pointer::PointerEvent;
pub use self::switch::SwitchEvent;
pub use self::tablet_pad::TabletPadEvent;
pub use self::tablet_tool::TabletToolEvent;
pub use self::touch::TouchEvent;

verus! {

/// `LIBINPUT_EVENT_NONE`
pub const LIBINPUT_EVENT_NONE: u32 = 0;
/// `LIBINPUT_EVENT_DEVICE_ADDED`
pub const LIBINPUT_EVENT_DEVICE_ADDED: u32 = 1;
/// `LIBINPUT_EVENT_DEVICE_REMOVED`
pub const LIBINPUT_EVENT_DEVICE_REMOVED: u32 = 2;
/// `LIBINPUT_EVENT_KEYBOARD_KEY`
pub const LIBINPUT_EVENT_KEYBOARD_KEY: u32 = 300;
/// `LIBINPUT_EVENT_POINTER_MOTION`
pub const LIBINPUT_EVENT_POINTER_MOTION: u32 = 400;
/// `LIBINPUT_EVENT_POINTER_MOTION_ABSOLUTE`
pub const LIBINPUT_EVENT_POINTER_MOTION_ABSOLUTE: u32 = 401;
/// `LIBINPUT_EVENT_POINTER_BUTTON`
pub const LIBINPUT_EVENT_POINTER_BUTTON: u32 = 402;
/// `LIBINPUT_EVENT_POINTER_AXIS`
pub const LIBINPUT_EVENT_POINTER_AXIS: u32 = 403;
/// `LIBINPUT_EVENT_POINTER_SCROLL_WHEEL`
pub const LIBINPUT_EVENT_POINTER_SCROLL_WHEEL: u32 = 404;
/// `LIBINPUT_EVENT_POINTER_SCROLL_FINGER`
pub const LIBINPUT_EVENT_POINTER_SCROLL_FINGER: u32 = 405;
/// `LIBINPUT_EVENT_POINTER_SCROLL_CONTINUOUS`
pub const LIBINPUT_EVENT_POINTER_SCROLL_CONTINUOUS: u32 = 406;
/// `LIBINPUT_EVENT_TOUCH_DOWN`
pub const LIBINPUT_EVENT_TOUCH_DOWN: u32 = 500;
/// `LIBINPUT_EVENT_TOUCH_UP`
pub const LIBINPUT_EVENT_TOUCH_UP: u32 = 501;
/// `LIBINPUT_EVENT_TOUCH_MOTION`
pub const LIBINPUT_EVENT_TOUCH_MOTION: u32 = 502;
/// `LIBINPUT_EVENT_TOUCH_CANCEL`
pub const LIBINPUT_EVENT_TOUCH_CANCEL: u32 = 503;
/// `LIBINPUT_EVENT_TOUCH_FRAME`
pub const LIBINPUT_EVENT_TOUCH_FRAME: u32 = 504;
/// `LIBINPUT_EVENT_TABLET_TOOL_AXIS`
pub const LIBINPUT_EVENT_TABLET_TOOL_AXIS: u32 = 600;
/// `LIBINPUT_EVENT_TABLET_TOOL_PROXIMITY`
pub const LIBINPUT_EVENT_TABLET_TOOL_PROXIMITY: u32 = 601;
/// `LIBINPUT_EVENT_TABLET_TOOL_TIP`
pub const LIBINPUT_EVENT_TABLET_TOOL_TIP: u32 = 602;
/// `LIBINPUT_EVENT_TABLET_TOOL_BUTTON`
pub const LIBINPUT_EVENT_TABLET_TOOL_BUTTON: u32 = 603;
/// `LIBINPUT_EVENT_TABLET_PAD_BUTTON`
pub const LIBINPUT_EVENT_TABLET_PAD_BUTTON: u32 = 700;
/// `LIBINPUT_EVENT_TABLET_PAD_RING`
pub const LIBINPUT_EVENT_TABLET_PAD_RING: u32 = 701;
/// `LIBINPUT_EVENT_TABLET_PAD_STRIP`
pub const LIBINPUT_EVENT_TABLET_PAD_STRIP: u32 = 702;
/// `LIBINPUT_EVENT_TABLET_PAD_KEY`
pub const LIBINPUT_EVENT_TABLET_PAD_KEY: u32 = 703;
/// `LIBINPUT_EVENT_GESTURE_SWIPE_BEGIN`
pub const LIBINPUT_EVENT_GESTURE_SWIPE_BEGIN: u32 = 800;
/// `LIBINPUT_EVENT_GESTURE_SWIPE_UPDATE`
pub const LIBINPUT_EVENT_GESTURE_SWIPE_UPDATE: u32 = 801;
/// `LIBINPUT_EVENT_GESTURE_SWIPE_END`
pub const LIBINPUT_EVENT_GESTURE_SWIPE_END: u32 = 802;
/// `LIBINPUT_EVENT_GESTURE_PINCH_BEGIN`
pub const LIBINPUT_EVENT_GESTURE_PINCH_BEGIN: u32 = 803;
/// `LIBINPUT_EVENT_GESTURE_PINCH_UPDATE`
pub const LIBINPUT_EVENT_GESTURE_PINCH_UPDATE: u32 = 804;
/// `LIBINPUT_EVENT_GESTURE_PINCH_END`
pub const LIBINPUT_EVENT_GESTURE_PINCH_END: u32 = 805;
/// `LIBINPUT_EVENT_SWITCH_TOGGLE`
pub const LIBINPUT_EVENT_SWITCH_TOGGLE: u32 = 900;

/// One where `accepted` holds, none where it does not.
pub open spec fn count(accepted: bool) -> nat {
    if accepted {
        1
    } else {
        0
    }
}

/// Common to all events: each of them is an `Event`.
pub trait EventTrait<H>: Sized {
    /// This event as a general `Event`.
    spec fn event(self) -> Event<H>;

    /// Convert into a general `Event` again
    fn into_event(self) -> (r: Event<H>)
        ensures
            r == self.event(),
    ;
}

impl<H> EventTrait<H> for Event<H> {
    open spec fn event(self) -> Event<H> {
        self
    }

    fn into_event(self) -> (r: Event<H>) {
        self
    }
}

/// A libinput `Event`
#[derive(Debug, PartialEq, Eq, Hash)]
pub enum Event<H> {
    /// A device related `Event`
    Device(DeviceEvent<H>),
    /// A keyboard related `Event`
    Keyboard(KeyboardEvent<H>),
    /// A pointer related `Event`
    Pointer(PointerEvent<H>),
    /// A touch related `Event`
    Touch(TouchEvent<H>),
    /// A tablet related `Event`
    Tablet(TabletToolEvent<H>),
    /// A tabled pad related `Event`
    TabletPad(TabletPadEvent<H>),
    /// A gesture related `Event`
    Gesture(GestureEvent<H>),
    /// A switch related `Event`
    Switch(SwitchEvent<H>),
}

impl<H> Event<H> {
    /// Whether `event_type` is the type of an event of one of the eight
    /// families. `LIBINPUT_EVENT_NONE` is no such type.
    pub open spec fn accepts(event_type: u32) -> bool {
        ||| DeviceEvent::<H>::accepts(event_type)
        ||| KeyboardEvent::<H>::accepts(event_type)
        ||| PointerEvent::<H>::accepts(event_type)
        ||| TouchEvent::<H>::accepts(event_type)
        ||| TabletToolEvent::<H>::accepts(event_type)
        ||| TabletPadEvent::<H>::accepts(event_type)
        ||| GestureEvent::<H>::accepts(event_type)
        ||| SwitchEvent::<H>::accepts(event_type)
    }

    /// The `libinput_event_type` of this event.
    pub open spec fn code(self) -> u32 {
        match self {
            Event::Device(event) => event.code(),
            Event::Keyboard(event) => event.code(),
            Event::Pointer(event) => event.code(),
            Event::Touch(event) => event.code(),
            Event::Tablet(event) => event.code(),
            Event::TabletPad(event) => event.code(),
            Event::Gesture(event) => event.code(),
            Event::Switch(event) => event.code(),
        }
    }

    /// The handle this event was built around.
    pub open spec fn handle(self) -> H {
        match self {
            Event::Device(event) => event.handle(),
            Event::Keyboard(event) => event.handle(),
            Event::Pointer(event) => event.handle(),
            Event::Touch(event) => event.handle(),
            Event::Tablet(event) => event.handle(),
            Event::TabletPad(event) => event.handle(),
            Event::Gesture(event) => event.handle(),
            Event::Switch(event) => event.handle(),
        }
    }

    /// Type and handle say all there is to say of an event: two events that
    /// agree in both are the same event.
    pub proof fn lemma_determined(a: Self, b: Self)
        requires
            a.code() == b.code(),
            a.handle() == b.handle(),
        ensures
            a == b,
    {
        match (a, b) {
            (Event::Device(x), Event::Device(y)) => DeviceEvent::lemma_determined(x, y),
            (Event::Keyboard(x), Event::Keyboard(y)) => KeyboardEvent::lemma_determined(x, y),
            (Event::Pointer(x), Event::Pointer(y)) => PointerEvent::lemma_determined(x, y),
            (Event::Touch(x), Event::Touch(y)) => TouchEvent::lemma_determined(x, y),
            (Event::Tablet(x), Event::Tablet(y)) => TabletToolEvent::lemma_determined(x, y),
            (Event::TabletPad(x), Event::TabletPad(y)) => TabletPadEvent::lemma_determined(x, y),
            (Event::Gesture(x), Event::Gesture(y)) => GestureEvent::lemma_determined(x, y),
            (Event::Switch(x), Event::Switch(y)) => SwitchEvent::lemma_determined(x, y),
            _ => {},
        }
    }

    /// How many of the eight families accept `event_type`.
    pub open spec fn families_accepting(event_type: u32) -> nat {
        count(DeviceEvent::<H>::accepts(event_type)) + count(
            KeyboardEvent::<H>::accepts(event_type),
        ) + count(PointerEvent::<H>::accepts(event_type)) + count(
            TouchEvent::<H>::accepts(event_type),
        ) + count(TabletToolEvent::<H>::accepts(event_type)) + count(
            TabletPadEvent::<H>::accepts(event_type),
        ) + count(GestureEvent::<H>::accepts(event_type)) + count(
            SwitchEvent::<H>::accepts(event_type),
        )
    }

    /// No type belongs to two families: an accepted type has one family, any
    /// other has none. So it does not matter in which order the families are
    /// asked.
    pub proof fn lemma_one_family(event_type: u32)
        ensures
            Self::accepts(event_type) <==> Self::families_accepting(event_type) == 1,
            !Self::accepts(event_type) <==> Self::families_accepting(event_type) == 0,
    {
    }

    /// The type of every event is one that `accepts` holds of. So an event
    /// can be sorted anew by its own type, and by `lemma_determined` what
    /// comes out around its own handle is the event itself.
    pub proof fn lemma_code_accepted(event: Self)
        ensures
            Self::accepts(event.code()),
    {
    }

    /// Tells whether `event_type` is the type of an event.
    pub fn has_type(event_type: u32) -> (r: bool)
        ensures
            r == Self::accepts(event_type),
    {
        DeviceEvent::<H>::has_type(event_type) || KeyboardEvent::<H>::has_type(event_type)
            || PointerEvent::<H>::has_type(event_type) || TouchEvent::<H>::has_type(event_type)
            || TabletToolEvent::<H>::has_type(event_type) || TabletPadEvent::<H>::has_type(
            event_type,
        ) || GestureEvent::<H>::has_type(event_type) || SwitchEvent::<H>::has_type(event_type)
    }

    /// Sorts an event by its type: `Some` exactly for the types that one of
    /// the families accepts, holding the variant of that type around
    /// `handle`. An event of any other type is to be skipped.
    pub fn try_from_raw(event_type: u32, handle: H) -> (r: Option<Self>)
        ensures
            r is Some <==> Self::accepts(event_type),
            r matches Some(event) ==> event.code() == event_type && event.handle() == handle,
    {
        if Self::has_type(event_type) {
            Some(Self::from_raw(event_type, handle))
        } else {
            None
        }
    }

    /// Sorts an event whose type is known to be that of some family. The
    /// family is the one that accepts the type.
    pub fn from_raw(event_type: u32, handle: H) -> (r: Self)
        requires
            Self::accepts(event_type),
        ensures
            r.code() == event_type,
            r.handle() == handle,
            r is Device <==> DeviceEvent::<H>::accepts(event_type),
            r is Keyboard <==> KeyboardEvent::<H>::accepts(event_type),
            r is Pointer <==> PointerEvent::<H>::accepts(event_type),
            r is Touch <==> TouchEvent::<H>::accepts(event_type),
            r is Tablet <==> TabletToolEvent::<H>::accepts(event_type),
            r is TabletPad <==> TabletPadEvent::<H>::accepts(event_type),
            r is Gesture <==> GestureEvent::<H>::accepts(event_type),
            r is Switch <==> SwitchEvent::<H>::accepts(event_type),
    {
        if DeviceEvent::<H>::has_type(event_type) {
            Event::Device(DeviceEvent::from_raw(event_type, handle))
        } else if KeyboardEvent::<H>::has_type(event_type) {
            Event::Keyboard(KeyboardEvent::from_raw(event_type, handle))
        } else if PointerEvent::<H>::has_type(event_type) {
            Event::Pointer(PointerEvent::from_raw(event_type, handle))
        } else if TouchEvent::<H>::has_type(event_type) {
            Event::Touch(TouchEvent::from_raw(event_type, handle))
        } else if TabletToolEvent::<H>::has_type(event_type) {
            Event::Tablet(TabletToolEvent::from_raw(event_type, handle))
        } else if TabletPadEvent::<H>::has_type(event_type) {
            Event::TabletPad(TabletPadEvent::from_raw(event_type, handle))
        } else if GestureEvent::<H>::has_type(event_type) {
            Event::Gesture(GestureEvent::from_raw(event_type, handle))
        } else {
            Event::Switch(SwitchEvent::from_raw(event_type, handle))
        }
    }

    /// The `libinput_event_type` of this event.
    pub fn event_type(&self) -> (r: u32)
        ensures
            r == self.code(),
            Self::accepts(r),
    {
        match self {
            Event::Device(event) => event.event_type(),
            Event::Keyboard(event) => event.event_type(),
            Event::Pointer(event) => event.event_type(),
            Event::Touch(event) => event.event_type(),
            Event::Tablet(event) => event.event_type(),
            Event::TabletPad(event) => event.event_type(),
            Event::Gesture(event) => event.event_type(),
            Event::Switch(event) => event.event_type(),
        }
    }

    /// Borrows the handle.
    pub fn as_handle(&self) -> (r: &H)
        ensures
            *r == self.handle(),
    {
        match self {
            Event::Device(event) => event.as_handle(),
            Event::Keyboard(event) => event.as_handle(),
            Event::Pointer(event) => event.as_handle(),
            Event::Touch(event) => event.as_handle(),
            Event::Tablet(event) => event.as_handle(),
            Event::TabletPad(event) => event.as_handle(),
            Event::Gesture(event) => event.as_handle(),
            Event::Switch(event) => event.as_handle(),
        }
    }

    /// Gives the handle back.
    pub fn into_handle(self) -> (r: H)
        ensures
            r == self.handle(),
    {
        match self {
            Event::Device(event) => event.into_handle(),
            Event::Keyboard(event) => event.into_handle(),
            Event::Pointer(event) => event.into_handle(),
            Event::Touch(event) => event.into_handle(),
            Event::Tablet(event) => event.into_handle(),
            Event::TabletPad(event) => event.into_handle(),
            Event::Gesture(event) => event.into_handle(),
            Event::Switch(event) => event.into_handle(),
        }
    }
}

/// What a reader of the event queue does next.
#[derive(Debug, PartialEq, Eq, Hash)]
pub enum NextStep<H> {
    /// The queue is empty: there is nothing to hand out.
    Finished,
    /// This event is handed out.
    Deliver(Event<H>),
    /// What was fetched has this type, which no family accepts. It is
    /// dropped, and the reader fetches again.
    Skip(u32),
}

/// Decides what a reader of the event queue does with what it fetched.
/// `fetched` is the type and the handle of the event at the head of the
/// queue, or `None` where the queue is empty.
///
/// An empty queue ends the reading. An event of a type that some family
/// accepts is handed out, sorted by that type. Any other is skipped, so
/// that an event type that a later libinput adds goes unnoticed.
pub fn next_step<H>(fetched: Option<(u32, H)>) -> (r: NextStep<H>)
    ensures
        fetched is None <==> r is Finished,
        fetched matches Some((event_type, handle)) ==> if Event::<H>::accepts(event_type) {
            r matches NextStep::Deliver(event) && event.code() == event_type && event.handle()
                == handle
        } else {
            r == NextStep::<H>::Skip(event_type)
        },
{
    match fetched {
        None => NextStep::Finished,
        Some((event_type, handle)) => match Event::try_from_raw(event_type, handle) {
            Some(event) => NextStep::Deliver(event),
            None => NextStep::Skip(event_type),
        },
    }
}

} // verus!
