//! Keyboard event types

use vstd::prelude::*;
use super::{
    Event,
    EventTrait,
    LIBINPUT_EVENT_KEYBOARD_KEY,
};

verus! {

/// `LIBINPUT_KEY_STATE_PRESSED`
pub const LIBINPUT_KEY_STATE_PRESSED: u32 = 1;
/// `LIBINPUT_KEY_STATE_RELEASED`
pub const LIBINPUT_KEY_STATE_RELEASED: u32 = 0;

/// State of a Key
#[derive(Debug, Clone, Copy, PartialEq, Eq, Hash)]
pub enum KeyState {
    /// Key is pressed
    Pressed,
    /// Key is released
    Released,
}

impl KeyState {
    /// The `libinput_key_state` that stands for this value.
    pub open spec fn raw(self) -> u32 {
        match self {
            KeyState::Pressed => LIBINPUT_KEY_STATE_PRESSED,
            KeyState::Released => LIBINPUT_KEY_STATE_RELEASED,
        }
    }

    /// No two values share a number.
    pub proof fn lemma_raw_injective(a: KeyState, b: KeyState)
        requires
            a.raw() == b.raw(),
        ensures
            a == b,
    {
    }

    /// The inverse of `raw`: the value that the number `code` stands for, or
    /// `None` where the enumeration holds no such number.
    pub open spec fn of_raw(code: u32) -> Option<KeyState> {
        if code == LIBINPUT_KEY_STATE_PRESSED {
            Some(KeyState::Pressed)
        } else if code == LIBINPUT_KEY_STATE_RELEASED {
            Some(KeyState::Released)
        } else {
            None
        }
    }

    /// `of_raw` is the inverse of `raw`: it finds the value of a number
    /// wherever there is one, and each value from its own number.
    pub proof fn lemma_of_raw(code: u32, value: KeyState)
        ensures
            Self::of_raw(code) == Some(value) <==> value.raw() == code,
            Self::of_raw(code) is None <==> forall|other: KeyState|
                #[trigger] other.raw() != code,
    {
        if let Some(found) = Self::of_raw(code) {
            assert(found.raw() == code);
        }
    }

    /// Reads a `libinput_key_state`: the value whose `raw` is
    /// `code`, or `None` where no value has that number.
    pub fn from_raw(code: u32) -> (r: Option<KeyState>)
        ensures
            r == Self::of_raw(code),
            r matches Some(value) ==> value.raw() == code,
            r is None ==> forall|value: KeyState| #[trigger] value.raw() != code,
    {
        if code == LIBINPUT_KEY_STATE_PRESSED {
            Some(KeyState::Pressed)
        } else if code == LIBINPUT_KEY_STATE_RELEASED {
            Some(KeyState::Released)
        } else {
            None
        }
    }
}

/// An event related to pressing a key
#[derive(Debug, PartialEq, Eq, Hash)]
pub struct KeyboardKeyEvent<H> {
    handle: H,
}

impl<H> KeyboardKeyEvent<H> {
    /// Whether `event_type` is the type of this event.
    pub open spec fn accepts(event_type: u32) -> bool {
        event_type == LIBINPUT_EVENT_KEYBOARD_KEY
    }

    /// The handle this event was built around.
    pub closed spec fn handle(self) -> H {
        self.handle
    }

    /// The handle says all there is to say of this event: two that agree
    /// in it are the same event.
    pub proof fn lemma_determined(a: Self, b: Self)
        requires
            a.handle() == b.handle(),
        ensures
            a == b,
    {
    }

    /// Builds the event around `handle`, where `event_type` is its type:
    /// `Some` exactly for that type.
    pub fn try_from_raw(event_type: u32, handle: H) -> (r: Option<Self>)
        ensures
            r is Some <==> Self::accepts(event_type),
            r matches Some(event) ==> event.handle() == handle,
    {
        if event_type == LIBINPUT_EVENT_KEYBOARD_KEY {
            Some(KeyboardKeyEvent { handle })
        } else {
            None
        }
    }

    /// Builds the event around `handle`, for a type that is known to be
    /// its own.
    pub fn from_raw(event_type: u32, handle: H) -> (r: Self)
        requires
            Self::accepts(event_type),
        ensures
            r.handle() == handle,
    {
        KeyboardKeyEvent { handle }
    }

    /// The `libinput_event_type` of this event.
    pub fn event_type(&self) -> (r: u32)
        ensures
            Self::accepts(r),
    {
        LIBINPUT_EVENT_KEYBOARD_KEY
    }

    /// Borrows the handle.
    pub fn as_handle(&self) -> (r: &H)
        ensures
            *r == self.handle(),
    {
        &self.handle
    }

    /// Gives the handle back.
    pub fn into_handle(self) -> (r: H)
        ensures
            r == self.handle(),
    {
        self.handle
    }
}

/// A keyboard related `Event`
#[derive(Debug, PartialEq, Eq, Hash)]
pub enum KeyboardEvent<H> {
    /// An event related to pressing a key
    Key(KeyboardKeyEvent<H>),
}

impl<H> KeyboardEvent<H> {
    /// Whether `event_type` is the type of a keyboard event.
    pub open spec fn accepts(event_type: u32) -> bool {
        event_type == LIBINPUT_EVENT_KEYBOARD_KEY
    }

    /// The `libinput_event_type` of this event.
    pub open spec fn code(self) -> u32 {
        match self {
            KeyboardEvent::Key(_) => LIBINPUT_EVENT_KEYBOARD_KEY,
        }
    }

    /// The handle this event was built around.
    pub open spec fn handle(self) -> H {
        match self {
            KeyboardEvent::Key(event) => event.handle(),
        }
    }

    /// Type and handle say all there is to say of an event: two events that
    /// agree in both are the same event.
    pub proof fn lemma_determined(a: Self, b: Self)
        requires
            a.code() == b.code(),
            a.handle() == b.handle(),
        ensures
            a == b,
    {
    }

    /// Tells whether `event_type` is the type of a keyboard event.
    pub fn has_type(event_type: u32) -> (r: bool)
        ensures
            r == Self::accepts(event_type),
    {
        event_type == LIBINPUT_EVENT_KEYBOARD_KEY
    }

    /// Sorts an event by its type: `Some` exactly for the types of a keyboard
    /// event, holding the variant of that type around `handle`.
    pub fn try_from_raw(event_type: u32, handle: H) -> (r: Option<Self>)
        ensures
            r is Some <==> Self::accepts(event_type),
            r matches Some(event) ==> event.code() == event_type && event.handle() == handle,
    {
        if Self::has_type(event_type) {
            Some(Self::from_raw(event_type, handle))
        } else {
            None
        }
    }

    /// Sorts an event that is known to be a keyboard event.
    pub fn from_raw(event_type: u32, handle: H) -> (r: Self)
        requires
            Self::accepts(event_type),
        ensures
            r.code() == event_type,
            r.handle() == handle,
    {
        KeyboardEvent::Key(KeyboardKeyEvent::from_raw(event_type, handle))
    }

    /// The `libinput_event_type` of this event.
    pub fn event_type(&self) -> (r: u32)
        ensures
            r == self.code(),
            Self::accepts(r),
    {
        match self {
            KeyboardEvent::Key(_) => LIBINPUT_EVENT_KEYBOARD_KEY,
        }
    }

    /// Borrows the handle.
    pub fn as_handle(&self) -> (r: &H)
        ensures
            *r == self.handle(),
    {
        match self {
            KeyboardEvent::Key(event) => event.as_handle(),
        }
    }

    /// Gives the handle back.
    pub fn into_handle(self) -> (r: H)
        ensures
            r == self.handle(),
    {
        match self {
            KeyboardEvent::Key(event) => event.into_handle(),
        }
    }
}

/// Common to all keyboard events: each of them is a `KeyboardEvent`.
pub trait KeyboardEventTrait<H>: Sized {
    /// This event as a general `KeyboardEvent`.
    spec fn keyboard_event(self) -> KeyboardEvent<H>;

    /// Convert into a general `KeyboardEvent` again
    fn into_keyboard_event(self) -> (r: KeyboardEvent<H>)
        ensures
            r == self.keyboard_event(),
    ;
}

impl<H> KeyboardEventTrait<H> for KeyboardEvent<H> {
    open spec fn keyboard_event(self) -> KeyboardEvent<H> {
        self
    }

    fn into_keyboard_event(self) -> (r: KeyboardEvent<H>) {
        self
    }
}

impl<H> KeyboardEventTrait<H> for KeyboardKeyEvent<H> {
    open spec fn keyboard_event(self) -> KeyboardEvent<H> {
        KeyboardEvent::Key(self)
    }

    fn into_keyboard_event(self) -> (r: KeyboardEvent<H>) {
        KeyboardEvent::Key(self)
    }
}

impl<H> EventTrait<H> for KeyboardEvent<H> {
    open spec fn event(self) -> Event<H> {
        Event::Keyboard(self)
    }

    fn into_event(self) -> (r: Event<H>) {
        Event::Keyboard(self)
    }
}

impl<H> EventTrait<H> for KeyboardKeyEvent<H> {
    open spec fn event(self) -> Event<H> {
        Event::Keyboard(KeyboardEvent::Key(self))
    }

    fn into_event(self) -> (r: Event<H>) {
        Event::Keyboard(KeyboardEvent::Key(self))
    }
}

} // verus!
