//! Switch event types

use vstd::prelude::*;
use super::{
    Event,
    EventTrait,
    LIBINPUT_EVENT_SWITCH_TOGGLE,
};

verus! {

/// `LIBINPUT_SWITCH_LID`
pub const LIBINPUT_SWITCH_LID: u32 = 1;
/// `LIBINPUT_SWITCH_TABLET_MODE`
pub const LIBINPUT_SWITCH_TABLET_MODE: u32 = 2;

/// Types of Switches
#[derive(Debug, Clone, Copy, PartialEq, Eq, Hash)]
pub enum Switch {
    /// The laptop lid was closed when the `SwitchState` is `On`, or was opened
    /// when it is `Off`
    Lid,
    /// Whether the device is in laptop mode (`Off`) or in tablet mode (`On`),
    /// where keyboard and touchpad may not be accessible.
    TabletMode,
}

impl Switch {
    /// The `libinput_switch` that stands for this value.
    pub open spec fn raw(self) -> u32 {
        match self {
            Switch::Lid => LIBINPUT_SWITCH_LID,
            Switch::TabletMode => LIBINPUT_SWITCH_TABLET_MODE,
        }
    }

    /// No two values share a number.
    pub proof fn lemma_raw_injective(a: Switch, b: Switch)
        requires
            a.raw() == b.raw(),
        ensures
            a == b,
    {
    }

    /// Writes this value as a `libinput_switch`.
    pub fn to_raw(self) -> (r: u32)
        ensures
            r == self.raw(),
    {
        match self {
            Switch::Lid => LIBINPUT_SWITCH_LID,
            Switch::TabletMode => LIBINPUT_SWITCH_TABLET_MODE,
        }
    }

    /// The inverse of `raw`: the value that the number `code` stands for, or
    /// `None` where the enumeration holds no such number.
    pub open spec fn of_raw(code: u32) -> Option<Switch> {
        if code == LIBINPUT_SWITCH_LID {
            Some(Switch::Lid)
        } else if code == LIBINPUT_SWITCH_TABLET_MODE {
            Some(Switch::TabletMode)
        } else {
            None
        }
    }

    /// `of_raw` is the inverse of `raw`: it finds the value of a number
    /// wherever there is one, and each value from its own number.
    pub proof fn lemma_of_raw(code: u32, value: Switch)
        ensures
            Self::of_raw(code) == Some(value) <==> value.raw() == code,
            Self::of_raw(code) is None <==> forall|other: Switch|
                #[trigger] other.raw() != code,
    {
        if let Some(found) = Self::of_raw(code) {
            assert(found.raw() == code);
        }
    }

    /// Reads a `libinput_switch`: the value whose `raw` is
    /// `code`, or `None` where no value has that number.
    pub fn from_raw(code: u32) -> (r: Option<Switch>)
        ensures
            r == Self::of_raw(code),
            r matches Some(value) ==> value.raw() == code,
            r is None ==> forall|value: Switch| #[trigger] value.raw() != code,
    {
        if code == LIBINPUT_SWITCH_LID {
            Some(Switch::Lid)
        } else if code == LIBINPUT_SWITCH_TABLET_MODE {
            Some(Switch::TabletMode)
        } else {
            None
        }
    }
}

/// `LIBINPUT_SWITCH_STATE_OFF`
pub const LIBINPUT_SWITCH_STATE_OFF: u32 = 0;
/// `LIBINPUT_SWITCH_STATE_ON`
pub const LIBINPUT_SWITCH_STATE_ON: u32 = 1;

/// State of a Switch
#[derive(Debug, Clone, Copy, PartialEq, Eq, Hash)]
pub enum SwitchState {
    /// Switch is off
    Off,
    /// Switch is on
    On,
}

impl SwitchState {
    /// The `libinput_switch_state` that stands for this value.
    pub open spec fn raw(self) -> u32 {
        match self {
            SwitchState::Off => LIBINPUT_SWITCH_STATE_OFF,
            SwitchState::On => LIBINPUT_SWITCH_STATE_ON,
        }
    }

    /// No two values share a number.
    pub proof fn lemma_raw_injective(a: SwitchState, b: SwitchState)
        requires
            a.raw() == b.raw(),
        ensures
            a == b,
    {
    }

    /// The inverse of `raw`: the value that the number `code` stands for, or
    /// `None` where the enumeration holds no such number.
    pub open spec fn of_raw(code: u32) -> Option<SwitchState> {
        if code == LIBINPUT_SWITCH_STATE_OFF {
            Some(SwitchState::Off)
        } else if code == LIBINPUT_SWITCH_STATE_ON {
            Some(SwitchState::On)
        } else {
            None
        }
    }

    /// `of_raw` is the inverse of `raw`: it finds the value of a number
    /// wherever there is one, and each value from its own number.
    pub proof fn lemma_of_raw(code: u32, value: SwitchState)
        ensures
            Self::of_raw(code) == Some(value) <==> value.raw() == code,
            Self::of_raw(code) is None <==> forall|other: SwitchState|
                #[trigger] other.raw() != code,
    {
        if let Some(found) = Self::of_raw(code) {
            assert(found.raw() == code);
        }
    }

    /// Reads a `libinput_switch_state`: the value whose `raw` is
    /// `code`, or `None` where no value has that number.
    pub fn from_raw(code: u32) -> (r: Option<SwitchState>)
        ensures
            r == Self::of_raw(code),
            r matches Some(value) ==> value.raw() == code,
            r is None ==> forall|value: SwitchState| #[trigger] value.raw() != code,
    {
        if code == LIBINPUT_SWITCH_STATE_OFF {
            Some(SwitchState::Off)
        } else if code == LIBINPUT_SWITCH_STATE_ON {
            Some(SwitchState::On)
        } else {
            None
        }
    }
}

/// An event related a switch, that was toggled
#[derive(Debug, PartialEq, Eq, Hash)]
pub struct SwitchToggleEvent<H> {
    handle: H,
}

impl<H> SwitchToggleEvent<H> {
    /// Whether `event_type` is the type of this event.
    pub open spec fn accepts(event_type: u32) -> bool {
        event_type == LIBINPUT_EVENT_SWITCH_TOGGLE
    }

    /// The handle this event was built around.
    pub closed spec fn handle(self) -> H {
        self.handle
    }

    /// The handle says all there is to say of this event: two that agree
    /// in it are the same event.
    pub proof fn lemma_determined(a: Self, b: Self)
        requires
            a.handle() == b.handle(),
        ensures
            a == b,
    {
    }

    /// Builds the event around `handle`, where `event_type` is its type:
    /// `Some` exactly for that type.
    pub fn try_from_raw(event_type: u32, handle: H) -> (r: Option<Self>)
        ensures
            r is Some <==> Self::accepts(event_type),
            r matches Some(event) ==> event.handle() == handle,
    {
        if event_type == LIBINPUT_EVENT_SWITCH_TOGGLE {
            Some(SwitchToggleEvent { handle })
        } else {
            None
        }
    }

    /// Builds the event around `handle`, for a type that is known to be
    /// its own.
    pub fn from_raw(event_type: u32, handle: H) -> (r: Self)
        requires
            Self::accepts(event_type),
        ensures
            r.handle() == handle,
    {
        SwitchToggleEvent { handle }
    }

    /// The `libinput_event_type` of this event.
    pub fn event_type(&self) -> (r: u32)
        ensures
            Self::accepts(r),
    {
        LIBINPUT_EVENT_SWITCH_TOGGLE
    }

    /// Borrows the handle.
    pub fn as_handle(&self) -> (r: &H)
        ensures
            *r == self.handle(),
    {
        &self.handle
    }

    /// Gives the handle back.
    pub fn into_handle(self) -> (r: H)
        ensures
            r == self.handle(),
    {
        self.handle
    }
}

/// A switch related `Event`
#[derive(Debug, PartialEq, Eq, Hash)]
pub enum SwitchEvent<H> {
    /// An event related a switch, that was toggled
    Toggle(SwitchToggleEvent<H>),
}

impl<H> SwitchEvent<H> {
    /// Whether `event_type` is the type of a switch event.
    pub open spec fn accepts(event_type: u32) -> bool {
        event_type == LIBINPUT_EVENT_SWITCH_TOGGLE
    }

    /// The `libinput_event_type` of this event.
    pub open spec fn code(self) -> u32 {
        match self {
            SwitchEvent::Toggle(_) => LIBINPUT_EVENT_SWITCH_TOGGLE,
        }
    }

    /// The handle this event was built around.
    pub open spec fn handle(self) -> H {
        match self {
            SwitchEvent::Toggle(event) => event.handle(),
        }
    }

    /// Type and handle say all there is to say of an event: two events that
    /// agree in both are the same event.
    pub proof fn lemma_determined(a: Self, b: Self)
        requires
            a.code() == b.code(),
            a.handle() == b.handle(),
        ensures
            a == b,
    {
    }

    /// Tells whether `event_type` is the type of a switch event.
    pub fn has_type(event_type: u32) -> (r: bool)
        ensures
            r == Self::accepts(event_type),
    {
        event_type == LIBINPUT_EVENT_SWITCH_TOGGLE
    }

    /// Sorts an event by its type: `Some` exactly for the types of a switch
    /// event, holding the variant of that type around `handle`.
    pub fn try_from_raw(event_type: u32, handle: H) -> (r: Option<Self>)
        ensures
            r is Some <==> Self::accepts(event_type),
            r matches Some(event) ==> event.code() == event_type && event.handle() == handle,
    {
        if Self::has_type(event_type) {
            Some(Self::from_raw(event_type, handle))
        } else {
            None
        }
    }

    /// Sorts an event that is known to be a switch event.
    pub fn from_raw(event_type: u32, handle: H) -> (r: Self)
        requires
            Self::accepts(event_type),
        ensures
            r.code() == event_type,
            r.handle() == handle,
    {
        SwitchEvent::Toggle(SwitchToggleEvent::from_raw(event_type, handle))
    }

    /// The `libinput_event_type` of this event.
    pub fn event_type(&self) -> (r: u32)
        ensures
            r == self.code(),
            Self::accepts(r),
    {
        match self {
            SwitchEvent::Toggle(_) => LIBINPUT_EVENT_SWITCH_TOGGLE,
        }
    }

    /// Borrows the handle.
    pub fn as_handle(&self) -> (r: &H)
        ensures
            *r == self.handle(),
    {
        match self {
            SwitchEvent::Toggle(event) => event.as_handle(),
        }
    }

    /// Gives the handle back.
    pub fn into_handle(self) -> (r: H)
        ensures
            r == self.handle(),
    {
        match self {
            SwitchEvent::Toggle(event) => event.into_handle(),
        }
    }
}

/// Common to all switch events: each of them is a `SwitchEvent`.
pub trait SwitchEventTrait<H>: Sized {
    /// This event as a general `SwitchEvent`.
    spec fn switch_event(self) -> SwitchEvent<H>;

    /// Convert into a general `SwitchEvent` again
    fn into_switch_event(self) -> (r: SwitchEvent<H>)
        ensures
            r == self.switch_event(),
    ;
}

impl<H> SwitchEventTrait<H> for SwitchEvent<H> {
    open spec fn switch_event(self) -> SwitchEvent<H> {
        self
    }

    fn into_switch_event(self) -> (r: SwitchEvent<H>) {
        self
    }
}

impl<H> SwitchEventTrait<H> for SwitchToggleEvent<H> {
    open spec fn switch_event(self) -> SwitchEvent<H> {
        SwitchEvent::Toggle(self)
    }

    fn into_switch_event(self) -> (r: SwitchEvent<H>) {
        SwitchEvent::Toggle(self)
    }
}

impl<H> EventTrait<H> for SwitchEvent<H> {
    open spec fn event(self) -> Event<H> {
        Event::Switch(self)
    }

    fn into_event(self) -> (r: Event<H>) {
        Event::Switch(self)
    }
}

impl<H> EventTrait<H> for SwitchToggleEvent<H> {
    open spec fn event(self) -> Event<H> {
        Event::Switch(SwitchEvent::Toggle(self))
    }

    fn into_event(self) -> (r: Event<H>) {
        Event::Switch(SwitchEvent::Toggle(self))
    }
}

} // verus!
