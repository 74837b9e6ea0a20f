//! Tablet pad event types

use vstd::prelude::*;
use super::{
    Event,
    EventTrait,
    LIBINPUT_EVENT_TABLET_PAD_BUTTON,
    LIBINPUT_EVENT_TABLET_PAD_KEY,
    LIBINPUT_EVENT_TABLET_PAD_RING,
    LIBINPUT_EVENT_TABLET_PAD_STRIP,
};

verus! {

/// `LIBINPUT_TABLET_PAD_RING_SOURCE_UNKNOWN`
pub const LIBINPUT_TABLET_PAD_RING_SOURCE_UNKNOWN: u32 = 1;
/// `LIBINPUT_TABLET_PAD_RING_SOURCE_FINGER`
pub const LIBINPUT_TABLET_PAD_RING_SOURCE_FINGER: u32 = 2;

/// The source for a `TabletPadRingEvent` event.
#[derive(Debug, Clone, Copy, PartialEq, Eq, Hash)]
pub enum RingAxisSource {
    /// An unknown source
    Unknown,
    /// Finger source
    Finger,
}

impl RingAxisSource {
    /// The `libinput_tablet_pad_ring_axis_source` that stands for this value.
    pub open spec fn raw(self) -> u32 {
        match self {
            RingAxisSource::Unknown => LIBINPUT_TABLET_PAD_RING_SOURCE_UNKNOWN,
            RingAxisSource::Finger => LIBINPUT_TABLET_PAD_RING_SOURCE_FINGER,
        }
    }

    /// No two values share a number.
    pub proof fn lemma_raw_injective(a: RingAxisSource, b: RingAxisSource)
        requires
            a.raw() == b.raw(),
        ensures
            a == b,
    {
    }

    /// The inverse of `raw`: the value that the number `code` stands for, or
    /// `None` where the enumeration holds no such number.
    pub open spec fn of_raw(code: u32) -> Option<RingAxisSource> {
        if code == LIBINPUT_TABLET_PAD_RING_SOURCE_UNKNOWN {
            Some(RingAxisSource::Unknown)
        } else if code == LIBINPUT_TABLET_PAD_RING_SOURCE_FINGER {
            Some(RingAxisSource::Finger)
        } else {
            None
        }
    }

    /// `of_raw` is the inverse of `raw`: it finds the value of a number
    /// wherever there is one, and each value from its own number.
    pub proof fn lemma_of_raw(code: u32, value: RingAxisSource)
        ensures
            Self::of_raw(code) == Some(value) <==> value.raw() == code,
            Self::of_raw(code) is None <==> forall|other: RingAxisSource|
                #[trigger] other.raw() != code,
    {
        if let Some(found) = Self::of_raw(code) {
            assert(found.raw() == code);
        }
    }

    /// Reads a `libinput_tablet_pad_ring_axis_source`: the value whose `raw` is
    /// `code`, or `None` where no value has that number.
    pub fn from_raw(code: u32) -> (r: Option<RingAxisSource>)
        ensures
            r == Self::of_raw(code),
            r matches Some(value) ==> value.raw() == code,
            r is None ==> forall|value: RingAxisSource| #[trigger] value.raw() != code,
    {
        if code == LIBINPUT_TABLET_PAD_RING_SOURCE_UNKNOWN {
            Some(RingAxisSource::Unknown)
        } else if code == LIBINPUT_TABLET_PAD_RING_SOURCE_FINGER {
            Some(RingAxisSource::Finger)
        } else {
            None
        }
    }
}

/// `LIBINPUT_TABLET_PAD_STRIP_SOURCE_UNKNOWN`
pub const LIBINPUT_TABLET_PAD_STRIP_SOURCE_UNKNOWN: u32 = 1;
/// `LIBINPUT_TABLET_PAD_STRIP_SOURCE_FINGER`
pub const LIBINPUT_TABLET_PAD_STRIP_SOURCE_FINGER: u32 = 2;

/// The source for a `TabletPadStripEvent` event.
#[derive(Debug, Clone, Copy, PartialEq, Eq, Hash)]
pub enum StripAxisSource {
    /// An unknown source
    Unknown,
    /// Finger source
    Finger,
}

impl StripAxisSource {
    /// The `libinput_tablet_pad_strip_axis_source` that stands for this value.
    pub open spec fn raw(self) -> u32 {
        match self {
            StripAxisSource::Unknown => LIBINPUT_TABLET_PAD_STRIP_SOURCE_UNKNOWN,
            StripAxisSource::Finger => LIBINPUT_TABLET_PAD_STRIP_SOURCE_FINGER,
        }
    }

    /// No two values share a number.
    pub proof fn lemma_raw_injective(a: StripAxisSource, b: StripAxisSource)
        requires
            a.raw() == b.raw(),
        ensures
            a == b,
    {
    }

    /// The inverse of `raw`: the value that the number `code` stands for, or
    /// `None` where the enumeration holds no such number.
    pub open spec fn of_raw(code: u32) -> Option<StripAxisSource> {
        if code == LIBINPUT_TABLET_PAD_STRIP_SOURCE_UNKNOWN {
            Some(StripAxisSource::Unknown)
        } else if code == LIBINPUT_TABLET_PAD_STRIP_SOURCE_FINGER {
            Some(StripAxisSource::Finger)
        } else {
            None
        }
    }

    /// `of_raw` is the inverse of `raw`: it finds the value of a number
    /// wherever there is one, and each value from its own number.
    pub proof fn lemma_of_raw(code: u32, value: StripAxisSource)
        ensures
            Self::of_raw(code) == Some(value) <==> value.raw() == code,
            Self::of_raw(code) is None <==> forall|other: StripAxisSource|
                #[trigger] other.raw() != code,
    {
        if let Some(found) = Self::of_raw(code) {
            assert(found.raw() == code);
        }
    }

    /// Reads a `libinput_tablet_pad_strip_axis_source`: the value whose `raw` is
    /// `code`, or `None` where no value has that number.
    pub fn from_raw(code: u32) -> (r: Option<StripAxisSource>)
        ensures
            r == Self::of_raw(code),
            r matches Some(value) ==> value.raw() == code,
            r is None ==> forall|value: StripAxisSource| #[trigger] value.raw() != code,
    {
        if code == LIBINPUT_TABLET_PAD_STRIP_SOURCE_UNKNOWN {
            Some(StripAxisSource::Unknown)
        } else if code == LIBINPUT_TABLET_PAD_STRIP_SOURCE_FINGER {
            Some(StripAxisSource::Finger)
        } else {
            None
        }
    }
}

/// A button pressed on a device with the `DeviceCapability::TabletPad` capability.
#[derive(Debug, PartialEq, Eq, Hash)]
pub struct TabletPadButtonEvent<H> {
    handle: H,
}

impl<H> TabletPadButtonEvent<H> {
    /// Whether `event_type` is the type of this event.
    pub open spec fn accepts(event_type: u32) -> bool {
        event_type == LIBINPUT_EVENT_TABLET_PAD_BUTTON
    }

    /// The handle this event was built around.
    pub closed spec fn handle(self) -> H {
        self.handle
    }

    /// The handle says all there is to say of this event: two that agree
    /// in it are the same event.
    pub proof fn lemma_determined(a: Self, b: Self)
        requires
            a.handle() == b.handle(),
        ensures
            a == b,
    {
    }

    /// Builds the event around `handle`, where `event_type` is its type:
    /// `Some` exactly for that type.
    pub fn try_from_raw(event_type: u32, handle: H) -> (r: Option<Self>)
        ensures
            r is Some <==> Self::accepts(event_type),
            r matches Some(event) ==> event.handle() == handle,
    {
        if event_type == LIBINPUT_EVENT_TABLET_PAD_BUTTON {
            Some(TabletPadButtonEvent { handle })
        } else {
            None
        }
    }

    /// Builds the event around `handle`, for a type that is known to be
    /// its own.
    pub fn from_raw(event_type: u32, handle: H) -> (r: Self)
        requires
            Self::accepts(event_type),
        ensures
            r.handle() == handle,
    {
        TabletPadButtonEvent { handle }
    }

    /// The `libinput_event_type` of this event.
    pub fn event_type(&self) -> (r: u32)
        ensures
            Self::accepts(r),
    {
        LIBINPUT_EVENT_TABLET_PAD_BUTTON
    }

    /// Borrows the handle.
    pub fn as_handle(&self) -> (r: &H)
        ensures
            *r == self.handle(),
    {
        &self.handle
    }

    /// Gives the handle back.
    pub fn into_handle(self) -> (r: H)
        ensures
            r == self.handle(),
    {
        self.handle
    }
}

/// A status change on a tablet ring.
#[derive(Debug, PartialEq, Eq, Hash)]
pub struct TabletPadRingEvent<H> {
    handle: H,
}

impl<H> TabletPadRingEvent<H> {
    /// Whether `event_type` is the type of this event.
    pub open spec fn accepts(event_type: u32) -> bool {
        event_type == LIBINPUT_EVENT_TABLET_PAD_RING
    }

    /// The handle this event was built around.
    pub closed spec fn handle(self) -> H {
        self.handle
    }

    /// The handle says all there is to say of this event: two that agree
    /// in it are the same event.
    pub proof fn lemma_determined(a: Self, b: Self)
        requires
            a.handle() == b.handle(),
        ensures
            a == b,
    {
    }

    /// Builds the event around `handle`, where `event_type` is its type:
    /// `Some` exactly for that type.
    pub fn try_from_raw(event_type: u32, handle: H) -> (r: Option<Self>)
        ensures
            r is Some <==> Self::accepts(event_type),
            r matches Some(event) ==> event.handle() == handle,
    {
        if event_type == LIBINPUT_EVENT_TABLET_PAD_RING {
            Some(TabletPadRingEvent { handle })
        } else {
            None
        }
    }

    /// Builds the event around `handle`, for a type that is known to be
    /// its own.
    pub fn from_raw(event_type: u32, handle: H) -> (r: Self)
        requires
            Self::accepts(event_type),
        ensures
            r.handle() == handle,
    {
        TabletPadRingEvent { handle }
    }

    /// The `libinput_event_type` of this event.
    pub fn event_type(&self) -> (r: u32)
        ensures
            Self::accepts(r),
    {
        LIBINPUT_EVENT_TABLET_PAD_RING
    }

    /// Borrows the handle.
    pub fn as_handle(&self) -> (r: &H)
        ensures
            *r == self.handle(),
    {
        &self.handle
    }

    /// Gives the handle back.
    pub fn into_handle(self) -> (r: H)
        ensures
            r == self.handle(),
    {
        self.handle
    }
}

/// A status change on a strip.
#[derive(Debug, PartialEq, Eq, Hash)]
pub struct TabletPadStripEvent<H> {
    handle: H,
}

impl<H> TabletPadStripEvent<H> {
    /// Whether `event_type` is the type of this event.
    pub open spec fn accepts(event_type: u32) -> bool {
        event_type == LIBINPUT_EVENT_TABLET_PAD_STRIP
    }

    /// The handle this event was built around.
    pub closed spec fn handle(self) -> H {
        self.handle
    }

    /// The handle says all there is to say of this event: two that agree
    /// in it are the same event.
    pub proof fn lemma_determined(a: Self, b: Self)
        requires
            a.handle() == b.handle(),
        ensures
            a == b,
    {
    }

    /// Builds the event around `handle`, where `event_type` is its type:
    /// `Some` exactly for that type.
    pub fn try_from_raw(event_type: u32, handle: H) -> (r: Option<Self>)
        ensures
            r is Some <==> Self::accepts(event_type),
            r matches Some(event) ==> event.handle() == handle,
    {
        if event_type == LIBINPUT_EVENT_TABLET_PAD_STRIP {
            Some(TabletPadStripEvent { handle })
        } else {
            None
        }
    }

    /// Builds the event around `handle`, for a type that is known to be
    /// its own.
    pub fn from_raw(event_type: u32, handle: H) -> (r: Self)
        requires
            Self::accepts(event_type),
        ensures
            r.handle() == handle,
    {
        TabletPadStripEvent { handle }
    }

    /// The `libinput_event_type` of this event.
    pub fn event_type(&self) -> (r: u32)
        ensures
            Self::accepts(r),
    {
        LIBINPUT_EVENT_TABLET_PAD_STRIP
    }

    /// Borrows the handle.
    pub fn as_handle(&self) -> (r: &H)
        ensures
            *r == self.handle(),
    {
        &self.handle
    }

    /// Gives the handle back.
    pub fn into_handle(self) -> (r: H)
        ensures
            r == self.handle(),
    {
        self.handle
    }
}

/// A key pressed on a device with the `DeviceCapability::TabletPad` capability.
#[derive(Debug, PartialEq, Eq, Hash)]
pub struct TabletPadKeyEvent<H> {
    handle: H,
}

impl<H> TabletPadKeyEvent<H> {
    /// Whether `event_type` is the type of this event.
    pub open spec fn accepts(event_type: u32) -> bool {
        event_type == LIBINPUT_EVENT_TABLET_PAD_KEY
    }

    /// The handle this event was built around.
    pub closed spec fn handle(self) -> H {
        self.handle
    }

    /// The handle says all there is to say of this event: two that agree
    /// in it are the same event.
    pub proof fn lemma_determined(a: Self, b: Self)
        requires
            a.handle() == b.handle(),
        ensures
            a == b,
    {
    }

    /// Builds the event around `handle`, where `event_type` is its type:
    /// `Some` exactly for that type.
    pub fn try_from_raw(event_type: u32, handle: H) -> (r: Option<Self>)
        ensures
            r is Some <==> Self::accepts(event_type),
            r matches Some(event) ==> event.handle() == handle,
    {
        if event_type == LIBINPUT_EVENT_TABLET_PAD_KEY {
            Some(TabletPadKeyEvent { handle })
        } else {
            None
        }
    }

    /// Builds the event around `handle`, for a type that is known to be
    /// its own.
    pub fn from_raw(event_type: u32, handle: H) -> (r: Self)
        requires
            Self::accepts(event_type),
        ensures
            r.handle() == handle,
    {
        TabletPadKeyEvent { handle }
    }

    /// The `libinput_event_type` of this event.
    pub fn event_type(&self) -> (r: u32)
        ensures
            Self::accepts(r),
    {
        LIBINPUT_EVENT_TABLET_PAD_KEY
    }

    /// Borrows the handle.
    pub fn as_handle(&self) -> (r: &H)
        ensures
            *r == self.handle(),
    {
        &self.handle
    }

    /// Gives the handle back.
    pub fn into_handle(self) -> (r: H)
        ensures
            r == self.handle(),
    {
        self.handle
    }
}

/// A tablet pad related `Event`
#[derive(Debug, PartialEq, Eq, Hash)]
pub enum TabletPadEvent<H> {
    /// A button pressed on a device with the `DeviceCapability::TabletPad` capability.
    Button(TabletPadButtonEvent<H>),
    /// A status change on a tablet ring.
    Ring(TabletPadRingEvent<H>),
    /// A status change on a strip.
    Strip(TabletPadStripEvent<H>),
    /// A key pressed on a device with the `DeviceCapability::TabletPad` capability.
    Key(TabletPadKeyEvent<H>),
}

impl<H> TabletPadEvent<H> {
    /// Whether `event_type` is the type of a tablet pad event.
    pub open spec fn accepts(event_type: u32) -> bool {
        ||| event_type == LIBINPUT_EVENT_TABLET_PAD_BUTTON
        ||| event_type == LIBINPUT_EVENT_TABLET_PAD_RING
        ||| event_type == LIBINPUT_EVENT_TABLET_PAD_STRIP
        ||| event_type == LIBINPUT_EVENT_TABLET_PAD_KEY
    }

    /// The `libinput_event_type` of this event.
    pub open spec fn code(self) -> u32 {
        match self {
            TabletPadEvent::Button(_) => LIBINPUT_EVENT_TABLET_PAD_BUTTON,
            TabletPadEvent::Ring(_) => LIBINPUT_EVENT_TABLET_PAD_RING,
            TabletPadEvent::Strip(_) => LIBINPUT_EVENT_TABLET_PAD_STRIP,
            TabletPadEvent::Key(_) => LIBINPUT_EVENT_TABLET_PAD_KEY,
        }
    }

    /// The handle this event was built around.
    pub open spec fn handle(self) -> H {
        match self {
            TabletPadEvent::Button(event) => event.handle(),
            TabletPadEvent::Ring(event) => event.handle(),
            TabletPadEvent::Strip(event) => event.handle(),
            TabletPadEvent::Key(event) => event.handle(),
        }
    }

    /// Type and handle say all there is to say of an event: two events that
    /// agree in both are the same event.
    pub proof fn lemma_determined(a: Self, b: Self)
        requires
            a.code() == b.code(),
            a.handle() == b.handle(),
        ensures
            a == b,
    {
    }

    /// Tells whether `event_type` is the type of a tablet pad event.
    pub fn has_type(event_type: u32) -> (r: bool)
        ensures
            r == Self::accepts(event_type),
    {
        event_type == LIBINPUT_EVENT_TABLET_PAD_BUTTON
            || event_type == LIBINPUT_EVENT_TABLET_PAD_RING
            || event_type == LIBINPUT_EVENT_TABLET_PAD_STRIP
            || event_type == LIBINPUT_EVENT_TABLET_PAD_KEY
    }

    /// Sorts an event by its type: `Some` exactly for the types of a tablet pad
    /// event, holding the variant of that type around `handle`.
    pub fn try_from_raw(event_type: u32, handle: H) -> (r: Option<Self>)
        ensures
            r is Some <==> Self::accepts(event_type),
            r matches Some(event) ==> event.code() == event_type && event.handle() == handle,
    {
        if Self::has_type(event_type) {
            Some(Self::from_raw(event_type, handle))
        } else {
            None
        }
    }

    /// Sorts an event that is known to be a tablet pad event.
    pub fn from_raw(event_type: u32, handle: H) -> (r: Self)
        requires
            Self::accepts(event_type),
        ensures
            r.code() == event_type,
            r.handle() == handle,
    {
        if event_type == LIBINPUT_EVENT_TABLET_PAD_BUTTON {
            TabletPadEvent::Button(TabletPadButtonEvent::from_raw(event_type, handle))
        } else if event_type == LIBINPUT_EVENT_TABLET_PAD_RING {
            TabletPadEvent::Ring(TabletPadRingEvent::from_raw(event_type, handle))
        } else if event_type == LIBINPUT_EVENT_TABLET_PAD_STRIP {
            TabletPadEvent::Strip(TabletPadStripEvent::from_raw(event_type, handle))
        } else {
            TabletPadEvent::Key(TabletPadKeyEvent::from_raw(event_type, handle))
        }
    }

    /// The `libinput_event_type` of this event.
    pub fn event_type(&self) -> (r: u32)
        ensures
            r == self.code(),
            Self::accepts(r),
    {
        match self {
            TabletPadEvent::Button(_) => LIBINPUT_EVENT_TABLET_PAD_BUTTON,
            TabletPadEvent::Ring(_) => LIBINPUT_EVENT_TABLET_PAD_RING,
            TabletPadEvent::Strip(_) => LIBINPUT_EVENT_TABLET_PAD_STRIP,
            TabletPadEvent::Key(_) => LIBINPUT_EVENT_TABLET_PAD_KEY,
        }
    }

    /// Borrows the handle.
    pub fn as_handle(&self) -> (r: &H)
        ensures
            *r == self.handle(),
    {
        match self {
            TabletPadEvent::Button(event) => event.as_handle(),
            TabletPadEvent::Ring(event) => event.as_handle(),
            TabletPadEvent::Strip(event) => event.as_handle(),
            TabletPadEvent::Key(event) => event.as_handle(),
        }
    }

    /// Gives the handle back.
    pub fn into_handle(self) -> (r: H)
        ensures
            r == self.handle(),
    {
        match self {
            TabletPadEvent::Button(event) => event.into_handle(),
            TabletPadEvent::Ring(event) => event.into_handle(),
            TabletPadEvent::Strip(event) => event.into_handle(),
            TabletPadEvent::Key(event) => event.into_handle(),
        }
    }
}

/// Common to all tablet pad events: each of them is a `TabletPadEvent`.
pub trait TabletPadEventTrait<H>: Sized {
    /// This event as a general `TabletPadEvent`.
    spec fn tablet_pad_event(self) -> TabletPadEvent<H>;

    /// Convert into a general `TabletPadEvent` again
    fn into_tablet_pad_event(self) -> (r: TabletPadEvent<H>)
        ensures
            r == self.tablet_pad_event(),
    ;
}

impl<H> TabletPadEventTrait<H> for TabletPadEvent<H> {
    open spec fn tablet_pad_event(self) -> TabletPadEvent<H> {
        self
    }

    fn into_tablet_pad_event(self) -> (r: TabletPadEvent<H>) {
        self
    }
}

impl<H> TabletPadEventTrait<H> for TabletPadButtonEvent<H> {
    open spec fn tablet_pad_event(self) -> TabletPadEvent<H> {
        TabletPadEvent::Button(self)
    }

    fn into_tablet_pad_event(self) -> (r: TabletPadEvent<H>) {
        TabletPadEvent::Button(self)
    }
}

impl<H> TabletPadEventTrait<H> for TabletPadRingEvent<H> {
    open spec fn tablet_pad_event(self) -> TabletPadEvent<H> {
        TabletPadEvent::Ring(self)
    }

    fn into_tablet_pad_event(self) -> (r: TabletPadEvent<H>) {
        TabletPadEvent::Ring(self)
    }
}

impl<H> TabletPadEventTrait<H> for TabletPadStripEvent<H> {
    open spec fn tablet_pad_event(self) -> TabletPadEvent<H> {
        TabletPadEvent::Strip(self)
    }

    fn into_tablet_pad_event(self) -> (r: TabletPadEvent<H>) {
        TabletPadEvent::Strip(self)
    }
}

impl<H> TabletPadEventTrait<H> for TabletPadKeyEvent<H> {
    open spec fn tablet_pad_event(self) -> TabletPadEvent<H> {
        TabletPadEvent::Key(self)
    }

    fn into_tablet_pad_event(self) -> (r: TabletPadEvent<H>) {
        TabletPadEvent::Key(self)
    }
}

impl<H> EventTrait<H> for TabletPadEvent<H> {
    open spec fn event(self) -> Event<H> {
        Event::TabletPad(self)
    }

    fn into_event(self) -> (r: Event<H>) {
        Event::TabletPad(self)
    }
}

impl<H> EventTrait<H> for TabletPadButtonEvent<H> {
    open spec fn event(self) -> Event<H> {
        Event::TabletPad(TabletPadEvent::Button(self))
    }

    fn into_event(self) -> (r: Event<H>) {
        Event::TabletPad(TabletPadEvent::Button(self))
    }
}

impl<H> EventTrait<H> for TabletPadRingEvent<H> {
    open spec fn event(self) -> Event<H> {
        Event::TabletPad(TabletPadEvent::Ring(self))
    }

    fn into_event(self) -> (r: Event<H>) {
        Event::TabletPad(TabletPadEvent::Ring(self))
    }
}

impl<H> EventTrait<H> for TabletPadStripEvent<H> {
    open spec fn event(self) -> Event<H> {
        Event::TabletPad(TabletPadEvent::Strip(self))
    }

    fn into_event(self) -> (r: Event<H>) {
        Event::TabletPad(TabletPadEvent::Strip(self))
    }
}

impl<H> EventTrait<H> for TabletPadKeyEvent<H> {
    open spec fn event(self) -> Event<H> {
        Event::TabletPad(TabletPadEvent::Key(self))
    }

    fn into_event(self) -> (r: Event<H>) {
        Event::TabletPad(TabletPadEvent::Key(self))
    }
}

} // verus!
