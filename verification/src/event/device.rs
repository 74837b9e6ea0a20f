//! Device event types

use vstd::prelude::*;
use super::{
    Event,
    EventTrait,
    LIBINPUT_EVENT_DEVICE_ADDED,
    LIBINPUT_EVENT_DEVICE_REMOVED,
};

verus! {

/// Signals that a device has been added to the context.
#[derive(Debug, PartialEq, Eq, Hash)]
pub struct DeviceAddedEvent<H> {
    handle: H,
}

impl<H> DeviceAddedEvent<H> {
    /// Whether `event_type` is the type of this event.
    pub open spec fn accepts(event_type: u32) -> bool {
        event_type == LIBINPUT_EVENT_DEVICE_ADDED
    }

    /// The handle this event was built around.
    pub closed spec fn handle(self) -> H {
        self.handle
    }

    /// The handle says all there is to say of this event: two that agree
    /// in it are the same event.
    pub proof fn lemma_determined(a: Self, b: Self)
        requires
            a.handle() == b.handle(),
        ensures
            a == b,
    {
    }

    /// Builds the event around `handle`, where `event_type` is its type:
    /// `Some` exactly for that type.
    pub fn try_from_raw(event_type: u32, handle: H) -> (r: Option<Self>)
        ensures
            r is Some <==> Self::accepts(event_type),
            r matches Some(event) ==> event.handle() == handle,
    {
        if event_type == LIBINPUT_EVENT_DEVICE_ADDED {
            Some(DeviceAddedEvent { handle })
        } else {
            None
        }
    }

    /// Builds the event around `handle`, for a type that is known to be
    /// its own.
    pub fn from_raw(event_type: u32, handle: H) -> (r: Self)
        requires
            Self::accepts(event_type),
        ensures
            r.handle() == handle,
    {
        DeviceAddedEvent { handle }
    }

    /// The `libinput_event_type` of this event.
    pub fn event_type(&self) -> (r: u32)
        ensures
            Self::accepts(r),
    {
        LIBINPUT_EVENT_DEVICE_ADDED
    }

    /// Borrows the handle.
    pub fn as_handle(&self) -> (r: &H)
        ensures
            *r == self.handle(),
    {
        &self.handle
    }

    /// Gives the handle back.
    pub fn into_handle(self) -> (r: H)
        ensures
            r == self.handle(),
    {
        self.handle
    }
}

/// Signals that a device has been removed.
#[derive(Debug, PartialEq, Eq, Hash)]
pub struct DeviceRemovedEvent<H> {
    handle: H,
}

impl<H> DeviceRemovedEvent<H> {
    /// Whether `event_type` is the type of this event.
    pub open spec fn accepts(event_type: u32) -> bool {
        event_type == LIBINPUT_EVENT_DEVICE_REMOVED
    }

    /// The handle this event was built around.
    pub closed spec fn handle(self) -> H {
        self.handle
    }

    /// The handle says all there is to say of this event: two that agree
    /// in it are the same event.
    pub proof fn lemma_determined(a: Self, b: Self)
        requires
            a.handle() == b.handle(),
        ensures
            a == b,
    {
    }

    /// Builds the event around `handle`, where `event_type` is its type:
    /// `Some` exactly for that type.
    pub fn try_from_raw(event_type: u32, handle: H) -> (r: Option<Self>)
        ensures
            r is Some <==> Self::accepts(event_type),
            r matches Some(event) ==> event.handle() == handle,
    {
        if event_type == LIBINPUT_EVENT_DEVICE_REMOVED {
            Some(DeviceRemovedEvent { handle })
        } else {
            None
        }
    }

    /// Builds the event around `handle`, for a type that is known to be
    /// its own.
    pub fn from_raw(event_type: u32, handle: H) -> (r: Self)
        requires
            Self::accepts(event_type),
        ensures
            r.handle() == handle,
    {
        DeviceRemovedEvent { handle }
    }

    /// The `libinput_event_type` of this event.
    pub fn event_type(&self) -> (r: u32)
        ensures
            Self::accepts(r),
    {
        LIBINPUT_EVENT_DEVICE_REMOVED
    }

    /// Borrows the handle.
    pub fn as_handle(&self) -> (r: &H)
        ensures
            *r == self.handle(),
    {
        &self.handle
    }

    /// Gives the handle back.
    pub fn into_handle(self) -> (r: H)
        ensures
            r == self.handle(),
    {
        self.handle
    }
}

/// A device related `Event`
#[derive(Debug, PartialEq, Eq, Hash)]
pub enum DeviceEvent<H> {
    /// Signals that a device has been added to the context.
    Added(DeviceAddedEvent<H>),
    /// Signals that a device has been removed.
    Removed(DeviceRemovedEvent<H>),
}

impl<H> DeviceEvent<H> {
    /// Whether `event_type` is the type of a device event.
    pub open spec fn accepts(event_type: u32) -> bool {
        ||| event_type == LIBINPUT_EVENT_DEVICE_ADDED
        ||| event_type == LIBINPUT_EVENT_DEVICE_REMOVED
    }

    /// The `libinput_event_type` of this event.
    pub open spec fn code(self) -> u32 {
        match self {
            DeviceEvent::Added(_) => LIBINPUT_EVENT_DEVICE_ADDED,
            DeviceEvent::Removed(_) => LIBINPUT_EVENT_DEVICE_REMOVED,
        }
    }

    /// The handle this event was built around.
    pub open spec fn handle(self) -> H {
        match self {
            DeviceEvent::Added(event) => event.handle(),
            DeviceEvent::Removed(event) => event.handle(),
        }
    }

    /// Type and handle say all there is to say of an event: two events that
    /// agree in both are the same event.
    pub proof fn lemma_determined(a: Self, b: Self)
        requires
            a.code() == b.code(),
            a.handle() == b.handle(),
        ensures
            a == b,
    {
    }

    /// Tells whether `event_type` is the type of a device event.
    pub fn has_type(event_type: u32) -> (r: bool)
        ensures
            r == Self::accepts(event_type),
    {
        event_type == LIBINPUT_EVENT_DEVICE_ADDED
            || event_type == LIBINPUT_EVENT_DEVICE_REMOVED
    }

    /// Sorts an event by its type: `Some` exactly for the types of a device
    /// event, holding the variant of that type around `handle`.
    pub fn try_from_raw(event_type: u32, handle: H) -> (r: Option<Self>)
        ensures
            r is Some <==> Self::accepts(event_type),
            r matches Some(event) ==> event.code() == event_type && event.handle() == handle,
    {
        if Self::has_type(event_type) {
            Some(Self::from_raw(event_type, handle))
        } else {
            None
        }
    }

    /// Sorts an event that is known to be a device event.
    pub fn from_raw(event_type: u32, handle: H) -> (r: Self)
        requires
            Self::accepts(event_type),
        ensures
            r.code() == event_type,
            r.handle() == handle,
    {
        if event_type == LIBINPUT_EVENT_DEVICE_ADDED {
            DeviceEvent::Added(DeviceAddedEvent::from_raw(event_type, handle))
        } else {
            DeviceEvent::Removed(DeviceRemovedEvent::from_raw(event_type, handle))
        }
    }

    /// The `libinput_event_type` of this event.
    pub fn event_type(&self) -> (r: u32)
        ensures
            r == self.code(),
            Self::accepts(r),
    {
        match self {
            DeviceEvent::Added(_) => LIBINPUT_EVENT_DEVICE_ADDED,
            DeviceEvent::Removed(_) => LIBINPUT_EVENT_DEVICE_REMOVED,
        }
    }

    /// Borrows the handle.
    pub fn as_handle(&self) -> (r: &H)
        ensures
            *r == self.handle(),
    {
        match self {
            DeviceEvent::Added(event) => event.as_handle(),
            DeviceEvent::Removed(event) => event.as_handle(),
        }
    }

    /// Gives the handle back.
    pub fn into_handle(self) -> (r: H)
        ensures
            r == self.handle(),
    {
        match self {
            DeviceEvent::Added(event) => event.into_handle(),
            DeviceEvent::Removed(event) => event.into_handle(),
        }
    }
}

/// Common to all device events: each of them is a `DeviceEvent`.
pub trait DeviceEventTrait<H>: Sized {
    /// This event as a general `DeviceEvent`.
    spec fn device_event(self) -> DeviceEvent<H>;

    /// Convert into a general `DeviceEvent` again
    fn into_device_event(self) -> (r: DeviceEvent<H>)
        ensures
            r == self.device_event(),
    ;
}

impl<H> DeviceEventTrait<H> for DeviceEvent<H> {
    open spec fn device_event(self) -> DeviceEvent<H> {
        self
    }

    fn into_device_event(self) -> (r: DeviceEvent<H>) {
        self
    }
}

impl<H> DeviceEventTrait<H> for DeviceAddedEvent<H> {
    open spec fn device_event(self) -> DeviceEvent<H> {
        DeviceEvent::Added(self)
    }

    fn into_device_event(self) -> (r: DeviceEvent<H>) {
        DeviceEvent::Added(self)
    }
}

impl<H> DeviceEventTrait<H> for DeviceRemovedEvent<H> {
    open spec fn device_event(self) -> DeviceEvent<H> {
        DeviceEvent::Removed(self)
    }

    fn into_device_event(self) -> (r: DeviceEvent<H>) {
        DeviceEvent::Removed(self)
    }
}

impl<H> EventTrait<H> for DeviceEvent<H> {
    open spec fn event(self) -> Event<H> {
        Event::Device(self)
    }

    fn into_event(self) -> (r: Event<H>) {
        Event::Device(self)
    }
}

impl<H> EventTrait<H> for DeviceAddedEvent<H> {
    open spec fn event(self) -> Event<H> {
        Event::Device(DeviceEvent::Added(self))
    }

    fn into_event(self) -> (r: Event<H>) {
        Event::Device(DeviceEvent::Added(self))
    }
}

impl<H> EventTrait<H> for DeviceRemovedEvent<H> {
    open spec fn event(self) -> Event<H> {
        Event::Device(DeviceEvent::Removed(self))
    }

    fn into_event(self) -> (r: Event<H>) {
        Event::Device(DeviceEvent::Removed(self))
    }
}

} // verus!
