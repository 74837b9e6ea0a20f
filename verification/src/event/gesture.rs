//! Gesture event types

use vstd::prelude::*;
use super::{
    Event,
    EventTrait,
    LIBINPUT_EVENT_GESTURE_PINCH_BEGIN,
    LIBINPUT_EVENT_GESTURE_PINCH_END,
    LIBINPUT_EVENT_GESTURE_PINCH_UPDATE,
    LIBINPUT_EVENT_GESTURE_SWIPE_BEGIN,
    LIBINPUT_EVENT_GESTURE_SWIPE_END,
    LIBINPUT_EVENT_GESTURE_SWIPE_UPDATE,
};

verus! {

/// The beginning of a swipe gesture
#[derive(Debug, PartialEq, Eq, Hash)]
pub struct GestureSwipeBeginEvent<H> {
    handle: H,
}

impl<H> GestureSwipeBeginEvent<H> {
    /// Whether `event_type` is the type of this event.
    pub open spec fn accepts(event_type: u32) -> bool {
        event_type == LIBINPUT_EVENT_GESTURE_SWIPE_BEGIN
    }

    /// The handle this event was built around.
    pub closed spec fn handle(self) -> H {
        self.handle
    }

    /// The handle says all there is to say of this event: two that agree
    /// in it are the same event.
    pub proof fn lemma_determined(a: Self, b: Self)
        requires
            a.handle() == b.handle(),
        ensures
            a == b,
    {
    }

    /// Builds the event around `handle`, where `event_type` is its type:
    /// `Some` exactly for that type.
    pub fn try_from_raw(event_type: u32, handle: H) -> (r: Option<Self>)
        ensures
            r is Some <==> Self::accepts(event_type),
            r matches Some(event) ==> event.handle() == handle,
    {
        if event_type == LIBINPUT_EVENT_GESTURE_SWIPE_BEGIN {
            Some(GestureSwipeBeginEvent { handle })
        } else {
            None
        }
    }

    /// Builds the event around `handle`, for a type that is known to be
    /// its own.
    pub fn from_raw(event_type: u32, handle: H) -> (r: Self)
        requires
            Self::accepts(event_type),
        ensures
            r.handle() == handle,
    {
        GestureSwipeBeginEvent { handle }
    }

    /// The `libinput_event_type` of this event.
    pub fn event_type(&self) -> (r: u32)
        ensures
            Self::accepts(r),
    {
        LIBINPUT_EVENT_GESTURE_SWIPE_BEGIN
    }

    /// Borrows the handle.
    pub fn as_handle(&self) -> (r: &H)
        ensures
            *r == self.handle(),
    {
        &self.handle
    }

    /// Gives the handle back.
    pub fn into_handle(self) -> (r: H)
        ensures
            r == self.handle(),
    {
        self.handle
    }
}

/// An update of a swipe gesture
#[derive(Debug, PartialEq, Eq, Hash)]
pub struct GestureSwipeUpdateEvent<H> {
    handle: H,
}

impl<H> GestureSwipeUpdateEvent<H> {
    /// Whether `event_type` is the type of this event.
    pub open spec fn accepts(event_type: u32) -> bool {
        event_type == LIBINPUT_EVENT_GESTURE_SWIPE_UPDATE
    }

    /// The handle this event was built around.
    pub closed spec fn handle(self) -> H {
        self.handle
    }

    /// The handle says all there is to say of this event: two that agree
    /// in it are the same event.
    pub proof fn lemma_determined(a: Self, b: Self)
        requires
            a.handle() == b.handle(),
        ensures
            a == b,
    {
    }

    /// Builds the event around `handle`, where `event_type` is its type:
    /// `Some` exactly for that type.
    pub fn try_from_raw(event_type: u32, handle: H) -> (r: Option<Self>)
        ensures
            r is Some <==> Self::accepts(event_type),
            r matches Some(event) ==> event.handle() == handle,
    {
        if event_type == LIBINPUT_EVENT_GESTURE_SWIPE_UPDATE {
            Some(GestureSwipeUpdateEvent { handle })
        } else {
            None
        }
    }

    /// Builds the event around `handle`, for a type that is known to be
    /// its own.
    pub fn from_raw(event_type: u32, handle: H) -> (r: Self)
        requires
            Self::accepts(event_type),
        ensures
            r.handle() == handle,
    {
        GestureSwipeUpdateEvent { handle }
    }

    /// The `libinput_event_type` of this event.
    pub fn event_type(&self) -> (r: u32)
        ensures
            Self::accepts(r),
    {
        LIBINPUT_EVENT_GESTURE_SWIPE_UPDATE
    }

    /// Borrows the handle.
    pub fn as_handle(&self) -> (r: &H)
        ensures
            *r == self.handle(),
    {
        &self.handle
    }

    /// Gives the handle back.
    pub fn into_handle(self) -> (r: H)
        ensures
            r == self.handle(),
    {
        self.handle
    }
}

/// The end of a swipe gesture
#[derive(Debug, PartialEq, Eq, Hash)]
pub struct GestureSwipeEndEvent<H> {
    handle: H,
}

impl<H> GestureSwipeEndEvent<H> {
    /// Whether `event_type` is the type of this event.
    pub open spec fn accepts(event_type: u32) -> bool {
        event_type == LIBINPUT_EVENT_GESTURE_SWIPE_END
    }

    /// The handle this event was built around.
    pub closed spec fn handle(self) -> H {
        self.handle
    }

    /// The handle says all there is to say of this event: two that agree
    /// in it are the same event.
    pub proof fn lemma_determined(a: Self, b: Self)
        requires
            a.handle() == b.handle(),
        ensures
            a == b,
    {
    }

    /// Builds the event around `handle`, where `event_type` is its type:
    /// `Some` exactly for that type.
    pub fn try_from_raw(event_type: u32, handle: H) -> (r: Option<Self>)
        ensures
            r is Some <==> Self::accepts(event_type),
            r matches Some(event) ==> event.handle() == handle,
    {
        if event_type == LIBINPUT_EVENT_GESTURE_SWIPE_END {
            Some(GestureSwipeEndEvent { handle })
        } else {
            None
        }
    }

    /// Builds the event around `handle`, for a type that is known to be
    /// its own.
    pub fn from_raw(event_type: u32, handle: H) -> (r: Self)
        requires
            Self::accepts(event_type),
        ensures
            r.handle() == handle,
    {
        GestureSwipeEndEvent { handle }
    }

    /// The `libinput_event_type` of this event.
    pub fn event_type(&self) -> (r: u32)
        ensures
            Self::accepts(r),
    {
        LIBINPUT_EVENT_GESTURE_SWIPE_END
    }

    /// Borrows the handle.
    pub fn as_handle(&self) -> (r: &H)
        ensures
            *r == self.handle(),
    {
        &self.handle
    }

    /// Gives the handle back.
    pub fn into_handle(self) -> (r: H)
        ensures
            r == self.handle(),
    {
        self.handle
    }
}

/// A swipe gesture related `Event`
#[derive(Debug, PartialEq, Eq, Hash)]
pub enum GestureSwipeEvent<H> {
    /// The beginning of a swipe gesture
    Begin(GestureSwipeBeginEvent<H>),
    /// An update of a swipe gesture
    Update(GestureSwipeUpdateEvent<H>),
    /// The end of a swipe gesture
    End(GestureSwipeEndEvent<H>),
}

impl<H> GestureSwipeEvent<H> {
    /// Whether `event_type` is the type of a swipe gesture event.
    pub open spec fn accepts(event_type: u32) -> bool {
        ||| event_type == LIBINPUT_EVENT_GESTURE_SWIPE_BEGIN
        ||| event_type == LIBINPUT_EVENT_GESTURE_SWIPE_UPDATE
        ||| event_type == LIBINPUT_EVENT_GESTURE_SWIPE_END
    }

    /// The `libinput_event_type` of this event.
    pub open spec fn code(self) -> u32 {
        match self {
            GestureSwipeEvent::Begin(_) => LIBINPUT_EVENT_GESTURE_SWIPE_BEGIN,
            GestureSwipeEvent::Update(_) => LIBINPUT_EVENT_GESTURE_SWIPE_UPDATE,
            GestureSwipeEvent::End(_) => LIBINPUT_EVENT_GESTURE_SWIPE_END,
        }
    }

    /// The handle this event was built around.
    pub open spec fn handle(self) -> H {
        match self {
            GestureSwipeEvent::Begin(event) => event.handle(),
            GestureSwipeEvent::Update(event) => event.handle(),
            GestureSwipeEvent::End(event) => event.handle(),
        }
    }

    /// Type and handle say all there is to say of an event: two events that
    /// agree in both are the same event.
    pub proof fn lemma_determined(a: Self, b: Self)
        requires
            a.code() == b.code(),
            a.handle() == b.handle(),
        ensures
            a == b,
    {
    }

    /// Tells whether `event_type` is the type of a swipe gesture event.
    pub fn has_type(event_type: u32) -> (r: bool)
        ensures
            r == Self::accepts(event_type),
    {
        event_type == LIBINPUT_EVENT_GESTURE_SWIPE_BEGIN
            || event_type == LIBINPUT_EVENT_GESTURE_SWIPE_UPDATE
            || event_type == LIBINPUT_EVENT_GESTURE_SWIPE_END
    }

    /// Sorts an event by its type: `Some` exactly for the types of a swipe gesture
    /// event, holding the variant of that type around `handle`.
    pub fn try_from_raw(event_type: u32, handle: H) -> (r: Option<Self>)
        ensures
            r is Some <==> Self::accepts(event_type),
            r matches Some(event) ==> event.code() == event_type && event.handle() == handle,
    {
        if Self::has_type(event_type) {
            Some(Self::from_raw(event_type, handle))
        } else {
            None
        }
    }

    /// Sorts an event that is known to be a swipe gesture event.
    pub fn from_raw(event_type: u32, handle: H) -> (r: Self)
        requires
            Self::accepts(event_type),
        ensures
            r.code() == event_type,
            r.handle() == handle,
    {
        if event_type == LIBINPUT_EVENT_GESTURE_SWIPE_BEGIN {
            GestureSwipeEvent::Begin(GestureSwipeBeginEvent::from_raw(event_type, handle))
        } else if event_type == LIBINPUT_EVENT_GESTURE_SWIPE_UPDATE {
            GestureSwipeEvent::Update(GestureSwipeUpdateEvent::from_raw(event_type, handle))
        } else {
            GestureSwipeEvent::End(GestureSwipeEndEvent::from_raw(event_type, handle))
        }
    }

    /// The `libinput_event_type` of this event.
    pub fn event_type(&self) -> (r: u32)
        ensures
            r == self.code(),
            Self::accepts(r),
    {
        match self {
            GestureSwipeEvent::Begin(_) => LIBINPUT_EVENT_GESTURE_SWIPE_BEGIN,
            GestureSwipeEvent::Update(_) => LIBINPUT_EVENT_GESTURE_SWIPE_UPDATE,
            GestureSwipeEvent::End(_) => LIBINPUT_EVENT_GESTURE_SWIPE_END,
        }
    }

    /// Borrows the handle.
    pub fn as_handle(&self) -> (r: &H)
        ensures
            *r == self.handle(),
    {
        match self {
            GestureSwipeEvent::Begin(event) => event.as_handle(),
            GestureSwipeEvent::Update(event) => event.as_handle(),
            GestureSwipeEvent::End(event) => event.as_handle(),
        }
    }

    /// Gives the handle back.
    pub fn into_handle(self) -> (r: H)
        ensures
            r == self.handle(),
    {
        match self {
            GestureSwipeEvent::Begin(event) => event.into_handle(),
            GestureSwipeEvent::Update(event) => event.into_handle(),
            GestureSwipeEvent::End(event) => event.into_handle(),
        }
    }
}

/// The beginning of a pinch gesture
#[derive(Debug, PartialEq, Eq, Hash)]
pub struct GesturePinchBeginEvent<H> {
    handle: H,
}

impl<H> GesturePinchBeginEvent<H> {
    /// Whether `event_type` is the type of this event.
    pub open spec fn accepts(event_type: u32) -> bool {
        event_type == LIBINPUT_EVENT_GESTURE_PINCH_BEGIN
    }

    /// The handle this event was built around.
    pub closed spec fn handle(self) -> H {
        self.handle
    }

    /// The handle says all there is to say of this event: two that agree
    /// in it are the same event.
    pub proof fn lemma_determined(a: Self, b: Self)
        requires
            a.handle() == b.handle(),
        ensures
            a == b,
    {
    }

    /// Builds the event around `handle`, where `event_type` is its type:
    /// `Some` exactly for that type.
    pub fn try_from_raw(event_type: u32, handle: H) -> (r: Option<Self>)
        ensures
            r is Some <==> Self::accepts(event_type),
            r matches Some(event) ==> event.handle() == handle,
    {
        if event_type == LIBINPUT_EVENT_GESTURE_PINCH_BEGIN {
            Some(GesturePinchBeginEvent { handle })
        } else {
            None
        }
    }

    /// Builds the event around `handle`, for a type that is known to be
    /// its own.
    pub fn from_raw(event_type: u32, handle: H) -> (r: Self)
        requires
            Self::accepts(event_type),
        ensures
            r.handle() == handle,
    {
        GesturePinchBeginEvent { handle }
    }

    /// The `libinput_event_type` of this event.
    pub fn event_type(&self) -> (r: u32)
        ensures
            Self::accepts(r),
    {
        LIBINPUT_EVENT_GESTURE_PINCH_BEGIN
    }

    /// Borrows the handle.
    pub fn as_handle(&self) -> (r: &H)
        ensures
            *r == self.handle(),
    {
        &self.handle
    }

    /// Gives the handle back.
    pub fn into_handle(self) -> (r: H)
        ensures
            r == self.handle(),
    {
        self.handle
    }
}

/// An update of a pinch gesture
#[derive(Debug, PartialEq, Eq, Hash)]
pub struct GesturePinchUpdateEvent<H> {
    handle: H,
}

impl<H> GesturePinchUpdateEvent<H> {
    /// Whether `event_type` is the type of this event.
    pub open spec fn accepts(event_type: u32) -> bool {
        event_type == LIBINPUT_EVENT_GESTURE_PINCH_UPDATE
    }

    /// The handle this event was built around.
    pub closed spec fn handle(self) -> H {
        self.handle
    }

    /// The handle says all there is to say of this event: two that agree
    /// in it are the same event.
    pub proof fn lemma_determined(a: Self, b: Self)
        requires
            a.handle() == b.handle(),
        ensures
            a == b,
    {
    }

    /// Builds the event around `handle`, where `event_type` is its type:
    /// `Some` exactly for that type.
    pub fn try_from_raw(event_type: u32, handle: H) -> (r: Option<Self>)
        ensures
            r is Some <==> Self::accepts(event_type),
            r matches Some(event) ==> event.handle() == handle,
    {
        if event_type == LIBINPUT_EVENT_GESTURE_PINCH_UPDATE {
            Some(GesturePinchUpdateEvent { handle })
        } else {
            None
        }
    }

    /// Builds the event around `handle`, for a type that is known to be
    /// its own.
    pub fn from_raw(event_type: u32, handle: H) -> (r: Self)
        requires
            Self::accepts(event_type),
        ensures
            r.handle() == handle,
    {
        GesturePinchUpdateEvent { handle }
    }

    /// The `libinput_event_type` of this event.
    pub fn event_type(&self) -> (r: u32)
        ensures
            Self::accepts(r),
    {
        LIBINPUT_EVENT_GESTURE_PINCH_UPDATE
    }

    /// Borrows the handle.
    pub fn as_handle(&self) -> (r: &H)
        ensures
            *r == self.handle(),
    {
        &self.handle
    }

    /// Gives the handle back.
    pub fn into_handle(self) -> (r: H)
        ensures
            r == self.handle(),
    {
        self.handle
    }
}

/// The end of a pinch gesture
#[derive(Debug, PartialEq, Eq, Hash)]
pub struct GesturePinchEndEvent<H> {
    handle: H,
}

impl<H> GesturePinchEndEvent<H> {
    /// Whether `event_type` is the type of this event.
    pub open spec fn accepts(event_type: u32) -> bool {
        event_type == LIBINPUT_EVENT_GESTURE_PINCH_END
    }

    /// The handle this event was built around.
    pub closed spec fn handle(self) -> H {
        self.handle
    }

    /// The handle says all there is to say of this event: two that agree
    /// in it are the same event.
    pub proof fn lemma_determined(a: Self, b: Self)
        requires
            a.handle() == b.handle(),
        ensures
            a == b,
    {
    }

    /// Builds the event around `handle`, where `event_type` is its type:
    /// `Some` exactly for that type.
    pub fn try_from_raw(event_type: u32, handle: H) -> (r: Option<Self>)
        ensures
            r is Some <==> Self::accepts(event_type),
            r matches Some(event) ==> event.handle() == handle,
    {
        if event_type == LIBINPUT_EVENT_GESTURE_PINCH_END {
            Some(GesturePinchEndEvent { handle })
        } else {
            None
        }
    }

    /// Builds the event around `handle`, for a type that is known to be
    /// its own.
    pub fn from_raw(event_type: u32, handle: H) -> (r: Self)
        requires
            Self::accepts(event_type),
        ensures
            r.handle() == handle,
    {
        GesturePinchEndEvent { handle }
    }

    /// The `libinput_event_type` of this event.
    pub fn event_type(&self) -> (r: u32)
        ensures
            Self::accepts(r),
    {
        LIBINPUT_EVENT_GESTURE_PINCH_END
    }

    /// Borrows the handle.
    pub fn as_handle(&self) -> (r: &H)
        ensures
            *r == self.handle(),
    {
        &self.handle
    }

    /// Gives the handle back.
    pub fn into_handle(self) -> (r: H)
        ensures
            r == self.handle(),
    {
        self.handle
    }
}

/// A pinch gesture related `Event`
#[derive(Debug, PartialEq, Eq, Hash)]
pub enum GesturePinchEvent<H> {
    /// The beginning of a pinch gesture
    Begin(GesturePinchBeginEvent<H>),
    /// An update of a pinch gesture
    Update(GesturePinchUpdateEvent<H>),
    /// The end of a pinch gesture
    End(GesturePinchEndEvent<H>),
}

impl<H> GesturePinchEvent<H> {
    /// Whether `event_type` is the type of a pinch gesture event.
    pub open spec fn accepts(event_type: u32) -> bool {
        ||| event_type == LIBINPUT_EVENT_GESTURE_PINCH_BEGIN
        ||| event_type == LIBINPUT_EVENT_GESTURE_PINCH_UPDATE
        ||| event_type == LIBINPUT_EVENT_GESTURE_PINCH_END
    }

    /// The `libinput_event_type` of this event.
    pub open spec fn code(self) -> u32 {
        match self {
            GesturePinchEvent::Begin(_) => LIBINPUT_EVENT_GESTURE_PINCH_BEGIN,
            GesturePinchEvent::Update(_) => LIBINPUT_EVENT_GESTURE_PINCH_UPDATE,
            GesturePinchEvent::End(_) => LIBINPUT_EVENT_GESTURE_PINCH_END,
        }
    }

    /// The handle this event was built around.
    pub open spec fn handle(self) -> H {
        match self {
            GesturePinchEvent::Begin(event) => event.handle(),
            GesturePinchEvent::Update(event) => event.handle(),
            GesturePinchEvent::End(event) => event.handle(),
        }
    }

    /// Type and handle say all there is to say of an event: two events that
    /// agree in both are the same event.
    pub proof fn lemma_determined(a: Self, b: Self)
        requires
            a.code() == b.code(),
            a.handle() == b.handle(),
        ensures
            a == b,
    {
    }

    /// Tells whether `event_type` is the type of a pinch gesture event.
    pub fn has_type(event_type: u32) -> (r: bool)
        ensures
            r == Self::accepts(event_type),
    {
        event_type == LIBINPUT_EVENT_GESTURE_PINCH_BEGIN
            || event_type == LIBINPUT_EVENT_GESTURE_PINCH_UPDATE
            || event_type == LIBINPUT_EVENT_GESTURE_PINCH_END
    }

    /// Sorts an event by its type: `Some` exactly for the types of a pinch gesture
    /// event, holding the variant of that type around `handle`.
    pub fn try_from_raw(event_type: u32, handle: H) -> (r: Option<Self>)
        ensures
            r is Some <==> Self::accepts(event_type),
            r matches Some(event) ==> event.code() == event_type && event.handle() == handle,
    {
        if Self::has_type(event_type) {
            Some(Self::from_raw(event_type, handle))
        } else {
            None
        }
    }

    /// Sorts an event that is known to be a pinch gesture event.
    pub fn from_raw(event_type: u32, handle: H) -> (r: Self)
        requires
            Self::accepts(event_type),
        ensures
            r.code() == event_type,
            r.handle() == handle,
    {
        if event_type == LIBINPUT_EVENT_GESTURE_PINCH_BEGIN {
            GesturePinchEvent::Begin(GesturePinchBeginEvent::from_raw(event_type, handle))
        } else if event_type == LIBINPUT_EVENT_GESTURE_PINCH_UPDATE {
            GesturePinchEvent::Update(GesturePinchUpdateEvent::from_raw(event_type, handle))
        } else {
            GesturePinchEvent::End(GesturePinchEndEvent::from_raw(event_type, handle))
        }
    }

    /// The `libinput_event_type` of this event.
    pub fn event_type(&self) -> (r: u32)
        ensures
            r == self.code(),
            Self::accepts(r),
    {
        match self {
            GesturePinchEvent::Begin(_) => LIBINPUT_EVENT_GESTURE_PINCH_BEGIN,
            GesturePinchEvent::Update(_) => LIBINPUT_EVENT_GESTURE_PINCH_UPDATE,
            GesturePinchEvent::End(_) => LIBINPUT_EVENT_GESTURE_PINCH_END,
        }
    }

    /// Borrows the handle.
    pub fn as_handle(&self) -> (r: &H)
        ensures
            *r == self.handle(),
    {
        match self {
            GesturePinchEvent::Begin(event) => event.as_handle(),
            GesturePinchEvent::Update(event) => event.as_handle(),
            GesturePinchEvent::End(event) => event.as_handle(),
        }
    }

    /// Gives the handle back.
    pub fn into_handle(self) -> (r: H)
        ensures
            r == self.handle(),
    {
        match self {
            GesturePinchEvent::Begin(event) => event.into_handle(),
            GesturePinchEvent::Update(event) => event.into_handle(),
            GesturePinchEvent::End(event) => event.into_handle(),
        }
    }
}

/// A gesture related `Event`
#[derive(Debug, PartialEq, Eq, Hash)]
pub enum GestureEvent<H> {
    /// A swipe gesture `Event`
    Swipe(GestureSwipeEvent<H>),
    /// A pinch gesture `Event`
    Pinch(GesturePinchEvent<H>),
}

impl<H> GestureEvent<H> {
    /// Whether `event_type` is the type of a gesture event: that of a swipe
    /// or that of a pinch.
    pub open spec fn accepts(event_type: u32) -> bool {
        GestureSwipeEvent::<H>::accepts(event_type) || GesturePinchEvent::<H>::accepts(event_type)
    }

    /// The `libinput_event_type` of this event.
    pub open spec fn code(self) -> u32 {
        match self {
            GestureEvent::Swipe(event) => event.code(),
            GestureEvent::Pinch(event) => event.code(),
        }
    }

    /// The handle this event was built around.
    pub open spec fn handle(self) -> H {
        match self {
            GestureEvent::Swipe(event) => event.handle(),
            GestureEvent::Pinch(event) => event.handle(),
        }
    }

    /// Type and handle say all there is to say of an event: two events that
    /// agree in both are the same event.
    pub proof fn lemma_determined(a: Self, b: Self)
        requires
            a.code() == b.code(),
            a.handle() == b.handle(),
        ensures
            a == b,
    {
        match (a, b) {
            (GestureEvent::Swipe(x), GestureEvent::Swipe(y)) => {
                GestureSwipeEvent::lemma_determined(x, y);
            },
            (GestureEvent::Pinch(x), GestureEvent::Pinch(y)) => {
                GesturePinchEvent::lemma_determined(x, y);
            },
            _ => {},
        }
    }

    /// Tells whether `event_type` is the type of a gesture event.
    pub fn has_type(event_type: u32) -> (r: bool)
        ensures
            r == Self::accepts(event_type),
    {
        GestureSwipeEvent::<H>::has_type(event_type) || GesturePinchEvent::<H>::has_type(
            event_type,
        )
    }

    /// Sorts an event by its type: `Some` exactly for the types of a gesture
    /// event, holding the variant of that type around `handle`.
    pub fn try_from_raw(event_type: u32, handle: H) -> (r: Option<Self>)
        ensures
            r is Some <==> Self::accepts(event_type),
            r matches Some(event) ==> event.code() == event_type && event.handle() == handle,
    {
        if Self::has_type(event_type) {
            Some(Self::from_raw(event_type, handle))
        } else {
            None
        }
    }

    /// Sorts an event that is known to be a gesture event.
    pub fn from_raw(event_type: u32, handle: H) -> (r: Self)
        requires
            Self::accepts(event_type),
        ensures
            r.code() == event_type,
            r.handle() == handle,
            r is Swipe <==> GestureSwipeEvent::<H>::accepts(event_type),
    {
        if GestureSwipeEvent::<H>::has_type(event_type) {
            GestureEvent::Swipe(GestureSwipeEvent::from_raw(event_type, handle))
        } else {
            GestureEvent::Pinch(GesturePinchEvent::from_raw(event_type, handle))
        }
    }

    /// The `libinput_event_type` of this event.
    pub fn event_type(&self) -> (r: u32)
        ensures
            r == self.code(),
            Self::accepts(r),
    {
        match self {
            GestureEvent::Swipe(event) => event.event_type(),
            GestureEvent::Pinch(event) => event.event_type(),
        }
    }

    /// Borrows the handle.
    pub fn as_handle(&self) -> (r: &H)
        ensures
            *r == self.handle(),
    {
        match self {
            GestureEvent::Swipe(event) => event.as_handle(),
            GestureEvent::Pinch(event) => event.as_handle(),
        }
    }

    /// Gives the handle back.
    pub fn into_handle(self) -> (r: H)
        ensures
            r == self.handle(),
    {
        match self {
            GestureEvent::Swipe(event) => event.into_handle(),
            GestureEvent::Pinch(event) => event.into_handle(),
        }
    }
}

/// Common to all swipe gesture events: each of them is a `GestureSwipeEvent`.
pub trait GestureSwipeEventTrait<H>: Sized {
    /// This event as a general `GestureSwipeEvent`.
    spec fn gesture_swipe_event(self) -> GestureSwipeEvent<H>;

    /// Convert into a general `GestureSwipeEvent` again
    fn into_gesture_swipe_event(self) -> (r: GestureSwipeEvent<H>)
        ensures
            r == self.gesture_swipe_event(),
    ;
}

impl<H> GestureSwipeEventTrait<H> for GestureSwipeEvent<H> {
    open spec fn gesture_swipe_event(self) -> GestureSwipeEvent<H> {
        self
    }

    fn into_gesture_swipe_event(self) -> (r: GestureSwipeEvent<H>) {
        self
    }
}

impl<H> GestureSwipeEventTrait<H> for GestureSwipeBeginEvent<H> {
    open spec fn gesture_swipe_event(self) -> GestureSwipeEvent<H> {
        GestureSwipeEvent::Begin(self)
    }

    fn into_gesture_swipe_event(self) -> (r: GestureSwipeEvent<H>) {
        GestureSwipeEvent::Begin(self)
    }
}

impl<H> GestureSwipeEventTrait<H> for GestureSwipeUpdateEvent<H> {
    open spec fn gesture_swipe_event(self) -> GestureSwipeEvent<H> {
        GestureSwipeEvent::Update(self)
    }

    fn into_gesture_swipe_event(self) -> (r: GestureSwipeEvent<H>) {
        GestureSwipeEvent::Update(self)
    }
}

impl<H> GestureSwipeEventTrait<H> for GestureSwipeEndEvent<H> {
    open spec fn gesture_swipe_event(self) -> GestureSwipeEvent<H> {
        GestureSwipeEvent::End(self)
    }

    fn into_gesture_swipe_event(self) -> (r: GestureSwipeEvent<H>) {
        GestureSwipeEvent::End(self)
    }
}

/// Common to all pinch gesture events: each of them is a `GesturePinchEvent`.
pub trait GesturePinchEventTrait<H>: Sized {
    /// This event as a general `GesturePinchEvent`.
    spec fn gesture_pinch_event(self) -> GesturePinchEvent<H>;

    /// Convert into a general `GesturePinchEvent` again
    fn into_gesture_pinch_event(self) -> (r: GesturePinchEvent<H>)
        ensures
            r == self.gesture_pinch_event(),
    ;
}

impl<H> GesturePinchEventTrait<H> for GesturePinchEvent<H> {
    open spec fn gesture_pinch_event(self) -> GesturePinchEvent<H> {
        self
    }

    fn into_gesture_pinch_event(self) -> (r: GesturePinchEvent<H>) {
        self
    }
}

impl<H> GesturePinchEventTrait<H> for GesturePinchBeginEvent<H> {
    open spec fn gesture_pinch_event(self) -> GesturePinchEvent<H> {
        GesturePinchEvent::Begin(self)
    }

    fn into_gesture_pinch_event(self) -> (r: GesturePinchEvent<H>) {
        GesturePinchEvent::Begin(self)
    }
}

impl<H> GesturePinchEventTrait<H> for GesturePinchUpdateEvent<H> {
    open spec fn gesture_pinch_event(self) -> GesturePinchEvent<H> {
        GesturePinchEvent::Update(self)
    }

    fn into_gesture_pinch_event(self) -> (r: GesturePinchEvent<H>) {
        GesturePinchEvent::Update(self)
    }
}

impl<H> GesturePinchEventTrait<H> for GesturePinchEndEvent<H> {
    open spec fn gesture_pinch_event(self) -> GesturePinchEvent<H> {
        GesturePinchEvent::End(self)
    }

    fn into_gesture_pinch_event(self) -> (r: GesturePinchEvent<H>) {
        GesturePinchEvent::End(self)
    }
}

/// Common to all gesture events: each of them is a `GestureEvent`.
pub trait GestureEventTrait<H>: Sized {
    /// This event as a general `GestureEvent`.
    spec fn gesture_event(self) -> GestureEvent<H>;

    /// Convert into a general `GestureEvent` again
    fn into_gesture_event(self) -> (r: GestureEvent<H>)
        ensures
            r == self.gesture_event(),
    ;
}

impl<H> GestureEventTrait<H> for GestureEvent<H> {
    open spec fn gesture_event(self) -> GestureEvent<H> {
        self
    }

    fn into_gesture_event(self) -> (r: GestureEvent<H>) {
        self
    }
}

impl<H> GestureEventTrait<H> for GestureSwipeEvent<H> {
    open spec fn gesture_event(self) -> GestureEvent<H> {
        GestureEvent::Swipe(self)
    }

    fn into_gesture_event(self) -> (r: GestureEvent<H>) {
        GestureEvent::Swipe(self)
    }
}

impl<H> GestureEventTrait<H> for GesturePinchEvent<H> {
    open spec fn gesture_event(self) -> GestureEvent<H> {
        GestureEvent::Pinch(self)
    }

    fn into_gesture_event(self) -> (r: GestureEvent<H>) {
        GestureEvent::Pinch(self)
    }
}

impl<H> GestureEventTrait<H> for GestureSwipeBeginEvent<H> {
    open spec fn gesture_event(self) -> GestureEvent<H> {
        GestureEvent::Swipe(GestureSwipeEvent::Begin(self))
    }

    fn into_gesture_event(self) -> (r: GestureEvent<H>) {
        GestureEvent::Swipe(GestureSwipeEvent::Begin(self))
    }
}

impl<H> GestureEventTrait<H> for GestureSwipeUpdateEvent<H> {
    open spec fn gesture_event(self) -> GestureEvent<H> {
        GestureEvent::Swipe(GestureSwipeEvent::Update(self))
    }

    fn into_gesture_event(self) -> (r: GestureEvent<H>) {
        GestureEvent::Swipe(GestureSwipeEvent::Update(self))
    }
}

impl<H> GestureEventTrait<H> for GestureSwipeEndEvent<H> {
    open spec fn gesture_event(self) -> GestureEvent<H> {
        GestureEvent::Swipe(GestureSwipeEvent::End(self))
    }

    fn into_gesture_event(self) -> (r: GestureEvent<H>) {
        GestureEvent::Swipe(GestureSwipeEvent::End(self))
    }
}

impl<H> GestureEventTrait<H> for GesturePinchBeginEvent<H> {
    open spec fn gesture_event(self) -> GestureEvent<H> {
        GestureEvent::Pinch(GesturePinchEvent::Begin(self))
    }

    fn into_gesture_event(self) -> (r: GestureEvent<H>) {
        GestureEvent::Pinch(GesturePinchEvent::Begin(self))
    }
}

impl<H> GestureEventTrait<H> for GesturePinchUpdateEvent<H> {
    open spec fn gesture_event(self) -> GestureEvent<H> {
        GestureEvent::Pinch(GesturePinchEvent::Update(self))
    }

    fn into_gesture_event(self) -> (r: GestureEvent<H>) {
        GestureEvent::Pinch(GesturePinchEvent::Update(self))
    }
}

impl<H> GestureEventTrait<H> for GesturePinchEndEvent<H> {
    open spec fn gesture_event(self) -> GestureEvent<H> {
        GestureEvent::Pinch(GesturePinchEvent::End(self))
    }

    fn into_gesture_event(self) -> (r: GestureEvent<H>) {
        GestureEvent::Pinch(GesturePinchEvent::End(self))
    }
}

impl<H> EventTrait<H> for GestureEvent<H> {
    open spec fn event(self) -> Event<H> {
        Event::Gesture(self)
    }

    fn into_event(self) -> (r: Event<H>) {
        Event::Gesture(self)
    }
}

impl<H> EventTrait<H> for GestureSwipeEvent<H> {
    open spec fn event(self) -> Event<H> {
        Event::Gesture(GestureEvent::Swipe(self))
    }

    fn into_event(self) -> (r: Event<H>) {
        Event::Gesture(GestureEvent::Swipe(self))
    }
}

impl<H> EventTrait<H> for GesturePinchEvent<H> {
    open spec fn event(self) -> Event<H> {
        Event::Gesture(GestureEvent::Pinch(self))
    }

    fn into_event(self) -> (r: Event<H>) {
        Event::Gesture(GestureEvent::Pinch(self))
    }
}

impl<H> EventTrait<H> for GestureSwipeBeginEvent<H> {
    open spec fn event(self) -> Event<H> {
        Event::Gesture(GestureEvent::Swipe(GestureSwipeEvent::Begin(self)))
    }

    fn into_event(self) -> (r: Event<H>) {
        Event::Gesture(GestureEvent::Swipe(GestureSwipeEvent::Begin(self)))
    }
}

impl<H> EventTrait<H> for GestureSwipeUpdateEvent<H> {
    open spec fn event(self) -> Event<H> {
        Event::Gesture(GestureEvent::Swipe(GestureSwipeEvent::Update(self)))
    }

    fn into_event(self) -> (r: Event<H>) {
        Event::Gesture(GestureEvent::Swipe(GestureSwipeEvent::Update(self)))
    }
}

impl<H> EventTrait<H> for GestureSwipeEndEvent<H> {
    open spec fn event(self) -> Event<H> {
        Event::Gesture(GestureEvent::Swipe(GestureSwipeEvent::End(self)))
    }

    fn into_event(self) -> (r: Event<H>) {
        Event::Gesture(GestureEvent::Swipe(GestureSwipeEvent::End(self)))
    }
}

impl<H> EventTrait<H> for GesturePinchBeginEvent<H> {
    open spec fn event(self) -> Event<H> {
        Event::Gesture(GestureEvent::Pinch(GesturePinchEvent::Begin(self)))
    }

    fn into_event(self) -> (r: Event<H>) {
        Event::Gesture(GestureEvent::Pinch(GesturePinchEvent::Begin(self)))
    }
}

impl<H> EventTrait<H> for GesturePinchUpdateEvent<H> {
    open spec fn event(self) -> Event<H> {
        Event::Gesture(GestureEvent::Pinch(GesturePinchEvent::Update(self)))
    }

    fn into_event(self) -> (r: Event<H>) {
        Event::Gesture(GestureEvent::Pinch(GesturePinchEvent::Update(self)))
    }
}

impl<H> EventTrait<H> for GesturePinchEndEvent<H> {
    open spec fn event(self) -> Event<H> {
        Event::Gesture(GestureEvent::Pinch(GesturePinchEvent::End(self)))
    }

    fn into_event(self) -> (r: Event<H>) {
        Event::Gesture(GestureEvent::Pinch(GesturePinchEvent::End(self)))
    }
}

} // verus!
