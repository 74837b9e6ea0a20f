//! Touch event types

use vstd::prelude::*;
use super::{
    Event,
    EventTrait,
    LIBINPUT_EVENT_TOUCH_CANCEL,
    LIBINPUT_EVENT_TOUCH_DOWN,
    LIBINPUT_EVENT_TOUCH_FRAME,
    LIBINPUT_EVENT_TOUCH_MOTION,
    LIBINPUT_EVENT_TOUCH_UP,
};

verus! {

/// An event related to resting a finger on the screen
#[derive(Debug, PartialEq, Eq, Hash)]
pub struct TouchDownEvent<H> {
    handle: H,
}

impl<H> TouchDownEvent<H> {
    /// Whether `event_type` is the type of this event.
    pub open spec fn accepts(event_type: u32) -> bool {
        event_type == LIBINPUT_EVENT_TOUCH_DOWN
    }

    /// The handle this event was built around.
    pub closed spec fn handle(self) -> H {
        self.handle
    }

    /// The handle says all there is to say of this event: two that agree
    /// in it are the same event.
    pub proof fn lemma_determined(a: Self, b: Self)
        requires
            a.handle() == b.handle(),
        ensures
            a == b,
    {
    }

    /// Builds the event around `handle`, where `event_type` is its type:
    /// `Some` exactly for that type.
    pub fn try_from_raw(event_type: u32, handle: H) -> (r: Option<Self>)
        ensures
            r is Some <==> Self::accepts(event_type),
            r matches Some(event) ==> event.handle() == handle,
    {
        if event_type == LIBINPUT_EVENT_TOUCH_DOWN {
            Some(TouchDownEvent { handle })
        } else {
            None
        }
    }

    /// Builds the event around `handle`, for a type that is known to be
    /// its own.
    pub fn from_raw(event_type: u32, handle: H) -> (r: Self)
        requires
            Self::accepts(event_type),
        ensures
            r.handle() == handle,
    {
        TouchDownEvent { handle }
    }

    /// The `libinput_event_type` of this event.
    pub fn event_type(&self) -> (r: u32)
        ensures
            Self::accepts(r),
    {
        LIBINPUT_EVENT_TOUCH_DOWN
    }

    /// Borrows the handle.
    pub fn as_handle(&self) -> (r: &H)
        ensures
            *r == self.handle(),
    {
        &self.handle
    }

    /// Gives the handle back.
    pub fn into_handle(self) -> (r: H)
        ensures
            r == self.handle(),
    {
        self.handle
    }
}

/// An event related to lifting a finger from the screen
#[derive(Debug, PartialEq, Eq, Hash)]
pub struct TouchUpEvent<H> {
    handle: H,
}

impl<H> TouchUpEvent<H> {
    /// Whether `event_type` is the type of this event.
    pub open spec fn accepts(event_type: u32) -> bool {
        event_type == LIBINPUT_EVENT_TOUCH_UP
    }

    /// The handle this event was built around.
    pub closed spec fn handle(self) -> H {
        self.handle
    }

    /// The handle says all there is to say of this event: two that agree
    /// in it are the same event.
    pub proof fn lemma_determined(a: Self, b: Self)
        requires
            a.handle() == b.handle(),
        ensures
            a == b,
    {
    }

    /// Builds the event around `handle`, where `event_type` is its type:
    /// `Some` exactly for that type.
    pub fn try_from_raw(event_type: u32, handle: H) -> (r: Option<Self>)
        ensures
            r is Some <==> Self::accepts(event_type),
            r matches Some(event) ==> event.handle() == handle,
    {
        if event_type == LIBINPUT_EVENT_TOUCH_UP {
            Some(TouchUpEvent { handle })
        } else {
            None
        }
    }

    /// Builds the event around `handle`, for a type that is known to be
    /// its own.
    pub fn from_raw(event_type: u32, handle: H) -> (r: Self)
        requires
            Self::accepts(event_type),
        ensures
            r.handle() == handle,
    {
        TouchUpEvent { handle }
    }

    /// The `libinput_event_type` of this event.
    pub fn event_type(&self) -> (r: u32)
        ensures
            Self::accepts(r),
    {
        LIBINPUT_EVENT_TOUCH_UP
    }

    /// Borrows the handle.
    pub fn as_handle(&self) -> (r: &H)
        ensures
            *r == self.handle(),
    {
        &self.handle
    }

    /// Gives the handle back.
    pub fn into_handle(self) -> (r: H)
        ensures
            r == self.handle(),
    {
        self.handle
    }
}

/// An event related to moving a finger on the screen
#[derive(Debug, PartialEq, Eq, Hash)]
pub struct TouchMotionEvent<H> {
    handle: H,
}

impl<H> TouchMotionEvent<H> {
    /// Whether `event_type` is the type of this event.
    pub open spec fn accepts(event_type: u32) -> bool {
        event_type == LIBINPUT_EVENT_TOUCH_MOTION
    }

    /// The handle this event was built around.
    pub closed spec fn handle(self) -> H {
        self.handle
    }

    /// The handle says all there is to say of this event: two that agree
    /// in it are the same event.
    pub proof fn lemma_determined(a: Self, b: Self)
        requires
            a.handle() == b.handle(),
        ensures
            a == b,
    {
    }

    /// Builds the event around `handle`, where `event_type` is its type:
    /// `Some` exactly for that type.
    pub fn try_from_raw(event_type: u32, handle: H) -> (r: Option<Self>)
        ensures
            r is Some <==> Self::accepts(event_type),
            r matches Some(event) ==> event.handle() == handle,
    {
        if event_type == LIBINPUT_EVENT_TOUCH_MOTION {
            Some(TouchMotionEvent { handle })
        } else {
            None
        }
    }

    /// Builds the event around `handle`, for a type that is known to be
    /// its own.
    pub fn from_raw(event_type: u32, handle: H) -> (r: Self)
        requires
            Self::accepts(event_type),
        ensures
            r.handle() == handle,
    {
        TouchMotionEvent { handle }
    }

    /// The `libinput_event_type` of this event.
    pub fn event_type(&self) -> (r: u32)
        ensures
            Self::accepts(r),
    {
        LIBINPUT_EVENT_TOUCH_MOTION
    }

    /// Borrows the handle.
    pub fn as_handle(&self) -> (r: &H)
        ensures
            *r == self.handle(),
    {
        &self.handle
    }

    /// Gives the handle back.
    pub fn into_handle(self) -> (r: H)
        ensures
            r == self.handle(),
    {
        self.handle
    }
}

/// An event cancelling previous events on this slot
#[derive(Debug, PartialEq, Eq, Hash)]
pub struct TouchCancelEvent<H> {
    handle: H,
}

impl<H> TouchCancelEvent<H> {
    /// Whether `event_type` is the type of this event.
    pub open spec fn accepts(event_type: u32) -> bool {
        event_type == LIBINPUT_EVENT_TOUCH_CANCEL
    }

    /// The handle this event was built around.
    pub closed spec fn handle(self) -> H {
        self.handle
    }

    /// The handle says all there is to say of this event: two that agree
    /// in it are the same event.
    pub proof fn lemma_determined(a: Self, b: Self)
        requires
            a.handle() == b.handle(),
        ensures
            a == b,
    {
    }

    /// Builds the event around `handle`, where `event_type` is its type:
    /// `Some` exactly for that type.
    pub fn try_from_raw(event_type: u32, handle: H) -> (r: Option<Self>)
        ensures
            r is Some <==> Self::accepts(event_type),
            r matches Some(event) ==> event.handle() == handle,
    {
        if event_type == LIBINPUT_EVENT_TOUCH_CANCEL {
            Some(TouchCancelEvent { handle })
        } else {
            None
        }
    }

    /// Builds the event around `handle`, for a type that is known to be
    /// its own.
    pub fn from_raw(event_type: u32, handle: H) -> (r: Self)
        requires
            Self::accepts(event_type),
        ensures
            r.handle() == handle,
    {
        TouchCancelEvent { handle }
    }

    /// The `libinput_event_type` of this event.
    pub fn event_type(&self) -> (r: u32)
        ensures
            Self::accepts(r),
    {
        LIBINPUT_EVENT_TOUCH_CANCEL
    }

    /// Borrows the handle.
    pub fn as_handle(&self) -> (r: &H)
        ensures
            *r == self.handle(),
    {
        &self.handle
    }

    /// Gives the handle back.
    pub fn into_handle(self) -> (r: H)
        ensures
            r == self.handle(),
    {
        self.handle
    }
}

/// Signals the end of a set of touchpoints at one device sample time.
#[derive(Debug, PartialEq, Eq, Hash)]
pub struct TouchFrameEvent<H> {
    handle: H,
}

impl<H> TouchFrameEvent<H> {
    /// Whether `event_type` is the type of this event.
    pub open spec fn accepts(event_type: u32) -> bool {
        event_type == LIBINPUT_EVENT_TOUCH_FRAME
    }

    /// The handle this event was built around.
    pub closed spec fn handle(self) -> H {
        self.handle
    }

    /// The handle says all there is to say of this event: two that agree
    /// in it are the same event.
    pub proof fn lemma_determined(a: Self, b: Self)
        requires
            a.handle() == b.handle(),
        ensures
            a == b,
    {
    }

    /// Builds the event around `handle`, where `event_type` is its type:
    /// `Some` exactly for that type.
    pub fn try_from_raw(event_type: u32, handle: H) -> (r: Option<Self>)
        ensures
            r is Some <==> Self::accepts(event_type),
            r matches Some(event) ==> event.handle() == handle,
    {
        if event_type == LIBINPUT_EVENT_TOUCH_FRAME {
            Some(TouchFrameEvent { handle })
        } else {
            None
        }
    }

    /// Builds the event around `handle`, for a type that is known to be
    /// its own.
    pub fn from_raw(event_type: u32, handle: H) -> (r: Self)
        requires
            Self::accepts(event_type),
        ensures
            r.handle() == handle,
    {
        TouchFrameEvent { handle }
    }

    /// The `libinput_event_type` of this event.
    pub fn event_type(&self) -> (r: u32)
        ensures
            Self::accepts(r),
    {
        LIBINPUT_EVENT_TOUCH_FRAME
    }

    /// Borrows the handle.
    pub fn as_handle(&self) -> (r: &H)
        ensures
            *r == self.handle(),
    {
        &self.handle
    }

    /// Gives the handle back.
    pub fn into_handle(self) -> (r: H)
        ensures
            r == self.handle(),
    {
        self.handle
    }
}

/// A touch related `Event`
#[derive(Debug, PartialEq, Eq, Hash)]
pub enum TouchEvent<H> {
    /// An event related to resting a finger on the screen
    Down(TouchDownEvent<H>),
    /// An event related to lifting a finger from the screen
    Up(TouchUpEvent<H>),
    /// An event related to moving a finger on the screen
    Motion(TouchMotionEvent<H>),
    /// An event cancelling previous events on this slot
    Cancel(TouchCancelEvent<H>),
    /// Signals the end of a set of touchpoints at one device sample time.
    Frame(TouchFrameEvent<H>),
}

impl<H> TouchEvent<H> {
    /// Whether `event_type` is the type of a touch event.
    pub open spec fn accepts(event_type: u32) -> bool {
        ||| event_type == LIBINPUT_EVENT_TOUCH_DOWN
        ||| event_type == LIBINPUT_EVENT_TOUCH_UP
        ||| event_type == LIBINPUT_EVENT_TOUCH_MOTION
        ||| event_type == LIBINPUT_EVENT_TOUCH_CANCEL
        ||| event_type == LIBINPUT_EVENT_TOUCH_FRAME
    }

    /// The `libinput_event_type` of this event.
    pub open spec fn code(self) -> u32 {
        match self {
            TouchEvent::Down(_) => LIBINPUT_EVENT_TOUCH_DOWN,
            TouchEvent::Up(_) => LIBINPUT_EVENT_TOUCH_UP,
            TouchEvent::Motion(_) => LIBINPUT_EVENT_TOUCH_MOTION,
            TouchEvent::Cancel(_) => LIBINPUT_EVENT_TOUCH_CANCEL,
            TouchEvent::Frame(_) => LIBINPUT_EVENT_TOUCH_FRAME,
        }
    }

    /// The handle this event was built around.
    pub open spec fn handle(self) -> H {
        match self {
            TouchEvent::Down(event) => event.handle(),
            TouchEvent::Up(event) => event.handle(),
            TouchEvent::Motion(event) => event.handle(),
            TouchEvent::Cancel(event) => event.handle(),
            TouchEvent::Frame(event) => event.handle(),
        }
    }

    /// Type and handle say all there is to say of an event: two events that
    /// agree in both are the same event.
    pub proof fn lemma_determined(a: Self, b: Self)
        requires
            a.code() == b.code(),
            a.handle() == b.handle(),
        ensures
            a == b,
    {
    }

    /// Tells whether `event_type` is the type of a touch event.
    pub fn has_type(event_type: u32) -> (r: bool)
        ensures
            r == Self::accepts(event_type),
    {
        event_type == LIBINPUT_EVENT_TOUCH_DOWN
            || event_type == LIBINPUT_EVENT_TOUCH_UP
            || event_type == LIBINPUT_EVENT_TOUCH_MOTION
            || event_type == LIBINPUT_EVENT_TOUCH_CANCEL
            || event_type == LIBINPUT_EVENT_TOUCH_FRAME
    }

    /// Sorts an event by its type: `Some` exactly for the types of a touch
    /// event, holding the variant of that type around `handle`.
    pub fn try_from_raw(event_type: u32, handle: H) -> (r: Option<Self>)
        ensures
            r is Some <==> Self::accepts(event_type),
            r matches Some(event) ==> event.code() == event_type && event.handle() == handle,
    {
        if Self::has_type(event_type) {
            Some(Self::from_raw(event_type, handle))
        } else {
            None
        }
    }

    /// Sorts an event that is known to be a touch event.
    pub fn from_raw(event_type: u32, handle: H) -> (r: Self)
        requires
            Self::accepts(event_type),
        ensures
            r.code() == event_type,
            r.handle() == handle,
    {
        if event_type == LIBINPUT_EVENT_TOUCH_DOWN {
            TouchEvent::Down(TouchDownEvent::from_raw(event_type, handle))
        } else if event_type == LIBINPUT_EVENT_TOUCH_UP {
            TouchEvent::Up(TouchUpEvent::from_raw(event_type, handle))
        } else if event_type == LIBINPUT_EVENT_TOUCH_MOTION {
            TouchEvent::Motion(TouchMotionEvent::from_raw(event_type, handle))
        } else if event_type == LIBINPUT_EVENT_TOUCH_CANCEL {
            TouchEvent::Cancel(TouchCancelEvent::from_raw(event_type, handle))
        } else {
            TouchEvent::Frame(TouchFrameEvent::from_raw(event_type, handle))
        }
    }

    /// The `libinput_event_type` of this event.
    pub fn event_type(&self) -> (r: u32)
        ensures
            r == self.code(),
            Self::accepts(r),
    {
        match self {
            TouchEvent::Down(_) => LIBINPUT_EVENT_TOUCH_DOWN,
            TouchEvent::Up(_) => LIBINPUT_EVENT_TOUCH_UP,
            TouchEvent::Motion(_) => LIBINPUT_EVENT_TOUCH_MOTION,
            TouchEvent::Cancel(_) => LIBINPUT_EVENT_TOUCH_CANCEL,
            TouchEvent::Frame(_) => LIBINPUT_EVENT_TOUCH_FRAME,
        }
    }

    /// Borrows the handle.
    pub fn as_handle(&self) -> (r: &H)
        ensures
            *r == self.handle(),
    {
        match self {
            TouchEvent::Down(event) => event.as_handle(),
            TouchEvent::Up(event) => event.as_handle(),
            TouchEvent::Motion(event) => event.as_handle(),
            TouchEvent::Cancel(event) => event.as_handle(),
            TouchEvent::Frame(event) => event.as_handle(),
        }
    }

    /// Gives the handle back.
    pub fn into_handle(self) -> (r: H)
        ensures
            r == self.handle(),
    {
        match self {
            TouchEvent::Down(event) => event.into_handle(),
            TouchEvent::Up(event) => event.into_handle(),
            TouchEvent::Motion(event) => event.into_handle(),
            TouchEvent::Cancel(event) => event.into_handle(),
            TouchEvent::Frame(event) => event.into_handle(),
        }
    }
}

/// Common to all touch events: each of them is a `TouchEvent`.
pub trait TouchEventTrait<H>: Sized {
    /// This event as a general `TouchEvent`.
    spec fn touch_event(self) -> TouchEvent<H>;

    /// Convert into a general `TouchEvent` again
    fn into_touch_event(self) -> (r: TouchEvent<H>)
        ensures
            r == self.touch_event(),
    ;
}

impl<H> TouchEventTrait<H> for TouchEvent<H> {
    open spec fn touch_event(self) -> TouchEvent<H> {
        self
    }

    fn into_touch_event(self) -> (r: TouchEvent<H>) {
        self
    }
}

impl<H> TouchEventTrait<H> for TouchDownEvent<H> {
    open spec fn touch_event(self) -> TouchEvent<H> {
        TouchEvent::Down(self)
    }

    fn into_touch_event(self) -> (r: TouchEvent<H>) {
        TouchEvent::Down(self)
    }
}

impl<H> TouchEventTrait<H> for TouchUpEvent<H> {
    open spec fn touch_event(self) -> TouchEvent<H> {
        TouchEvent::Up(self)
    }

    fn into_touch_event(self) -> (r: TouchEvent<H>) {
        TouchEvent::Up(self)
    }
}

impl<H> TouchEventTrait<H> for TouchMotionEvent<H> {
    open spec fn touch_event(self) -> TouchEvent<H> {
        TouchEvent::Motion(self)
    }

    fn into_touch_event(self) -> (r: TouchEvent<H>) {
        TouchEvent::Motion(self)
    }
}

impl<H> TouchEventTrait<H> for TouchCancelEvent<H> {
    open spec fn touch_event(self) -> TouchEvent<H> {
        TouchEvent::Cancel(self)
    }

    fn into_touch_event(self) -> (r: TouchEvent<H>) {
        TouchEvent::Cancel(self)
    }
}

impl<H> TouchEventTrait<H> for TouchFrameEvent<H> {
    open spec fn touch_event(self) -> TouchEvent<H> {
        TouchEvent::Frame(self)
    }

    fn into_touch_event(self) -> (r: TouchEvent<H>) {
        TouchEvent::Frame(self)
    }
}

impl<H> EventTrait<H> for TouchEvent<H> {
    open spec fn event(self) -> Event<H> {
        Event::Touch(self)
    }

    fn into_event(self) -> (r: Event<H>) {
        Event::Touch(self)
    }
}

impl<H> EventTrait<H> for TouchDownEvent<H> {
    open spec fn event(self) -> Event<H> {
        Event::Touch(TouchEvent::Down(self))
    }

    fn into_event(self) -> (r: Event<H>) {
        Event::Touch(TouchEvent::Down(self))
    }
}

impl<H> EventTrait<H> for TouchUpEvent<H> {
    open spec fn event(self) -> Event<H> {
        Event::Touch(TouchEvent::Up(self))
    }

    fn into_event(self) -> (r: Event<H>) {
        Event::Touch(TouchEvent::Up(self))
    }
}

impl<H> EventTrait<H> for TouchMotionEvent<H> {
    open spec fn event(self) -> Event<H> {
        Event::Touch(TouchEvent::Motion(self))
    }

    fn into_event(self) -> (r: Event<H>) {
        Event::Touch(TouchEvent::Motion(self))
    }
}

impl<H> EventTrait<H> for TouchCancelEvent<H> {
    open spec fn event(self) -> Event<H> {
        Event::Touch(TouchEvent::Cancel(self))
    }

    fn into_event(self) -> (r: Event<H>) {
        Event::Touch(TouchEvent::Cancel(self))
    }
}

impl<H> EventTrait<H> for TouchFrameEvent<H> {
    open spec fn event(self) -> Event<H> {
        Event::Touch(TouchEvent::Frame(self))
    }

    fn into_event(self) -> (r: Event<H>) {
        Event::Touch(TouchEvent::Frame(self))
    }
}

/// The number by which libinput names the slot of a touch event: the slot
/// itself, or `-1` where the device is a single-touch device and has none.
pub open spec fn slot_raw(slot: Option<u32>) -> int {
    match slot {
        Some(index) => index as int,
        None => -1,
    }
}

/// Reads the slot of a touch event. `-1` says that the device has no slots:
/// the answer is `Some(None)`. `None` stands for a number below `-1`, which
/// names nothing.
pub fn slot_from_raw(code: i32) -> (r: Option<Option<u32>>)
    ensures
        r is Some <==> code >= -1,
        r matches Some(slot) ==> slot_raw(slot) == code,
{
    if code >= 0 {
        Some(Some(code as u32))
    } else if code == -1 {
        Some(None)
    } else {
        None
    }
}

} // verus!
