//! Pointer event types

use vstd::prelude::*;
use super::{
    Event,
    EventTrait,
    LIBINPUT_EVENT_POINTER_AXIS,
    LIBINPUT_EVENT_POINTER_BUTTON,
    LIBINPUT_EVENT_POINTER_MOTION,
    LIBINPUT_EVENT_POINTER_MOTION_ABSOLUTE,
    LIBINPUT_EVENT_POINTER_SCROLL_CONTINUOUS,
    LIBINPUT_EVENT_POINTER_SCROLL_FINGER,
    LIBINPUT_EVENT_POINTER_SCROLL_WHEEL,
};

verus! {

/// `LIBINPUT_BUTTON_STATE_PRESSED`
pub const LIBINPUT_BUTTON_STATE_PRESSED: u32 = 1;
/// `LIBINPUT_BUTTON_STATE_RELEASED`
pub const LIBINPUT_BUTTON_STATE_RELEASED: u32 = 0;

/// State of a Button
#[derive(Debug, Clone, Copy, PartialEq, Eq, Hash)]
pub enum ButtonState {
    /// Button is pressed
    Pressed,
    /// Button is released
    Released,
}

impl ButtonState {
    /// The `libinput_button_state` that stands for this value.
    pub open spec fn raw(self) -> u32 {
        match self {
            ButtonState::Pressed => LIBINPUT_BUTTON_STATE_PRESSED,
            ButtonState::Released => LIBINPUT_BUTTON_STATE_RELEASED,
        }
    }

    /// No two values share a number.
    pub proof fn lemma_raw_injective(a: ButtonState, b: ButtonState)
        requires
            a.raw() == b.raw(),
        ensures
            a == b,
    {
    }

    /// The inverse of `raw`: the value that the number `code` stands for, or
    /// `None` where the enumeration holds no such number.
    pub open spec fn of_raw(code: u32) -> Option<ButtonState> {
        if code == LIBINPUT_BUTTON_STATE_PRESSED {
            Some(ButtonState::Pressed)
        } else if code == LIBINPUT_BUTTON_STATE_RELEASED {
            Some(ButtonState::Released)
        } else {
            None
        }
    }

    /// `of_raw` is the inverse of `raw`: it finds the value of a number
    /// wherever there is one, and each value from its own number.
    pub proof fn lemma_of_raw(code: u32, value: ButtonState)
        ensures
            Self::of_raw(code) == Some(value) <==> value.raw() == code,
            Self::of_raw(code) is None <==> forall|other: ButtonState|
                #[trigger] other.raw() != code,
    {
        if let Some(found) = Self::of_raw(code) {
            assert(found.raw() == code);
        }
    }

    /// Reads a `libinput_button_state`: the value whose `raw` is
    /// `code`, or `None` where no value has that number.
    pub fn from_raw(code: u32) -> (r: Option<ButtonState>)
        ensures
            r == Self::of_raw(code),
            r matches Some(value) ==> value.raw() == code,
            r is None ==> forall|value: ButtonState| #[trigger] value.raw() != code,
    {
        if code == LIBINPUT_BUTTON_STATE_PRESSED {
            Some(ButtonState::Pressed)
        } else if code == LIBINPUT_BUTTON_STATE_RELEASED {
            Some(ButtonState::Released)
        } else {
            None
        }
    }
}

/// `LIBINPUT_POINTER_AXIS_SOURCE_WHEEL`
pub const LIBINPUT_POINTER_AXIS_SOURCE_WHEEL: u32 = 1;
/// `LIBINPUT_POINTER_AXIS_SOURCE_FINGER`
pub const LIBINPUT_POINTER_AXIS_SOURCE_FINGER: u32 = 2;
/// `LIBINPUT_POINTER_AXIS_SOURCE_CONTINUOUS`
pub const LIBINPUT_POINTER_AXIS_SOURCE_CONTINUOUS: u32 = 3;
/// `LIBINPUT_POINTER_AXIS_SOURCE_WHEEL_TILT`
pub const LIBINPUT_POINTER_AXIS_SOURCE_WHEEL_TILT: u32 = 4;

/// The source for a `PointerAxisEvent`.
#[derive(Debug, Clone, Copy, PartialEq, Eq, Hash)]
pub enum AxisSource {
    /// The event is caused by the rotation of a wheel.
    Wheel,
    /// The event is caused by the movement of one or more fingers on a device.
    Finger,
    /// The event is caused by the motion of some device.
    Continuous,
    /// The event is caused by the tilting of a mouse wheel rather than its rotation.
    WheelTilt,
}

impl AxisSource {
    /// The `libinput_pointer_axis_source` that stands for this value.
    pub open spec fn raw(self) -> u32 {
        match self {
            AxisSource::Wheel => LIBINPUT_POINTER_AXIS_SOURCE_WHEEL,
            AxisSource::Finger => LIBINPUT_POINTER_AXIS_SOURCE_FINGER,
            AxisSource::Continuous => LIBINPUT_POINTER_AXIS_SOURCE_CONTINUOUS,
            AxisSource::WheelTilt => LIBINPUT_POINTER_AXIS_SOURCE_WHEEL_TILT,
        }
    }

    /// No two values share a number.
    pub proof fn lemma_raw_injective(a: AxisSource, b: AxisSource)
        requires
            a.raw() == b.raw(),
        ensures
            a == b,
    {
    }

    /// The inverse of `raw`: the value that the number `code` stands for, or
    /// `None` where the enumeration holds no such number.
    pub open spec fn of_raw(code: u32) -> Option<AxisSource> {
        if code == LIBINPUT_POINTER_AXIS_SOURCE_WHEEL {
            Some(AxisSource::Wheel)
        } else if code == LIBINPUT_POINTER_AXIS_SOURCE_FINGER {
            Some(AxisSource::Finger)
        } else if code == LIBINPUT_POINTER_AXIS_SOURCE_CONTINUOUS {
            Some(AxisSource::Continuous)
        } else if code == LIBINPUT_POINTER_AXIS_SOURCE_WHEEL_TILT {
            Some(AxisSource::WheelTilt)
        } else {
            None
        }
    }

    /// `of_raw` is the inverse of `raw`: it finds the value of a number
    /// wherever there is one, and each value from its own number.
    pub proof fn lemma_of_raw(code: u32, value: AxisSource)
        ensures
            Self::of_raw(code) == Some(value) <==> value.raw() == code,
            Self::of_raw(code) is None <==> forall|other: AxisSource|
                #[trigger] other.raw() != code,
    {
        if let Some(found) = Self::of_raw(code) {
            assert(found.raw() == code);
        }
    }

    /// Reads a `libinput_pointer_axis_source`: the value whose `raw` is
    /// `code`, or `None` where no value has that number.
    pub fn from_raw(code: u32) -> (r: Option<AxisSource>)
        ensures
            r == Self::of_raw(code),
            r matches Some(value) ==> value.raw() == code,
            r is None ==> forall|value: AxisSource| #[trigger] value.raw() != code,
    {
        if code == LIBINPUT_POINTER_AXIS_SOURCE_WHEEL {
            Some(AxisSource::Wheel)
        } else if code == LIBINPUT_POINTER_AXIS_SOURCE_FINGER {
            Some(AxisSource::Finger)
        } else if code == LIBINPUT_POINTER_AXIS_SOURCE_CONTINUOUS {
            Some(AxisSource::Continuous)
        } else if code == LIBINPUT_POINTER_AXIS_SOURCE_WHEEL_TILT {
            Some(AxisSource::WheelTilt)
        } else {
            None
        }
    }

    /// Whether an axis event from this source counts in discrete steps. A
    /// wheel does, by clicks, and so does a tilted wheel; a finger or a
    /// continuous motion has no steps to count.
    pub fn has_discrete_steps(self) -> (r: bool)
        ensures
            r <==> self is Wheel || self is WheelTilt,
    {
        match self {
            AxisSource::Continuous | AxisSource::Finger => false,
            _ => true,
        }
    }
}

/// `LIBINPUT_POINTER_AXIS_SCROLL_VERTICAL`
pub const LIBINPUT_POINTER_AXIS_SCROLL_VERTICAL: u32 = 0;
/// `LIBINPUT_POINTER_AXIS_SCROLL_HORIZONTAL`
pub const LIBINPUT_POINTER_AXIS_SCROLL_HORIZONTAL: u32 = 1;

/// Axes on a device that are not x or y coordinates.
#[derive(Debug, Clone, Copy, PartialEq, Eq, Hash)]
pub enum Axis {
    /// Vertical axis
    Vertical,
    /// Horizontal axis
    Horizontal,
}

impl Axis {
    /// The `libinput_pointer_axis` that stands for this value.
    pub open spec fn raw(self) -> u32 {
        match self {
            Axis::Vertical => LIBINPUT_POINTER_AXIS_SCROLL_VERTICAL,
            Axis::Horizontal => LIBINPUT_POINTER_AXIS_SCROLL_HORIZONTAL,
        }
    }

    /// No two values share a number.
    pub proof fn lemma_raw_injective(a: Axis, b: Axis)
        requires
            a.raw() == b.raw(),
        ensures
            a == b,
    {
    }

    /// Writes this value as a `libinput_pointer_axis`.
    pub fn to_raw(self) -> (r: u32)
        ensures
            r == self.raw(),
    {
        match self {
            Axis::Vertical => LIBINPUT_POINTER_AXIS_SCROLL_VERTICAL,
            Axis::Horizontal => LIBINPUT_POINTER_AXIS_SCROLL_HORIZONTAL,
        }
    }
}

/// An event related to relative pointer movement
#[derive(Debug, PartialEq, Eq, Hash)]
pub struct PointerMotionEvent<H> {
    handle: H,
}

impl<H> PointerMotionEvent<H> {
    /// Whether `event_type` is the type of this event.
    pub open spec fn accepts(event_type: u32) -> bool {
        event_type == LIBINPUT_EVENT_POINTER_MOTION
    }

    /// The handle this event was built around.
    pub closed spec fn handle(self) -> H {
        self.handle
    }

    /// The handle says all there is to say of this event: two that agree
    /// in it are the same event.
    pub proof fn lemma_determined(a: Self, b: Self)
        requires
            a.handle() == b.handle(),
        ensures
            a == b,
    {
    }

    /// Builds the event around `handle`, where `event_type` is its type:
    /// `Some` exactly for that type.
    pub fn try_from_raw(event_type: u32, handle: H) -> (r: Option<Self>)
        ensures
            r is Some <==> Self::accepts(event_type),
            r matches Some(event) ==> event.handle() == handle,
    {
        if event_type == LIBINPUT_EVENT_POINTER_MOTION {
            Some(PointerMotionEvent { handle })
        } else {
            None
        }
    }

    /// Builds the event around `handle`, for a type that is known to be
    /// its own.
    pub fn from_raw(event_type: u32, handle: H) -> (r: Self)
        requires
            Self::accepts(event_type),
        ensures
            r.handle() == handle,
    {
        PointerMotionEvent { handle }
    }

    /// The `libinput_event_type` of this event.
    pub fn event_type(&self) -> (r: u32)
        ensures
            Self::accepts(r),
    {
        LIBINPUT_EVENT_POINTER_MOTION
    }

    /// Borrows the handle.
    pub fn as_handle(&self) -> (r: &H)
        ensures
            *r == self.handle(),
    {
        &self.handle
    }

    /// Gives the handle back.
    pub fn into_handle(self) -> (r: H)
        ensures
            r == self.handle(),
    {
        self.handle
    }
}

/// An event related to absolute pointer movement
#[derive(Debug, PartialEq, Eq, Hash)]
pub struct PointerMotionAbsoluteEvent<H> {
    handle: H,
}

impl<H> PointerMotionAbsoluteEvent<H> {
    /// Whether `event_type` is the type of this event.
    pub open spec fn accepts(event_type: u32) -> bool {
        event_type == LIBINPUT_EVENT_POINTER_MOTION_ABSOLUTE
    }

    /// The handle this event was built around.
    pub closed spec fn handle(self) -> H {
        self.handle
    }

    /// The handle says all there is to say of this event: two that agree
    /// in it are the same event.
    pub proof fn lemma_determined(a: Self, b: Self)
        requires
            a.handle() == b.handle(),
        ensures
            a == b,
    {
    }

    /// Builds the event around `handle`, where `event_type` is its type:
    /// `Some` exactly for that type.
    pub fn try_from_raw(event_type: u32, handle: H) -> (r: Option<Self>)
        ensures
            r is Some <==> Self::accepts(event_type),
            r matches Some(event) ==> event.handle() == handle,
    {
        if event_type == LIBINPUT_EVENT_POINTER_MOTION_ABSOLUTE {
            Some(PointerMotionAbsoluteEvent { handle })
        } else {
            None
        }
    }

    /// Builds the event around `handle`, for a type that is known to be
    /// its own.
    pub fn from_raw(event_type: u32, handle: H) -> (r: Self)
        requires
            Self::accepts(event_type),
        ensures
            r.handle() == handle,
    {
        PointerMotionAbsoluteEvent { handle }
    }

    /// The `libinput_event_type` of this event.
    pub fn event_type(&self) -> (r: u32)
        ensures
            Self::accepts(r),
    {
        LIBINPUT_EVENT_POINTER_MOTION_ABSOLUTE
    }

    /// Borrows the handle.
    pub fn as_handle(&self) -> (r: &H)
        ensures
            *r == self.handle(),
    {
        &self.handle
    }

    /// Gives the handle back.
    pub fn into_handle(self) -> (r: H)
        ensures
            r == self.handle(),
    {
        self.handle
    }
}

/// An event related to button pressed on a pointer device
#[derive(Debug, PartialEq, Eq, Hash)]
pub struct PointerButtonEvent<H> {
    handle: H,
}

impl<H> PointerButtonEvent<H> {
    /// Whether `event_type` is the type of this event.
    pub open spec fn accepts(event_type: u32) -> bool {
        event_type == LIBINPUT_EVENT_POINTER_BUTTON
    }

    /// The handle this event was built around.
    pub closed spec fn handle(self) -> H {
        self.handle
    }

    /// The handle says all there is to say of this event: two that agree
    /// in it are the same event.
    pub proof fn lemma_determined(a: Self, b: Self)
        requires
            a.handle() == b.handle(),
        ensures
            a == b,
    {
    }

    /// Builds the event around `handle`, where `event_type` is its type:
    /// `Some` exactly for that type.
    pub fn try_from_raw(event_type: u32, handle: H) -> (r: Option<Self>)
        ensures
            r is Some <==> Self::accepts(event_type),
            r matches Some(event) ==> event.handle() == handle,
    {
        if event_type == LIBINPUT_EVENT_POINTER_BUTTON {
            Some(PointerButtonEvent { handle })
        } else {
            None
        }
    }

    /// Builds the event around `handle`, for a type that is known to be
    /// its own.
    pub fn from_raw(event_type: u32, handle: H) -> (r: Self)
        requires
            Self::accepts(event_type),
        ensures
            r.handle() == handle,
    {
        PointerButtonEvent { handle }
    }

    /// The `libinput_event_type` of this event.
    pub fn event_type(&self) -> (r: u32)
        ensures
            Self::accepts(r),
    {
        LIBINPUT_EVENT_POINTER_BUTTON
    }

    /// Borrows the handle.
    pub fn as_handle(&self) -> (r: &H)
        ensures
            *r == self.handle(),
    {
        &self.handle
    }

    /// Gives the handle back.
    pub fn into_handle(self) -> (r: H)
        ensures
            r == self.handle(),
    {
        self.handle
    }
}

/// An event related to moving axis on a pointer device
#[derive(Debug, PartialEq, Eq, Hash)]
pub struct PointerAxisEvent<H> {
    handle: H,
}

impl<H> PointerAxisEvent<H> {
    /// Whether `event_type` is the type of this event.
    pub open spec fn accepts(event_type: u32) -> bool {
        event_type == LIBINPUT_EVENT_POINTER_AXIS
    }

    /// The handle this event was built around.
    pub closed spec fn handle(self) -> H {
        self.handle
    }

    /// The handle says all there is to say of this event: two that agree
    /// in it are the same event.
    pub proof fn lemma_determined(a: Self, b: Self)
        requires
            a.handle() == b.handle(),
        ensures
            a == b,
    {
    }

    /// Builds the event around `handle`, where `event_type` is its type:
    /// `Some` exactly for that type.
    pub fn try_from_raw(event_type: u32, handle: H) -> (r: Option<Self>)
        ensures
            r is Some <==> Self::accepts(event_type),
            r matches Some(event) ==> event.handle() == handle,
    {
        if event_type == LIBINPUT_EVENT_POINTER_AXIS {
            Some(PointerAxisEvent { handle })
        } else {
            None
        }
    }

    /// Builds the event around `handle`, for a type that is known to be
    /// its own.
    pub fn from_raw(event_type: u32, handle: H) -> (r: Self)
        requires
            Self::accepts(event_type),
        ensures
            r.handle() == handle,
    {
        PointerAxisEvent { handle }
    }

    /// The `libinput_event_type` of this event.
    pub fn event_type(&self) -> (r: u32)
        ensures
            Self::accepts(r),
    {
        LIBINPUT_EVENT_POINTER_AXIS
    }

    /// Borrows the handle.
    pub fn as_handle(&self) -> (r: &H)
        ensures
            *r == self.handle(),
    {
        &self.handle
    }

    /// Gives the handle back.
    pub fn into_handle(self) -> (r: H)
        ensures
            r == self.handle(),
    {
        self.handle
    }
}

/// A scroll event from a wheel.
#[derive(Debug, PartialEq, Eq, Hash)]
pub struct PointerScrollWheelEvent<H> {
    handle: H,
}

impl<H> PointerScrollWheelEvent<H> {
    /// Whether `event_type` is the type of this event.
    pub open spec fn accepts(event_type: u32) -> bool {
        event_type == LIBINPUT_EVENT_POINTER_SCROLL_WHEEL
    }

    /// The handle this event was built around.
    pub closed spec fn handle(self) -> H {
        self.handle
    }

    /// The handle says all there is to say of this event: two that agree
    /// in it are the same event.
    pub proof fn lemma_determined(a: Self, b: Self)
        requires
            a.handle() == b.handle(),
        ensures
            a == b,
    {
    }

    /// Builds the event around `handle`, where `event_type` is its type:
    /// `Some` exactly for that type.
    pub fn try_from_raw(event_type: u32, handle: H) -> (r: Option<Self>)
        ensures
            r is Some <==> Self::accepts(event_type),
            r matches Some(event) ==> event.handle() == handle,
    {
        if event_type == LIBINPUT_EVENT_POINTER_SCROLL_WHEEL {
            Some(PointerScrollWheelEvent { handle })
        } else {
            None
        }
    }

    /// Builds the event around `handle`, for a type that is known to be
    /// its own.
    pub fn from_raw(event_type: u32, handle: H) -> (r: Self)
        requires
            Self::accepts(event_type),
        ensures
            r.handle() == handle,
    {
        PointerScrollWheelEvent { handle }
    }

    /// The `libinput_event_type` of this event.
    pub fn event_type(&self) -> (r: u32)
        ensures
            Self::accepts(r),
    {
        LIBINPUT_EVENT_POINTER_SCROLL_WHEEL
    }

    /// Borrows the handle.
    pub fn as_handle(&self) -> (r: &H)
        ensures
            *r == self.handle(),
    {
        &self.handle
    }

    /// Gives the handle back.
    pub fn into_handle(self) -> (r: H)
        ensures
            r == self.handle(),
    {
        self.handle
    }
}

/// A scroll event caused by the movement of one or more fingers on a device.
#[derive(Debug, PartialEq, Eq, Hash)]
pub struct PointerScrollFingerEvent<H> {
    handle: H,
}

impl<H> PointerScrollFingerEvent<H> {
    /// Whether `event_type` is the type of this event.
    pub open spec fn accepts(event_type: u32) -> bool {
        event_type == LIBINPUT_EVENT_POINTER_SCROLL_FINGER
    }

    /// The handle this event was built around.
    pub closed spec fn handle(self) -> H {
        self.handle
    }

    /// The handle says all there is to say of this event: two that agree
    /// in it are the same event.
    pub proof fn lemma_determined(a: Self, b: Self)
        requires
            a.handle() == b.handle(),
        ensures
            a == b,
    {
    }

    /// Builds the event around `handle`, where `event_type` is its type:
    /// `Some` exactly for that type.
    pub fn try_from_raw(event_type: u32, handle: H) -> (r: Option<Self>)
        ensures
            r is Some <==> Self::accepts(event_type),
            r matches Some(event) ==> event.handle() == handle,
    {
        if event_type == LIBINPUT_EVENT_POINTER_SCROLL_FINGER {
            Some(PointerScrollFingerEvent { handle })
        } else {
            None
        }
    }

    /// Builds the event around `handle`, for a type that is known to be
    /// its own.
    pub fn from_raw(event_type: u32, handle: H) -> (r: Self)
        requires
            Self::accepts(event_type),
        ensures
            r.handle() == handle,
    {
        PointerScrollFingerEvent { handle }
    }

    /// The `libinput_event_type` of this event.
    pub fn event_type(&self) -> (r: u32)
        ensures
            Self::accepts(r),
    {
        LIBINPUT_EVENT_POINTER_SCROLL_FINGER
    }

    /// Borrows the handle.
    pub fn as_handle(&self) -> (r: &H)
        ensures
            *r == self.handle(),
    {
        &self.handle
    }

    /// Gives the handle back.
    pub fn into_handle(self) -> (r: H)
        ensures
            r == self.handle(),
    {
        self.handle
    }
}

/// A scroll event from a continuous scroll source, e.g. button scrolling.
#[derive(Debug, PartialEq, Eq, Hash)]
pub struct PointerScrollContinuousEvent<H> {
    handle: H,
}

impl<H> PointerScrollContinuousEvent<H> {
    /// Whether `event_type` is the type of this event.
    pub open spec fn accepts(event_type: u32) -> bool {
        event_type == LIBINPUT_EVENT_POINTER_SCROLL_CONTINUOUS
    }

    /// The handle this event was built around.
    pub closed spec fn handle(self) -> H {
        self.handle
    }

    /// The handle says all there is to say of this event: two that agree
    /// in it are the same event.
    pub proof fn lemma_determined(a: Self, b: Self)
        requires
            a.handle() == b.handle(),
        ensures
            a == b,
    {
    }

    /// Builds the event around `handle`, where `event_type` is its type:
    /// `Some` exactly for that type.
    pub fn try_from_raw(event_type: u32, handle: H) -> (r: Option<Self>)
        ensures
            r is Some <==> Self::accepts(event_type),
            r matches Some(event) ==> event.handle() == handle,
    {
        if event_type == LIBINPUT_EVENT_POINTER_SCROLL_CONTINUOUS {
            Some(PointerScrollContinuousEvent { handle })
        } else {
            None
        }
    }

    /// Builds the event around `handle`, for a type that is known to be
    /// its own.
    pub fn from_raw(event_type: u32, handle: H) -> (r: Self)
        requires
            Self::accepts(event_type),
        ensures
            r.handle() == handle,
    {
        PointerScrollContinuousEvent { handle }
    }

    /// The `libinput_event_type` of this event.
    pub fn event_type(&self) -> (r: u32)
        ensures
            Self::accepts(r),
    {
        LIBINPUT_EVENT_POINTER_SCROLL_CONTINUOUS
    }

    /// Borrows the handle.
    pub fn as_handle(&self) -> (r: &H)
        ensures
            *r == self.handle(),
    {
        &self.handle
    }

    /// Gives the handle back.
    pub fn into_handle(self) -> (r: H)
        ensures
            r == self.handle(),
    {
        self.handle
    }
}

/// A pointer related `Event`
#[derive(Debug, PartialEq, Eq, Hash)]
pub enum PointerEvent<H> {
    /// An event related to relative pointer movement
    Motion(PointerMotionEvent<H>),
    /// An event related to absolute pointer movement
    MotionAbsolute(PointerMotionAbsoluteEvent<H>),
    /// An event related to button pressed on a pointer device
    Button(PointerButtonEvent<H>),
    /// An event related to moving axis on a pointer device
    Axis(PointerAxisEvent<H>),
    /// A scroll event from a wheel.
    ScrollWheel(PointerScrollWheelEvent<H>),
    /// A scroll event caused by the movement of one or more fingers on a device.
    ScrollFinger(PointerScrollFingerEvent<H>),
    /// A scroll event from a continuous scroll source, e.g. button scrolling.
    ScrollContinuous(PointerScrollContinuousEvent<H>),
}

impl<H> PointerEvent<H> {
    /// Whether `event_type` is the type of a pointer event.
    pub open spec fn accepts(event_type: u32) -> bool {
        ||| event_type == LIBINPUT_EVENT_POINTER_MOTION
        ||| event_type == LIBINPUT_EVENT_POINTER_MOTION_ABSOLUTE
        ||| event_type == LIBINPUT_EVENT_POINTER_BUTTON
        ||| event_type == LIBINPUT_EVENT_POINTER_AXIS
        ||| event_type == LIBINPUT_EVENT_POINTER_SCROLL_WHEEL
        ||| event_type == LIBINPUT_EVENT_POINTER_SCROLL_FINGER
        ||| event_type == LIBINPUT_EVENT_POINTER_SCROLL_CONTINUOUS
    }

    /// The `libinput_event_type` of this event.
    pub open spec fn code(self) -> u32 {
        match self {
            PointerEvent::Motion(_) => LIBINPUT_EVENT_POINTER_MOTION,
            PointerEvent::MotionAbsolute(_) => LIBINPUT_EVENT_POINTER_MOTION_ABSOLUTE,
            PointerEvent::Button(_) => LIBINPUT_EVENT_POINTER_BUTTON,
            PointerEvent::Axis(_) => LIBINPUT_EVENT_POINTER_AXIS,
            PointerEvent::ScrollWheel(_) => LIBINPUT_EVENT_POINTER_SCROLL_WHEEL,
            PointerEvent::ScrollFinger(_) => LIBINPUT_EVENT_POINTER_SCROLL_FINGER,
            PointerEvent::ScrollContinuous(_) => LIBINPUT_EVENT_POINTER_SCROLL_CONTINUOUS,
        }
    }

    /// The handle this event was built around.
    pub open spec fn handle(self) -> H {
        match self {
            PointerEvent::Motion(event) => event.handle(),
            PointerEvent::MotionAbsolute(event) => event.handle(),
            PointerEvent::Button(event) => event.handle(),
            PointerEvent::Axis(event) => event.handle(),
            PointerEvent::ScrollWheel(event) => event.handle(),
            PointerEvent::ScrollFinger(event) => event.handle(),
            PointerEvent::ScrollContinuous(event) => event.handle(),
        }
    }

    /// Type and handle say all there is to say of an event: two events that
    /// agree in both are the same event.
    pub proof fn lemma_determined(a: Self, b: Self)
        requires
            a.code() == b.code(),
            a.handle() == b.handle(),
        ensures
            a == b,
    {
    }

    /// Tells whether `event_type` is the type of a pointer event.
    pub fn has_type(event_type: u32) -> (r: bool)
        ensures
            r == Self::accepts(event_type),
    {
        event_type == LIBINPUT_EVENT_POINTER_MOTION
            || event_type == LIBINPUT_EVENT_POINTER_MOTION_ABSOLUTE
            || event_type == LIBINPUT_EVENT_POINTER_BUTTON
            || event_type == LIBINPUT_EVENT_POINTER_AXIS
            || event_type == LIBINPUT_EVENT_POINTER_SCROLL_WHEEL
            || event_type == LIBINPUT_EVENT_POINTER_SCROLL_FINGER
            || event_type == LIBINPUT_EVENT_POINTER_SCROLL_CONTINUOUS
    }

    /// Sorts an event by its type: `Some` exactly for the types of a pointer
    /// event, holding the variant of that type around `handle`.
    pub fn try_from_raw(event_type: u32, handle: H) -> (r: Option<Self>)
        ensures
            r is Some <==> Self::accepts(event_type),
            r matches Some(event) ==> event.code() == event_type && event.handle() == handle,
    {
        if Self::has_type(event_type) {
            Some(Self::from_raw(event_type, handle))
        } else {
            None
        }
    }

    /// Sorts an event that is known to be a pointer event.
    pub fn from_raw(event_type: u32, handle: H) -> (r: Self)
        requires
            Self::accepts(event_type),
        ensures
            r.code() == event_type,
            r.handle() == handle,
    {
        if event_type == LIBINPUT_EVENT_POINTER_MOTION {
            PointerEvent::Motion(PointerMotionEvent::from_raw(event_type, handle))
        } else if event_type == LIBINPUT_EVENT_POINTER_MOTION_ABSOLUTE {
            PointerEvent::MotionAbsolute(PointerMotionAbsoluteEvent::from_raw(event_type, handle))
        } else if event_type == LIBINPUT_EVENT_POINTER_BUTTON {
            PointerEvent::Button(PointerButtonEvent::from_raw(event_type, handle))
        } else if event_type == LIBINPUT_EVENT_POINTER_AXIS {
            PointerEvent::Axis(PointerAxisEvent::from_raw(event_type, handle))
        } else if event_type == LIBINPUT_EVENT_POINTER_SCROLL_WHEEL {
            PointerEvent::ScrollWheel(PointerScrollWheelEvent::from_raw(event_type, handle))
        } else if event_type == LIBINPUT_EVENT_POINTER_SCROLL_FINGER {
            PointerEvent::ScrollFinger(PointerScrollFingerEvent::from_raw(event_type, handle))
        } else {
            PointerEvent::ScrollContinuous(
                PointerScrollContinuousEvent::from_raw(event_type, handle),
            )
        }
    }

    /// The `libinput_event_type` of this event.
    pub fn event_type(&self) -> (r: u32)
        ensures
            r == self.code(),
            Self::accepts(r),
    {
        match self {
            PointerEvent::Motion(_) => LIBINPUT_EVENT_POINTER_MOTION,
            PointerEvent::MotionAbsolute(_) => LIBINPUT_EVENT_POINTER_MOTION_ABSOLUTE,
            PointerEvent::Button(_) => LIBINPUT_EVENT_POINTER_BUTTON,
            PointerEvent::Axis(_) => LIBINPUT_EVENT_POINTER_AXIS,
            PointerEvent::ScrollWheel(_) => LIBINPUT_EVENT_POINTER_SCROLL_WHEEL,
            PointerEvent::ScrollFinger(_) => LIBINPUT_EVENT_POINTER_SCROLL_FINGER,
            PointerEvent::ScrollContinuous(_) => LIBINPUT_EVENT_POINTER_SCROLL_CONTINUOUS,
        }
    }

    /// Borrows the handle.
    pub fn as_handle(&self) -> (r: &H)
        ensures
            *r == self.handle(),
    {
        match self {
            PointerEvent::Motion(event) => event.as_handle(),
            PointerEvent::MotionAbsolute(event) => event.as_handle(),
            PointerEvent::Button(event) => event.as_handle(),
            PointerEvent::Axis(event) => event.as_handle(),
            PointerEvent::ScrollWheel(event) => event.as_handle(),
            PointerEvent::ScrollFinger(event) => event.as_handle(),
            PointerEvent::ScrollContinuous(event) => event.as_handle(),
        }
    }

    /// Gives the handle back.
    pub fn into_handle(self) -> (r: H)
        ensures
            r == self.handle(),
    {
        match self {
            PointerEvent::Motion(event) => event.into_handle(),
            PointerEvent::MotionAbsolute(event) => event.into_handle(),
            PointerEvent::Button(event) => event.into_handle(),
            PointerEvent::Axis(event) => event.into_handle(),
            PointerEvent::ScrollWheel(event) => event.into_handle(),
            PointerEvent::ScrollFinger(event) => event.into_handle(),
            PointerEvent::ScrollContinuous(event) => event.into_handle(),
        }
    }
}

/// Common to all pointer events: each of them is a `PointerEvent`.
pub trait PointerEventTrait<H>: Sized {
    /// This event as a general `PointerEvent`.
    spec fn pointer_event(self) -> PointerEvent<H>;

    /// Convert into a general `PointerEvent` again
    fn into_pointer_event(self) -> (r: PointerEvent<H>)
        ensures
            r == self.pointer_event(),
    ;
}

impl<H> PointerEventTrait<H> for PointerEvent<H> {
    open spec fn pointer_event(self) -> PointerEvent<H> {
        self
    }

    fn into_pointer_event(self) -> (r: PointerEvent<H>) {
        self
    }
}

impl<H> PointerEventTrait<H> for PointerMotionEvent<H> {
    open spec fn pointer_event(self) -> PointerEvent<H> {
        PointerEvent::Motion(self)
    }

    fn into_pointer_event(self) -> (r: PointerEvent<H>) {
        PointerEvent::Motion(self)
    }
}

impl<H> PointerEventTrait<H> for PointerMotionAbsoluteEvent<H> {
    open spec fn pointer_event(self) -> PointerEvent<H> {
        PointerEvent::MotionAbsolute(self)
    }

    fn into_pointer_event(self) -> (r: PointerEvent<H>) {
        PointerEvent::MotionAbsolute(self)
    }
}

impl<H> PointerEventTrait<H> for PointerButtonEvent<H> {
    open spec fn pointer_event(self) -> PointerEvent<H> {
        PointerEvent::Button(self)
    }

    fn into_pointer_event(self) -> (r: PointerEvent<H>) {
        PointerEvent::Button(self)
    }
}

impl<H> PointerEventTrait<H> for PointerAxisEvent<H> {
    open spec fn pointer_event(self) -> PointerEvent<H> {
        PointerEvent::Axis(self)
    }

    fn into_pointer_event(self) -> (r: PointerEvent<H>) {
        PointerEvent::Axis(self)
    }
}

impl<H> PointerEventTrait<H> for PointerScrollWheelEvent<H> {
    open spec fn pointer_event(self) -> PointerEvent<H> {
        PointerEvent::ScrollWheel(self)
    }

    fn into_pointer_event(self) -> (r: PointerEvent<H>) {
        PointerEvent::ScrollWheel(self)
    }
}

impl<H> PointerEventTrait<H> for PointerScrollFingerEvent<H> {
    open spec fn pointer_event(self) -> PointerEvent<H> {
        PointerEvent::ScrollFinger(self)
    }

    fn into_pointer_event(self) -> (r: PointerEvent<H>) {
        PointerEvent::ScrollFinger(self)
    }
}

impl<H> PointerEventTrait<H> for PointerScrollContinuousEvent<H> {
    open spec fn pointer_event(self) -> PointerEvent<H> {
        PointerEvent::ScrollContinuous(self)
    }

    fn into_pointer_event(self) -> (r: PointerEvent<H>) {
        PointerEvent::ScrollContinuous(self)
    }
}

impl<H> EventTrait<H> for PointerEvent<H> {
    open spec fn event(self) -> Event<H> {
        Event::Pointer(self)
    }

    fn into_event(self) -> (r: Event<H>) {
        Event::Pointer(self)
    }
}

impl<H> EventTrait<H> for PointerMotionEvent<H> {
    open spec fn event(self) -> Event<H> {
        Event::Pointer(PointerEvent::Motion(self))
    }

    fn into_event(self) -> (r: Event<H>) {
        Event::Pointer(PointerEvent::Motion(self))
    }
}

impl<H> EventTrait<H> for PointerMotionAbsoluteEvent<H> {
    open spec fn event(self) -> Event<H> {
        Event::Pointer(PointerEvent::MotionAbsolute(self))
    }

    fn into_event(self) -> (r: Event<H>) {
        Event::Pointer(PointerEvent::MotionAbsolute(self))
    }
}

impl<H> EventTrait<H> for PointerButtonEvent<H> {
    open spec fn event(self) -> Event<H> {
        Event::Pointer(PointerEvent::Button(self))
    }

    fn into_event(self) -> (r: Event<H>) {
        Event::Pointer(PointerEvent::Button(self))
    }
}

impl<H> EventTrait<H> for PointerAxisEvent<H> {
    open spec fn event(self) -> Event<H> {
        Event::Pointer(PointerEvent::Axis(self))
    }

    fn into_event(self) -> (r: Event<H>) {
        Event::Pointer(PointerEvent::Axis(self))
    }
}

impl<H> EventTrait<H> for PointerScrollWheelEvent<H> {
    open spec fn event(self) -> Event<H> {
        Event::Pointer(PointerEvent::ScrollWheel(self))
    }

    fn into_event(self) -> (r: Event<H>) {
        Event::Pointer(PointerEvent::ScrollWheel(self))
    }
}

impl<H> EventTrait<H> for PointerScrollFingerEvent<H> {
    open spec fn event(self) -> Event<H> {
        Event::Pointer(PointerEvent::ScrollFinger(self))
    }

    fn into_event(self) -> (r: Event<H>) {
        Event::Pointer(PointerEvent::ScrollFinger(self))
    }
}

impl<H> EventTrait<H> for PointerScrollContinuousEvent<H> {
    open spec fn event(self) -> Event<H> {
        Event::Pointer(PointerEvent::ScrollContinuous(self))
    }

    fn into_event(self) -> (r: Event<H>) {
        Event::Pointer(PointerEvent::ScrollContinuous(self))
    }
}

} // verus!
