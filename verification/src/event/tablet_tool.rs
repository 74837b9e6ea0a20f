//! Tablet tool event types

use vstd::prelude::*;
use super::{
    Event,
    EventTrait,
    LIBINPUT_EVENT_TABLET_TOOL_AXIS,
    LIBINPUT_EVENT_TABLET_TOOL_BUTTON,
    LIBINPUT_EVENT_TABLET_TOOL_PROXIMITY,
    LIBINPUT_EVENT_TABLET_TOOL_TIP,
};

verus! {

/// `LIBINPUT_TABLET_TOOL_TYPE_PEN`
pub const LIBINPUT_TABLET_TOOL_TYPE_PEN: u32 = 1;
/// `LIBINPUT_TABLET_TOOL_TYPE_ERASER`
pub const LIBINPUT_TABLET_TOOL_TYPE_ERASER: u32 = 2;
/// `LIBINPUT_TABLET_TOOL_TYPE_BRUSH`
pub const LIBINPUT_TABLET_TOOL_TYPE_BRUSH: u32 = 3;
/// `LIBINPUT_TABLET_TOOL_TYPE_PENCIL`
pub const LIBINPUT_TABLET_TOOL_TYPE_PENCIL: u32 = 4;
/// `LIBINPUT_TABLET_TOOL_TYPE_AIRBRUSH`
pub const LIBINPUT_TABLET_TOOL_TYPE_AIRBRUSH: u32 = 5;
/// `LIBINPUT_TABLET_TOOL_TYPE_MOUSE`
pub const LIBINPUT_TABLET_TOOL_TYPE_MOUSE: u32 = 6;
/// `LIBINPUT_TABLET_TOOL_TYPE_LENS`
pub const LIBINPUT_TABLET_TOOL_TYPE_LENS: u32 = 7;

/// Available tool types for a device with the `DeviceCapability::TabletTool` capability.
#[derive(Debug, Clone, Copy, PartialEq, Eq, Hash)]
pub enum TabletToolType {
    /// A generic pen.
    Pen,
    /// Eraser.
    Eraser,
    /// A paintbrush-like tool.
    Brush,
    /// Physical drawing tool, e.g. Wacom Inking Pen
    Pencil,
    /// An airbrush-like tool.
    Airbrush,
    /// A mouse bound to the tablet.
    Mouse,
    /// A mouse tool with a lens.
    Lens,
}

impl TabletToolType {
    /// The `libinput_tablet_tool_type` that stands for this value.
    pub open spec fn raw(self) -> u32 {
        match self {
            TabletToolType::Pen => LIBINPUT_TABLET_TOOL_TYPE_PEN,
            TabletToolType::Eraser => LIBINPUT_TABLET_TOOL_TYPE_ERASER,
            TabletToolType::Brush => LIBINPUT_TABLET_TOOL_TYPE_BRUSH,
            TabletToolType::Pencil => LIBINPUT_TABLET_TOOL_TYPE_PENCIL,
            TabletToolType::Airbrush => LIBINPUT_TABLET_TOOL_TYPE_AIRBRUSH,
            TabletToolType::Mouse => LIBINPUT_TABLET_TOOL_TYPE_MOUSE,
            TabletToolType::Lens => LIBINPUT_TABLET_TOOL_TYPE_LENS,
        }
    }

    /// No two values share a number.
    pub proof fn lemma_raw_injective(a: TabletToolType, b: TabletToolType)
        requires
            a.raw() == b.raw(),
        ensures
            a == b,
    {
    }

    /// The inverse of `raw`: the value that the number `code` stands for, or
    /// `None` where the enumeration holds no such number.
    pub open spec fn of_raw(code: u32) -> Option<TabletToolType> {
        if code == LIBINPUT_TABLET_TOOL_TYPE_PEN {
            Some(TabletToolType::Pen)
        } else if code == LIBINPUT_TABLET_TOOL_TYPE_ERASER {
            Some(TabletToolType::Eraser)
        } else if code == LIBINPUT_TABLET_TOOL_TYPE_BRUSH {
            Some(TabletToolType::Brush)
        } else if code == LIBINPUT_TABLET_TOOL_TYPE_PENCIL {
            Some(TabletToolType::Pencil)
        } else if code == LIBINPUT_TABLET_TOOL_TYPE_AIRBRUSH {
            Some(TabletToolType::Airbrush)
        } else if code == LIBINPUT_TABLET_TOOL_TYPE_MOUSE {
            Some(TabletToolType::Mouse)
        } else if code == LIBINPUT_TABLET_TOOL_TYPE_LENS {
            Some(TabletToolType::Lens)
        } else {
            None
        }
    }

    /// `of_raw` is the inverse of `raw`: it finds the value of a number
    /// wherever there is one, and each value from its own number.
    pub proof fn lemma_of_raw(code: u32, value: TabletToolType)
        ensures
            Self::of_raw(code) == Some(value) <==> value.raw() == code,
            Self::of_raw(code) is None <==> forall|other: TabletToolType|
                #[trigger] other.raw() != code,
    {
        if let Some(found) = Self::of_raw(code) {
            assert(found.raw() == code);
        }
    }

    /// Reads a `libinput_tablet_tool_type`: the value whose `raw` is
    /// `code`, or `None` where no value has that number.
    pub fn from_raw(code: u32) -> (r: Option<TabletToolType>)
        ensures
            r == Self::of_raw(code),
            r matches Some(value) ==> value.raw() == code,
            r is None ==> forall|value: TabletToolType| #[trigger] value.raw() != code,
    {
        if code == LIBINPUT_TABLET_TOOL_TYPE_PEN {
            Some(TabletToolType::Pen)
        } else if code == LIBINPUT_TABLET_TOOL_TYPE_ERASER {
            Some(TabletToolType::Eraser)
        } else if code == LIBINPUT_TABLET_TOOL_TYPE_BRUSH {
            Some(TabletToolType::Brush)
        } else if code == LIBINPUT_TABLET_TOOL_TYPE_PENCIL {
            Some(TabletToolType::Pencil)
        } else if code == LIBINPUT_TABLET_TOOL_TYPE_AIRBRUSH {
            Some(TabletToolType::Airbrush)
        } else if code == LIBINPUT_TABLET_TOOL_TYPE_MOUSE {
            Some(TabletToolType::Mouse)
        } else if code == LIBINPUT_TABLET_TOOL_TYPE_LENS {
            Some(TabletToolType::Lens)
        } else {
            None
        }
    }
}

/// `LIBINPUT_TABLET_TOOL_PROXIMITY_STATE_OUT`
pub const LIBINPUT_TABLET_TOOL_PROXIMITY_STATE_OUT: u32 = 0;
/// `LIBINPUT_TABLET_TOOL_PROXIMITY_STATE_IN`
pub const LIBINPUT_TABLET_TOOL_PROXIMITY_STATE_IN: u32 = 1;

/// The state of proximity for a tool on a device.
#[derive(Debug, Clone, Copy, PartialEq, Eq, Hash)]
pub enum ProximityState {
    /// Out of proximity
    Out,
    /// In proximity
    In,
}

impl ProximityState {
    /// The `libinput_tablet_tool_proximity_state` that stands for this value.
    pub open spec fn raw(self) -> u32 {
        match self {
            ProximityState::Out => LIBINPUT_TABLET_TOOL_PROXIMITY_STATE_OUT,
            ProximityState::In => LIBINPUT_TABLET_TOOL_PROXIMITY_STATE_IN,
        }
    }

    /// No two values share a number.
    pub proof fn lemma_raw_injective(a: ProximityState, b: ProximityState)
        requires
            a.raw() == b.raw(),
        ensures
            a == b,
    {
    }

    /// The inverse of `raw`: the value that the number `code` stands for, or
    /// `None` where the enumeration holds no such number.
    pub open spec fn of_raw(code: u32) -> Option<ProximityState> {
        if code == LIBINPUT_TABLET_TOOL_PROXIMITY_STATE_OUT {
            Some(ProximityState::Out)
        } else if code == LIBINPUT_TABLET_TOOL_PROXIMITY_STATE_IN {
            Some(ProximityState::In)
        } else {
            None
        }
    }

    /// `of_raw` is the inverse of `raw`: it finds the value of a number
    /// wherever there is one, and each value from its own number.
    pub proof fn lemma_of_raw(code: u32, value: ProximityState)
        ensures
            Self::of_raw(code) == Some(value) <==> value.raw() == code,
            Self::of_raw(code) is None <==> forall|other: ProximityState|
                #[trigger] other.raw() != code,
    {
        if let Some(found) = Self::of_raw(code) {
            assert(found.raw() == code);
        }
    }

    /// Reads a `libinput_tablet_tool_proximity_state`: the value whose `raw` is
    /// `code`, or `None` where no value has that number.
    pub fn from_raw(code: u32) -> (r: Option<ProximityState>)
        ensures
            r == Self::of_raw(code),
            r matches Some(value) ==> value.raw() == code,
            r is None ==> forall|value: ProximityState| #[trigger] value.raw() != code,
    {
        if code == LIBINPUT_TABLET_TOOL_PROXIMITY_STATE_OUT {
            Some(ProximityState::Out)
        } else if code == LIBINPUT_TABLET_TOOL_PROXIMITY_STATE_IN {
            Some(ProximityState::In)
        } else {
            None
        }
    }
}

/// `LIBINPUT_TABLET_TOOL_TIP_UP`
pub const LIBINPUT_TABLET_TOOL_TIP_UP: u32 = 0;
/// `LIBINPUT_TABLET_TOOL_TIP_DOWN`
pub const LIBINPUT_TABLET_TOOL_TIP_DOWN: u32 = 1;

/// The tip contact state for a tool on a device.
#[derive(Debug, Clone, Copy, PartialEq, Eq, Hash)]
pub enum TipState {
    /// Not touching the surface
    Up,
    /// Touching the surface
    Down,
}

impl TipState {
    /// The `libinput_tablet_tool_tip_state` that stands for this value.
    pub open spec fn raw(self) -> u32 {
        match self {
            TipState::Up => LIBINPUT_TABLET_TOOL_TIP_UP,
            TipState::Down => LIBINPUT_TABLET_TOOL_TIP_DOWN,
        }
    }

    /// No two values share a number.
    pub proof fn lemma_raw_injective(a: TipState, b: TipState)
        requires
            a.raw() == b.raw(),
        ensures
            a == b,
    {
    }

    /// The inverse of `raw`: the value that the number `code` stands for, or
    /// `None` where the enumeration holds no such number.
    pub open spec fn of_raw(code: u32) -> Option<TipState> {
        if code == LIBINPUT_TABLET_TOOL_TIP_UP {
            Some(TipState::Up)
        } else if code == LIBINPUT_TABLET_TOOL_TIP_DOWN {
            Some(TipState::Down)
        } else {
            None
        }
    }

    /// `of_raw` is the inverse of `raw`: it finds the value of a number
    /// wherever there is one, and each value from its own number.
    pub proof fn lemma_of_raw(code: u32, value: TipState)
        ensures
            Self::of_raw(code) == Some(value) <==> value.raw() == code,
            Self::of_raw(code) is None <==> forall|other: TipState|
                #[trigger] other.raw() != code,
    {
        if let Some(found) = Self::of_raw(code) {
            assert(found.raw() == code);
        }
    }

    /// Reads a `libinput_tablet_tool_tip_state`: the value whose `raw` is
    /// `code`, or `None` where no value has that number.
    pub fn from_raw(code: u32) -> (r: Option<TipState>)
        ensures
            r == Self::of_raw(code),
            r matches Some(value) ==> value.raw() == code,
            r is None ==> forall|value: TipState| #[trigger] value.raw() != code,
    {
        if code == LIBINPUT_TABLET_TOOL_TIP_UP {
            Some(TipState::Up)
        } else if code == LIBINPUT_TABLET_TOOL_TIP_DOWN {
            Some(TipState::Down)
        } else {
            None
        }
    }
}

/// One or more axes of a tablet tool have changed state.
#[derive(Debug, PartialEq, Eq, Hash)]
pub struct TabletToolAxisEvent<H> {
    handle: H,
}

impl<H> TabletToolAxisEvent<H> {
    /// Whether `event_type` is the type of this event.
    pub open spec fn accepts(event_type: u32) -> bool {
        event_type == LIBINPUT_EVENT_TABLET_TOOL_AXIS
    }

    /// The handle this event was built around.
    pub closed spec fn handle(self) -> H {
        self.handle
    }

    /// The handle says all there is to say of this event: two that agree
    /// in it are the same event.
    pub proof fn lemma_determined(a: Self, b: Self)
        requires
            a.handle() == b.handle(),
        ensures
            a == b,
    {
    }

    /// Builds the event around `handle`, where `event_type` is its type:
    /// `Some` exactly for that type.
    pub fn try_from_raw(event_type: u32, handle: H) -> (r: Option<Self>)
        ensures
            r is Some <==> Self::accepts(event_type),
            r matches Some(event) ==> event.handle() == handle,
    {
        if event_type == LIBINPUT_EVENT_TABLET_TOOL_AXIS {
            Some(TabletToolAxisEvent { handle })
        } else {
            None
        }
    }

    /// Builds the event around `handle`, for a type that is known to be
    /// its own.
    pub fn from_raw(event_type: u32, handle: H) -> (r: Self)
        requires
            Self::accepts(event_type),
        ensures
            r.handle() == handle,
    {
        TabletToolAxisEvent { handle }
    }

    /// The `libinput_event_type` of this event.
    pub fn event_type(&self) -> (r: u32)
        ensures
            Self::accepts(r),
    {
        LIBINPUT_EVENT_TABLET_TOOL_AXIS
    }

    /// Borrows the handle.
    pub fn as_handle(&self) -> (r: &H)
        ensures
            *r == self.handle(),
    {
        &self.handle
    }

    /// Gives the handle back.
    pub fn into_handle(self) -> (r: H)
        ensures
            r == self.handle(),
    {
        self.handle
    }
}

/// Signals that a tool has come in or out of proximity of a device.
#[derive(Debug, PartialEq, Eq, Hash)]
pub struct TabletToolProximityEvent<H> {
    handle: H,
}

impl<H> TabletToolProximityEvent<H> {
    /// Whether `event_type` is the type of this event.
    pub open spec fn accepts(event_type: u32) -> bool {
        event_type == LIBINPUT_EVENT_TABLET_TOOL_PROXIMITY
    }

    /// The handle this event was built around.
    pub closed spec fn handle(self) -> H {
        self.handle
    }

    /// The handle says all there is to say of this event: two that agree
    /// in it are the same event.
    pub proof fn lemma_determined(a: Self, b: Self)
        requires
            a.handle() == b.handle(),
        ensures
            a == b,
    {
    }

    /// Builds the event around `handle`, where `event_type` is its type:
    /// `Some` exactly for that type.
    pub fn try_from_raw(event_type: u32, handle: H) -> (r: Option<Self>)
        ensures
            r is Some <==> Self::accepts(event_type),
            r matches Some(event) ==> event.handle() == handle,
    {
        if event_type == LIBINPUT_EVENT_TABLET_TOOL_PROXIMITY {
            Some(TabletToolProximityEvent { handle })
        } else {
            None
        }
    }

    /// Builds the event around `handle`, for a type that is known to be
    /// its own.
    pub fn from_raw(event_type: u32, handle: H) -> (r: Self)
        requires
            Self::accepts(event_type),
        ensures
            r.handle() == handle,
    {
        TabletToolProximityEvent { handle }
    }

    /// The `libinput_event_type` of this event.
    pub fn event_type(&self) -> (r: u32)
        ensures
            Self::accepts(r),
    {
        LIBINPUT_EVENT_TABLET_TOOL_PROXIMITY
    }

    /// Borrows the handle.
    pub fn as_handle(&self) -> (r: &H)
        ensures
            *r == self.handle(),
    {
        &self.handle
    }

    /// Gives the handle back.
    pub fn into_handle(self) -> (r: H)
        ensures
            r == self.handle(),
    {
        self.handle
    }
}

/// Signals that a tool has come in contact with the surface of a device.
#[derive(Debug, PartialEq, Eq, Hash)]
pub struct TabletToolTipEvent<H> {
    handle: H,
}

impl<H> TabletToolTipEvent<H> {
    /// Whether `event_type` is the type of this event.
    pub open spec fn accepts(event_type: u32) -> bool {
        event_type == LIBINPUT_EVENT_TABLET_TOOL_TIP
    }

    /// The handle this event was built around.
    pub closed spec fn handle(self) -> H {
        self.handle
    }

    /// The handle says all there is to say of this event: two that agree
    /// in it are the same event.
    pub proof fn lemma_determined(a: Self, b: Self)
        requires
            a.handle() == b.handle(),
        ensures
            a == b,
    {
    }

    /// Builds the event around `handle`, where `event_type` is its type:
    /// `Some` exactly for that type.
    pub fn try_from_raw(event_type: u32, handle: H) -> (r: Option<Self>)
        ensures
            r is Some <==> Self::accepts(event_type),
            r matches Some(event) ==> event.handle() == handle,
    {
        if event_type == LIBINPUT_EVENT_TABLET_TOOL_TIP {
            Some(TabletToolTipEvent { handle })
        } else {
            None
        }
    }

    /// Builds the event around `handle`, for a type that is known to be
    /// its own.
    pub fn from_raw(event_type: u32, handle: H) -> (r: Self)
        requires
            Self::accepts(event_type),
        ensures
            r.handle() == handle,
    {
        TabletToolTipEvent { handle }
    }

    /// The `libinput_event_type` of this event.
    pub fn event_type(&self) -> (r: u32)
        ensures
            Self::accepts(r),
    {
        LIBINPUT_EVENT_TABLET_TOOL_TIP
    }

    /// Borrows the handle.
    pub fn as_handle(&self) -> (r: &H)
        ensures
            *r == self.handle(),
    {
        &self.handle
    }

    /// Gives the handle back.
    pub fn into_handle(self) -> (r: H)
        ensures
            r == self.handle(),
    {
        self.handle
    }
}

/// Signals that a tool has changed a logical button state on a device.
#[derive(Debug, PartialEq, Eq, Hash)]
pub struct TabletToolButtonEvent<H> {
    handle: H,
}

impl<H> TabletToolButtonEvent<H> {
    /// Whether `event_type` is the type of this event.
    pub open spec fn accepts(event_type: u32) -> bool {
        event_type == LIBINPUT_EVENT_TABLET_TOOL_BUTTON
    }

    /// The handle this event was built around.
    pub closed spec fn handle(self) -> H {
        self.handle
    }

    /// The handle says all there is to say of this event: two that agree
    /// in it are the same event.
    pub proof fn lemma_determined(a: Self, b: Self)
        requires
            a.handle() == b.handle(),
        ensures
            a == b,
    {
    }

    /// Builds the event around `handle`, where `event_type` is its type:
    /// `Some` exactly for that type.
    pub fn try_from_raw(event_type: u32, handle: H) -> (r: Option<Self>)
        ensures
            r is Some <==> Self::accepts(event_type),
            r matches Some(event) ==> event.handle() == handle,
    {
        if event_type == LIBINPUT_EVENT_TABLET_TOOL_BUTTON {
            Some(TabletToolButtonEvent { handle })
        } else {
            None
        }
    }

    /// Builds the event around `handle`, for a type that is known to be
    /// its own.
    pub fn from_raw(event_type: u32, handle: H) -> (r: Self)
        requires
            Self::accepts(event_type),
        ensures
            r.handle() == handle,
    {
        TabletToolButtonEvent { handle }
    }

    /// The `libinput_event_type` of this event.
    pub fn event_type(&self) -> (r: u32)
        ensures
            Self::accepts(r),
    {
        LIBINPUT_EVENT_TABLET_TOOL_BUTTON
    }

    /// Borrows the handle.
    pub fn as_handle(&self) -> (r: &H)
        ensures
            *r == self.handle(),
    {
        &self.handle
    }

    /// Gives the handle back.
    pub fn into_handle(self) -> (r: H)
        ensures
            r == self.handle(),
    {
        self.handle
    }
}

/// A tablet tool related `Event`
#[derive(Debug, PartialEq, Eq, Hash)]
pub enum TabletToolEvent<H> {
    /// One or more axes of a tablet tool have changed state.
    Axis(TabletToolAxisEvent<H>),
    /// Signals that a tool has come in or out of proximity of a device.
    Proximity(TabletToolProximityEvent<H>),
    /// Signals that a tool has come in contact with the surface of a device.
    Tip(TabletToolTipEvent<H>),
    /// Signals that a tool has changed a logical button state on a device.
    Button(TabletToolButtonEvent<H>),
}

impl<H> TabletToolEvent<H> {
    /// Whether `event_type` is the type of a tablet tool event.
    pub open spec fn accepts(event_type: u32) -> bool {
        ||| event_type == LIBINPUT_EVENT_TABLET_TOOL_AXIS
        ||| event_type == LIBINPUT_EVENT_TABLET_TOOL_PROXIMITY
        ||| event_type == LIBINPUT_EVENT_TABLET_TOOL_TIP
        ||| event_type == LIBINPUT_EVENT_TABLET_TOOL_BUTTON
    }

    /// The `libinput_event_type` of this event.
    pub open spec fn code(self) -> u32 {
        match self {
            TabletToolEvent::Axis(_) => LIBINPUT_EVENT_TABLET_TOOL_AXIS,
            TabletToolEvent::Proximity(_) => LIBINPUT_EVENT_TABLET_TOOL_PROXIMITY,
            TabletToolEvent::Tip(_) => LIBINPUT_EVENT_TABLET_TOOL_TIP,
            TabletToolEvent::Button(_) => LIBINPUT_EVENT_TABLET_TOOL_BUTTON,
        }
    }

    /// The handle this event was built around.
    pub open spec fn handle(self) -> H {
        match self {
            TabletToolEvent::Axis(event) => event.handle(),
            TabletToolEvent::Proximity(event) => event.handle(),
            TabletToolEvent::Tip(event) => event.handle(),
            TabletToolEvent::Button(event) => event.handle(),
        }
    }

    /// Type and handle say all there is to say of an event: two events that
    /// agree in both are the same event.
    pub proof fn lemma_determined(a: Self, b: Self)
        requires
            a.code() == b.code(),
            a.handle() == b.handle(),
        ensures
            a == b,
    {
    }

    /// Tells whether `event_type` is the type of a tablet tool event.
    pub fn has_type(event_type: u32) -> (r: bool)
        ensures
            r == Self::accepts(event_type),
    {
        event_type == LIBINPUT_EVENT_TABLET_TOOL_AXIS
            || event_type == LIBINPUT_EVENT_TABLET_TOOL_PROXIMITY
            || event_type == LIBINPUT_EVENT_TABLET_TOOL_TIP
            || event_type == LIBINPUT_EVENT_TABLET_TOOL_BUTTON
    }

    /// Sorts an event by its type: `Some` exactly for the types of a tablet tool
    /// event, holding the variant of that type around `handle`.
    pub fn try_from_raw(event_type: u32, handle: H) -> (r: Option<Self>)
        ensures
            r is Some <==> Self::accepts(event_type),
            r matches Some(event) ==> event.code() == event_type && event.handle() == handle,
    {
        if Self::has_type(event_type) {
            Some(Self::from_raw(event_type, handle))
        } else {
            None
        }
    }

    /// Sorts an event that is known to be a tablet tool event.
    pub fn from_raw(event_type: u32, handle: H) -> (r: Self)
        requires
            Self::accepts(event_type),
        ensures
            r.code() == event_type,
            r.handle() == handle,
    {
        if event_type == LIBINPUT_EVENT_TABLET_TOOL_AXIS {
            TabletToolEvent::Axis(TabletToolAxisEvent::from_raw(event_type, handle))
        } else if event_type == LIBINPUT_EVENT_TABLET_TOOL_PROXIMITY {
            TabletToolEvent::Proximity(TabletToolProximityEvent::from_raw(event_type, handle))
        } else if event_type == LIBINPUT_EVENT_TABLET_TOOL_TIP {
            TabletToolEvent::Tip(TabletToolTipEvent::from_raw(event_type, handle))
        } else {
            TabletToolEvent::Button(TabletToolButtonEvent::from_raw(event_type, handle))
        }
    }

    /// The `libinput_event_type` of this event.
    pub fn event_type(&self) -> (r: u32)
        ensures
            r == self.code(),
            Self::accepts(r),
    {
        match self {
            TabletToolEvent::Axis(_) => LIBINPUT_EVENT_TABLET_TOOL_AXIS,
            TabletToolEvent::Proximity(_) => LIBINPUT_EVENT_TABLET_TOOL_PROXIMITY,
            TabletToolEvent::Tip(_) => LIBINPUT_EVENT_TABLET_TOOL_TIP,
            TabletToolEvent::Button(_) => LIBINPUT_EVENT_TABLET_TOOL_BUTTON,
        }
    }

    /// Borrows the handle.
    pub fn as_handle(&self) -> (r: &H)
        ensures
            *r == self.handle(),
    {
        match self {
            TabletToolEvent::Axis(event) => event.as_handle(),
            TabletToolEvent::Proximity(event) => event.as_handle(),
            TabletToolEvent::Tip(event) => event.as_handle(),
            TabletToolEvent::Button(event) => event.as_handle(),
        }
    }

    /// Gives the handle back.
    pub fn into_handle(self) -> (r: H)
        ensures
            r == self.handle(),
    {
        match self {
            TabletToolEvent::Axis(event) => event.into_handle(),
            TabletToolEvent::Proximity(event) => event.into_handle(),
            TabletToolEvent::Tip(event) => event.into_handle(),
            TabletToolEvent::Button(event) => event.into_handle(),
        }
    }
}

/// Common to all tablet tool events: each of them is a `TabletToolEvent`.
pub trait TabletToolEventTrait<H>: Sized {
    /// This event as a general `TabletToolEvent`.
    spec fn tablet_tool_event(self) -> TabletToolEvent<H>;

    /// Convert into a general `TabletToolEvent` again
    fn into_tablet_tool_event(self) -> (r: TabletToolEvent<H>)
        ensures
            r == self.tablet_tool_event(),
    ;
}

impl<H> TabletToolEventTrait<H> for TabletToolEvent<H> {
    open spec fn tablet_tool_event(self) -> TabletToolEvent<H> {
        self
    }

    fn into_tablet_tool_event(self) -> (r: TabletToolEvent<H>) {
        self
    }
}

impl<H> TabletToolEventTrait<H> for TabletToolAxisEvent<H> {
    open spec fn tablet_tool_event(self) -> TabletToolEvent<H> {
        TabletToolEvent::Axis(self)
    }

    fn into_tablet_tool_event(self) -> (r: TabletToolEvent<H>) {
        TabletToolEvent::Axis(self)
    }
}

impl<H> TabletToolEventTrait<H> for TabletToolProximityEvent<H> {
    open spec fn tablet_tool_event(self) -> TabletToolEvent<H> {
        TabletToolEvent::Proximity(self)
    }

    fn into_tablet_tool_event(self) -> (r: TabletToolEvent<H>) {
        TabletToolEvent::Proximity(self)
    }
}

impl<H> TabletToolEventTrait<H> for TabletToolTipEvent<H> {
    open spec fn tablet_tool_event(self) -> TabletToolEvent<H> {
        TabletToolEvent::Tip(self)
    }

    fn into_tablet_tool_event(self) -> (r: TabletToolEvent<H>) {
        TabletToolEvent::Tip(self)
    }
}

impl<H> TabletToolEventTrait<H> for TabletToolButtonEvent<H> {
    open spec fn tablet_tool_event(self) -> TabletToolEvent<H> {
        TabletToolEvent::Button(self)
    }

    fn into_tablet_tool_event(self) -> (r: TabletToolEvent<H>) {
        TabletToolEvent::Button(self)
    }
}

impl<H> EventTrait<H> for TabletToolEvent<H> {
    open spec fn event(self) -> Event<H> {
        Event::Tablet(self)
    }

    fn into_event(self) -> (r: Event<H>) {
        Event::Tablet(self)
    }
}

impl<H> EventTrait<H> for TabletToolAxisEvent<H> {
    open spec fn event(self) -> Event<H> {
        Event::Tablet(TabletToolEvent::Axis(self))
    }

    fn into_event(self) -> (r: Event<H>) {
        Event::Tablet(TabletToolEvent::Axis(self))
    }
}

impl<H> EventTrait<H> for TabletToolProximityEvent<H> {
    open spec fn event(self) -> Event<H> {
        Event::Tablet(TabletToolEvent::Proximity(self))
    }

    fn into_event(self) -> (r: Event<H>) {
        Event::Tablet(TabletToolEvent::Proximity(self))
    }
}

impl<H> EventTrait<H> for TabletToolTipEvent<H> {
    open spec fn event(self) -> Event<H> {
        Event::Tablet(TabletToolEvent::Tip(self))
    }

    fn into_event(self) -> (r: Event<H>) {
        Event::Tablet(TabletToolEvent::Tip(self))
    }
}

impl<H> EventTrait<H> for TabletToolButtonEvent<H> {
    open spec fn event(self) -> Event<H> {
        Event::Tablet(TabletToolEvent::Button(self))
    }

    fn into_event(self) -> (r: Event<H>) {
        Event::Tablet(TabletToolEvent::Button(self))
    }
}

} // verus!
