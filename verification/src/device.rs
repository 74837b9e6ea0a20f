//! Device capabilities and configuration values.

use vstd::prelude::*;

verus! {

/// `LIBINPUT_DEVICE_CAP_KEYBOARD`
pub const LIBINPUT_DEVICE_CAP_KEYBOARD: u32 = 0;
/// `LIBINPUT_DEVICE_CAP_POINTER`
pub const LIBINPUT_DEVICE_CAP_POINTER: u32 = 1;
/// `LIBINPUT_DEVICE_CAP_TOUCH`
pub const LIBINPUT_DEVICE_CAP_TOUCH: u32 = 2;
/// `LIBINPUT_DEVICE_CAP_TABLET_TOOL`
pub const LIBINPUT_DEVICE_CAP_TABLET_TOOL: u32 = 3;
/// `LIBINPUT_DEVICE_CAP_TABLET_PAD`
pub const LIBINPUT_DEVICE_CAP_TABLET_PAD: u32 = 4;
/// `LIBINPUT_DEVICE_CAP_GESTURE`
pub const LIBINPUT_DEVICE_CAP_GESTURE: u32 = 5;
/// `LIBINPUT_DEVICE_CAP_SWITCH`
pub const LIBINPUT_DEVICE_CAP_SWITCH: u32 = 6;

/// Capabilities on a device.
#[derive(Debug, Clone, Copy, PartialEq, Eq, Hash)]
pub enum DeviceCapability {
    /// Keyboard capability
    Keyboard,
    /// Pointer capability
    Pointer,
    /// Touch capability
    Touch,
    /// TabletTool capability
    TabletTool,
    /// TabletPad capability
    TabletPad,
    /// Gesture capability
    Gesture,
    /// Switch capability
    Switch,
}

impl DeviceCapability {
    /// The `libinput_device_capability` that stands for this value.
    pub open spec fn raw(self) -> u32 {
        match self {
            DeviceCapability::Keyboard => LIBINPUT_DEVICE_CAP_KEYBOARD,
            DeviceCapability::Pointer => LIBINPUT_DEVICE_CAP_POINTER,
            DeviceCapability::Touch => LIBINPUT_DEVICE_CAP_TOUCH,
            DeviceCapability::TabletTool => LIBINPUT_DEVICE_CAP_TABLET_TOOL,
            DeviceCapability::TabletPad => LIBINPUT_DEVICE_CAP_TABLET_PAD,
            DeviceCapability::Gesture => LIBINPUT_DEVICE_CAP_GESTURE,
            DeviceCapability::Switch => LIBINPUT_DEVICE_CAP_SWITCH,
        }
    }

    /// No two values share a number.
    pub proof fn lemma_raw_injective(a: DeviceCapability, b: DeviceCapability)
        requires
            a.raw() == b.raw(),
        ensures
            a == b,
    {
    }

    /// Writes this value as a `libinput_device_capability`.
    pub fn to_raw(self) -> (r: u32)
        ensures
            r == self.raw(),
    {
        match self {
            DeviceCapability::Keyboard => LIBINPUT_DEVICE_CAP_KEYBOARD,
            DeviceCapability::Pointer => LIBINPUT_DEVICE_CAP_POINTER,
            DeviceCapability::Touch => LIBINPUT_DEVICE_CAP_TOUCH,
            DeviceCapability::TabletTool => LIBINPUT_DEVICE_CAP_TABLET_TOOL,
            DeviceCapability::TabletPad => LIBINPUT_DEVICE_CAP_TABLET_PAD,
            DeviceCapability::Gesture => LIBINPUT_DEVICE_CAP_GESTURE,
            DeviceCapability::Switch => LIBINPUT_DEVICE_CAP_SWITCH,
        }
    }

    /// The inverse of `raw`: the value that the number `code` stands for, or
    /// `None` where the enumeration holds no such number.
    pub open spec fn of_raw(code: u32) -> Option<DeviceCapability> {
        if code == LIBINPUT_DEVICE_CAP_KEYBOARD {
            Some(DeviceCapability::Keyboard)
        } else if code == LIBINPUT_DEVICE_CAP_POINTER {
            Some(DeviceCapability::Pointer)
        } else if code == LIBINPUT_DEVICE_CAP_TOUCH {
            Some(DeviceCapability::Touch)
        } else if code == LIBINPUT_DEVICE_CAP_TABLET_TOOL {
            Some(DeviceCapability::TabletTool)
        } else if code == LIBINPUT_DEVICE_CAP_TABLET_PAD {
            Some(DeviceCapability::TabletPad)
        } else if code == LIBINPUT_DEVICE_CAP_GESTURE {
            Some(DeviceCapability::Gesture)
        } else if code == LIBINPUT_DEVICE_CAP_SWITCH {
            Some(DeviceCapability::Switch)
        } else {
            None
        }
    }

    /// `of_raw` is the inverse of `raw`: it finds the value of a number
    /// wherever there is one, and each value from its own number.
    pub proof fn lemma_of_raw(code: u32, value: DeviceCapability)
        ensures
            Self::of_raw(code) == Some(value) <==> value.raw() == code,
            Self::of_raw(code) is None <==> forall|other: DeviceCapability|
                #[trigger] other.raw() != code,
    {
        if let Some(found) = Self::of_raw(code) {
            assert(found.raw() == code);
        }
    }

    /// Reads a `libinput_device_capability`: the value whose `raw` is
    /// `code`, or `None` where no value has that number.
    pub fn from_raw(code: u32) -> (r: Option<DeviceCapability>)
        ensures
            r == Self::of_raw(code),
            r matches Some(value) ==> value.raw() == code,
            r is None ==> forall|value: DeviceCapability| #[trigger] value.raw() != code,
    {
        if code == LIBINPUT_DEVICE_CAP_KEYBOARD {
            Some(DeviceCapability::Keyboard)
        } else if code == LIBINPUT_DEVICE_CAP_POINTER {
            Some(DeviceCapability::Pointer)
        } else if code == LIBINPUT_DEVICE_CAP_TOUCH {
            Some(DeviceCapability::Touch)
        } else if code == LIBINPUT_DEVICE_CAP_TABLET_TOOL {
            Some(DeviceCapability::TabletTool)
        } else if code == LIBINPUT_DEVICE_CAP_TABLET_PAD {
            Some(DeviceCapability::TabletPad)
        } else if code == LIBINPUT_DEVICE_CAP_GESTURE {
            Some(DeviceCapability::Gesture)
        } else if code == LIBINPUT_DEVICE_CAP_SWITCH {
            Some(DeviceCapability::Switch)
        } else {
            None
        }
    }
}

/// The capabilities of a device, under the name of the C enumeration.
pub type LibinputDeviceCapability = DeviceCapability;

/// `LIBINPUT_CONFIG_ACCEL_PROFILE_NONE`
pub const LIBINPUT_CONFIG_ACCEL_PROFILE_NONE: u32 = 0;
/// `LIBINPUT_CONFIG_ACCEL_PROFILE_FLAT`
pub const LIBINPUT_CONFIG_ACCEL_PROFILE_FLAT: u32 = 1;
/// `LIBINPUT_CONFIG_ACCEL_PROFILE_ADAPTIVE`
pub const LIBINPUT_CONFIG_ACCEL_PROFILE_ADAPTIVE: u32 = 2;
/// `LIBINPUT_CONFIG_ACCEL_PROFILE_CUSTOM`
pub const LIBINPUT_CONFIG_ACCEL_PROFILE_CUSTOM: u32 = 4;

/// Pointer Acceleration Profile
#[derive(Debug, Clone, Copy, PartialEq, Eq, Hash)]
pub enum AccelProfile {
    /// A flat acceleration profile: a constant factor applied to the delta.
    Flat,
    /// An adaptive acceleration profile: acceleration depends on the speed.
    Adaptive,
    /// A custom acceleration profile, set up through an acceleration
    /// configuration.
    Custom,
}

impl AccelProfile {
    /// The `libinput_config_accel_profile` that stands for this value.
    pub open spec fn raw(self) -> u32 {
        match self {
            AccelProfile::Flat => LIBINPUT_CONFIG_ACCEL_PROFILE_FLAT,
            AccelProfile::Adaptive => LIBINPUT_CONFIG_ACCEL_PROFILE_ADAPTIVE,
            AccelProfile::Custom => LIBINPUT_CONFIG_ACCEL_PROFILE_CUSTOM,
        }
    }

    /// No two values share a number.
    pub proof fn lemma_raw_injective(a: AccelProfile, b: AccelProfile)
        requires
            a.raw() == b.raw(),
        ensures
            a == b,
    {
    }

    /// Writes this value as a `libinput_config_accel_profile`.
    pub fn to_raw(self) -> (r: u32)
        ensures
            r == self.raw(),
    {
        match self {
            AccelProfile::Flat => LIBINPUT_CONFIG_ACCEL_PROFILE_FLAT,
            AccelProfile::Adaptive => LIBINPUT_CONFIG_ACCEL_PROFILE_ADAPTIVE,
            AccelProfile::Custom => LIBINPUT_CONFIG_ACCEL_PROFILE_CUSTOM,
        }
    }

    /// The inverse of `raw`: the value that the number `code` stands for, or
    /// `None` where the enumeration holds no such number.
    pub open spec fn of_raw(code: u32) -> Option<AccelProfile> {
        if code == LIBINPUT_CONFIG_ACCEL_PROFILE_FLAT {
            Some(AccelProfile::Flat)
        } else if code == LIBINPUT_CONFIG_ACCEL_PROFILE_ADAPTIVE {
            Some(AccelProfile::Adaptive)
        } else if code == LIBINPUT_CONFIG_ACCEL_PROFILE_CUSTOM {
            Some(AccelProfile::Custom)
        } else {
            None
        }
    }

    /// `of_raw` is the inverse of `raw`: it finds the value of a number
    /// wherever there is one, and each value from its own number.
    pub proof fn lemma_of_raw(code: u32, value: AccelProfile)
        ensures
            Self::of_raw(code) == Some(value) <==> value.raw() == code,
            Self::of_raw(code) is None <==> forall|other: AccelProfile|
                #[trigger] other.raw() != code,
    {
        if let Some(found) = Self::of_raw(code) {
            assert(found.raw() == code);
        }
    }

    /// Reads a `libinput_config_accel_profile`: the value whose `raw` is
    /// `code`, or `None` where no value has that number.
    pub fn from_raw(code: u32) -> (r: Option<AccelProfile>)
        ensures
            r == Self::of_raw(code),
            r matches Some(value) ==> value.raw() == code,
            r is None ==> forall|value: AccelProfile| #[trigger] value.raw() != code,
    {
        if code == LIBINPUT_CONFIG_ACCEL_PROFILE_FLAT {
            Some(AccelProfile::Flat)
        } else if code == LIBINPUT_CONFIG_ACCEL_PROFILE_ADAPTIVE {
            Some(AccelProfile::Adaptive)
        } else if code == LIBINPUT_CONFIG_ACCEL_PROFILE_CUSTOM {
            Some(AccelProfile::Custom)
        } else {
            None
        }
    }

    /// Reads the acceleration profile that a device reports. `LIBINPUT_CONFIG_ACCEL_PROFILE_NONE`
    /// is no value of this type: the device has none, and the answer is
    /// `Some(None)`. A number that the enumeration does not hold gives `None`.
    pub fn from_config(code: u32) -> (r: Option<Option<AccelProfile>>)
        ensures
            r == if code == LIBINPUT_CONFIG_ACCEL_PROFILE_NONE {
                Some(None::<AccelProfile>)
            } else {
                match Self::of_raw(code) {
                    Some(value) => Some(Some(value)),
                    None => None,
                }
            },
    {
        if code == LIBINPUT_CONFIG_ACCEL_PROFILE_NONE {
            Some(None)
        } else {
            match Self::from_raw(code) {
                Some(value) => Some(Some(value)),
                None => None,
            }
        }
    }
}

/// `LIBINPUT_CONFIG_CLICK_METHOD_NONE`
pub const LIBINPUT_CONFIG_CLICK_METHOD_NONE: u32 = 0;
/// `LIBINPUT_CONFIG_CLICK_METHOD_BUTTON_AREAS`
pub const LIBINPUT_CONFIG_CLICK_METHOD_BUTTON_AREAS: u32 = 1;
/// `LIBINPUT_CONFIG_CLICK_METHOD_CLICKFINGER`
pub const LIBINPUT_CONFIG_CLICK_METHOD_CLICKFINGER: u32 = 2;

/// The click method defines when to generate software-emulated buttons.
#[derive(Debug, Clone, Copy, PartialEq, Eq, Hash)]
pub enum ClickMethod {
    /// Use software-button areas to generate button events.
    ButtonAreas,
    /// The number of fingers decides which button press to generate.
    Clickfinger,
}

impl ClickMethod {
    /// The `libinput_config_click_method` that stands for this value.
    pub open spec fn raw(self) -> u32 {
        match self {
            ClickMethod::ButtonAreas => LIBINPUT_CONFIG_CLICK_METHOD_BUTTON_AREAS,
            ClickMethod::Clickfinger => LIBINPUT_CONFIG_CLICK_METHOD_CLICKFINGER,
        }
    }

    /// No two values share a number.
    pub proof fn lemma_raw_injective(a: ClickMethod, b: ClickMethod)
        requires
            a.raw() == b.raw(),
        ensures
            a == b,
    {
    }

    /// Writes this value as a `libinput_config_click_method`.
    pub fn to_raw(self) -> (r: u32)
        ensures
            r == self.raw(),
    {
        match self {
            ClickMethod::ButtonAreas => LIBINPUT_CONFIG_CLICK_METHOD_BUTTON_AREAS,
            ClickMethod::Clickfinger => LIBINPUT_CONFIG_CLICK_METHOD_CLICKFINGER,
        }
    }

    /// The inverse of `raw`: the value that the number `code` stands for, or
    /// `None` where the enumeration holds no such number.
    pub open spec fn of_raw(code: u32) -> Option<ClickMethod> {
        if code == LIBINPUT_CONFIG_CLICK_METHOD_BUTTON_AREAS {
            Some(ClickMethod::ButtonAreas)
        } else if code == LIBINPUT_CONFIG_CLICK_METHOD_CLICKFINGER {
            Some(ClickMethod::Clickfinger)
        } else {
            None
        }
    }

    /// `of_raw` is the inverse of `raw`: it finds the value of a number
    /// wherever there is one, and each value from its own number.
    pub proof fn lemma_of_raw(code: u32, value: ClickMethod)
        ensures
            Self::of_raw(code) == Some(value) <==> value.raw() == code,
            Self::of_raw(code) is None <==> forall|other: ClickMethod|
                #[trigger] other.raw() != code,
    {
        if let Some(found) = Self::of_raw(code) {
            assert(found.raw() == code);
        }
    }

    /// Reads a `libinput_config_click_method`: the value whose `raw` is
    /// `code`, or `None` where no value has that number.
    pub fn from_raw(code: u32) -> (r: Option<ClickMethod>)
        ensures
            r == Self::of_raw(code),
            r matches Some(value) ==> value.raw() == code,
            r is None ==> forall|value: ClickMethod| #[trigger] value.raw() != code,
    {
        if code == LIBINPUT_CONFIG_CLICK_METHOD_BUTTON_AREAS {
            Some(ClickMethod::ButtonAreas)
        } else if code == LIBINPUT_CONFIG_CLICK_METHOD_CLICKFINGER {
            Some(ClickMethod::Clickfinger)
        } else {
            None
        }
    }

    /// Reads the click method that a device reports. `LIBINPUT_CONFIG_CLICK_METHOD_NONE`
    /// is no value of this type: the device has none, and the answer is
    /// `Some(None)`. A number that the enumeration does not hold gives `None`.
    pub fn from_config(code: u32) -> (r: Option<Option<ClickMethod>>)
        ensures
            r == if code == LIBINPUT_CONFIG_CLICK_METHOD_NONE {
                Some(None::<ClickMethod>)
            } else {
                match Self::of_raw(code) {
                    Some(value) => Some(Some(value)),
                    None => None,
                }
            },
    {
        if code == LIBINPUT_CONFIG_CLICK_METHOD_NONE {
            Some(None)
        } else {
            match Self::from_raw(code) {
                Some(value) => Some(Some(value)),
                None => None,
            }
        }
    }
}

/// `LIBINPUT_CONFIG_SCROLL_NO_SCROLL`
pub const LIBINPUT_CONFIG_SCROLL_NO_SCROLL: u32 = 0;
/// `LIBINPUT_CONFIG_SCROLL_2FG`
pub const LIBINPUT_CONFIG_SCROLL_2FG: u32 = 1;
/// `LIBINPUT_CONFIG_SCROLL_EDGE`
pub const LIBINPUT_CONFIG_SCROLL_EDGE: u32 = 2;
/// `LIBINPUT_CONFIG_SCROLL_ON_BUTTON_DOWN`
pub const LIBINPUT_CONFIG_SCROLL_ON_BUTTON_DOWN: u32 = 4;

/// The scroll method of a device selects when to generate scroll axis events
/// instead of pointer motion events.
#[derive(Debug, Clone, Copy, PartialEq, Eq, Hash)]
pub enum ScrollMethod {
    /// Never send scroll events instead of pointer motion events.
    NoScroll,
    /// Send scroll events when two fingers are logically down on the device.
    TwoFinger,
    /// Send scroll events when a finger moves along the bottom or right edge
    /// of a device.
    Edge,
    /// Send scroll events when a button is down and the device moves along a
    /// scroll-capable axis.
    OnButtonDown,
}

impl ScrollMethod {
    /// The `libinput_config_scroll_method` that stands for this value.
    pub open spec fn raw(self) -> u32 {
        match self {
            ScrollMethod::NoScroll => LIBINPUT_CONFIG_SCROLL_NO_SCROLL,
            ScrollMethod::TwoFinger => LIBINPUT_CONFIG_SCROLL_2FG,
            ScrollMethod::Edge => LIBINPUT_CONFIG_SCROLL_EDGE,
            ScrollMethod::OnButtonDown => LIBINPUT_CONFIG_SCROLL_ON_BUTTON_DOWN,
        }
    }

    /// No two values share a number.
    pub proof fn lemma_raw_injective(a: ScrollMethod, b: ScrollMethod)
        requires
            a.raw() == b.raw(),
        ensures
            a == b,
    {
    }

    /// Writes this value as a `libinput_config_scroll_method`.
    pub fn to_raw(self) -> (r: u32)
        ensures
            r == self.raw(),
    {
        match self {
            ScrollMethod::NoScroll => LIBINPUT_CONFIG_SCROLL_NO_SCROLL,
            ScrollMethod::TwoFinger => LIBINPUT_CONFIG_SCROLL_2FG,
            ScrollMethod::Edge => LIBINPUT_CONFIG_SCROLL_EDGE,
            ScrollMethod::OnButtonDown => LIBINPUT_CONFIG_SCROLL_ON_BUTTON_DOWN,
        }
    }

    /// The inverse of `raw`: the value that the number `code` stands for, or
    /// `None` where the enumeration holds no such number.
    pub open spec fn of_raw(code: u32) -> Option<ScrollMethod> {
        if code == LIBINPUT_CONFIG_SCROLL_NO_SCROLL {
            Some(ScrollMethod::NoScroll)
        } else if code == LIBINPUT_CONFIG_SCROLL_2FG {
            Some(ScrollMethod::TwoFinger)
        } else if code == LIBINPUT_CONFIG_SCROLL_EDGE {
            Some(ScrollMethod::Edge)
        } else if code == LIBINPUT_CONFIG_SCROLL_ON_BUTTON_DOWN {
            Some(ScrollMethod::OnButtonDown)
        } else {
            None
        }
    }

    /// `of_raw` is the inverse of `raw`: it finds the value of a number
    /// wherever there is one, and each value from its own number.
    pub proof fn lemma_of_raw(code: u32, value: ScrollMethod)
        ensures
            Self::of_raw(code) == Some(value) <==> value.raw() == code,
            Self::of_raw(code) is None <==> forall|other: ScrollMethod|
                #[trigger] other.raw() != code,
    {
        if let Some(found) = Self::of_raw(code) {
            assert(found.raw() == code);
        }
    }

    /// Reads a `libinput_config_scroll_method`: the value whose `raw` is
    /// `code`, or `None` where no value has that number.
    pub fn from_raw(code: u32) -> (r: Option<ScrollMethod>)
        ensures
            r == Self::of_raw(code),
            r matches Some(value) ==> value.raw() == code,
            r is None ==> forall|value: ScrollMethod| #[trigger] value.raw() != code,
    {
        if code == LIBINPUT_CONFIG_SCROLL_NO_SCROLL {
            Some(ScrollMethod::NoScroll)
        } else if code == LIBINPUT_CONFIG_SCROLL_2FG {
            Some(ScrollMethod::TwoFinger)
        } else if code == LIBINPUT_CONFIG_SCROLL_EDGE {
            Some(ScrollMethod::Edge)
        } else if code == LIBINPUT_CONFIG_SCROLL_ON_BUTTON_DOWN {
            Some(ScrollMethod::OnButtonDown)
        } else {
            None
        }
    }
}

/// `LIBINPUT_CONFIG_SEND_EVENTS_ENABLED`
pub const LIBINPUT_CONFIG_SEND_EVENTS_ENABLED: u32 = 0;
/// `LIBINPUT_CONFIG_SEND_EVENTS_DISABLED`
pub const LIBINPUT_CONFIG_SEND_EVENTS_DISABLED: u32 = 1;
/// `LIBINPUT_CONFIG_SEND_EVENTS_DISABLED_ON_EXTERNAL_MOUSE`
pub const LIBINPUT_CONFIG_SEND_EVENTS_DISABLED_ON_EXTERNAL_MOUSE: u32 = 2;

/// The send-event mode of a device defines when a device may generate events
/// and pass those events to the caller.
#[derive(Debug, Clone, Copy, PartialEq, Eq, Hash)]
pub enum SendEventsMode {
    /// Send events from this device normally.
    Enabled,
    /// Do not send events through this device.
    Disabled,
    /// If an external pointer device is plugged in, do not send events from
    /// this device.
    DisabledOnExternalMouse,
}

impl SendEventsMode {
    /// The `libinput_config_send_events_mode` that stands for this value.
    pub open spec fn raw(self) -> u32 {
        match self {
            SendEventsMode::Enabled => LIBINPUT_CONFIG_SEND_EVENTS_ENABLED,
            SendEventsMode::Disabled => LIBINPUT_CONFIG_SEND_EVENTS_DISABLED,
            SendEventsMode::DisabledOnExternalMouse => {
                LIBINPUT_CONFIG_SEND_EVENTS_DISABLED_ON_EXTERNAL_MOUSE
            },
        }
    }

    /// No two values share a number.
    pub proof fn lemma_raw_injective(a: SendEventsMode, b: SendEventsMode)
        requires
            a.raw() == b.raw(),
        ensures
            a == b,
    {
    }

    /// Writes this value as a `libinput_config_send_events_mode`.
    pub fn to_raw(self) -> (r: u32)
        ensures
            r == self.raw(),
    {
        match self {
            SendEventsMode::Enabled => LIBINPUT_CONFIG_SEND_EVENTS_ENABLED,
            SendEventsMode::Disabled => LIBINPUT_CONFIG_SEND_EVENTS_DISABLED,
            SendEventsMode::DisabledOnExternalMouse => {
                LIBINPUT_CONFIG_SEND_EVENTS_DISABLED_ON_EXTERNAL_MOUSE
            },
        }
    }
}

/// `LIBINPUT_CONFIG_TAP_MAP_LRM`
pub const LIBINPUT_CONFIG_TAP_MAP_LRM: u32 = 0;
/// `LIBINPUT_CONFIG_TAP_MAP_LMR`
pub const LIBINPUT_CONFIG_TAP_MAP_LMR: u32 = 1;

/// Map 1/2/3 finger tips to buttons
#[derive(Debug, Clone, Copy, PartialEq, Eq, Hash)]
pub enum TapButtonMap {
    /// 1/2/3 finger tap maps to left/right/middle
    LeftRightMiddle,
    /// 1/2/3 finger tap maps to left/middle/right
    LeftMiddleRight,
}

impl TapButtonMap {
    /// The `libinput_config_tap_button_map` that stands for this value.
    pub open spec fn raw(self) -> u32 {
        match self {
            TapButtonMap::LeftRightMiddle => LIBINPUT_CONFIG_TAP_MAP_LRM,
            TapButtonMap::LeftMiddleRight => LIBINPUT_CONFIG_TAP_MAP_LMR,
        }
    }

    /// No two values share a number.
    pub proof fn lemma_raw_injective(a: TapButtonMap, b: TapButtonMap)
        requires
            a.raw() == b.raw(),
        ensures
            a == b,
    {
    }

    /// Writes this value as a `libinput_config_tap_button_map`.
    pub fn to_raw(self) -> (r: u32)
        ensures
            r == self.raw(),
    {
        match self {
            TapButtonMap::LeftRightMiddle => LIBINPUT_CONFIG_TAP_MAP_LRM,
            TapButtonMap::LeftMiddleRight => LIBINPUT_CONFIG_TAP_MAP_LMR,
        }
    }

    /// The inverse of `raw`: the value that the number `code` stands for, or
    /// `None` where the enumeration holds no such number.
    pub open spec fn of_raw(code: u32) -> Option<TapButtonMap> {
        if code == LIBINPUT_CONFIG_TAP_MAP_LRM {
            Some(TapButtonMap::LeftRightMiddle)
        } else if code == LIBINPUT_CONFIG_TAP_MAP_LMR {
            Some(TapButtonMap::LeftMiddleRight)
        } else {
            None
        }
    }

    /// `of_raw` is the inverse of `raw`: it finds the value of a number
    /// wherever there is one, and each value from its own number.
    pub proof fn lemma_of_raw(code: u32, value: TapButtonMap)
        ensures
            Self::of_raw(code) == Some(value) <==> value.raw() == code,
            Self::of_raw(code) is None <==> forall|other: TapButtonMap|
                #[trigger] other.raw() != code,
    {
        if let Some(found) = Self::of_raw(code) {
            assert(found.raw() == code);
        }
    }

    /// Reads a `libinput_config_tap_button_map`: the value whose `raw` is
    /// `code`, or `None` where no value has that number.
    pub fn from_raw(code: u32) -> (r: Option<TapButtonMap>)
        ensures
            r == Self::of_raw(code),
            r matches Some(value) ==> value.raw() == code,
            r is None ==> forall|value: TapButtonMap| #[trigger] value.raw() != code,
    {
        if code == LIBINPUT_CONFIG_TAP_MAP_LRM {
            Some(TapButtonMap::LeftRightMiddle)
        } else if code == LIBINPUT_CONFIG_TAP_MAP_LMR {
            Some(TapButtonMap::LeftMiddleRight)
        } else {
            None
        }
    }

    /// Whether a device that counts `finger_count` fingers for tapping can
    /// tap at all, and so has a button map: it counts one finger at least.
    pub open spec fn taps(finger_count: u32) -> bool {
        finger_count != 0
    }

    /// Tells whether a device whose tap finger count is `finger_count` has
    /// a button map. Where it has none there is nothing to read.
    pub fn can_tap(finger_count: u32) -> (r: bool)
        ensures
            r == Self::taps(finger_count),
    {
        finger_count != 0
    }

    /// Reads the tap button map of a device whose tap finger count is
    /// `finger_count`. A device that cannot tap has no map, whatever `code`
    /// holds: the answer is `Some(None)`. A number that the enumeration does
    /// not hold gives `None`.
    pub fn from_config(finger_count: u32, code: u32) -> (r: Option<Option<TapButtonMap>>)
        ensures
            r == if !Self::taps(finger_count) {
                Some(None::<TapButtonMap>)
            } else {
                match Self::of_raw(code) {
                    Some(value) => Some(Some(value)),
                    None => None,
                }
            },
    {
        if !Self::can_tap(finger_count) {
            Some(None)
        } else {
            match Self::from_raw(code) {
                Some(value) => Some(Some(value)),
                None => None,
            }
        }
    }
}

/// `LIBINPUT_LED_NUM_LOCK`
pub const LIBINPUT_LED_NUM_LOCK: u32 = 1;
/// `LIBINPUT_LED_CAPS_LOCK`
pub const LIBINPUT_LED_CAPS_LOCK: u32 = 2;
/// `LIBINPUT_LED_SCROLL_LOCK`
pub const LIBINPUT_LED_SCROLL_LOCK: u32 = 4;

/// Mask reflecting LEDs on a device.
#[derive(Debug, Clone, Copy, PartialEq, Eq, Hash)]
pub enum Led {
    /// Num Lock Led
    NumLock,
    /// Caps Lock Led
    CapsLock,
    /// Scroll Lock Led
    ScrollLock,
}

impl Led {
    /// The `libinput_led` that stands for this value.
    pub open spec fn raw(self) -> u32 {
        match self {
            Led::NumLock => LIBINPUT_LED_NUM_LOCK,
            Led::CapsLock => LIBINPUT_LED_CAPS_LOCK,
            Led::ScrollLock => LIBINPUT_LED_SCROLL_LOCK,
        }
    }

    /// No two values share a number.
    pub proof fn lemma_raw_injective(a: Led, b: Led)
        requires
            a.raw() == b.raw(),
        ensures
            a == b,
    {
    }

    /// Writes this value as a `libinput_led`.
    pub fn to_raw(self) -> (r: u32)
        ensures
            r == self.raw(),
    {
        match self {
            Led::NumLock => LIBINPUT_LED_NUM_LOCK,
            Led::CapsLock => LIBINPUT_LED_CAPS_LOCK,
            Led::ScrollLock => LIBINPUT_LED_SCROLL_LOCK,
        }
    }
}

/// `LIBINPUT_CONFIG_STATUS_SUCCESS`
pub const LIBINPUT_CONFIG_STATUS_SUCCESS: u32 = 0;
/// `LIBINPUT_CONFIG_STATUS_UNSUPPORTED`
pub const LIBINPUT_CONFIG_STATUS_UNSUPPORTED: u32 = 1;
/// `LIBINPUT_CONFIG_STATUS_INVALID`
pub const LIBINPUT_CONFIG_STATUS_INVALID: u32 = 2;

/// Errors returned when applying configuration settings.
#[derive(Debug, Copy, Clone, PartialEq, Eq, Hash)]
pub enum DeviceConfigError {
    /// Configuration not available on this device.
    Unsupported,
    /// Invalid parameter range.
    Invalid,
}

/// Result returned when applying configuration settings.
pub type DeviceConfigResult = Result<(), DeviceConfigError>;

impl DeviceConfigError {
    /// The `libinput_config_status` that reports this error.
    pub open spec fn raw(self) -> u32 {
        match self {
            DeviceConfigError::Unsupported => LIBINPUT_CONFIG_STATUS_UNSUPPORTED,
            DeviceConfigError::Invalid => LIBINPUT_CONFIG_STATUS_INVALID,
        }
    }

    /// No two values share a number.
    pub proof fn lemma_raw_injective(a: DeviceConfigError, b: DeviceConfigError)
        requires
            a.raw() == b.raw(),
        ensures
            a == b,
    {
    }
}

/// The `libinput_config_status` that reports `result`.
pub open spec fn status_of(result: DeviceConfigResult) -> u32 {
    match result {
        Ok(_) => LIBINPUT_CONFIG_STATUS_SUCCESS,
        Err(error) => error.raw(),
    }
}

/// The result that the `libinput_config_status` `status` reports, or `None`
/// where the enumeration holds no such number: the inverse of `status_of`.
pub open spec fn result_of(status: u32) -> Option<DeviceConfigResult> {
    if status == LIBINPUT_CONFIG_STATUS_SUCCESS {
        Some(Ok(()))
    } else if status == LIBINPUT_CONFIG_STATUS_UNSUPPORTED {
        Some(Err(DeviceConfigError::Unsupported))
    } else if status == LIBINPUT_CONFIG_STATUS_INVALID {
        Some(Err(DeviceConfigError::Invalid))
    } else {
        None
    }
}

/// `result_of` is the inverse of `status_of`.
pub proof fn lemma_result_of(status: u32, result: DeviceConfigResult)
    ensures
        result_of(status) == Some(result) <==> status_of(result) == status,
        result_of(status) is None <==> forall|other: DeviceConfigResult| #[trigger]
            status_of(other) != status,
{
    match result {
        Ok(unit) => assert(unit == ()),
        Err(_) => {},
    }
    if let Some(found) = result_of(status) {
        assert(status_of(found) == status);
    }
}

/// Reads the `libinput_config_status` that a setter returned: the result
/// that this status reports, or `None` where no result is reported so.
pub fn config_result(status: u32) -> (r: Option<DeviceConfigResult>)
    ensures
        r == result_of(status),
        r matches Some(result) ==> status_of(result) == status,
        r is None ==> forall|result: DeviceConfigResult| #[trigger] status_of(result) != status,
{
    if status == LIBINPUT_CONFIG_STATUS_SUCCESS {
        Some(Ok(()))
    } else if status == LIBINPUT_CONFIG_STATUS_UNSUPPORTED {
        Some(Err(DeviceConfigError::Unsupported))
    } else if status == LIBINPUT_CONFIG_STATUS_INVALID {
        Some(Err(DeviceConfigError::Invalid))
    } else {
        None
    }
}

/// Whether a bitmask that a device reports lists the value whose number is
/// `flag`. A value with a flag of its own is listed where the mask holds a
/// bit of that flag. The number `0` is no flag: it is the value that holds
/// where nothing else does, and only the empty mask lists it.
pub open spec fn lists(mask: u32, flag: u32) -> bool {
    if flag == 0 {
        mask == 0
    } else {
        mask & flag != 0
    }
}

/// `value` alone where it is listed, nothing where it is not.
pub open spec fn pick<T>(listed: bool, value: T) -> Seq<T> {
    if listed {
        seq![value]
    } else {
        Seq::empty()
    }
}

/// Tells whether `mask` lists the value whose number is `flag`.
pub fn lists_flag(mask: u32, flag: u32) -> (r: bool)
    ensures
        r == lists(mask, flag),
{
    if flag == 0 {
        mask == 0
    } else {
        mask & flag != 0
    }
}

/// What `lists` comes to on the flags of one bit that the configuration
/// enumerations use. Only the empty mask lists the number `0`, and it lists
/// no flag. A flag alone lists itself and no other. A mask made of two
/// lists the flags that either of them lists.
pub proof fn lemma_lists(mask: u32, other: u32)
    ensures
        lists(mask, 0) <==> mask == 0,
        !lists(0, 1) && !lists(0, 2) && !lists(0, 4),
        lists(1, 1) && !lists(1, 2) && !lists(1, 4),
        !lists(2, 1) && lists(2, 2) && !lists(2, 4),
        !lists(4, 1) && !lists(4, 2) && lists(4, 4),
        lists(mask | other, 1) <==> lists(mask, 1) || lists(other, 1),
        lists(mask | other, 2) <==> lists(mask, 2) || lists(other, 2),
        lists(mask | other, 4) <==> lists(mask, 4) || lists(other, 4),
{
    assert(0u32 & 1 == 0 && 0u32 & 2 == 0 && 0u32 & 4 == 0) by (bit_vector);
    assert(1u32 & 1 != 0 && 1u32 & 2 == 0 && 1u32 & 4 == 0) by (bit_vector);
    assert(2u32 & 1 == 0 && 2u32 & 2 != 0 && 2u32 & 4 == 0) by (bit_vector);
    assert(4u32 & 1 == 0 && 4u32 & 2 == 0 && 4u32 & 4 != 0) by (bit_vector);
    assert(((mask | other) & 1 != 0) <==> (mask & 1 != 0 || other & 1 != 0)) by (bit_vector);
    assert(((mask | other) & 2 != 0) <==> (mask & 2 != 0 || other & 2 != 0)) by (bit_vector);
    assert(((mask | other) & 4 != 0) <==> (mask & 4 != 0 || other & 4 != 0)) by (bit_vector);
}

/// `pick` holds its value where it is listed, and nothing else.
proof fn lemma_pick_contains<T>(listed: bool, value: T, needle: T)
    ensures
        pick(listed, value).contains(needle) <==> listed && needle == value,
{
    if listed {
        assert(pick(listed, value)[0] == value);
    }
}

/// Two sequences in a row hold what either of them holds.
proof fn lemma_add_contains<T>(front: Seq<T>, back: Seq<T>, needle: T)
    ensures
        (front + back).contains(needle) <==> front.contains(needle) || back.contains(needle),
{
    let both = front + back;
    if front.contains(needle) {
        let i = choose|i: int| 0 <= i < front.len() && front[i] == needle;
        assert(both[i] == needle);
    }
    if back.contains(needle) {
        let i = choose|i: int| 0 <= i < back.len() && back[i] == needle;
        assert(both[front.len() + i] == needle);
    }
    if both.contains(needle) {
        let i = choose|i: int| 0 <= i < both.len() && both[i] == needle;
        if i < front.len() {
            assert(front[i] == needle);
        } else {
            assert(back[i - front.len()] == needle);
        }
    }
}

/// A sequence without repetition stays so with a `pick` behind it of a
/// value that it does not hold.
proof fn lemma_add_pick_no_duplicates<T>(front: Seq<T>, listed: bool, value: T)
    requires
        front.no_duplicates(),
        !front.contains(value),
    ensures
        (front + pick(listed, value)).no_duplicates(),
{
    let both = front + pick(listed, value);
    assert forall|i: int, j: int|
        0 <= i < both.len() && 0 <= j < both.len() && i != j implies both[i] != both[j] by {
        if i < front.len() && j < front.len() {
            assert(both[i] == front[i] && both[j] == front[j]);
        } else if i < front.len() {
            assert(front.contains(both[i]));
        } else if j < front.len() {
            assert(front.contains(both[j]));
        }
    }
}

impl AccelProfile {
    /// The profiles that `mask` lists, in the order flat, adaptive, custom.
    pub open spec fn listed(mask: u32) -> Seq<AccelProfile> {
        pick(lists(mask, AccelProfile::Flat.raw()), AccelProfile::Flat)
            + pick(lists(mask, AccelProfile::Adaptive.raw()), AccelProfile::Adaptive)
            + pick(lists(mask, AccelProfile::Custom.raw()), AccelProfile::Custom)
    }

    /// Reads the bitmask of the profiles that a device offers.
    pub fn from_bitmask(mask: u32) -> (r: Vec<AccelProfile>)
        ensures
            r@ == Self::listed(mask),
    {
        let mut profiles = Vec::new();
        if lists_flag(mask, LIBINPUT_CONFIG_ACCEL_PROFILE_FLAT) {
            profiles.push(AccelProfile::Flat);
        }
        if lists_flag(mask, LIBINPUT_CONFIG_ACCEL_PROFILE_ADAPTIVE) {
            profiles.push(AccelProfile::Adaptive);
        }
        if lists_flag(mask, LIBINPUT_CONFIG_ACCEL_PROFILE_CUSTOM) {
            profiles.push(AccelProfile::Custom);
        }
        assert(profiles@ =~= Self::listed(mask));
        profiles
    }

    /// What is listed is what the mask lists, and nothing is listed twice.
    /// The empty mask lists no profile, and the flag of a profile that profile
    /// alone.
    pub proof fn lemma_listed(mask: u32)
        ensures
            forall|profile: AccelProfile| #[trigger]
                Self::listed(mask).contains(profile) <==> lists(mask, profile.raw()),
            Self::listed(mask).no_duplicates(),
            mask == 0 ==> Self::listed(mask) == Seq::<AccelProfile>::empty(),
            forall|profile: AccelProfile|
                mask == #[trigger] profile.raw() ==> Self::listed(mask) == seq![profile],
    {
        let v0 = AccelProfile::Flat;
        let c0 = lists(mask, v0.raw());
        let p0 = pick(c0, v0);
        let v1 = AccelProfile::Adaptive;
        let c1 = lists(mask, v1.raw());
        let p1 = pick(c1, v1);
        let v2 = AccelProfile::Custom;
        let c2 = lists(mask, v2.raw());
        let p2 = pick(c2, v2);
        assert forall|profile: AccelProfile| #[trigger]
            Self::listed(mask).contains(profile) <==> lists(mask, profile.raw()) by {
            lemma_pick_contains(c0, v0, profile);
            lemma_pick_contains(c1, v1, profile);
            lemma_pick_contains(c2, v2, profile);
            lemma_add_contains(p0, p1, profile);
            lemma_add_contains(p0 + p1, p2, profile);
        }
        assert(p0.no_duplicates());
        lemma_pick_contains(c0, v0, v1);
        lemma_add_pick_no_duplicates(p0, c1, v1);
        lemma_pick_contains(c0, v0, v2);
        lemma_pick_contains(c1, v1, v2);
        lemma_add_contains(p0, p1, v2);
        lemma_add_pick_no_duplicates(p0 + p1, c2, v2);
        lemma_lists(mask, 0);
        if mask == 0 {
            assert(Self::listed(mask) =~= Seq::<AccelProfile>::empty());
        }
        assert forall|profile: AccelProfile| mask == #[trigger] profile.raw() implies Self::listed(
            mask,
        ) == seq![profile] by {
            assert(Self::listed(mask) =~= seq![profile]);
        }
    }
}

impl ClickMethod {
    /// The click methods that `mask` lists, in the order clickfinger, button
    /// areas.
    pub open spec fn listed(mask: u32) -> Seq<ClickMethod> {
        pick(lists(mask, ClickMethod::Clickfinger.raw()), ClickMethod::Clickfinger)
            + pick(lists(mask, ClickMethod::ButtonAreas.raw()), ClickMethod::ButtonAreas)
    }

    /// Reads the bitmask of the click methods that a device offers.
    pub fn from_bitmask(mask: u32) -> (r: Vec<ClickMethod>)
        ensures
            r@ == Self::listed(mask),
    {
        let mut methods = Vec::new();
        if lists_flag(mask, LIBINPUT_CONFIG_CLICK_METHOD_CLICKFINGER) {
            methods.push(ClickMethod::Clickfinger);
        }
        if lists_flag(mask, LIBINPUT_CONFIG_CLICK_METHOD_BUTTON_AREAS) {
            methods.push(ClickMethod::ButtonAreas);
        }
        assert(methods@ =~= Self::listed(mask));
        methods
    }

    /// What is listed is what the mask lists, and nothing is listed twice.
    /// The empty mask lists no method, and the flag of a method that method
    /// alone.
    pub proof fn lemma_listed(mask: u32)
        ensures
            forall|method: ClickMethod| #[trigger]
                Self::listed(mask).contains(method) <==> lists(mask, method.raw()),
            Self::listed(mask).no_duplicates(),
            mask == 0 ==> Self::listed(mask) == Seq::<ClickMethod>::empty(),
            forall|method: ClickMethod|
                mask == #[trigger] method.raw() ==> Self::listed(mask) == seq![method],
    {
        let v0 = ClickMethod::Clickfinger;
        let c0 = lists(mask, v0.raw());
        let p0 = pick(c0, v0);
        let v1 = ClickMethod::ButtonAreas;
        let c1 = lists(mask, v1.raw());
        let p1 = pick(c1, v1);
        assert forall|method: ClickMethod| #[trigger]
            Self::listed(mask).contains(method) <==> lists(mask, method.raw()) by {
            lemma_pick_contains(c0, v0, method);
            lemma_pick_contains(c1, v1, method);
            lemma_add_contains(p0, p1, method);
        }
        assert(p0.no_duplicates());
        lemma_pick_contains(c0, v0, v1);
        lemma_add_pick_no_duplicates(p0, c1, v1);
        lemma_lists(mask, 0);
        if mask == 0 {
            assert(Self::listed(mask) =~= Seq::<ClickMethod>::empty());
        }
        assert forall|method: ClickMethod| mask == #[trigger] method.raw() implies Self::listed(
            mask,
        ) == seq![method] by {
            assert(Self::listed(mask) =~= seq![method]);
        }
    }
}

impl ScrollMethod {
    /// The scroll methods that `mask` lists, in the order no scroll, two
    /// finger, edge, on button down.
    pub open spec fn listed(mask: u32) -> Seq<ScrollMethod> {
        pick(lists(mask, ScrollMethod::NoScroll.raw()), ScrollMethod::NoScroll)
            + pick(lists(mask, ScrollMethod::TwoFinger.raw()), ScrollMethod::TwoFinger)
            + pick(lists(mask, ScrollMethod::Edge.raw()), ScrollMethod::Edge)
            + pick(lists(mask, ScrollMethod::OnButtonDown.raw()), ScrollMethod::OnButtonDown)
    }

    /// Reads the bitmask of the scroll methods that a device offers.
    pub fn from_bitmask(mask: u32) -> (r: Vec<ScrollMethod>)
        ensures
            r@ == Self::listed(mask),
    {
        let mut methods = Vec::new();
        if lists_flag(mask, LIBINPUT_CONFIG_SCROLL_NO_SCROLL) {
            methods.push(ScrollMethod::NoScroll);
        }
        if lists_flag(mask, LIBINPUT_CONFIG_SCROLL_2FG) {
            methods.push(ScrollMethod::TwoFinger);
        }
        if lists_flag(mask, LIBINPUT_CONFIG_SCROLL_EDGE) {
            methods.push(ScrollMethod::Edge);
        }
        if lists_flag(mask, LIBINPUT_CONFIG_SCROLL_ON_BUTTON_DOWN) {
            methods.push(ScrollMethod::OnButtonDown);
        }
        assert(methods@ =~= Self::listed(mask));
        methods
    }

    /// What is listed is what the mask lists, and nothing is listed twice.
    /// The empty mask says that the device cannot scroll, and the flag of a
    /// method lists that method alone.
    pub proof fn lemma_listed(mask: u32)
        ensures
            forall|method: ScrollMethod| #[trigger]
                Self::listed(mask).contains(method) <==> lists(mask, method.raw()),
            Self::listed(mask).no_duplicates(),
            mask == 0 ==> Self::listed(mask) == seq![ScrollMethod::NoScroll],
            forall|method: ScrollMethod|
                mask == #[trigger] method.raw() ==> Self::listed(mask) == seq![method],
    {
        let v0 = ScrollMethod::NoScroll;
        let c0 = lists(mask, v0.raw());
        let p0 = pick(c0, v0);
        let v1 = ScrollMethod::TwoFinger;
        let c1 = lists(mask, v1.raw());
        let p1 = pick(c1, v1);
        let v2 = ScrollMethod::Edge;
        let c2 = lists(mask, v2.raw());
        let p2 = pick(c2, v2);
        let v3 = ScrollMethod::OnButtonDown;
        let c3 = lists(mask, v3.raw());
        let p3 = pick(c3, v3);
        assert forall|method: ScrollMethod| #[trigger]
            Self::listed(mask).contains(method) <==> lists(mask, method.raw()) by {
            lemma_pick_contains(c0, v0, method);
            lemma_pick_contains(c1, v1, method);
            lemma_pick_contains(c2, v2, method);
            lemma_pick_contains(c3, v3, method);
            lemma_add_contains(p0, p1, method);
            lemma_add_contains(p0 + p1, p2, method);
            lemma_add_contains(p0 + p1 + p2, p3, method);
        }
        assert(p0.no_duplicates());
        lemma_pick_contains(c0, v0, v1);
        lemma_add_pick_no_duplicates(p0, c1, v1);
        lemma_pick_contains(c0, v0, v2);
        lemma_pick_contains(c1, v1, v2);
        lemma_add_contains(p0, p1, v2);
        lemma_add_pick_no_duplicates(p0 + p1, c2, v2);
        lemma_pick_contains(c0, v0, v3);
        lemma_pick_contains(c1, v1, v3);
        lemma_pick_contains(c2, v2, v3);
        lemma_add_contains(p0, p1, v3);
        lemma_add_contains(p0 + p1, p2, v3);
        lemma_add_pick_no_duplicates(p0 + p1 + p2, c3, v3);
        lemma_lists(mask, 0);
        if mask == 0 {
            assert(Self::listed(mask) =~= seq![ScrollMethod::NoScroll]);
        }
        assert forall|method: ScrollMethod| mask == #[trigger] method.raw() implies Self::listed(
            mask,
        ) == seq![method] by {
            assert(Self::listed(mask) =~= seq![method]);
        }
    }
}

impl SendEventsMode {
    /// The modes that `mask` lists, in the order enabled, disabled, disabled
    /// on external mouse.
    pub open spec fn listed(mask: u32) -> Seq<SendEventsMode> {
        pick(lists(mask, SendEventsMode::Enabled.raw()), SendEventsMode::Enabled)
            + pick(lists(mask, SendEventsMode::Disabled.raw()), SendEventsMode::Disabled)
            + pick(
                lists(mask, SendEventsMode::DisabledOnExternalMouse.raw()),
                SendEventsMode::DisabledOnExternalMouse,
            )
    }

    /// Reads a bitmask of send-events modes: the one that a device is in, or
    /// the ones besides `Enabled` that it offers.
    pub fn from_bitmask(mask: u32) -> (r: Vec<SendEventsMode>)
        ensures
            r@ == Self::listed(mask),
    {
        let mut modes = Vec::new();
        if lists_flag(mask, LIBINPUT_CONFIG_SEND_EVENTS_ENABLED) {
            modes.push(SendEventsMode::Enabled);
        }
        if lists_flag(mask, LIBINPUT_CONFIG_SEND_EVENTS_DISABLED) {
            modes.push(SendEventsMode::Disabled);
        }
        if lists_flag(mask, LIBINPUT_CONFIG_SEND_EVENTS_DISABLED_ON_EXTERNAL_MOUSE) {
            modes.push(SendEventsMode::DisabledOnExternalMouse);
        }
        assert(modes@ =~= Self::listed(mask));
        modes
    }

    /// What is listed is what the mask lists, and nothing is listed twice.
    /// The empty mask says that events are sent normally, and the flag of a
    /// mode lists that mode alone.
    pub proof fn lemma_listed(mask: u32)
        ensures
            forall|mode: SendEventsMode| #[trigger]
                Self::listed(mask).contains(mode) <==> lists(mask, mode.raw()),
            Self::listed(mask).no_duplicates(),
            mask == 0 ==> Self::listed(mask) == seq![SendEventsMode::Enabled],
            forall|mode: SendEventsMode|
                mask == #[trigger] mode.raw() ==> Self::listed(mask) == seq![mode],
    {
        let v0 = SendEventsMode::Enabled;
        let c0 = lists(mask, v0.raw());
        let p0 = pick(c0, v0);
        let v1 = SendEventsMode::Disabled;
        let c1 = lists(mask, v1.raw());
        let p1 = pick(c1, v1);
        let v2 = SendEventsMode::DisabledOnExternalMouse;
        let c2 = lists(mask, v2.raw());
        let p2 = pick(c2, v2);
        assert forall|mode: SendEventsMode| #[trigger]
            Self::listed(mask).contains(mode) <==> lists(mask, mode.raw()) by {
            lemma_pick_contains(c0, v0, mode);
            lemma_pick_contains(c1, v1, mode);
            lemma_pick_contains(c2, v2, mode);
            lemma_add_contains(p0, p1, mode);
            lemma_add_contains(p0 + p1, p2, mode);
        }
        assert(p0.no_duplicates());
        lemma_pick_contains(c0, v0, v1);
        lemma_add_pick_no_duplicates(p0, c1, v1);
        lemma_pick_contains(c0, v0, v2);
        lemma_pick_contains(c1, v1, v2);
        lemma_add_contains(p0, p1, v2);
        lemma_add_pick_no_duplicates(p0 + p1, c2, v2);
        lemma_lists(mask, 0);
        if mask == 0 {
            assert(Self::listed(mask) =~= seq![SendEventsMode::Enabled]);
        }
        assert forall|mode: SendEventsMode| mask == #[trigger] mode.raw() implies Self::listed(
            mask,
        ) == seq![mode] by {
            assert(Self::listed(mask) =~= seq![mode]);
        }
    }
}

/// `flag` where `present` holds, no bit where it does not.
pub open spec fn flag_if(present: bool, flag: u32) -> u32 {
    if present {
        flag
    } else {
        0
    }
}

/// A sequence with one more item holds what it held before, and that item.
proof fn lemma_contains_push<T>(items: Seq<T>, last: T, needle: T)
    ensures
        items.push(last).contains(needle) <==> items.contains(needle) || needle == last,
{
    let longer = items.push(last);
    if items.contains(needle) {
        let i = choose|i: int| 0 <= i < items.len() && items[i] == needle;
        assert(longer[i] == needle);
    }
    if needle == last {
        assert(longer[items.len() as int] == needle);
    }
    if longer.contains(needle) {
        let i = choose|i: int| 0 <= i < longer.len() && longer[i] == needle;
        if i < items.len() {
            assert(items[i] == needle);
        }
    }
}

impl Led {
    /// The bitmask that switches on the LEDs that occur in `leds`, and no
    /// other: the union of their flags. Neither the order of `leds` nor how
    /// often one occurs matters.
    pub open spec fn mask_of(leds: Seq<Led>) -> u32 {
        flag_if(leds.contains(Led::NumLock), LIBINPUT_LED_NUM_LOCK) | flag_if(
            leds.contains(Led::CapsLock),
            LIBINPUT_LED_CAPS_LOCK,
        ) | flag_if(leds.contains(Led::ScrollLock), LIBINPUT_LED_SCROLL_LOCK)
    }

    /// One more LED adds its flag to the mask.
    pub proof fn lemma_mask_push(leds: Seq<Led>, last: Led)
        ensures
            Self::mask_of(leds.push(last)) == Self::mask_of(leds) | last.raw(),
    {
        lemma_contains_push(leds, last, Led::NumLock);
        lemma_contains_push(leds, last, Led::CapsLock);
        lemma_contains_push(leds, last, Led::ScrollLock);
        let a = flag_if(leds.contains(Led::NumLock), LIBINPUT_LED_NUM_LOCK);
        let b = flag_if(leds.contains(Led::CapsLock), LIBINPUT_LED_CAPS_LOCK);
        let c = flag_if(leds.contains(Led::ScrollLock), LIBINPUT_LED_SCROLL_LOCK);
        assert((a | b | c) | 1 == 1 | b | c) by (bit_vector)
            requires
                a == 0 || a == 1,
        ;
        assert((a | b | c) | 2 == a | 2 | c) by (bit_vector)
            requires
                b == 0 || b == 2,
        ;
        assert((a | b | c) | 4 == a | b | 4) by (bit_vector)
            requires
                c == 0 || c == 4,
        ;
    }

    /// The mask holds the flag of a LED exactly where the LED occurs, and no
    /// bit that is not the flag of a LED.
    pub proof fn lemma_mask_bits(leds: Seq<Led>, led: Led)
        ensures
            Self::mask_of(leds) & led.raw() == led.raw() <==> leds.contains(led),
            Self::mask_of(leds) & led.raw() == 0 <==> !leds.contains(led),
            Self::mask_of(leds) <= 7,
    {
        let a = flag_if(leds.contains(Led::NumLock), LIBINPUT_LED_NUM_LOCK);
        let b = flag_if(leds.contains(Led::CapsLock), LIBINPUT_LED_CAPS_LOCK);
        let c = flag_if(leds.contains(Led::ScrollLock), LIBINPUT_LED_SCROLL_LOCK);
        assert(((a | b | c) & 1 == a) && ((a | b | c) & 2 == b) && ((a | b | c) & 4 == c) && (a
            | b | c) <= 7) by (bit_vector)
            requires
                a == 0 || a == 1,
                b == 0 || b == 2,
                c == 0 || c == 4,
        ;
    }

    /// Builds the bitmask that switches on the LEDs in `leds`, and no other.
    pub fn to_bitmask(leds: &[Led]) -> (r: u32)
        ensures
            r == Self::mask_of(leds@),
    {
        let mut bitmask: u32 = 0;
        let mut i: usize = 0;
        assert(0u32 | 0u32 | 0u32 == 0u32) by (bit_vector);
        assert(leds@.take(0) =~= Seq::<Led>::empty());
        while i < leds.len()
            invariant
                i <= leds.len(),
                bitmask == Self::mask_of(leds@.take(i as int)),
            decreases leds.len() - i,
        {
            let flag = leds[i].to_raw();
            proof {
                Self::lemma_mask_push(leds@.take(i as int), leds@[i as int]);
                assert(leds@.take(i + 1) =~= leds@.take(i as int).push(leds@[i as int]));
            }
            bitmask = bitmask | flag;
            i = i + 1;
        }
        assert(leds@.take(leds.len() as int) =~= leds@);
        bitmask
    }
}

impl SendEventsMode {
    /// The bitmask that asks for the modes that occur in `modes`: the union
    /// of their flags. `Enabled` is the empty flag and adds no bit. Neither
    /// the order of `modes` nor how often one occurs matters.
    pub open spec fn mask_of(modes: Seq<SendEventsMode>) -> u32 {
        flag_if(modes.contains(SendEventsMode::Disabled), LIBINPUT_CONFIG_SEND_EVENTS_DISABLED)
            | flag_if(
            modes.contains(SendEventsMode::DisabledOnExternalMouse),
            LIBINPUT_CONFIG_SEND_EVENTS_DISABLED_ON_EXTERNAL_MOUSE,
        )
    }

    /// One more mode adds its flag to the mask.
    pub proof fn lemma_mask_push(modes: Seq<SendEventsMode>, last: SendEventsMode)
        ensures
            Self::mask_of(modes.push(last)) == Self::mask_of(modes) | last.raw(),
    {
        lemma_contains_push(modes, last, SendEventsMode::Disabled);
        lemma_contains_push(modes, last, SendEventsMode::DisabledOnExternalMouse);
        let a = flag_if(
            modes.contains(SendEventsMode::Disabled),
            LIBINPUT_CONFIG_SEND_EVENTS_DISABLED,
        );
        let b = flag_if(
            modes.contains(SendEventsMode::DisabledOnExternalMouse),
            LIBINPUT_CONFIG_SEND_EVENTS_DISABLED_ON_EXTERNAL_MOUSE,
        );
        assert((a | b) | 0 == a | b) by (bit_vector);
        assert((a | b) | 1 == 1 | b) by (bit_vector)
            requires
                a == 0 || a == 1,
        ;
        assert((a | b) | 2 == a | 2) by (bit_vector)
            requires
                b == 0 || b == 2,
        ;
    }

    /// The mask holds the flag of a disabling mode exactly where the mode
    /// occurs, and no other bit; it is empty where `modes` holds nothing but
    /// `Enabled`.
    pub proof fn lemma_mask_bits(modes: Seq<SendEventsMode>, mode: SendEventsMode)
        ensures
            mode != SendEventsMode::Enabled ==> (Self::mask_of(modes) & mode.raw() == mode.raw()
                <==> modes.contains(mode)),
            Self::mask_of(modes) <= 3,
            Self::mask_of(modes) == 0 <==> !modes.contains(SendEventsMode::Disabled)
                && !modes.contains(SendEventsMode::DisabledOnExternalMouse),
    {
        let a = flag_if(
            modes.contains(SendEventsMode::Disabled),
            LIBINPUT_CONFIG_SEND_EVENTS_DISABLED,
        );
        let b = flag_if(
            modes.contains(SendEventsMode::DisabledOnExternalMouse),
            LIBINPUT_CONFIG_SEND_EVENTS_DISABLED_ON_EXTERNAL_MOUSE,
        );
        assert(((a | b) & 1 == a) && ((a | b) & 2 == b) && (a | b) <= 3 && ((a | b) == 0 <==> a
            == 0 && b == 0)) by (bit_vector)
            requires
                a == 0 || a == 1,
                b == 0 || b == 2,
        ;
    }

    /// Reading a mask that was built from `modes` gives the disabling modes
    /// among them back, and `Enabled` where there is none among them.
    pub proof fn lemma_read_back(modes: Seq<SendEventsMode>, mode: SendEventsMode)
        ensures
            mode != SendEventsMode::Enabled ==> (Self::listed(Self::mask_of(modes)).contains(mode)
                <==> modes.contains(mode)),
            Self::listed(Self::mask_of(modes)).contains(SendEventsMode::Enabled)
                <==> !modes.contains(SendEventsMode::Disabled) && !modes.contains(
                SendEventsMode::DisabledOnExternalMouse,
            ),
    {
        let mask = Self::mask_of(modes);
        Self::lemma_listed(mask);
        Self::lemma_mask_bits(modes, mode);
        assert((mask & 1 != 0 <==> mask & 1 == 1) && (mask & 2 != 0 <==> mask & 2 == 2))
            by (bit_vector);
    }

    /// Builds the bitmask that asks for the modes in `modes`.
    pub fn to_bitmask(modes: &[SendEventsMode]) -> (r: u32)
        ensures
            r == Self::mask_of(modes@),
    {
        let mut bitmask: u32 = 0;
        let mut i: usize = 0;
        assert(0u32 | 0u32 == 0u32) by (bit_vector);
        assert(modes@.take(0) =~= Seq::<SendEventsMode>::empty());
        while i < modes.len()
            invariant
                i <= modes.len(),
                bitmask == Self::mask_of(modes@.take(i as int)),
            decreases modes.len() - i,
        {
            let flag = modes[i].to_raw();
            proof {
                Self::lemma_mask_push(modes@.take(i as int), modes@[i as int]);
                assert(modes@.take(i + 1) =~= modes@.take(i as int).push(modes@[i as int]));
            }
            bitmask = bitmask | flag;
            i = i + 1;
        }
        assert(modes@.take(modes.len() as int) =~= modes@);
        bitmask
    }
}

/// `..._DISABLED` of the two-state configuration enumerations: tapping,
/// tap-and-drag, drag lock, middle button emulation, disable-while-typing.
pub const CONFIG_STATE_DISABLED: u32 = 0;
/// `..._ENABLED` of the same enumerations.
pub const CONFIG_STATE_ENABLED: u32 = 1;

/// The number by which a two-state configuration enumeration says whether
/// the feature is enabled.
pub open spec fn state_raw(enabled: bool) -> u32 {
    if enabled {
        CONFIG_STATE_ENABLED
    } else {
        CONFIG_STATE_DISABLED
    }
}

/// Writes `enabled` as a value of a two-state configuration enumeration.
pub fn state_to_raw(enabled: bool) -> (r: u32)
    ensures
        r == state_raw(enabled),
{
    if enabled {
        CONFIG_STATE_ENABLED
    } else {
        CONFIG_STATE_DISABLED
    }
}

/// Whether the two-state configuration value `code` says that the feature
/// is enabled, or `None` where the number is neither of the two: the inverse
/// of `state_raw`.
pub open spec fn state_of(code: u32) -> Option<bool> {
    if code == CONFIG_STATE_ENABLED {
        Some(true)
    } else if code == CONFIG_STATE_DISABLED {
        Some(false)
    } else {
        None
    }
}

/// `state_of` is the inverse of `state_raw`.
pub proof fn lemma_state_of(code: u32, enabled: bool)
    ensures
        state_of(code) == Some(enabled) <==> state_raw(enabled) == code,
        state_of(code) is None <==> forall|other: bool| #[trigger] state_raw(other) != code,
{
    if let Some(found) = state_of(code) {
        assert(state_raw(found) == code);
    }
}

/// Reads a value of a two-state configuration enumeration: whether the
/// feature is enabled, or `None` where the number is neither of the two.
pub fn state_from_raw(code: u32) -> (r: Option<bool>)
    ensures
        r == state_of(code),
        r matches Some(enabled) ==> state_raw(enabled) == code,
        r is None ==> forall|enabled: bool| #[trigger] state_raw(enabled) != code,
{
    if code == CONFIG_STATE_ENABLED {
        Some(true)
    } else if code == CONFIG_STATE_DISABLED {
        Some(false)
    } else {
        None
    }
}

/// The number by which a device answers whether it has a button or a key:
/// `1` for yes, `0` for no, `-1` where it cannot have any.
pub open spec fn has_raw(answer: Result<bool, ()>) -> int {
    match answer {
        Ok(true) => 1,
        Ok(false) => 0,
        Err(_) => -1,
    }
}

/// The answer that `code` gives to whether a device has a button or a key.
/// The error says that the device has no capability to have one. `None`
/// stands for a number outside the three that libinput documents. This is
/// the inverse of `has_raw`.
pub open spec fn has_of(code: i32) -> Option<Result<bool, ()>> {
    if code == 1 {
        Some(Ok(true))
    } else if code == 0 {
        Some(Ok(false))
    } else if code == -1 {
        Some(Err(()))
    } else {
        None
    }
}

/// `has_of` is the inverse of `has_raw`.
pub proof fn lemma_has_of(code: i32, answer: Result<bool, ()>)
    ensures
        has_of(code) == Some(answer) <==> has_raw(answer) == code,
        has_of(code) is None <==> forall|other: Result<bool, ()>| #[trigger] has_raw(other)
            != code,
{
    match answer {
        Ok(_) => {},
        Err(unit) => assert(unit == ()),
    }
    if let Some(found) = has_of(code) {
        assert(has_raw(found) == code);
    }
}

/// Reads the answer of a device to whether it has a button or a key: the
/// answer that `code` stands for, or `None` where it stands for none.
pub fn has_result(code: i32) -> (r: Option<Result<bool, ()>>)
    ensures
        r == has_of(code),
        r matches Some(answer) ==> has_raw(answer) == code,
        r is None ==> forall|answer: Result<bool, ()>| #[trigger] has_raw(answer) != code,
{
    if code == 1 {
        Some(Ok(true))
    } else if code == 0 {
        Some(Ok(false))
    } else if code == -1 {
        Some(Err(()))
    } else {
        None
    }
}

/// Reads what came back from giving a device a new logical seat name:
/// `0` is success, any other number a failure.
pub fn seat_name_result(code: i32) -> (r: Result<(), ()>)
    ensures
        r is Ok <==> code == 0,
{
    if code == 0 {
        Ok(())
    } else {
        Err(())
    }
}

} // verus!
