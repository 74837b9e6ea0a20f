//! Typed model of libinput's C interface.
//!
//! libinput speaks in numbers: enumerations, bitmasks, status codes and
//! event types. This crate gives each of them a Rust type and proves the
//! tables that lead from one to the other. The numbers are those of
//! libinput's public header, each under the name it has there.
//!
//! The crate holds no handle to libinput itself. A caller hands in the
//! numbers that libinput returned and reads the answer, or asks for the
//! number to hand to libinput:
//!
//! - a value of an enumeration is written by `to_raw` and read by
//!   `from_raw`, which is proved to be the inverse of `raw`;
//! - a bitmask is read by `from_bitmask` and built by `to_bitmask`;
//! - a status is read into a `Result`;
//! - an event is sorted by its type into the variant of that type, around
//!   a handle of the caller's choosing.
//!
//! No function here panics. Where libinput documents a set of numbers, a
//! number outside it is answered with `None`, for the caller to deal with.

pub mod accel_config;
pub mod context;
pub mod device;
pub mod event;

pub use accel_config::AccelType;
pub use device::{
    AccelProfile, ClickMethod, DeviceCapability, DeviceConfigError, DeviceConfigResult, Led,
    LibinputDeviceCapability, ScrollMethod, SendEventsMode, TapButtonMap,
};
pub use event::Event;
