//! Pointer acceleration

use vstd::prelude::*;

verus! {

/// `LIBINPUT_ACCEL_TYPE_FALLBACK`
pub const LIBINPUT_ACCEL_TYPE_FALLBACK: u32 = 0;
/// `LIBINPUT_ACCEL_TYPE_MOTION`
pub const LIBINPUT_ACCEL_TYPE_MOTION: u32 = 1;
/// `LIBINPUT_ACCEL_TYPE_SCROLL`
pub const LIBINPUT_ACCEL_TYPE_SCROLL: u32 = 2;

/// Acceleration types are categories of movement by a device that may have
/// specific acceleration functions applied.
#[derive(Debug, Clone, Copy, PartialEq, Eq, Hash)]
pub enum AccelType {
    /// The default acceleration type used as a fallback when other
    /// acceleration types are not provided.
    Fallback,
    /// Acceleration type for regular pointer movement. This type is always
    /// supported.
    Motion,
    /// Acceleration type for scroll movement. This type is supported by mouse
    /// and touchpad.
    Scroll,
}

impl AccelType {
    /// The `libinput_config_accel_type` that stands for this value.
    pub open spec fn raw(self) -> u32 {
        match self {
            AccelType::Fallback => LIBINPUT_ACCEL_TYPE_FALLBACK,
            AccelType::Motion => LIBINPUT_ACCEL_TYPE_MOTION,
            AccelType::Scroll => LIBINPUT_ACCEL_TYPE_SCROLL,
        }
    }

    /// No two values share a number.
    pub proof fn lemma_raw_injective(a: AccelType, b: AccelType)
        requires
            a.raw() == b.raw(),
        ensures
            a == b,
    {
    }

    /// Writes this value as a `libinput_config_accel_type`.
    pub fn to_raw(self) -> (r: u32)
        ensures
            r == self.raw(),
    {
        match self {
            AccelType::Fallback => LIBINPUT_ACCEL_TYPE_FALLBACK,
            AccelType::Motion => LIBINPUT_ACCEL_TYPE_MOTION,
            AccelType::Scroll => LIBINPUT_ACCEL_TYPE_SCROLL,
        }
    }
}

/// Whether `npoints` points can be read from a list that holds `len`: no
/// more points may be announced than are there.
pub open spec fn in_reach(npoints: usize, len: usize) -> bool {
    npoints <= len
}

/// Tells whether `npoints` points can be read from a list that holds `len`
/// of them. Where they cannot, the points are not to be handed on: the
/// reader would go past the end of the list.
pub fn points_in_reach(npoints: usize, len: usize) -> (r: bool)
    ensures
        r == in_reach(npoints, len),
{
    npoints <= len
}

} // verus!
