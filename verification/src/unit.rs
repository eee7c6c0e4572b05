//! The unit of "artwork space" and the numeric helper traits.
//!
//! Geometry in this crate is measured in [`ArtworkSpaceUnit`]s, a thin wrapper around `u32` that keeps
//! artwork coordinates from being mixed up with coordinates of other spaces (windows, screens).

use vstd::prelude::*;
use vstd::std_specs::convert::FromSpecImpl;
use vstd::std_specs::ops::{AddSpecImpl, DivSpecImpl, MulSpecImpl, RemSpecImpl, SubSpecImpl};

verus! {

/// Returns the value zero (0) for a type.
pub trait Zero: Sized {
    /// Returns the value zero.
    fn zero() -> Self;
}

/// Returns the value one (1) for a type.
pub trait One: Sized {
    /// Returns the value one.
    fn one() -> Self;
}

/// The identifier of "artwork space", the space of surfaces, sprites, cels and animations.
///
/// Keeping spaces apart avoids mixing up positions in a sprite with positions in a window or on a
/// screen; translating between spaces is done explicitly.
#[derive(Copy, Clone, Debug, PartialEq, Eq, Structural)]
pub struct ArtworkSpace;

/// The unit for "artwork space": a non-negative integer coordinate or length.
#[derive(Copy, Clone, Debug, PartialEq, Eq, Hash)]
pub struct ArtworkSpaceUnit(pub u32);

impl ArtworkSpaceUnit {
    /// Retrieves the raw value.
    pub fn raw(&self) -> (r: u32)
        ensures
            r == self.0,
    {
        self.0
    }

    /// Converts the value into a `usize`.
    pub fn into_usize(self) -> (r: usize)
        ensures
            r == self.0,
    {
        self.0 as usize
    }
}

impl Zero for ArtworkSpaceUnit {
    fn zero() -> (r: ArtworkSpaceUnit)
        ensures
            r.0 == 0,
    {
        ArtworkSpaceUnit(0)
    }
}

impl One for ArtworkSpaceUnit {
    fn one() -> (r: ArtworkSpaceUnit)
        ensures
            r.0 == 1,
    {
        ArtworkSpaceUnit(1)
    }
}

impl From<u32> for ArtworkSpaceUnit {
    fn from(value: u32) -> (r: ArtworkSpaceUnit) {
        ArtworkSpaceUnit(value)
    }
}

impl FromSpecImpl<u32> for ArtworkSpaceUnit {
    open spec fn obeys_from_spec() -> bool {
        true
    }

    open spec fn from_spec(v: u32) -> ArtworkSpaceUnit {
        ArtworkSpaceUnit(v)
    }
}

impl core::ops::Add for ArtworkSpaceUnit {
    type Output = ArtworkSpaceUnit;

    fn add(self, rhs: ArtworkSpaceUnit) -> (r: ArtworkSpaceUnit) {
        ArtworkSpaceUnit(self.0 + rhs.0)
    }
}

impl AddSpecImpl for ArtworkSpaceUnit {
    open spec fn obeys_add_spec() -> bool {
        true
    }

    open spec fn add_req(self, rhs: ArtworkSpaceUnit) -> bool {
        self.0 + rhs.0 <= u32::MAX
    }

    open spec fn add_spec(self, rhs: ArtworkSpaceUnit) -> ArtworkSpaceUnit {
        ArtworkSpaceUnit((self.0 + rhs.0) as u32)
    }
}

impl core::ops::Sub for ArtworkSpaceUnit {
    type Output = ArtworkSpaceUnit;

    fn sub(self, rhs: ArtworkSpaceUnit) -> (r: ArtworkSpaceUnit) {
        ArtworkSpaceUnit(self.0 - rhs.0)
    }
}

impl SubSpecImpl for ArtworkSpaceUnit {
    open spec fn obeys_sub_spec() -> bool {
        true
    }

    open spec fn sub_req(self, rhs: ArtworkSpaceUnit) -> bool {
        rhs.0 <= self.0
    }

    open spec fn sub_spec(self, rhs: ArtworkSpaceUnit) -> ArtworkSpaceUnit {
        ArtworkSpaceUnit((self.0 - rhs.0) as u32)
    }
}

impl core::ops::Mul for ArtworkSpaceUnit {
    type Output = ArtworkSpaceUnit;

    fn mul(self, rhs: ArtworkSpaceUnit) -> (r: ArtworkSpaceUnit) {
        ArtworkSpaceUnit(self.0 * rhs.0)
    }
}

impl MulSpecImpl for ArtworkSpaceUnit {
    open spec fn obeys_mul_spec() -> bool {
        true
    }

    open spec fn mul_req(self, rhs: ArtworkSpaceUnit) -> bool {
        self.0 * rhs.0 <= u32::MAX
    }

    open spec fn mul_spec(self, rhs: ArtworkSpaceUnit) -> ArtworkSpaceUnit {
        ArtworkSpaceUnit((self.0 * rhs.0) as u32)
    }
}

impl core::ops::Div for ArtworkSpaceUnit {
    type Output = ArtworkSpaceUnit;

    fn div(self, rhs: ArtworkSpaceUnit) -> (r: ArtworkSpaceUnit) {
        ArtworkSpaceUnit(self.0 / rhs.0)
    }
}

impl DivSpecImpl for ArtworkSpaceUnit {
    open spec fn obeys_div_spec() -> bool {
        true
    }

    open spec fn div_req(self, rhs: ArtworkSpaceUnit) -> bool {
        rhs.0 != 0
    }

    open spec fn div_spec(self, rhs: ArtworkSpaceUnit) -> ArtworkSpaceUnit {
        ArtworkSpaceUnit((self.0 / rhs.0) as u32)
    }
}

impl core::ops::Rem for ArtworkSpaceUnit {
    type Output = ArtworkSpaceUnit;

    fn rem(self, rhs: ArtworkSpaceUnit) -> (r: ArtworkSpaceUnit) {
        ArtworkSpaceUnit(self.0 % rhs.0)
    }
}

impl RemSpecImpl for ArtworkSpaceUnit {
    open spec fn obeys_rem_spec() -> bool {
        true
    }

    open spec fn rem_req(self, rhs: ArtworkSpaceUnit) -> bool {
        rhs.0 != 0
    }

    open spec fn rem_spec(self, rhs: ArtworkSpaceUnit) -> ArtworkSpaceUnit {
        ArtworkSpaceUnit((self.0 % rhs.0) as u32)
    }
}

} // verus!
