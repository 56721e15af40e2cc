//! Display orientations.

use vstd::prelude::*;

verus! {

/// The bit of the memory access control register that selects BGR colour
/// order. The orientation bits lie elsewhere in the same register.
pub const MADCTL_BGR: u8 = 0x08;

/// Display orientation.
#[derive(Clone, Copy, Debug, PartialEq, Eq)]
pub enum Orientation {
    Portrait,
    Landscape,
    PortraitSwapped,
    LandscapeSwapped,
}

impl Orientation {
    /// The row/column exchange and mirror bits that select this orientation
    /// in the memory access control register.
    pub open spec fn bits(self) -> u8 {
        match self {
            Orientation::Portrait => 0x00,
            Orientation::Landscape => 0x60,
            Orientation::PortraitSwapped => 0xC0,
            Orientation::LandscapeSwapped => 0xA0,
        }
    }

    /// Returns the bits that select this orientation in the memory access
    /// control register.
    pub fn to_u8(&self) -> (byte: u8)
        ensures
            byte == self.bits(),
    {
        match self {
            Orientation::Portrait => 0x00,
            Orientation::Landscape => 0x60,
            Orientation::PortraitSwapped => 0xC0,
            Orientation::LandscapeSwapped => 0xA0,
        }
    }
}

} // verus!
