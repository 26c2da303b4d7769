//! Revisions of the SD physical layer specification.

use vstd::prelude::*;

verus! {

/// The revision of the physical layer specification that a card follows.
#[derive(Clone, Copy, Debug, PartialEq, Eq, Structural)]
pub enum SdPhysicalSpecification {
    /// Revision 1.0 and 1.01.
    Revision1d01,
    /// Revision 1.10.
    Revision1d10,
    /// Revision 2.00.
    Revision2d00,
    /// Revision 3.0x.
    Revision3d0x,
    /// A code that is not assigned.
    Unknown,
}

impl SdPhysicalSpecification {
    /// The code of the revision in a register.
    pub open spec fn spec_code(self) -> u8 {
        match self {
            SdPhysicalSpecification::Revision1d01 => 0,
            SdPhysicalSpecification::Revision1d10 => 1,
            SdPhysicalSpecification::Revision2d00 => 2,
            SdPhysicalSpecification::Revision3d0x => 3,
            SdPhysicalSpecification::Unknown => 4,
        }
    }

    /// The revision that a register code stands for.
    pub open spec fn of_code(code: u8) -> SdPhysicalSpecification {
        if code == 0 {
            SdPhysicalSpecification::Revision1d01
        } else if code == 1 {
            SdPhysicalSpecification::Revision1d10
        } else if code == 2 {
            SdPhysicalSpecification::Revision2d00
        } else if code == 3 {
            SdPhysicalSpecification::Revision3d0x
        } else {
            SdPhysicalSpecification::Unknown
        }
    }

    /// The code of the revision in a register.
    pub fn code(self) -> (r: u8)
        ensures
            r == self.spec_code(),
    {
        match self {
            SdPhysicalSpecification::Revision1d01 => 0,
            SdPhysicalSpecification::Revision1d10 => 1,
            SdPhysicalSpecification::Revision2d00 => 2,
            SdPhysicalSpecification::Revision3d0x => 3,
            SdPhysicalSpecification::Unknown => 4,
        }
    }
}

impl From<u8> for SdPhysicalSpecification {
    fn from(code: u8) -> (r: Self) {
        if code == 0 {
            SdPhysicalSpecification::Revision1d01
        } else if code == 1 {
            SdPhysicalSpecification::Revision1d10
        } else if code == 2 {
            SdPhysicalSpecification::Revision2d00
        } else if code == 3 {
            SdPhysicalSpecification::Revision3d0x
        } else {
            SdPhysicalSpecification::Unknown
        }
    }
}

impl vstd::std_specs::convert::FromSpecImpl<u8> for SdPhysicalSpecification {
    open spec fn obeys_from_spec() -> bool {
        true
    }

    open spec fn from_spec(code: u8) -> Self {
        SdPhysicalSpecification::of_code(code)
    }
}

} // verus!
