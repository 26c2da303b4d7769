//! The SD configuration register (SCR).

use vstd::prelude::*;
use crate::bits::{bits8, field_u8};
use crate::sd::sd_physical_specification::SdPhysicalSpecification;

verus! {

/// The 64 bits of the SD configuration register, in the order in which the
/// card sends them: the first byte holds the bits 63 to 56.
#[derive(Clone, Copy, Debug, PartialEq, Eq)]
pub struct ScrRegister {
    pub val: [u8; 8],
}

impl From<[u8; 8]> for ScrRegister {
    fn from(val: [u8; 8]) -> (r: Self) {
        ScrRegister { val }
    }
}

impl vstd::std_specs::convert::FromSpecImpl<[u8; 8]> for ScrRegister {
    open spec fn obeys_from_spec() -> bool {
        true
    }

    open spec fn from_spec(val: [u8; 8]) -> Self {
        ScrRegister { val }
    }
}

impl ScrRegister {
    /// The revision of the physical layer specification (bits 56 to 59).
    pub fn sd_specification_version(&self) -> (r: SdPhysicalSpecification)
        ensures
            r == SdPhysicalSpecification::of_code(bits8(self.val[0], 0, 4)),
    {
        SdPhysicalSpecification::from(field_u8(self.val[0], 0, 4))
    }
}

} // verus!
