//! The SD specification revision register of the common control bank.

use vstd::prelude::*;
use crate::bits::{bits8, field_u8, put_field_u8, with_bits8};
use crate::registers::register_address::RegisterAddress;
use crate::sd::sd_physical_specification::SdPhysicalSpecification;

verus! {

/// The register that tells which revision of the physical layer
/// specification the card follows.
#[derive(Clone, Copy, Debug, PartialEq, Eq, Structural)]
pub struct SdPhysicalSpecificationRegister {
    pub val: u8,
}

impl RegisterAddress for SdPhysicalSpecificationRegister {
    fn address() -> (r: u8)
        ensures
            r == 0x01,
    {
        0x01
    }
}

impl SdPhysicalSpecificationRegister {
    /// Writes the code of the revision into the register.
    pub fn set_specification(&mut self, val: SdPhysicalSpecification)
        ensures
            final(self).val == with_bits8(old(self).val, 0, 8, val.spec_code()),
            bits8(final(self).val, 0, 8) == val.spec_code(),
    {
        put_field_u8(&mut self.val, 0, 8, val.code());
    }

    /// The revision that the register holds.
    pub fn specification(&self) -> (r: SdPhysicalSpecification)
        ensures
            r == SdPhysicalSpecification::of_code(bits8(self.val, 0, 8)),
    {
        SdPhysicalSpecification::from(field_u8(self.val, 0, 8))
    }
}

} // verus!
