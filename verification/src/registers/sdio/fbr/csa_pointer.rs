//! The pointer to the code storage area of a function.

use vstd::prelude::*;
use crate::bits::{bits32, field_u32, put_field_u32, with_bits32};
use crate::registers::register_address::RegisterAddress;

verus! {

/// The address pointer to the code storage area, in three parts of seven
/// bits: the low part in bits 16 to 22, the middle part in bits 8 to 14, the
/// high part in bits 0 to 6.
#[derive(Clone, Copy, Debug, PartialEq, Eq, Structural)]
pub struct CsaPointerRegister {
    pub val: u32,
}

impl RegisterAddress for CsaPointerRegister {
    fn address() -> (r: u8)
        ensures
            r == 0x09,
    {
        0x09
    }
}

impl CsaPointerRegister {
    /// Writes the low part.
    pub fn set_lsb(&mut self, val: u8)
        requires
            val <= 0x7f,
        ensures
            final(self).val == with_bits32(old(self).val, 16, 23, val as u32),
            bits32(final(self).val, 16, 23) == val,
    {
        put_field_u32(&mut self.val, 16, 23, val as u32);
    }

    /// The low part.
    pub fn lsb(&self) -> (r: u8)
        ensures
            r == bits32(self.val, 16, 23),
            r <= 0x7f,
    {
        field_u32(self.val, 16, 23) as u8
    }

    /// Writes the middle part.
    pub fn set_mid(&mut self, val: u8)
        requires
            val <= 0x7f,
        ensures
            final(self).val == with_bits32(old(self).val, 8, 15, val as u32),
            bits32(final(self).val, 8, 15) == val,
    {
        put_field_u32(&mut self.val, 8, 15, val as u32);
    }

    /// The middle part.
    pub fn mid(&self) -> (r: u8)
        ensures
            r == bits32(self.val, 8, 15),
            r <= 0x7f,
    {
        field_u32(self.val, 8, 15) as u8
    }

    /// Writes the high part.
    pub fn set_msb(&mut self, val: u8)
        requires
            val <= 0x7f,
        ensures
            final(self).val == with_bits32(old(self).val, 0, 7, val as u32),
            bits32(final(self).val, 0, 7) == val,
    {
        put_field_u32(&mut self.val, 0, 7, val as u32);
    }

    /// The high part.
    pub fn msb(&self) -> (r: u8)
        ensures
            r == bits32(self.val, 0, 7),
            r <= 0x7f,
    {
        field_u32(self.val, 0, 7) as u8
    }

    /// The whole register.
    pub fn value(&self) -> (r: u32)
        ensures
            r == self.val,
    {
        self.val
    }
}

} // verus!
