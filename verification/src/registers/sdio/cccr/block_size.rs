//! The block size of function 0.

use vstd::prelude::*;
use crate::bits::{bits16, field_u16, put_field_u16, with_bits16};
use crate::registers::register_address::RegisterAddress;

verus! {

/// The block size of function 0, two bytes: the low byte of the size in
/// bits 8 to 15, the high byte in bits 0 to 7.
#[derive(Clone, Copy, Debug, PartialEq, Eq, Structural)]
pub struct BlockSize {
    pub val: u16,
}

impl RegisterAddress for BlockSize {
    fn address() -> (r: u8)
        ensures
            r == 0x10,
    {
        0x10
    }
}

/// Writing one byte of a 16-bit word leaves the other byte as it is.
pub proof fn lemma_halves(val: u16, byte: u16)
    by (bit_vector)
    requires
        byte <= 0xff,
    ensures
        bits16(with_bits16(val, 8, 16, byte), 0, 8) == bits16(val, 0, 8),
        bits16(with_bits16(val, 0, 8, byte), 8, 16) == bits16(val, 8, 16),
{
}

impl BlockSize {
    /// Writes the low byte of the size. The high byte stays.
    pub fn set_lsb(&mut self, val: u8)
        ensures
            final(self).val == with_bits16(old(self).val, 8, 16, val as u16),
            bits16(final(self).val, 8, 16) == val,
            bits16(final(self).val, 0, 8) == bits16(old(self).val, 0, 8),
    {
        proof {
            lemma_halves(self.val, val as u16);
        }
        put_field_u16(&mut self.val, 8, 16, val as u16);
    }

    /// The low byte of the size.
    pub fn lsb(&self) -> (r: u8)
        ensures
            r == bits16(self.val, 8, 16),
    {
        field_u16(self.val, 8, 16) as u8
    }

    /// Writes the high byte of the size. The low byte stays.
    pub fn set_msb(&mut self, val: u8)
        ensures
            final(self).val == with_bits16(old(self).val, 0, 8, val as u16),
            bits16(final(self).val, 0, 8) == val,
            bits16(final(self).val, 8, 16) == bits16(old(self).val, 8, 16),
    {
        proof {
            lemma_halves(self.val, val as u16);
        }
        put_field_u16(&mut self.val, 0, 8, val as u16);
    }

    /// The high byte of the size. The register is left as it is.
    pub fn msb(&mut self) -> (r: u8)
        ensures
            r == bits16(old(self).val, 0, 8),
            *final(self) == *old(self),
    {
        field_u16(self.val, 0, 8) as u8
    }
}

} // verus!
