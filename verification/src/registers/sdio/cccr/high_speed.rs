//! The high-speed register of the common control bank.

use vstd::prelude::*;
use crate::bits::{bit8, bit_u8, put_bit_u8, with_bit8};
use crate::registers::register_address::RegisterAddress;

verus! {

/// The high-speed register of the common control bank.
#[derive(Clone, Copy, Debug, PartialEq, Eq, Structural)]
pub struct HighSpeedRegister {
    pub val: u8,
}

impl RegisterAddress for HighSpeedRegister {
    fn address() -> (r: u8)
        ensures
            r == 0x13,
    {
        0x13
    }
}

impl HighSpeedRegister {
    /// Sets whether the card supports high speed (bit 0).
    pub fn set_supports_high_speed(&mut self, on: bool)
        ensures
            final(self).val == with_bit8(old(self).val, 0, on),
    {
        put_bit_u8(&mut self.val, 0, on);
    }

    /// Whether the card supports high speed (bit 0).
    pub fn supports_high_speed(&self) -> (r: bool)
        ensures
            r == bit8(self.val, 0),
    {
        bit_u8(self.val, 0)
    }

    /// Sets whether high speed is switched on (bit 1).
    pub fn set_enable_high_speed(&mut self, on: bool)
        ensures
            final(self).val == with_bit8(old(self).val, 1, on),
    {
        put_bit_u8(&mut self.val, 1, on);
    }

    /// Whether high speed is switched on (bit 1).
    pub fn enable_high_speed(&self) -> (r: bool)
        ensures
            r == bit8(self.val, 1),
    {
        bit_u8(self.val, 1)
    }
}

} // verus!
