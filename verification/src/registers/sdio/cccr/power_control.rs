//! The power control register of the common control bank.

use vstd::prelude::*;
use crate::bits::{bit8, bit_u8, put_bit_u8, with_bit8};
use crate::registers::register_address::RegisterAddress;

verus! {

/// The power control register of the common control bank.
#[derive(Clone, Copy, Debug, PartialEq, Eq, Structural)]
pub struct PowerControlRegister {
    pub val: u8,
}

impl RegisterAddress for PowerControlRegister {
    fn address() -> (r: u8)
        ensures
            r == 0x12,
    {
        0x12
    }
}

impl PowerControlRegister {
    /// The whole register.
    pub fn value(&self) -> (r: u8)
        ensures
            r == self.val,
    {
        self.val
    }

    /// Sets whether the card supports master power control (bit 0).
    pub fn set_supports_master_power_control(&mut self, on: bool)
        ensures
            final(self).val == with_bit8(old(self).val, 0, on),
    {
        put_bit_u8(&mut self.val, 0, on);
    }

    /// Whether the card supports master power control (bit 0).
    pub fn supports_master_power_control(&self) -> (r: bool)
        ensures
            r == bit8(self.val, 0),
    {
        bit_u8(self.val, 0)
    }

    /// Sets whether master power control is switched on (bit 1).
    pub fn set_enable_master_power_control(&mut self, on: bool)
        ensures
            final(self).val == with_bit8(old(self).val, 1, on),
    {
        put_bit_u8(&mut self.val, 1, on);
    }

    /// Whether master power control is switched on (bit 1).
    pub fn enable_master_power_control(&self) -> (r: bool)
        ensures
            r == bit8(self.val, 1),
    {
        bit_u8(self.val, 1)
    }
}

} // verus!
