//! The I/O enable register of the common control bank.

use vstd::prelude::*;
use crate::bits::{bit8, bit_u8, put_bit_u8, with_bit8};
use crate::registers::register_address::RegisterAddress;

verus! {

/// The I/O enable register: one bit for each of the functions 1 to 7.
#[derive(Clone, Copy, Debug, PartialEq, Eq, Structural)]
pub struct IoEnableRegister {
    pub val: u8,
}

impl RegisterAddress for IoEnableRegister {
    fn address() -> (r: u8)
        ensures
            r == 0x02,
    {
        0x02
    }
}

impl IoEnableRegister {
    /// Enables or disables function 1 (bit 1).
    pub fn set_function1_enabled(&mut self, enabled: bool)
        ensures
            final(self).val == with_bit8(old(self).val, 1, enabled),
    {
        put_bit_u8(&mut self.val, 1, enabled);
    }

    /// Whether function 1 is enabled (bit 1). The register is left as it
    /// is.
    pub fn function1_enabled(&mut self) -> (r: bool)
        ensures
            r == bit8(old(self).val, 1),
            *final(self) == *old(self),
    {
        bit_u8(self.val, 1)
    }

    /// Enables or disables function 2 (bit 2).
    pub fn set_function2_enabled(&mut self, enabled: bool)
        ensures
            final(self).val == with_bit8(old(self).val, 2, enabled),
    {
        put_bit_u8(&mut self.val, 2, enabled);
    }

    /// Whether function 2 is enabled (bit 2). The register is left as it
    /// is.
    pub fn function2_enabled(&mut self) -> (r: bool)
        ensures
            r == bit8(old(self).val, 2),
            *final(self) == *old(self),
    {
        bit_u8(self.val, 2)
    }

    /// Enables or disables function 3 (bit 3).
    pub fn set_function3_enabled(&mut self, enabled: bool)
        ensures
            final(self).val == with_bit8(old(self).val, 3, enabled),
    {
        put_bit_u8(&mut self.val, 3, enabled);
    }

    /// Whether function 3 is enabled (bit 3). The register is left as it
    /// is.
    pub fn function3_enabled(&mut self) -> (r: bool)
        ensures
            r == bit8(old(self).val, 3),
            *final(self) == *old(self),
    {
        bit_u8(self.val, 3)
    }

    /// Enables or disables function 4 (bit 4).
    pub fn set_function4_enabled(&mut self, enabled: bool)
        ensures
            final(self).val == with_bit8(old(self).val, 4, enabled),
    {
        put_bit_u8(&mut self.val, 4, enabled);
    }

    /// Whether function 4 is enabled (bit 4). The register is left as it
    /// is.
    pub fn function4_enabled(&mut self) -> (r: bool)
        ensures
            r == bit8(old(self).val, 4),
            *final(self) == *old(self),
    {
        bit_u8(self.val, 4)
    }

    /// Enables or disables function 5 (bit 5).
    pub fn set_function5_enabled(&mut self, enabled: bool)
        ensures
            final(self).val == with_bit8(old(self).val, 5, enabled),
    {
        put_bit_u8(&mut self.val, 5, enabled);
    }

    /// Whether function 5 is enabled (bit 5). The register is left as it
    /// is.
    pub fn function5_enabled(&mut self) -> (r: bool)
        ensures
            r == bit8(old(self).val, 5),
            *final(self) == *old(self),
    {
        bit_u8(self.val, 5)
    }

    /// Enables or disables function 6 (bit 6).
    pub fn set_function6_enabled(&mut self, enabled: bool)
        ensures
            final(self).val == with_bit8(old(self).val, 6, enabled),
    {
        put_bit_u8(&mut self.val, 6, enabled);
    }

    /// Whether function 6 is enabled (bit 6). The register is left as it
    /// is.
    pub fn function6_enabled(&mut self) -> (r: bool)
        ensures
            r == bit8(old(self).val, 6),
            *final(self) == *old(self),
    {
        bit_u8(self.val, 6)
    }

    /// Enables or disables function 7 (bit 7).
    pub fn set_function7_enabled(&mut self, enabled: bool)
        ensures
            final(self).val == with_bit8(old(self).val, 7, enabled),
    {
        put_bit_u8(&mut self.val, 7, enabled);
    }

    /// Whether function 7 is enabled (bit 7). The register is left as it
    /// is.
    pub fn function7_enabled(&mut self) -> (r: bool)
        ensures
            r == bit8(old(self).val, 7),
            *final(self) == *old(self),
    {
        bit_u8(self.val, 7)
    }
}

} // verus!
