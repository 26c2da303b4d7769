//! The card capability register of the common control bank.

use vstd::prelude::*;
use crate::bits::{bit8, bit_u8};
use crate::registers::register_address::RegisterAddress;

verus! {

/// The card capability register.
#[derive(Clone, Copy, Debug, PartialEq, Eq, Structural)]
pub struct CardCapabilityRegister {
    pub val: u8,
}

impl RegisterAddress for CardCapabilityRegister {
    fn address() -> (r: u8)
        ensures
            r == 0x08,
    {
        0x08
    }
}

impl CardCapabilityRegister {
    /// Whether a low-speed card supports the 4-bit bus (bit 7).
    pub fn low_speed_card_supports_4bit_mode(&self) -> (r: bool)
        ensures
            r == bit8(self.val, 7),
    {
        bit_u8(self.val, 7)
    }
}

} // verus!
