//! The card status that comes with most responses.

use vstd::prelude::*;
use crate::bits::{bit32, bit_u32};

verus! {

/// The 32-bit card status.
#[derive(Clone, Copy, Debug, PartialEq, Eq, Structural)]
pub struct CardStatusRegister {
    pub val: u32,
}

impl Default for CardStatusRegister {
    fn default() -> (r: Self)
        ensures
            r.val == 0,
    {
        CardStatusRegister { val: 0 }
    }
}

impl CardStatusRegister {
    /// Whether the card refused the last switch command (bit 7).
    pub fn switch_error(&self) -> (r: bool)
        ensures
            r == bit32(self.val, 7),
    {
        bit_u32(self.val, 7)
    }

    /// Whether the card has room for data (bit 8).
    pub fn ready_for_data(&self) -> (r: bool)
        ensures
            r == bit32(self.val, 8),
    {
        bit_u32(self.val, 8)
    }

    /// Whether the host tried to write to a protected block (bit 26).
    pub fn write_protect_violation(&self) -> (r: bool)
        ensures
            r == bit32(self.val, 26),
    {
        bit_u32(self.val, 26)
    }
}

} // verus!
