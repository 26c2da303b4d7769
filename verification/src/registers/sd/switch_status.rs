//! The status block that answers a switch function command.

use vstd::prelude::*;
use crate::bits::{bits8, field_u8};

verus! {

/// The result code of a function group that could not be switched.
pub const SD_SW_STATUS_FUN_GRP_RC_ERROR: u8 = 0xF;

/// The 512 bits of the switch function status, in the order in which the card
/// sends them: the first byte holds the bits 511 to 504.
#[derive(Clone, Copy, Debug, PartialEq, Eq)]
pub struct SwitchStatusRegister {
    pub val: [u8; 64],
}

impl From<[u8; 64]> for SwitchStatusRegister {
    fn from(val: [u8; 64]) -> (r: Self) {
        SwitchStatusRegister { val }
    }
}

impl vstd::std_specs::convert::FromSpecImpl<[u8; 64]> for SwitchStatusRegister {
    open spec fn obeys_from_spec() -> bool {
        true
    }

    open spec fn from_spec(val: [u8; 64]) -> Self {
        SwitchStatusRegister { val }
    }
}

impl SwitchStatusRegister {
    /// The result of the switch in function group 1 (bits 376 to 379).
    pub fn group1_info_status(&self) -> (r: u8)
        ensures
            r == bits8(self.val[16], 0, 4),
            r <= 15,
    {
        field_u8(self.val[16], 0, 4)
    }

    /// The busy flags of the functions of group 1 (bits 272 to 287).
    pub fn group1_busy(&self) -> (r: u16)
        ensures
            r == self.val[28] * 256 + self.val[29],
    {
        (self.val[28] as u16) * 256 + (self.val[29] as u16)
    }
}

} // verus!
