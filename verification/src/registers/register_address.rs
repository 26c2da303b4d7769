//! Where a register lives in the register space of the card.

use vstd::prelude::*;

verus! {

/// A register with a fixed address in the common control register bank.
pub trait RegisterAddress {
    /// The address of the register.
    fn address() -> u8;
}

} // verus!
