//! The argument of the SD interface condition command.

use vstd::prelude::*;
use crate::bits::{put_field_u16, with_bits16};

verus! {

/// The check pattern that the card must echo.
pub const SD_CMD8_PATTERN: u16 = 0xAA;

/// The argument of the interface condition command: the check pattern in
/// bits 0 to 7, the supplied voltage in bits 8 to 11.
#[derive(Clone, Copy, Debug, PartialEq, Eq, Structural)]
pub struct Cmd8 {
    pub val: u16,
}

impl Default for Cmd8 {
    fn default() -> (r: Self)
        ensures
            r.val == 0,
    {
        Cmd8 { val: 0 }
    }
}

impl Cmd8 {
    /// Writes the check pattern, or clears it.
    pub fn set_cmd8_pattern(&mut self, on: bool) -> (r: &mut Self)
        ensures
            *final(self) == *final(r),
            r.val == with_bits16(old(self).val, 0, 8, if on { 0xaau16 } else { 0u16 }),
    {
        put_field_u16(&mut self.val, 0, 8, if on { SD_CMD8_PATTERN } else { 0 });
        self
    }

    /// Says whether the host supplies 2.7 V to 3.6 V (bit 8).
    pub fn set_high_voltage(&mut self, on: bool) -> (r: &mut Self)
        ensures
            *final(self) == *final(r),
            r.val == with_bits16(old(self).val, 8, 9, if on { 1u16 } else { 0u16 }),
    {
        put_field_u16(&mut self.val, 8, 9, if on { 1 } else { 0 });
        self
    }
}

/// The argument that offers 2.7 V to 3.6 V with the check pattern.
pub open spec fn interface_condition() -> u16 {
    0x01aa
}

/// What the two setters make of a zero argument.
pub proof fn lemma_interface_condition()
    by (bit_vector)
    ensures
        with_bits16(with_bits16(0, 0, 8, 0xaa), 8, 9, 1) == 0x01aau16,
{
}

/// Builds the argument that offers 2.7 V to 3.6 V with the check pattern.
pub fn high_voltage_check() -> (r: Cmd8)
    ensures
        r.val == interface_condition(),
{
    let mut arg = Cmd8::default();
    arg.set_cmd8_pattern(true).set_high_voltage(true);
    proof {
        lemma_interface_condition();
    }
    arg
}

} // verus!
