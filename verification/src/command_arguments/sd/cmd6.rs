//! The argument of the SD switch function command.

use vstd::prelude::*;
use crate::bits::{put_bit_u32, put_field_u32, with_bit32, with_bits32};

verus! {

/// Whether the command only asks or also switches.
#[derive(Clone, Copy, Debug, PartialEq, Eq, Structural)]
pub enum Cmd6Mode {
    /// Ask whether the functions can be switched.
    Check,
    /// Switch the functions.
    Switch,
}

/// The argument of the switch function command: one nibble for each of the
/// six function groups, and the mode in bit 31.
#[derive(Clone, Copy, Debug, PartialEq, Eq, Structural)]
pub struct Cmd6 {
    pub val: u32,
}

/// The nibble that leaves a function group as it is, or the default function.
pub open spec fn keep_or_default(keep: bool) -> u32 {
    if keep {
        0xf
    } else {
        0
    }
}

impl Cmd6 {
    /// Group 1, access mode: high speed where `high_speed` holds, else the
    /// default speed.
    pub fn set_function_group_1_access_mode(&mut self, high_speed: bool) -> (r: &mut Self)
        ensures
            *final(self) == *final(r),
            r.val == with_bits32(old(self).val, 0, 4, if high_speed { 1u32 } else { 0u32 }),
    {
        put_field_u32(&mut self.val, 0, 4, if high_speed { 1 } else { 0 });
        self
    }

    /// Group 2, command system: left as it is where `keep` holds, else the
    /// default.
    pub fn set_function_group2_command_system(&mut self, keep: bool) -> (r: &mut Self)
        ensures
            *final(self) == *final(r),
            r.val == with_bits32(old(self).val, 4, 8, keep_or_default(keep)),
    {
        put_field_u32(&mut self.val, 4, 8, if keep { 0xF } else { 0 });
        self
    }

    /// Group 3: left as it is where `keep` holds, else the default.
    pub fn set_function_group3(&mut self, keep: bool) -> (r: &mut Self)
        ensures
            *final(self) == *final(r),
            r.val == with_bits32(old(self).val, 8, 12, keep_or_default(keep)),
    {
        put_field_u32(&mut self.val, 8, 12, if keep { 0xF } else { 0 });
        self
    }

    /// Group 4: left as it is where `keep` holds, else the default.
    pub fn set_function_group4(&mut self, keep: bool) -> (r: &mut Self)
        ensures
            *final(self) == *final(r),
            r.val == with_bits32(old(self).val, 12, 16, keep_or_default(keep)),
    {
        put_field_u32(&mut self.val, 12, 16, if keep { 0xF } else { 0 });
        self
    }

    /// Group 5: left as it is where `keep` holds, else the default.
    pub fn set_function_group5(&mut self, keep: bool) -> (r: &mut Self)
        ensures
            *final(self) == *final(r),
            r.val == with_bits32(old(self).val, 16, 20, keep_or_default(keep)),
    {
        put_field_u32(&mut self.val, 16, 20, if keep { 0xF } else { 0 });
        self
    }

    /// Group 6: left as it is where `keep` holds, else the default.
    pub fn set_function_group6(&mut self, keep: bool) -> (r: &mut Self)
        ensures
            *final(self) == *final(r),
            r.val == with_bits32(old(self).val, 20, 24, keep_or_default(keep)),
    {
        put_field_u32(&mut self.val, 20, 24, if keep { 0xF } else { 0 });
        self
    }

    /// Writes the mode into bit 31.
    pub fn set_mode(&mut self, mode: Cmd6Mode) -> (r: &mut Self)
        ensures
            *final(self) == *final(r),
            r.val == with_bit32(old(self).val, 31, mode is Switch),
    {
        let on = match mode {
            Cmd6Mode::Check => false,
            Cmd6Mode::Switch => true,
        };
        put_bit_u32(&mut self.val, 31, on);
        self
    }
}

/// The argument that switches group 1 to high speed and leaves the groups 3
/// to 6 as they are.
pub open spec fn high_speed_argument() -> u32 {
    0x80ff_ff01
}

/// What the seven setters make of a zero argument when they ask for high
/// speed.
pub proof fn lemma_high_speed_argument()
    by (bit_vector)
    ensures
        with_bit32(
            with_bits32(
                with_bits32(
                    with_bits32(
                        with_bits32(with_bits32(with_bits32(0, 0, 4, 1), 4, 8, 0), 8, 12, 0xf),
                        12,
                        16,
                        0xf,
                    ),
                    16,
                    20,
                    0xf,
                ),
                20,
                24,
                0xf,
            ),
            31,
            true,
        ) == 0x80ff_ff01u32,
{
}

/// Builds the argument that switches the card to high speed.
pub fn high_speed_switch() -> (r: Cmd6)
    ensures
        r.val == high_speed_argument(),
{
    let mut arg = Cmd6 { val: 0 };
    arg.set_function_group_1_access_mode(true).set_function_group2_command_system(
        false,
    ).set_function_group3(true).set_function_group4(true).set_function_group5(
        true,
    ).set_function_group6(true).set_mode(Cmd6Mode::Switch);
    proof {
        lemma_high_speed_argument();
    }
    arg
}

} // verus!
