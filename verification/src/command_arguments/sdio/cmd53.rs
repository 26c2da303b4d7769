//! The argument of the extended I/O command.

use vstd::prelude::*;
use crate::bits::{put_bit_u32, put_field_u32, with_bit32, with_bits32};
use crate::command_arguments::sdio::cmd52::Direction;
use crate::registers::sdio::cccr::function_select::FunctionSelection;

verus! {

/// The argument of the extended I/O command: the count in bits 0 to 8, the
/// register address in bits 9 to 25, the increment flag in bit 26, the block
/// mode in bit 27, the function number in bits 28 to 30, the direction in
/// bit 31.
#[derive(Clone, Copy, Debug, PartialEq, Eq, Structural)]
pub struct Cmd53 {
    pub val: u32,
}

impl Default for Cmd53 {
    fn default() -> (r: Self)
        ensures
            r.val == 0,
    {
        Cmd53 { val: 0 }
    }
}

impl Cmd53 {
    /// Writes the number of bytes or blocks, which has nine bits.
    pub fn set_block_or_bytes_count(&mut self, count: u16) -> (r: &mut Self)
        requires
            count <= 0x1ff,
        ensures
            *final(self) == *final(r),
            r.val == with_bits32(old(self).val, 0, 9, count as u32),
    {
        put_field_u32(&mut self.val, 0, 9, count as u32);
        self
    }

    /// Writes the register address.
    pub fn set_address(&mut self, address: u16) -> (r: &mut Self)
        ensures
            *final(self) == *final(r),
            r.val == with_bits32(old(self).val, 9, 26, address as u32),
    {
        put_field_u32(&mut self.val, 9, 26, address as u32);
        self
    }

    /// Says whether the address grows with each byte.
    pub fn set_op_code_increment_address(&mut self, on: bool) -> (r: &mut Self)
        ensures
            *final(self) == *final(r),
            r.val == with_bit32(old(self).val, 26, on),
    {
        put_bit_u32(&mut self.val, 26, on);
        self
    }

    /// Says whether the count is in blocks.
    pub fn set_block_mode(&mut self, on: bool) -> (r: &mut Self)
        ensures
            *final(self) == *final(r),
            r.val == with_bit32(old(self).val, 27, on),
    {
        put_bit_u32(&mut self.val, 27, on);
        self
    }

    /// Writes the function number, which has three bits.
    pub fn set_function_number(&mut self, function: u8) -> (r: &mut Self)
        requires
            function <= 7,
        ensures
            *final(self) == *final(r),
            r.val == with_bits32(old(self).val, 28, 31, function as u32),
    {
        put_field_u32(&mut self.val, 28, 31, function as u32);
        self
    }

    /// Writes the direction.
    pub fn set_direction(&mut self, direction: Direction) -> (r: &mut Self)
        ensures
            *final(self) == *final(r),
            r.val == with_bit32(old(self).val, 31, direction is Write),
    {
        let on = match direction {
            Direction::Read => false,
            Direction::Write => true,
        };
        put_bit_u32(&mut self.val, 31, on);
        self
    }
}

/// The argument of an extended I/O command in byte mode, field by field. A
/// count of 512 is sent as 0.
pub open spec fn extended_argument(
    direction: Direction,
    function: FunctionSelection,
    address: u16,
    increment_address: bool,
    data_size: u16,
) -> u32 {
    ((data_size % 512) as u32) | ((address as u32) << 9) | (if increment_address {
        0x0400_0000u32
    } else {
        0u32
    }) | ((function.spec_number() as u32) << 28) | (if direction is Write {
        0x8000_0000u32
    } else {
        0u32
    })
}

/// What the six setters make of a zero argument.
pub proof fn lemma_extended_argument(write: bool, function: u8, address: u16, inc: bool, count: u16)
    by (bit_vector)
    requires
        function <= 7,
        count <= 0x1ff,
    ensures
        with_bit32(
            with_bits32(
                with_bit32(
                    with_bit32(
                        with_bits32(with_bits32(0, 0, 9, count as u32), 9, 26, address as u32),
                        26,
                        inc,
                    ),
                    27,
                    false,
                ),
                28,
                31,
                function as u32,
            ),
            31,
            write,
        ) == (count as u32) | ((address as u32) << 9) | (if inc {
            0x0400_0000u32
        } else {
            0u32
        }) | ((function as u32) << 28) | (if write {
            0x8000_0000u32
        } else {
            0u32
        }),
{
}

/// Builds the argument of an extended I/O command in byte mode.
pub fn extended_access(
    direction: Direction,
    function: FunctionSelection,
    address: u16,
    increment_address: bool,
    data_size: u16,
) -> (r: Cmd53)
    ensures
        r.val == extended_argument(direction, function, address, increment_address, data_size),
{
    let mut arg = Cmd53::default();
    arg.set_block_or_bytes_count(data_size % 512).set_address(address).set_op_code_increment_address(
        increment_address,
    ).set_block_mode(false).set_function_number(function.number()).set_direction(direction);
    proof {
        lemma_extended_argument(
            direction is Write,
            function.spec_number(),
            address,
            increment_address,
            (data_size % 512) as u16,
        );
    }
    arg
}

} // verus!
