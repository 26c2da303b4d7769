//! The argument of the direct I/O command.

use vstd::prelude::*;
use crate::bits::{put_bit_u32, put_field_u32, with_bit32, with_bits32};
use crate::registers::sdio::cccr::function_select::FunctionSelection;

verus! {

/// The direction of an I/O access.
#[derive(Clone, Copy, Debug, PartialEq, Eq, Structural)]
pub enum Direction {
    /// From the card to the host.
    Read,
    /// From the host to the card.
    Write,
}

/// The argument of the direct I/O command: the byte to write in bits 0 to 7,
/// the register address in bits 9 to 25, the read-after-write flag in bit 27,
/// the function number in bits 28 to 30, the direction in bit 31.
#[derive(Clone, Copy, Debug, PartialEq, Eq, Structural)]
pub struct Cmd52 {
    pub val: u32,
}

impl Cmd52 {
    /// Writes the byte that the command carries.
    pub fn set_write_data(&mut self, data: u8) -> (r: &mut Self)
        ensures
            *final(self) == *final(r),
            r.val == with_bits32(old(self).val, 0, 8, data as u32),
    {
        put_field_u32(&mut self.val, 0, 8, data as u32);
        self
    }

    /// Writes the direction.
    pub fn set_direction(&mut self, direction: Direction) -> (r: &mut Self)
        ensures
            *final(self) == *final(r),
            r.val == with_bit32(old(self).val, 31, direction is Write),
    {
        let on = match direction {
            Direction::Read => false,
            Direction::Write => true,
        };
        put_bit_u32(&mut self.val, 31, on);
        self
    }

    /// Writes the function number, which has three bits.
    pub fn set_function_number(&mut self, function: u8) -> (r: &mut Self)
        requires
            function <= 7,
        ensures
            *final(self) == *final(r),
            r.val == with_bits32(old(self).val, 28, 31, function as u32),
    {
        put_field_u32(&mut self.val, 28, 31, function as u32);
        self
    }

    /// Writes the read-after-write flag.
    pub fn set_read_after_write(&mut self, on: bool) -> (r: &mut Self)
        ensures
            *final(self) == *final(r),
            r.val == with_bit32(old(self).val, 27, on),
    {
        put_bit_u32(&mut self.val, 27, on);
        self
    }

    /// Writes the register address, which has 17 bits.
    pub fn set_register_address(&mut self, address: u32) -> (r: &mut Self)
        requires
            address <= 0x1_ffff,
        ensures
            *final(self) == *final(r),
            r.val == with_bits32(old(self).val, 9, 26, address),
    {
        put_field_u32(&mut self.val, 9, 26, address);
        self
    }
}

/// The argument of a direct I/O command, field by field.
pub open spec fn direct_argument(
    direction: Direction,
    function: FunctionSelection,
    address: u32,
    read_after_write: bool,
    data: u8,
) -> u32 {
    (data as u32) | (address << 9) | (if read_after_write {
        0x0800_0000u32
    } else {
        0u32
    }) | ((function.spec_number() as u32) << 28) | (if direction is Write {
        0x8000_0000u32
    } else {
        0u32
    })
}

/// What the five setters make of a zero argument.
pub proof fn lemma_direct_argument(write: bool, function: u8, address: u32, raw: bool, data: u8)
    by (bit_vector)
    requires
        function <= 7,
        address <= 0x1_ffff,
    ensures
        with_bits32(
            with_bit32(
                with_bits32(with_bit32(with_bits32(0, 0, 8, data as u32), 31, write), 28, 31, function as u32),
                27,
                raw,
            ),
            9,
            26,
            address,
        ) == (data as u32) | (address << 9) | (if raw {
            0x0800_0000u32
        } else {
            0u32
        }) | ((function as u32) << 28) | (if write {
            0x8000_0000u32
        } else {
            0u32
        }),
{
}

/// Builds the argument of a direct I/O command.
pub fn direct_access(
    direction: Direction,
    function: FunctionSelection,
    address: u32,
    read_after_write: bool,
    data: u8,
) -> (r: Cmd52)
    requires
        address <= 0x1_ffff,
    ensures
        r.val == direct_argument(direction, function, address, read_after_write, data),
{
    let mut arg = Cmd52 { val: 0 };
    arg.set_write_data(data).set_direction(direction).set_function_number(
        function.number(),
    ).set_read_after_write(read_after_write).set_register_address(address);
    proof {
        lemma_direct_argument(
            direction is Write,
            function.spec_number(),
            address,
            read_after_write,
            data,
        );
    }
    arg
}

} // verus!
