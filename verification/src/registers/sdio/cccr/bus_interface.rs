//! The bus interface control register of the common control bank.

use vstd::prelude::*;
use crate::bits::{bits8, field_u8, put_field_u8, with_bits8};
use crate::registers::register_address::RegisterAddress;

verus! {

/// The width of the data bus of an I/O card.
#[derive(Clone, Copy, Debug, PartialEq, Eq, Structural)]
pub enum BusWidth {
    /// One data line.
    _1bit,
    /// Four data lines.
    _4bit,
    /// A code that is not assigned.
    Reserved,
}

impl BusWidth {
    /// The two-bit code of the width.
    pub open spec fn code(self) -> u8 {
        match self {
            BusWidth::_1bit => 0,
            BusWidth::_4bit => 2,
            BusWidth::Reserved => 1,
        }
    }

    /// The width that a two-bit code stands for.
    pub open spec fn of_code(code: u8) -> BusWidth {
        if code == 0 {
            BusWidth::_1bit
        } else if code == 2 {
            BusWidth::_4bit
        } else {
            BusWidth::Reserved
        }
    }
}

/// The bus interface control register.
#[derive(Clone, Copy, Debug, PartialEq, Eq, Structural)]
pub struct BusInterfaceControlRegister {
    pub val: u8,
}

impl RegisterAddress for BusInterfaceControlRegister {
    fn address() -> (r: u8)
        ensures
            r == 0x07,
    {
        0x07
    }
}

impl BusInterfaceControlRegister {
    /// Writes the bus width into bits 0 and 1.
    pub fn set_bus_width(&mut self, width: BusWidth)
        ensures
            final(self).val == with_bits8(old(self).val, 0, 2, width.code()),
    {
        let code: u8 = match width {
            BusWidth::_1bit => 0,
            BusWidth::_4bit => 2,
            BusWidth::Reserved => 1,
        };
        put_field_u8(&mut self.val, 0, 2, code);
    }

    /// The bus width in bits 0 and 1.
    pub fn bus_width(&self) -> (r: BusWidth)
        ensures
            r == BusWidth::of_code(bits8(self.val, 0, 2)),
    {
        let code = field_u8(self.val, 0, 2);
        if code == 0 {
            BusWidth::_1bit
        } else if code == 2 {
            BusWidth::_4bit
        } else {
            BusWidth::Reserved
        }
    }
}

} // verus!
