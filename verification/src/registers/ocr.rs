//! The operation conditions register (OCR).

use vstd::prelude::*;
use crate::bits::{
    bit32, bit_u32, bits32, field_u32, put_bit_u32, put_field_u32, with_bit32, with_bits32,
};

verus! {

/// How an MMC addresses its memory.
#[derive(Clone, Copy, Debug, PartialEq, Eq, Structural)]
pub enum AccessMode {
    /// Addresses count bytes.
    Byte,
    /// Addresses count sectors of 512 bytes.
    Sector,
    /// A code that is not assigned.
    Reserved,
}

impl AccessMode {
    /// The two-bit code of the mode.
    pub open spec fn code(self) -> u32 {
        match self {
            AccessMode::Byte => 0,
            AccessMode::Sector => 2,
            AccessMode::Reserved => 1,
        }
    }

    /// The mode that a two-bit code stands for.
    pub open spec fn of_code(code: u32) -> AccessMode {
        if code == 0 {
            AccessMode::Byte
        } else if code == 2 {
            AccessMode::Sector
        } else {
            AccessMode::Reserved
        }
    }
}

/// The operation conditions register: a voltage window in bits 15 to 23 and
/// status bits above it.
#[derive(Clone, Copy, Debug, PartialEq, Eq, Structural)]
pub struct OcrRegister {
    pub val: u32,
}

impl OcrRegister {
    /// Marks the window 2.7 V to 2.8 V as supported or not (bit 15).
    pub fn set_vdd_27_28(&mut self, on: bool) -> (r: &mut Self)
        ensures
            *final(self) == *final(r),
            r.val == with_bit32(old(self).val, 15, on),
    {
        put_bit_u32(&mut self.val, 15, on);
        self
    }

    /// Marks the window 2.8 V to 2.9 V as supported or not (bit 16).
    pub fn set_vdd_28_29(&mut self, on: bool) -> (r: &mut Self)
        ensures
            *final(self) == *final(r),
            r.val == with_bit32(old(self).val, 16, on),
    {
        put_bit_u32(&mut self.val, 16, on);
        self
    }

    /// Marks the window 2.9 V to 3.0 V as supported or not (bit 17).
    pub fn set_vdd_29_30(&mut self, on: bool) -> (r: &mut Self)
        ensures
            *final(self) == *final(r),
            r.val == with_bit32(old(self).val, 17, on),
    {
        put_bit_u32(&mut self.val, 17, on);
        self
    }

    /// Marks the window 3.0 V to 3.1 V as supported or not (bit 18).
    pub fn set_vdd_30_31(&mut self, on: bool) -> (r: &mut Self)
        ensures
            *final(self) == *final(r),
            r.val == with_bit32(old(self).val, 18, on),
    {
        put_bit_u32(&mut self.val, 18, on);
        self
    }

    /// Marks the window 3.1 V to 3.2 V as supported or not (bit 19).
    pub fn set_vdd_31_32(&mut self, on: bool) -> (r: &mut Self)
        ensures
            *final(self) == *final(r),
            r.val == with_bit32(old(self).val, 19, on),
    {
        put_bit_u32(&mut self.val, 19, on);
        self
    }

    /// Marks the window 3.2 V to 3.3 V as supported or not (bit 20).
    pub fn set_vdd_32_33(&mut self, on: bool) -> (r: &mut Self)
        ensures
            *final(self) == *final(r),
            r.val == with_bit32(old(self).val, 20, on),
    {
        put_bit_u32(&mut self.val, 20, on);
        self
    }

    /// Whether the card also holds memory besides its I/O functions (bit 27).
    pub fn memory_present(&self) -> (r: bool)
        ensures
            r == bit32(self.val, 27),
    {
        bit_u32(self.val, 27)
    }

    /// Whether the card reports at least one I/O function (bits 28 to 30).
    pub fn number_of_io_functions(&self) -> (r: bool)
        ensures
            r == (bits32(self.val, 28, 31) != 0),
    {
        field_u32(self.val, 28, 31) != 0
    }

    /// The access mode that an MMC reports or is asked for (bits 29 and 30).
    pub fn access_mode(&self) -> (r: AccessMode)
        ensures
            r == AccessMode::of_code(bits32(self.val, 29, 31)),
    {
        let code = field_u32(self.val, 29, 31);
        if code == 0 {
            AccessMode::Byte
        } else if code == 2 {
            AccessMode::Sector
        } else {
            AccessMode::Reserved
        }
    }

    /// Writes the access mode into bits 29 and 30.
    pub fn set_access_mode(&mut self, mode: AccessMode) -> (r: &mut Self)
        ensures
            *final(self) == *final(r),
            r.val == with_bits32(old(self).val, 29, 31, mode.code()),
    {
        let code: u32 = match mode {
            AccessMode::Byte => 0,
            AccessMode::Sector => 2,
            AccessMode::Reserved => 1,
        };
        put_field_u32(&mut self.val, 29, 31, code);
        self
    }

    /// Whether an SD card reports high capacity (bit 30).
    pub fn card_capacity_status(&self) -> (r: bool)
        ensures
            r == bit32(self.val, 30),
    {
        bit_u32(self.val, 30)
    }

    /// Whether the card has finished its power-up routine (bit 31).
    pub fn card_powered_up_status(&self) -> (r: bool)
        ensures
            r == bit32(self.val, 31),
    {
        bit_u32(self.val, 31)
    }
}

/// The voltage window that the host offers, 2.7 V to 3.3 V, as a register
/// value.
pub open spec fn voltage_window() -> u32 {
    0x001f_8000
}

/// Setting bits 15 to 20 of zero, one after the other, gives the window.
proof fn lemma_voltage_window()
    by (bit_vector)
    ensures
        with_bit32(
            with_bit32(
                with_bit32(
                    with_bit32(with_bit32(with_bit32(0, 15, true), 16, true), 17, true),
                    18,
                    true,
                ),
                19,
                true,
            ),
            20,
            true,
        ) == 0x001f_8000u32,
{
}

/// The operation conditions that the host supports: 2.7 V to 3.3 V.
pub fn ocr_voltage_support() -> (r: OcrRegister)
    ensures
        r.val == voltage_window(),
{
    let mut ocr = OcrRegister { val: 0 };
    ocr.set_vdd_27_28(true).set_vdd_28_29(true).set_vdd_29_30(true).set_vdd_30_31(true).set_vdd_31_32(
        true,
    ).set_vdd_32_33(true);
    proof {
        lemma_voltage_window();
    }
    ocr
}

} // verus!
