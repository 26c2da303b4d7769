//! The argument of the MMC switch command, and the bus widths.

use vstd::prelude::*;
use crate::bits::{put_field_u32, with_bits32};
use crate::mode_index::ModeIndex;

verus! {

/// The number of data lines of the bus.
#[derive(Clone, Copy, Debug, PartialEq, Eq, PartialOrd, Ord, Structural)]
pub enum BusWidth {
    /// One data line.
    _1BIT,
    /// Four data lines.
    _4BIT,
    /// Eight data lines.
    _8BIT,
}

impl BusWidth {
    /// The number of data lines: 1, 4 or 8.
    pub open spec fn spec_lanes(self) -> u8 {
        match self {
            BusWidth::_1BIT => 1,
            BusWidth::_4BIT => 4,
            BusWidth::_8BIT => 8,
        }
    }

    /// The number of data lines: 1, 4 or 8.
    pub fn lanes(self) -> (r: u8)
        ensures
            r == self.spec_lanes(),
    {
        match self {
            BusWidth::_1BIT => 1,
            BusWidth::_4BIT => 4,
            BusWidth::_8BIT => 8,
        }
    }

    /// The code of the width in the bus width byte of an MMC.
    pub open spec fn spec_code(self) -> u8 {
        match self {
            BusWidth::_1BIT => 0,
            BusWidth::_4BIT => 1,
            BusWidth::_8BIT => 2,
        }
    }

    /// The code of the width in the bus width byte of an MMC.
    pub fn code(self) -> (r: u8)
        ensures
            r == self.spec_code(),
    {
        match self {
            BusWidth::_1BIT => 0,
            BusWidth::_4BIT => 1,
            BusWidth::_8BIT => 2,
        }
    }
}

/// How a switch command changes the addressed byte.
#[derive(Clone, Copy, Debug, PartialEq, Eq, Structural)]
pub enum Access {
    /// Change the command set.
    CommandSet,
    /// Set the bits that are set in the value.
    SetBits,
    /// Clear the bits that are set in the value.
    ClearBits,
    /// Write the value.
    WriteByte,
}

impl Access {
    /// The two-bit code of the access.
    pub open spec fn spec_code(self) -> u8 {
        match self {
            Access::CommandSet => 0,
            Access::SetBits => 1,
            Access::ClearBits => 2,
            Access::WriteByte => 3,
        }
    }

    /// The two-bit code of the access.
    pub fn code(self) -> (r: u8)
        ensures
            r == self.spec_code(),
    {
        match self {
            Access::CommandSet => 0,
            Access::SetBits => 1,
            Access::ClearBits => 2,
            Access::WriteByte => 3,
        }
    }
}

/// The argument of the MMC switch command: the access in bits 24 and 25, the
/// index of the byte in bits 16 to 23, the value in bits 8 to 15.
#[derive(Clone, Copy, Debug, PartialEq, Eq, Structural)]
pub struct Cmd6 {
    pub val: u32,
}

impl Default for Cmd6 {
    fn default() -> (r: Self)
        ensures
            r.val == 0,
    {
        Cmd6 { val: 0 }
    }
}

impl Cmd6 {
    /// Writes the access.
    pub fn set_access(&mut self, access: Access) -> (r: &mut Self)
        ensures
            *final(self) == *final(r),
            r.val == with_bits32(old(self).val, 24, 26, access.spec_code() as u32),
    {
        put_field_u32(&mut self.val, 24, 26, access.code() as u32);
        self
    }

    /// Writes the index of the byte to change.
    pub fn set_mode_index(&mut self, index: ModeIndex) -> (r: &mut Self)
        ensures
            *final(self) == *final(r),
            r.val == with_bits32(old(self).val, 16, 24, index.spec_index() as u32),
    {
        put_field_u32(&mut self.val, 16, 24, index.index() as u32);
        self
    }

    /// Writes the code of a bus width as the value.
    pub fn set_bus_width(&mut self, width: &BusWidth) -> (r: &mut Self)
        ensures
            *final(self) == *final(r),
            r.val == with_bits32(old(self).val, 8, 16, width.spec_code() as u32),
    {
        put_field_u32(&mut self.val, 8, 16, width.code() as u32);
        self
    }

    /// Writes the high-speed timing flag as the value.
    pub fn set_hs_timing_enable(&mut self, enable: bool) -> (r: &mut Self)
        ensures
            *final(self) == *final(r),
            r.val == with_bits32(old(self).val, 8, 16, if enable { 1u32 } else { 0u32 }),
    {
        put_field_u32(&mut self.val, 8, 16, if enable { 1 } else { 0 });
        self
    }
}

/// The argument that asks an MMC to set its bus width: `SetBits` on the bus
/// width byte with the code of the width.
pub open spec fn bus_width_argument(width: BusWidth) -> u32 {
    match width {
        BusWidth::_1BIT => 0x01b7_0000,
        BusWidth::_4BIT => 0x01b7_0100,
        BusWidth::_8BIT => 0x01b7_0200,
    }
}

/// The argument that asks an MMC to turn high-speed timing on: `WriteByte`
/// on the timing byte with the value 1.
pub open spec fn high_speed_argument() -> u32 {
    0x03b9_0100
}

/// What the three setters make of a zero argument, for the two switch
/// commands that the driver sends.
pub proof fn lemma_switch_arguments()
    by (bit_vector)
    ensures
        with_bits32(with_bits32(with_bits32(0, 24, 26, 1), 8, 16, 0), 16, 24, 183) == 0x01b7_0000u32,
        with_bits32(with_bits32(with_bits32(0, 24, 26, 1), 8, 16, 1), 16, 24, 183) == 0x01b7_0100u32,
        with_bits32(with_bits32(with_bits32(0, 24, 26, 1), 8, 16, 2), 16, 24, 183) == 0x01b7_0200u32,
        with_bits32(with_bits32(with_bits32(0, 24, 26, 3), 16, 24, 185), 8, 16, 1) == 0x03b9_0100u32,
{
}

/// Builds the argument that sets the bus width of an MMC.
pub fn bus_width_switch(width: &BusWidth) -> (r: Cmd6)
    ensures
        r.val == bus_width_argument(*width),
{
    let mut arg = Cmd6::default();
    arg.set_access(Access::SetBits).set_bus_width(width).set_mode_index(ModeIndex::BusWidth);
    proof {
        lemma_switch_arguments();
    }
    arg
}

/// Builds the argument that turns high-speed timing on.
pub fn high_speed_switch() -> (r: Cmd6)
    ensures
        r.val == high_speed_argument(),
{
    let mut arg = Cmd6::default();
    arg.set_access(Access::WriteByte).set_mode_index(ModeIndex::HsTimingIndex).set_hs_timing_enable(
        true,
    );
    proof {
        lemma_switch_arguments();
    }
    arg
}

} // verus!
