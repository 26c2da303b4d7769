//! The 32-bit command descriptor: a card command index with flag bits that
//! say which response the command expects and how it moves data.

use vstd::prelude::*;
use crate::bits::{bit32, bit_u32};

verus! {

/// Flag: the command has a response (native interface).
pub const SDMMC_RESP_PRESENT: u32 = 0x0000_0100;

/// Flag: one more response byte follows the first one (SPI).
pub const SDMMC_RESP_8: u32 = 0x0000_0200;

/// Flag: four more response bytes follow the first one (SPI).
pub const SDMMC_RESP_32: u32 = 0x0000_0400;

/// Flag: the response is 136 bits long (native interface).
pub const SDMMC_RESP_136: u32 = 0x0000_0800;

/// Flag: the response carries a checksum that must be valid.
pub const SDMMC_RESP_CRC: u32 = 0x0000_1000;

/// Flag: the card may hold the line busy after the response.
pub const SDMMC_RESP_BUSY: u32 = 0x0000_2000;

/// Flag: the command is broadcast in open-drain mode.
pub const SDMMC_CMD_OPENDRAIN: u32 = 0x0000_4000;

/// Flag: the data phase goes from host to card.
pub const SDMMC_CMD_WRITE: u32 = 0x0000_8000;

/// Flag: SDIO transfer counted in bytes.
pub const SDMMC_CMD_SDIO_BYTE: u32 = 0x0001_0000;

/// Flag: SDIO transfer counted in blocks.
pub const SDMMC_CMD_SDIO_BLOCK: u32 = 0x0002_0000;

/// Flag: stream transfer.
pub const SDMMC_CMD_STREAM: u32 = 0x0004_0000;

/// Flag: transfer of a single block.
pub const SDMMC_CMD_SINGLE_BLOCK: u32 = 0x0008_0000;

/// Flag: transfer of several blocks.
pub const SDMMC_CMD_MULTI_BLOCK: u32 = 0x0010_0000;

/// Response class: none.
pub const SDMMC_CMD_NO_RESP: u32 = 0;

/// Response class R1: status with checksum.
pub const SDMMC_CMD_R1: u32 = SDMMC_RESP_PRESENT | SDMMC_RESP_CRC;

/// Response class R1b: R1 followed by an optional busy phase.
pub const SDMMC_CMD_R1B: u32 = SDMMC_RESP_PRESENT | SDMMC_RESP_CRC | SDMMC_RESP_BUSY;

/// Response class R2: the 136-bit register answer.
pub const SDMMC_CMD_R2: u32 = SDMMC_RESP_PRESENT | SDMMC_RESP_136 | SDMMC_RESP_CRC;

/// Response class R3: operating conditions, no checksum.
pub const SDMMC_CMD_R3: u32 = SDMMC_RESP_PRESENT | SDMMC_RESP_32;

/// Response class R4: SDIO operating conditions, no checksum.
pub const SDMMC_CMD_R4: u32 = SDMMC_RESP_PRESENT | SDMMC_RESP_32;

/// Response class R5: status with one more byte behind it, as SDIO and the
/// status command over SPI have it.
pub const SDMMC_CMD_R5: u32 = SDMMC_RESP_PRESENT | SDMMC_RESP_8 | SDMMC_RESP_CRC;

/// Response class R6: published relative address.
pub const SDMMC_CMD_R6: u32 = SDMMC_RESP_PRESENT | SDMMC_RESP_CRC;

/// Response class R7: interface condition echo.
pub const SDMMC_CMD_R7: u32 = SDMMC_RESP_PRESENT | SDMMC_RESP_32 | SDMMC_RESP_CRC;

/// Whether `val` encodes exactly one response class, at most one transfer
/// mode, and nothing in the unassigned bits.
pub open spec fn valid_descriptor(val: u32) -> bool {
    &&& val & 0xffe0_00c0 == 0
    &&& (val & 0x3f00 == 0 || val & 0x3f00 == 0x1100 || val & 0x3f00 == 0x3100 || val & 0x3f00
        == 0x1900 || val & 0x3f00 == 0x0500 || val & 0x3f00 == 0x1300 || val & 0x3f00 == 0x1500)
    &&& ((val >> 16) & 0x1f == 0 || (val >> 16) & 0x1f == 1 || (val >> 16) & 0x1f == 2 || (val
        >> 16) & 0x1f == 4 || (val >> 16) & 0x1f == 8 || (val >> 16) & 0x1f == 16)
}

/// A command descriptor.
#[derive(Clone, Copy, Debug, PartialEq, Eq, Structural)]
pub struct MciCommand {
    pub val: u32,
}

impl From<u32> for MciCommand {
    fn from(val: u32) -> (r: Self) {
        MciCommand { val }
    }
}

impl vstd::std_specs::convert::FromSpecImpl<u32> for MciCommand {
    open spec fn obeys_from_spec() -> bool {
        true
    }

    open spec fn from_spec(val: u32) -> Self {
        MciCommand { val }
    }
}

impl MciCommand {
    /// A descriptor is valid when it encodes exactly one response class, at
    /// most one transfer mode, and nothing in the unassigned bits.
    pub open spec fn is_valid(self) -> bool {
        valid_descriptor(self.val)
    }

    /// The card command index of the descriptor.
    pub open spec fn index(self) -> u8 {
        (self.val & 0x3f) as u8
    }

    /// The card command index: the low six bits.
    pub fn get_index(&self) -> (r: u8)
        ensures
            r == self.index(),
            r < 64,
    {
        let v = self.val;
        assert((v as u8) & 0x3f == ((v & 0x3f) as u8) && ((v & 0x3f) as u8) < 64) by (bit_vector);
        (self.val as u8) & 0x3F
    }

    /// Whether a response is expected at all (native interface).
    pub fn have_response(&self) -> (r: bool)
        ensures
            r == bit32(self.val, 8),
    {
        bit_u32(self.val, 8)
    }

    /// Whether one more response byte follows the first one (SPI).
    pub fn have_8bit_response(&self) -> (r: bool)
        ensures
            r == bit32(self.val, 9),
    {
        bit_u32(self.val, 9)
    }

    /// Whether four more response bytes follow the first one (SPI).
    pub fn have_32bit_response(&self) -> (r: bool)
        ensures
            r == bit32(self.val, 10),
    {
        bit_u32(self.val, 10)
    }

    /// Whether the response is 136 bits long (native interface).
    pub fn have_136bit_response(&self) -> (r: bool)
        ensures
            r == bit32(self.val, 11),
    {
        bit_u32(self.val, 11)
    }

    /// Whether the response must carry a valid checksum (native interface).
    pub fn expect_valid_crc(&self) -> (r: bool)
        ensures
            r == bit32(self.val, 12),
    {
        bit_u32(self.val, 12)
    }

    /// Whether the card may signal busy after the response.
    pub fn card_may_send_busy(&self) -> (r: bool)
        ensures
            r == bit32(self.val, 13),
    {
        bit_u32(self.val, 13)
    }

    /// Whether the command is an open-drain broadcast.
    pub fn open_drain_broadcast_command(&self) -> (r: bool)
        ensures
            r == bit32(self.val, 14),
    {
        bit_u32(self.val, 14)
    }

    /// Whether the data phase goes from host to card.
    pub fn data_write_command(&self) -> (r: bool)
        ensures
            r == bit32(self.val, 15),
    {
        bit_u32(self.val, 15)
    }

    /// Whether the transfer is an SDIO multi-byte transfer.
    pub fn sdio_multi_byte_transfer(&self) -> (r: bool)
        ensures
            r == bit32(self.val, 16),
    {
        bit_u32(self.val, 16)
    }

    /// Whether the transfer is an SDIO block-mode transfer.
    pub fn sdio_block_mode_transfer(&self) -> (r: bool)
        ensures
            r == bit32(self.val, 17),
    {
        bit_u32(self.val, 17)
    }

    /// Whether the transfer is a stream.
    pub fn stream_mode_data_transfer(&self) -> (r: bool)
        ensures
            r == bit32(self.val, 18),
    {
        bit_u32(self.val, 18)
    }

    /// Whether the transfer moves a single block.
    pub fn single_block_data_transfer(&self) -> (r: bool)
        ensures
            r == bit32(self.val, 19),
    {
        bit_u32(self.val, 19)
    }

    /// Whether the transfer moves several blocks.
    pub fn multi_block_data_transfer(&self) -> (r: bool)
        ensures
            r == bit32(self.val, 20),
    {
        bit_u32(self.val, 20)
    }
}

/// A valid descriptor that asks for the extra response byte asks neither for
/// the four extra bytes nor for the 136-bit response.
pub proof fn lemma_short_response_excludes_long(command: MciCommand)
    requires
        command.is_valid(),
        bit32(command.val, 9),
    ensures
        !bit32(command.val, 10),
        !bit32(command.val, 11),
{
    let v = command.val;
    assert(valid_descriptor(v) && bit32(v, 9) ==> !bit32(v, 10) && !bit32(v, 11)) by (bit_vector);
}

/// A valid descriptor never asks for a single-block and a multi-block
/// transfer at once.
pub proof fn lemma_single_excludes_multi(command: MciCommand)
    requires
        command.is_valid(),
    ensures
        !(bit32(command.val, 19) && bit32(command.val, 20)),
{
    let v = command.val;
    assert(valid_descriptor(v) ==> !(bit32(v, 19) && bit32(v, 20))) by (bit_vector);
}

} // verus!
