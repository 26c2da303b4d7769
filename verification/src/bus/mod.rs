//! The transport that the driver consumes: a capability set that a native
//! card interface or an SPI peripheral implements.
//!
//! The methods promise nothing about what the card answers: the driver is
//! verified for every answer. The one clause on [`Read::read_blocks`] only
//! restates that a slice keeps its length.

pub mod recorded;
pub mod spi;

use vstd::prelude::*;
use crate::command_arguments::mmc::BusWidth;
use crate::error::MciError;

verus! {

/// The size of a data block in bytes.
pub const SD_MMC_BLOCK_SIZE: usize = 512;

/// Commands and configuration.
pub trait Bus {
    /// Initialises the low level driver.
    fn init(&mut self) -> Result<(), MciError>;

    /// Shuts the low level driver down.
    fn deinit(&mut self) -> Result<(), MciError>;

    /// Selects a device and configures the line for it.
    fn select_device(
        &mut self,
        slot: u8,
        clock: u32,
        bus_width: &BusWidth,
        high_speed: bool,
    ) -> Result<(), MciError>;

    /// Deselects a device.
    fn deselect_device(&mut self, slot: u8) -> Result<(), MciError>;

    /// Sends at least 74 clock cycles, as a card needs after it was plugged.
    fn send_clock(&mut self) -> Result<(), MciError>;

    /// Sends a command that has no data phase.
    fn send_command(&mut self, cmd: u32, arg: u32) -> Result<(), MciError>;

    /// The 32-bit response to the last command.
    fn get_response(&mut self) -> Result<u32, MciError>;
}

/// Commands with a data phase.
pub trait Adtc {
    /// Sends a command that starts a data transfer of `block_amount` blocks
    /// of `block_size` bytes. With `access_in_blocks` the data moves by
    /// `read_blocks` and `write_blocks`, else by `read_word` and `write_word`.
    fn adtc_start(
        &mut self,
        command: u32,
        argument: u32,
        block_size: u16,
        block_amount: u16,
        access_in_blocks: bool,
    ) -> Result<(), MciError>;

    /// Sends a command that stops a data transfer.
    fn adtc_stop(&self, command: u32, argument: u32) -> Result<(), MciError>;
}

/// The data phase from card to host.
pub trait Read {
    /// Reads one word.
    fn read_word(&mut self) -> Result<u32, MciError>;

    /// Reads whole blocks into `blocks`.
    fn read_blocks(&mut self, blocks: &mut [u8]) -> (r: Result<(), MciError>)
        ensures
            final(blocks)@.len() == old(blocks)@.len(),
    ;

    /// Waits until the blocks have been read.
    fn wait_until_read_finished(&mut self) -> Result<(), MciError>;
}

/// The data phase from host to card.
pub trait Write {
    /// Writes one word.
    fn write_word(&mut self, val: u32) -> Result<(), MciError>;

    /// Writes whole blocks from `blocks`.
    fn write_blocks(&mut self, blocks: &[u8]) -> Result<(), MciError>;

    /// Waits until the blocks have been written.
    fn wait_until_write_finished(&mut self) -> Result<(), MciError>;
}

/// A transport over SPI.
pub trait SpiBus: Bus + Adtc + Read + Write {

}

/// A transport over a native card interface.
pub trait SdMmcBus: Bus + Adtc + Read + Write {
    /// The widest bus that the interface offers for a slot.
    fn get_bus_width(&mut self, slot: u8) -> Result<BusWidth, MciError>;

    /// Whether the interface can run at high speed.
    fn is_high_speed_capable(&mut self) -> Result<bool, MciError>;

    /// The 128-bit response to the last command.
    fn get_response128(&mut self) -> Result<[u32; 4], MciError>;
}

} // verus!
