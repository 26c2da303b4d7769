//! The commands of an I/O card in a slot of a native interface.

use vstd::prelude::*;
use crate::command_arguments::mmc::BusWidth;
use crate::command_arguments::sdio::cmd52::{direct_argument, Direction};
use crate::error::{ImplError, MciError};
use crate::mci::Mci;
use crate::mci_card::MciCard;
use crate::pin::InputPin;
use crate::protocol::sdio::{
    access_register, byte_exchanged, cia_read, cia_word_read, exchange_byte, extended_read,
    extended_started, extended_written, io_bus_widened, io_card_sought, io_high_speed_taken,
    max_speed_taken, read_cia, read_cia_word, read_extended, register_accessed, seek_io_card,
    start_extended, take_io_high_speed, take_max_speed, widen_io_bus, without_byte,
    write_extended, SDIO_ADDRESS_LIMIT,
};
use crate::registers::sdio::cccr::function_select::FunctionSelection;

verus! {

pub use crate::protocol::sdio::{SDIO_CCCR_CIS_PTR, SDIO_CISTPL_END, SDIO_CISTPL_FUNCE};

/// The device was selected and one register of an I/O card was written with
/// the argument `arg`. Where the device cannot be selected nothing else is
/// asked.
pub open spec fn register_written(
    before: crate::bus::recorded::Record,
    after: crate::bus::recorded::Record,
    line: crate::protocol::blocks::Line,
    arg: u32,
    r: Result<(), MciError>,
) -> bool {
    exists|echo: Result<u8, MciError>| #[trigger]
        register_accessed(before, after, line, arg, echo) && r == without_byte(echo)
}

impl<MCI: Mci, WP: InputPin, DETECT: InputPin> MciCard<MCI, WP, DETECT> {
    /// Asks the card whether it is an I/O card, and notes it as one, with
    /// memory where it reports that. A card that is none is left as it is.
    pub fn sdio_send_operation_condition_command(&mut self) -> (r: Result<(), MciError>)
        ensures
            io_card_sought(old(self).scene(), final(self).scene(), r),
            final(self).wiring() == old(self).wiring(),
    {
        let mut settings = self.mmc_card.snapshot();
        let r = seek_io_card(&mut self.mmc_card.mmc, &mut self.mmc_card.record, &mut settings);
        self.mmc_card.adopt(settings);
        r
    }

    /// Reads or writes one register of an I/O card with a direct command.
    /// The address must fit the 17 bits that the command has for it.
    pub fn sdio_cmd52(
        &mut self,
        direction: Direction,
        function: FunctionSelection,
        register_address: u32,
        read_after_write: bool,
        write_data: u8,
    ) -> (r: Result<u8, MciError>)
        requires
            register_address <= SDIO_ADDRESS_LIMIT,
        ensures
            byte_exchanged(
                old(self).mmc_card.record@,
                final(self).mmc_card.record@,
                direct_argument(
                    direction,
                    function,
                    register_address,
                    read_after_write,
                    write_data,
                ),
                r,
            ),
            final(self).mmc_card.settings() == old(self).mmc_card.settings(),
            final(self).wiring() == old(self).wiring(),
    {
        exchange_byte(
            &mut self.mmc_card.mmc,
            &mut self.mmc_card.record,
            direction,
            function,
            register_address,
            read_after_write,
            write_data,
        )
    }

    /// Reads `byte_count` bytes of the common I/O area from `address` on
    /// into `buf`. A count that the buffer cannot hold is refused. Every
    /// address read must fit the 17 bits that the command has for it.
    pub fn sdio_read_cia(&mut self, address: u32, buf: &mut [u8], byte_count: usize) -> (r: Result<
        (),
        MciError,
    >)
        requires
            address + byte_count <= SDIO_ADDRESS_LIMIT + 1,
        ensures
            final(buf)@.len() == old(buf)@.len(),
            byte_count > old(buf)@.len() ==> r == Err::<(), MciError>(
                MciError::Impl(ImplError::InvalidConfiguration),
            ) && final(self).mmc_card.record@ == old(self).mmc_card.record@ && final(buf)@ == old(
                buf,
            )@,
            byte_count <= old(buf)@.len() ==> cia_read(
                old(self).mmc_card.record@,
                final(self).mmc_card.record@,
                address,
                byte_count as int,
                final(buf)@,
                r,
            ),
            forall|i: int| byte_count <= i < old(buf)@.len() ==> final(buf)@[i] == old(buf)@[i],
            final(self).mmc_card.settings() == old(self).mmc_card.settings(),
            final(self).wiring() == old(self).wiring(),
    {
        read_cia(&mut self.mmc_card.mmc, &mut self.mmc_card.record, address, buf, byte_count)
    }

    /// Reads four bytes of the common I/O area as a word, the first byte
    /// lowest.
    pub fn sdio_read_cia_32bits(&mut self, address: u32) -> (r: Result<u32, MciError>)
        requires
            address + 4 <= SDIO_ADDRESS_LIMIT + 1,
        ensures
            cia_word_read(old(self).mmc_card.record@, final(self).mmc_card.record@, address, r),
            final(self).mmc_card.settings() == old(self).mmc_card.settings(),
            final(self).wiring() == old(self).wiring(),
    {
        read_cia_word(&mut self.mmc_card.mmc, &mut self.mmc_card.record, address)
    }

    /// Reads the address of the card information structure from the common
    /// control registers.
    pub fn sdio_cis_area_in_ccr_address(&mut self) -> (r: Result<u32, MciError>)
        ensures
            cia_word_read(
                old(self).mmc_card.record@,
                final(self).mmc_card.record@,
                SDIO_CCCR_CIS_PTR,
                r,
            ),
            final(self).mmc_card.settings() == old(self).mmc_card.settings(),
            final(self).wiring() == old(self).wiring(),
    {
        self.sdio_read_cia_32bits(SDIO_CCCR_CIS_PTR)
    }

    /// Looks the maximum speed of an I/O card up in its card information
    /// structure, and notes it as the clock.
    pub fn sdio_get_max_speed(&mut self) -> (r: Result<(), MciError>)
        ensures
            max_speed_taken(old(self).scene(), final(self).scene(), r),
            final(self).wiring() == old(self).wiring(),
    {
        let mut settings = self.mmc_card.snapshot();
        let r = take_max_speed(&mut self.mmc_card.mmc, &mut self.mmc_card.record, &mut settings);
        self.mmc_card.adopt(settings);
        r
    }

    /// Asks an I/O card to use four data lines, and says which width the card
    /// uses from then on.
    pub fn sdio_cmd52_switch_to_4_bus_width_mode(&mut self) -> (r: Result<BusWidth, MciError>)
        ensures
            io_bus_widened(old(self).scene(), final(self).scene(), r),
            final(self).wiring() == old(self).wiring(),
    {
        let mut settings = self.mmc_card.snapshot();
        let r = widen_io_bus(&mut self.mmc_card.mmc, &mut self.mmc_card.record, &mut settings);
        self.mmc_card.adopt(settings);
        r
    }

    /// Asks an I/O card to run at high speed, and says whether it does from
    /// then on. A card that cannot stays as it is; that is no fault. The clock
    /// that is to be doubled must fit 32 bits.
    pub fn sdio_cmd52_set_high_speed_mode(&mut self) -> (r: Result<bool, MciError>)
        requires
            2 * old(self).mmc_card.clock <= u32::MAX,
        ensures
            io_high_speed_taken(old(self).scene(), final(self).scene(), r),
            final(self).wiring() == old(self).wiring(),
    {
        let mut settings = self.mmc_card.snapshot();
        let r = take_io_high_speed(&mut self.mmc_card.mmc, &mut self.mmc_card.record, &mut settings);
        self.mmc_card.adopt(settings);
        r
    }

    /// Starts an extended I/O transfer in byte mode, which moves 1 to 512
    /// bytes much as a single block moves. Another size is refused.
    pub fn sdio_cmd53_io_rw_extended(
        &mut self,
        direction: Direction,
        function: FunctionSelection,
        register_address: u16,
        increment_address: bool,
        data_size: u16,
        access_block: bool,
    ) -> (r: Result<(), MciError>)
        ensures
            extended_started(
                old(self).mmc_card.record@,
                final(self).mmc_card.record@,
                direction,
                function,
                register_address,
                increment_address,
                data_size,
                access_block,
                r,
            ),
            final(self).mmc_card.settings() == old(self).mmc_card.settings(),
            final(self).wiring() == old(self).wiring(),
    {
        start_extended(
            &mut self.mmc_card.mmc,
            &mut self.mmc_card.record,
            direction,
            function,
            register_address,
            increment_address,
            data_size,
            access_block,
        )
    }

    /// Selects the device and reads one register of an I/O function. The
    /// address must fit the 17 bits that the command has for it.
    pub fn sdio_read_direct(&mut self, function: FunctionSelection, address: u32) -> (r: Result<
        u8,
        MciError,
    >)
        requires
            address <= SDIO_ADDRESS_LIMIT,
        ensures
            register_accessed(
                old(self).mmc_card.record@,
                final(self).mmc_card.record@,
                old(self).line(),
                direct_argument(Direction::Read, function, address, false, 0),
                r,
            ),
            final(self).mmc_card.settings() == old(self).mmc_card.settings(),
            final(self).wiring() == old(self).wiring(),
    {
        let line = self.line_now();
        access_register(
            &mut self.mmc_card.mmc,
            &mut self.mmc_card.record,
            &line,
            Direction::Read,
            function,
            address,
            0,
        )
    }

    /// Selects the device and writes one register of an I/O function. The
    /// address must fit the 17 bits that the command has for it.
    pub fn sdio_write_direct(&mut self, function: FunctionSelection, address: u32, data: u8) -> (r:
        Result<(), MciError>)
        requires
            address <= SDIO_ADDRESS_LIMIT,
        ensures
            register_written(
                old(self).mmc_card.record@,
                final(self).mmc_card.record@,
                old(self).line(),
                direct_argument(Direction::Write, function, address, false, data),
                r,
            ),
            final(self).mmc_card.settings() == old(self).mmc_card.settings(),
            final(self).wiring() == old(self).wiring(),
    {
        let line = self.line_now();
        let echo = access_register(
            &mut self.mmc_card.mmc,
            &mut self.mmc_card.record,
            &line,
            Direction::Write,
            function,
            address,
            data,
        );
        match echo {
            Ok(_) => Ok(()),
            Err(e) => Err(e),
        }
    }

    /// Selects the device and reads `size` bytes from an I/O function into
    /// `destination`.
    pub fn sdio_read_extended(
        &mut self,
        function: FunctionSelection,
        address: u16,
        increment_address: bool,
        destination: &mut [u8],
        size: u16,
    ) -> (r: Result<(), MciError>)
        ensures
            final(destination)@.len() == old(destination)@.len(),
            extended_read(
                old(self).mmc_card.record@,
                final(self).mmc_card.record@,
                old(self).line(),
                function,
                address,
                increment_address,
                size,
                final(destination)@,
                r,
            ),
            final(self).mmc_card.settings() == old(self).mmc_card.settings(),
            final(self).wiring() == old(self).wiring(),
    {
        let line = self.line_now();
        read_extended(
            &mut self.mmc_card.mmc,
            &mut self.mmc_card.record,
            &line,
            function,
            address,
            increment_address,
            destination,
            size,
        )
    }

    /// Selects the device and writes `size` bytes from `source` to an I/O
    /// function.
    pub fn sdio_write_extended(
        &mut self,
        function: FunctionSelection,
        address: u16,
        increment_address: bool,
        source: &[u8],
        size: u16,
    ) -> (r: Result<(), MciError>)
        ensures
            extended_written(
                old(self).mmc_card.record@,
                final(self).mmc_card.record@,
                old(self).line(),
                function,
                address,
                increment_address,
                size,
                source@,
                r,
            ),
            final(self).mmc_card.settings() == old(self).mmc_card.settings(),
            final(self).wiring() == old(self).wiring(),
    {
        let line = self.line_now();
        write_extended(
            &mut self.mmc_card.mmc,
            &mut self.mmc_card.record,
            &line,
            function,
            address,
            increment_address,
            source,
            size,
        )
    }
}

} // verus!
