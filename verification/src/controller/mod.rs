//! The controller: selection of the slot and the device, the card status,
//! and block transfers.

pub mod controller;
pub mod sdcard;
pub mod sdmmc;

use vstd::prelude::*;
use crate::bus::recorded::{deselect, done_or_failed, grown_by, Call, Exchange};
use crate::bus::{Adtc, Bus, Read, Write};
use crate::error::MciError;
use crate::pin::InputPin;
use crate::protocol::blocks::{
    address_of, await_status, batch_read, batch_written, begin_read, begin_write, device_selected,
    finish_read, finish_write, read_batch, read_begun, select_device, status_awaited,
    transfer_finished, write_batch, write_begun, Line,
};
use crate::protocol::slot::{select_slot, slot_selected};
use crate::registers::sd::card_status::CardStatusRegister;
use crate::transaction::Transaction;

pub use controller::Controller;

verus! {

impl<BUS: Adtc + Bus + Read + Write, WP: InputPin, DETECT: InputPin> Controller<BUS, WP, DETECT> {
    /// The line as the card now asks for it.
    fn line_now(&self) -> (r: Line)
        ensures
            r == self.line(),
    {
        Line {
            slot: self.slot,
            clock: self.card.clock,
            bus_width: self.card.bus_width,
            high_speed: self.card.high_speed,
        }
    }

    /// Asks the card for its status until it is ready for data.
    pub fn load_status(&mut self) -> (r: Result<CardStatusRegister, MciError>)
        ensures
            status_awaited(old(self).card.record@, final(self).card.record@, old(self).card.rca, r),
            final(self).card.settings() == old(self).card.settings(),
            final(self).wiring() == old(self).wiring(),
    {
        await_status(&mut self.card.bus, &mut self.card.record, self.card.rca)
    }

    /// Deselects the device of the slot.
    pub fn deselect(&mut self) -> (r: Result<(), MciError>)
        ensures
            grown_by(
                old(self).card.record@,
                final(self).card.record@,
                Exchange { call: Call::Deselect { slot: old(self).slot }, reply: done_or_failed(r) },
            ),
            final(self).card.settings() == old(self).card.settings(),
            final(self).wiring() == old(self).wiring(),
    {
        deselect(&mut self.card.bus, &mut self.card.record, self.slot)
    }

    /// Selects the device of the slot with the clock, the bus width and the
    /// speed of the card.
    pub fn select(&mut self) -> (r: Result<(), MciError>)
        ensures
            device_selected(old(self).card.record@, final(self).card.record@, old(self).line(), r),
            final(self).card.settings() == old(self).card.settings(),
            final(self).wiring() == old(self).wiring(),
    {
        let line = self.line_now();
        select_device(&mut self.card.bus, &mut self.card.record, &line)
    }

    /// Selects the slot: asks the card detect pin whether a card is there,
    /// takes a card that was just detected into initialisation, and selects
    /// the device.
    pub fn select_slot(&mut self) -> (r: Result<(), MciError>)
        ensures
            slot_selected(
                old(self).scene(),
                final(self).scene(),
                false,
                old(self).detect_lower_is_true,
                old(self).slot,
                r,
            ),
            final(self).wiring() == old(self).wiring(),
    {
        let mut settings = self.card.snapshot();
        // The type arguments hold the call to the card detect pin.
        let r = select_slot::<BUS, DETECT>(
            &mut self.card.bus,
            &mut self.card.record,
            &mut settings,
            &self.detect_pin,
            false,
            self.detect_lower_is_true,
            self.slot,
        );
        self.card.adopt(settings);
        r
    }

    /// Starts a read transfer of `num_blocks` blocks at the block `start`.
    /// The address of a card without high capacity counts bytes and must fit
    /// 32 bits.
    pub fn init_read_blocks(&mut self, start: u32, num_blocks: u16) -> (r: Result<
        Transaction,
        MciError,
    >)
        requires
            address_of(old(self).card.card_type.spec_high_capacity(), start) <= u32::MAX,
        ensures
            read_begun(
                old(self).card.record@,
                final(self).card.record@,
                old(self).line(),
                old(self).card.rca,
                old(self).card.card_type.spec_high_capacity(),
                start,
                num_blocks,
                r,
            ),
            final(self).card.settings() == old(self).card.settings(),
            final(self).wiring() == old(self).wiring(),
    {
        let line = self.line_now();
        let high_capacity = self.card.card_type.high_capacity();
        begin_read(
            &mut self.card.bus,
            &mut self.card.record,
            &line,
            self.card.rca,
            high_capacity,
            start,
            num_blocks,
        )
    }

    /// Reads a batch of blocks of a transfer into `destination`. The batch
    /// must not hold more blocks than remain of the transfer.
    pub fn start_read(&mut self, transaction: &mut Transaction, destination: &mut [u8]) -> (r:
        Result<(), MciError>)
        requires
            old(destination)@.len() / 512 <= old(transaction).remain,
        ensures
            final(destination)@.len() == old(destination)@.len(),
            batch_read(old(self).card.record@, final(self).card.record@, final(destination)@, r),
            *final(transaction) == old(transaction).after_batch(
                r is Ok,
                old(destination)@.len() as int / 512,
            ),
            final(self).card.settings() == old(self).card.settings(),
            final(self).wiring() == old(self).wiring(),
    {
        read_batch(&mut self.card.bus, &mut self.card.record, transaction, destination)
    }

    /// Waits for the end of a batch of blocks read. With `abort` the
    /// transfer is given up. The transmission is stopped where nothing
    /// remains of the transfer.
    pub fn wait_end_of_read_blocks(&mut self, abort: bool, transaction: &mut Transaction) -> (r:
        Result<(), MciError>)
        ensures
            transfer_finished(
                old(self).card.record@,
                final(self).card.record@,
                Call::WaitRead,
                true,
                abort,
                old(transaction).remain,
                r,
            ),
            *final(transaction) == (if final(self).card.record@[old(
                self,
            ).card.record@.len() as int].reply is Failed {
                *old(transaction)
            } else {
                old(transaction).after_wait(abort)
            }),
            final(self).card.settings() == old(self).card.settings(),
            final(self).wiring() == old(self).wiring(),
    {
        finish_read(&mut self.card.bus, &mut self.card.record, abort, transaction)
    }

    /// Starts a write transfer of `num_blocks` blocks at the block `start`,
    /// unless the card is write protected. The address of a card without
    /// high capacity counts bytes and must fit 32 bits.
    pub fn init_write_blocks(&mut self, start: u32, num_blocks: u16) -> (r: Result<
        Transaction,
        MciError,
    >)
        requires
            address_of(old(self).card.card_type.spec_high_capacity(), start) <= u32::MAX,
        ensures
            write_begun(
                old(self).card.record@,
                final(self).card.record@,
                old(self).line(),
                false,
                old(self).lower_is_true,
                old(self).card.card_type.spec_high_capacity(),
                start,
                num_blocks,
                r,
            ),
            final(self).card.settings() == old(self).card.settings(),
            final(self).wiring() == old(self).wiring(),
    {
        let line = self.line_now();
        let high_capacity = self.card.card_type.high_capacity();
        // The type arguments hold the call to the write protect pin.
        begin_write::<BUS, WP>(
            &mut self.card.bus,
            &mut self.card.record,
            &line,
            &self.write_protect_pin,
            false,
            self.lower_is_true,
            high_capacity,
            start,
            num_blocks,
        )
    }

    /// Writes a batch of blocks of a transfer from `blocks`. The batch must
    /// not hold more blocks than remain of the transfer.
    pub fn start_write_blocks(&mut self, transaction: &mut Transaction, blocks: &[u8]) -> (r:
        Result<(), MciError>)
        requires
            blocks@.len() / 512 <= old(transaction).remain,
        ensures
            batch_written(old(self).card.record@, final(self).card.record@, blocks@, r),
            *final(transaction) == old(transaction).after_batch(
                r is Ok,
                blocks@.len() as int / 512,
            ),
            final(self).card.settings() == old(self).card.settings(),
            final(self).wiring() == old(self).wiring(),
    {
        write_batch(&mut self.card.bus, &mut self.card.record, transaction, blocks)
    }

    /// Waits for the end of a batch of blocks written. With `abort` the
    /// transfer is given up. The transmission is stopped where nothing
    /// remains of the transfer.
    pub fn wait_end_of_write_blocks(&mut self, abort: bool, transaction: &mut Transaction) -> (r:
        Result<(), MciError>)
        ensures
            transfer_finished(
                old(self).card.record@,
                final(self).card.record@,
                Call::WaitWrite,
                false,
                abort,
                old(transaction).remain,
                r,
            ),
            *final(transaction) == (if final(self).card.record@[old(
                self,
            ).card.record@.len() as int].reply is Failed {
                *old(transaction)
            } else {
                old(transaction).after_wait(abort)
            }),
            final(self).card.settings() == old(self).card.settings(),
            final(self).wiring() == old(self).wiring(),
    {
        finish_write(&mut self.card.bus, &mut self.card.record, abort, transaction)
    }
}

} // verus!
