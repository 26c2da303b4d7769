//! Selection, card status and block transfers for a card in a slot of a
//! native interface.

use vstd::prelude::*;
use crate::bus::recorded::{deselect, done_or_failed, grown_by, Call, Exchange};
use crate::error::MciError;
use crate::mci::Mci;
use crate::mci_card::MciCard;
use crate::pin::InputPin;
use crate::protocol::blocks::{
    address_of, await_status, batch_read, batch_written, begin_read, begin_write, device_selected,
    finish_read, finish_write, read_batch, read_begun, select_device, status_awaited,
    transfer_finished, write_batch, write_begun,
};
use crate::protocol::card::{csd_taken, take_csd};
use crate::protocol::slot::{select_slot, slot_selected};
use crate::registers::sd::card_status::CardStatusRegister;
use crate::transaction::Transaction;

verus! {

impl<MCI: Mci, WP: InputPin, DETECT: InputPin> MciCard<MCI, WP, DETECT> {
    /// Loads the card specific data from the 128-bit response of the card.
    pub fn sd_mmc_cmd9_mci(&mut self) -> (r: Result<(), MciError>)
        ensures
            csd_taken(old(self).scene(), final(self).scene(), r),
            final(self).wiring() == old(self).wiring(),
    {
        let mut settings = self.mmc_card.snapshot();
        let r = take_csd(&mut self.mmc_card.mmc, &mut self.mmc_card.record, &mut settings);
        self.mmc_card.adopt(settings);
        r
    }

    /// Asks the card for its status until it is ready for data.
    pub fn sd_mmc_cmd13_get_status_and_wait_for_ready_for_data_flag(&mut self) -> (r: Result<CardStatusRegister, MciError>)
        ensures
            status_awaited(old(self).mmc_card.record@, final(self).mmc_card.record@, old(self).mmc_card.rca, r),
            final(self).mmc_card.settings() == old(self).mmc_card.settings(),
            final(self).wiring() == old(self).wiring(),
    {
        await_status(&mut self.mmc_card.mmc, &mut self.mmc_card.record, self.mmc_card.rca)
    }

    /// Deselects the device of the slot.
    pub fn sd_mmc_deselect_this_device(&mut self) -> (r: Result<(), MciError>)
        ensures
            grown_by(
                old(self).mmc_card.record@,
                final(self).mmc_card.record@,
                Exchange { call: Call::Deselect { slot: old(self).slot }, reply: done_or_failed(r) },
            ),
            final(self).mmc_card.settings() == old(self).mmc_card.settings(),
            final(self).wiring() == old(self).wiring(),
    {
        deselect(&mut self.mmc_card.mmc, &mut self.mmc_card.record, self.slot)
    }

    /// Selects the device of the slot with the clock, the bus width and the
    /// speed of the card.
    pub fn sd_mmc_select_this_device_on_mci_and_configure_mci(&mut self) -> (r: Result<(), MciError>)
        ensures
            device_selected(old(self).mmc_card.record@, final(self).mmc_card.record@, old(self).line(), r),
            final(self).mmc_card.settings() == old(self).mmc_card.settings(),
            final(self).wiring() == old(self).wiring(),
    {
        let line = self.line_now();
        select_device(&mut self.mmc_card.mmc, &mut self.mmc_card.record, &line)
    }

    /// Selects the slot: asks the card detect pin whether a card is there,
    /// takes a card that was just detected into initialisation, and selects
    /// the device.
    pub fn sd_mmc_select_slot(&mut self) -> (r: Result<(), MciError>)
        ensures
            slot_selected(
                old(self).scene(),
                final(self).scene(),
                true,
                old(self).detect_high_activated,
                old(self).slot,
                r,
            ),
            final(self).wiring() == old(self).wiring(),
    {
        let mut settings = self.mmc_card.snapshot();
        // The type arguments hold the call to the card detect pin.
        let r = select_slot::<MCI, DETECT>(
            &mut self.mmc_card.mmc,
            &mut self.mmc_card.record,
            &mut settings,
            &self.detect,
            true,
            self.detect_high_activated,
            self.slot,
        );
        self.mmc_card.adopt(settings);
        r
    }

    /// Starts a read transfer of `num_blocks` blocks at the block `start`.
    /// The address of a card without high capacity counts bytes and must fit
    /// 32 bits.
    pub fn sd_mmc_init_read_blocks(&mut self, start: u32, num_blocks: u16) -> (r: Result<
        Transaction,
        MciError,
    >)
        requires
            address_of(old(self).mmc_card.card_type.spec_high_capacity(), start) <= u32::MAX,
        ensures
            read_begun(
                old(self).mmc_card.record@,
                final(self).mmc_card.record@,
                old(self).line(),
                old(self).mmc_card.rca,
                old(self).mmc_card.card_type.spec_high_capacity(),
                start,
                num_blocks,
                r,
            ),
            final(self).mmc_card.settings() == old(self).mmc_card.settings(),
            final(self).wiring() == old(self).wiring(),
    {
        let line = self.line_now();
        let high_capacity = self.mmc_card.card_type.high_capacity();
        begin_read(
            &mut self.mmc_card.mmc,
            &mut self.mmc_card.record,
            &line,
            self.mmc_card.rca,
            high_capacity,
            start,
            num_blocks,
        )
    }

    /// Reads a batch of blocks of a transfer into `destination`. The batch
    /// must not hold more blocks than remain of the transfer.
    pub fn sd_mmc_start_read(&mut self, transaction: &mut Transaction, destination: &mut [u8]) -> (r:
        Result<(), MciError>)
        requires
            old(destination)@.len() / 512 <= old(transaction).remain,
        ensures
            final(destination)@.len() == old(destination)@.len(),
            batch_read(old(self).mmc_card.record@, final(self).mmc_card.record@, final(destination)@, r),
            *final(transaction) == old(transaction).after_batch(
                r is Ok,
                old(destination)@.len() as int / 512,
            ),
            final(self).mmc_card.settings() == old(self).mmc_card.settings(),
            final(self).wiring() == old(self).wiring(),
    {
        read_batch(&mut self.mmc_card.mmc, &mut self.mmc_card.record, transaction, destination)
    }

    /// Waits for the end of a batch of blocks read. With `abort` the
    /// transfer is given up. The transmission is stopped where nothing
    /// remains of the transfer.
    pub fn sd_mmc_wait_end_of_read_blocks(&mut self, abort: bool, transaction: &mut Transaction) -> (r:
        Result<(), MciError>)
        ensures
            transfer_finished(
                old(self).mmc_card.record@,
                final(self).mmc_card.record@,
                Call::WaitRead,
                true,
                abort,
                old(transaction).remain,
                r,
            ),
            *final(transaction) == (if final(self).mmc_card.record@[old(
                self,
            ).mmc_card.record@.len() as int].reply is Failed {
                *old(transaction)
            } else {
                old(transaction).after_wait(abort)
            }),
            final(self).mmc_card.settings() == old(self).mmc_card.settings(),
            final(self).wiring() == old(self).wiring(),
    {
        finish_read(&mut self.mmc_card.mmc, &mut self.mmc_card.record, abort, transaction)
    }

    /// Starts a write transfer of `num_blocks` blocks at the block `start`,
    /// unless the card is write protected. The address of a card without
    /// high capacity counts bytes and must fit 32 bits.
    pub fn sd_mmc_init_write_blocks(&mut self, start: u32, num_blocks: u16) -> (r: Result<
        Transaction,
        MciError,
    >)
        requires
            address_of(old(self).mmc_card.card_type.spec_high_capacity(), start) <= u32::MAX,
        ensures
            write_begun(
                old(self).mmc_card.record@,
                final(self).mmc_card.record@,
                old(self).line(),
                true,
                old(self).wp_high_activated,
                old(self).mmc_card.card_type.spec_high_capacity(),
                start,
                num_blocks,
                r,
            ),
            final(self).mmc_card.settings() == old(self).mmc_card.settings(),
            final(self).wiring() == old(self).wiring(),
    {
        let line = self.line_now();
        let high_capacity = self.mmc_card.card_type.high_capacity();
        // The type arguments hold the call to the write protect pin.
        begin_write::<MCI, WP>(
            &mut self.mmc_card.mmc,
            &mut self.mmc_card.record,
            &line,
            &self.wp,
            true,
            self.wp_high_activated,
            high_capacity,
            start,
            num_blocks,
        )
    }

    /// Writes a batch of blocks of a transfer from `blocks`. The batch must
    /// not hold more blocks than remain of the transfer.
    pub fn sd_mmc_start_write_blocks(&mut self, transaction: &mut Transaction, blocks: &[u8]) -> (r:
        Result<(), MciError>)
        requires
            blocks@.len() / 512 <= old(transaction).remain,
        ensures
            batch_written(old(self).mmc_card.record@, final(self).mmc_card.record@, blocks@, r),
            *final(transaction) == old(transaction).after_batch(
                r is Ok,
                blocks@.len() as int / 512,
            ),
            final(self).mmc_card.settings() == old(self).mmc_card.settings(),
            final(self).wiring() == old(self).wiring(),
    {
        write_batch(&mut self.mmc_card.mmc, &mut self.mmc_card.record, transaction, blocks)
    }

    /// Waits for the end of a batch of blocks written. With `abort` the
    /// transfer is given up. The transmission is stopped where nothing
    /// remains of the transfer.
    pub fn sd_mmc_wait_end_of_write_blocks(&mut self, abort: bool, transaction: &mut Transaction) -> (r:
        Result<(), MciError>)
        ensures
            transfer_finished(
                old(self).mmc_card.record@,
                final(self).mmc_card.record@,
                Call::WaitWrite,
                false,
                abort,
                old(transaction).remain,
                r,
            ),
            *final(transaction) == (if final(self).mmc_card.record@[old(
                self,
            ).mmc_card.record@.len() as int].reply is Failed {
                *old(transaction)
            } else {
                old(transaction).after_wait(abort)
            }),
            final(self).mmc_card.settings() == old(self).mmc_card.settings(),
            final(self).wiring() == old(self).wiring(),
    {
        finish_write(&mut self.mmc_card.mmc, &mut self.mmc_card.record, abort, transaction)
    }
}

} // verus!
