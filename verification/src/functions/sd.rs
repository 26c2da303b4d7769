//! The commands that identify and tune an SD card in a slot of a native
//! interface.

use vstd::prelude::*;
use crate::command_arguments::sd::cmd6::Cmd6;
use crate::decode::{decode_sd, sd_decoded};
use crate::error::MciError;
use crate::mci::Mci;
use crate::mci_card::MciCard;
use crate::pin::InputPin;
use crate::protocol::card::{
    sd_conditions_taken, sd_high_speed_taken, take_sd_conditions, take_sd_high_speed,
    take_version, take_wide_bus, version_taken, wide_bus_taken,
};
use crate::protocol::sd::{
    check_interface, function_switched, interface_checked, load_scr, scr_loaded, switch_function,
};
use crate::registers::sd::scr::ScrRegister;
use crate::registers::sd::switch_status::SwitchStatusRegister;

verus! {

impl<MCI: Mci, WP: InputPin, DETECT: InputPin> MciCard<MCI, WP, DETECT> {
    /// Polls an SD card for its operating conditions until it is powered up,
    /// and notes high capacity where the card reports it. `v2` tells the card
    /// that the host supports high capacity.
    pub fn sd_mci_operations_conditions(&mut self, v2: bool) -> (r: Result<(), MciError>)
        ensures
            sd_conditions_taken(old(self).scene(), final(self).scene(), v2, r),
            final(self).wiring() == old(self).wiring(),
    {
        let mut settings = self.mmc_card.snapshot();
        let r = take_sd_conditions(&mut self.mmc_card.mmc, &mut self.mmc_card.record, &mut settings, v2);
        self.mmc_card.adopt(settings);
        r
    }

    /// Sends a switch function command and reads the status block.
    pub fn sd_cmd6(&mut self, command: u32, arg: Cmd6) -> (r: Result<SwitchStatusRegister, MciError>)
        ensures
            function_switched(
                old(self).mmc_card.record@,
                final(self).mmc_card.record@,
                command,
                arg.val,
                r,
            ),
            final(self).mmc_card.settings() == old(self).mmc_card.settings(),
            final(self).wiring() == old(self).wiring(),
    {
        switch_function(&mut self.mmc_card.mmc, &mut self.mmc_card.record, command, arg.val)
    }

    /// Asks an SD card to switch to high speed; says whether the card was
    /// switched, and notes the speed and the doubled clock where it was. A
    /// card that refuses stays as it is; that is no fault. The clock that is
    /// to be doubled must fit 32 bits.
    pub fn sd_cmd6_set_to_high_speed_mode(&mut self) -> (r: Result<bool, MciError>)
        requires
            2 * old(self).mmc_card.clock <= u32::MAX,
        ensures
            sd_high_speed_taken(old(self).scene(), final(self).scene(), r),
            final(self).wiring() == old(self).wiring(),
    {
        let mut settings = self.mmc_card.snapshot();
        let r = take_sd_high_speed(&mut self.mmc_card.mmc, &mut self.mmc_card.record, &mut settings);
        self.mmc_card.adopt(settings);
        r
    }

    /// Sends the interface condition and says whether the card is an SD card
    /// of version 2.
    pub fn sd_cmd8_is_v2(&mut self) -> (r: Result<bool, MciError>)
        ensures
            interface_checked(old(self).mmc_card.record@, final(self).mmc_card.record@, r),
            final(self).mmc_card.settings() == old(self).mmc_card.settings(),
            final(self).wiring() == old(self).wiring(),
    {
        check_interface(&mut self.mmc_card.mmc, &mut self.mmc_card.record)
    }

    /// Decodes the card specific data of an SD card into clock and capacity.
    pub fn sd_decode_csd(&mut self) -> (r: Result<(), MciError>)
        ensures
            r is Ok,
            sd_decoded(old(self).mmc_card.settings(), final(self).mmc_card.settings()),
            final(self).mmc_card.record == old(self).mmc_card.record,
            final(self).wiring() == old(self).wiring(),
    {
        let mut settings = self.mmc_card.snapshot();
        decode_sd(&mut settings);
        self.mmc_card.adopt(settings);
        Ok(())
    }

    /// Asks an SD card to use four data lines, and notes the width where the
    /// card took both commands.
    pub fn sd_acmd6_set_data_bus_width_to_4_bits(&mut self) -> (r: Result<(), MciError>)
        ensures
            wide_bus_taken(old(self).scene(), final(self).scene(), r),
            final(self).wiring() == old(self).wiring(),
    {
        let mut settings = self.mmc_card.snapshot();
        let r = take_wide_bus(&mut self.mmc_card.mmc, &mut self.mmc_card.record, &mut settings);
        self.mmc_card.adopt(settings);
        r
    }

    /// Reads the SD configuration register.
    pub fn sd_scr(&mut self) -> (r: Result<ScrRegister, MciError>)
        ensures
            scr_loaded(
                old(self).mmc_card.record@,
                final(self).mmc_card.record@,
                old(self).mmc_card.rca,
                r,
            ),
            final(self).mmc_card.settings() == old(self).mmc_card.settings(),
            final(self).wiring() == old(self).wiring(),
    {
        load_scr(&mut self.mmc_card.mmc, &mut self.mmc_card.record, self.mmc_card.rca)
    }

    /// Reads the SD configuration register and notes the version of the card
    /// that it tells.
    pub fn sd_acmd51(&mut self) -> (r: Result<(), MciError>)
        ensures
            version_taken(old(self).scene(), final(self).scene(), r),
            final(self).wiring() == old(self).wiring(),
    {
        let mut settings = self.mmc_card.snapshot();
        let r = take_version(&mut self.mmc_card.mmc, &mut self.mmc_card.record, &mut settings);
        self.mmc_card.adopt(settings);
        r
    }
}

} // verus!
