//! The commands of the controller that identify and tune an SD card.

use vstd::prelude::*;
use crate::bus::{Adtc, Bus, Read, Write};
use crate::command_arguments::sd::cmd6::Cmd6;
use crate::controller::controller::Controller;
use crate::decode::{decode_sd, sd_decoded};
use crate::error::MciError;
use crate::pin::InputPin;
use crate::protocol::card::{
    mmc_conditions_taken, sd_conditions_taken, sd_high_speed_taken, take_mmc_conditions,
    take_sd_conditions, take_sd_high_speed, take_version, version_taken,
};
use crate::protocol::sd::{
    check_interface, function_switched, interface_checked, load_scr, scr_loaded, switch_function,
};
use crate::registers::sd::scr::ScrRegister;
use crate::registers::sd::switch_status::SwitchStatusRegister;

verus! {

impl<BUS: Adtc + Bus + Read + Write, WP: InputPin, DETECT: InputPin> Controller<BUS, WP, DETECT> {
    /// Polls an SD card for its operating conditions until it is powered up,
    /// and notes high capacity where the card reports it. `v2` tells the card
    /// that the host supports high capacity.
    pub fn load_ocr_sdcard(&mut self, v2: bool) -> (r: Result<(), MciError>)
        ensures
            sd_conditions_taken(old(self).scene(), final(self).scene(), v2, r),
            final(self).wiring() == old(self).wiring(),
    {
        let mut settings = self.card.snapshot();
        let r = take_sd_conditions(&mut self.card.bus, &mut self.card.record, &mut settings, v2);
        self.card.adopt(settings);
        r
    }

    /// Polls an MMC for its operating conditions until it is powered up, and
    /// notes high capacity where the card reports sector access.
    pub fn load_ocr_mmc(&mut self) -> (r: Result<(), MciError>)
        ensures
            mmc_conditions_taken(old(self).scene(), final(self).scene(), r),
            final(self).wiring() == old(self).wiring(),
    {
        let mut settings = self.card.snapshot();
        let r = take_mmc_conditions(&mut self.card.bus, &mut self.card.record, &mut settings);
        self.card.adopt(settings);
        r
    }

    /// Sends a switch function command and reads the status block.
    pub fn cmd6(&mut self, command: u32, arg: Cmd6) -> (r: Result<SwitchStatusRegister, MciError>)
        ensures
            function_switched(
                old(self).card.record@,
                final(self).card.record@,
                command,
                arg.val,
                r,
            ),
            final(self).card.settings() == old(self).card.settings(),
            final(self).wiring() == old(self).wiring(),
    {
        switch_function(&mut self.card.bus, &mut self.card.record, command, arg.val)
    }

    /// Asks an SD card to switch to high speed; says whether the card was
    /// switched, and notes the speed and the doubled clock where it was. A
    /// card that refuses stays as it is; that is no fault. The clock that is
    /// to be doubled must fit 32 bits.
    pub fn set_to_high_speed_mode(&mut self) -> (r: Result<bool, MciError>)
        requires
            2 * old(self).card.clock <= u32::MAX,
        ensures
            sd_high_speed_taken(old(self).scene(), final(self).scene(), r),
            final(self).wiring() == old(self).wiring(),
    {
        let mut settings = self.card.snapshot();
        let r = take_sd_high_speed(&mut self.card.bus, &mut self.card.record, &mut settings);
        self.card.adopt(settings);
        r
    }

    /// Sends the interface condition and says whether the card is an SD card
    /// of version 2.
    pub fn is_v2(&mut self) -> (r: Result<bool, MciError>)
        ensures
            interface_checked(old(self).card.record@, final(self).card.record@, r),
            final(self).card.settings() == old(self).card.settings(),
            final(self).wiring() == old(self).wiring(),
    {
        check_interface(&mut self.card.bus, &mut self.card.record)
    }

    /// Decodes the card specific data of an SD card into clock and capacity.
    pub fn sd_decode_csd(&mut self) -> (r: Result<(), MciError>)
        ensures
            r is Ok,
            sd_decoded(old(self).card.settings(), final(self).card.settings()),
            final(self).card.record == old(self).card.record,
            final(self).wiring() == old(self).wiring(),
    {
        let mut settings = self.card.snapshot();
        decode_sd(&mut settings);
        self.card.adopt(settings);
        Ok(())
    }

    /// Reads the SD configuration register.
    pub fn sd_scr(&mut self) -> (r: Result<ScrRegister, MciError>)
        ensures
            scr_loaded(old(self).card.record@, final(self).card.record@, old(self).card.rca, r),
            final(self).card.settings() == old(self).card.settings(),
            final(self).wiring() == old(self).wiring(),
    {
        load_scr(&mut self.card.bus, &mut self.card.record, self.card.rca)
    }

    /// Reads the SD configuration register and notes the version of the card
    /// that it tells.
    pub fn sd_acmd51(&mut self) -> (r: Result<(), MciError>)
        ensures
            version_taken(old(self).scene(), final(self).scene(), r),
            final(self).wiring() == old(self).wiring(),
    {
        let mut settings = self.card.snapshot();
        let r = take_version(&mut self.card.bus, &mut self.card.record, &mut settings);
        self.card.adopt(settings);
        r
    }
}

} // verus!
