//! The commands of a card behind a native interface.

use vstd::prelude::*;
use crate::bus::SdMmcBus;
use crate::card::card::Card;
use crate::command_arguments::mmc::BusWidth;
use crate::decode::{decode_mmc, mmc_decoded};
use crate::error::MciError;
use crate::protocol::card::{
    bus_width_taken, csd_taken, ext_csd_taken, mmc_high_speed_taken, take_bus_width, take_csd,
    take_ext_csd, take_mmc_high_speed, take_wide_bus, wide_bus_taken,
};

verus! {

pub use crate::protocol::mmc::{EXT_CSD_BSIZE, EXT_CSD_CARD_TYPE_INDEX, EXT_CSD_SEC_COUNT_INDEX};

impl<BUS: SdMmcBus> Card<BUS> {
    /// Asks an SD card to use four data lines, and notes the width where the
    /// card took both commands.
    pub fn set_data_bus_width_to_4_bits(&mut self) -> (r: Result<(), MciError>)
        ensures
            wide_bus_taken(old(self).scene(), final(self).scene(), r),
    {
        let mut settings = self.snapshot();
        let r = take_wide_bus(&mut self.bus, &mut self.record, &mut settings);
        self.adopt(settings);
        r
    }

    /// Loads the card specific data from the 128-bit response of the card.
    pub fn mci_load_csd(&mut self) -> (r: Result<(), MciError>)
        ensures
            csd_taken(old(self).scene(), final(self).scene(), r),
    {
        let mut settings = self.snapshot();
        let r = take_csd(&mut self.bus, &mut self.record, &mut settings);
        self.adopt(settings);
        r
    }

    /// Asks an MMC to set its bus width. A card that refuses keeps its width
    /// and the answer is `false`; that is no fault.
    pub fn set_bus_width(&mut self, bus_width: &BusWidth) -> (r: Result<bool, MciError>)
        ensures
            bus_width_taken(old(self).scene(), final(self).scene(), *bus_width, r),
    {
        let mut settings = self.snapshot();
        let r = take_bus_width(&mut self.bus, &mut self.record, &mut settings, bus_width);
        self.adopt(settings);
        r
    }

    /// Asks an MMC to turn high-speed timing on, and notes the speed and the
    /// clock of 52 MHz where the card took it. A card that refuses stays as
    /// it is and the answer is `false`; that is no fault.
    pub fn set_high_speed(&mut self) -> (r: Result<bool, MciError>)
        ensures
            mmc_high_speed_taken(old(self).scene(), final(self).scene(), r),
    {
        let mut settings = self.snapshot();
        let r = take_mmc_high_speed(&mut self.bus, &mut self.record, &mut settings);
        self.adopt(settings);
        r
    }

    /// Reads the extended card specific data. Says whether the card runs at
    /// 52 MHz, and takes the sector count as the capacity where the card
    /// specific data holds the maximum device size.
    pub fn load_extcsd(&mut self) -> (r: Result<bool, MciError>)
        ensures
            ext_csd_taken(old(self).scene(), final(self).scene(), r),
    {
        let mut settings = self.snapshot();
        let r = take_ext_csd(&mut self.bus, &mut self.record, &mut settings);
        self.adopt(settings);
        r
    }

    /// Decodes the card specific data of an MMC into version, clock and
    /// capacity.
    pub fn decode_csd(&mut self) -> (r: Result<(), MciError>)
        ensures
            r is Ok,
            mmc_decoded(old(self).settings(), final(self).settings()),
            final(self).record == old(self).record,
    {
        let mut settings = self.snapshot();
        decode_mmc(&mut settings);
        self.adopt(settings);
        Ok(())
    }
}

} // verus!
