//! The commands of an MMC behind its interface.

use vstd::prelude::*;
use crate::bus::{Adtc, Bus, Read, Write};
use crate::command_arguments::mmc::BusWidth;
use crate::decode::{decode_mmc, mmc_decoded};
use crate::error::MciError;
use crate::mmc_card::MmcCard;
use crate::protocol::card::{
    bus_width_taken, ext_csd_taken, mmc_high_speed_taken, take_bus_width, take_ext_csd,
    take_mmc_high_speed,
};

verus! {

pub use crate::protocol::mmc::{EXT_CSD_BSIZE, EXT_CSD_CARD_TYPE_INDEX, EXT_CSD_SEC_COUNT_INDEX};

impl<MMC: Bus + Read + Write + Adtc> MmcCard<MMC> {
    /// Asks an MMC to set its bus width. A card that refuses keeps its width
    /// and the answer is `false`; that is no fault.
    pub fn mmc_cmd6_set_bus_width(&mut self, bus_width: &BusWidth) -> (r: Result<bool, MciError>)
        ensures
            bus_width_taken(old(self).scene(), final(self).scene(), *bus_width, r),
    {
        let mut settings = self.snapshot();
        let r = take_bus_width(&mut self.mmc, &mut self.record, &mut settings, bus_width);
        self.adopt(settings);
        r
    }

    /// Asks an MMC to turn high-speed timing on, and notes the speed and the
    /// clock of 52 MHz where the card took it. A card that refuses stays as
    /// it is and the answer is `false`; that is no fault.
    pub fn mmc_cmd6_set_high_speed(&mut self) -> (r: Result<bool, MciError>)
        ensures
            mmc_high_speed_taken(old(self).scene(), final(self).scene(), r),
    {
        let mut settings = self.snapshot();
        let r = take_mmc_high_speed(&mut self.mmc, &mut self.record, &mut settings);
        self.adopt(settings);
        r
    }

    /// Reads the extended card specific data. Says whether the card runs at
    /// 52 MHz, and takes the sector count as the capacity where the card
    /// specific data holds the maximum device size.
    pub fn mmc_cmd8_high_speed_capable_and_update_capacity(&mut self) -> (r: Result<bool, MciError>)
        ensures
            ext_csd_taken(old(self).scene(), final(self).scene(), r),
    {
        let mut settings = self.snapshot();
        let r = take_ext_csd(&mut self.mmc, &mut self.record, &mut settings);
        self.adopt(settings);
        r
    }

    /// Decodes the card specific data of an MMC into version, clock and
    /// capacity.
    pub fn mmc_decode_csd(&mut self) -> (r: Result<(), MciError>)
        ensures
            r is Ok,
            mmc_decoded(old(self).settings(), final(self).settings()),
            final(self).record == old(self).record,
    {
        let mut settings = self.snapshot();
        decode_mmc(&mut settings);
        self.adopt(settings);
        Ok(())
    }
}

} // verus!
