//! The initialisation of an MMC in a slot of a native interface.

use vstd::prelude::*;
use crate::error::MciError;
use crate::mci::Mci;
use crate::mci_card::MciCard;
use crate::pin::InputPin;
use crate::protocol::card::{mmc_conditions_taken, take_mmc_conditions};
use crate::protocol::install::{install, installed};

verus! {

pub use crate::protocol::mmc::{EXT_CSD_BSIZE, EXT_CSD_CARD_TYPE_INDEX, EXT_CSD_SEC_COUNT_INDEX};

impl<MCI: Mci, WP: InputPin, DETECT: InputPin> MciCard<MCI, WP, DETECT> {
    /// Polls an MMC for its operating conditions until it is powered up, and
    /// notes high capacity where the card reports sector access.
    pub fn mmc_mci_send_operation_condition(&mut self) -> (r: Result<(), MciError>)
        ensures
            mmc_conditions_taken(old(self).scene(), final(self).scene(), r),
            final(self).wiring() == old(self).wiring(),
    {
        let mut settings = self.mmc_card.snapshot();
        let r = take_mmc_conditions(&mut self.mmc_card.mmc, &mut self.mmc_card.record, &mut settings);
        self.mmc_card.adopt(settings);
        r
    }

    /// Initialises an MMC: runs the identification, loads and decodes the
    /// card specific data, puts the card into the transfer state, and raises
    /// bus width and speed as far as card and interface allow. The card is
    /// ready where all of this went through, and unusable where it did not.
    pub fn sd_mmc_mci_install_mmc(&mut self) -> (r: Result<(), MciError>)
        ensures
            installed(old(self).scene(), final(self).scene(), old(self).slot, r),
            final(self).wiring() == old(self).wiring(),
    {
        let mut settings = self.mmc_card.snapshot();
        let r = install(
            &mut self.mmc_card.mmc,
            &mut self.mmc_card.record,
            &mut settings,
            self.slot,
        );
        self.mmc_card.adopt(settings);
        r
    }
}

} // verus!
