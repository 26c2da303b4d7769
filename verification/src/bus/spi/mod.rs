//! The transport over a byte-oriented SPI peripheral and a chip select line.

pub mod adtc;
pub mod bus;
pub mod port;
pub mod read;
pub mod response;
pub mod write;

use vstd::prelude::*;
use crate::bus::recorded::{adtc_start, done_or_failed, grown_by, Call, Exchange};
use crate::bus::{Adtc, Bus};
use crate::commands::SDMMC_MCI_CMD9_SEND_CSD;
use crate::error::MciError;
use crate::mmc_card::MmcCard;
use crate::protocol::mmc::addressed;

verus! {

impl<BUS: Bus + Adtc> MmcCard<BUS> {
    /// Starts the transfer of the card specific data as a data block of
    /// sixteen bytes. The register itself is left as it is.
    pub fn sd_mmc_cmd9_spi(&mut self) -> (r: Result<(), MciError>)
        ensures
            grown_by(
                old(self).record@,
                final(self).record@,
                Exchange {
                    call: Call::AdtcStart {
                        cmd: SDMMC_MCI_CMD9_SEND_CSD,
                        arg: addressed(old(self).rca),
                        block_size: 16,
                        block_amount: 1,
                        access_in_blocks: true,
                    },
                    reply: done_or_failed(r),
                },
            ),
            final(self).settings() == old(self).settings(),
    {
        adtc_start(
            &mut self.mmc,
            &mut self.record,
            SDMMC_MCI_CMD9_SEND_CSD,
            (self.rca as u32) << 16,
            16,
            1,
            true,
        )
    }
}

} // verus!
