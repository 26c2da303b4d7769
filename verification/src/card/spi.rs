//! The commands of a card behind SPI.

use vstd::prelude::*;
use crate::bus::recorded::{adtc_start, done_or_failed, grown_by, Call, Exchange, Record};
use crate::bus::spi::bus::be32;
use crate::bus::SpiBus;
use crate::card::card::{Card, Settings};
use crate::commands::{SDMMC_MCI_CMD9_SEND_CSD, SDMMC_SPI_CMD9_SEND_CSD};
use crate::error::MciError;
use crate::protocol::mmc::addressed;
use crate::protocol::sd::{block_register_read, read_block_register};
use crate::registers::csd::CsdRegister;

verus! {

/// The card specific data as it comes over SPI: sixteen bytes, the highest
/// first. Word `k` of the register holds the bits `32 * k` to `32 * k + 31`.
pub open spec fn csd_of(bytes: Seq<u8>, csd: CsdRegister) -> bool {
    &&& csd.0[3] == be32(bytes[0], bytes[1], bytes[2], bytes[3])
    &&& csd.0[2] == be32(bytes[4], bytes[5], bytes[6], bytes[7])
    &&& csd.0[1] == be32(bytes[8], bytes[9], bytes[10], bytes[11])
    &&& csd.0[0] == be32(bytes[12], bytes[13], bytes[14], bytes[15])
}

/// Joins four bytes to a word, the first byte highest.
fn word_of(b0: u8, b1: u8, b2: u8, b3: u8) -> (r: u32)
    ensures
        r == be32(b0, b1, b2, b3),
{
    ((b0 as u32) << 24) | ((b1 as u32) << 16) | ((b2 as u32) << 8) | (b3 as u32)
}

/// The record grew by an attempt to read the card specific data as a data
/// block of sixteen bytes, and the card took the register where the block
/// came. After a failure the register is as it was.
pub open spec fn csd_read_as_block(
    before: Record,
    after: Record,
    was: Settings,
    now: Settings,
    r: Result<(), MciError>,
) -> bool {
    &&& now == (Settings { csd: now.csd, ..was })
    &&& exists|bytes: Seq<u8>| #[trigger]
        block_register_read(
            before,
            after,
            SDMMC_SPI_CMD9_SEND_CSD,
            addressed(was.rca),
            16,
            bytes,
            r,
        ) && (if r is Ok {
            csd_of(bytes, now.csd)
        } else {
            now.csd == was.csd
        })
}

impl<BUS: SpiBus> Card<BUS> {
    /// Loads the card specific data, which comes over SPI as a data block of
    /// sixteen bytes.
    pub fn spi_load_csd(&mut self) -> (r: Result<(), MciError>)
        ensures
            csd_read_as_block(
                old(self).record@,
                final(self).record@,
                old(self).settings(),
                final(self).settings(),
                r,
            ),
    {
        let mut bytes = [0u8; 16];
        let read = read_block_register(
            &mut self.bus,
            &mut self.record,
            SDMMC_SPI_CMD9_SEND_CSD,
            (self.rca as u32) << 16,
            16,
            &mut bytes,
        );
        proof {
            crate::error::lemma_done(read);
            assert(block_register_read(
                old(self).record@,
                self.record@,
                SDMMC_SPI_CMD9_SEND_CSD,
                addressed(old(self).rca),
                16,
                bytes@,
                read,
            ));
        }
        if let Err(e) = read {
            return Err(e);
        }
        self.csd = CsdRegister(
            [
                word_of(bytes[12], bytes[13], bytes[14], bytes[15]),
                word_of(bytes[8], bytes[9], bytes[10], bytes[11]),
                word_of(bytes[4], bytes[5], bytes[6], bytes[7]),
                word_of(bytes[0], bytes[1], bytes[2], bytes[3]),
            ],
        );
        assert(csd_of(bytes@, self.csd));
        Ok(())
    }

    /// Starts the transfer of the card specific data as a data block of
    /// sixteen bytes. The register itself is left as it is.
    pub fn sd_mmc_cmd9_spi(&mut self) -> (r: Result<(), MciError>)
        ensures
            grown_by(
                old(self).record@,
                final(self).record@,
                Exchange {
                    call: Call::AdtcStart {
                        cmd: SDMMC_MCI_CMD9_SEND_CSD,
                        arg: addressed(old(self).rca),
                        block_size: 16,
                        block_amount: 1,
                        access_in_blocks: true,
                    },
                    reply: done_or_failed(r),
                },
            ),
            final(self).settings() == old(self).settings(),
    {
        adtc_start(
            &mut self.bus,
            &mut self.record,
            SDMMC_MCI_CMD9_SEND_CSD,
            (self.rca as u32) << 16,
            16,
            1,
            true,
        )
    }
}

} // verus!
