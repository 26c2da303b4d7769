//! Command sequences that are specific to MMC.

use vstd::prelude::*;
use crate::bits::{bit32, bits32};
use crate::bus::recorded::{
    added, adtc_start, attempt, command, continues, failure, lemma_nothing_added, read_word,
    response, response128, Call, Record, Reply,
};
use crate::bus::{Adtc, Bus, Read, SdMmcBus};
use crate::commands::{
    MMC_CMD6_SWITCH, MMC_CMD8_SEND_EXT_CSD, MMC_MCI_CMD1_SEND_OP_COND, SDMMC_CMD16_SET_BLOCKLEN,
    SDMMC_MCI_CMD9_SEND_CSD,
};
use crate::decode::{high_speed_capable, high_speed_of};
use crate::error::{ImplError, MciError};
use crate::protocol::poll::{poll, poll_result, polling};
use crate::registers::csd::CsdRegister;
use crate::registers::ocr::{ocr_voltage_support, AccessMode, OcrRegister};
use crate::registers::sd::card_status::CardStatusRegister;

verus! {

/// The calls of a switch command: the command with its argument, then the
/// fetch of the card status.
pub open spec fn switch_script(arg: u32) -> Seq<Call> {
    seq![Call::Command { cmd: MMC_CMD6_SWITCH, arg }, Call::Response]
}

/// What a switch command gives: the error of the call that failed, else
/// whether the card status is free of the switch error flag.
pub open spec fn switch_outcome(run: Record) -> Result<bool, MciError> {
    match failure(run) {
        Some(e) => Err(e),
        None => Ok(!bit32(run[1].reply->Word_0, 7)),
    }
}

/// The record grew by an attempt at the switch command with `arg`, and `r` is
/// its outcome.
pub open spec fn switched(before: Record, after: Record, arg: u32, r: Result<bool, MciError>) -> bool {
    &&& continues(before, after)
    &&& attempt(switch_script(arg), added(before, after))
    &&& r == switch_outcome(added(before, after))
}

/// Sends a switch command and reads from the card status whether the card
/// took it.
pub fn switch<B: Bus>(bus: &mut B, record: &mut Ghost<Record>, arg: u32) -> (r: Result<
    bool,
    MciError,
>)
    ensures
        switched(old(record)@, final(record)@, arg, r),
{
    proof {
        lemma_nothing_added(record@);
    }
    if let Err(e) = command(bus, record, MMC_CMD6_SWITCH, arg) {
        return Err(e);
    }
    let status = response(bus, record);
    match status {
        Err(e) => Err(e),
        Ok(val) => {
            let status = CardStatusRegister { val };
            Ok(!status.switch_error())
        },
    }
}

/// The number of times that an MMC is asked for its operating conditions
/// before the driver gives up: one second of such commands at 400 kHz, less
/// one.
pub const MMC_OCR_ATTEMPTS: u32 = 4199;

/// The argument of the operating conditions command for an MMC: the
/// voltage window of 2.7 V to 3.3 V with sector access.
pub open spec fn mmc_conditions() -> u32 {
    0x401f_8000
}

/// What the access mode setter makes of the voltage window.
proof fn lemma_mmc_conditions()
    by (bit_vector)
    ensures
        crate::bits::with_bits32(0x001f_8000, 29, 31, 2) == 0x401f_8000u32,
{
}

/// Whether an MMC that is powered up reports sector access in its operating
/// conditions.
pub open spec fn sector_access(ocr: u32) -> bool {
    AccessMode::of_code(bits32(ocr, 29, 31)) == AccessMode::Sector
}

/// What a finished polling of an MMC means: its error, the timeout where
/// the attempts ran out, or whether the card reports sector access.
pub open spec fn mmc_probe_outcome(polled: Result<Option<u32>, MciError>) -> Result<
    bool,
    MciError,
> {
    match polled {
        Err(e) => Err(e),
        Ok(None) => Err(MciError::Impl(ImplError::TimedOut)),
        Ok(Some(ocr)) => Ok(sector_access(ocr)),
    }
}

/// The record grew by a polling of an MMC for its operating conditions, and
/// `r` is what that polling means.
pub open spec fn mmc_probed(before: Record, after: Record, r: Result<bool, MciError>) -> bool {
    let polled = poll_result(31, added(before, after));
    &&& polling(
        before,
        after,
        MMC_MCI_CMD1_SEND_OP_COND,
        mmc_conditions(),
        31,
        MMC_OCR_ATTEMPTS as int,
        polled,
    )
    &&& r == mmc_probe_outcome(polled)
}

/// Asks an MMC for its operating conditions until it is powered up, and
/// says whether it is addressed by sectors.
pub fn probe<B: Bus>(bus: &mut B, record: &mut Ghost<Record>) -> (r: Result<bool, MciError>)
    ensures
        mmc_probed(old(record)@, final(record)@, r),
{
    let mut ocr = ocr_voltage_support();
    ocr.set_access_mode(AccessMode::Sector);
    proof {
        lemma_mmc_conditions();
    }
    let polled = poll(bus, record, MMC_MCI_CMD1_SEND_OP_COND, ocr.val, 31, MMC_OCR_ATTEMPTS);
    let r = match polled {
        Err(e) => Err(e),
        Ok(None) => Err(MciError::Impl(ImplError::TimedOut)),
        Ok(Some(val)) => {
            let response = OcrRegister { val };
            Ok(response.access_mode() == AccessMode::Sector)
        },
    };
    r
}

/// The argument that addresses the card with the relative address `rca`.
pub open spec fn addressed(rca: u16) -> u32 {
    (rca as u32) << 16
}

/// The calls that load the card specific data over a native interface: the
/// command, then the fetch of the 128-bit response.
pub open spec fn csd_script(rca: u16) -> Seq<Call> {
    seq![Call::Command { cmd: SDMMC_MCI_CMD9_SEND_CSD, arg: addressed(rca) }, Call::Response128]
}

/// The record grew by an attempt to load the card specific data, and `r` is
/// its outcome: the error of the call that failed, else the words of the
/// response.
pub open spec fn csd_loaded(before: Record, after: Record, rca: u16, r: Result<
    CsdRegister,
    MciError,
>) -> bool {
    let run = added(before, after);
    &&& continues(before, after)
    &&& attempt(csd_script(rca), run)
    &&& match r {
        Err(e) => failure(run) == Some(e),
        Ok(csd) => failure(run) is None && run[1].reply == Reply::Words(csd.0),
    }
}

/// Asks the card for its card specific data and fetches the response.
pub fn load_csd<B: SdMmcBus>(bus: &mut B, record: &mut Ghost<Record>, rca: u16) -> (r: Result<
    CsdRegister,
    MciError,
>)
    ensures
        csd_loaded(old(record)@, final(record)@, rca, r),
{
    proof {
        lemma_nothing_added(record@);
    }
    let arg = (rca as u32) << 16;
    if let Err(e) = command(bus, record, SDMMC_MCI_CMD9_SEND_CSD, arg) {
        return Err(e);
    }
    match response128(bus, record) {
        Err(e) => Err(e),
        Ok(words) => Ok(CsdRegister(words)),
    }
}

/// The index of the word of the extended card specific data that holds the
/// card type.
pub const EXT_CSD_CARD_TYPE_INDEX: u32 = 196;

/// The index of the word of the extended card specific data that holds the
/// sector count.
pub const EXT_CSD_SEC_COUNT_INDEX: u32 = 212;

/// The size of the extended card specific data in bytes.
pub const EXT_CSD_BSIZE: u32 = 512;

/// The call at position `i` of the reading of the extended card specific
/// data: the start of the transfer, then one word after the other.
pub open spec fn ext_csd_call(i: int) -> Call {
    if i == 0 {
        Call::AdtcStart {
            cmd: MMC_CMD8_SEND_EXT_CSD,
            arg: 0,
            block_size: 512,
            block_amount: 1,
            access_in_blocks: false,
        }
    } else {
        Call::ReadWord
    }
}

/// `run` is a reading of the extended card specific data, whole or broken
/// off at the first failure: the start and up to 128 words.
pub open spec fn ext_csd_read(run: Record) -> bool {
    &&& 1 <= run.len() <= 129
    &&& forall|i: int| 0 <= i < run.len() ==> (#[trigger] run[i]).call == ext_csd_call(i)
    &&& forall|i: int| 0 <= i < run.len() - 1 ==> !((#[trigger] run[i]).reply is Failed)
    &&& forall|i: int|
        1 <= i < run.len() ==> (#[trigger] run[i]).reply is Word || run[i].reply is Failed
    &&& run.len() < 129 ==> run.last().reply is Failed
}

/// What the extended card specific data says.
pub struct ExtCsd {
    /// Whether the card runs at 52 MHz.
    pub high_speed: bool,
    /// The number of sectors of the card.
    pub sector_count: u32,
}

/// The record grew by a reading of the extended card specific data, and `r`
/// is its outcome: the error of the call that failed; else what word 49 says
/// of the speed, and word 53 as the sector count.
pub open spec fn ext_csd_loaded(before: Record, after: Record, r: Result<ExtCsd, MciError>) -> bool {
    let run = added(before, after);
    &&& continues(before, after)
    &&& ext_csd_read(run)
    &&& match r {
        Err(e) => failure(run) == Some(e),
        Ok(ext) => failure(run) is None && ext.high_speed == high_speed_of(run[50].reply->Word_0)
            && ext.sector_count == run[54].reply->Word_0,
    }
}

/// Starts the transfer of the extended card specific data and reads its 128
/// words, of which it keeps the card type and the sector count.
pub fn load_ext_csd<B: Adtc + Read>(bus: &mut B, record: &mut Ghost<Record>) -> (r: Result<
    ExtCsd,
    MciError,
>)
    ensures
        ext_csd_loaded(old(record)@, final(record)@, r),
{
    proof {
        lemma_nothing_added(record@);
    }
    let ghost start = record@;
    if let Err(e) = adtc_start(bus, record, MMC_CMD8_SEND_EXT_CSD, 0, 512, 1, false) {
        return Err(e);
    }
    let mut index: u32 = 0;
    let mut card_type: u32 = 0;
    let mut sector_count: u32 = 0;
    while index < EXT_CSD_BSIZE / 4
        invariant
            index <= 128,
            start == old(record)@,
            continues(start, record@),
            added(start, record@).len() == index + 1,
            forall|i: int|
                0 <= i < added(start, record@).len() ==> (#[trigger] added(start, record@)[i]).call
                    == ext_csd_call(i),
            forall|i: int|
                0 <= i < added(start, record@).len() ==> !((#[trigger] added(
                    start,
                    record@,
                )[i]).reply is Failed),
            forall|i: int|
                1 <= i < added(start, record@).len() ==> (#[trigger] added(
                    start,
                    record@,
                )[i]).reply is Word,
            index > 49 ==> card_type == added(start, record@)[50].reply->Word_0,
            index > 53 ==> sector_count == added(start, record@)[54].reply->Word_0,
        decreases 128 - index,
    {
        let ghost run = added(start, record@);
        let answer = read_word(bus, record);
        proof {
            let longer = added(start, record@);
            assert(longer == run.push(record@.last()));
            assert forall|i: int| 0 <= i < longer.len() - 1 implies longer[i] == run[i] by {}
        }
        let word = match answer {
            Err(e) => {
                return Err(e);
            },
            Ok(word) => word,
        };
        if index == EXT_CSD_CARD_TYPE_INDEX / 4 {
            card_type = word;
        }
        if index == EXT_CSD_SEC_COUNT_INDEX / 4 {
            sector_count = word;
        }
        index += 1;
    }
    Ok(ExtCsd { high_speed: high_speed_capable(card_type), sector_count })
}

/// The number of times that the block length is set before the driver gives
/// up.
pub const BLOCK_LENGTH_ATTEMPTS: u32 = 10;

/// `run` is a setting of the block length: the command with 512 as its
/// argument, repeated as long as it fails, ten times at most.
pub open spec fn block_length_tried(run: Record) -> bool {
    &&& 1 <= run.len() <= BLOCK_LENGTH_ATTEMPTS
    &&& forall|i: int|
        0 <= i < run.len() ==> (#[trigger] run[i]).call == (Call::Command {
            cmd: SDMMC_CMD16_SET_BLOCKLEN,
            arg: 512,
        })
    &&& forall|i: int| 0 <= i < run.len() - 1 ==> (#[trigger] run[i]).reply is Failed
    &&& forall|i: int|
        0 <= i < run.len() ==> (#[trigger] run[i]).reply is Failed || run[i].reply is Done
}

/// The record grew by a setting of the block length, and `r` is its outcome:
/// success as soon as the command went through, the timeout after ten
/// failures.
pub open spec fn block_length_set(before: Record, after: Record, r: Result<(), MciError>) -> bool {
    let run = added(before, after);
    &&& continues(before, after)
    &&& block_length_tried(run)
    &&& match r {
        Ok(_) => run.last().reply is Done,
        Err(e) => run.len() == BLOCK_LENGTH_ATTEMPTS && run.last().reply is Failed && e
            == MciError::Impl(ImplError::TimedOut),
    }
}

/// Sets the block length to 512 bytes. Some cards are not ready at once after
/// a switch, so the command is repeated up to ten times.
pub fn set_block_length<B: Bus>(bus: &mut B, record: &mut Ghost<Record>) -> (r: Result<
    (),
    MciError,
>)
    ensures
        block_length_set(old(record)@, final(record)@, r),
{
    proof {
        lemma_nothing_added(record@);
    }
    let ghost start = record@;
    let mut round: u32 = 0;
    while round < BLOCK_LENGTH_ATTEMPTS
        invariant
            round <= BLOCK_LENGTH_ATTEMPTS,
            start == old(record)@,
            continues(start, record@),
            added(start, record@).len() == round,
            forall|i: int|
                0 <= i < added(start, record@).len() ==> (#[trigger] added(start, record@)[i]).call
                    == (Call::Command { cmd: SDMMC_CMD16_SET_BLOCKLEN, arg: 512 }),
            forall|i: int|
                0 <= i < added(start, record@).len() ==> (#[trigger] added(
                    start,
                    record@,
                )[i]).reply is Failed,
        decreases BLOCK_LENGTH_ATTEMPTS - round,
    {
        let ghost run = added(start, record@);
        let sent = command(bus, record, SDMMC_CMD16_SET_BLOCKLEN, 512);
        proof {
            let longer = added(start, record@);
            assert(longer == run.push(record@.last()));
            assert forall|i: int| 0 <= i < longer.len() - 1 implies longer[i] == run[i] by {}
        }
        if sent.is_ok() {
            return Ok(());
        }
        round += 1;
    }
    Err(MciError::Impl(ImplError::TimedOut))
}

} // verus!
