//! Command sequences that are specific to SD memory cards.

use vstd::prelude::*;
use crate::bits::{bit32, bits8, put_bit_u32, with_bit32};
use crate::bus::recorded::{
    added, adtc_start, attempt, command, continues, failure, lemma_nothing_added, read_blocks,
    response, send_clock, wait_read, Call, Record, Reply,
};
use crate::bus::{Adtc, Bus, Read};
use crate::command_arguments::sd::cmd6::{high_speed_argument, high_speed_switch};
use crate::command_arguments::sd::cmd8::{high_voltage_check, interface_condition};
use crate::commands::{
    SDMMC_CMD55_APP_CMD, SD_ACMD51_SEND_SCR, SD_ACMD6_SET_BUS_WIDTH, SD_CMD6_SWITCH_FUNC,
    SD_CMD8_SEND_IF_COND, SD_MCI_ACMD41_SD_SEND_OP_COND,
};
use crate::error::{ImplError, MciError};
use crate::protocol::mmc::addressed;
use crate::protocol::poll::{application_polling, poll_application, poll_result};
use crate::registers::ocr::{ocr_voltage_support, OcrRegister};
use crate::registers::sd::scr::ScrRegister;
use crate::registers::sd::switch_status::{SwitchStatusRegister, SD_SW_STATUS_FUN_GRP_RC_ERROR};

verus! {

/// The number of times that an SD card is asked for its operating conditions
/// before the driver gives up: one second of such command pairs at 400 kHz,
/// less one.
pub const SD_OCR_ATTEMPTS: u32 = 2099;

/// The argument of the operating conditions command for an SD card: the
/// voltage window of 2.7 V to 3.3 V, with the high capacity support bit for a
/// card of version 2.
pub open spec fn sd_conditions(v2: bool) -> u32 {
    if v2 {
        0x401f_8000
    } else {
        0x001f_8000
    }
}

/// What setting or clearing bit 30 makes of the voltage window.
proof fn lemma_sd_conditions()
    by (bit_vector)
    ensures
        with_bit32(0x001f_8000, 30, true) == 0x401f_8000u32,
        with_bit32(0x001f_8000, 30, false) == 0x001f_8000u32,
{
}

/// What a finished polling of an SD card means: its error, the timeout where
/// the attempts ran out, or whether the card reports high capacity.
pub open spec fn sd_probe_outcome(polled: Result<Option<u32>, MciError>) -> Result<bool, MciError> {
    match polled {
        Err(e) => Err(e),
        Ok(None) => Err(MciError::Impl(ImplError::TimedOut)),
        Ok(Some(ocr)) => Ok(bit32(ocr, 30)),
    }
}

/// The record grew by a polling of an SD card for its operating conditions,
/// and `r` is what that polling means.
pub open spec fn sd_probed(before: Record, after: Record, v2: bool, r: Result<bool, MciError>) -> bool {
    let polled = poll_result(31, added(before, after));
    &&& application_polling(
        before,
        after,
        0,
        SD_MCI_ACMD41_SD_SEND_OP_COND,
        sd_conditions(v2),
        31,
        SD_OCR_ATTEMPTS as int,
        polled,
    )
    &&& r == sd_probe_outcome(polled)
}

/// Asks an SD card for its operating conditions until it is powered up, and
/// says whether it has high capacity. `v2` tells the card that the host
/// supports high capacity.
pub fn probe<B: Bus>(bus: &mut B, record: &mut Ghost<Record>, v2: bool) -> (r: Result<
    bool,
    MciError,
>)
    ensures
        sd_probed(old(record)@, final(record)@, v2, r),
{
    let mut arg = ocr_voltage_support();
    put_bit_u32(&mut arg.val, 30, v2);
    proof {
        lemma_sd_conditions();
    }
    let polled = poll_application(
        bus,
        record,
        0,
        SD_MCI_ACMD41_SD_SEND_OP_COND,
        arg.val,
        31,
        SD_OCR_ATTEMPTS,
    );
    let r = match polled {
        Err(e) => Err(e),
        Ok(None) => Err(MciError::Impl(ImplError::TimedOut)),
        Ok(Some(val)) => {
            let response = OcrRegister { val };
            Ok(response.card_capacity_status())
        },
    };
    r
}

/// The calls of the interface condition check: the command with the voltage
/// and the check pattern, then the fetch of the echo.
pub open spec fn interface_script() -> Seq<Call> {
    seq![
        Call::Command { cmd: SD_CMD8_SEND_IF_COND, arg: interface_condition() as u32 },
        Call::Response,
    ]
}

/// What the interface condition check gives. A card that does not take the
/// command is no card of version 2, and so is one that answers with all bits
/// set. Another echo than what was sent is a fault; the same echo shows a
/// card of version 2.
pub open spec fn interface_outcome(run: Record) -> Result<bool, MciError> {
    if run[0].reply is Failed {
        Ok(false)
    } else if run[1].reply is Failed {
        Err(run[1].reply->Failed_0)
    } else if run[1].reply->Word_0 == 0xffff_ffff {
        Ok(false)
    } else if run[1].reply->Word_0 != interface_condition() as u32 {
        Err(MciError::Impl(ImplError::InvalidConfiguration))
    } else {
        Ok(true)
    }
}

/// The record grew by an attempt at the interface condition check, and `r`
/// is its outcome.
pub open spec fn interface_checked(before: Record, after: Record, r: Result<bool, MciError>) -> bool {
    &&& continues(before, after)
    &&& attempt(interface_script(), added(before, after))
    &&& r == interface_outcome(added(before, after))
}

/// Sends the interface condition and says whether the card echoes it, which
/// only a card of version 2 does.
pub fn check_interface<B: Bus>(bus: &mut B, record: &mut Ghost<Record>) -> (r: Result<
    bool,
    MciError,
>)
    ensures
        interface_checked(old(record)@, final(record)@, r),
{
    proof {
        lemma_nothing_added(record@);
    }
    let arg = high_voltage_check();
    if command(bus, record, SD_CMD8_SEND_IF_COND, arg.val as u32).is_err() {
        return Ok(false);
    }
    let echo = match response(bus, record) {
        Err(e) => {
            return Err(e);
        },
        Ok(echo) => echo,
    };
    if echo == 0xFFFF_FFFF {
        return Ok(false);
    }
    if echo != arg.val as u32 {
        return Err(MciError::Impl(ImplError::InvalidConfiguration));
    }
    Ok(true)
}

/// The calls that read a register which the card sends as one data block
/// of `size` bytes.
pub open spec fn block_register_script(cmd: u32, arg: u32, size: u16) -> Seq<Call> {
    seq![
        Call::AdtcStart { cmd, arg, block_size: size, block_amount: 1, access_in_blocks: true },
        Call::ReadBlocks { len: size as int },
        Call::WaitRead,
    ]
}

/// The record grew by an attempt to read a register that comes as a data
/// block into `bytes`, and `r` is its outcome.
pub open spec fn block_register_read(
    before: Record,
    after: Record,
    cmd: u32,
    arg: u32,
    size: u16,
    bytes: Seq<u8>,
    r: Result<(), MciError>,
) -> bool {
    let run = added(before, after);
    &&& continues(before, after)
    &&& attempt(block_register_script(cmd, arg, size), run)
    &&& match r {
        Err(e) => failure(run) == Some(e),
        Ok(_) => failure(run) is None && run[1].reply == Reply::Bytes(bytes),
    }
}

/// Reads a register that the card sends as one data block of `size` bytes.
pub fn read_block_register<B: Adtc + Read>(
    bus: &mut B,
    record: &mut Ghost<Record>,
    cmd: u32,
    arg: u32,
    size: u16,
    buf: &mut [u8],
) -> (r: Result<(), MciError>)
    requires
        old(buf)@.len() == size,
    ensures
        final(buf)@.len() == size,
        block_register_read(old(record)@, final(record)@, cmd, arg, size, final(buf)@, r),
{
    proof {
        lemma_nothing_added(record@);
    }
    if let Err(e) = adtc_start(bus, record, cmd, arg, size, 1, true) {
        return Err(e);
    }
    if let Err(e) = read_blocks(bus, record, buf) {
        return Err(e);
    }
    wait_read(bus, record)
}

/// The result code of function group 1 in a switch function status.
pub open spec fn group1_result(status: Seq<u8>) -> u8 {
    bits8(status[16], 0, 4)
}

/// The busy flags of function group 1 in a switch function status.
pub open spec fn group1_busy(status: Seq<u8>) -> int {
    status[28] * 256 + status[29]
}

/// The record grew by an attempt at a switch function command, and `r` is
/// its outcome: the error of the call that failed, else the status block.
pub open spec fn function_switched(
    before: Record,
    after: Record,
    cmd: u32,
    arg: u32,
    r: Result<SwitchStatusRegister, MciError>,
) -> bool {
    let run = added(before, after);
    &&& continues(before, after)
    &&& attempt(block_register_script(cmd, arg, 64), run)
    &&& match r {
        Err(e) => failure(run) == Some(e),
        Ok(status) => failure(run) is None && run[1].reply == Reply::Bytes(status.val@),
    }
}

/// Sends a switch function command and reads the status block of 64 bytes.
pub fn switch_function<B: Adtc + Read>(
    bus: &mut B,
    record: &mut Ghost<Record>,
    cmd: u32,
    arg: u32,
) -> (r: Result<SwitchStatusRegister, MciError>)
    ensures
        function_switched(old(record)@, final(record)@, cmd, arg, r),
{
    let mut buf = [0u8; 64];
    match read_block_register(bus, record, cmd, arg, 64, &mut buf) {
        Err(e) => Err(e),
        Ok(()) => Ok(SwitchStatusRegister::from(buf)),
    }
}

/// What a switch to high speed gives, from the run of its calls. The first
/// three read the status; a failure among them is the outcome. A status that
/// refuses function group 1 leaves the card as it is; a busy group is a
/// fault. Else the idle clocks follow, and the card is switched where they
/// went out.
pub open spec fn high_speed_outcome(run: Record) -> Result<bool, MciError> {
    if run.len() <= 3 && failure(run) is Some {
        Err(failure(run)->Some_0)
    } else if group1_result(run[1].reply->Bytes_0) == SD_SW_STATUS_FUN_GRP_RC_ERROR {
        Ok(false)
    } else if group1_busy(run[1].reply->Bytes_0) > 0 {
        Err(MciError::GroupBusy)
    } else if run[3].reply is Failed {
        Err(run[3].reply->Failed_0)
    } else {
        Ok(true)
    }
}

/// The record grew by an attempt to switch an SD card to high speed, and `r`
/// is its outcome. The idle clocks are sent if and only if the status
/// accepts the switch.
pub open spec fn high_speed_switched(before: Record, after: Record, r: Result<bool, MciError>) -> bool {
    let run = added(before, after);
    let read = if run.len() <= 3 {
        run
    } else {
        run.subrange(0, 3)
    };
    &&& continues(before, after)
    &&& attempt(block_register_script(SD_CMD6_SWITCH_FUNC, high_speed_argument(), 64), read)
    &&& run.len() <= 4
    &&& run.len() == 4 ==> run[3].call == Call::SendClock
    &&& (run.len() == 4 <==> failure(read) is None && read[1].reply is Bytes && group1_result(
        read[1].reply->Bytes_0,
    ) != SD_SW_STATUS_FUN_GRP_RC_ERROR && group1_busy(read[1].reply->Bytes_0) == 0)
    &&& failure(read) is None ==> read[1].reply is Bytes
    &&& r == high_speed_outcome(run)
}

/// Asks an SD card to switch to high speed. Where the card accepts, the
/// switch takes place within the eight clocks that follow the status, so the
/// idle clocks are sent before anything else.
pub fn switch_to_high_speed<B: Bus + Adtc + Read>(bus: &mut B, record: &mut Ghost<Record>) -> (r:
    Result<bool, MciError>)
    ensures
        high_speed_switched(old(record)@, final(record)@, r),
{
    proof {
        lemma_nothing_added(record@);
    }
    let ghost start = record@;
    let arg = high_speed_switch();
    let status = match switch_function(bus, record, SD_CMD6_SWITCH_FUNC, arg.val) {
        Err(e) => {
            proof {
                let run = added(start, record@);
                assert(run.subrange(0, run.len() as int) =~= run);
            }
            return Err(e);
        },
        Ok(status) => status,
    };
    proof {
        let run = added(start, record@);
        assert(run.subrange(0, 3) =~= run);
    }
    if status.group1_info_status() == SD_SW_STATUS_FUN_GRP_RC_ERROR {
        return Ok(false);
    }
    if status.group1_busy() > 0 {
        return Err(MciError::GroupBusy);
    }
    let ghost read = added(start, record@);
    let clocked = send_clock(bus, record);
    proof {
        let run = added(start, record@);
        assert(run.subrange(0, 3) =~= read);
    }
    match clocked {
        Err(e) => Err(e),
        Ok(()) => Ok(true),
    }
}

/// The calls that read the SD configuration register: the announcement of
/// an application command, then the register as a block of 8 bytes.
pub open spec fn scr_script(rca: u16) -> Seq<Call> {
    seq![
        Call::Command { cmd: SDMMC_CMD55_APP_CMD, arg: addressed(rca) },
        Call::AdtcStart {
            cmd: SD_ACMD51_SEND_SCR,
            arg: 0,
            block_size: 8,
            block_amount: 1,
            access_in_blocks: true,
        },
        Call::ReadBlocks { len: 8 },
        Call::WaitRead,
    ]
}

/// The record grew by an attempt to read the SD configuration register, and
/// `r` is its outcome: the error of the call that failed, else the register.
pub open spec fn scr_loaded(before: Record, after: Record, rca: u16, r: Result<
    ScrRegister,
    MciError,
>) -> bool {
    let run = added(before, after);
    &&& continues(before, after)
    &&& attempt(scr_script(rca), run)
    &&& match r {
        Err(e) => failure(run) == Some(e),
        Ok(scr) => failure(run) is None && run[2].reply == Reply::Bytes(scr.val@),
    }
}

/// Reads the SD configuration register.
pub fn load_scr<B: Bus + Adtc + Read>(bus: &mut B, record: &mut Ghost<Record>, rca: u16) -> (r:
    Result<ScrRegister, MciError>)
    ensures
        scr_loaded(old(record)@, final(record)@, rca, r),
{
    proof {
        lemma_nothing_added(record@);
    }
    let mut buf = [0u8; 8];
    if let Err(e) = command(bus, record, SDMMC_CMD55_APP_CMD, (rca as u32) << 16) {
        return Err(e);
    }
    if let Err(e) = adtc_start(bus, record, SD_ACMD51_SEND_SCR, 0, 8, 1, true) {
        return Err(e);
    }
    if let Err(e) = read_blocks(bus, record, &mut buf) {
        return Err(e);
    }
    if let Err(e) = wait_read(bus, record) {
        return Err(e);
    }
    Ok(ScrRegister::from(buf))
}

/// The calls that set the bus of an SD card to four data lines: the
/// announcement of an application command, then the command with the code 2.
pub open spec fn wide_bus_script(rca: u16) -> Seq<Call> {
    seq![
        Call::Command { cmd: SDMMC_CMD55_APP_CMD, arg: addressed(rca) },
        Call::Command { cmd: SD_ACMD6_SET_BUS_WIDTH, arg: 2 },
    ]
}

/// The record grew by an attempt to set the bus of an SD card to four data
/// lines, and `r` is its outcome.
pub open spec fn wide_bus_set(before: Record, after: Record, rca: u16, r: Result<(), MciError>) -> bool {
    let run = added(before, after);
    &&& continues(before, after)
    &&& attempt(wide_bus_script(rca), run)
    &&& match r {
        Err(e) => failure(run) == Some(e),
        Ok(_) => failure(run) is None,
    }
}

/// Asks an SD card to use four data lines.
pub fn set_wide_bus<B: Bus>(bus: &mut B, record: &mut Ghost<Record>, rca: u16) -> (r: Result<
    (),
    MciError,
>)
    ensures
        wide_bus_set(old(record)@, final(record)@, rca, r),
{
    proof {
        lemma_nothing_added(record@);
    }
    if let Err(e) = command(bus, record, SDMMC_CMD55_APP_CMD, (rca as u32) << 16) {
        return Err(e);
    }
    command(bus, record, SD_ACMD6_SET_BUS_WIDTH, 0x2)
}

} // verus!
