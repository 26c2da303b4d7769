//! Block transfers: the triplet of start, batch and wait, for reading and
//! for writing.

use vstd::prelude::*;
use crate::bits::bit32;
use crate::bus::recorded::{
    added, adtc_start, adtc_stop, continues, done_or_failed, failure, grown_by,
    lemma_added_in_two_steps, lemma_nothing_added, read_blocks, response, select, wait_read, wait_write, write_blocks,
    pin_sensed, sense_pin, Call, Exchange, Record, Reply,
};
use crate::bus::{Adtc, Bus, Read, Write, SD_MMC_BLOCK_SIZE};
use crate::command_arguments::mmc::BusWidth;
use crate::commands::{
    SDMMC_CMD12_STOP_TRANSMISSION, SDMMC_CMD17_READ_SINGLE_BLOCK, SDMMC_CMD18_READ_MULTIPLE_BLOCK,
    SDMMC_CMD24_WRITE_BLOCK, SDMMC_CMD25_WRITE_MULTIPLE_BLOCK, SDMMC_MCI_CMD13_SEND_STATUS,
};
use crate::error::{ImplError, MciError};
use crate::pin::InputPin;
use crate::protocol::mmc::addressed;
use crate::protocol::poll::{poll, poll_result, polling};
use crate::registers::sd::card_status::CardStatusRegister;
use crate::transaction::Transaction;

verus! {

/// How the line is set up for a card.
pub struct Line {
    pub slot: u8,
    pub clock: u32,
    pub bus_width: BusWidth,
    pub high_speed: bool,
}

/// The exchange that selects the device of `line`.
pub open spec fn selection(line: Line, reply: Reply) -> Exchange {
    Exchange {
        call: Call::Select {
            slot: line.slot,
            clock: line.clock,
            bus_width: line.bus_width,
            high_speed: line.high_speed,
        },
        reply,
    }
}

/// The record grew by the selection of the device of `line`, and `r` is its
/// outcome: whatever the transport objects, the device could not be selected.
pub open spec fn device_selected(before: Record, after: Record, line: Line, r: Result<
    (),
    MciError,
>) -> bool {
    &&& after.len() == before.len() + 1
    &&& grown_by(before, after, selection(line, after.last().reply))
    &&& after.last().reply is Done || after.last().reply is Failed
    &&& r == (if after.last().reply is Done {
        Ok::<(), MciError>(())
    } else {
        Err::<(), MciError>(MciError::CouldNotSelectDevice)
    })
}

/// Selects the device of `line` on the transport.
pub fn select_device<B: Bus>(bus: &mut B, record: &mut Ghost<Record>, line: &Line) -> (r: Result<
    (),
    MciError,
>)
    ensures
        device_selected(old(record)@, final(record)@, *line, r),
{
    let selected = select(bus, record, line.slot, line.clock, &line.bus_width, line.high_speed);
    match selected {
        Ok(()) => Ok(()),
        Err(_) => Err(MciError::CouldNotSelectDevice),
    }
}

/// The number of times that the card is asked for its status before the
/// driver gives up.
pub const STATUS_ATTEMPTS: u32 = 199_999;

/// What a finished polling of the status means: its error, the timeout
/// where the attempts ran out, or the status that shows the card ready for
/// data.
pub open spec fn status_outcome(polled: Result<Option<u32>, MciError>) -> Result<
    CardStatusRegister,
    MciError,
> {
    match polled {
        Err(e) => Err(e),
        Ok(None) => Err(MciError::Impl(ImplError::TimedOut)),
        Ok(Some(val)) => Ok(CardStatusRegister { val }),
    }
}

/// The record grew by a polling of the card status until bit 8, ready for
/// data, was set, and `r` is what that polling means.
pub open spec fn status_awaited(before: Record, after: Record, rca: u16, r: Result<
    CardStatusRegister,
    MciError,
>) -> bool {
    let polled = poll_result(8, added(before, after));
    &&& polling(
        before,
        after,
        SDMMC_MCI_CMD13_SEND_STATUS,
        addressed(rca),
        8,
        STATUS_ATTEMPTS as int,
        polled,
    )
    &&& r == status_outcome(polled)
}

/// Asks the card for its status until it is ready for data.
pub fn await_status<B: Bus>(bus: &mut B, record: &mut Ghost<Record>, rca: u16) -> (r: Result<
    CardStatusRegister,
    MciError,
>)
    ensures
        status_awaited(old(record)@, final(record)@, rca, r),
{
    let polled = poll(
        bus,
        record,
        SDMMC_MCI_CMD13_SEND_STATUS,
        (rca as u32) << 16,
        8,
        STATUS_ATTEMPTS,
    );
    let r = match polled {
        Err(e) => Err(e),
        Ok(None) => Err(MciError::Impl(ImplError::TimedOut)),
        Ok(Some(val)) => Ok(CardStatusRegister { val }),
    };
    r
}

/// The address that goes on the line for the block `start`: the block index
/// for a card of high capacity, the byte address for another.
pub open spec fn address_of(high_capacity: bool, start: u32) -> int {
    if high_capacity {
        start as int
    } else {
        start * 512
    }
}

/// The address that goes on the line for the block `start`.
pub fn block_address(high_capacity: bool, start: u32) -> (r: u32)
    requires
        address_of(high_capacity, start) <= u32::MAX,
    ensures
        r == address_of(high_capacity, start),
        high_capacity ==> r == start,
        !high_capacity ==> r == start * 512,
{
    if high_capacity {
        start
    } else {
        start * (SD_MMC_BLOCK_SIZE as u32)
    }
}

/// The command that reads `num_blocks` blocks: the single block command for
/// one block at most, the multiple block command for more.
pub open spec fn read_command(num_blocks: u16) -> u32 {
    if num_blocks > 1 {
        SDMMC_CMD18_READ_MULTIPLE_BLOCK
    } else {
        SDMMC_CMD17_READ_SINGLE_BLOCK
    }
}

/// The command that writes `num_blocks` blocks: the single block command for
/// one block at most, the multiple block command for more.
pub open spec fn write_command(num_blocks: u16) -> u32 {
    if num_blocks > 1 {
        SDMMC_CMD25_WRITE_MULTIPLE_BLOCK
    } else {
        SDMMC_CMD24_WRITE_BLOCK
    }
}

/// The record grew by the start of a transfer of `num_blocks` blocks of 512
/// bytes with `cmd` at the block `start`, and `r` is its outcome.
pub open spec fn transfer_started(
    before: Record,
    after: Record,
    cmd: u32,
    high_capacity: bool,
    start: u32,
    num_blocks: u16,
    r: Result<(), MciError>,
) -> bool {
    grown_by(
        before,
        after,
        Exchange {
            call: Call::AdtcStart {
                cmd,
                arg: address_of(high_capacity, start) as u32,
                block_size: 512,
                block_amount: num_blocks,
                access_in_blocks: true,
            },
            reply: done_or_failed(r),
        },
    )
}

/// Starts a transfer of `num_blocks` blocks of 512 bytes with `cmd` at the
/// block `start`.
pub fn start_transfer<B: Adtc>(
    bus: &mut B,
    record: &mut Ghost<Record>,
    cmd: u32,
    high_capacity: bool,
    start: u32,
    num_blocks: u16,
) -> (r: Result<(), MciError>)
    requires
        address_of(high_capacity, start) <= u32::MAX,
    ensures
        transfer_started(old(record)@, final(record)@, cmd, high_capacity, start, num_blocks, r),
{
    let arg = block_address(high_capacity, start);
    adtc_start(bus, record, cmd, arg, SD_MMC_BLOCK_SIZE as u16, num_blocks, true)
}

/// The record grew by the start of a read transfer, and `r` is its outcome.
/// The device is selected; where that fails nothing else is asked. Then the
/// status is polled until the card is ready for data; where that fails or
/// times out nothing else is asked. Then the read command goes out with the
/// address of the block `start`, and a fresh transaction comes back where
/// the transport took it.
pub open spec fn read_begun(
    before: Record,
    after: Record,
    line: Line,
    rca: u16,
    high_capacity: bool,
    start: u32,
    num_blocks: u16,
    r: Result<Transaction, MciError>,
) -> bool {
    &&& continues(before, after)
    &&& exists|selected: Record, chosen: Result<(), MciError>| #[trigger]
        device_selected(before, selected, line, chosen) && match chosen {
            Err(e) => after == selected && r == Err::<Transaction, MciError>(e),
            Ok(_) => exists|ready: Record, status: Result<CardStatusRegister, MciError>| #[trigger]
                status_awaited(selected, ready, rca, status) && match status {
                    Err(e) => after == ready && r == Err::<Transaction, MciError>(e),
                    Ok(_) => exists|started: Result<(), MciError>| #[trigger]
                        transfer_started(
                            ready,
                            after,
                            read_command(num_blocks),
                            high_capacity,
                            start,
                            num_blocks,
                            started,
                        ) && r == match started {
                            Err(e) => Err::<Transaction, MciError>(e),
                            Ok(_) => Ok::<Transaction, MciError>(Transaction::fresh(num_blocks)),
                        },
                },
        }
}

/// Starts a read transfer of `num_blocks` blocks at the block `start`.
pub fn begin_read<B: Bus + Adtc>(
    bus: &mut B,
    record: &mut Ghost<Record>,
    line: &Line,
    rca: u16,
    high_capacity: bool,
    start: u32,
    num_blocks: u16,
) -> (r: Result<Transaction, MciError>)
    requires
        address_of(high_capacity, start) <= u32::MAX,
    ensures
        read_begun(old(record)@, final(record)@, *line, rca, high_capacity, start, num_blocks, r),
{
    proof {
        lemma_nothing_added(record@);
    }
    let ghost before = record@;
    let chosen = select_device(bus, record, line);
    let ghost selected = record@;
    if let Err(e) = chosen {
        return Err(e);
    }
    let status = await_status(bus, record, rca);
    let ghost ready = record@;
    proof {
        lemma_added_in_two_steps(before, selected, ready);
    }
    if let Err(e) = status {
        return Err(e);
    }
    let cmd: u32 = if num_blocks > 1 {
        SDMMC_CMD18_READ_MULTIPLE_BLOCK
    } else {
        SDMMC_CMD17_READ_SINGLE_BLOCK
    };
    let started = start_transfer(bus, record, cmd, high_capacity, start, num_blocks);
    assert(transfer_started(
        ready,
        record@,
        read_command(num_blocks),
        high_capacity,
        start,
        num_blocks,
        started,
    ));
    match started {
        Err(e) => Err(e),
        Ok(()) => Ok(Transaction::new(num_blocks)),
    }
}

/// The record grew by a question to the write protect pin, and `r` tells
/// whether the card is protected: it is where the answer of the pin equals
/// `active`. With `ask_high` the pin is asked whether it is high, else
/// whether it is low.
pub open spec fn protection_sensed(
    before: Record,
    after: Record,
    ask_high: bool,
    active: bool,
    r: Result<bool, MciError>,
) -> bool {
    pin_sensed(before, after, false, ask_high, active, r)
}

/// The record grew by the fetch of the card status, and `r` is what came.
pub open spec fn status_fetched(before: Record, after: Record, r: Result<u32, MciError>) -> bool {
    grown_by(
        before,
        after,
        Exchange {
            call: Call::Response,
            reply: match r {
                Ok(v) => Reply::Word(v),
                Err(e) => Reply::Failed(e),
            },
        },
    )
}

/// The record grew by the start of a write transfer, and `r` is its outcome.
/// The device is selected; where that fails nothing else is asked. Then the
/// write protect pin is asked for its level; where it cannot be read, or its
/// answer equals `active`, which shows a protected card, nothing else is
/// asked and no write command goes out. Then the write
/// command goes out with the address of the block `start`. Then the card
/// status is fetched, and a fresh transaction comes back unless the status
/// has bit 26, write protect violation, set.
pub open spec fn write_begun(
    before: Record,
    after: Record,
    line: Line,
    ask_high: bool,
    active: bool,
    high_capacity: bool,
    start: u32,
    num_blocks: u16,
    r: Result<Transaction, MciError>,
) -> bool {
    &&& continues(before, after)
    &&& exists|selected: Record, chosen: Result<(), MciError>| #[trigger]
        device_selected(before, selected, line, chosen) && match chosen {
            Err(e) => after == selected && r == Err::<Transaction, MciError>(e),
            Ok(_) => exists|sensed: Record, protected: Result<bool, MciError>| #[trigger]
                protection_sensed(selected, sensed, ask_high, active, protected)
                    && match protected {
                    Err(e) => after == sensed && r == Err::<Transaction, MciError>(e),
                    Ok(true) => after == sensed && r == Err::<Transaction, MciError>(
                        MciError::WriteProtected,
                    ),
                    Ok(false) => exists|begun: Record, started: Result<(), MciError>| #[trigger]
                        transfer_started(
                            sensed,
                            begun,
                            write_command(num_blocks),
                            high_capacity,
                            start,
                            num_blocks,
                            started,
                        ) && match started {
                            Err(e) => after == begun && r == Err::<Transaction, MciError>(e),
                            Ok(_) => exists|status: Result<u32, MciError>| #[trigger]
                                status_fetched(begun, after, status) && r == match status {
                                    Err(e) => Err::<Transaction, MciError>(e),
                                    Ok(v) => if bit32(v, 26) {
                                        Err::<Transaction, MciError>(MciError::WriteProtected)
                                    } else {
                                        Ok::<Transaction, MciError>(Transaction::fresh(num_blocks))
                                    },
                                },
                        },
                },
        }
}

/// Starts a write transfer of `num_blocks` blocks at the block `start`. The
/// card is protected where the answer of the write protect pin equals
/// `active`; with `ask_high` the pin is asked whether it is high, else
/// whether it is low.
pub fn begin_write<B: Bus + Adtc, P: InputPin>(
    bus: &mut B,
    record: &mut Ghost<Record>,
    line: &Line,
    pin: &P,
    ask_high: bool,
    active: bool,
    high_capacity: bool,
    start: u32,
    num_blocks: u16,
) -> (r: Result<Transaction, MciError>)
    requires
        address_of(high_capacity, start) <= u32::MAX,
    ensures
        write_begun(
            old(record)@,
            final(record)@,
            *line,
            ask_high,
            active,
            high_capacity,
            start,
            num_blocks,
            r,
        ),
{
    proof {
        lemma_nothing_added(record@);
    }
    let ghost before = record@;
    let chosen = select_device(bus, record, line);
    let ghost selected = record@;
    if let Err(e) = chosen {
        return Err(e);
    }
    let protected = sense_pin(pin, record, false, ask_high, active);
    let ghost sensed = record@;
    assert(protection_sensed(selected, sensed, ask_high, active, protected));
    match protected {
        Err(e) => {
            return Err(e);
        },
        Ok(true) => {
            return Err(MciError::WriteProtected);
        },
        Ok(false) => {},
    }
    let cmd: u32 = if num_blocks > 1 {
        SDMMC_CMD25_WRITE_MULTIPLE_BLOCK
    } else {
        SDMMC_CMD24_WRITE_BLOCK
    };
    let started = start_transfer(bus, record, cmd, high_capacity, start, num_blocks);
    let ghost begun = record@;
    assert(transfer_started(
        sensed,
        begun,
        write_command(num_blocks),
        high_capacity,
        start,
        num_blocks,
        started,
    ));
    if let Err(e) = started {
        return Err(e);
    }
    let status = response(bus, record);
    assert(status_fetched(begun, record@, status));
    match status {
        Err(e) => Err(e),
        Ok(val) => {
            let resp = CardStatusRegister { val };
            if resp.write_protect_violation() {
                Err(MciError::WriteProtected)
            } else {
                Ok(Transaction::new(num_blocks))
            }
        },
    }
}

/// The record grew by a batch of blocks read into a buffer that now holds
/// `bytes`, and `r` is its outcome: whatever the transport objects, reading
/// failed.
pub open spec fn batch_read(before: Record, after: Record, bytes: Seq<u8>, r: Result<
    (),
    MciError,
>) -> bool {
    &&& after.len() == before.len() + 1
    &&& after.last().call == Call::ReadBlocks { len: bytes.len() as int }
    &&& grown_by(before, after, after.last())
    &&& match r {
        Ok(_) => after.last().reply == Reply::Bytes(bytes),
        Err(e) => after.last().reply is Failed && e == MciError::ReadError,
    }
}

/// Reads a batch of blocks of a transfer. The blocks of the batch are taken
/// off the transaction; after a failure nothing remains of it.
pub fn read_batch<B: Read>(
    bus: &mut B,
    record: &mut Ghost<Record>,
    transaction: &mut Transaction,
    destination: &mut [u8],
) -> (r: Result<(), MciError>)
    requires
        old(destination)@.len() / 512 <= old(transaction).remain,
    ensures
        final(destination)@.len() == old(destination)@.len(),
        batch_read(old(record)@, final(record)@, final(destination)@, r),
        *final(transaction) == old(transaction).after_batch(
            r is Ok,
            old(destination)@.len() as int / 512,
        ),
{
    let blocks = destination.len() / SD_MMC_BLOCK_SIZE;
    if read_blocks(bus, record, destination).is_err() {
        transaction.remain = 0;
        return Err(MciError::ReadError);
    }
    transaction.remain -= blocks as u16;
    Ok(())
}

/// The record grew by a batch of blocks written from `bytes`, and `r` is its
/// outcome: whatever the transport objects, writing failed.
pub open spec fn batch_written(before: Record, after: Record, bytes: Seq<u8>, r: Result<
    (),
    MciError,
>) -> bool {
    &&& after.len() == before.len() + 1
    &&& after.last().call == Call::WriteBlocks { data: bytes }
    &&& grown_by(before, after, after.last())
    &&& match r {
        Ok(_) => after.last().reply is Done,
        Err(e) => after.last().reply is Failed && e == MciError::WriteError,
    }
}

/// Writes a batch of blocks of a transfer. The blocks of the batch are taken
/// off the transaction; after a failure nothing remains of it.
pub fn write_batch<B: Write>(
    bus: &mut B,
    record: &mut Ghost<Record>,
    transaction: &mut Transaction,
    blocks: &[u8],
) -> (r: Result<(), MciError>)
    requires
        blocks@.len() / 512 <= old(transaction).remain,
    ensures
        batch_written(old(record)@, final(record)@, blocks@, r),
        *final(transaction) == old(transaction).after_batch(r is Ok, blocks@.len() as int / 512),
{
    if write_blocks(bus, record, blocks).is_err() {
        transaction.remain = 0;
        return Err(MciError::WriteError);
    }
    transaction.remain -= (blocks.len() / SD_MMC_BLOCK_SIZE) as u16;
    Ok(())
}

/// Whether the wait at the end of a batch goes on to stop the transmission:
/// it does where the transfer was given up and where nothing remains of it.
pub open spec fn stop_due(abort: bool, remain: u16) -> bool {
    abort || remain == 0
}

/// The exchange that stops the transmission.
pub open spec fn stop(reply: Reply) -> Exchange {
    Exchange { call: Call::AdtcStop { cmd: SDMMC_CMD12_STOP_TRANSMISSION, arg: 0 }, reply }
}

/// The record grew by the wait at the end of a batch, with `wait` as the
/// call that waits, and `r` is its outcome. Where the wait fails nothing
/// else is asked. Where blocks remain and the transfer is not given up
/// nothing else is asked. Else the transmission is stopped, and where
/// `retry` holds a stop that fails is repeated once.
pub open spec fn transfer_finished(
    before: Record,
    after: Record,
    wait: Call,
    retry: bool,
    abort: bool,
    remain: u16,
    r: Result<(), MciError>,
) -> bool {
    let run = added(before, after);
    &&& continues(before, after)
    &&& 1 <= run.len() <= 3
    &&& run[0].call == wait
    &&& run[0].reply is Done || run[0].reply is Failed
    &&& if run[0].reply is Failed {
        run.len() == 1 && r == Err::<(), MciError>(run[0].reply->Failed_0)
    } else if !stop_due(abort, remain) {
        run.len() == 1 && r == Ok::<(), MciError>(())
    } else {
        &&& run.len() >= 2
        &&& run[1] == stop(run[1].reply)
        &&& run[1].reply is Done || run[1].reply is Failed
        &&& if run[1].reply is Done {
            run.len() == 2 && r == Ok::<(), MciError>(())
        } else if !retry {
            run.len() == 2 && r == Err::<(), MciError>(run[1].reply->Failed_0)
        } else {
            &&& run.len() == 3
            &&& run[2] == stop(run[2].reply)
            &&& r == (match run[2].reply {
                Reply::Failed(e) => Err::<(), MciError>(e),
                _ => Ok::<(), MciError>(()),
            })
        }
    }
}

/// Waits for the end of a batch of blocks read, and stops the transmission
/// where the transfer is over. The stop command is repeated once where it
/// fails, for cards that need that.
pub fn finish_read<B: Adtc + Read>(
    bus: &mut B,
    record: &mut Ghost<Record>,
    abort: bool,
    transaction: &mut Transaction,
) -> (r: Result<(), MciError>)
    ensures
        transfer_finished(
            old(record)@,
            final(record)@,
            Call::WaitRead,
            true,
            abort,
            old(transaction).remain,
            r,
        ),
        *final(transaction) == (if final(record)@[old(record)@.len() as int].reply is Failed {
            *old(transaction)
        } else {
            old(transaction).after_wait(abort)
        }),
{
    proof {
        lemma_nothing_added(record@);
    }
    if let Err(e) = wait_read(bus, record) {
        return Err(e);
    }
    if abort {
        transaction.remain = 0;
    } else if transaction.remain > 0 {
        return Ok(());
    }
    if adtc_stop(bus, record, SDMMC_CMD12_STOP_TRANSMISSION, 0).is_err() {
        let again = adtc_stop(bus, record, SDMMC_CMD12_STOP_TRANSMISSION, 0);
        return match again {
            Ok(()) => Ok(()),
            Err(e) => Err(e),
        };
    }
    Ok(())
}

/// Waits for the end of a batch of blocks written, and stops the
/// transmission where the transfer is over.
pub fn finish_write<B: Adtc + Write>(
    bus: &mut B,
    record: &mut Ghost<Record>,
    abort: bool,
    transaction: &mut Transaction,
) -> (r: Result<(), MciError>)
    ensures
        transfer_finished(
            old(record)@,
            final(record)@,
            Call::WaitWrite,
            false,
            abort,
            old(transaction).remain,
            r,
        ),
        *final(transaction) == (if final(record)@[old(record)@.len() as int].reply is Failed {
            *old(transaction)
        } else {
            old(transaction).after_wait(abort)
        }),
{
    proof {
        lemma_nothing_added(record@);
    }
    if let Err(e) = wait_write(bus, record) {
        return Err(e);
    }
    if abort {
        transaction.remain = 0;
    } else if transaction.remain > 0 {
        return Ok(());
    }
    let stopped = adtc_stop(bus, record, SDMMC_CMD12_STOP_TRANSMISSION, 0);
    match stopped {
        Ok(()) => Ok(()),
        Err(e) => Err(e),
    }
}

/// A card whose write protect pin answers as protected gets no write
/// command: where the device was selected and the answer of the pin equals
/// the polarity, the start of the write transfer ends with the refusal, and
/// the selection and the question to the pin are all that was asked.
pub proof fn lemma_protected_card_gets_no_write_command(
    before: Record,
    after: Record,
    line: Line,
    ask_high: bool,
    active: bool,
    high_capacity: bool,
    start: u32,
    num_blocks: u16,
    r: Result<Transaction, MciError>,
)
    requires
        write_begun(before, after, line, ask_high, active, high_capacity, start, num_blocks, r),
        added(before, after)[0].reply is Done,
        added(before, after).len() >= 2 ==> crate::pin::condition_of(
            crate::bus::recorded::reading_of(added(before, after)[1].reply),
            active,
        ) == Ok::<bool, MciError>(true),
    ensures
        r == Err::<Transaction, MciError>(MciError::WriteProtected),
        added(before, after).len() == 2,
        added(before, after)[0].call is Select,
        added(before, after)[1].call == (Call::WriteProtectPin { ask_high }),
{
    lemma_nothing_added(before);
    assert forall|earlier: Record, later: Record, exchange: Exchange| #[trigger]
        grown_by(earlier, later, exchange) implies later.len() == earlier.len() + 1 && later[later.len()
        - 1] == exchange && forall|i: int| 0 <= i < earlier.len() ==> later[i] == earlier[i] by {}
}

/// The wait at the end of a transfer of one block that has not moved yet and
/// is not given up asks for no stop of the transmission: the wait itself is
/// all that is asked of the transport.
pub proof fn lemma_single_block_needs_no_stop(
    before: Record,
    after: Record,
    wait: Call,
    retry: bool,
    r: Result<(), MciError>,
)
    requires
        !(wait is AdtcStop),
        transfer_finished(before, after, wait, retry, false, Transaction::fresh(1).remain, r),
    ensures
        !stop_due(false, Transaction::fresh(1).remain),
        added(before, after).len() == 1,
        forall|i: int|
            0 <= i < added(before, after).len() ==> !((#[trigger] added(before, after)[i]).call
                is AdtcStop),
{
}

/// The command that starts a transfer carries the block index itself as its
/// address for a card of high capacity, and 512 times the block index for any
/// other card.
pub proof fn lemma_address_on_the_line(
    before: Record,
    after: Record,
    cmd: u32,
    high_capacity: bool,
    start: u32,
    num_blocks: u16,
    r: Result<(), MciError>,
)
    requires
        transfer_started(before, after, cmd, high_capacity, start, num_blocks, r),
        address_of(high_capacity, start) <= u32::MAX,
    ensures
        after.len() == before.len() + 1,
        after.last().call is AdtcStart,
        after.last().call->AdtcStart_cmd == cmd,
        high_capacity ==> after.last().call->AdtcStart_arg == start,
        !high_capacity ==> after.last().call->AdtcStart_arg == start * 512,
{
}

} // verus!
