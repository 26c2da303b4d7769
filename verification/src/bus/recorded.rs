//! The record of what the driver asked of its transport and what came back.
//!
//! Every card and controller of this library keeps such a record as ghost
//! state. The contracts of the driver functions say which calls a function
//! adds to the record and how its result follows from the answers.

use vstd::prelude::*;
use crate::bus::{Adtc, Bus, Read, SdMmcBus, Write};
use crate::command_arguments::mmc::BusWidth;
use crate::error::MciError;
use crate::pin::{condition, condition_of, InputPin};

verus! {

/// One request to the transport.
pub enum Call {
    Select { slot: u8, clock: u32, bus_width: BusWidth, high_speed: bool },
    Deselect { slot: u8 },
    SendClock,
    Command { cmd: u32, arg: u32 },
    Response,
    Response128,
    AdtcStart { cmd: u32, arg: u32, block_size: u16, block_amount: u16, access_in_blocks: bool },
    AdtcStop { cmd: u32, arg: u32 },
    ReadWord,
    ReadBlocks { len: int },
    WaitRead,
    WriteBlocks { data: Seq<u8> },
    WaitWrite,
    MaxBusWidth { slot: u8 },
    HighSpeedCapable,
    /// The write protect pin is asked for its level, which is no request to
    /// the transport but decides what is asked of it. With `ask_high` the
    /// question is "is it high", else "is it low".
    WriteProtectPin { ask_high: bool },
    /// The card detect pin is asked for its level, in the same way.
    DetectPin { ask_high: bool },
}

/// What the transport answered.
pub enum Reply {
    Done,
    Word(u32),
    Words([u32; 4]),
    Flag(bool),
    /// What a pin answered to the question that it was asked.
    Level(bool),
    Width(BusWidth),
    Bytes(Seq<u8>),
    Failed(MciError),
}

/// A request with its answer.
pub struct Exchange {
    pub call: Call,
    pub reply: Reply,
}

/// The record of all exchanges, oldest first.
pub type Record = Seq<Exchange>;

/// The answer that stands for the result of a request without a value.
pub open spec fn done_or_failed(r: Result<(), MciError>) -> Reply {
    match r {
        Ok(_) => Reply::Done,
        Err(e) => Reply::Failed(e),
    }
}

/// The answer that stands for the result of a request for four words.
pub open spec fn words_or_failed(r: Result<[u32; 4], MciError>) -> Reply {
    match r {
        Ok(v) => Reply::Words(v),
        Err(e) => Reply::Failed(e),
    }
}

/// The answer that stands for the result of a request for a flag.
pub open spec fn flag_or_failed(r: Result<bool, MciError>) -> Reply {
    match r {
        Ok(v) => Reply::Flag(v),
        Err(e) => Reply::Failed(e),
    }
}

/// The answer that stands for the result of a request for a bus width.
pub open spec fn width_or_failed(r: Result<BusWidth, MciError>) -> Reply {
    match r {
        Ok(v) => Reply::Width(v),
        Err(e) => Reply::Failed(e),
    }
}

/// The answer that stands for the result of a request for a word.
pub open spec fn word_or_failed(r: Result<u32, MciError>) -> Reply {
    match r {
        Ok(v) => Reply::Word(v),
        Err(e) => Reply::Failed(e),
    }
}

/// `after` continues `before`.
pub open spec fn continues<T>(before: Seq<T>, after: Seq<T>) -> bool {
    before.len() <= after.len() && after.subrange(0, before.len() as int) == before
}

/// What `after` holds beyond `before`.
pub open spec fn added<T>(before: Seq<T>, after: Seq<T>) -> Seq<T> {
    after.subrange(before.len() as int, after.len() as int)
}

/// The error of the last exchange of a run, where it failed.
pub open spec fn failure(run: Record) -> Option<MciError> {
    if run.len() > 0 && run.last().reply is Failed {
        Some(run.last().reply->Failed_0)
    } else {
        None
    }
}

/// `run` is an attempt at the calls of `script`: it makes them in order, one
/// at least, and stops after the first that fails.
pub open spec fn attempt(script: Seq<Call>, run: Record) -> bool {
    &&& 1 <= run.len() <= script.len()
    &&& forall|i: int| 0 <= i < run.len() ==> (#[trigger] run[i]).call == script[i]
    &&& forall|i: int| 0 <= i < run.len() - 1 ==> !((#[trigger] run[i]).reply is Failed)
    &&& run.len() < script.len() ==> run.last().reply is Failed
}

/// A sequence continues itself and adds nothing to itself.
pub proof fn lemma_nothing_added<T>(before: Seq<T>)
    ensures
        continues(before, before),
        added(before, before) == Seq::<T>::empty(),
{
    assert(before.subrange(0, before.len() as int) =~= before);
    assert(added(before, before) =~= Seq::<T>::empty());
}

/// One more entry continues the sequence and is added last.
pub proof fn lemma_one_added<T>(before: Seq<T>, after: Seq<T>, entry: T)
    requires
        continues(before, after),
    ensures
        continues(before, after.push(entry)),
        added(before, after.push(entry)) == added(before, after).push(entry),
{
    assert(after.push(entry).subrange(0, before.len() as int) =~= after.subrange(
        0,
        before.len() as int,
    ));
    assert(added(before, after.push(entry)) =~= added(before, after).push(entry));
}

/// Continuation is transitive, and what is added adds up.
pub proof fn lemma_added_in_two_steps<T>(before: Seq<T>, middle: Seq<T>, after: Seq<T>)
    requires
        continues(before, middle),
        continues(middle, after),
    ensures
        continues(before, after),
        added(before, after) == added(before, middle) + added(middle, after),
{
    assert(after.subrange(0, before.len() as int) =~= middle.subrange(0, before.len() as int)) by {
        assert forall|i: int| 0 <= i < before.len() implies after[i] == middle[i] by {
            assert(after.subrange(0, middle.len() as int)[i] == middle[i]);
        }
    }
    assert(added(before, after) =~= added(before, middle) + added(middle, after)) by {
        assert forall|i: int| 0 <= i < middle.len() - before.len() implies added(before, after)[i]
            == added(before, middle)[i] by {
            assert(after.subrange(0, middle.len() as int)[i + before.len()] == middle[i
                + before.len()]);
        }
    }
}

/// A sequence continues every sequence that it starts with, and adds the
/// rest.
pub proof fn lemma_appended<T>(before: Seq<T>, more: Seq<T>)
    ensures
        continues(before, before + more),
        added(before, before + more) == more,
{
    assert((before + more).subrange(0, before.len() as int) =~= before);
    assert(added(before, before + more) =~= more);
}

/// `after` is `before` with `exchange` as its newest entry; whatever `before`
/// continued, `after` continues too, with `exchange` added last.
pub open spec fn grown_by(before: Record, after: Record, exchange: Exchange) -> bool {
    &&& after == before.push(exchange)
    &&& forall|start: Record| #[trigger]
        continues(start, before) ==> continues(start, after) && added(start, after) == added(
            start,
            before,
        ).push(exchange)
}

/// Pushing an exchange grows the record by it.
pub proof fn lemma_grown(before: Record, exchange: Exchange)
    ensures
        grown_by(before, before.push(exchange), exchange),
{
    assert forall|start: Record| #[trigger] continues(start, before) implies continues(
        start,
        before.push(exchange),
    ) && added(start, before.push(exchange)) == added(start, before).push(exchange) by {
        lemma_one_added(start, before, exchange);
    }
}

/// Sends a command and records it.
pub fn command<B: Bus>(bus: &mut B, record: &mut Ghost<Record>, cmd: u32, arg: u32) -> (r: Result<
    (),
    MciError,
>)
    ensures
        grown_by(
            old(record)@,
            final(record)@,
            Exchange { call: Call::Command { cmd, arg }, reply: done_or_failed(r) },
        ),
{
    let r = bus.send_command(cmd, arg);
    proof {
        lemma_grown(
            record@,
            Exchange { call: Call::Command { cmd, arg }, reply: done_or_failed(r) },
        );
        *record = Ghost(
            record@.push(
                Exchange { call: Call::Command { cmd, arg }, reply: done_or_failed(r) },
            ),
        );
    }
    r
}

/// Fetches the 32-bit response and records it.
pub fn response<B: Bus>(bus: &mut B, record: &mut Ghost<Record>) -> (r: Result<u32, MciError>)
    ensures
        grown_by(
            old(record)@,
            final(record)@,
            Exchange { call: Call::Response, reply: word_or_failed(r) },
        ),
{
    let r = bus.get_response();
    proof {
        lemma_grown(
            record@,
            Exchange { call: Call::Response, reply: word_or_failed(r) },
        );
        *record = Ghost(
            record@.push(
                Exchange { call: Call::Response, reply: word_or_failed(r) },
            ),
        );
    }
    r
}

/// Selects a device and records it.
pub fn select<B: Bus>(
    bus: &mut B,
    record: &mut Ghost<Record>,
    slot: u8,
    clock: u32,
    bus_width: &BusWidth,
    high_speed: bool,
) -> (r: Result<(), MciError>)
    ensures
        grown_by(
            old(record)@,
            final(record)@,
            Exchange {
                call: Call::Select { slot, clock, bus_width: *bus_width, high_speed },
                reply: done_or_failed(r),
            },
        ),
{
    let r = bus.select_device(slot, clock, bus_width, high_speed);
    proof {
        lemma_grown(
            record@,
            Exchange {
                    call: Call::Select { slot, clock, bus_width: *bus_width, high_speed },
                    reply: done_or_failed(r),
                },
        );
        *record = Ghost(
            record@.push(
                Exchange {
                    call: Call::Select { slot, clock, bus_width: *bus_width, high_speed },
                    reply: done_or_failed(r),
                },
            ),
        );
    }
    r
}

/// Deselects a device and records it.
pub fn deselect<B: Bus>(bus: &mut B, record: &mut Ghost<Record>, slot: u8) -> (r: Result<
    (),
    MciError,
>)
    ensures
        grown_by(
            old(record)@,
            final(record)@,
            Exchange { call: Call::Deselect { slot }, reply: done_or_failed(r) },
        ),
{
    let r = bus.deselect_device(slot);
    proof {
        lemma_grown(
            record@,
            Exchange { call: Call::Deselect { slot }, reply: done_or_failed(r) },
        );
        *record = Ghost(
            record@.push(
                Exchange { call: Call::Deselect { slot }, reply: done_or_failed(r) },
            ),
        );
    }
    r
}

/// Sends the idle clock cycles and records it.
pub fn send_clock<B: Bus>(bus: &mut B, record: &mut Ghost<Record>) -> (r: Result<(), MciError>)
    ensures
        grown_by(
            old(record)@,
            final(record)@,
            Exchange { call: Call::SendClock, reply: done_or_failed(r) },
        ),
{
    let r = bus.send_clock();
    proof {
        lemma_grown(
            record@,
            Exchange { call: Call::SendClock, reply: done_or_failed(r) },
        );
        *record = Ghost(
            record@.push(
                Exchange { call: Call::SendClock, reply: done_or_failed(r) },
            ),
        );
    }
    r
}

/// Starts a data transfer and records it.
pub fn adtc_start<B: Adtc>(
    bus: &mut B,
    record: &mut Ghost<Record>,
    cmd: u32,
    arg: u32,
    block_size: u16,
    block_amount: u16,
    access_in_blocks: bool,
) -> (r: Result<(), MciError>)
    ensures
        grown_by(
            old(record)@,
            final(record)@,
            Exchange {
                call: Call::AdtcStart { cmd, arg, block_size, block_amount, access_in_blocks },
                reply: done_or_failed(r),
            },
        ),
{
    let r = bus.adtc_start(cmd, arg, block_size, block_amount, access_in_blocks);
    proof {
        lemma_grown(
            record@,
            Exchange {
                    call: Call::AdtcStart { cmd, arg, block_size, block_amount, access_in_blocks },
                    reply: done_or_failed(r),
                },
        );
        *record = Ghost(
            record@.push(
                Exchange {
                    call: Call::AdtcStart { cmd, arg, block_size, block_amount, access_in_blocks },
                    reply: done_or_failed(r),
                },
            ),
        );
    }
    r
}

/// Stops a data transfer and records it.
pub fn adtc_stop<B: Adtc>(bus: &B, record: &mut Ghost<Record>, cmd: u32, arg: u32) -> (r: Result<
    (),
    MciError,
>)
    ensures
        grown_by(
            old(record)@,
            final(record)@,
            Exchange { call: Call::AdtcStop { cmd, arg }, reply: done_or_failed(r) },
        ),
{
    let r = bus.adtc_stop(cmd, arg);
    proof {
        lemma_grown(
            record@,
            Exchange { call: Call::AdtcStop { cmd, arg }, reply: done_or_failed(r) },
        );
        *record = Ghost(
            record@.push(
                Exchange { call: Call::AdtcStop { cmd, arg }, reply: done_or_failed(r) },
            ),
        );
    }
    r
}

/// Reads one word and records it.
pub fn read_word<B: Read>(bus: &mut B, record: &mut Ghost<Record>) -> (r: Result<u32, MciError>)
    ensures
        grown_by(
            old(record)@,
            final(record)@,
            Exchange { call: Call::ReadWord, reply: word_or_failed(r) },
        ),
{
    let r = bus.read_word();
    proof {
        lemma_grown(
            record@,
            Exchange { call: Call::ReadWord, reply: word_or_failed(r) },
        );
        *record = Ghost(
            record@.push(
                Exchange { call: Call::ReadWord, reply: word_or_failed(r) },
            ),
        );
    }
    r
}

/// Reads whole blocks and records the bytes that came.
pub fn read_blocks<B: Read>(bus: &mut B, record: &mut Ghost<Record>, blocks: &mut [u8]) -> (r:
    Result<(), MciError>)
    ensures
        final(blocks)@.len() == old(blocks)@.len(),
        grown_by(
            old(record)@,
            final(record)@,
            Exchange {
                call: Call::ReadBlocks { len: old(blocks)@.len() as int },
                reply: match r {
                    Ok(_) => Reply::Bytes(final(blocks)@),
                    Err(e) => Reply::Failed(e),
                },
            },
        ),
{
    let ghost len = blocks@.len() as int;
    let r = bus.read_blocks(blocks);
    proof {
        lemma_grown(
            record@,
            Exchange {
                    call: Call::ReadBlocks { len },
                    reply: match r {
                        Ok(_) => Reply::Bytes(blocks@),
                        Err(e) => Reply::Failed(e),
                    },
                },
        );
        *record = Ghost(
            record@.push(
                Exchange {
                    call: Call::ReadBlocks { len },
                    reply: match r {
                        Ok(_) => Reply::Bytes(blocks@),
                        Err(e) => Reply::Failed(e),
                    },
                },
            ),
        );
    }
    r
}

/// Waits for the end of reading and records it.
pub fn wait_read<B: Read>(bus: &mut B, record: &mut Ghost<Record>) -> (r: Result<(), MciError>)
    ensures
        grown_by(
            old(record)@,
            final(record)@,
            Exchange { call: Call::WaitRead, reply: done_or_failed(r) },
        ),
{
    let r = bus.wait_until_read_finished();
    proof {
        lemma_grown(
            record@,
            Exchange { call: Call::WaitRead, reply: done_or_failed(r) },
        );
        *record = Ghost(
            record@.push(
                Exchange { call: Call::WaitRead, reply: done_or_failed(r) },
            ),
        );
    }
    r
}

/// Writes whole blocks and records them.
pub fn write_blocks<B: Write>(bus: &mut B, record: &mut Ghost<Record>, blocks: &[u8]) -> (r:
    Result<(), MciError>)
    ensures
        grown_by(
            old(record)@,
            final(record)@,
            Exchange { call: Call::WriteBlocks { data: blocks@ }, reply: done_or_failed(r) },
        ),
{
    let r = bus.write_blocks(blocks);
    proof {
        lemma_grown(
            record@,
            Exchange { call: Call::WriteBlocks { data: blocks@ }, reply: done_or_failed(r) },
        );
        *record = Ghost(
            record@.push(
                Exchange { call: Call::WriteBlocks { data: blocks@ }, reply: done_or_failed(r) },
            ),
        );
    }
    r
}

/// Waits for the end of writing and records it.
pub fn wait_write<B: Write>(bus: &mut B, record: &mut Ghost<Record>) -> (r: Result<(), MciError>)
    ensures
        grown_by(
            old(record)@,
            final(record)@,
            Exchange { call: Call::WaitWrite, reply: done_or_failed(r) },
        ),
{
    let r = bus.wait_until_write_finished();
    proof {
        lemma_grown(
            record@,
            Exchange { call: Call::WaitWrite, reply: done_or_failed(r) },
        );
        *record = Ghost(
            record@.push(
                Exchange { call: Call::WaitWrite, reply: done_or_failed(r) },
            ),
        );
    }
    r
}

/// Fetches the 128-bit response and records it.
pub fn response128<B: SdMmcBus>(bus: &mut B, record: &mut Ghost<Record>) -> (r: Result<
    [u32; 4],
    MciError,
>)
    ensures
        grown_by(
            old(record)@,
            final(record)@,
            Exchange { call: Call::Response128, reply: words_or_failed(r) },
        ),
{
    let r = bus.get_response128();
    proof {
        lemma_grown(record@, Exchange { call: Call::Response128, reply: words_or_failed(r) });
        *record = Ghost(
            record@.push(Exchange { call: Call::Response128, reply: words_or_failed(r) }),
        );
    }
    r
}

/// Asks for the widest bus of a slot and records it.
pub fn max_bus_width<B: SdMmcBus>(bus: &mut B, record: &mut Ghost<Record>, slot: u8) -> (r: Result<
    BusWidth,
    MciError,
>)
    ensures
        grown_by(
            old(record)@,
            final(record)@,
            Exchange { call: Call::MaxBusWidth { slot }, reply: width_or_failed(r) },
        ),
{
    let r = bus.get_bus_width(slot);
    proof {
        lemma_grown(
            record@,
            Exchange { call: Call::MaxBusWidth { slot }, reply: width_or_failed(r) },
        );
        *record = Ghost(
            record@.push(Exchange { call: Call::MaxBusWidth { slot }, reply: width_or_failed(r) }),
        );
    }
    r
}

/// Asks whether the interface can run at high speed and records it.
pub fn high_speed_capable<B: SdMmcBus>(bus: &mut B, record: &mut Ghost<Record>) -> (r: Result<
    bool,
    MciError,
>)
    ensures
        grown_by(
            old(record)@,
            final(record)@,
            Exchange { call: Call::HighSpeedCapable, reply: flag_or_failed(r) },
        ),
{
    let r = bus.is_high_speed_capable();
    proof {
        lemma_grown(record@, Exchange { call: Call::HighSpeedCapable, reply: flag_or_failed(r) });
        *record = Ghost(
            record@.push(Exchange { call: Call::HighSpeedCapable, reply: flag_or_failed(r) }),
        );
    }
    r
}

/// The question to one of the two pins.
pub open spec fn pin_call(detect: bool, ask_high: bool) -> Call {
    if detect {
        Call::DetectPin { ask_high }
    } else {
        Call::WriteProtectPin { ask_high }
    }
}

/// The answer that stands for the reading of a pin.
pub open spec fn level_or_failed(reading: Result<bool, ()>) -> Reply {
    match reading {
        Ok(level) => Reply::Level(level),
        Err(_) => Reply::Failed(MciError::PinLevelReadError),
    }
}

/// The reading of a pin that an answer stands for.
pub open spec fn reading_of(reply: Reply) -> Result<bool, ()> {
    match reply {
        Reply::Level(level) => Ok(level),
        _ => Err(()),
    }
}

/// The record grew by a question to a pin, and `r` tells whether the
/// condition holds that the pin stands for: it holds where the answer of the
/// pin equals `active`, and a pin that cannot be read is an error.
pub open spec fn pin_sensed(
    before: Record,
    after: Record,
    detect: bool,
    ask_high: bool,
    active: bool,
    r: Result<bool, MciError>,
) -> bool {
    &&& after.len() == before.len() + 1
    &&& after.last().call == pin_call(detect, ask_high)
    &&& after.last().reply is Level || after.last().reply == Reply::Failed(
        MciError::PinLevelReadError,
    )
    &&& grown_by(before, after, after.last())
    &&& r == condition_of(reading_of(after.last().reply), active)
}

/// Asks the card detect pin (with `detect`) or the write protect pin for its
/// level and records question and answer. With `ask_high` the pin is asked
/// whether it is high, else whether it is low.
pub fn read_pin<P: InputPin>(pin: &P, record: &mut Ghost<Record>, detect: bool, ask_high: bool) -> (r:
    Result<bool, ()>)
    ensures
        grown_by(
            old(record)@,
            final(record)@,
            Exchange { call: pin_call(detect, ask_high), reply: level_or_failed(r) },
        ),
{
    let r = if ask_high {
        pin.is_high()
    } else {
        pin.is_low()
    };
    proof {
        lemma_grown(
            record@,
            Exchange { call: pin_call(detect, ask_high), reply: level_or_failed(r) },
        );
        *record = Ghost(
            record@.push(Exchange { call: pin_call(detect, ask_high), reply: level_or_failed(r) }),
        );
    }
    r
}

/// Asks a pin for its level and says whether the condition holds that the
/// pin stands for: it holds where the answer equals `active`.
pub fn sense_pin<P: InputPin>(
    pin: &P,
    record: &mut Ghost<Record>,
    detect: bool,
    ask_high: bool,
    active: bool,
) -> (r: Result<bool, MciError>)
    ensures
        pin_sensed(old(record)@, final(record)@, detect, ask_high, active, r),
{
    let reading = read_pin(pin, record, detect, ask_high);
    condition(reading, active)
}

} // verus!
