//! Command sequences that are specific to I/O cards.

use vstd::prelude::*;
use crate::bits::{bit32, bit8, bits32, field_u32, with_bit8};
use crate::bus::recorded::{
    added, adtc_start, attempt, command, continues, done_or_failed, failure, grown_by,
    lemma_nothing_added, read_blocks, response, wait_read, wait_write, write_blocks, Call,
    Exchange, Record, Reply,
};
use crate::bus::{Adtc, Bus, Read, Write};
use crate::card::card::{Settings, Type};
use crate::command_arguments::mmc::BusWidth;
use crate::command_arguments::sdio::cmd52::{direct_access, direct_argument, Direction};
use crate::command_arguments::sdio::cmd53::{extended_access, extended_argument};
use crate::commands::{
    SDIO_CMD52_IO_RW_DIRECT, SDIO_CMD53_IO_R_BYTE_EXTENDED, SDIO_CMD53_IO_W_BYTE_EXTENDED,
    SDIO_CMD5_SEND_OP_COND,
};
use crate::decode::{clock_of, max_clock};
use crate::error::{lemma_done, ImplError, MciError};
use crate::protocol::blocks::{device_selected, select_device, status_fetched, Line};
use crate::protocol::install::{commanded, scene, Scene};
use crate::protocol::poll::{poll, poll_result, polling};
use crate::registers::ocr::{ocr_voltage_support, OcrRegister};
use crate::registers::sdio::cccr::function_select::FunctionSelection;

verus! {

/// The address of the pointer to the card information structure in the
/// common control registers.
pub const SDIO_CCCR_CIS_PTR: u32 = 0x09;

/// The tuple code that ends a tuple chain.
pub const SDIO_CISTPL_END: u8 = 0xFF;

/// The tuple code of a function extension tuple.
pub const SDIO_CISTPL_FUNCE: u8 = 0x22;

/// The number of times that an I/O card is asked for its operating
/// conditions before the driver gives up: one second of such commands at
/// 400 kHz, less one.
pub const SDIO_OCR_ATTEMPTS: u32 = 4999;

/// The highest register address that a direct I/O command can carry.
pub const SDIO_ADDRESS_LIMIT: u32 = 0x1_FFFF;

/// The room behind the start of the card information structure in which the
/// function extension tuple is looked for, in bytes.
pub const SDIO_TUPLE_ROOM: u32 = 256;

/// The settings of a card that was found to have I/O functions, and memory
/// besides them where `memory` holds.
pub open spec fn with_io(settings: Settings, memory: bool) -> Settings {
    Settings {
        card_type: Type(
            if memory {
                with_bit8(with_bit8(settings.card_type.0, 3, true), 1, true)
            } else {
                with_bit8(settings.card_type.0, 3, true)
            },
        ),
        ..settings
    }
}

/// The last stage of the search for an I/O card: the card is polled with the
/// voltage window that host and card share until it is powered up, and is
/// noted as an I/O card, with memory where it reports that.
pub open spec fn io_conditions_polled(now: Scene, end: Scene, ocr: u32, r: Result<
    (),
    MciError,
>) -> bool {
    &&& polling(
        now.record,
        end.record,
        SDIO_CMD5_SEND_OP_COND,
        ocr & 0x001f_8000,
        31,
        SDIO_OCR_ATTEMPTS as int,
        poll_result(31, added(now.record, end.record)),
    )
    &&& match poll_result(31, added(now.record, end.record)) {
        Err(e) => r == Err::<(), MciError>(e) && end.settings == now.settings,
        Ok(None) => r == Err::<(), MciError>(MciError::Impl(ImplError::TimedOut)) && end.settings
            == now.settings,
        Ok(Some(answer)) => r is Ok && end.settings == with_io(now.settings, bit32(answer, 27)),
    }
}

/// The stage of the search for an I/O card that fetches the answer to the
/// first command. A card without I/O functions is left as it is, and that is
/// no fault.
pub open spec fn io_functions_counted(now: Scene, end: Scene, r: Result<(), MciError>) -> bool {
    exists|fetched: Record, ocr: Result<u32, MciError>| #[trigger]
        status_fetched(now.record, fetched, ocr) && match ocr {
            Err(e) => end == scene(now.settings, fetched) && r == Err::<(), MciError>(e),
            Ok(ocr) => if bits32(ocr, 28, 31) == 0 {
                end == scene(now.settings, fetched) && r is Ok
            } else {
                io_conditions_polled(scene(now.settings, fetched), end, ocr, r)
            },
        }
}

/// The card was asked whether it is an I/O card, and `r` is the outcome. A
/// card that does not take the first command is left as it is, and that is no
/// fault.
pub open spec fn io_card_sought(start: Scene, end: Scene, r: Result<(), MciError>) -> bool {
    exists|sent: Record, taken: Result<(), MciError>| #[trigger]
        commanded(start.record, sent, SDIO_CMD5_SEND_OP_COND, 0, taken) && match taken {
            Err(_) => end == scene(start.settings, sent) && r is Ok,
            Ok(_) => io_functions_counted(scene(start.settings, sent), end, r),
        }
}

fn poll_io_conditions<B: Bus>(
    bus: &mut B,
    record: &mut Ghost<Record>,
    settings: &mut Settings,
    ocr: u32,
) -> (r: Result<(), MciError>)
    ensures
        io_conditions_polled(
            scene(*old(settings), old(record)@),
            scene(*final(settings), final(record)@),
            ocr,
            r,
        ),
{
    let arg = ocr & ocr_voltage_support().val;
    match poll(bus, record, SDIO_CMD5_SEND_OP_COND, arg, 31, SDIO_OCR_ATTEMPTS) {
        Err(e) => Err(e),
        Ok(None) => Err(MciError::Impl(ImplError::TimedOut)),
        Ok(Some(val)) => {
            let answer = OcrRegister { val };
            settings.card_type.set_sdio(true);
            if answer.memory_present() {
                settings.card_type.set_sd(true);
            }
            Ok(())
        },
    }
}

fn count_io_functions<B: Bus>(
    bus: &mut B,
    record: &mut Ghost<Record>,
    settings: &mut Settings,
) -> (r: Result<(), MciError>)
    ensures
        io_functions_counted(
            scene(*old(settings), old(record)@),
            scene(*final(settings), final(record)@),
            r,
        ),
{
    let ghost now = scene(*settings, record@);
    let fetched = response(bus, record);
    assert(status_fetched(now.record, record@, fetched));
    let answer = match fetched {
        Err(e) => {
            return Err(e);
        },
        Ok(val) => OcrRegister { val },
    };
    if !answer.number_of_io_functions() {
        return Ok(());
    }
    poll_io_conditions(bus, record, settings, answer.val)
}

/// Asks the card whether it is an I/O card, and notes it as one where it is.
pub fn seek_io_card<B: Bus>(bus: &mut B, record: &mut Ghost<Record>, settings: &mut Settings) -> (r:
    Result<(), MciError>)
    ensures
        io_card_sought(
            scene(*old(settings), old(record)@),
            scene(*final(settings), final(record)@),
            r,
        ),
{
    let ghost start = scene(*settings, record@);
    let taken = command(bus, record, SDIO_CMD5_SEND_OP_COND, 0);
    assert(commanded(start.record, record@, SDIO_CMD5_SEND_OP_COND, 0, taken));
    if taken.is_err() {
        return Ok(());
    }
    count_io_functions(bus, record, settings)
}

/// The calls of a direct I/O command: the command with its argument, then
/// the fetch of the response.
pub open spec fn direct_script(arg: u32) -> Seq<Call> {
    seq![Call::Command { cmd: SDIO_CMD52_IO_RW_DIRECT, arg }, Call::Response]
}

/// The record grew by an attempt at a direct I/O command, and `r` is its
/// outcome: the error of the call that failed, else the low byte of the
/// response.
pub open spec fn byte_exchanged(before: Record, after: Record, arg: u32, r: Result<
    u8,
    MciError,
>) -> bool {
    let run = added(before, after);
    &&& continues(before, after)
    &&& attempt(direct_script(arg), run)
    &&& match r {
        Err(e) => failure(run) == Some(e),
        Ok(byte) => failure(run) is None && run[1].reply is Word && byte == bits32(
            run[1].reply->Word_0,
            0,
            8,
        ),
    }
}

/// Reads or writes one register of an I/O card. The address must fit the 17
/// bits that the command has for it.
pub fn exchange_byte<B: Bus>(
    bus: &mut B,
    record: &mut Ghost<Record>,
    direction: Direction,
    function: FunctionSelection,
    register_address: u32,
    read_after_write: bool,
    write_data: u8,
) -> (r: Result<u8, MciError>)
    requires
        register_address <= SDIO_ADDRESS_LIMIT,
    ensures
        byte_exchanged(
            old(record)@,
            final(record)@,
            direct_argument(direction, function, register_address, read_after_write, write_data),
            r,
        ),
{
    proof {
        lemma_nothing_added(record@);
    }
    let arg = direct_access(direction, function, register_address, read_after_write, write_data);
    if let Err(e) = command(bus, record, SDIO_CMD52_IO_RW_DIRECT, arg.val) {
        return Err(e);
    }
    match response(bus, record) {
        Err(e) => Err(e),
        Ok(word) => Ok(field_u32(word, 0, 8) as u8),
    }
}

/// The argument that reads the register at `address` of the common I/O
/// area.
pub open spec fn cia_argument(address: int) -> u32 {
    direct_argument(Direction::Read, FunctionSelection::FunctionCia0, address as u32, false, 0)
}

/// The common I/O area was read from `address` on into `data`, `count`
/// bytes, one direct I/O command for each; `r` is the outcome. The bytes
/// that came before a failure are in `data` too.
pub open spec fn cia_read(
    before: Record,
    after: Record,
    address: u32,
    count: int,
    data: Seq<u8>,
    r: Result<(), MciError>,
) -> bool {
    exists|steps: Seq<Record>|
        {
            &&& #[trigger] steps.len() >= 1
            &&& steps.len() <= count + 1
            &&& steps[0] == before
            &&& steps.last() == after
            &&& forall|i: int|
                0 <= i < steps.len() - 1 ==> byte_exchanged(
                    #[trigger] steps[i],
                    steps[i + 1],
                    cia_argument(address + i),
                    if i < steps.len() - 2 || r is Ok {
                        Ok::<u8, MciError>(data[i])
                    } else {
                        Err::<u8, MciError>(r->Err_0)
                    },
                )
            &&& r is Ok ==> steps.len() == count + 1
            &&& r is Err ==> steps.len() >= 2
        }
}

/// Reads `byte_count` bytes of the common I/O area from `address` on into
/// `buf`. Every address read must fit the 17 bits that the command has for
/// it.
pub fn read_cia<B: Bus>(
    bus: &mut B,
    record: &mut Ghost<Record>,
    address: u32,
    buf: &mut [u8],
    byte_count: usize,
) -> (r: Result<(), MciError>)
    requires
        address + byte_count <= SDIO_ADDRESS_LIMIT + 1,
    ensures
        final(buf)@.len() == old(buf)@.len(),
        byte_count > old(buf)@.len() ==> r == Err::<(), MciError>(
            MciError::Impl(ImplError::InvalidConfiguration),
        ) && final(record)@ == old(record)@ && final(buf)@ == old(buf)@,
        byte_count <= old(buf)@.len() ==> cia_read(
            old(record)@,
            final(record)@,
            address,
            byte_count as int,
            final(buf)@,
            r,
        ),
        forall|i: int| byte_count <= i < old(buf)@.len() ==> final(buf)@[i] == old(buf)@[i],
{
    if byte_count > buf.len() {
        return Err(MciError::Impl(ImplError::InvalidConfiguration));
    }
    let ghost start = record@;
    let ghost mut steps: Seq<Record> = seq![start];
    let mut i: usize = 0;
    while i < byte_count
        invariant
            i <= byte_count <= buf@.len(),
            buf@.len() == old(buf)@.len(),
            address + byte_count <= SDIO_ADDRESS_LIMIT + 1,
            start == old(record)@,
            steps.len() == i + 1,
            steps[0] == start,
            steps.last() == record@,
            forall|k: int|
                0 <= k < i ==> byte_exchanged(
                    #[trigger] steps[k],
                    steps[k + 1],
                    cia_argument(address + k),
                    Ok::<u8, MciError>(buf@[k]),
                ),
            forall|k: int| byte_count <= k < buf@.len() ==> buf@[k] == old(buf)@[k],
        decreases byte_count - i,
    {
        let ghost held = buf@;
        let answer = exchange_byte(
            bus,
            record,
            Direction::Read,
            FunctionSelection::FunctionCia0,
            address + (i as u32),
            false,
            0,
        );
        let ghost longer = steps.push(record@);
        match answer {
            Err(e) => {
                proof {
                    assert forall|k: int| 0 <= k < longer.len() - 1 implies byte_exchanged(
                        #[trigger] longer[k],
                        longer[k + 1],
                        cia_argument(address + k),
                        if k < longer.len() - 2 {
                            Ok::<u8, MciError>(buf@[k])
                        } else {
                            Err::<u8, MciError>(e)
                        },
                    ) by {
                        if k < i {
                            assert(longer[k] == steps[k]);
                            assert(longer[k + 1] == steps[k + 1]);
                        }
                    }
                    assert(longer.len() >= 1);
                }
                return Err(e);
            },
            Ok(byte) => {
                buf[i] = byte;
                proof {
                    assert forall|k: int| 0 <= k < i + 1 implies byte_exchanged(
                        #[trigger] longer[k],
                        longer[k + 1],
                        cia_argument(address + k),
                        Ok::<u8, MciError>(buf@[k]),
                    ) by {
                        if k < i {
                            assert(longer[k] == steps[k]);
                            assert(longer[k + 1] == steps[k + 1]);
                            assert(buf@[k] == held[k]);
                        }
                    }
                    steps = longer;
                }
            },
        }
        i += 1;
    }
    proof {
        assert(steps.len() >= 1);
    }
    Ok(())
}

/// Four bytes as a word, the first byte lowest.
pub open spec fn le32(b0: u8, b1: u8, b2: u8, b3: u8) -> int {
    b0 + b1 * 0x100 + b2 * 0x1_0000 + b3 * 0x100_0000
}

/// The outcome of reading a word, without the word.
pub open spec fn without_word(r: Result<u32, MciError>) -> Result<(), MciError> {
    match r {
        Ok(_) => Ok(()),
        Err(e) => Err(e),
    }
}

/// The common I/O area was read as a word of four bytes from `address` on,
/// the first byte lowest.
pub open spec fn cia_word_read(before: Record, after: Record, address: u32, r: Result<
    u32,
    MciError,
>) -> bool {
    exists|data: Seq<u8>| #[trigger]
        cia_read(before, after, address, 4, data, without_word(r)) && data.len() == 4 && (r is Ok
            ==> r->Ok_0 == le32(data[0], data[1], data[2], data[3]))
}

/// Reads four bytes of the common I/O area as a word, the first byte lowest.
pub fn read_cia_word<B: Bus>(bus: &mut B, record: &mut Ghost<Record>, address: u32) -> (r: Result<
    u32,
    MciError,
>)
    requires
        address + 4 <= SDIO_ADDRESS_LIMIT + 1,
    ensures
        cia_word_read(old(record)@, final(record)@, address, r),
{
    let mut buf = [0u8; 4];
    let read = read_cia(bus, record, address, &mut buf, 4);
    proof {
        lemma_done(read);
    }
    match read {
        Err(e) => {
            assert(cia_read(old(record)@, record@, address, 4, buf@, Err::<(), MciError>(e)));
            Err(e)
        },
        Ok(()) => {
            assert(cia_read(old(record)@, record@, address, 4, buf@, Ok::<(), MciError>(())));
            Ok(
                (buf[0] as u32) + (buf[1] as u32) * 0x100 + (buf[2] as u32) * 0x1_0000 + (
                buf[3] as u32) * 0x100_0000,
            )
        },
    }
}

/// The transfer speed code that is decoded: a code above 0x32 is taken as
/// 0x32, since cards are known that report more than they can do.
pub open spec fn sound_speed(code: u8) -> u8 {
    if code > 0x32 {
        0x32
    } else {
        code
    }
}

/// The function extension tuple of function 0 was looked for from `addr` on,
/// in a card information structure that starts at `cis`; `found` is the
/// address of the tuple. The first four bytes of the tuple at `addr` are
/// read. A read that fails ends the search. The end tuple, a tuple without
/// a body, a tuple whose successor lies more than 256 bytes behind `cis`,
/// and an address that a command cannot carry end the search without the
/// tuple. A function extension tuple whose body starts with 0 is what was
/// looked for. Else the search goes on behind the tuple, which is two bytes
/// and its body long.
pub open spec fn tuple_sought(
    before: Record,
    after: Record,
    cis: u32,
    addr: u32,
    found: Result<u32, MciError>,
) -> bool
    decreases cis + SDIO_TUPLE_ROOM - addr,
{
    if addr > SDIO_ADDRESS_LIMIT - 5 {
        after == before && found == Err::<u32, MciError>(MciError::CiaCouldNotFindTuple)
    } else {
        exists|read: Record, head: Seq<u8>, got: Result<(), MciError>| #[trigger]
            cia_read(before, read, addr, 4, head, got) && head.len() == 4 && match got {
                Err(e) => after == read && found == Err::<u32, MciError>(e),
                Ok(_) => if head[0] == SDIO_CISTPL_END {
                    after == read && found == Err::<u32, MciError>(MciError::CiaCouldNotFindTuple)
                } else if head[0] == SDIO_CISTPL_FUNCE && head[2] == 0 {
                    after == read && found == Ok::<u32, MciError>(addr)
                } else if head[1] == 0 || addr + head[1] + 2 > cis + SDIO_TUPLE_ROOM {
                    after == read && found == Err::<u32, MciError>(MciError::CiaCouldNotFindTuple)
                } else {
                    tuple_sought(read, after, cis, (addr + head[1] + 2) as u32, found)
                },
            }
    }
}

/// The last stage of the look-up of the maximum speed: the first six bytes
/// of the tuple at `addr` are read, and the last of them is the transfer
/// speed code that gives the clock.
pub open spec fn speed_read(now: Scene, end: Scene, addr: u32, r: Result<(), MciError>) -> bool {
    exists|tuple: Seq<u8>| #[trigger]
        cia_read(now.record, end.record, addr, 6, tuple, r) && tuple.len() == 6 && (if r is Ok {
            end.settings == (Settings { clock: end.settings.clock, ..now.settings })
                && end.settings.clock == clock_of(sound_speed(tuple[5]), false)
        } else {
            end.settings == now.settings
        })
}

/// The maximum speed of an I/O card was looked up in its card information
/// structure, and `r` is the outcome. The address of the structure is read
/// from the common control registers; the function extension tuple of
/// function 0 is looked for from there on; and the transfer speed code of
/// the tuple gives the clock. A stage that fails ends the look-up with its
/// error and leaves the card as it was.
pub open spec fn max_speed_taken(start: Scene, end: Scene, r: Result<(), MciError>) -> bool {
    exists|pointed: Record, pointer: Result<u32, MciError>| #[trigger]
        cia_word_read(start.record, pointed, SDIO_CCCR_CIS_PTR, pointer) && match pointer {
            Err(e) => end == scene(start.settings, pointed) && r == Err::<(), MciError>(e),
            Ok(cis) => exists|sought: Record, found: Result<u32, MciError>| #[trigger]
                tuple_sought(pointed, sought, cis, cis, found) && match found {
                    Err(e) => end == scene(start.settings, sought) && r == Err::<(), MciError>(e),
                    Ok(addr) => speed_read(scene(start.settings, sought), end, addr, r),
                },
        }
}

/// Looks for the function extension tuple of function 0 from `addr` on.
fn seek_tuple<B: Bus>(bus: &mut B, record: &mut Ghost<Record>, cis_address: u32, addr: u32) -> (r:
    Result<u32, MciError>)
    requires
        cis_address <= addr <= cis_address + SDIO_TUPLE_ROOM,
    ensures
        tuple_sought(old(record)@, final(record)@, cis_address, addr, r),
    decreases cis_address + SDIO_TUPLE_ROOM - addr,
{
    if addr > SDIO_ADDRESS_LIMIT - 5 {
        return Err(MciError::CiaCouldNotFindTuple);
    }
    let mut head = [0u8; 4];
    let got = read_cia(bus, record, addr, &mut head, 4);
    proof {
        lemma_done(got);
        assert(cia_read(old(record)@, record@, addr, 4, head@, got));
    }
    if let Err(e) = got {
        return Err(e);
    }
    if head[0] == SDIO_CISTPL_END {
        return Err(MciError::CiaCouldNotFindTuple);
    }
    if head[0] == SDIO_CISTPL_FUNCE && head[2] == 0x0 {
        return Ok(addr);
    }
    if head[1] == 0 {
        return Err(MciError::CiaCouldNotFindTuple);
    }
    let next = addr + (head[1] as u32) + 2;
    if next > cis_address + SDIO_TUPLE_ROOM {
        return Err(MciError::CiaCouldNotFindTuple);
    }
    seek_tuple(bus, record, cis_address, next)
}

/// Reads the transfer speed code of the tuple at `addr` and notes the clock
/// that it gives.
fn read_speed<B: Bus>(
    bus: &mut B,
    record: &mut Ghost<Record>,
    settings: &mut Settings,
    addr: u32,
) -> (r: Result<(), MciError>)
    requires
        addr <= SDIO_ADDRESS_LIMIT - 5,
    ensures
        speed_read(
            scene(*old(settings), old(record)@),
            scene(*final(settings), final(record)@),
            addr,
            r,
        ),
{
    let ghost now = scene(*settings, record@);
    let mut tuple = [0u8; 6];
    let got = read_cia(bus, record, addr, &mut tuple, 6);
    proof {
        lemma_done(got);
    }
    let r = match got {
        Err(e) => Err(e),
        Ok(()) => {
            let speed = if tuple[5] > 0x32 {
                0x32
            } else {
                tuple[5]
            };
            settings.clock = max_clock(speed, false);
            Ok(())
        },
    };
    proof {
        let end = scene(*settings, record@);
        assert(cia_read(now.record, end.record, addr, 6, tuple@, r));
    }
    r
}

/// Looks the maximum speed of an I/O card up in its card information
/// structure, and notes it as the clock. The tuple chain is followed from
/// the address that the common control registers give, each tuple being its
/// code, the length of its body, and the body.
pub fn take_max_speed<B: Bus>(bus: &mut B, record: &mut Ghost<Record>, settings: &mut Settings) -> (r:
    Result<(), MciError>)
    ensures
        max_speed_taken(
            scene(*old(settings), old(record)@),
            scene(*final(settings), final(record)@),
            r,
        ),
{
    let ghost start = scene(*settings, record@);
    let pointer = read_cia_word(bus, record, SDIO_CCCR_CIS_PTR);
    let ghost pointed = record@;
    assert(cia_word_read(start.record, pointed, SDIO_CCCR_CIS_PTR, pointer));
    let cis_address = match pointer {
        Err(e) => {
            return Err(e);
        },
        Ok(address) => address,
    };
    let found = seek_tuple(bus, record, cis_address, cis_address);
    let addr = match found {
        Err(e) => {
            return Err(e);
        },
        Ok(addr) => addr,
    };
    proof {
        lemma_found_can_be_read(pointed, record@, cis_address, cis_address, addr);
    }
    read_speed(bus, record, settings, addr)
}

/// A tuple that was found lies at an address from which six bytes can be
/// read.
proof fn lemma_found_can_be_read(before: Record, after: Record, cis: u32, addr: u32, found: u32)
    requires
        tuple_sought(before, after, cis, addr, Ok::<u32, MciError>(found)),
    ensures
        found <= SDIO_ADDRESS_LIMIT - 5,
    decreases cis + SDIO_TUPLE_ROOM - addr,
{
    if addr <= SDIO_ADDRESS_LIMIT - 5 {
        let (read, head, got) = choose|read: Record, head: Seq<u8>, got: Result<(), MciError>| #[trigger]
            cia_read(before, read, addr, 4, head, got) && head.len() == 4 && match got {
                Err(e) => after == read && Ok::<u32, MciError>(found) == Err::<u32, MciError>(e),
                Ok(_) => if head[0] == SDIO_CISTPL_END {
                    after == read && Ok::<u32, MciError>(found) == Err::<u32, MciError>(
                        MciError::CiaCouldNotFindTuple,
                    )
                } else if head[0] == SDIO_CISTPL_FUNCE && head[2] == 0 {
                    after == read && Ok::<u32, MciError>(found) == Ok::<u32, MciError>(addr)
                } else if head[1] == 0 || addr + head[1] + 2 > cis + SDIO_TUPLE_ROOM {
                    after == read && Ok::<u32, MciError>(found) == Err::<u32, MciError>(
                        MciError::CiaCouldNotFindTuple,
                    )
                } else {
                    tuple_sought(
                        read,
                        after,
                        cis,
                        (addr + head[1] + 2) as u32,
                        Ok::<u32, MciError>(found),
                    )
                },
            };
        if got is Ok && !(head[0] == SDIO_CISTPL_END) && !(head[0] == SDIO_CISTPL_FUNCE && head[2]
            == 0) && !(head[1] == 0 || addr + head[1] + 2 > cis + SDIO_TUPLE_ROOM) {
            lemma_found_can_be_read(read, after, cis, (addr + head[1] + 2) as u32, found);
        }
    }
}

/// The values that the driver writes into the bus interface control
/// register and into the high-speed register.
proof fn lemma_register_values()
    by (bit_vector)
    ensures
        crate::bits::with_bits8(0, 0, 2, 2) == 2u8,
        with_bit8(0, 1, true) == 2u8,
{
}

/// The argument that writes `value` into the register at `address` of the
/// common I/O area and reads it back.
pub open spec fn cia_write_argument(address: u32, value: u8) -> u32 {
    direct_argument(Direction::Write, FunctionSelection::FunctionCia0, address, true, value)
}

/// An I/O card was asked to use four data lines, and `r` is the width that
/// the card uses from then on. The card capability register is read; a card
/// whose bit 7 is clear stays at one data line. Else the code of four data
/// lines is written into the bus interface control register, and the width
/// is noted.
pub open spec fn io_bus_widened(start: Scene, end: Scene, r: Result<BusWidth, MciError>) -> bool {
    exists|asked: Record, capability: Result<u8, MciError>| #[trigger]
        byte_exchanged(start.record, asked, cia_argument(0x08), capability) && match capability {
            Err(e) => end == scene(start.settings, asked) && r == Err::<BusWidth, MciError>(e),
            Ok(capability) => if !bit8(capability, 7) {
                end == scene(start.settings, asked) && r == Ok::<BusWidth, MciError>(
                    BusWidth::_1BIT,
                )
            } else {
                exists|echo: Result<u8, MciError>| #[trigger]
                    byte_exchanged(asked, end.record, cia_write_argument(0x07, 2), echo)
                        && match echo {
                        Err(e) => end.settings == start.settings && r == Err::<
                            BusWidth,
                            MciError,
                        >(e),
                        Ok(_) => end.settings == (Settings {
                            bus_width: BusWidth::_4BIT,
                            ..start.settings
                        }) && r == Ok::<BusWidth, MciError>(BusWidth::_4BIT),
                    }
            },
        }
}

/// Asks an I/O card to use four data lines.
pub fn widen_io_bus<B: Bus>(bus: &mut B, record: &mut Ghost<Record>, settings: &mut Settings) -> (r:
    Result<BusWidth, MciError>)
    ensures
        io_bus_widened(
            scene(*old(settings), old(record)@),
            scene(*final(settings), final(record)@),
            r,
        ),
{
    let ghost start = scene(*settings, record@);
    let capability = exchange_byte(
        bus,
        record,
        Direction::Read,
        FunctionSelection::FunctionCia0,
        0x08,
        false,
        0,
    );
    let ghost asked = record@;
    assert(byte_exchanged(start.record, asked, cia_argument(0x08), capability));
    let capability = match capability {
        Err(e) => {
            return Err(e);
        },
        Ok(val) => crate::registers::sdio::cccr::card_capability::CardCapabilityRegister { val },
    };
    if !capability.low_speed_card_supports_4bit_mode() {
        return Ok(BusWidth::_1BIT);
    }
    let mut bus_ctrl = crate::registers::sdio::cccr::bus_interface::BusInterfaceControlRegister {
        val: 0,
    };
    bus_ctrl.set_bus_width(crate::registers::sdio::cccr::bus_interface::BusWidth::_4bit);
    proof {
        lemma_register_values();
    }
    let echo = exchange_byte(
        bus,
        record,
        Direction::Write,
        FunctionSelection::FunctionCia0,
        0x07,
        true,
        bus_ctrl.val,
    );
    let r = match echo {
        Err(e) => Err(e),
        Ok(_) => {
            settings.bus_width = BusWidth::_4BIT;
            Ok(BusWidth::_4BIT)
        },
    };
    proof {
        let end = scene(*settings, record@);
        assert(byte_exchanged(asked, end.record, cia_write_argument(0x07, 2), echo));
    }
    r
}

/// An I/O card was asked to run at high speed, and `r` tells whether it does
/// from then on. The high-speed register is read; a card whose bit 0 is
/// clear stays as it is, and that is no fault. Else the enable bit is
/// written into the register, and the speed and the doubled clock are
/// noted.
pub open spec fn io_high_speed_taken(start: Scene, end: Scene, r: Result<bool, MciError>) -> bool {
    exists|asked: Record, support: Result<u8, MciError>| #[trigger]
        byte_exchanged(start.record, asked, cia_argument(0x13), support) && match support {
            Err(e) => end == scene(start.settings, asked) && r == Err::<bool, MciError>(e),
            Ok(support) => if !bit8(support, 0) {
                end == scene(start.settings, asked) && r == Ok::<bool, MciError>(false)
            } else {
                exists|echo: Result<u8, MciError>| #[trigger]
                    byte_exchanged(asked, end.record, cia_write_argument(0x13, 2), echo)
                        && match echo {
                        Err(e) => end.settings == start.settings && r == Err::<bool, MciError>(e),
                        Ok(_) => end.settings == (Settings {
                            high_speed: true,
                            clock: end.settings.clock,
                            ..start.settings
                        }) && end.settings.clock == 2 * start.settings.clock && r == Ok::<
                            bool,
                            MciError,
                        >(true),
                    }
            },
        }
}

/// Asks an I/O card to run at high speed. The clock that is to be doubled
/// must fit 32 bits.
pub fn take_io_high_speed<B: Bus>(
    bus: &mut B,
    record: &mut Ghost<Record>,
    settings: &mut Settings,
) -> (r: Result<bool, MciError>)
    requires
        2 * old(settings).clock <= u32::MAX,
    ensures
        io_high_speed_taken(
            scene(*old(settings), old(record)@),
            scene(*final(settings), final(record)@),
            r,
        ),
{
    let ghost start = scene(*settings, record@);
    let support = exchange_byte(
        bus,
        record,
        Direction::Read,
        FunctionSelection::FunctionCia0,
        0x13,
        false,
        0,
    );
    let ghost asked = record@;
    assert(byte_exchanged(start.record, asked, cia_argument(0x13), support));
    let support = match support {
        Err(e) => {
            return Err(e);
        },
        Ok(val) => crate::registers::sdio::cccr::high_speed::HighSpeedRegister { val },
    };
    if !support.supports_high_speed() {
        return Ok(false);
    }
    let mut enable = crate::registers::sdio::cccr::high_speed::HighSpeedRegister { val: 0 };
    enable.set_enable_high_speed(true);
    proof {
        lemma_register_values();
    }
    let echo = exchange_byte(
        bus,
        record,
        Direction::Write,
        FunctionSelection::FunctionCia0,
        0x13,
        true,
        enable.val,
    );
    let r = match echo {
        Err(e) => Err(e),
        Ok(_) => {
            settings.high_speed = true;
            settings.clock = settings.clock * 2;
            Ok(true)
        },
    };
    proof {
        let end = scene(*settings, record@);
        assert(byte_exchanged(asked, end.record, cia_write_argument(0x13, 2), echo));
    }
    r
}

/// The command of an extended I/O transfer in byte mode.
pub open spec fn extended_command(direction: Direction) -> u32 {
    if direction is Read {
        SDIO_CMD53_IO_R_BYTE_EXTENDED
    } else {
        SDIO_CMD53_IO_W_BYTE_EXTENDED
    }
}

/// An extended I/O transfer of `data_size` bytes was started, and `r` is the
/// outcome. A size of zero or of more than 512 bytes is refused and nothing
/// is asked of the transport.
pub open spec fn extended_started(
    before: Record,
    after: Record,
    direction: Direction,
    function: FunctionSelection,
    register_address: u16,
    increment_address: bool,
    data_size: u16,
    access_block: bool,
    r: Result<(), MciError>,
) -> bool {
    if data_size == 0 || data_size > 512 {
        after == before && r == Err::<(), MciError>(MciError::IncorrectDataSize)
    } else {
        grown_by(
            before,
            after,
            Exchange {
                call: Call::AdtcStart {
                    cmd: extended_command(direction),
                    arg: extended_argument(
                        direction,
                        function,
                        register_address,
                        increment_address,
                        data_size,
                    ),
                    block_size: data_size,
                    block_amount: 1,
                    access_in_blocks: access_block,
                },
                reply: done_or_failed(r),
            },
        )
    }
}

/// Starts an extended I/O transfer in byte mode, which moves 1 to 512 bytes
/// much as a single block moves.
pub fn start_extended<B: Adtc>(
    bus: &mut B,
    record: &mut Ghost<Record>,
    direction: Direction,
    function: FunctionSelection,
    register_address: u16,
    increment_address: bool,
    data_size: u16,
    access_block: bool,
) -> (r: Result<(), MciError>)
    ensures
        extended_started(
            old(record)@,
            final(record)@,
            direction,
            function,
            register_address,
            increment_address,
            data_size,
            access_block,
            r,
        ),
{
    let command: u32 = match direction {
        Direction::Read => SDIO_CMD53_IO_R_BYTE_EXTENDED,
        Direction::Write => SDIO_CMD53_IO_W_BYTE_EXTENDED,
    };
    if data_size == 0 || data_size > 512 {
        return Err(MciError::IncorrectDataSize);
    }
    let arg = extended_access(direction, function, register_address, increment_address, data_size);
    adtc_start(bus, record, command, arg.val, data_size, 1, access_block)
}

/// The outcome of a direct write, without the byte that came back.
pub open spec fn without_byte(r: Result<u8, MciError>) -> Result<(), MciError> {
    match r {
        Ok(_) => Ok(()),
        Err(e) => Err(e),
    }
}

/// The device was selected and one register of an I/O card was read or
/// written with the argument `arg`; `r` is the byte that came back. Where
/// the device cannot be selected nothing else is asked.
pub open spec fn register_accessed(before: Record, after: Record, line: Line, arg: u32, r: Result<
    u8,
    MciError,
>) -> bool {
    exists|selected: Record, chosen: Result<(), MciError>| #[trigger]
        device_selected(before, selected, line, chosen) && match chosen {
            Err(e) => after == selected && r == Err::<u8, MciError>(e),
            Ok(_) => byte_exchanged(selected, after, arg, r),
        }
}

/// Selects the device and reads or writes one register of an I/O card.
pub fn access_register<B: Bus>(
    bus: &mut B,
    record: &mut Ghost<Record>,
    line: &Line,
    direction: Direction,
    function: FunctionSelection,
    address: u32,
    data: u8,
) -> (r: Result<u8, MciError>)
    requires
        address <= SDIO_ADDRESS_LIMIT,
    ensures
        register_accessed(
            old(record)@,
            final(record)@,
            *line,
            direct_argument(direction, function, address, false, data),
            r,
        ),
{
    if let Err(e) = select_device(bus, record, line) {
        return Err(e);
    }
    exchange_byte(bus, record, direction, function, address, false, data)
}

/// The calls that move the data of an extended read: the blocks, then the
/// wait for the end.
pub open spec fn data_in_script(len: int) -> Seq<Call> {
    seq![Call::ReadBlocks { len }, Call::WaitRead]
}

/// The calls that move the data of an extended write: the blocks, then the
/// wait for the end.
pub open spec fn data_out_script(data: Seq<u8>) -> Seq<Call> {
    seq![Call::WriteBlocks { data }, Call::WaitWrite]
}

/// The device was selected, an extended read of `size` bytes was started,
/// and the data was read into a buffer that now holds `data`. A stage that
/// fails ends the sequence with its error.
pub open spec fn extended_read(
    before: Record,
    after: Record,
    line: Line,
    function: FunctionSelection,
    address: u16,
    increment_address: bool,
    size: u16,
    data: Seq<u8>,
    r: Result<(), MciError>,
) -> bool {
    exists|selected: Record, chosen: Result<(), MciError>| #[trigger]
        device_selected(before, selected, line, chosen) && match chosen {
            Err(e) => after == selected && r == Err::<(), MciError>(e),
            Ok(_) => exists|begun: Record, started: Result<(), MciError>| #[trigger]
                extended_started(
                    selected,
                    begun,
                    Direction::Read,
                    function,
                    address,
                    increment_address,
                    size,
                    true,
                    started,
                ) && match started {
                    Err(e) => after == begun && r == Err::<(), MciError>(e),
                    Ok(_) => {
                        &&& continues(begun, after)
                        &&& attempt(data_in_script(data.len() as int), added(begun, after))
                        &&& match r {
                            Err(e) => failure(added(begun, after)) == Some(e),
                            Ok(_) => failure(added(begun, after)) is None && added(
                                begun,
                                after,
                            )[0].reply == Reply::Bytes(data),
                        }
                    },
                },
        }
}

/// Reads `size` bytes from an I/O function into `destination`.
pub fn read_extended<B: Bus + Adtc + Read>(
    bus: &mut B,
    record: &mut Ghost<Record>,
    line: &Line,
    function: FunctionSelection,
    address: u16,
    increment_address: bool,
    destination: &mut [u8],
    size: u16,
) -> (r: Result<(), MciError>)
    ensures
        final(destination)@.len() == old(destination)@.len(),
        extended_read(
            old(record)@,
            final(record)@,
            *line,
            function,
            address,
            increment_address,
            size,
            final(destination)@,
            r,
        ),
{
    if let Err(e) = select_device(bus, record, line) {
        return Err(e);
    }
    let ghost selected = record@;
    let started = start_extended(
        bus,
        record,
        Direction::Read,
        function,
        address,
        increment_address,
        size,
        true,
    );
    if let Err(e) = started {
        return Err(e);
    }
    proof {
        lemma_done(started);
        lemma_nothing_added(record@);
    }
    if let Err(e) = read_blocks(bus, record, destination) {
        return Err(e);
    }
    let waited = wait_read(bus, record);
    match waited {
        Err(e) => Err(e),
        Ok(_) => Ok(()),
    }
}

/// The device was selected, an extended write of `size` bytes was started,
/// and `data` was written. A stage that fails ends the sequence with its
/// error.
pub open spec fn extended_written(
    before: Record,
    after: Record,
    line: Line,
    function: FunctionSelection,
    address: u16,
    increment_address: bool,
    size: u16,
    data: Seq<u8>,
    r: Result<(), MciError>,
) -> bool {
    exists|selected: Record, chosen: Result<(), MciError>| #[trigger]
        device_selected(before, selected, line, chosen) && match chosen {
            Err(e) => after == selected && r == Err::<(), MciError>(e),
            Ok(_) => exists|begun: Record, started: Result<(), MciError>| #[trigger]
                extended_started(
                    selected,
                    begun,
                    Direction::Write,
                    function,
                    address,
                    increment_address,
                    size,
                    true,
                    started,
                ) && match started {
                    Err(e) => after == begun && r == Err::<(), MciError>(e),
                    Ok(_) => {
                        &&& continues(begun, after)
                        &&& attempt(data_out_script(data), added(begun, after))
                        &&& match r {
                            Err(e) => failure(added(begun, after)) == Some(e),
                            Ok(_) => failure(added(begun, after)) is None,
                        }
                    },
                },
        }
}

/// Writes `size` bytes from `source` to an I/O function.
pub fn write_extended<B: Bus + Adtc + Write>(
    bus: &mut B,
    record: &mut Ghost<Record>,
    line: &Line,
    function: FunctionSelection,
    address: u16,
    increment_address: bool,
    source: &[u8],
    size: u16,
) -> (r: Result<(), MciError>)
    ensures
        extended_written(
            old(record)@,
            final(record)@,
            *line,
            function,
            address,
            increment_address,
            size,
            source@,
            r,
        ),
{
    if let Err(e) = select_device(bus, record, line) {
        return Err(e);
    }
    let started = start_extended(
        bus,
        record,
        Direction::Write,
        function,
        address,
        increment_address,
        size,
        true,
    );
    if let Err(e) = started {
        return Err(e);
    }
    proof {
        lemma_done(started);
        lemma_nothing_added(record@);
    }
    if let Err(e) = write_blocks(bus, record, source) {
        return Err(e);
    }
    let waited = wait_write(bus, record);
    match waited {
        Err(e) => Err(e),
        Ok(_) => Ok(()),
    }
}

} // verus!
