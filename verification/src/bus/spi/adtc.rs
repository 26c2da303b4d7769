//! Commands over SPI: the checksum, the command frame, and the reading of
//! the response.

use vstd::prelude::*;
use crate::bits::{bit32, bit8, bits32, field_u32};
use crate::bus::recorded::{continues, lemma_nothing_added, lemma_one_added};
use crate::bus::spi::bus::{busy_waited, bytes_out, read, word_read, Out, SpiBus, SpiView};
use crate::bus::spi::port::SerialPort;
use crate::bus::spi::response::{check_r1, r1_error};
use crate::bus::Adtc;
use crate::command_arguments::mci_command::MciCommand;
use crate::error::{CommandOrDataError, MciError};
use crate::pin::OutputPin;

verus! {

/// The checksum register after bit `i` of `byte`, counted from the highest
/// bit: the register moves up by one bit, and the polynomial 0x09 is added
/// where the incoming bit and the highest bit of the register differ.
pub open spec fn crc7_step(crc: u8, byte: u8, i: u8) -> u8 {
    let moved = crc << 1;
    if ((byte << i) & 0x80) ^ (moved & 0x80) != 0 {
        moved ^ 0x09
    } else {
        moved
    }
}

/// The checksum register after the first `n` bits of `byte`.
pub open spec fn crc7_bits(crc: u8, byte: u8, n: nat) -> u8
    decreases n,
{
    if n == 0 {
        crc
    } else {
        crc7_step(crc7_bits(crc, byte, (n - 1) as nat), byte, (n - 1) as u8)
    }
}

/// The checksum register after all bytes of `data`, starting from zero.
pub open spec fn crc7_register(data: Seq<u8>) -> u8
    decreases data.len(),
{
    if data.len() == 0 {
        0
    } else {
        crc7_bits(crc7_register(data.drop_last()), data.last(), 8)
    }
}

/// The checksum byte of `data`: the seven bits of the register above an end
/// bit that is set.
pub open spec fn crc7_of(data: Seq<u8>) -> u8 {
    (crc7_register(data) << 1) | 1
}

/// A checksum byte has its end bit set, whatever the register holds.
pub proof fn lemma_end_bit(register: u8)
    by (bit_vector)
    ensures
        ((register << 1) | 1) & 1 == 1,
{
}

/// The checksum byte of `data`. Its lowest bit is always set.
pub fn crc7(data: &[u8]) -> (r: u8)
    ensures
        r == crc7_of(data@),
        r & 1 == 1,
{
    let mut crc = 0u8;
    let mut k: usize = 0;
    while k < data.len()
        invariant
            k <= data.len(),
            crc == crc7_register(data@.subrange(0, k as int)),
        decreases data.len() - k,
    {
        let b = data[k];
        let ghost before = crc;
        let mut i: u8 = 0;
        while i < 8
            invariant
                i <= 8,
                crc == crc7_bits(before, b, i as nat),
            decreases 8 - i,
        {
            crc = crc << 1;
            if (((b << i) & 0x80) ^ (crc & 0x80)) != 0 {
                crc = crc ^ 0x09;
            }
            i += 1;
        }
        proof {
            assert(data@.subrange(0, k + 1).drop_last() =~= data@.subrange(0, k as int));
        }
        k += 1;
    }
    proof {
        assert(data@.subrange(0, data@.len() as int) =~= data@);
        lemma_end_bit(crc);
    }
    (crc << 1) | 1
}

/// The first five bytes of a command frame: the start bits with the command
/// index, then the argument with its highest byte first.
pub open spec fn frame_head(index: u8, argument: u32) -> Seq<u8> {
    seq![
        0x40 | index,
        bits32(argument, 24, 32) as u8,
        bits32(argument, 16, 24) as u8,
        bits32(argument, 8, 16) as u8,
        bits32(argument, 0, 8) as u8,
    ]
}

/// The six bytes of a command frame: the head and its checksum.
pub open spec fn frame_of(index: u8, argument: u32) -> Seq<u8> {
    frame_head(index, argument).push(crc7_of(frame_head(index, argument)))
}

/// Builds the command frame.
pub fn command_frame(index: u8, argument: u32) -> (r: [u8; 6])
    ensures
        r@ == frame_of(index, argument),
{
    let mut head = [0u8; 5];
    head[0] = 0x40 | index;
    head[1] = field_u32(argument, 24, 32) as u8;
    head[2] = field_u32(argument, 16, 24) as u8;
    head[3] = field_u32(argument, 8, 16) as u8;
    head[4] = field_u32(argument, 0, 8) as u8;
    assert(head@ =~= frame_head(index, argument));
    let crc = crc7(&head);
    let frame = [head[0], head[1], head[2], head[3], head[4], crc];
    assert(frame@ =~= frame_of(index, argument));
    frame
}

/// The transport sent a command frame: one byte with all bits set, which
/// gives the card its eight clock cycles, then the six bytes of the frame.
/// Where the port fails nothing more is written.
pub open spec fn frame_sent(
    before: SpiView,
    after: SpiView,
    index: u8,
    argument: u32,
    r: Result<(), MciError>,
) -> bool {
    match r {
        Ok(_) => after == (SpiView {
            sent: before.sent.push(Out::Byte(0xFF)) + bytes_out(frame_of(index, argument)),
            ..before
        }),
        Err(e) => e == MciError::WriteError && (after == faulted_after(before, before.sent) || after
            == faulted_after(before, before.sent.push(Out::Byte(0xFF)))),
    }
}

/// The transport after a fault, with `sent` on the line.
pub open spec fn faulted_after(before: SpiView, sent: Seq<Out>) -> SpiView {
    SpiView { sent, faults: before.faults + 1, ..before }
}

/// The number of bytes that are read for the first response byte after the
/// one that is dropped.
pub const NCR_READS: u32 = 8;

/// The transport read the first response byte: it dropped one byte, then
/// read until a byte came without the error flag in bit 7, eight times at
/// most. Where the port fails, that is the outcome. Else the last byte read
/// is the response, and a timeout of the command where it still has the
/// error flag.
pub open spec fn r1_read(before: SpiView, after: SpiView, r: Result<u8, MciError>) -> bool {
    let h = after.heard.subrange(before.heard.len() as int, after.heard.len() as int);
    &&& after == (SpiView { heard: after.heard, faults: after.faults, ..before })
    &&& continues(before.heard, after.heard)
    &&& h.len() <= 1 + NCR_READS
    &&& forall|i: int| 1 <= i < h.len() - 1 ==> bit8(#[trigger] h[i], 7)
    &&& if after.faults != before.faults {
        &&& after.faults == before.faults + 1
        &&& r == Err::<u8, MciError>(MciError::WriteError)
        &&& h.len() >= 2 ==> bit8(h.last(), 7)
    } else {
        &&& h.len() >= 2
        &&& h.len() < 1 + NCR_READS ==> !bit8(h.last(), 7)
        &&& r == (if bit8(h.last(), 7) {
            Err::<u8, MciError>(MciError::CommandError(CommandOrDataError::Timeout))
        } else {
            Ok::<u8, MciError>(h.last())
        })
    }
}

/// The last stage of a command: the transfer is noted, the position is back
/// at zero, and the transfer has not been ended yet.
pub open spec fn transfer_noted(
    now: SpiView,
    after: SpiView,
    block_size: u16,
    num_blocks: u16,
    r: Result<(), MciError>,
) -> bool {
    r is Ok && after == (SpiView {
        block_size: block_size as usize,
        num_blocks: num_blocks as usize,
        position: 0,
        ended: false,
        ..now
    })
}

/// The stage of a command that reads four more response bytes, where the
/// command has them: they become the response, the first byte highest.
pub open spec fn long_response_read(
    now: SpiView,
    after: SpiView,
    command: u32,
    block_size: u16,
    num_blocks: u16,
    r: Result<(), MciError>,
) -> bool {
    if bit32(command, 10) {
        exists|next: SpiView, word: Result<u32, MciError>| #[trigger]
            word_read(now, next, word) && match word {
                Err(e) => after == next && r == Err::<(), MciError>(e),
                Ok(word) => transfer_noted(
                    SpiView { last_response: word, ..next },
                    after,
                    block_size,
                    num_blocks,
                    r,
                ),
            }
    } else {
        transfer_noted(now, after, block_size, num_blocks, r)
    }
}

/// The stage of a command that reads one more response byte, where the
/// command has it: it becomes the response.
pub open spec fn short_response_read(
    now: SpiView,
    after: SpiView,
    command: u32,
    block_size: u16,
    num_blocks: u16,
    r: Result<(), MciError>,
) -> bool {
    if bit32(command, 9) {
        exists|next: SpiView, byte: Result<u8, MciError>| #[trigger]
            read(now, next, byte) && match byte {
                Err(e) => after == next && r == Err::<(), MciError>(e),
                Ok(byte) => long_response_read(
                    SpiView { last_response: byte as u32, ..next },
                    after,
                    command,
                    block_size,
                    num_blocks,
                    r,
                ),
            }
    } else {
        long_response_read(now, after, command, block_size, num_blocks, r)
    }
}

/// The stage of a command that waits for the end of the busy phase, where
/// the command may have one: the line is polled until a byte is not zero.
pub open spec fn busy_phase_passed(
    now: SpiView,
    after: SpiView,
    command: u32,
    block_size: u16,
    num_blocks: u16,
    r: Result<(), MciError>,
) -> bool {
    if bit32(command, 13) {
        exists|next: SpiView, free: Result<(), MciError>| #[trigger]
            busy_waited(now, next, 0, false, free) && match free {
                Err(e) => after == next && r == Err::<(), MciError>(e),
                Ok(_) => short_response_read(next, after, command, block_size, num_blocks, r),
            }
    } else {
        short_response_read(now, after, command, block_size, num_blocks, r)
    }
}

/// The stage of a command that follows the first response byte: the byte is
/// kept as the response, and what it says against the command is the
/// outcome.
pub open spec fn r1_taken(
    now: SpiView,
    after: SpiView,
    r1: u8,
    command: u32,
    block_size: u16,
    num_blocks: u16,
    r: Result<(), MciError>,
) -> bool {
    let kept = SpiView { last_response: r1 as u32, ..now };
    match r1_error(r1) {
        Some(e) => after == kept && r == Err::<(), MciError>(e),
        None => busy_phase_passed(kept, after, command, block_size, num_blocks, r),
    }
}

/// The transport sent the command and read its response, and `r` is the
/// outcome. The frame goes out; the first response byte is read and kept;
/// a checksum error, an illegal command or an idle card end the command;
/// the busy phase is waited for where the command may have one; one more
/// byte and then four more bytes are read as the response where the command
/// has them; at last the transfer is noted. A stage that fails ends the
/// command with its error and leaves the rest undone.
pub open spec fn start_answered(
    before: SpiView,
    after: SpiView,
    command: u32,
    argument: u32,
    block_size: u16,
    num_blocks: u16,
    r: Result<(), MciError>,
) -> bool {
    exists|framed: SpiView, sent: Result<(), MciError>| #[trigger]
        frame_sent(before, framed, (MciCommand { val: command }).index(), argument, sent)
            && match sent {
            Err(e) => after == framed && r == Err::<(), MciError>(e),
            Ok(_) => exists|answered: SpiView, r1: Result<u8, MciError>| #[trigger]
                r1_read(framed, answered, r1) && match r1 {
                    Err(e) => after == answered && r == Err::<(), MciError>(e),
                    Ok(r1) => r1_taken(answered, after, r1, command, block_size, num_blocks, r),
                },
        }
}

impl<SPI: SerialPort, CS: OutputPin> SpiBus<SPI, CS> {
    /// Sends the command frame.
    pub fn send_frame(&mut self, index: u8, argument: u32) -> (r: Result<(), MciError>)
        ensures
            frame_sent(old(self)@, final(self)@, index, argument, r),
    {
        if let Err(e) = self.write_byte(0xFF) {
            return Err(e);
        }
        let frame = command_frame(index, argument);
        let ghost now = self@;
        let written = self.write_bytes(&frame);
        proof {
            assert(old(self)@.sent + seq![Out::Byte(0xFF)] =~= old(self)@.sent.push(
                Out::Byte(0xFF),
            ));
        }
        match written {
            Ok(()) => Ok(()),
            Err(e) => Err(e),
        }
    }

    /// Reads the first response byte.
    pub fn read_r1(&mut self) -> (r: Result<u8, MciError>)
        ensures
            r1_read(old(self)@, final(self)@, r),
    {
        let ghost before = self@;
        proof {
            lemma_nothing_added(before.heard);
        }
        if let Err(e) = self.read_byte() {
            return Err(e);
        }
        proof {
            lemma_one_added(before.heard, before.heard, self@.heard.last());
            assert(self@.heard == before.heard.push(self@.heard.last()));
        }
        let ghost dropped = self@.heard;
        let mut r1 = match self.read_byte() {
            Err(e) => {
                return Err(e);
            },
            Ok(byte) => byte,
        };
        proof {
            lemma_one_added(before.heard, dropped, r1);
        }
        let mut reads: u32 = 1;
        while bit_of(r1, 7) && reads < NCR_READS
            invariant
                1 <= reads <= NCR_READS,
                before == old(self)@,
                self@ == (SpiView { heard: self@.heard, ..before }),
                continues(before.heard, self@.heard),
                self@.heard.len() == before.heard.len() + 1 + reads,
                self@.heard.last() == r1,
                forall|i: int|
                    1 <= i < reads ==> bit8(
                        #[trigger] self@.heard.subrange(
                            before.heard.len() as int,
                            self@.heard.len() as int,
                        )[i],
                        7,
                    ),
            decreases NCR_READS - reads,
        {
            let ghost heard = self@.heard;
            let answer = self.read_byte();
            proof {
                let g = heard.subrange(before.heard.len() as int, heard.len() as int);
                assert(g.last() == r1);
                if answer is Ok {
                    lemma_one_added(before.heard, heard, answer->Ok_0);
                    let h = self@.heard.subrange(
                        before.heard.len() as int,
                        self@.heard.len() as int,
                    );
                    assert forall|i: int| 1 <= i < reads + 1 implies bit8(#[trigger] h[i], 7) by {
                        assert(h[i] == g[i]);
                    }
                } else {
                    assert forall|i: int| 1 <= i < g.len() - 1 implies bit8(#[trigger] g[i], 7) by {}
                }
            }
            r1 = match answer {
                Err(e) => {
                    return Err(e);
                },
                Ok(byte) => byte,
            };
            reads += 1;
        }
        if bit_of(r1, 7) {
            return Err(MciError::CommandError(CommandOrDataError::Timeout));
        }
        Ok(r1)
    }

    /// Sends a command and reads its response; notes the transfer that the
    /// command starts.
    pub fn start(&mut self, command: u32, argument: u32, block_size: u16, num_blocks: u16) -> (r:
        Result<(), MciError>)
        ensures
            start_answered(old(self)@, final(self)@, command, argument, block_size, num_blocks, r),
    {
        let mci_command = MciCommand::from(command);
        let sent = self.send_frame(mci_command.get_index(), argument);
        assert(frame_sent(old(self)@, self@, (MciCommand { val: command }).index(), argument, sent));
        if let Err(e) = sent {
            return Err(e);
        }
        let ghost framed = self@;
        let r1 = match self.read_r1() {
            Err(e) => {
                return Err(e);
            },
            Ok(r1) => r1,
        };
        let ghost answered = self@;
        self.last_response = r1 as u32;
        let ghost kept = self@;
        if let Err(e) = check_r1(r1) {
            return Err(e);
        }
        if mci_command.card_may_send_busy() {
            let free = self.await_release(0, false);
            assert(busy_waited(kept, self@, 0, false, free));
            if let Err(e) = free {
                return Err(e);
            }
        }
        let ghost freed = self@;
        if mci_command.have_8bit_response() {
            let byte = self.read_byte();
            assert(read(freed, self@, byte));
            match byte {
                Err(e) => {
                    return Err(e);
                },
                Ok(byte) => {
                    self.last_response = byte as u32;
                },
            }
        }
        let ghost short = self@;
        if mci_command.have_32bit_response() {
            let word = self.read_word_bytes();
            assert(word_read(short, self@, word));
            match word {
                Err(e) => {
                    assert(long_response_read(
                        short,
                        self@,
                        command,
                        block_size,
                        num_blocks,
                        Err::<(), MciError>(e),
                    ));
                    return Err(e);
                },
                Ok(word) => {
                    self.last_response = word;
                },
            }
        }
        self.block_size = block_size as usize;
        self.num_blocks = num_blocks as usize;
        self.position = 0;
        self.ended = false;
        assert(long_response_read(short, self@, command, block_size, num_blocks, Ok::<(), MciError>(())));
        assert(short_response_read(freed, self@, command, block_size, num_blocks, Ok::<(), MciError>(())));
        Ok(())
    }
}

/// Whether bit `bit` of `value` is set.
fn bit_of(value: u8, bit: usize) -> (r: bool)
    requires
        bit < 8,
    ensures
        r == bit8(value, bit as u8),
{
    crate::bits::bit_u8(value, bit)
}

impl<SPI: SerialPort, CS: OutputPin> Adtc for SpiBus<SPI, CS> {
    /// Sends a command that starts a data transfer, and reads its response.
    fn adtc_start(
        &mut self,
        command: u32,
        argument: u32,
        block_size: u16,
        num_blocks: u16,
        access_in_blocks: bool,
    ) -> (r: Result<(), MciError>)
        ensures
            start_answered(old(self)@, final(self)@, command, argument, block_size, num_blocks, r),
    {
        self.start(command, argument, block_size, num_blocks)
    }

    /// Does nothing and puts nothing on the line: over SPI a read ends with
    /// its last block and a write with the stop token.
    fn adtc_stop(&self, command: u32, argument: u32) -> (r: Result<(), MciError>)
        ensures
            r is Ok,
    {
        Ok(())
    }
}

} // verus!
