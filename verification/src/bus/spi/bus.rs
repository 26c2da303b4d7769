//! The SPI transport: its state, the byte level, and commands and
//! configuration.

use vstd::prelude::*;
use crate::bus::recorded::continues;
use crate::bus::spi::adtc::start_answered;
use crate::bus::spi::port::SerialPort;
use crate::bus::Bus;
use crate::command_arguments::mmc::BusWidth;
use crate::error::{CommandOrDataError, MciError};
use crate::pin::OutputPin;

verus! {

/// What the driver puts on the line.
pub enum Out {
    /// A byte that was written. The filler bytes that clock a read in are
    /// not counted.
    Byte(u8),
    /// The chip select was asserted.
    Select,
    /// The chip select was released.
    Deselect,
}

/// The SPI transport as the contracts see it.
pub struct SpiView {
    /// What the driver has put on the line, oldest first.
    pub sent: Seq<Out>,
    /// The bytes that the driver has read, oldest first.
    pub heard: Seq<u8>,
    /// How often the port or the chip select has failed.
    pub faults: nat,
    /// The response to the last command.
    pub last_response: u32,
    /// The block size of the transfer in progress.
    pub block_size: usize,
    /// The number of blocks of the transfer in progress.
    pub num_blocks: usize,
    /// The number of bytes of the transfer in progress that have moved.
    pub position: usize,
    /// Whether the stop token of the transfer in progress has gone out.
    pub ended: bool,
}

/// What has gone over the line, as ghost state.
pub struct Wire {
    pub sent: Seq<Out>,
    pub heard: Seq<u8>,
    pub faults: nat,
}

/// The transport over an SPI port and a chip select pin.
pub struct SpiBus<SPI, CS> {
    pub spi: SPI,
    pub cs: CS,
    pub last_response: u32,
    pub block_size: usize,
    pub num_blocks: usize,
    pub position: usize,
    pub ended: bool,
    pub wire: Ghost<Wire>,
}

impl<SPI, CS> View for SpiBus<SPI, CS> {
    type V = SpiView;

    open spec fn view(&self) -> SpiView {
        SpiView {
            sent: self.wire@.sent,
            heard: self.wire@.heard,
            faults: self.wire@.faults,
            last_response: self.last_response,
            block_size: self.block_size,
            num_blocks: self.num_blocks,
            position: self.position,
            ended: self.ended,
        }
    }
}

/// The bytes as they stand on the line once written.
pub open spec fn bytes_out(bytes: Seq<u8>) -> Seq<Out> {
    Seq::new(bytes.len(), |i: int| Out::Byte(bytes[i]))
}

/// The transport after one more fault.
pub open spec fn faulted(before: SpiView) -> SpiView {
    SpiView { faults: before.faults + 1, ..before }
}

/// The transport wrote `outs`, or failed with a write error and put nothing
/// on the line.
pub open spec fn wrote(before: SpiView, after: SpiView, outs: Seq<Out>, r: Result<
    (),
    MciError,
>) -> bool {
    match r {
        Ok(_) => after == (SpiView { sent: before.sent + outs, ..before }),
        Err(e) => e == MciError::WriteError && after == faulted(before),
    }
}

/// The transport read the byte that `r` holds, or failed with a write error
/// and read nothing.
pub open spec fn read(before: SpiView, after: SpiView, r: Result<u8, MciError>) -> bool {
    match r {
        Ok(byte) => after == (SpiView { heard: before.heard.push(byte), ..before }),
        Err(e) => e == MciError::WriteError && after == faulted(before),
    }
}

/// The transport set the chip select as `out` says, or could not.
pub open spec fn switched(before: SpiView, after: SpiView, out: Out, r: Result<(), MciError>) -> bool {
    match r {
        Ok(_) => after == (SpiView { sent: before.sent.push(out), ..before }),
        Err(e) => e == MciError::CouldNotSelectDevice && after == faulted(before),
    }
}

/// The number of polls for the end of a busy phase before the driver gives
/// up.
pub const BUSY_POLLS: u32 = 200_000;

/// Whether a byte read during a busy phase shows that the phase is over.
/// After a command the line is released as soon as the byte is not zero;
/// after a block written it is released when all bits are set.
pub open spec fn released(byte: u8, all_bits: bool) -> bool {
    if all_bits {
        byte == 0xFF
    } else {
        byte != 0x00
    }
}

/// The transport waited for the end of a busy phase: it read `skip` bytes
/// that it dropped, then polled until a byte showed the line released, at
/// most [`BUSY_POLLS`] times. Where the port fails, that is the outcome. Else
/// the wait succeeds where the last byte polled shows the line released, and
/// is a timeout of the data after all polls.
pub open spec fn busy_waited(
    before: SpiView,
    after: SpiView,
    skip: int,
    all_bits: bool,
    r: Result<(), MciError>,
) -> bool {
    let h = after.heard.subrange(before.heard.len() as int, after.heard.len() as int);
    &&& after == (SpiView { heard: after.heard, faults: after.faults, ..before })
    &&& continues(before.heard, after.heard)
    &&& h.len() <= skip + BUSY_POLLS
    &&& forall|i: int| skip <= i < h.len() - 1 ==> !released(#[trigger] h[i], all_bits)
    &&& if after.faults != before.faults {
        after.faults == before.faults + 1 && r == Err::<(), MciError>(MciError::WriteError)
    } else if h.len() > skip && released(h.last(), all_bits) {
        r is Ok
    } else {
        h.len() == skip + BUSY_POLLS && r == Err::<(), MciError>(
            MciError::DataError(CommandOrDataError::Timeout),
        )
    }
}

/// Four bytes as a word, the first byte highest.
pub open spec fn be32(b0: u8, b1: u8, b2: u8, b3: u8) -> u32 {
    ((b0 as u32) << 24) | ((b1 as u32) << 16) | ((b2 as u32) << 8) | (b3 as u32)
}

/// The transport read four bytes, which make the word that `r` holds with
/// the first byte highest; or the port failed before the fourth.
pub open spec fn word_read(before: SpiView, after: SpiView, r: Result<u32, MciError>) -> bool {
    let h = after.heard.subrange(before.heard.len() as int, after.heard.len() as int);
    &&& after == (SpiView { heard: after.heard, faults: after.faults, ..before })
    &&& continues(before.heard, after.heard)
    &&& match r {
        Ok(word) => after.faults == before.faults && h.len() == 4 && word == be32(
            h[0],
            h[1],
            h[2],
            h[3],
        ),
        Err(e) => e == MciError::WriteError && after.faults == before.faults + 1 && h.len() < 4,
    }
}

/// Ten bytes with all bits set: 80 clock cycles.
pub open spec fn idle_clocks() -> Seq<Out> {
    Seq::new(10, |i: int| Out::Byte(0xFF))
}

/// The transport sent the idle clocks: it released the chip select, wrote
/// ten bytes with all bits set, and asserted the chip select again. Where
/// the pin or the port fails, the sequence breaks off there.
pub open spec fn clocked(before: SpiView, after: SpiView, r: Result<(), MciError>) -> bool {
    &&& after == (SpiView { sent: after.sent, faults: after.faults, ..before })
    &&& match r {
        Ok(_) => after.faults == before.faults && after.sent == before.sent.push(Out::Deselect)
            + idle_clocks() + seq![Out::Select],
        Err(e) => {
            &&& after.faults == before.faults + 1
            &&& exists|n: int|
                0 <= n <= 11 && #[trigger] after.sent == before.sent + (seq![Out::Deselect]
                    + idle_clocks()).subrange(0, n)
            &&& e == MciError::CouldNotSelectDevice || e == MciError::WriteError
        },
    }
}

impl<SPI: SerialPort, CS: OutputPin> SpiBus<SPI, CS> {
    /// A transport over `spi` and `cs` on which nothing has happened yet.
    pub fn new(spi: SPI, cs: CS) -> (r: Self)
        ensures
            r.spi == spi,
            r.cs == cs,
            r@ == (SpiView {
                sent: Seq::empty(),
                heard: Seq::empty(),
                faults: 0,
                last_response: 0,
                block_size: 0,
                num_blocks: 0,
                position: 0,
                ended: false,
            }),
    {
        Self {
            spi,
            cs,
            last_response: 0,
            block_size: 0,
            num_blocks: 0,
            position: 0,
            ended: false,
            wire: Ghost(Wire { sent: Seq::empty(), heard: Seq::empty(), faults: 0 }),
        }
    }

    /// Writes one byte.
    pub fn write_byte(&mut self, value: u8) -> (r: Result<(), MciError>)
        ensures
            wrote(old(self)@, final(self)@, seq![Out::Byte(value)], r),
    {
        let bytes = [value];
        let r = self.spi.write(&bytes);
        match r {
            Ok(_) => {
                proof {
                    self.wire = Ghost(
                        Wire { sent: self.wire@.sent + seq![Out::Byte(value)], ..self.wire@ },
                    );
                }
                Ok(())
            },
            Err(_) => {
                proof {
                    self.wire = Ghost(Wire { faults: self.wire@.faults + 1, ..self.wire@ });
                }
                Err(MciError::WriteError)
            },
        }
    }

    /// Reads one byte, with all bits set on the outgoing line meanwhile.
    pub fn read_byte(&mut self) -> (r: Result<u8, MciError>)
        ensures
            read(old(self)@, final(self)@, r),
    {
        let r = self.spi.transfer(0xFF);
        match r {
            Ok(byte) => {
                proof {
                    self.wire = Ghost(Wire { heard: self.wire@.heard.push(byte), ..self.wire@ });
                }
                Ok(byte)
            },
            Err(_) => {
                proof {
                    self.wire = Ghost(Wire { faults: self.wire@.faults + 1, ..self.wire@ });
                }
                Err(MciError::WriteError)
            },
        }
    }

    /// Writes the bytes.
    pub fn write_bytes(&mut self, bytes: &[u8]) -> (r: Result<(), MciError>)
        ensures
            wrote(old(self)@, final(self)@, bytes_out(bytes@), r),
    {
        let r = self.spi.write(bytes);
        match r {
            Ok(_) => {
                proof {
                    self.wire = Ghost(
                        Wire { sent: self.wire@.sent + bytes_out(bytes@), ..self.wire@ },
                    );
                }
                Ok(())
            },
            Err(_) => {
                proof {
                    self.wire = Ghost(Wire { faults: self.wire@.faults + 1, ..self.wire@ });
                }
                Err(MciError::WriteError)
            },
        }
    }

    /// Asserts the chip select.
    pub fn select(&mut self) -> (r: Result<(), MciError>)
        ensures
            switched(old(self)@, final(self)@, Out::Select, r),
    {
        let r = self.cs.set_low();
        match r {
            Ok(_) => {
                proof {
                    self.wire = Ghost(
                        Wire { sent: self.wire@.sent.push(Out::Select), ..self.wire@ },
                    );
                }
                Ok(())
            },
            Err(_) => {
                proof {
                    self.wire = Ghost(Wire { faults: self.wire@.faults + 1, ..self.wire@ });
                }
                Err(MciError::CouldNotSelectDevice)
            },
        }
    }

    /// Releases the chip select.
    pub fn deselect(&mut self) -> (r: Result<(), MciError>)
        ensures
            switched(old(self)@, final(self)@, Out::Deselect, r),
    {
        let r = self.cs.set_high();
        match r {
            Ok(_) => {
                proof {
                    self.wire = Ghost(
                        Wire { sent: self.wire@.sent.push(Out::Deselect), ..self.wire@ },
                    );
                }
                Ok(())
            },
            Err(_) => {
                proof {
                    self.wire = Ghost(Wire { faults: self.wire@.faults + 1, ..self.wire@ });
                }
                Err(MciError::CouldNotSelectDevice)
            },
        }
    }

    /// Reads four bytes as a word, the first byte highest.
    pub fn read_word_bytes(&mut self) -> (r: Result<u32, MciError>)
        ensures
            word_read(old(self)@, final(self)@, r),
    {
        let ghost before = self@;
        proof {
            crate::bus::recorded::lemma_nothing_added(before.heard);
        }
        let b0 = match self.read_byte() {
            Err(e) => {
                return Err(e);
            },
            Ok(b) => b,
        };
        proof {
            crate::bus::recorded::lemma_one_added(before.heard, before.heard, b0);
        }
        let ghost h1 = self@.heard;
        let b1 = match self.read_byte() {
            Err(e) => {
                return Err(e);
            },
            Ok(b) => b,
        };
        proof {
            crate::bus::recorded::lemma_one_added(before.heard, h1, b1);
        }
        let ghost h2 = self@.heard;
        let b2 = match self.read_byte() {
            Err(e) => {
                return Err(e);
            },
            Ok(b) => b,
        };
        proof {
            crate::bus::recorded::lemma_one_added(before.heard, h2, b2);
        }
        let ghost h3 = self@.heard;
        let b3 = match self.read_byte() {
            Err(e) => {
                return Err(e);
            },
            Ok(b) => b,
        };
        proof {
            crate::bus::recorded::lemma_one_added(before.heard, h3, b3);
        }
        Ok(((b0 as u32) << 24) | ((b1 as u32) << 16) | ((b2 as u32) << 8) | (b3 as u32))
    }

    /// Reads `skip` bytes and drops them, then polls until a byte shows the
    /// line released.
    pub fn await_release(&mut self, skip: u32, all_bits: bool) -> (r: Result<(), MciError>)
        requires
            skip <= 2,
        ensures
            busy_waited(old(self)@, final(self)@, skip as int, all_bits, r),
    {
        let ghost before = self@;
        proof {
            crate::bus::recorded::lemma_nothing_added(before.heard);
        }
        let mut dropped: u32 = 0;
        while dropped < skip
            invariant
                dropped <= skip <= 2,
                self@ == (SpiView { heard: self@.heard, ..before }),
                continues(before.heard, self@.heard),
                self@.heard.len() == before.heard.len() + dropped,
                before == old(self)@,
            decreases skip - dropped,
        {
            let ghost heard = self@.heard;
            let byte = match self.read_byte() {
                Err(e) => {
                    return Err(e);
                },
                Ok(byte) => byte,
            };
            proof {
                crate::bus::recorded::lemma_one_added(before.heard, heard, byte);
            }
            dropped += 1;
        }
        let mut polls: u32 = 0;
        while polls < BUSY_POLLS
            invariant
                polls <= BUSY_POLLS,
                skip <= 2,
                self@ == (SpiView { heard: self@.heard, ..before }),
                continues(before.heard, self@.heard),
                self@.heard.len() == before.heard.len() + skip + polls,
                before == old(self)@,
                forall|i: int|
                    skip <= i < skip + polls ==> !released(
                        #[trigger] self@.heard.subrange(
                            before.heard.len() as int,
                            self@.heard.len() as int,
                        )[i],
                        all_bits,
                    ),
            decreases BUSY_POLLS - polls,
        {
            let ghost heard = self@.heard;
            let byte = match self.read_byte() {
                Err(e) => {
                    return Err(e);
                },
                Ok(byte) => byte,
            };
            proof {
                crate::bus::recorded::lemma_one_added(before.heard, heard, byte);
                let h = self@.heard.subrange(before.heard.len() as int, self@.heard.len() as int);
                let g = heard.subrange(before.heard.len() as int, heard.len() as int);
                assert forall|i: int| skip <= i < h.len() - 1 implies !released(
                    #[trigger] h[i],
                    all_bits,
                ) by {
                    assert(h[i] == g[i]);
                }
            }
            let free = if all_bits {
                byte == 0xFF
            } else {
                byte != 0x00
            };
            if free {
                return Ok(());
            }
            polls += 1;
        }
        Err(MciError::DataError(CommandOrDataError::Timeout))
    }

    /// Waits until the card has taken what was written: two bytes are read
    /// and dropped, then the line is polled until all bits are set.
    pub fn wait_busy(&mut self) -> (r: Result<(), MciError>)
        ensures
            busy_waited(old(self)@, final(self)@, 2, true, r),
    {
        self.await_release(2, true)
    }
}

impl<SPI: SerialPort, CS: OutputPin> crate::bus::SpiBus for SpiBus<SPI, CS> {

}

impl<SPI: SerialPort, CS: OutputPin> Bus for SpiBus<SPI, CS> {
    /// Supplies the clock cycles that a card needs before its first command,
    /// without the chip select.
    fn init(&mut self) -> (r: Result<(), MciError>)
        ensures
            clocked(old(self)@, final(self)@, r),
    {
        self.send_clock()
    }

    /// Does nothing.
    fn deinit(&mut self) -> (r: Result<(), MciError>)
        ensures
            r is Ok,
            final(self)@ == old(self)@,
    {
        Ok(())
    }

    /// Does nothing: the one device of the port is selected by its chip
    /// select.
    fn select_device(&mut self, slot: u8, clock: u32, bus_width: &BusWidth, high_speed: bool) -> (r:
        Result<(), MciError>)
        ensures
            r is Ok,
            final(self)@ == old(self)@,
    {
        Ok(())
    }

    /// Does nothing.
    fn deselect_device(&mut self, slot: u8) -> (r: Result<(), MciError>)
        ensures
            r is Ok,
            final(self)@ == old(self)@,
    {
        Ok(())
    }

    /// Releases the chip select, sends 80 clock cycles and asserts the chip
    /// select again.
    fn send_clock(&mut self) -> (r: Result<(), MciError>)
        ensures
            clocked(old(self)@, final(self)@, r),
    {
        let ghost before = self@;
        let ghost script = seq![Out::Deselect] + idle_clocks();
        if let Err(e) = self.deselect() {
            assert(self@.sent =~= before.sent + script.subrange(0, 0));
            return Err(e);
        }
        proof {
            assert(before.sent.push(Out::Deselect) =~= before.sent + script.subrange(0, 1));
        }
        let mut sent: usize = 0;
        while sent < 10
            invariant
                sent <= 10,
                before == old(self)@,
                script == seq![Out::Deselect] + idle_clocks(),
                self@ == (SpiView { sent: before.sent + script.subrange(0, sent + 1), ..before }),
            decreases 10 - sent,
        {
            let ghost now = self@;
            let written = self.write_byte(0xFF);
            if let Err(e) = written {
                return Err(e);
            }
            proof {
                assert(script[sent + 1] == Out::Byte(0xFF));
                assert(now.sent + seq![Out::Byte(0xFF)] =~= before.sent + script.subrange(
                    0,
                    sent + 2,
                ));
            }
            sent += 1;
        }
        let ghost now = self@;
        let selected = self.select();
        proof {
            assert(script.subrange(0, 11) =~= script);
            assert(now.sent.push(Out::Select) =~= before.sent.push(Out::Deselect) + idle_clocks()
                + seq![Out::Select]);
        }
        selected
    }

    /// Sends a command that has no data phase.
    fn send_command(&mut self, cmd: u32, arg: u32) -> (r: Result<(), MciError>)
        ensures
            start_answered(old(self)@, final(self)@, cmd, arg, 0, 0, r),
    {
        self.start(cmd, arg, 0, 0)
    }

    /// The response to the last command.
    fn get_response(&mut self) -> (r: Result<u32, MciError>)
        ensures
            r == Ok::<u32, MciError>(old(self)@.last_response),
            final(self)@ == old(self)@,
    {
        Ok(self.last_response)
    }
}

} // verus!
