//! The data phase from card to host over SPI: the wait for the start token,
//! the payload, and the checksum that follows it.

use vstd::prelude::*;
use crate::bus::recorded::{continues, lemma_nothing_added, lemma_one_added};
use crate::bus::spi::bus::{read, word_read, SpiBus, SpiView};
use crate::bus::spi::port::SerialPort;
use crate::bus::spi::response::{check_token, token_error, BLOCK_READ_DATA_TOKEN};
use crate::bus::Read;
use crate::error::{CommandOrDataError, ImplError, MciError};
use crate::pin::OutputPin;

verus! {

/// The number of bytes that are read in the wait for a start token before
/// the driver gives up.
pub const NAC_READS: u32 = 500_000;

/// The transport waited for the start token of a block: it read until the
/// token came, at most [`NAC_READS`] times. Where the port fails, that is the
/// outcome. A byte that is a data error token with an error in it ends the
/// wait with that error. Else the wait succeeds where the last byte read is
/// the token, and is a timeout of the data after all reads.
pub open spec fn token_awaited(before: SpiView, after: SpiView, r: Result<(), MciError>) -> bool {
    let h = after.heard.subrange(before.heard.len() as int, after.heard.len() as int);
    &&& after == (SpiView { heard: after.heard, faults: after.faults, ..before })
    &&& continues(before.heard, after.heard)
    &&& h.len() <= NAC_READS
    &&& forall|i: int|
        0 <= i < h.len() - 1 ==> (#[trigger] h[i]) != BLOCK_READ_DATA_TOKEN && token_error(h[i])
            is None
    &&& if after.faults != before.faults {
        after.faults == before.faults + 1 && r == Err::<(), MciError>(MciError::WriteError)
    } else if h.len() > 0 && h.last() == BLOCK_READ_DATA_TOKEN {
        r is Ok
    } else if h.len() > 0 && token_error(h.last()) is Some {
        r == Err::<(), MciError>(token_error(h.last())->Some_0)
    } else {
        h.len() == NAC_READS && r == Err::<(), MciError>(
            MciError::DataError(CommandOrDataError::Timeout),
        )
    }
}

/// The transport read `n` bytes, which are `data`; or the port failed before
/// the last of them.
pub open spec fn data_read(before: SpiView, after: SpiView, n: int, data: Seq<u8>, r: Result<
    (),
    MciError,
>) -> bool {
    let h = after.heard.subrange(before.heard.len() as int, after.heard.len() as int);
    &&& after == (SpiView { heard: after.heard, faults: after.faults, ..before })
    &&& continues(before.heard, after.heard)
    &&& match r {
        Ok(_) => after.faults == before.faults && h.len() == n && data == h,
        Err(e) => e == MciError::WriteError && after.faults == before.faults + 1 && h.len() < n,
    }
}

/// The transport read one block: it waited for the start token, read the
/// payload `data` of one block size, counted the block, and read the two
/// bytes of the checksum, which it does not test. A stage that fails ends
/// the block with its error and leaves the rest undone.
pub open spec fn block_read(before: SpiView, after: SpiView, data: Seq<u8>, r: Result<
    (),
    MciError,
>) -> bool {
    &&& after == (SpiView {
        heard: after.heard,
        faults: after.faults,
        position: after.position,
        ..before
    })
    &&& continues(before.heard, after.heard)
    &&& r is Ok ==> after.faults == before.faults && after.position == before.position
        + before.block_size
    &&& exists|ready: SpiView, token: Result<(), MciError>| #[trigger]
        token_awaited(before, ready, token) && match token {
            Err(e) => after == ready && r == Err::<(), MciError>(e),
            Ok(_) => exists|loaded: SpiView, payload: Result<(), MciError>| #[trigger]
                data_read(ready, loaded, before.block_size as int, data, payload)
                    && match payload {
                    Err(e) => after == loaded && r == Err::<(), MciError>(e),
                    Ok(_) => exists|counted: SpiView, checksum: Seq<u8>| #[trigger]
                        data_read(counted, after, 2, checksum, r) && moved_on(
                            loaded,
                            counted,
                            before.block_size as int,
                        ),
                },
        }
}

/// The position moved on by `len` bytes and nothing else changed.
pub open spec fn moved_on(before: SpiView, after: SpiView, len: int) -> bool {
    after == (SpiView { position: after.position, ..before }) && after.position == before.position
        + len
}

/// The transport read `n` blocks one after the other, all of them well, and
/// their payloads are the first `n` blocks of `data`.
pub open spec fn blocks_read(before: SpiView, after: SpiView, data: Seq<u8>, n: nat) -> bool
    decreases n,
{
    &&& after == (SpiView { heard: after.heard, position: after.position, ..before })
    &&& after.position == before.position + n * before.block_size
    &&& continues(before.heard, after.heard)
    &&& if n == 0 {
        after == before
    } else {
        exists|earlier: SpiView|
            blocks_read(before, earlier, data, (n - 1) as nat) && #[trigger] block_read(
                earlier,
                after,
                data.subrange((n - 1) * before.block_size, n * before.block_size),
                Ok::<(), MciError>(()),
            )
    }
}

/// The blocks that were read well before the block that failed.
pub open spec fn read_before_failure(before: SpiView, earlier: SpiView, data: Seq<u8>, done: nat) -> bool {
    blocks_read(before, earlier, data, done)
}

/// Whether a transfer of `len` more bytes can be counted: the block size is
/// not zero and the position stays within the machine word.
pub open spec fn countable(before: SpiView, len: int) -> bool {
    before.block_size != 0 && before.position + len <= usize::MAX
}

/// The transport read whole blocks into a buffer of `len` bytes that now
/// holds `data`, and `r` is the outcome. A transfer that cannot be counted is
/// refused and nothing is read. Else as many blocks are read as the buffer
/// holds; the first block that fails ends the reading with its error.
pub open spec fn buffer_read(before: SpiView, after: SpiView, len: int, data: Seq<u8>, r: Result<
    (),
    MciError,
>) -> bool {
    if !countable(before, len) {
        after == before && r == Err::<(), MciError>(MciError::Impl(ImplError::InvalidConfiguration))
    } else {
        match r {
            Ok(_) => blocks_read(before, after, data, (len / before.block_size as int) as nat),
            Err(e) => exists|done: nat, earlier: SpiView| #[trigger]
                read_before_failure(before, earlier, data, done) && done < len
                    / before.block_size as int && block_read(
                    earlier,
                    after,
                    data.subrange(done * before.block_size, (done + 1) * before.block_size),
                    Err::<(), MciError>(e),
                ),
        }
    }
}

/// The transport read one word, and `r` is the outcome. A transfer that
/// cannot be counted is refused. Else the start token is waited for where
/// the word opens a block, the four bytes of the word are read with the
/// first byte highest, and the checksum is read where the word closes a
/// block.
pub open spec fn word_fetched(before: SpiView, after: SpiView, r: Result<u32, MciError>) -> bool {
    if !countable(before, 4) {
        after == before && r == Err::<u32, MciError>(
            MciError::Impl(ImplError::InvalidConfiguration),
        )
    } else {
        exists|ready: SpiView, token: Result<(), MciError>| #[trigger]
            opened(before, ready, token) && match token {
                Err(e) => after == ready && r == Err::<u32, MciError>(e),
                Ok(_) => exists|loaded: SpiView, word: Result<u32, MciError>| #[trigger]
                    word_read(ready, loaded, word) && match word {
                        Err(e) => after == loaded && r == Err::<u32, MciError>(e),
                        Ok(word) => exists|counted: SpiView| #[trigger]
                            closed(counted, after, word, r) && moved_on(loaded, counted, 4),
                    },
            }
    }
}

/// The start token is waited for where the position is at the start of a
/// block.
pub open spec fn opened(before: SpiView, after: SpiView, r: Result<(), MciError>) -> bool {
    if before.position % before.block_size == 0 {
        token_awaited(before, after, r)
    } else {
        after == before && r is Ok
    }
}

/// The checksum is read where the position is at the end of a block, and the
/// word is handed out.
pub open spec fn closed(now: SpiView, after: SpiView, word: u32, r: Result<u32, MciError>) -> bool {
    if now.position % now.block_size == 0 {
        exists|checksum: Seq<u8>, dropped: Result<(), MciError>| #[trigger]
            data_read(now, after, 2, checksum, dropped) && r == (match dropped {
                Err(e) => Err::<u32, MciError>(e),
                Ok(_) => Ok::<u32, MciError>(word),
            })
    } else {
        after == now && r == Ok::<u32, MciError>(word)
    }
}

/// The blocks read do not depend on what `data` holds behind them.
pub proof fn lemma_blocks_ignore_the_rest(
    before: SpiView,
    after: SpiView,
    data: Seq<u8>,
    other: Seq<u8>,
    n: nat,
)
    requires
        blocks_read(before, after, data, n),
        n * before.block_size <= data.len(),
        n * before.block_size <= other.len(),
        data.subrange(0, n * before.block_size) == other.subrange(0, n * before.block_size),
    ensures
        blocks_read(before, after, other, n),
    decreases n,
{
    if n > 0 {
        let bs = before.block_size as int;
        let earlier = choose|earlier: SpiView|
            blocks_read(before, earlier, data, (n - 1) as nat) && #[trigger] block_read(
                earlier,
                after,
                data.subrange((n - 1) * bs, n * bs),
                Ok::<(), MciError>(()),
            );
        assert((n - 1) * bs <= n * bs) by (nonlinear_arith)
            requires
                n >= 1,
                bs >= 0,
        ;
        assert(data.subrange(0, (n - 1) * bs) =~= data.subrange(0, n * bs).subrange(
            0,
            (n - 1) * bs,
        ));
        assert(other.subrange(0, (n - 1) * bs) =~= other.subrange(0, n * bs).subrange(
            0,
            (n - 1) * bs,
        ));
        lemma_blocks_ignore_the_rest(before, earlier, data, other, (n - 1) as nat);
        assert(data.subrange((n - 1) * bs, n * bs) =~= data.subrange(0, n * bs).subrange(
            (n - 1) * bs,
            n * bs,
        ));
        assert(other.subrange((n - 1) * bs, n * bs) =~= other.subrange(0, n * bs).subrange(
            (n - 1) * bs,
            n * bs,
        ));
    }
}

impl<SPI: SerialPort, CS: OutputPin> SpiBus<SPI, CS> {
    /// Waits for the start token of a block.
    pub fn start_read_block(&mut self) -> (r: Result<(), MciError>)
        ensures
            token_awaited(old(self)@, final(self)@, r),
    {
        let ghost before = self@;
        proof {
            lemma_nothing_added(before.heard);
        }
        let mut reads: u32 = 0;
        while reads < NAC_READS
            invariant
                reads <= NAC_READS,
                before == old(self)@,
                self@ == (SpiView { heard: self@.heard, ..before }),
                continues(before.heard, self@.heard),
                self@.heard.len() == before.heard.len() + reads,
                forall|i: int|
                    0 <= i < reads ==> (#[trigger] self@.heard.subrange(
                        before.heard.len() as int,
                        self@.heard.len() as int,
                    )[i]) != BLOCK_READ_DATA_TOKEN && token_error(
                        self@.heard.subrange(
                            before.heard.len() as int,
                            self@.heard.len() as int,
                        )[i],
                    ) is None,
            decreases NAC_READS - reads,
        {
            let ghost heard = self@.heard;
            let answer = self.read_byte();
            proof {
                let g = heard.subrange(before.heard.len() as int, heard.len() as int);
                if answer is Ok {
                    lemma_one_added(before.heard, heard, answer->Ok_0);
                    let h = self@.heard.subrange(
                        before.heard.len() as int,
                        self@.heard.len() as int,
                    );
                    assert forall|i: int| 0 <= i < h.len() - 1 implies (#[trigger] h[i])
                        != BLOCK_READ_DATA_TOKEN && token_error(h[i]) is None by {
                        assert(h[i] == g[i]);
                    }
                }
            }
            let token = match answer {
                Err(e) => {
                    return Err(e);
                },
                Ok(token) => token,
            };
            if token == BLOCK_READ_DATA_TOKEN {
                return Ok(());
            }
            if let Err(e) = check_token(token) {
                return Err(e);
            }
            reads += 1;
        }
        Err(MciError::DataError(CommandOrDataError::Timeout))
    }

    /// Reads the two bytes of the checksum that follows a block. Over SPI the
    /// checksum is not tested.
    pub fn stop_read_block(&mut self) -> (r: Result<(), MciError>)
        ensures
            exists|checksum: Seq<u8>| #[trigger] data_read(old(self)@, final(self)@, 2, checksum, r),
    {
        let ghost before = self@;
        proof {
            lemma_nothing_added(before.heard);
        }
        let first = self.read_byte();
        if let Err(e) = first {
            assert(data_read(before, self@, 2, Seq::<u8>::empty(), Err::<(), MciError>(e)));
            return Err(e);
        }
        proof {
            lemma_one_added(before.heard, before.heard, first->Ok_0);
        }
        let ghost heard = self@.heard;
        let second = self.read_byte();
        if let Err(e) = second {
            assert(data_read(before, self@, 2, Seq::<u8>::empty(), Err::<(), MciError>(e)));
            return Err(e);
        }
        proof {
            lemma_one_added(before.heard, heard, second->Ok_0);
            let h = self@.heard.subrange(before.heard.len() as int, self@.heard.len() as int);
            assert(data_read(before, self@, 2, h, Ok::<(), MciError>(())));
        }
        Ok(())
    }

    /// Reads one block into `blocks` at `offset`.
    pub fn read_block_into(&mut self, blocks: &mut [u8], offset: usize) -> (r: Result<(), MciError>)
        requires
            old(self).block_size != 0,
            offset + old(self).block_size <= old(blocks)@.len(),
            old(self).position + old(self).block_size <= usize::MAX,
        ensures
            final(blocks)@.len() == old(blocks)@.len(),
            block_read(
                old(self)@,
                final(self)@,
                final(blocks)@.subrange(offset as int, offset + old(self).block_size),
                r,
            ),
            forall|i: int|
                0 <= i < offset || offset + old(self).block_size <= i < old(blocks)@.len()
                    ==> final(blocks)@[i] == old(blocks)@[i],
    {
        let ghost before = self@;
        let len = blocks.len();
        let token = self.start_read_block();
        if let Err(e) = token {
            return Err(e);
        }
        let ghost ready = self@;
        proof {
            lemma_nothing_added(ready.heard);
        }
        let size = self.block_size;
        let mut count: usize = 0;
        while count < size
            invariant
                count <= size,
                size == before.block_size,
                before == old(self)@,
                offset + size <= len,
                len == blocks@.len(),
                blocks@.len() == old(blocks)@.len(),
                self@ == (SpiView { heard: self@.heard, ..ready }),
                continues(ready.heard, self@.heard),
                self@.heard.len() == ready.heard.len() + count,
                token_awaited(before, ready, token),
                token is Ok,
                before.position + size <= usize::MAX,
                ready.position == before.position,
                blocks@.subrange(offset as int, offset + count) == self@.heard.subrange(
                    ready.heard.len() as int,
                    self@.heard.len() as int,
                ),
                forall|i: int|
                    0 <= i < offset || offset + size <= i < blocks@.len() ==> blocks@[i] == old(
                        blocks,
                    )@[i],
            decreases size - count,
        {
            let ghost heard = self@.heard;
            let ghost held = blocks@;
            let answer = self.read_byte();
            let byte = match answer {
                Err(e) => {
                    proof {
                        assert(data_read(
                            ready,
                            self@,
                            before.block_size as int,
                            blocks@.subrange(offset as int, offset + before.block_size),
                            Err::<(), MciError>(e),
                        ));
                        crate::bus::recorded::lemma_added_in_two_steps(
                            before.heard,
                            ready.heard,
                            self@.heard,
                        );
                    }
                    return Err(e);
                },
                Ok(byte) => byte,
            };
            blocks[offset + count] = byte;
            proof {
                lemma_one_added(ready.heard, heard, byte);
                assert(blocks@.subrange(offset as int, offset + count + 1) =~= held.subrange(
                    offset as int,
                    offset + count,
                ).push(byte));
            }
            count += 1;
        }
        let ghost loaded = self@;
        proof {
            assert(data_read(
                ready,
                loaded,
                before.block_size as int,
                blocks@.subrange(offset as int, offset + before.block_size),
                Ok::<(), MciError>(()),
            ));
        }
        self.position += size;
        let ghost counted = self@;
        let dropped = self.stop_read_block();
        proof {
            assert(moved_on(loaded, counted, before.block_size as int));
            crate::bus::recorded::lemma_added_in_two_steps(
                before.heard,
                ready.heard,
                loaded.heard,
            );
            crate::bus::recorded::lemma_added_in_two_steps(
                before.heard,
                loaded.heard,
                self@.heard,
            );
        }
        dropped
    }
}

impl<SPI: SerialPort, CS: OutputPin> Read for SpiBus<SPI, CS> {
    /// Reads one word of the data phase.
    fn read_word(&mut self) -> (r: Result<u32, MciError>)
        ensures
            word_fetched(old(self)@, final(self)@, r),
    {
        if self.block_size == 0 || self.position > usize::MAX - 4 {
            return Err(MciError::Impl(ImplError::InvalidConfiguration));
        }
        let ghost before = self@;
        if self.position % self.block_size == 0 {
            let token = self.start_read_block();
            assert(opened(before, self@, token));
            if let Err(e) = token {
                return Err(e);
            }
        } else {
            assert(opened(before, self@, Ok::<(), MciError>(())));
        }
        let ghost ready = self@;
        let word = match self.read_word_bytes() {
            Err(e) => {
                return Err(e);
            },
            Ok(word) => word,
        };
        let ghost loaded = self@;
        self.position += 4;
        let ghost now = self@;
        if self.position % self.block_size == 0 {
            let dropped = self.stop_read_block();
            match dropped {
                Err(e) => {
                    assert(closed(now, self@, word, Err::<u32, MciError>(e)));
                    assert(moved_on(loaded, now, 4));
                    return Err(e);
                },
                Ok(_) => {},
            }
        }
        assert(closed(now, self@, word, Ok::<u32, MciError>(word)));
        assert(moved_on(loaded, now, 4));
        Ok(word)
    }

    /// Reads whole blocks into `blocks`.
    fn read_blocks(&mut self, blocks: &mut [u8]) -> (r: Result<(), MciError>)
        ensures
            buffer_read(old(self)@, final(self)@, old(blocks)@.len() as int, final(blocks)@, r),
    {
        if self.block_size == 0 || blocks.len() > usize::MAX - self.position {
            return Err(MciError::Impl(ImplError::InvalidConfiguration));
        }
        let ghost before = self@;
        proof {
            lemma_nothing_added(before.heard);
        }
        let size = self.block_size;
        let num_blocks = blocks.len() / size;
        let mut i: usize = 0;
        assert(num_blocks * size <= blocks@.len()) by (nonlinear_arith)
            requires
                num_blocks == blocks@.len() / size as nat,
                size > 0,
        ;
        while i < num_blocks
            invariant
                i <= num_blocks,
                size == before.block_size,
                size != 0,
                before == old(self)@,
                num_blocks == blocks@.len() / size as nat,
                num_blocks * size <= blocks@.len(),
                blocks@.len() == old(blocks)@.len(),
                before.position + blocks@.len() <= usize::MAX,
                blocks_read(before, self@, blocks@, i as nat),
            decreases num_blocks - i,
        {
            let ghost earlier = self@;
            let ghost held = blocks@;
            proof {
                assert(i * size + size <= num_blocks * size) by (nonlinear_arith)
                    requires
                        i < num_blocks,
                        size > 0,
                ;
            }
            let offset = i * size;
            let outcome = self.read_block_into(blocks, offset);
            proof {
                assert(blocks@.subrange(0, i * size) =~= held.subrange(0, i * size));
                lemma_blocks_ignore_the_rest(before, earlier, held, blocks@, i as nat);
                assert((i + 1) * size == i * size + size) by (nonlinear_arith);
                crate::bus::recorded::lemma_added_in_two_steps(
                    before.heard,
                    earlier.heard,
                    self@.heard,
                );
            }
            proof {
                crate::error::lemma_done(outcome);
            }
            match outcome {
                Err(e) => {
                    assert(block_read(
                        earlier,
                        self@,
                        blocks@.subrange(i * before.block_size, (i + 1) * before.block_size),
                        Err::<(), MciError>(e),
                    ));
                    assert(read_before_failure(before, earlier, blocks@, i as nat));
                    return Err(e);
                },
                Ok(()) => {
                    assert(((i + 1) - 1) * before.block_size == i * size) by (nonlinear_arith)
                        requires
                            size == before.block_size,
                    ;
                    assert(block_read(
                        earlier,
                        self@,
                        blocks@.subrange(
                            ((i + 1) - 1) * before.block_size,
                            (i + 1) * before.block_size,
                        ),
                        Ok::<(), MciError>(()),
                    ));
                },
            }
            i += 1;
        }
        Ok(())
    }

    /// Does nothing: the blocks have been read when `read_blocks` returns.
    fn wait_until_read_finished(&mut self) -> (r: Result<(), MciError>)
        ensures
            r is Ok,
            final(self)@ == old(self)@,
    {
        Ok(())
    }
}

} // verus!
