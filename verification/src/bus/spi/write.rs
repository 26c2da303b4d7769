//! The data phase from host to card over SPI: the start token, the payload,
//! the data response, the busy phase, and the stop token of a multiple
//! block write.

use vstd::prelude::*;
use vstd::slice::slice_subrange;
use crate::bits::{bits32, field_u32};
use crate::bus::recorded::{continues, lemma_added_in_two_steps, lemma_appended, lemma_nothing_added};
use crate::bus::spi::bus::{busy_waited, bytes_out, read, wrote, Out, SpiBus, SpiView};
use crate::bus::spi::port::SerialPort;
use crate::bus::spi::read::{countable, moved_on};
use crate::bus::spi::response::{check_write_response, write_response_error, WriteToken};
use crate::bus::Write;
use crate::error::{lemma_done, ImplError, MciError};
use crate::pin::OutputPin;

verus! {

/// The transport wrote `outs` in one or more steps; or the port failed at
/// one of the steps, and what stands on the line is a part of `outs` that
/// ends before that step.
pub open spec fn all_written(before: SpiView, after: SpiView, outs: Seq<Out>, r: Result<
    (),
    MciError,
>) -> bool {
    &&& after == (SpiView { sent: after.sent, faults: after.faults, ..before })
    &&& match r {
        Ok(_) => after.faults == before.faults && after.sent == before.sent + outs,
        Err(e) => {
            &&& e == MciError::WriteError
            &&& after.faults == before.faults + 1
            &&& continues(before.sent, after.sent)
            &&& continues(after.sent, before.sent + outs)
            &&& after.sent.len() < before.sent.len() + outs.len()
        },
    }
}

/// The byte of the token that starts a block: one token for the block of a
/// single block write, another for each block of a multiple block write.
pub open spec fn start_token(num_blocks: usize) -> u8 {
    if num_blocks == 1 {
        0xFE
    } else {
        0xFC
    }
}

/// What goes before the payload of a block: one byte with all bits set, then
/// the start token.
pub open spec fn block_head(num_blocks: usize) -> Seq<Out> {
    seq![Out::Byte(0xFF), Out::Byte(start_token(num_blocks))]
}

/// What follows the payload of a block: two bytes in place of the checksum,
/// which is off over SPI.
pub open spec fn block_trail() -> Seq<Out> {
    seq![Out::Byte(0xFF), Out::Byte(0xFF)]
}

/// One block as it stands on the line.
pub open spec fn block_on_line(num_blocks: usize, data: Seq<u8>) -> Seq<Out> {
    block_head(num_blocks) + bytes_out(data) + block_trail()
}

/// The first `n` blocks of `data` as they stand on the line.
pub open spec fn blocks_on_line(num_blocks: usize, block_size: int, data: Seq<u8>, n: nat) -> Seq<
    Out,
>
    decreases n,
{
    if n == 0 {
        Seq::empty()
    } else {
        blocks_on_line(num_blocks, block_size, data, (n - 1) as nat) + block_on_line(
            num_blocks,
            data.subrange((n - 1) * block_size, n * block_size),
        )
    }
}

/// What ends a multiple block write: one byte with all bits set, then the
/// stop token.
pub open spec fn stop_on_line() -> Seq<Out> {
    seq![Out::Byte(0xFF), Out::Byte(0xFD)]
}

/// The transport closed a block that it wrote: it wrote the two bytes in
/// place of the checksum and read the data response. A response that does
/// not accept the block is the outcome. Else, where `wait` holds, the end of
/// the busy phase is waited for.
pub open spec fn block_closed(before: SpiView, after: SpiView, wait: bool, r: Result<
    (),
    MciError,
>) -> bool {
    exists|trailed: SpiView, written: Result<(), MciError>| #[trigger]
        all_written(before, trailed, block_trail(), written) && match written {
            Err(e) => after == trailed && r == Err::<(), MciError>(e),
            Ok(_) => exists|answered: SpiView, token: Result<u8, MciError>| #[trigger]
                read(trailed, answered, token) && match token {
                    Err(e) => after == answered && r == Err::<(), MciError>(e),
                    Ok(token) => match write_response_error(token) {
                        Some(e) => after == answered && r == Err::<(), MciError>(e),
                        None => if wait {
                            busy_waited(answered, after, 2, true, r)
                        } else {
                            after == answered && r is Ok
                        },
                    },
                },
        }
}

/// The transport wrote one block with the payload `data`: the head, the
/// payload, the count of the block, and the closing of the block. A stage
/// that fails ends the block with its error and leaves the rest undone.
pub open spec fn block_written(before: SpiView, after: SpiView, data: Seq<u8>, wait: bool, r: Result<
    (),
    MciError,
>) -> bool {
    &&& after == (SpiView {
        sent: after.sent,
        heard: after.heard,
        faults: after.faults,
        position: after.position,
        ..before
    })
    &&& continues(before.sent, after.sent)
    &&& continues(before.heard, after.heard)
    &&& r is Ok ==> {
        &&& after.faults == before.faults
        &&& after.position == before.position + data.len()
        &&& after.sent == before.sent + block_on_line(before.num_blocks, data)
    }
    &&& exists|loaded: SpiView, written: Result<(), MciError>| #[trigger]
        all_written(before, loaded, block_head(before.num_blocks) + bytes_out(data), written)
            && match written {
            Err(e) => after == loaded && r == Err::<(), MciError>(e),
            Ok(_) => exists|counted: SpiView| #[trigger]
                block_closed(counted, after, wait, r) && moved_on(
                    loaded,
                    counted,
                    data.len() as int,
                ),
        }
}

/// The transport wrote the first `n` blocks of `data` one after the other,
/// all of them well, as a part of a batch of `total` blocks. After each
/// block but the last of the batch the end of the busy phase is waited for.
pub open spec fn blocks_written(before: SpiView, after: SpiView, data: Seq<u8>, n: nat, total: nat) -> bool
    decreases n,
{
    &&& after == (SpiView {
        sent: after.sent,
        heard: after.heard,
        position: after.position,
        ..before
    })
    &&& after.position == before.position + n * before.block_size
    &&& after.sent == before.sent + blocks_on_line(
        before.num_blocks,
        before.block_size as int,
        data,
        n,
    )
    &&& continues(before.heard, after.heard)
    &&& if n == 0 {
        after == before
    } else {
        exists|earlier: SpiView|
            blocks_written(before, earlier, data, (n - 1) as nat, total) && #[trigger] block_written(
                earlier,
                after,
                data.subrange((n - 1) * before.block_size, n * before.block_size),
                more_to_come(n, total),
                Ok::<(), MciError>(()),
            )
    }
}

/// Whether more blocks of a batch of `total` blocks follow its block `n`,
/// counted from one.
pub open spec fn more_to_come(n: nat, total: nat) -> bool {
    n < total
}

/// The blocks that were written well before the block that failed.
pub open spec fn written_before_failure(
    before: SpiView,
    earlier: SpiView,
    data: Seq<u8>,
    done: nat,
    total: nat,
) -> bool {
    blocks_written(before, earlier, data, done, total)
}

/// The transport wrote whole blocks from `data`, and `r` is the outcome. A
/// transfer that cannot be counted is refused and nothing is written. Else
/// as many blocks are written as `data` holds; the first block that fails
/// ends the writing with its error.
pub open spec fn buffer_written(before: SpiView, after: SpiView, data: Seq<u8>, r: Result<
    (),
    MciError,
>) -> bool {
    let total = (data.len() as int / before.block_size as int) as nat;
    if !countable(before, data.len() as int) {
        after == before && r == Err::<(), MciError>(MciError::Impl(ImplError::InvalidConfiguration))
    } else {
        match r {
            Ok(_) => blocks_written(before, after, data, total, total),
            Err(e) => exists|done: nat, earlier: SpiView| #[trigger]
                written_before_failure(before, earlier, data, done, total) && done < total
                    && block_written(
                    earlier,
                    after,
                    data.subrange(done * before.block_size, (done + 1) * before.block_size),
                    more_to_come(done + 1, total),
                    Err::<(), MciError>(e),
                ),
        }
    }
}

/// Whether the stop token of a multiple block write is due: the transfer has
/// more than one block, all of them have moved, and the token has not gone
/// out yet.
pub open spec fn stop_token_due(now: SpiView) -> bool {
    now.num_blocks > 1 && now.block_size != 0 && now.num_blocks <= now.position / now.block_size
        && !now.ended
}

/// The transport ended a multiple block write where that was due: it wrote
/// one byte with all bits set and the stop token, noted that the transfer is
/// ended, and waited for the end of the busy phase. Where the stop token is
/// not due nothing happens: the token goes out once for each transfer. A
/// transfer of several blocks of size zero cannot be judged and is refused.
pub open spec fn stop_sent(before: SpiView, after: SpiView, r: Result<(), MciError>) -> bool {
    if before.num_blocks > 1 && before.block_size == 0 {
        after == before && r == Err::<(), MciError>(MciError::Impl(ImplError::InvalidConfiguration))
    } else if !stop_token_due(before) {
        after == before && r is Ok
    } else {
        exists|stopped: SpiView, written: Result<(), MciError>| #[trigger]
            all_written(before, stopped, stop_on_line(), written) && match written {
                Err(e) => after == stopped && r == Err::<(), MciError>(e),
                Ok(_) => busy_waited(SpiView { ended: true, ..stopped }, after, 2, true, r),
            }
    }
}

/// The transport waited for the end of the busy phase that follows the last
/// block written, and then ended a multiple block write where that was due.
pub open spec fn write_finished(before: SpiView, after: SpiView, r: Result<(), MciError>) -> bool {
    exists|free: SpiView, waited: Result<(), MciError>| #[trigger]
        busy_waited(before, free, 2, true, waited) && match waited {
            Err(e) => after == free && r == Err::<(), MciError>(e),
            Ok(_) => stop_sent(free, after, r),
        }
}

/// The four bytes of a word, the highest first.
pub open spec fn word_bytes(word: u32) -> Seq<u8> {
    seq![
        bits32(word, 24, 32) as u8,
        bits32(word, 16, 24) as u8,
        bits32(word, 8, 16) as u8,
        bits32(word, 0, 8) as u8,
    ]
}

/// What goes on the line for a word at the position of `now`: the head of a
/// block where the word opens one, then the four bytes of the word.
pub open spec fn word_on_line(now: SpiView, word: u32) -> Seq<Out> {
    if now.position % now.block_size == 0 {
        block_head(now.num_blocks) + bytes_out(word_bytes(word))
    } else {
        bytes_out(word_bytes(word))
    }
}

/// The stage of a word written that follows the count: the block is closed
/// where the word was its last, and a multiple block write is ended where
/// that is due.
pub open spec fn word_closed(now: SpiView, after: SpiView, r: Result<(), MciError>) -> bool {
    if now.position % now.block_size == 0 {
        exists|closed: SpiView, accepted: Result<(), MciError>| #[trigger]
            block_closed(now, closed, true, accepted) && match accepted {
                Err(e) => after == closed && r == Err::<(), MciError>(e),
                Ok(_) => stop_sent(closed, after, r),
            }
    } else {
        stop_sent(now, after, r)
    }
}

/// The transport wrote one word, and `r` is the outcome. A transfer that
/// cannot be counted is refused. Else the head of a block goes out where the
/// word opens one, then the word with its highest byte first; the word is
/// counted; the block is closed where the word was its last; and a multiple
/// block write is ended where that is due.
pub open spec fn word_written(before: SpiView, after: SpiView, word: u32, r: Result<
    (),
    MciError,
>) -> bool {
    if !countable(before, 4) {
        after == before && r == Err::<(), MciError>(MciError::Impl(ImplError::InvalidConfiguration))
    } else {
        exists|loaded: SpiView, written: Result<(), MciError>| #[trigger]
            all_written(before, loaded, word_on_line(before, word), written) && match written {
                Err(e) => after == loaded && r == Err::<(), MciError>(e),
                Ok(_) => exists|counted: SpiView| #[trigger]
                    word_closed(counted, after, r) && moved_on(loaded, counted, 4),
            }
    }
}

/// Sequences that are built in steps: each step continues the one before and
/// is continued by the whole.
pub proof fn lemma_steps<T>(base: Seq<T>, first: Seq<T>, second: Seq<T>)
    ensures
        continues(base, base + first),
        continues(base + first, base + (first + second)),
        base + first + second == base + (first + second),
        continues(base, base + (first + second)),
{
    lemma_appended(base, first);
    lemma_appended(base + first, second);
    lemma_appended(base, first + second);
    assert(base + first + second =~= base + (first + second));
}

/// After a write transfer of `n` blocks, with `n` greater than one, the line
/// holds the `n` blocks, each behind the token of a multiple block write,
/// and then the stop token, once.
pub proof fn lemma_one_stop_token(
    start: SpiView,
    written: SpiView,
    finished: SpiView,
    data: Seq<u8>,
    n: nat,
)
    requires
        n > 1,
        start.num_blocks == n,
        start.block_size > 0,
        start.position == 0,
        !start.ended,
        blocks_written(start, written, data, n, n),
        write_finished(written, finished, Ok::<(), MciError>(())),
    ensures
        finished.sent == start.sent + blocks_on_line(
            start.num_blocks,
            start.block_size as int,
            data,
            n,
        ) + stop_on_line(),
        finished.ended,
{
    let size = start.block_size as int;
    vstd::arithmetic::div_mod::lemma_div_multiples_vanish(n as int, size);
    assert(n * size == size * n) by (nonlinear_arith);
}

/// The end of a multiple block write puts nothing on the line but the stop
/// token, and puts that on the line only where the transfer was not ended
/// yet; the transfer is ended as soon as the token is out.
pub proof fn lemma_stop_token_ends_the_transfer(before: SpiView, after: SpiView, r: Result<
    (),
    MciError,
>)
    requires
        stop_sent(before, after, r),
    ensures
        before.ended ==> after == before,
        after.sent == before.sent || after.sent == before.sent.push(Out::Byte(0xFF)) || after.sent
            == before.sent + stop_on_line(),
        after.sent == before.sent + stop_on_line() <==> after.ended && !before.ended,
        r is Ok && stop_token_due(before) ==> after.ended,
{
    lemma_nothing_added(before.sent);
    lemma_steps(before.sent, seq![Out::Byte(0xFF)], seq![Out::Byte(0xFD)]);
    assert(seq![Out::Byte(0xFF)] + seq![Out::Byte(0xFD)] =~= stop_on_line());
    assert(before.sent + seq![Out::Byte(0xFF)] =~= before.sent.push(Out::Byte(0xFF)));
    assert((before.sent + stop_on_line()).len() == before.sent.len() + 2);
    if !(before.num_blocks > 1 && before.block_size == 0) && stop_token_due(before) {
        let (stopped, written) = choose|stopped: SpiView, written: Result<(), MciError>| #[trigger]
            all_written(before, stopped, stop_on_line(), written) && match written {
                Err(e) => after == stopped && r == Err::<(), MciError>(e),
                Ok(_) => busy_waited(SpiView { ended: true, ..stopped }, after, 2, true, r),
            };
        if written is Err {
            lemma_prefix_is_one_of(before.sent, stopped.sent);
        }
    }
}

/// What continues `base` and is continued by `base` with the stop token, but
/// is shorter than that, is `base` or `base` with the first byte.
proof fn lemma_prefix_is_one_of(base: Seq<Out>, part: Seq<Out>)
    requires
        continues(base, part),
        continues(part, base + stop_on_line()),
        part.len() < base.len() + 2,
    ensures
        part == base || part == base.push(Out::Byte(0xFF)),
{
    let whole = base + stop_on_line();
    if part.len() == base.len() {
        assert(part =~= base);
    } else {
        assert(part =~= whole.subrange(0, part.len() as int));
        assert(part =~= base.push(Out::Byte(0xFF)));
    }
}

/// A wait at the end of a transfer that is ended already puts nothing on the
/// line: however often the end of the writing is waited for, the stop token
/// has gone out once.
pub proof fn lemma_no_second_stop_token(before: SpiView, after: SpiView, r: Result<(), MciError>)
    requires
        before.ended,
        write_finished(before, after, r),
    ensures
        after.sent == before.sent,
        after.ended,
{
}

/// The last word of a multiple block write closes the last block and puts
/// the stop token on the line, once; the transfer is ended from then on, so
/// that the wait that follows adds no second token.
pub proof fn lemma_one_stop_token_by_words(
    before: SpiView,
    after: SpiView,
    word: u32,
    waited: SpiView,
    r: Result<(), MciError>,
)
    requires
        before.num_blocks > 1,
        before.block_size > 0,
        !before.ended,
        before.position + 4 == before.num_blocks * before.block_size,
        word_written(before, after, word, Ok::<(), MciError>(())),
        write_finished(after, waited, r),
    ensures
        after.sent == before.sent + word_on_line(before, word) + block_trail() + stop_on_line(),
        after.ended,
        waited.sent == after.sent,
        waited.ended,
{
    let size = before.block_size as int;
    let n = before.num_blocks as int;
    vstd::arithmetic::div_mod::lemma_div_multiples_vanish(n, size);
    vstd::arithmetic::div_mod::lemma_mod_multiples_basic(n, size);
    assert(n * size == size * n) by (nonlinear_arith);
    assert forall|now: SpiView, closed: SpiView, accepted: Result<(), MciError>| #[trigger]
        block_closed(now, closed, true, accepted) implies closed == (SpiView {
        sent: closed.sent,
        heard: closed.heard,
        faults: closed.faults,
        ..now
    }) && (accepted is Ok ==> closed.sent == now.sent + block_trail()) by {
        lemma_block_closed_frame(now, closed, true, accepted);
    }
    assert forall|now: SpiView, end: SpiView, stopped: Result<(), MciError>|
        #[trigger] stop_sent(now, end, stopped) && stopped is Ok && stop_token_due(now) implies end.ended
        && end.sent == now.sent + stop_on_line() by {
        lemma_stop_token_ends_the_transfer(now, end, stopped);
    }
    lemma_no_second_stop_token(after, waited, r);
}

/// After a write transfer of one block the line holds that block behind the
/// token of a single block write, and no stop token.
pub proof fn lemma_no_stop_token_for_one_block(
    start: SpiView,
    written: SpiView,
    finished: SpiView,
    data: Seq<u8>,
)
    requires
        start.num_blocks == 1,
        start.block_size > 0,
        blocks_written(start, written, data, 1, 1),
        write_finished(written, finished, Ok::<(), MciError>(())),
    ensures
        finished.sent == start.sent + block_on_line(
            1,
            data.subrange(0, start.block_size as int),
        ),
{
    reveal_with_fuel(blocks_on_line, 2);
    assert(blocks_on_line(1, start.block_size as int, data, 1) =~= block_on_line(
        1,
        data.subrange(0, start.block_size as int),
    ));
}

/// The blocks written do not depend on what `data` holds behind them.
pub proof fn lemma_blocks_on_line_ignore_the_rest(
    num_blocks: usize,
    size: int,
    data: Seq<u8>,
    other: Seq<u8>,
    n: nat,
)
    requires
        size >= 0,
        n * size <= data.len(),
        n * size <= other.len(),
        data.subrange(0, n * size) == other.subrange(0, n * size),
    ensures
        blocks_on_line(num_blocks, size, data, n) == blocks_on_line(num_blocks, size, other, n),
    decreases n,
{
    if n > 0 {
        assert((n - 1) * size <= n * size) by (nonlinear_arith)
            requires
                n >= 1,
                size >= 0,
        ;
        assert(data.subrange(0, (n - 1) * size) =~= data.subrange(0, n * size).subrange(
            0,
            (n - 1) * size,
        ));
        assert(other.subrange(0, (n - 1) * size) =~= other.subrange(0, n * size).subrange(
            0,
            (n - 1) * size,
        ));
        lemma_blocks_on_line_ignore_the_rest(num_blocks, size, data, other, (n - 1) as nat);
        assert(data.subrange((n - 1) * size, n * size) =~= data.subrange(0, n * size).subrange(
            (n - 1) * size,
            n * size,
        ));
        assert(other.subrange((n - 1) * size, n * size) =~= other.subrange(0, n * size).subrange(
            (n - 1) * size,
            n * size,
        ));
    }
}

impl<SPI: SerialPort, CS: OutputPin> SpiBus<SPI, CS> {
    /// Writes the head of a block.
    pub fn start_write_block(&mut self) -> (r: Result<(), MciError>)
        ensures
            all_written(old(self)@, final(self)@, block_head(old(self)@.num_blocks), r),
    {
        let ghost before = self@;
        proof {
            lemma_nothing_added(before.sent);
            lemma_steps(
                before.sent,
                seq![Out::Byte(0xFF)],
                seq![Out::Byte(start_token(before.num_blocks))],
            );
            assert(seq![Out::Byte(0xFF)] + seq![Out::Byte(start_token(before.num_blocks))]
                =~= block_head(before.num_blocks));
            lemma_appended(before.sent, block_head(before.num_blocks));
        }
        if let Err(e) = self.write_byte(0xFF) {
            return Err(e);
        }
        let token = if self.num_blocks == 1 {
            WriteToken::SingleWrite
        } else {
            WriteToken::MultiWrite
        };
        let written = self.write_byte(token.code());
        proof {
            lemma_done(written);
        }
        written
    }

    /// Closes a block that was written.
    pub fn stop_write_block(&mut self, wait: bool) -> (r: Result<(), MciError>)
        ensures
            block_closed(old(self)@, final(self)@, wait, r),
    {
        let ghost before = self@;
        let trail = [0xFFu8, 0xFFu8];
        let written = self.write_bytes(&trail);
        proof {
            lemma_nothing_added(before.sent);
            lemma_appended(before.sent, block_trail());
            assert(bytes_out(trail@) =~= block_trail());
            assert(all_written(before, self@, block_trail(), written));
        }
        if let Err(e) = written {
            return Err(e);
        }
        let ghost trailed = self@;
        let token = match self.read_byte() {
            Err(e) => {
                return Err(e);
            },
            Ok(token) => token,
        };
        if let Err(e) = check_write_response(token) {
            return Err(e);
        }
        if wait {
            self.wait_busy()
        } else {
            Ok(())
        }
    }

    /// Ends a multiple block write where all its blocks have moved.
    pub fn stop_write_multi_block(&mut self) -> (r: Result<(), MciError>)
        ensures
            stop_sent(old(self)@, final(self)@, r),
    {
        if self.num_blocks <= 1 {
            return Ok(());
        }
        if self.block_size == 0 {
            return Err(MciError::Impl(ImplError::InvalidConfiguration));
        }
        if self.num_blocks > self.position / self.block_size || self.ended {
            return Ok(());
        }
        let ghost before = self@;
        proof {
            lemma_nothing_added(before.sent);
            lemma_steps(before.sent, seq![Out::Byte(0xFF)], seq![Out::Byte(0xFD)]);
            assert(seq![Out::Byte(0xFF)] + seq![Out::Byte(0xFD)] =~= stop_on_line());
            lemma_appended(before.sent, stop_on_line());
        }
        let first = self.write_byte(0xFF);
        if let Err(e) = first {
            assert(all_written(before, self@, stop_on_line(), Err::<(), MciError>(e)));
            return Err(e);
        }
        let second = self.write_byte(WriteToken::StopTransmit.code());
        proof {
            lemma_done(second);
            assert(all_written(before, self@, stop_on_line(), second));
        }
        if let Err(e) = second {
            return Err(e);
        }
        self.ended = true;
        self.wait_busy()
    }

    /// Writes one block from `blocks` at `offset`.
    pub fn write_block_from(&mut self, blocks: &[u8], offset: usize, wait: bool) -> (r: Result<
        (),
        MciError,
    >)
        requires
            old(self).block_size != 0,
            offset + old(self).block_size <= blocks@.len(),
            old(self).position + old(self).block_size <= usize::MAX,
        ensures
            block_written(
                old(self)@,
                final(self)@,
                blocks@.subrange(offset as int, offset + old(self).block_size),
                wait,
                r,
            ),
    {
        let ghost before = self@;
        let len = blocks.len();
        let ghost data = blocks@.subrange(offset as int, offset + before.block_size);
        let ghost head = block_head(before.num_blocks);
        proof {
            lemma_nothing_added(before.sent);
            lemma_nothing_added(before.heard);
            lemma_steps(before.sent, head, bytes_out(data));
            lemma_steps(before.sent, head + bytes_out(data), block_trail());
        }
        let opened = self.start_write_block();
        if let Err(e) = opened {
            proof {
                lemma_added_in_two_steps(self@.sent, before.sent + head, before.sent + (head
                    + bytes_out(data)));
                assert(all_written(before, self@, head + bytes_out(data), Err::<(), MciError>(e)));
            }
            return Err(e);
        }
        let size = self.block_size;
        let payload = slice_subrange(blocks, offset, offset + size);
        let written = self.write_bytes(payload);
        proof {
            lemma_done(written);
            assert(all_written(before, self@, head + bytes_out(data), written));
        }
        if let Err(e) = written {
            return Err(e);
        }
        let ghost loaded = self@;
        self.position += size;
        let ghost counted = self@;
        let closed = self.stop_write_block(wait);
        proof {
            lemma_done(closed);
            assert(moved_on(loaded, counted, data.len() as int));
            assert(block_closed(counted, self@, wait, closed));
            lemma_block_closed_frame(counted, self@, wait, closed);
            lemma_added_in_two_steps(before.sent, counted.sent, self@.sent);
        }
        closed
    }
}

/// Closing a block changes only what is on the line; a block closed well
/// adds the two bytes in place of the checksum and no fault.
pub proof fn lemma_block_closed_frame(before: SpiView, after: SpiView, wait: bool, r: Result<
    (),
    MciError,
>)
    requires
        block_closed(before, after, wait, r),
    ensures
        after == (SpiView {
            sent: after.sent,
            heard: after.heard,
            faults: after.faults,
            ..before
        }),
        continues(before.sent, after.sent),
        continues(before.heard, after.heard),
        r is Ok ==> after.faults == before.faults && after.sent == before.sent + block_trail(),
{
    lemma_nothing_added(before.sent);
    lemma_nothing_added(before.heard);
    let (trailed, written) = choose|trailed: SpiView, written: Result<(), MciError>| #[trigger]
        all_written(before, trailed, block_trail(), written) && match written {
            Err(e) => after == trailed && r == Err::<(), MciError>(e),
            Ok(_) => exists|answered: SpiView, token: Result<u8, MciError>| #[trigger]
                read(trailed, answered, token) && match token {
                    Err(e) => after == answered && r == Err::<(), MciError>(e),
                    Ok(token) => match write_response_error(token) {
                        Some(e) => after == answered && r == Err::<(), MciError>(e),
                        None => if wait {
                            busy_waited(answered, after, 2, true, r)
                        } else {
                            after == answered && r is Ok
                        },
                    },
                },
        };
    lemma_appended(before.sent, block_trail());
    if written is Ok {
        let (answered, token) = choose|answered: SpiView, token: Result<u8, MciError>| #[trigger]
            read(trailed, answered, token) && match token {
                Err(e) => after == answered && r == Err::<(), MciError>(e),
                Ok(token) => match write_response_error(token) {
                    Some(e) => after == answered && r == Err::<(), MciError>(e),
                    None => if wait {
                        busy_waited(answered, after, 2, true, r)
                    } else {
                        after == answered && r is Ok
                    },
                },
            };
        lemma_nothing_added(trailed.heard);
        if token is Ok {
            crate::bus::recorded::lemma_one_added(trailed.heard, trailed.heard, token->Ok_0);
            lemma_nothing_added(answered.heard);
            lemma_added_in_two_steps(before.heard, answered.heard, after.heard);
        }
    }
}

impl<SPI: SerialPort, CS: OutputPin> Write for SpiBus<SPI, CS> {
    /// Writes one word of the data phase.
    fn write_word(&mut self, word: u32) -> (r: Result<(), MciError>)
        ensures
            word_written(old(self)@, final(self)@, word, r),
    {
        if self.block_size == 0 || self.position > usize::MAX - 4 {
            return Err(MciError::Impl(ImplError::InvalidConfiguration));
        }
        let ghost before = self@;
        let ghost payload = bytes_out(word_bytes(word));
        proof {
            lemma_nothing_added(before.sent);
            lemma_steps(before.sent, block_head(before.num_blocks), payload);
            lemma_appended(before.sent, payload);
        }
        if self.position % self.block_size == 0 {
            let opened = self.start_write_block();
            if let Err(e) = opened {
                proof {
                    lemma_added_in_two_steps(
                        self@.sent,
                        before.sent + block_head(before.num_blocks),
                        before.sent + (block_head(before.num_blocks) + payload),
                    );
                    assert(all_written(
                        before,
                        self@,
                        word_on_line(before, word),
                        Err::<(), MciError>(e),
                    ));
                }
                return Err(e);
            }
        }
        let bytes = [
            field_u32(word, 24, 32) as u8,
            field_u32(word, 16, 24) as u8,
            field_u32(word, 8, 16) as u8,
            field_u32(word, 0, 8) as u8,
        ];
        assert(bytes@ =~= word_bytes(word));
        let written = self.write_bytes(&bytes);
        proof {
            lemma_done(written);
            assert(all_written(before, self@, word_on_line(before, word), written));
        }
        if let Err(e) = written {
            return Err(e);
        }
        let ghost loaded = self@;
        self.position += 4;
        let ghost counted = self@;
        proof {
            assert(moved_on(loaded, counted, 4));
        }
        if self.position % self.block_size == 0 {
            let accepted = self.stop_write_block(true);
            proof {
                lemma_done(accepted);
                lemma_block_closed_frame(counted, self@, true, accepted);
            }
            if let Err(e) = accepted {
                assert(word_closed(counted, self@, Err::<(), MciError>(e)));
                return Err(e);
            }
        }
        let stopped = self.stop_write_multi_block();
        assert(word_closed(counted, self@, stopped));
        stopped
    }

    /// Writes whole blocks from `blocks`.
    fn write_blocks(&mut self, blocks: &[u8]) -> (r: Result<(), MciError>)
        ensures
            buffer_written(old(self)@, final(self)@, blocks@, r),
    {
        if self.block_size == 0 || blocks.len() > usize::MAX - self.position {
            return Err(MciError::Impl(ImplError::InvalidConfiguration));
        }
        let ghost before = self@;
        proof {
            lemma_nothing_added(before.heard);
            assert(before.sent + Seq::<Out>::empty() =~= before.sent);
        }
        let size = self.block_size;
        let num_blocks = blocks.len() / size;
        assert(num_blocks * size <= blocks@.len()) by (nonlinear_arith)
            requires
                num_blocks == blocks@.len() / size as nat,
                size > 0,
        ;
        let ghost total = (blocks@.len() as int / before.block_size as int) as nat;
        assert(total == num_blocks);
        let mut i: usize = 0;
        while i < num_blocks
            invariant
                i <= num_blocks,
                size == before.block_size,
                size != 0,
                before == old(self)@,
                num_blocks == blocks@.len() / size as nat,
                total == num_blocks,
                total == (blocks@.len() as int / before.block_size as int) as nat,
                num_blocks * size <= blocks@.len(),
                before.position + blocks@.len() <= usize::MAX,
                blocks_written(before, self@, blocks@, i as nat, total),
            decreases num_blocks - i,
        {
            let ghost earlier = self@;
            proof {
                assert(i * size + size <= num_blocks * size) by (nonlinear_arith)
                    requires
                        i < num_blocks,
                        size > 0,
                ;
                assert((i + 1) * size == i * size + size) by (nonlinear_arith);
                assert(((i + 1) - 1) * before.block_size == i * size) by (nonlinear_arith)
                    requires
                        size == before.block_size,
                ;
            }
            let offset = i * size;
            let outcome = self.write_block_from(blocks, offset, i < num_blocks - 1);
            proof {
                lemma_done(outcome);
                lemma_added_in_two_steps(before.heard, earlier.heard, self@.heard);
            }
            match outcome {
                Err(e) => {
                    assert(block_written(
                        earlier,
                        self@,
                        blocks@.subrange(i * before.block_size, (i + 1) * before.block_size),
                        more_to_come((i + 1) as nat, total),
                        Err::<(), MciError>(e),
                    ));
                    assert(written_before_failure(before, earlier, blocks@, i as nat, total));
                    return Err(e);
                },
                Ok(()) => {
                    assert(block_written(
                        earlier,
                        self@,
                        blocks@.subrange(
                            ((i + 1) - 1) * before.block_size,
                            (i + 1) * before.block_size,
                        ),
                        more_to_come((i + 1) as nat, total),
                        Ok::<(), MciError>(()),
                    ));
                    assert(earlier.sent + block_on_line(
                        before.num_blocks,
                        blocks@.subrange(
                            ((i + 1) - 1) * before.block_size,
                            (i + 1) * before.block_size,
                        ),
                    ) =~= before.sent + blocks_on_line(
                        before.num_blocks,
                        before.block_size as int,
                        blocks@,
                        (i + 1) as nat,
                    ));
                },
            }
            i += 1;
        }
        Ok(())
    }

    /// Waits until the card has taken the last block, and ends a multiple
    /// block write.
    fn wait_until_write_finished(&mut self) -> (r: Result<(), MciError>)
        ensures
            write_finished(old(self)@, final(self)@, r),
    {
        if let Err(e) = self.wait_busy() {
            return Err(e);
        }
        self.stop_write_multi_block()
    }
}

} // verus!
