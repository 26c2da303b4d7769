//! Polling: a command is repeated until the card reports in its response
//! that it is done, or until the attempts run out.

use vstd::prelude::*;
use crate::bits::{bit32, bit_u32};
use crate::bus::recorded::{
    added, command, continues, failure, lemma_nothing_added, response, Call, Exchange, Record,
};
use crate::bus::Bus;
use crate::commands::SDMMC_CMD55_APP_CMD;
use crate::error::MciError;

verus! {

/// What a polling gives, from its run: the error of the call that failed;
/// else the last response where it has bit `stop_bit` set; else nothing.
pub open spec fn poll_result(stop_bit: u32, run: Record) -> Result<Option<u32>, MciError> {
    match failure(run) {
        Some(e) => Err(e),
        None => if run.len() > 0 && run.last().reply is Word && bit32(
            run.last().reply->Word_0,
            stop_bit,
        ) {
            Ok(Some(run.last().reply->Word_0))
        } else {
            Ok(None)
        },
    }
}

/// The call at position `i` of a polling that sends `cmd` with `arg` and
/// fetches the response, over and over.
pub open spec fn poll_call(cmd: u32, arg: u32, i: int) -> Call {
    if i % 2 == 0 {
        Call::Command { cmd, arg }
    } else {
        Call::Response
    }
}

/// `run` is such a polling: the calls come in their order, no call but the
/// last fails, every response is a word, and no response but the last has
/// bit `stop_bit` set.
pub open spec fn polled(cmd: u32, arg: u32, stop_bit: u32, run: Record) -> bool {
    &&& forall|i: int| 0 <= i < run.len() ==> (#[trigger] run[i]).call == poll_call(cmd, arg, i)
    &&& forall|i: int|
        0 <= i < run.len() - 1 ==> !((#[trigger] run[i]).reply is Failed) && !(i % 2 == 1
            && bit32(run[i].reply->Word_0, stop_bit))
    &&& forall|i: int|
        0 <= i < run.len() && i % 2 == 1 ==> (#[trigger] run[i]).reply is Word
            || run[i].reply is Failed
}

/// No exchange of `run` failed and no response had bit `stop_bit` set: the
/// polling goes on.
pub open spec fn still_polling(stop_bit: u32, run: Record) -> bool {
    forall|i: int|
        0 <= i < run.len() ==> !((#[trigger] run[i]).reply is Failed) && !(i % 2 == 1
            && bit32(run[i].reply->Word_0, stop_bit))
}

/// A polling that goes on stays a polling when the call that is due is
/// added, and goes on where that call neither failed nor brought the bit.
pub proof fn lemma_polling_goes_on(cmd: u32, arg: u32, stop_bit: u32, run: Record, next: Exchange)
    requires
        polled(cmd, arg, stop_bit, run),
        still_polling(stop_bit, run),
        next.call == poll_call(cmd, arg, run.len() as int),
        run.len() % 2 == 1 ==> next.reply is Word || next.reply is Failed,
    ensures
        polled(cmd, arg, stop_bit, run.push(next)),
        !(next.reply is Failed) && !(run.len() % 2 == 1 && bit32(
            next.reply->Word_0,
            stop_bit,
        )) ==> still_polling(stop_bit, run.push(next)),
{
    let longer = run.push(next);
    assert forall|i: int| 0 <= i < longer.len() implies (#[trigger] longer[i]).call == poll_call(
        cmd, arg,
        i,
    ) by {
        if i < run.len() {
            assert(longer[i] == run[i]);
        }
    }
    assert forall|i: int| 0 <= i < longer.len() - 1 implies !((#[trigger] longer[i]).reply is Failed)
        && !(i % 2 == 1 && bit32(longer[i].reply->Word_0, stop_bit)) by {
        assert(longer[i] == run[i]);
    }
    assert forall|i: int| 0 <= i < longer.len() && i % 2 == 1 implies (
    #[trigger] longer[i]).reply is Word || longer[i].reply is Failed by {
        if i < run.len() {
            assert(longer[i] == run[i]);
        }
    }
    if !(next.reply is Failed) && !(run.len() % 2 == 1 && bit32(
        next.reply->Word_0,
        stop_bit,
    )) {
        assert forall|i: int| 0 <= i < longer.len() implies !((#[trigger] longer[i]).reply is Failed)
            && !(i % 2 == 1 && bit32(longer[i].reply->Word_0, stop_bit)) by {
            if i < run.len() {
                assert(longer[i] == run[i]);
            }
        }
    }
}

/// The record grew by such a polling of at most `attempts` rounds, and `r` is
/// what it gave. A polling stops at the first failure and at the first
/// response with bit `stop_bit` set; it gives nothing only after all the
/// rounds.
pub open spec fn polling(
    before: Record,
    after: Record,
    cmd: u32, arg: u32,
    stop_bit: u32,
    attempts: int,
    r: Result<Option<u32>, MciError>,
) -> bool {
    let run = added(before, after);
    &&& continues(before, after)
    &&& run.len() <= 2 * attempts
    &&& polled(cmd, arg, stop_bit, run)
    &&& r == poll_result(stop_bit, run)
    &&& match r {
        Err(e) => true,
        Ok(Some(word)) => run.len() % 2 == 0,
        Ok(None) => run.len() == 2 * attempts && still_polling(stop_bit, run),
    }
}

/// Sends `cmd` with `arg` and fetches the response, up to `attempts` times,
/// until a response has bit `stop_bit` set. Gives that response, or nothing
/// where the attempts ran out.
pub fn poll<B: Bus>(
    bus: &mut B,
    record: &mut Ghost<Record>,
    cmd: u32,
    arg: u32,
    stop_bit: usize,
    attempts: u32,
) -> (r: Result<Option<u32>, MciError>)
    requires
        stop_bit < 32,
    ensures
        polling(old(record)@, final(record)@, cmd, arg, stop_bit as u32, attempts as int, r),
{
    proof {
        lemma_nothing_added(record@);
    }
    let ghost start = record@;
    let mut round: u32 = 0;
    while round < attempts
        invariant
            round <= attempts,
            stop_bit < 32,
            start == old(record)@,
            continues(start, record@),
            added(start, record@).len() == 2 * round,
            polled(cmd, arg, stop_bit as u32, added(start, record@)),
            still_polling(stop_bit as u32, added(start, record@)),
        decreases attempts - round,
    {
        let ghost run = added(start, record@);
        let sent = command(bus, record, cmd, arg);
        proof {
            lemma_polling_goes_on(cmd, arg, stop_bit as u32, run, record@.last());
        }
        if let Err(e) = sent {
            return Err(e);
        }
        let ghost run = added(start, record@);
        let answer = response(bus, record);
        proof {
            lemma_polling_goes_on(cmd, arg, stop_bit as u32, run, record@.last());
        }
        let word = match answer {
            Err(e) => {
                return Err(e);
            },
            Ok(word) => word,
        };
        if bit_u32(word, stop_bit) {
            return Ok(Some(word));
        }
        round += 1;
    }
    Ok(None)
}

/// The call at position `i` of a polling that announces an application
/// command, sends `cmd` with `arg` and fetches the response, over and over.
pub open spec fn application_poll_call(app_arg: u32, cmd: u32, arg: u32, i: int) -> Call {
    if i % 3 == 0 {
        Call::Command { cmd: SDMMC_CMD55_APP_CMD, arg: app_arg }
    } else if i % 3 == 1 {
        Call::Command { cmd, arg }
    } else {
        Call::Response
    }
}

/// `run` is such a polling: the calls come in their order, no call but the
/// last fails, every response is a word, and no response but the last has
/// bit `stop_bit` set.
pub open spec fn application_polled(app_arg: u32, cmd: u32, arg: u32, stop_bit: u32, run: Record) -> bool {
    &&& forall|i: int| 0 <= i < run.len() ==> (#[trigger] run[i]).call == application_poll_call(app_arg, cmd, arg, i)
    &&& forall|i: int|
        0 <= i < run.len() - 1 ==> !((#[trigger] run[i]).reply is Failed) && !(i % 3 == 2
            && bit32(run[i].reply->Word_0, stop_bit))
    &&& forall|i: int|
        0 <= i < run.len() && i % 3 == 2 ==> (#[trigger] run[i]).reply is Word
            || run[i].reply is Failed
}

/// No exchange of `run` failed and no response had bit `stop_bit` set: the
/// polling goes on.
pub open spec fn still_polling_application(stop_bit: u32, run: Record) -> bool {
    forall|i: int|
        0 <= i < run.len() ==> !((#[trigger] run[i]).reply is Failed) && !(i % 3 == 2
            && bit32(run[i].reply->Word_0, stop_bit))
}

/// A polling that goes on stays a polling when the call that is due is
/// added, and goes on where that call neither failed nor brought the bit.
pub proof fn lemma_application_polling_goes_on(app_arg: u32, cmd: u32, arg: u32, stop_bit: u32, run: Record, next: Exchange)
    requires
        application_polled(app_arg, cmd, arg, stop_bit, run),
        still_polling_application(stop_bit, run),
        next.call == application_poll_call(app_arg, cmd, arg, run.len() as int),
        run.len() % 3 == 2 ==> next.reply is Word || next.reply is Failed,
    ensures
        application_polled(app_arg, cmd, arg, stop_bit, run.push(next)),
        !(next.reply is Failed) && !(run.len() % 3 == 2 && bit32(
            next.reply->Word_0,
            stop_bit,
        )) ==> still_polling_application(stop_bit, run.push(next)),
{
    let longer = run.push(next);
    assert forall|i: int| 0 <= i < longer.len() implies (#[trigger] longer[i]).call == application_poll_call(
        app_arg, cmd, arg,
        i,
    ) by {
        if i < run.len() {
            assert(longer[i] == run[i]);
        }
    }
    assert forall|i: int| 0 <= i < longer.len() - 1 implies !((#[trigger] longer[i]).reply is Failed)
        && !(i % 3 == 2 && bit32(longer[i].reply->Word_0, stop_bit)) by {
        assert(longer[i] == run[i]);
    }
    assert forall|i: int| 0 <= i < longer.len() && i % 3 == 2 implies (
    #[trigger] longer[i]).reply is Word || longer[i].reply is Failed by {
        if i < run.len() {
            assert(longer[i] == run[i]);
        }
    }
    if !(next.reply is Failed) && !(run.len() % 3 == 2 && bit32(
        next.reply->Word_0,
        stop_bit,
    )) {
        assert forall|i: int| 0 <= i < longer.len() implies !((#[trigger] longer[i]).reply is Failed)
            && !(i % 3 == 2 && bit32(longer[i].reply->Word_0, stop_bit)) by {
            if i < run.len() {
                assert(longer[i] == run[i]);
            }
        }
    }
}

/// The record grew by such a polling of at most `attempts` rounds, and `r` is
/// what it gave. A polling stops at the first failure and at the first
/// response with bit `stop_bit` set; it gives nothing only after all the
/// rounds.
pub open spec fn application_polling(
    before: Record,
    after: Record,
    app_arg: u32, cmd: u32, arg: u32,
    stop_bit: u32,
    attempts: int,
    r: Result<Option<u32>, MciError>,
) -> bool {
    let run = added(before, after);
    &&& continues(before, after)
    &&& run.len() <= 3 * attempts
    &&& application_polled(app_arg, cmd, arg, stop_bit, run)
    &&& r == poll_result(stop_bit, run)
    &&& match r {
        Err(e) => true,
        Ok(Some(word)) => run.len() % 3 == 0,
        Ok(None) => run.len() == 3 * attempts && still_polling_application(stop_bit, run),
    }
}

/// Announces an application command, sends `cmd` with `arg` and fetches the
/// response, up to `attempts` times, until a response has bit `stop_bit` set.
/// Gives that response, or nothing where the attempts ran out.
pub fn poll_application<B: Bus>(
    bus: &mut B,
    record: &mut Ghost<Record>,
    app_arg: u32,
    cmd: u32,
    arg: u32,
    stop_bit: usize,
    attempts: u32,
) -> (r: Result<Option<u32>, MciError>)
    requires
        stop_bit < 32,
    ensures
        application_polling(old(record)@, final(record)@, app_arg, cmd, arg, stop_bit as u32, attempts as int, r),
{
    proof {
        lemma_nothing_added(record@);
    }
    let ghost start = record@;
    let mut round: u32 = 0;
    while round < attempts
        invariant
            round <= attempts,
            stop_bit < 32,
            start == old(record)@,
            continues(start, record@),
            added(start, record@).len() == 3 * round,
            application_polled(app_arg, cmd, arg, stop_bit as u32, added(start, record@)),
            still_polling_application(stop_bit as u32, added(start, record@)),
        decreases attempts - round,
    {
        let ghost run = added(start, record@);
        let announced = command(bus, record, SDMMC_CMD55_APP_CMD, app_arg);
        proof {
            lemma_application_polling_goes_on(
                app_arg,
                cmd,
                arg,
                stop_bit as u32,
                run,
                record@.last(),
            );
        }
        if let Err(e) = announced {
            return Err(e);
        }
        let ghost run = added(start, record@);
        let sent = command(bus, record, cmd, arg);
        proof {
            lemma_application_polling_goes_on(
                app_arg,
                cmd,
                arg,
                stop_bit as u32,
                run,
                record@.last(),
            );
        }
        if let Err(e) = sent {
            return Err(e);
        }
        let ghost run = added(start, record@);
        let answer = response(bus, record);
        proof {
            lemma_application_polling_goes_on(app_arg, cmd, arg, stop_bit as u32, run, record@.last());
        }
        let word = match answer {
            Err(e) => {
                return Err(e);
            },
            Ok(word) => word,
        };
        if bit_u32(word, stop_bit) {
            return Ok(Some(word));
        }
        round += 1;
    }
    Ok(None)
}

} // verus!
