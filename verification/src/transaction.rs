//! The handle of a block transfer.

use vstd::prelude::*;

verus! {

/// A block transfer in progress: how many blocks it moves in all and how many
/// are still to come.
#[derive(Clone, Copy, Debug, PartialEq, Eq, Structural)]
pub struct Transaction {
    pub total: u16,
    pub remain: u16,
}

impl Transaction {
    /// No more blocks remain than the transfer has.
    pub open spec fn is_valid(self) -> bool {
        self.remain <= self.total
    }

    /// The transfer has moved all its blocks, or was given up.
    pub open spec fn is_finished(self) -> bool {
        self.remain == 0
    }

    /// A transfer of `num_blocks` blocks of which none has moved yet.
    pub open spec fn fresh(num_blocks: u16) -> Transaction {
        Transaction { total: num_blocks, remain: num_blocks }
    }

    /// The transfer after a batch of `blocks` blocks: they are taken off
    /// where the batch went through, and nothing remains where it failed.
    pub open spec fn after_batch(self, ok: bool, blocks: int) -> Transaction {
        Transaction { total: self.total, remain: if ok { (self.remain - blocks) as u16 } else { 0 } }
    }

    /// The transfer after the wait that follows a batch: giving up leaves
    /// nothing to come.
    pub open spec fn after_wait(self, abort: bool) -> Transaction {
        Transaction { total: self.total, remain: if abort { 0 } else { self.remain } }
    }

    /// Starts a transfer of `num_blocks` blocks.
    pub fn new(num_blocks: u16) -> (r: Self)
        ensures
            r == Transaction::fresh(num_blocks),
            r.is_valid(),
    {
        Self { total: num_blocks, remain: num_blocks }
    }
}

/// A transfer whose one batch covers all its blocks is finished after the
/// wait, whether the batch went through or failed and whether the wait gave
/// up or not.
pub proof fn lemma_whole_batch_finishes(num_blocks: u16, ok: bool, abort: bool)
    ensures
        Transaction::fresh(num_blocks).after_batch(ok, num_blocks as int).after_wait(
            abort,
        ).is_finished(),
{
}

/// Batches and waits keep a transfer valid as long as no batch is larger than
/// what remains.
pub proof fn lemma_steps_keep_validity(t: Transaction, ok: bool, blocks: int, abort: bool)
    requires
        t.is_valid(),
        0 <= blocks <= t.remain,
    ensures
        t.after_batch(ok, blocks).is_valid(),
        t.after_wait(abort).is_valid(),
{
}

} // verus!
