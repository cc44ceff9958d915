//! The decisions of the corpus writer: which batches are written, and what
//! becomes of the artifact when it is closed.

use vstd::prelude::*;

verus! {

/// What is done with a batch.
#[derive(Debug, Clone, Copy, PartialEq, Eq, Structural)]
pub enum BatchAction {
    /// The batch has no row: it is reported and not written.
    ReportEmpty,
    /// The batch is appended to the artifact.
    Write,
}

/// What is done with an artifact when it is closed.
#[derive(Debug, Clone, Copy, PartialEq, Eq, Structural)]
pub enum CloseAction {
    /// The artifact holds records: it stays.
    Keep,
    /// No record was ever written to the artifact: it is deleted.
    Remove,
}

/// The codec level that every artifact is compressed with.
pub const COMPRESSION_LEVEL: i32 = 3;

/// The number of rows at which a buffer of rows is written out.
pub const FLUSH_ROWS: usize = 1_000_000;

/// The number of files that are converted at the same time.
pub const FILES_IN_FLIGHT: usize = 50;

/// The sum of two counts, held at the largest count where it would exceed it.
pub open spec fn capped_sum(a: nat, b: nat) -> nat {
    if a + b > u64::MAX {
        u64::MAX as nat
    } else {
        a + b
    }
}

/// The count of records after batches of the given sizes were written.
pub open spec fn tally(batches: Seq<nat>) -> nat
    decreases batches.len(),
{
    if batches.len() == 0 {
        0
    } else {
        capped_sum(tally(batches.drop_last()), batches.last())
    }
}

/// What is done with an artifact that batches of the given sizes were written to.
pub open spec fn close_action_after(batches: Seq<nat>) -> CloseAction {
    if tally(batches) == 0 {
        CloseAction::Remove
    } else {
        CloseAction::Keep
    }
}

/// An artifact is removed when it is closed exactly when no batch that was
/// written to it had a row: an artifact without records does not stay.
pub proof fn lemma_removed_iff_nothing_written(batches: Seq<nat>)
    ensures
        close_action_after(batches) == CloseAction::Remove <==> forall|i: int|
            0 <= i < batches.len() ==> batches[i] == 0,
    decreases batches.len(),
{
    if batches.len() > 0 {
        let shorter = batches.drop_last();
        lemma_removed_iff_nothing_written(shorter);
        assert(forall|i: int| 0 <= i < shorter.len() ==> shorter[i] == batches[i]);
        if forall|i: int| 0 <= i < batches.len() ==> batches[i] == 0 {
            assert forall|i: int| 0 <= i < shorter.len() implies shorter[i] == 0 by {
                assert(shorter[i] == batches[i]);
            }
        }
    }
}

/// The account of one artifact: how many records were written to it.
#[derive(Debug, Clone, Copy, PartialEq, Eq, Structural)]
pub struct ArtifactLedger {
    written: u64,
}

impl ArtifactLedger {
    /// The number of records written so far, held at the largest count.
    pub closed spec fn written(self) -> nat {
        self.written as nat
    }

    /// The account of a new artifact.
    pub fn new() -> (ledger: ArtifactLedger)
        ensures
            ledger.written() == tally(Seq::empty()),
            ledger.written() == 0,
    {
        ArtifactLedger { written: 0 }
    }

    /// The number of records written so far.
    pub fn records(&self) -> (n: u64)
        ensures
            n == self.written(),
    {
        self.written
    }

    /// Decides what is done with a batch of `rows` rows.
    pub fn plan_batch(rows: usize) -> (action: BatchAction)
        ensures
            action == BatchAction::Write <==> rows > 0,
    {
        if rows == 0 {
            BatchAction::ReportEmpty
        } else {
            BatchAction::Write
        }
    }

    /// Notes that a batch of `rows` rows was written.
    pub fn batch_written(&mut self, rows: usize)
        ensures
            final(self).written() == capped_sum(old(self).written(), rows as nat),
            forall|batches: Seq<nat>|
                old(self).written() == tally(batches) ==> final(self).written() == #[trigger] tally(
                    batches.push(rows as nat),
                ),
    {
        let rows = rows as u64;
        self.written = if rows > u64::MAX - self.written {
            u64::MAX
        } else {
            self.written + rows
        };
        proof {
            assert forall|batches: Seq<nat>| old(self).written() == tally(batches) implies self.written()
                == #[trigger] tally(batches.push(rows as nat)) by {
                assert(batches.push(rows as nat).drop_last() =~= batches);
            }
        }
    }

    /// Decides what becomes of the artifact when it is closed: it is removed
    /// exactly when no record was written to it.
    pub fn close(&self) -> (action: CloseAction)
        ensures
            action == CloseAction::Remove <==> self.written() == 0,
            forall|batches: Seq<nat>|
                self.written() == tally(batches) ==> action == #[trigger] close_action_after(
                    batches,
                ),
    {
        if self.written == 0 {
            CloseAction::Remove
        } else {
            CloseAction::Keep
        }
    }
}

} // verus!
