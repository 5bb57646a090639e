//! The steps of loading one batch: open a transaction, execute one
//! statement per record in the order of the records, commit. The caller
//! performs each step against the store and reports how it went; the first
//! failure ends the batch without a commit.

use vstd::prelude::*;

verus! {

/// How the store answered the last step.
#[derive(Clone, Copy, Debug, PartialEq, Eq, Structural)]
pub enum StoreReply {
    /// The step was carried out.
    Done,
    /// The step failed.
    Failed,
}

/// What the caller is to do next.
#[derive(Clone, Copy, Debug, PartialEq, Eq, Structural)]
pub enum BatchAction {
    /// Open the transaction.
    Begin,
    /// Execute the statement of the record at this position.
    Execute(usize),
    /// Commit the transaction.
    Commit,
    /// Hand back the identifiers: the batch is in the store.
    Succeed,
    /// Give up the transaction, so that the store rolls it back, and hand
    /// back the error.
    Fail,
}

/// Where the loading of a batch stands.
#[derive(Clone, Copy, Debug, PartialEq, Eq, Structural)]
pub enum BatchState {
    /// The transaction is being opened.
    Opening,
    /// The statement of the record at this position is being executed.
    Executing(usize),
    /// The transaction is being committed.
    Committing,
    /// The transaction was committed.
    Committed,
    /// A step failed; nothing of the batch was committed.
    Failed,
}

impl BatchState {
    /// A state of a batch of `size` records names a record only if the
    /// batch has it. The first state is valid and every step keeps a valid
    /// state valid.
    pub open spec fn is_valid(self, size: nat) -> bool {
        self matches BatchState::Executing(index) ==> index < size
    }

    /// The step that a state asks for.
    pub open spec fn pending(self) -> BatchAction {
        match self {
            BatchState::Opening => BatchAction::Begin,
            BatchState::Executing(index) => BatchAction::Execute(index),
            BatchState::Committing => BatchAction::Commit,
            BatchState::Committed => BatchAction::Succeed,
            BatchState::Failed => BatchAction::Fail,
        }
    }

    /// The state that follows `self` in a batch of `size` records once the
    /// store has answered the pending step with `reply`. A failure of any
    /// step ends the batch; the two final states stay as they are.
    pub open spec fn after(self, size: nat, reply: StoreReply) -> BatchState {
        match self {
            BatchState::Committed => BatchState::Committed,
            BatchState::Failed => BatchState::Failed,
            _ => if reply is Failed {
                BatchState::Failed
            } else {
                match self {
                    BatchState::Opening => if size == 0 {
                        BatchState::Committing
                    } else {
                        BatchState::Executing(0)
                    },
                    BatchState::Executing(index) => if index + 1 < size {
                        BatchState::Executing((index + 1) as usize)
                    } else {
                        BatchState::Committing
                    },
                    _ => BatchState::Committed,
                }
            },
        }
    }

    /// The state in which every batch starts.
    pub fn start() -> (state: BatchState)
        ensures
            state == BatchState::Opening,
    {
        BatchState::Opening
    }

    /// The step to perform now.
    pub fn action(&self) -> (action: BatchAction)
        ensures
            action == self.pending(),
    {
        match self {
            BatchState::Opening => BatchAction::Begin,
            BatchState::Executing(index) => BatchAction::Execute(*index),
            BatchState::Committing => BatchAction::Commit,
            BatchState::Committed => BatchAction::Succeed,
            BatchState::Failed => BatchAction::Fail,
        }
    }

    /// Takes the store's answer to the pending step and moves on.
    pub fn step(self, size: usize, reply: StoreReply) -> (next: BatchState)
        ensures
            next == self.after(size as nat, reply),
            self.is_valid(size as nat) ==> next.is_valid(size as nat),
    {
        match self {
            BatchState::Committed => BatchState::Committed,
            BatchState::Failed => BatchState::Failed,
            BatchState::Opening => match reply {
                StoreReply::Failed => BatchState::Failed,
                StoreReply::Done => if size == 0 {
                    BatchState::Committing
                } else {
                    BatchState::Executing(0)
                },
            },
            BatchState::Executing(index) => match reply {
                StoreReply::Failed => BatchState::Failed,
                StoreReply::Done => if size > 0 && index < size - 1 {
                    BatchState::Executing(index + 1)
                } else {
                    BatchState::Committing
                },
            },
            BatchState::Committing => match reply {
                StoreReply::Failed => BatchState::Failed,
                StoreReply::Done => BatchState::Committed,
            },
        }
    }
}

/// The state of a batch of `size` records once the store has answered with
/// `replies`, one step after the other.
pub open spec fn state_after(size: nat, replies: Seq<StoreReply>) -> BatchState
    decreases replies.len(),
{
    if replies.len() == 0 {
        BatchState::Opening
    } else {
        state_after(size, replies.drop_last()).after(size, replies.last())
    }
}

/// The store carried out every step.
pub open spec fn all_done(replies: Seq<StoreReply>) -> bool {
    forall|k: int| 0 <= k < replies.len() ==> #[trigger] replies[k] is Done
}

/// The state of a batch of `size` records after `steps` steps that the
/// store carried out: the transaction is open after the first, then the
/// records follow in their order, then the commit.
pub open spec fn progress(size: nat, steps: nat) -> BatchState {
    if steps == 0 {
        BatchState::Opening
    } else if steps <= size {
        BatchState::Executing((steps - 1) as usize)
    } else if steps == size + 1 {
        BatchState::Committing
    } else {
        BatchState::Committed
    }
}

/// While the store carries out every step, a batch goes through its steps
/// in order: open, one statement per record in the order of the records,
/// commit, succeed. So a batch of `size` records executes exactly `size`
/// statements before its commit, and an empty batch commits without
/// executing any.
pub proof fn lemma_steps_in_order(size: nat, replies: Seq<StoreReply>)
    requires
        size <= usize::MAX,
        all_done(replies),
    ensures
        state_after(size, replies) == progress(size, replies.len()),
    decreases replies.len(),
{
    if replies.len() > 0 {
        let earlier = replies.drop_last();
        assert forall|k: int| 0 <= k < earlier.len() implies #[trigger] earlier[k] is Done by {
            assert(earlier[k] == replies[k]);
        }
        lemma_steps_in_order(size, earlier);
        assert(replies.last() == replies[replies.len() - 1]);
    }
}

/// A step that fails before the commit has been acknowledged ends the batch
/// as failed.
pub proof fn lemma_failure_fails(size: nat, replies: Seq<StoreReply>, k: int)
    requires
        size <= usize::MAX,
        0 <= k < replies.len(),
        k <= size + 1,
        replies[k] is Failed,
    ensures
        state_after(size, replies) is Failed,
    decreases replies.len(),
{
    let earlier = replies.drop_last();
    if k < earlier.len() {
        assert(earlier[k] == replies[k]);
        lemma_failure_fails(size, earlier, k);
    } else if all_done(earlier) {
        lemma_steps_in_order(size, earlier);
    } else {
        let j = choose|j: int| 0 <= j < earlier.len() && !(#[trigger] earlier[j] is Done);
        lemma_failure_fails(size, earlier, j);
    }
}

/// Once a batch has been committed or has failed, later answers change
/// nothing.
pub proof fn lemma_final_state_stays(size: nat, replies: Seq<StoreReply>, n: int)
    requires
        0 <= n <= replies.len(),
        state_after(size, replies.take(n)) is Committed || state_after(size, replies.take(n))
            is Failed,
    ensures
        state_after(size, replies) == state_after(size, replies.take(n)),
    decreases replies.len(),
{
    if n == replies.len() {
        assert(replies.take(n) =~= replies);
    } else {
        assert(replies.drop_last().take(n) =~= replies.take(n));
        lemma_final_state_stays(size, replies.drop_last(), n);
    }
}

/// All or nothing: a batch of `size` records is committed if and only if
/// the store carried out the opening of the transaction, every one of the
/// `size` statements, and the commit.
pub proof fn lemma_committed_iff_all_done(size: nat, replies: Seq<StoreReply>)
    requires
        size <= usize::MAX,
    ensures
        state_after(size, replies) is Committed <==> replies.len() >= size + 2 && all_done(
            replies.take(size as int + 2),
        ),
{
    if replies.len() < size + 2 {
        if all_done(replies) {
            lemma_steps_in_order(size, replies);
        } else {
            let j = choose|j: int| 0 <= j < replies.len() && !(#[trigger] replies[j] is Done);
            lemma_failure_fails(size, replies, j);
        }
    } else {
        let needed = replies.take(size as int + 2);
        if all_done(needed) {
            lemma_steps_in_order(size, needed);
        } else {
            let j = choose|j: int| 0 <= j < needed.len() && !(#[trigger] needed[j] is Done);
            lemma_failure_fails(size, needed, j);
        }
        lemma_final_state_stays(size, replies, size as int + 2);
    }
}

/// After a failure of the opening or of a statement, no commit is ever
/// asked for: at every moment the batch is still before its commit, or has
/// failed.
pub proof fn lemma_no_commit_after_failure(size: nat, replies: Seq<StoreReply>, k: int, n: int)
    requires
        size <= usize::MAX,
        0 <= k < replies.len(),
        k <= size,
        replies[k] is Failed,
        0 <= n <= replies.len(),
    ensures
        state_after(size, replies.take(n)).pending() != BatchAction::Commit,
        state_after(size, replies.take(n)).pending() != BatchAction::Succeed,
{
    let seen = replies.take(n);
    if all_done(seen) {
        lemma_steps_in_order(size, seen);
        if n > k {
            assert(seen[k] == replies[k]);
        }
    } else {
        let j = choose|j: int| 0 <= j < seen.len() && !(#[trigger] seen[j] is Done);
        if n > k {
            assert(seen[k] == replies[k]);
            lemma_failure_fails(size, seen, k);
        } else {
            lemma_failure_fails(size, seen, j);
        }
    }
}

} // verus!
