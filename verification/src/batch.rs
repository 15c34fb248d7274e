//! The batch: the descriptors of a configuration, run strictly one after
//! another, in the order of the list. The first node that fails ends the
//! batch, and its error is the one that the process surfaces.

use vstd::prelude::*;
use crate::orchestrator::RunError;

verus! {

/// Why nothing was provisioned at all.
#[derive(Clone, Copy, Debug, PartialEq, Eq, Structural)]
pub enum PreflightError {
    /// The local benchmark binary does not exist.
    MissingBench,
    /// The local experiment driver script does not exist.
    MissingScript,
}

/// Decides, before anything is provisioned, whether the run may start: both
/// local artifacts must exist. The benchmark binary is looked at first.
pub fn preflight(bench_exists: bool, script_exists: bool) -> (r: Result<(), PreflightError>)
    ensures
        r is Ok <==> bench_exists && script_exists,
        !bench_exists ==> r == Err::<(), PreflightError>(PreflightError::MissingBench),
        bench_exists && !script_exists ==> r == Err::<(), PreflightError>(
            PreflightError::MissingScript,
        ),
{
    if !bench_exists {
        Err(PreflightError::MissingBench)
    } else if !script_exists {
        Err(PreflightError::MissingScript)
    } else {
        Ok(())
    }
}

/// The node that ended the batch and its error.
#[derive(Clone, Copy, Debug, PartialEq, Eq, Structural)]
pub struct BatchError {
    /// Position of the node in the configuration list.
    pub index: usize,
    pub error: RunError,
}

/// Exit status of a process whose batch succeeded.
pub const EXIT_SUCCESS: u8 = 0;

/// Exit status of a process that surfaces an error.
pub const EXIT_FAILURE: u8 = 1;

/// The batch as a mathematical value.
pub struct BatchState {
    /// Number of descriptors.
    pub total: nat,
    /// Number of nodes whose run is over.
    pub next: nat,
    /// The error of the node at `next`, once it has failed.
    pub failed: Option<RunError>,
}

impl BatchState {
    pub open spec fn initial(total: nat) -> BatchState {
        BatchState { total, next: 0, failed: None }
    }

    pub open spec fn wf(self) -> bool {
        &&& self.next <= self.total <= usize::MAX
        &&& self.failed is Some ==> self.next < self.total
    }

    /// Position of the node to run now, if any.
    pub open spec fn pending(self) -> Option<nat> {
        if self.failed is None && self.next < self.total {
            Some(self.next)
        } else {
            None
        }
    }

    /// The state after the pending node's run. With no node pending,
    /// nothing changes.
    pub open spec fn next_state(self, outcome: Result<(), RunError>) -> BatchState {
        if self.pending() is None {
            self
        } else {
            match outcome {
                Ok(()) => BatchState { next: self.next + 1, ..self },
                Err(e) => BatchState { failed: Some(e), ..self },
            }
        }
    }

    /// How the batch ended, once it has.
    pub open spec fn result(self) -> Option<Result<(), BatchError>> {
        match self.failed {
            Some(error) => Some(Err(BatchError { index: self.next as usize, error })),
            None => if self.next < self.total {
                None
            } else {
                Some(Ok(()))
            },
        }
    }

    /// The state after a sequence of node outcomes, first to last.
    pub open spec fn run(self, outcomes: Seq<Result<(), RunError>>) -> BatchState
        decreases outcomes.len(),
    {
        if outcomes.len() == 0 {
            self
        } else {
            self.run(outcomes.drop_last()).next_state(outcomes.last())
        }
    }
}

/// Every outcome is a success.
pub open spec fn all_succeeded(outcomes: Seq<Result<(), RunError>>) -> bool {
    forall|i: int| 0 <= i < outcomes.len() ==> (#[trigger] outcomes[i]) is Ok
}

/// The exit status for a batch result: zero for a batch that ran to its end
/// without an error, non-zero otherwise.
pub fn exit_code(result: Result<(), BatchError>) -> (code: u8)
    ensures
        code == if result is Ok {
            EXIT_SUCCESS
        } else {
            EXIT_FAILURE
        },
        code == 0 <==> result is Ok,
{
    match result {
        Ok(()) => EXIT_SUCCESS,
        Err(_) => EXIT_FAILURE,
    }
}

/// The batch of one configuration.
#[derive(Clone, Copy, Debug)]
pub struct Batch {
    total: usize,
    next: usize,
    failed: Option<RunError>,
}

impl View for Batch {
    type V = BatchState;

    closed spec fn view(&self) -> BatchState {
        BatchState { total: self.total as nat, next: self.next as nat, failed: self.failed }
    }
}

impl Batch {
    #[verifier::type_invariant]
    spec fn inv(self) -> bool {
        self@.wf()
    }

    /// A batch of `total` descriptors, none of them run yet.
    pub fn new(total: usize) -> (batch: Batch)
        ensures
            batch@ == BatchState::initial(total as nat),
    {
        Batch { total, next: 0, failed: None }
    }

    /// Position of the node to run now. `None` when the batch has ended.
    pub fn pending(&self) -> (index: Option<usize>)
        ensures
            self@.wf(),
            match index {
                Some(i) => self@.pending() == Some(i as nat),
                None => self@.pending() is None,
            },
    {
        proof {
            use_type_invariant(self);
        }
        if self.failed.is_none() && self.next < self.total {
            Some(self.next)
        } else {
            None
        }
    }

    /// Takes in how the pending node's run ended.
    pub fn record(&mut self, outcome: Result<(), RunError>)
        ensures
            old(self)@.wf(),
            final(self)@ == old(self)@.next_state(outcome),
            final(self)@.wf(),
    {
        proof {
            use_type_invariant(&*self);
        }
        if self.failed.is_none() && self.next < self.total {
            match outcome {
                Ok(()) => {
                    self.next = self.next + 1;
                },
                Err(e) => {
                    self.failed = Some(e);
                },
            }
        }
    }

    /// Feeds a whole sequence of node outcomes to a fresh batch.
    pub fn replay(total: usize, outcomes: &Vec<Result<(), RunError>>) -> (batch: Batch)
        ensures
            batch@ == BatchState::initial(total as nat).run(outcomes@),
    {
        let mut batch = Batch::new(total);
        let mut i: usize = 0;
        assert(outcomes@.take(0) =~= Seq::empty());
        while i < outcomes.len()
            invariant
                i <= outcomes@.len(),
                batch@ == BatchState::initial(total as nat).run(outcomes@.take(i as int)),
            decreases outcomes@.len() - i,
        {
            proof {
                assert(outcomes@.take(i + 1).drop_last() =~= outcomes@.take(i as int));
            }
            batch.record(outcomes[i]);
            i += 1;
        }
        assert(outcomes@.take(i as int) =~= outcomes@);
        batch
    }

    /// How the batch ended; `None` while nodes are left.
    pub fn result(&self) -> (r: Option<Result<(), BatchError>>)
        ensures
            r == self@.result(),
    {
        match self.failed {
            Some(error) => Some(Err(BatchError { index: self.next, error })),
            None => if self.next < self.total {
                None
            } else {
                Some(Ok(()))
            },
        }
    }
}

/// Well-formedness survives every outcome.
pub proof fn lemma_batch_next_preserves_wf(s: BatchState, outcome: Result<(), RunError>)
    requires
        s.wf(),
    ensures
        s.next_state(outcome).wf(),
{
}

/// A batch that has ended stays as it is: no node is run after the end.
pub proof fn lemma_batch_ended_is_final(s: BatchState, outcomes: Seq<Result<(), RunError>>)
    requires
        s.pending() is None,
    ensures
        s.run(outcomes) == s,
    decreases outcomes.len(),
{
    if outcomes.len() > 0 {
        lemma_batch_ended_is_final(s, outcomes.drop_last());
    }
}

/// Running two sequences of outcomes in a row is running their
/// concatenation.
pub proof fn lemma_batch_run_concat(
    s: BatchState,
    a: Seq<Result<(), RunError>>,
    b: Seq<Result<(), RunError>>,
)
    ensures
        s.run(a + b) == s.run(a).run(b),
    decreases b.len(),
{
    if b.len() == 0 {
        assert(a + b =~= a);
    } else {
        lemma_batch_run_concat(s, a, b.drop_last());
        assert((a + b).drop_last() =~= a + b.drop_last());
    }
}

/// Nodes that succeed move the batch on by one each.
pub proof fn lemma_batch_successes(s: BatchState, outcomes: Seq<Result<(), RunError>>)
    requires
        s.failed is None,
        all_succeeded(outcomes),
        s.next + outcomes.len() <= s.total,
    ensures
        s.run(outcomes) == (BatchState { next: s.next + outcomes.len(), ..s }),
    decreases outcomes.len(),
{
    if outcomes.len() > 0 {
        assert(all_succeeded(outcomes.drop_last()));
        lemma_batch_successes(s, outcomes.drop_last());
        assert(outcomes.last() == outcomes[outcomes.len() - 1]);
    }
}

/// A batch in which every node succeeds ends in success.
pub proof fn lemma_batch_all_succeed(outcomes: Seq<Result<(), RunError>>)
    requires
        all_succeeded(outcomes),
    ensures
        BatchState::initial(outcomes.len()).run(outcomes).result() == Some(
            Ok::<(), BatchError>(()),
        ),
{
    lemma_batch_successes(BatchState::initial(outcomes.len()), outcomes);
}

/// When the nodes before one succeed and that one fails, the batch ends
/// there: its error is the one surfaced, with its position, and whatever is
/// reported afterwards changes nothing.
pub proof fn lemma_batch_stops_at_first_failure(
    total: nat,
    before: Seq<Result<(), RunError>>,
    error: RunError,
    later: Seq<Result<(), RunError>>,
)
    requires
        all_succeeded(before),
        before.len() < total,
    ensures
        BatchState::initial(total).run(before.push(Err(error)) + later) == (BatchState {
            total,
            next: before.len(),
            failed: Some(error),
        }),
        BatchState::initial(total).run(before.push(Err(error)) + later).pending() is None,
        total <= usize::MAX ==> BatchState::initial(total).run(
            before.push(Err(error)) + later,
        ).result() == Some(
            Err::<(), BatchError>(BatchError { index: before.len() as usize, error }),
        ),
{
    let start = BatchState::initial(total);
    lemma_batch_successes(start, before);
    assert(before.push(Err(error)).drop_last() =~= before);
    let stopped = start.run(before.push(Err(error)));
    lemma_batch_ended_is_final(stopped, later);
    lemma_batch_run_concat(start, before.push(Err(error)), later);
}

} // verus!
