//! The result matrix collector: which candidate to fetch next, and the count
//! of what was considered and what was fetched.
//!
//! A candidate that cannot be opened on the remote host was not produced in
//! this run; that is an accounting fact and never ends the collection.

use vstd::prelude::*;
use crate::grid::texts;

verus! {

/// What happened to one candidate file.
#[derive(Clone, Copy, Debug, PartialEq, Eq, Structural)]
pub enum FetchOutcome {
    /// The remote file opened and was copied to a local file of the same name.
    Fetched,
    /// The remote file did not open: not found, or the transport failed.
    Absent,
    /// The remote file opened, but copying it or closing it failed.
    TransferFailed,
}

/// Counts for the operator.
#[derive(Clone, Copy, Debug, PartialEq, Eq, Structural)]
pub struct CollectedSummary {
    /// Candidate names of the grid.
    pub considered: usize,
    /// Candidates that were fetched.
    pub fetched: usize,
}

/// The transfer that ended a collection: the index of its candidate.
#[derive(Clone, Copy, Debug, PartialEq, Eq, Structural)]
pub struct CollectError {
    pub index: usize,
}

/// The collector as a mathematical value.
pub struct CollectState {
    /// The candidate names, in the order in which they are tried.
    pub names: Seq<Seq<char>>,
    /// Number of candidates dealt with.
    pub next: nat,
    pub fetched: nat,
    /// Whether a transfer failed.
    pub aborted: bool,
}

impl CollectState {
    pub open spec fn initial(names: Seq<Seq<char>>) -> CollectState {
        CollectState { names, next: 0, fetched: 0, aborted: false }
    }

    pub open spec fn wf(self) -> bool {
        &&& self.fetched <= self.next <= self.names.len()
        &&& self.names.len() <= usize::MAX
        &&& self.aborted ==> self.next < self.names.len()
    }

    /// The candidate to fetch now, if any is left.
    pub open spec fn pending(self) -> Option<Seq<char>> {
        if !self.aborted && self.next < self.names.len() {
            Some(self.names[self.next as int])
        } else {
            None
        }
    }

    pub open spec fn summary(self) -> CollectedSummary {
        CollectedSummary { considered: self.names.len() as usize, fetched: self.fetched as usize }
    }

    /// How the collection ended, once it has.
    pub open spec fn result(self) -> Option<Result<CollectedSummary, CollectError>> {
        if self.aborted {
            Some(Err(CollectError { index: self.next as usize }))
        } else if self.next < self.names.len() {
            None
        } else {
            Some(Ok(self.summary()))
        }
    }

    /// The state after the pending candidate's outcome. With no candidate
    /// pending, nothing changes.
    pub open spec fn next_state(self, outcome: FetchOutcome) -> CollectState {
        if self.pending() is None {
            self
        } else {
            match outcome {
                FetchOutcome::Fetched => CollectState {
                    next: self.next + 1,
                    fetched: self.fetched + 1,
                    ..self
                },
                FetchOutcome::Absent => CollectState { next: self.next + 1, ..self },
                FetchOutcome::TransferFailed => CollectState { aborted: true, ..self },
            }
        }
    }

    /// The state after a sequence of outcomes, first to last.
    pub open spec fn run(self, outcomes: Seq<FetchOutcome>) -> CollectState
        decreases outcomes.len(),
    {
        if outcomes.len() == 0 {
            self
        } else {
            self.run(outcomes.drop_last()).next_state(outcomes.last())
        }
    }
}

/// Number of `Fetched` among the outcomes.
pub open spec fn fetched_count(outcomes: Seq<FetchOutcome>) -> nat
    decreases outcomes.len(),
{
    if outcomes.len() == 0 {
        0
    } else {
        fetched_count(outcomes.drop_last()) + if outcomes.last() == FetchOutcome::Fetched {
            1nat
        } else {
            0nat
        }
    }
}

/// Every remote file either opened and was copied, or did not open.
pub open spec fn no_transfer_failed(outcomes: Seq<FetchOutcome>) -> bool {
    forall|i: int| 0 <= i < outcomes.len() ==> #[trigger] outcomes[i] != FetchOutcome::TransferFailed
}

/// The outcomes when exactly the candidates marked in `present` exist on the
/// remote host.
pub open spec fn outcomes_of(present: Seq<bool>) -> Seq<FetchOutcome> {
    present.map_values(
        |there: bool|
            if there {
                FetchOutcome::Fetched
            } else {
                FetchOutcome::Absent
            },
    )
}

/// The result matrix collector.
#[derive(Debug)]
pub struct Collector {
    names: Vec<String>,
    next: usize,
    fetched: usize,
    aborted: bool,
}

impl View for Collector {
    type V = CollectState;

    closed spec fn view(&self) -> CollectState {
        CollectState {
            names: texts(self.names@),
            next: self.next as nat,
            fetched: self.fetched as nat,
            aborted: self.aborted,
        }
    }
}

impl Collector {
    #[verifier::type_invariant]
    spec fn inv(self) -> bool {
        self@.wf()
    }

    /// A collector that has yet to try the first of `names`.
    pub fn new(names: Vec<String>) -> (collector: Collector)
        ensures
            collector@ == CollectState::initial(texts(names@)),
    {
        proof {
            assert(texts(names@).len() == names@.len());
            vstd::std_specs::vec::axiom_spec_len(&names);
        }
        Collector { names, next: 0, fetched: 0, aborted: false }
    }

    /// The candidate to fetch now. `None` when the collection has ended.
    pub fn pending(&self) -> (name: Option<&String>)
        ensures
            self@.wf(),
            match name {
                Some(n) => self@.pending() == Some(n@),
                None => self@.pending() is None,
            },
    {
        proof {
            use_type_invariant(self);
        }
        if !self.aborted && self.next < self.names.len() {
            Some(&self.names[self.next])
        } else {
            None
        }
    }

    /// Takes in the outcome of the pending candidate.
    pub fn record(&mut self, outcome: FetchOutcome)
        ensures
            old(self)@.wf(),
            final(self)@ == old(self)@.next_state(outcome),
            final(self)@.wf(),
    {
        proof {
            use_type_invariant(&*self);
        }
        if !self.aborted && self.next < self.names.len() {
            match outcome {
                FetchOutcome::Fetched => {
                    self.next = self.next + 1;
                    self.fetched = self.fetched + 1;
                },
                FetchOutcome::Absent => {
                    self.next = self.next + 1;
                },
                FetchOutcome::TransferFailed => {
                    self.aborted = true;
                },
            }
        }
    }

    /// The counts so far: all candidates of the grid, and those fetched.
    pub fn summary(&self) -> (summary: CollectedSummary)
        ensures
            summary == self@.summary(),
            summary.fetched <= summary.considered,
    {
        proof {
            use_type_invariant(self);
        }
        CollectedSummary { considered: self.names.len(), fetched: self.fetched }
    }

    /// How the collection ended; `None` while candidates are left.
    pub fn result(&self) -> (r: Option<Result<CollectedSummary, CollectError>>)
        ensures
            r == self@.result(),
    {
        proof {
            use_type_invariant(self);
        }
        if self.aborted {
            Some(Err(CollectError { index: self.next }))
        } else if self.next < self.names.len() {
            None
        } else {
            Some(Ok(self.summary()))
        }
    }

    /// Feeds a whole sequence of outcomes to a fresh collector.
    pub fn replay(names: Vec<String>, outcomes: &Vec<FetchOutcome>) -> (collector: Collector)
        ensures
            collector@ == CollectState::initial(texts(names@)).run(outcomes@),
    {
        let ghost start = CollectState::initial(texts(names@));
        let mut collector = Collector::new(names);
        let mut i: usize = 0;
        assert(outcomes@.take(0) =~= Seq::empty());
        while i < outcomes.len()
            invariant
                i <= outcomes@.len(),
                collector@ == start.run(outcomes@.take(i as int)),
            decreases outcomes@.len() - i,
        {
            proof {
                assert(outcomes@.take(i + 1).drop_last() =~= outcomes@.take(i as int));
            }
            collector.record(outcomes[i]);
            i += 1;
        }
        assert(outcomes@.take(i as int) =~= outcomes@);
        collector
    }
}

/// Well-formedness survives every outcome: never more fetched than tried, never
/// more tried than considered.
pub proof fn lemma_next_state_preserves_wf(s: CollectState, outcome: FetchOutcome)
    requires
        s.wf(),
    ensures
        s.next_state(outcome).wf(),
        s.next_state(outcome).names == s.names,
{
}

/// Whatever the outcomes, the fetched never outnumber the considered, and the
/// considered are all the candidates.
pub proof fn lemma_fetched_at_most_considered(s: CollectState, outcomes: Seq<FetchOutcome>)
    requires
        s.wf(),
    ensures
        s.run(outcomes).wf(),
        s.run(outcomes).names == s.names,
        s.run(outcomes).summary().considered == s.names.len(),
        s.run(outcomes).summary().fetched <= s.run(outcomes).summary().considered,
    decreases outcomes.len(),
{
    if outcomes.len() > 0 {
        lemma_fetched_at_most_considered(s, outcomes.drop_last());
        lemma_next_state_preserves_wf(s.run(outcomes.drop_last()), outcomes.last());
    }
}

/// While no transfer fails and candidates are left, each outcome moves on by
/// one candidate and each `Fetched` counts once.
pub proof fn lemma_run_counts(s: CollectState, outcomes: Seq<FetchOutcome>)
    requires
        s.wf(),
        !s.aborted,
        no_transfer_failed(outcomes),
        s.next + outcomes.len() <= s.names.len(),
    ensures
        s.run(outcomes) == (CollectState {
            next: s.next + outcomes.len(),
            fetched: s.fetched + fetched_count(outcomes),
            ..s
        }),
    decreases outcomes.len(),
{
    if outcomes.len() > 0 {
        assert(no_transfer_failed(outcomes.drop_last()));
        lemma_run_counts(s, outcomes.drop_last());
        assert(outcomes.last() == outcomes[outcomes.len() - 1]);
    }
}

/// Whichever of the candidates exist on the remote host, none or all or any
/// subset, the collection runs to its end: every candidate is considered, the
/// fetched are exactly the files that exist, and they are no more than the
/// considered.
pub proof fn lemma_any_subset_completes(names: Seq<Seq<char>>, present: Seq<bool>)
    requires
        names.len() <= usize::MAX,
        present.len() == names.len(),
    ensures
        CollectState::initial(names).run(outcomes_of(present)).result() == Some(
            Ok::<CollectedSummary, CollectError>(
                CollectedSummary {
                    considered: names.len() as usize,
                    fetched: fetched_count(outcomes_of(present)) as usize,
                },
            ),
        ),
        fetched_count(outcomes_of(present)) <= names.len(),
{
    let start = CollectState::initial(names);
    let outcomes = outcomes_of(present);
    assert(no_transfer_failed(outcomes));
    lemma_run_counts(start, outcomes);
    lemma_fetched_at_most_considered(start, outcomes);
}

/// With no candidate on the remote host, nothing is fetched.
pub proof fn lemma_none_present(present: Seq<bool>)
    requires
        forall|i: int| 0 <= i < present.len() ==> !#[trigger] present[i],
    ensures
        fetched_count(outcomes_of(present)) == 0,
    decreases present.len(),
{
    if present.len() > 0 {
        lemma_none_present(present.drop_last());
        assert(outcomes_of(present).drop_last() =~= outcomes_of(present.drop_last()));
        assert(!present[present.len() - 1]);
    }
}

} // verus!
