//! The result matrix: the Cartesian product of experiment parameters and the
//! file names that each combination is expected to leave on the remote host.

use vstd::prelude::*;
use vstd::string::StringExecFns;
use crate::text::{decimal, decimal_string};

verus! {

/// How requests are batched.
#[derive(Clone, Copy, Debug, PartialEq, Eq, Structural)]
pub enum BatchStrategy {
    Loop,
    Optimized,
}

/// Which implementation is measured.
#[derive(Clone, Copy, Debug, PartialEq, Eq, Structural)]
pub enum ImplKind {
    Client,
    Service,
}

impl BatchStrategy {
    pub open spec fn tag_spec(self) -> Seq<char> {
        match self {
            BatchStrategy::Loop => "loop"@,
            BatchStrategy::Optimized => "opt"@,
        }
    }

    /// The strategy's part of a file name.
    pub fn tag(self) -> (tag: &'static str)
        ensures
            tag@ == self.tag_spec(),
    {
        match self {
            BatchStrategy::Loop => "loop",
            BatchStrategy::Optimized => "opt",
        }
    }
}

impl ImplKind {
    pub open spec fn tag_spec(self) -> Seq<char> {
        match self {
            ImplKind::Client => "client"@,
            ImplKind::Service => "service"@,
        }
    }

    /// The implementation's part of a file name.
    pub fn tag(self) -> (tag: &'static str)
        ensures
            tag@ == self.tag_spec(),
    {
        match self {
            ImplKind::Client => "client",
            ImplKind::Service => "service",
        }
    }
}

/// One point of the grid without the group axis.
#[derive(Clone, Copy, Debug, PartialEq, Eq, Structural)]
pub struct Variant {
    /// Spacing between requests, in milliseconds.
    pub inter_request_ms: u64,
    pub receivers: u64,
    pub batch_size: u64,
    pub strategy: BatchStrategy,
    pub implementation: ImplKind,
}

/// The part of a file name that both families share:
/// `<inter>ms-<rcvrs>rcvrs-<batch>batch-<type>-<impl>.data`.
pub open spec fn variant_suffix(v: Variant) -> Seq<char> {
    decimal(v.inter_request_ms as nat) + "ms-"@ + decimal(v.receivers as nat) + "rcvrs-"@
        + decimal(v.batch_size as nat) + "batch-"@ + v.strategy.tag_spec() + "-"@
        + v.implementation.tag_spec() + ".data"@
}

/// `exp-<provider>-be-<inter>ms-<rcvrs>rcvrs-<batch>batch-<type>-<impl>.data`
pub open spec fn best_effort_name(provider: Seq<char>, v: Variant) -> Seq<char> {
    "exp-"@ + provider + "-be-"@ + variant_suffix(v)
}

/// `exp-<provider>-ord:<groups>g-<inter>ms-<rcvrs>rcvrs-<batch>batch-<type>-<impl>.data`
pub open spec fn ordered_name(provider: Seq<char>, groups: u64, v: Variant) -> Seq<char> {
    "exp-"@ + provider + "-ord:"@ + decimal(groups as nat) + "g-"@ + variant_suffix(v)
}

fn variant_suffix_string(v: Variant) -> (s: String)
    ensures
        s@ == variant_suffix(v),
{
    let mut s = decimal_string(v.inter_request_ms);
    s.append("ms-");
    s.append(decimal_string(v.receivers).as_str());
    s.append("rcvrs-");
    s.append(decimal_string(v.batch_size).as_str());
    s.append("batch-");
    s.append(v.strategy.tag());
    s.append("-");
    s.append(v.implementation.tag());
    s.append(".data");
    s
}

/// The name of a variant's result file in the best-effort family.
pub fn best_effort_file(provider: &str, v: Variant) -> (name: String)
    ensures
        name@ == best_effort_name(provider@, v),
{
    let mut s = String::from_str("exp-");
    s.append(provider);
    s.append("-be-");
    s.append(variant_suffix_string(v).as_str());
    s
}

/// The name of a variant's result file in the ordered family, for a number of
/// groups.
pub fn ordered_file(provider: &str, groups: u64, v: Variant) -> (name: String)
    ensures
        name@ == ordered_name(provider@, groups, v),
{
    let mut s = String::from_str("exp-");
    s.append(provider);
    s.append("-ord:");
    s.append(decimal_string(groups).as_str());
    s.append("g-");
    s.append(variant_suffix_string(v).as_str());
    s
}

/// The texts of a list of strings.
pub open spec fn texts(names: Seq<String>) -> Seq<Seq<char>> {
    names.map_values(|s: String| s@)
}

/// `part(0) + part(1) + ... + part(n - 1)`.
pub open spec fn concat_upto(n: nat, part: spec_fn(int) -> Seq<Seq<char>>) -> Seq<Seq<char>>
    decreases n,
{
    if n == 0 {
        Seq::empty()
    } else {
        concat_upto((n - 1) as nat, part) + part(n - 1)
    }
}

/// The parameter axes whose product is the result matrix.
#[derive(Clone, Debug)]
pub struct ExperimentGrid {
    pub inter_request_ms: Vec<u64>,
    pub batch_sizes: Vec<u64>,
    pub strategies: Vec<BatchStrategy>,
    pub receivers: Vec<u64>,
    /// Group counts; this axis exists in the ordered family only.
    pub groups: Vec<u64>,
    pub implementations: Vec<ImplKind>,
}

impl ExperimentGrid {
    /// The best-effort names of one combination, one per implementation.
    pub open spec fn best_effort_names(
        &self,
        provider: Seq<char>,
        inter: u64,
        batch: u64,
        strategy: BatchStrategy,
        receivers: u64,
    ) -> Seq<Seq<char>> {
        Seq::new(
            self.implementations@.len(),
            |m: int|
                best_effort_name(
                    provider,
                    Variant {
                        inter_request_ms: inter,
                        receivers,
                        batch_size: batch,
                        strategy,
                        implementation: self.implementations@[m],
                    },
                ),
        )
    }

    /// The ordered names of one combination and one group count, one per
    /// implementation.
    pub open spec fn ordered_names_for(
        &self,
        provider: Seq<char>,
        inter: u64,
        batch: u64,
        strategy: BatchStrategy,
        receivers: u64,
        groups: u64,
    ) -> Seq<Seq<char>> {
        Seq::new(
            self.implementations@.len(),
            |m: int|
                ordered_name(
                    provider,
                    groups,
                    Variant {
                        inter_request_ms: inter,
                        receivers,
                        batch_size: batch,
                        strategy,
                        implementation: self.implementations@[m],
                    },
                ),
        )
    }

    /// The ordered names of one combination: group counts in the order of
    /// their axis, implementations varying fastest.
    pub open spec fn ordered_names(
        &self,
        provider: Seq<char>,
        inter: u64,
        batch: u64,
        strategy: BatchStrategy,
        receivers: u64,
    ) -> Seq<Seq<char>> {
        concat_upto(
            self.groups@.len(),
            |g: int|
                self.ordered_names_for(provider, inter, batch, strategy, receivers, self.groups@[g]),
        )
    }

    /// All names of one combination: the best-effort ones, then the ordered
    /// ones.
    pub open spec fn cell_names(
        &self,
        provider: Seq<char>,
        inter: u64,
        batch: u64,
        strategy: BatchStrategy,
        receivers: u64,
    ) -> Seq<Seq<char>> {
        self.best_effort_names(provider, inter, batch, strategy, receivers) + self.ordered_names(
            provider,
            inter,
            batch,
            strategy,
            receivers,
        )
    }

    pub open spec fn strategy_names(
        &self,
        provider: Seq<char>,
        inter: u64,
        batch: u64,
        strategy: BatchStrategy,
    ) -> Seq<Seq<char>> {
        concat_upto(
            self.receivers@.len(),
            |r: int| self.cell_names(provider, inter, batch, strategy, self.receivers@[r]),
        )
    }

    pub open spec fn batch_names(&self, provider: Seq<char>, inter: u64, batch: u64) -> Seq<
        Seq<char>,
    > {
        concat_upto(
            self.strategies@.len(),
            |t: int| self.strategy_names(provider, inter, batch, self.strategies@[t]),
        )
    }

    pub open spec fn inter_names(&self, provider: Seq<char>, inter: u64) -> Seq<Seq<char>> {
        concat_upto(
            self.batch_sizes@.len(),
            |b: int| self.batch_names(provider, inter, self.batch_sizes@[b]),
        )
    }

    /// The candidate file names of the whole grid, in order: request spacing
    /// varies slowest, then batch size, batch strategy and receiver count;
    /// within one combination come the best-effort names and then the ordered
    /// names by group count; the implementation varies fastest.
    pub open spec fn names(&self, provider: Seq<char>) -> Seq<Seq<char>> {
        concat_upto(
            self.inter_request_ms@.len(),
            |i: int| self.inter_names(provider, self.inter_request_ms@[i]),
        )
    }

    /// Names that one combination of the outer four axes contributes.
    pub open spec fn cell_len(&self) -> nat {
        self.implementations@.len() + self.groups@.len() * self.implementations@.len()
    }

    /// Number of candidate names of the whole grid.
    pub open spec fn total(&self) -> nat {
        self.inter_request_ms@.len() * (self.batch_sizes@.len() * (self.strategies@.len() * (
        self.receivers@.len() * self.cell_len())))
    }

    /// The grid of the standard run.
    pub fn standard() -> (grid: ExperimentGrid)
        ensures
            grid.inter_request_ms@ == seq![75u64],
            grid.batch_sizes@ == seq![1u64, 5, 10],
            grid.strategies@ == seq![BatchStrategy::Loop, BatchStrategy::Optimized],
            grid.receivers@ == seq![1u64, 2, 5, 10],
            grid.groups@ == seq![0u64, 1, 2, 5, 10],
            grid.implementations@ == seq![ImplKind::Client, ImplKind::Service],
            grid.total() == 288,
    {
        let grid = ExperimentGrid {
            inter_request_ms: vec![75],
            batch_sizes: vec![1, 5, 10],
            strategies: vec![BatchStrategy::Loop, BatchStrategy::Optimized],
            receivers: vec![1, 2, 5, 10],
            groups: vec![0, 1, 2, 5, 10],
            implementations: vec![ImplKind::Client, ImplKind::Service],
        };
        proof {
            let axes = (
                grid.inter_request_ms@.len(),
                grid.batch_sizes@.len(),
                grid.strategies@.len(),
                grid.receivers@.len(),
                grid.groups@.len(),
                grid.implementations@.len(),
            );
            assert(axes == (1nat, 3nat, 2nat, 4nat, 5nat, 2nat));
            assert(grid.cell_len() == 12);
            assert(grid.total() == 288);
        }
        grid
    }
}

/// The texts of a list grow with the list.
pub proof fn lemma_texts_push(names: Seq<String>, name: String)
    ensures
        texts(names.push(name)) == texts(names).push(name@),
{
    assert(texts(names.push(name)) =~= texts(names).push(name@));
}

/// A concatenation depends on its parts only.
pub proof fn lemma_concat_upto_parts(
    n: nat,
    a: spec_fn(int) -> Seq<Seq<char>>,
    b: spec_fn(int) -> Seq<Seq<char>>,
)
    requires
        forall|i: int| 0 <= i < n ==> #[trigger] a(i) == b(i),
    ensures
        concat_upto(n, a) == concat_upto(n, b),
    decreases n,
{
    if n > 0 {
        lemma_concat_upto_parts((n - 1) as nat, a, b);
        assert(a(n - 1) == b(n - 1));
    }
}

/// Parts of one length make a concatenation of that length times their
/// number.
pub proof fn lemma_concat_upto_len(n: nat, part: spec_fn(int) -> Seq<Seq<char>>, each: nat)
    requires
        forall|i: int| 0 <= i < n ==> (#[trigger] part(i)).len() == each,
    ensures
        concat_upto(n, part).len() == n * each,
    decreases n,
{
    if n > 0 {
        lemma_concat_upto_len((n - 1) as nat, part, each);
        assert(part(n - 1).len() == each);
        assert((n - 1) * each + each == n * each) by (nonlinear_arith);
    } else {
        assert(0 * each == 0) by (nonlinear_arith);
    }
}

impl ExperimentGrid {
    fn push_best_effort(
        &self,
        out: &mut Vec<String>,
        provider: &str,
        inter: u64,
        batch: u64,
        strategy: BatchStrategy,
        receivers: u64,
    )
        ensures
            texts(final(out)@) == texts(old(out)@) + self.best_effort_names(
                provider@,
                inter,
                batch,
                strategy,
                receivers,
            ),
    {
        let ghost base = texts(out@);
        let ghost all = self.best_effort_names(provider@, inter, batch, strategy, receivers);
        let mut m: usize = 0;
        assert(texts(out@) =~= base + all.take(0));
        while m < self.implementations.len()
            invariant
                m <= self.implementations@.len(),
                all == self.best_effort_names(provider@, inter, batch, strategy, receivers),
                texts(out@) == base + all.take(m as int),
            decreases self.implementations@.len() - m,
        {
            let v = Variant {
                inter_request_ms: inter,
                receivers,
                batch_size: batch,
                strategy,
                implementation: self.implementations[m],
            };
            let name = best_effort_file(provider, v);
            proof {
                lemma_texts_push(out@, name);
                assert(all[m as int] == name@);
                assert(all.take(m + 1) =~= all.take(m as int).push(name@));
                assert(base + all.take(m + 1) =~= (base + all.take(m as int)).push(name@));
            }
            out.push(name);
            m += 1;
        }
        assert(all.take(m as int) =~= all);
    }

    fn push_ordered_for(
        &self,
        out: &mut Vec<String>,
        provider: &str,
        inter: u64,
        batch: u64,
        strategy: BatchStrategy,
        receivers: u64,
        groups: u64,
    )
        ensures
            texts(final(out)@) == texts(old(out)@) + self.ordered_names_for(
                provider@,
                inter,
                batch,
                strategy,
                receivers,
                groups,
            ),
    {
        let ghost base = texts(out@);
        let ghost all = self.ordered_names_for(
            provider@,
            inter,
            batch,
            strategy,
            receivers,
            groups,
        );
        let mut m: usize = 0;
        assert(texts(out@) =~= base + all.take(0));
        while m < self.implementations.len()
            invariant
                m <= self.implementations@.len(),
                all == self.ordered_names_for(
                    provider@,
                    inter,
                    batch,
                    strategy,
                    receivers,
                    groups,
                ),
                texts(out@) == base + all.take(m as int),
            decreases self.implementations@.len() - m,
        {
            let v = Variant {
                inter_request_ms: inter,
                receivers,
                batch_size: batch,
                strategy,
                implementation: self.implementations[m],
            };
            let name = ordered_file(provider, groups, v);
            proof {
                lemma_texts_push(out@, name);
                assert(all[m as int] == name@);
                assert(all.take(m + 1) =~= all.take(m as int).push(name@));
                assert(base + all.take(m + 1) =~= (base + all.take(m as int)).push(name@));
            }
            out.push(name);
            m += 1;
        }
        assert(all.take(m as int) =~= all);
    }

    fn push_ordered(
        &self,
        out: &mut Vec<String>,
        provider: &str,
        inter: u64,
        batch: u64,
        strategy: BatchStrategy,
        receivers: u64,
    )
        ensures
            texts(final(out)@) == texts(old(out)@) + self.ordered_names(
                provider@,
                inter,
                batch,
                strategy,
                receivers,
            ),
    {
        let ghost base = texts(out@);
        let ghost part = |g: int|
            self.ordered_names_for(provider@, inter, batch, strategy, receivers, self.groups@[g]);
        let mut g: usize = 0;
        assert(texts(out@) =~= base + concat_upto(0, part));
        while g < self.groups.len()
            invariant
                g <= self.groups@.len(),
                part == (|g: int|
                    self.ordered_names_for(
                        provider@,
                        inter,
                        batch,
                        strategy,
                        receivers,
                        self.groups@[g],
                    )),
                texts(out@) == base + concat_upto(g as nat, part),
            decreases self.groups@.len() - g,
        {
            let ghost before = texts(out@);
            self.push_ordered_for(out, provider, inter, batch, strategy, receivers, self.groups[g]);
            proof {
                assert(texts(out@) == before + part(g as int));
                assert(base + concat_upto((g + 1) as nat, part) =~= before + part(g as int));
            }
            g += 1;
        }
    }

    fn push_cell(
        &self,
        out: &mut Vec<String>,
        provider: &str,
        inter: u64,
        batch: u64,
        strategy: BatchStrategy,
        receivers: u64,
    )
        ensures
            texts(final(out)@) == texts(old(out)@) + self.cell_names(
                provider@,
                inter,
                batch,
                strategy,
                receivers,
            ),
    {
        let ghost base = texts(out@);
        self.push_best_effort(out, provider, inter, batch, strategy, receivers);
        self.push_ordered(out, provider, inter, batch, strategy, receivers);
        assert(texts(out@) =~= base + self.cell_names(
            provider@,
            inter,
            batch,
            strategy,
            receivers,
        ));
    }

    fn push_strategy(
        &self,
        out: &mut Vec<String>,
        provider: &str,
        inter: u64,
        batch: u64,
        strategy: BatchStrategy,
    )
        ensures
            texts(final(out)@) == texts(old(out)@) + self.strategy_names(
                provider@,
                inter,
                batch,
                strategy,
            ),
    {
        let ghost base = texts(out@);
        let ghost part = |r: int|
            self.cell_names(provider@, inter, batch, strategy, self.receivers@[r]);
        let mut r: usize = 0;
        assert(texts(out@) =~= base + concat_upto(0, part));
        while r < self.receivers.len()
            invariant
                r <= self.receivers@.len(),
                part == (|r: int|
                    self.cell_names(provider@, inter, batch, strategy, self.receivers@[r])),
                texts(out@) == base + concat_upto(r as nat, part),
            decreases self.receivers@.len() - r,
        {
            let ghost before = texts(out@);
            self.push_cell(out, provider, inter, batch, strategy, self.receivers[r]);
            proof {
                assert(texts(out@) == before + part(r as int));
                assert(base + concat_upto((r + 1) as nat, part) =~= before + part(r as int));
            }
            r += 1;
        }
    }

    fn push_batch(&self, out: &mut Vec<String>, provider: &str, inter: u64, batch: u64)
        ensures
            texts(final(out)@) == texts(old(out)@) + self.batch_names(provider@, inter, batch),
    {
        let ghost base = texts(out@);
        let ghost part = |t: int| self.strategy_names(provider@, inter, batch, self.strategies@[t]);
        let mut t: usize = 0;
        assert(texts(out@) =~= base + concat_upto(0, part));
        while t < self.strategies.len()
            invariant
                t <= self.strategies@.len(),
                part == (|t: int|
                    self.strategy_names(provider@, inter, batch, self.strategies@[t])),
                texts(out@) == base + concat_upto(t as nat, part),
            decreases self.strategies@.len() - t,
        {
            let ghost before = texts(out@);
            self.push_strategy(out, provider, inter, batch, self.strategies[t]);
            proof {
                assert(texts(out@) == before + part(t as int));
                assert(base + concat_upto((t + 1) as nat, part) =~= before + part(t as int));
            }
            t += 1;
        }
    }

    fn push_inter(&self, out: &mut Vec<String>, provider: &str, inter: u64)
        ensures
            texts(final(out)@) == texts(old(out)@) + self.inter_names(provider@, inter),
    {
        let ghost base = texts(out@);
        let ghost part = |b: int| self.batch_names(provider@, inter, self.batch_sizes@[b]);
        let mut b: usize = 0;
        assert(texts(out@) =~= base + concat_upto(0, part));
        while b < self.batch_sizes.len()
            invariant
                b <= self.batch_sizes@.len(),
                part == (|b: int| self.batch_names(provider@, inter, self.batch_sizes@[b])),
                texts(out@) == base + concat_upto(b as nat, part),
            decreases self.batch_sizes@.len() - b,
        {
            let ghost before = texts(out@);
            self.push_batch(out, provider, inter, self.batch_sizes[b]);
            proof {
                assert(texts(out@) == before + part(b as int));
                assert(base + concat_upto((b + 1) as nat, part) =~= before + part(b as int));
            }
            b += 1;
        }
    }

    /// Enumerates the candidate result-file names of the grid for a provider
    /// tag. The list is a function of the axes and the tag alone.
    pub fn candidate_names(&self, provider: &str) -> (names: Vec<String>)
        ensures
            texts(names@) == self.names(provider@),
            names@.len() == self.total(),
    {
        let mut out: Vec<String> = Vec::new();
        let ghost part = |i: int| self.inter_names(provider@, self.inter_request_ms@[i]);
        let mut i: usize = 0;
        assert(texts(out@) =~= concat_upto(0, part));
        while i < self.inter_request_ms.len()
            invariant
                i <= self.inter_request_ms@.len(),
                part == (|i: int| self.inter_names(provider@, self.inter_request_ms@[i])),
                texts(out@) == concat_upto(i as nat, part),
            decreases self.inter_request_ms@.len() - i,
        {
            let ghost before = texts(out@);
            self.push_inter(&mut out, provider, self.inter_request_ms[i]);
            proof {
                assert(texts(out@) == before + part(i as int));
            }
            i += 1;
        }
        proof {
            self.lemma_names_len(provider@);
            assert(texts(out@).len() == out@.len());
        }
        out
    }

    /// The grid yields one best-effort name and one ordered name per group
    /// count for every combination of the other axes.
    pub proof fn lemma_names_len(&self, provider: Seq<char>)
        ensures
            self.names(provider).len() == self.total(),
    {
        let impls = self.implementations@.len();
        let groups = self.groups@.len();
        let cell = self.cell_len();
        let per_strategy = self.receivers@.len() * cell;
        let per_batch = self.strategies@.len() * per_strategy;
        let per_inter = self.batch_sizes@.len() * per_batch;
        assert forall|inter: u64, batch: u64, strategy: BatchStrategy, receivers: u64|
            (#[trigger] self.cell_names(provider, inter, batch, strategy, receivers)).len()
                == cell by {
            lemma_concat_upto_len(
                groups,
                |g: int|
                    self.ordered_names_for(
                        provider,
                        inter,
                        batch,
                        strategy,
                        receivers,
                        self.groups@[g],
                    ),
                impls,
            );
        }
        assert forall|inter: u64, batch: u64, strategy: BatchStrategy|
            (#[trigger] self.strategy_names(provider, inter, batch, strategy)).len()
                == per_strategy by {
            lemma_concat_upto_len(
                self.receivers@.len(),
                |r: int| self.cell_names(provider, inter, batch, strategy, self.receivers@[r]),
                cell,
            );
        }
        assert forall|inter: u64, batch: u64|
            (#[trigger] self.batch_names(provider, inter, batch)).len() == per_batch by {
            lemma_concat_upto_len(
                self.strategies@.len(),
                |t: int| self.strategy_names(provider, inter, batch, self.strategies@[t]),
                per_strategy,
            );
        }
        assert forall|inter: u64| (#[trigger] self.inter_names(provider, inter)).len()
            == per_inter by {
            lemma_concat_upto_len(
                self.batch_sizes@.len(),
                |b: int| self.batch_names(provider, inter, self.batch_sizes@[b]),
                per_batch,
            );
        }
        lemma_concat_upto_len(
            self.inter_request_ms@.len(),
            |i: int| self.inter_names(provider, self.inter_request_ms@[i]),
            per_inter,
        );
    }

    /// Two grids with the same axes give the same names in the same order for
    /// the same provider tag.
    pub proof fn lemma_names_deterministic(&self, other: &ExperimentGrid, provider: Seq<char>)
        requires
            self.inter_request_ms@ == other.inter_request_ms@,
            self.batch_sizes@ == other.batch_sizes@,
            self.strategies@ == other.strategies@,
            self.receivers@ == other.receivers@,
            self.groups@ == other.groups@,
            self.implementations@ == other.implementations@,
        ensures
            self.names(provider) == other.names(provider),
    {
        assert forall|inter: u64, batch: u64, strategy: BatchStrategy, receivers: u64|
            #[trigger] self.cell_names(provider, inter, batch, strategy, receivers)
                == other.cell_names(provider, inter, batch, strategy, receivers) by {
            assert(self.best_effort_names(provider, inter, batch, strategy, receivers)
                =~= other.best_effort_names(provider, inter, batch, strategy, receivers));
            assert forall|groups: u64|
                #[trigger] self.ordered_names_for(
                    provider,
                    inter,
                    batch,
                    strategy,
                    receivers,
                    groups,
                ) == other.ordered_names_for(provider, inter, batch, strategy, receivers, groups) by {
                assert(self.ordered_names_for(provider, inter, batch, strategy, receivers, groups)
                    =~= other.ordered_names_for(
                    provider,
                    inter,
                    batch,
                    strategy,
                    receivers,
                    groups,
                ));
            }
            lemma_concat_upto_parts(
                self.groups@.len(),
                |g: int|
                    self.ordered_names_for(
                        provider,
                        inter,
                        batch,
                        strategy,
                        receivers,
                        self.groups@[g],
                    ),
                |g: int|
                    other.ordered_names_for(
                        provider,
                        inter,
                        batch,
                        strategy,
                        receivers,
                        other.groups@[g],
                    ),
            );
        }
        assert forall|inter: u64, batch: u64, strategy: BatchStrategy|
            #[trigger] self.strategy_names(provider, inter, batch, strategy)
                == other.strategy_names(provider, inter, batch, strategy) by {
            lemma_concat_upto_parts(
                self.receivers@.len(),
                |r: int| self.cell_names(provider, inter, batch, strategy, self.receivers@[r]),
                |r: int| other.cell_names(provider, inter, batch, strategy, other.receivers@[r]),
            );
        }
        assert forall|inter: u64, batch: u64| #[trigger] self.batch_names(provider, inter, batch)
            == other.batch_names(provider, inter, batch) by {
            lemma_concat_upto_parts(
                self.strategies@.len(),
                |t: int| self.strategy_names(provider, inter, batch, self.strategies@[t]),
                |t: int| other.strategy_names(provider, inter, batch, other.strategies@[t]),
            );
        }
        assert forall|inter: u64| #[trigger] self.inter_names(provider, inter)
            == other.inter_names(provider, inter) by {
            lemma_concat_upto_parts(
                self.batch_sizes@.len(),
                |b: int| self.batch_names(provider, inter, self.batch_sizes@[b]),
                |b: int| other.batch_names(provider, inter, other.batch_sizes@[b]),
            );
        }
        lemma_concat_upto_parts(
            self.inter_request_ms@.len(),
            |i: int| self.inter_names(provider, self.inter_request_ms@[i]),
            |i: int| other.inter_names(provider, other.inter_request_ms@[i]),
        );
    }
}

/// A concatenation of two lists holds what either holds.
pub proof fn lemma_concat_contains(a: Seq<Seq<char>>, b: Seq<Seq<char>>, x: Seq<char>)
    ensures
        (a + b).contains(x) <==> a.contains(x) || b.contains(x),
{
    if a.contains(x) {
        let i = choose|i: int| 0 <= i < a.len() && a[i] == x;
        assert((a + b)[i] == x);
    }
    if b.contains(x) {
        let i = choose|i: int| 0 <= i < b.len() && b[i] == x;
        assert((a + b)[a.len() + i] == x);
    }
    if (a + b).contains(x) {
        let i = choose|i: int| 0 <= i < (a + b).len() && (a + b)[i] == x;
        if i < a.len() {
            assert(a[i] == x);
        } else {
            assert(b[i - a.len()] == x);
        }
    }
}

/// What one part holds, the concatenation holds.
pub proof fn lemma_concat_upto_has(
    n: nat,
    part: spec_fn(int) -> Seq<Seq<char>>,
    k: int,
    x: Seq<char>,
)
    requires
        0 <= k < n,
        part(k).contains(x),
    ensures
        concat_upto(n, part).contains(x),
    decreases n,
{
    lemma_concat_contains(concat_upto((n - 1) as nat, part), part(n - 1), x);
    if k < n - 1 {
        lemma_concat_upto_has((n - 1) as nat, part, k, x);
    }
}

/// What the concatenation holds, one of its parts holds: the lemma hands
/// back which.
pub proof fn lemma_concat_upto_from(
    n: nat,
    part: spec_fn(int) -> Seq<Seq<char>>,
    x: Seq<char>,
) -> (k: int)
    requires
        concat_upto(n, part).contains(x),
    ensures
        0 <= k < n,
        part(k).contains(x),
    decreases n,
{
    if n == 0 {
        assert(false);
        0
    } else {
        lemma_concat_contains(concat_upto((n - 1) as nat, part), part(n - 1), x);
        if part(n - 1).contains(x) {
            n - 1
        } else {
            lemma_concat_upto_from((n - 1) as nat, part, x)
        }
    }
}

impl ExperimentGrid {
    /// The variant at a position of each axis but the group axis.
    pub open spec fn variant_at(&self, i: int, b: int, t: int, r: int, m: int) -> Variant {
        Variant {
            inter_request_ms: self.inter_request_ms@[i],
            receivers: self.receivers@[r],
            batch_size: self.batch_sizes@[b],
            strategy: self.strategies@[t],
            implementation: self.implementations@[m],
        }
    }

    /// The positions are positions of their axes.
    pub open spec fn in_grid(&self, i: int, b: int, t: int, r: int, m: int) -> bool {
        &&& 0 <= i < self.inter_request_ms@.len()
        &&& 0 <= b < self.batch_sizes@.len()
        &&& 0 <= t < self.strategies@.len()
        &&& 0 <= r < self.receivers@.len()
        &&& 0 <= m < self.implementations@.len()
    }

    /// `name` is the best-effort name of a variant of the grid, or its
    /// ordered name for a group count of the grid.
    pub open spec fn is_candidate(&self, provider: Seq<char>, name: Seq<char>) -> bool {
        exists|i: int, b: int, t: int, r: int, m: int|
            self.in_grid(i, b, t, r, m) && (name == best_effort_name(
                provider,
                #[trigger] self.variant_at(i, b, t, r, m),
            ) || self.is_ordered_name_of(provider, name, self.variant_at(i, b, t, r, m)))
    }

    /// `name` is the ordered name of `v` for a group count of the grid.
    pub open spec fn is_ordered_name_of(
        &self,
        provider: Seq<char>,
        name: Seq<char>,
        v: Variant,
    ) -> bool {
        exists|g: int|
            0 <= g < self.groups@.len() && name == ordered_name(
                provider,
                #[trigger] self.groups@[g],
                v,
            )
    }

    /// The best-effort name of every variant of the grid is a candidate.
    pub proof fn lemma_best_effort_name_listed(
        &self,
        provider: Seq<char>,
        i: int,
        b: int,
        t: int,
        r: int,
        m: int,
    )
        requires
            self.in_grid(i, b, t, r, m),
        ensures
            self.names(provider).contains(
                best_effort_name(provider, self.variant_at(i, b, t, r, m)),
            ),
    {
        let v = self.variant_at(i, b, t, r, m);
        let x = best_effort_name(provider, v);
        let be = self.best_effort_names(
            provider,
            v.inter_request_ms,
            v.batch_size,
            v.strategy,
            v.receivers,
        );
        assert(be[m] == x);
        self.lemma_cell_name_listed(provider, i, b, t, r, x);
    }

    /// The ordered name of every variant of the grid, for every group count
    /// of the grid, is a candidate.
    pub proof fn lemma_ordered_name_listed(
        &self,
        provider: Seq<char>,
        i: int,
        b: int,
        t: int,
        r: int,
        m: int,
        g: int,
    )
        requires
            self.in_grid(i, b, t, r, m),
            0 <= g < self.groups@.len(),
        ensures
            self.names(provider).contains(
                ordered_name(provider, self.groups@[g], self.variant_at(i, b, t, r, m)),
            ),
    {
        let v = self.variant_at(i, b, t, r, m);
        let x = ordered_name(provider, self.groups@[g], v);
        let for_g = self.ordered_names_for(
            provider,
            v.inter_request_ms,
            v.batch_size,
            v.strategy,
            v.receivers,
            self.groups@[g],
        );
        assert(for_g[m] == x);
        lemma_concat_upto_has(
            self.groups@.len(),
            |g: int|
                self.ordered_names_for(
                    provider,
                    v.inter_request_ms,
                    v.batch_size,
                    v.strategy,
                    v.receivers,
                    self.groups@[g],
                ),
            g,
            x,
        );
        self.lemma_cell_name_listed(provider, i, b, t, r, x);
    }

    proof fn lemma_cell_name_listed(
        &self,
        provider: Seq<char>,
        i: int,
        b: int,
        t: int,
        r: int,
        x: Seq<char>,
    )
        requires
            0 <= i < self.inter_request_ms@.len(),
            0 <= b < self.batch_sizes@.len(),
            0 <= t < self.strategies@.len(),
            0 <= r < self.receivers@.len(),
            self.best_effort_names(
                provider,
                self.inter_request_ms@[i],
                self.batch_sizes@[b],
                self.strategies@[t],
                self.receivers@[r],
            ).contains(x) || self.ordered_names(
                provider,
                self.inter_request_ms@[i],
                self.batch_sizes@[b],
                self.strategies@[t],
                self.receivers@[r],
            ).contains(x),
        ensures
            self.names(provider).contains(x),
    {
        let inter = self.inter_request_ms@[i];
        let batch = self.batch_sizes@[b];
        let strategy = self.strategies@[t];
        let receivers = self.receivers@[r];
        lemma_concat_contains(
            self.best_effort_names(provider, inter, batch, strategy, receivers),
            self.ordered_names(provider, inter, batch, strategy, receivers),
            x,
        );
        lemma_concat_upto_has(
            self.receivers@.len(),
            |r: int| self.cell_names(provider, inter, batch, strategy, self.receivers@[r]),
            r,
            x,
        );
        lemma_concat_upto_has(
            self.strategies@.len(),
            |t: int| self.strategy_names(provider, inter, batch, self.strategies@[t]),
            t,
            x,
        );
        lemma_concat_upto_has(
            self.batch_sizes@.len(),
            |b: int| self.batch_names(provider, inter, self.batch_sizes@[b]),
            b,
            x,
        );
        lemma_concat_upto_has(
            self.inter_request_ms@.len(),
            |i: int| self.inter_names(provider, self.inter_request_ms@[i]),
            i,
            x,
        );
    }

    /// The candidates are the names of the grid's variants and nothing else:
    /// the list is the full Cartesian product of the axes, in both families.
    pub proof fn lemma_names_are_the_product(&self, provider: Seq<char>, name: Seq<char>)
        ensures
            self.names(provider).contains(name) <==> self.is_candidate(provider, name),
    {
        if self.names(provider).contains(name) {
            let i = lemma_concat_upto_from(
                self.inter_request_ms@.len(),
                |i: int| self.inter_names(provider, self.inter_request_ms@[i]),
                name,
            );
            let inter = self.inter_request_ms@[i];
            let b = lemma_concat_upto_from(
                self.batch_sizes@.len(),
                |b: int| self.batch_names(provider, inter, self.batch_sizes@[b]),
                name,
            );
            let batch = self.batch_sizes@[b];
            let t = lemma_concat_upto_from(
                self.strategies@.len(),
                |t: int| self.strategy_names(provider, inter, batch, self.strategies@[t]),
                name,
            );
            let strategy = self.strategies@[t];
            let r = lemma_concat_upto_from(
                self.receivers@.len(),
                |r: int| self.cell_names(provider, inter, batch, strategy, self.receivers@[r]),
                name,
            );
            let receivers = self.receivers@[r];
            let be = self.best_effort_names(provider, inter, batch, strategy, receivers);
            lemma_concat_contains(
                be,
                self.ordered_names(provider, inter, batch, strategy, receivers),
                name,
            );
            if be.contains(name) {
                let m = choose|m: int| 0 <= m < be.len() && be[m] == name;
                assert(self.in_grid(i, b, t, r, m));
                assert(name == best_effort_name(provider, self.variant_at(i, b, t, r, m)));
            } else {
                let g = lemma_concat_upto_from(
                    self.groups@.len(),
                    |g: int|
                        self.ordered_names_for(
                            provider,
                            inter,
                            batch,
                            strategy,
                            receivers,
                            self.groups@[g],
                        ),
                    name,
                );
                let for_g = self.ordered_names_for(
                    provider,
                    inter,
                    batch,
                    strategy,
                    receivers,
                    self.groups@[g],
                );
                let m = choose|m: int| 0 <= m < for_g.len() && for_g[m] == name;
                assert(self.in_grid(i, b, t, r, m));
                assert(name == ordered_name(
                    provider,
                    self.groups@[g],
                    self.variant_at(i, b, t, r, m),
                ));
                assert(self.is_ordered_name_of(provider, name, self.variant_at(i, b, t, r, m)));
            }
        }
        if self.is_candidate(provider, name) {
            let (i, b, t, r, m) = choose|i: int, b: int, t: int, r: int, m: int|
                self.in_grid(i, b, t, r, m) && (name == best_effort_name(
                    provider,
                    #[trigger] self.variant_at(i, b, t, r, m),
                ) || self.is_ordered_name_of(provider, name, self.variant_at(i, b, t, r, m)));
            let v = self.variant_at(i, b, t, r, m);
            if name == best_effort_name(provider, v) {
                self.lemma_best_effort_name_listed(provider, i, b, t, r, m);
            } else {
                let g = choose|g: int|
                    0 <= g < self.groups@.len() && name == ordered_name(
                        provider,
                        #[trigger] self.groups@[g],
                        v,
                    );
                self.lemma_ordered_name_listed(provider, i, b, t, r, m, g);
            }
        }
    }
}

} // verus!
