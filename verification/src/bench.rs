//! Benchmark runs: their settings, and the bookkeeping of a run that scores
//! a dataset's samples batch by batch. The scorer itself is outside work:
//! a run says which texts to score next and records what came back.

use vstd::prelude::*;
use crate::eval::{Decision, Sample, SampleResult};

verus! {

/// Configuration for async benchmark execution.
#[derive(Debug, Clone, Copy)]
pub struct AsyncRunConfig {
    /// Maximum number of concurrent inference tasks (4 by default, for
    /// CPU-bound inference).
    pub concurrency: usize,
    /// Batch size for batch inference; `None` uses the scorer's own.
    pub batch_size: Option<usize>,
}

impl Default for AsyncRunConfig {
    fn default() -> (c: Self)
        ensures
            c.concurrency == 4,
            c.batch_size is None,
    {
        AsyncRunConfig { concurrency: 4, batch_size: None }
    }
}

impl AsyncRunConfig {
    /// The batch size a run uses: the configured one, or else the scorer's.
    pub fn effective_batch_size(&self, scorer_batch_size: usize) -> (n: usize)
        ensures
            n == match self.batch_size {
                Some(b) => b,
                None => scorer_batch_size,
            },
    {
        match self.batch_size {
            Some(b) => b,
            None => scorer_batch_size,
        }
    }
}

/// What each of the `n` samples of a batch gets from the scorer's answer:
/// the outputs in order, one per sample, while they last (samples after the
/// last output get nothing); where the whole batch failed, every sample gets
/// `None`.
pub fn batch_answers<T, E>(n: usize, answer: Result<Vec<T>, E>) -> (r: Vec<Option<T>>)
    ensures
        match answer {
            Ok(outs) => {
                &&& r@.len() == (if outs@.len() < n { outs@.len() } else { n as nat })
                &&& forall|i: int| 0 <= i < r@.len() ==> #[trigger] r@[i] == Some(outs@[i])
            },
            Err(_) => {
                &&& r@.len() == n
                &&& forall|i: int| 0 <= i < n ==> #[trigger] r@[i] is None
            },
        },
{
    match answer {
        Ok(outs) => {
            let ghost all = outs@;
            let mut outs = outs;
            let k: usize = if outs.len() < n { outs.len() } else { n };
            outs.truncate(k);
            let mut r: Vec<Option<T>> = Vec::new();
            while outs.len() > 0
                invariant
                    k <= all.len(),
                    r@.len() + outs@.len() == k,
                    outs@ == all.subrange(r@.len() as int, k as int),
                    forall|i: int| 0 <= i < r@.len() ==> #[trigger] r@[i] == Some(all[i]),
                decreases outs@.len(),
            {
                let x = outs.remove(0);
                r.push(Some(x));
            }
            r
        },
        Err(_) => {
            let mut r: Vec<Option<T>> = Vec::new();
            let mut i: usize = 0;
            while i < n
                invariant
                    i <= n,
                    r@.len() == i,
                    forall|j: int| 0 <= j < i ==> #[trigger] r@[j] is None,
                decreases n - i,
            {
                r.push(None);
                i = i + 1;
            }
            r
        },
    }
}


/// Where a run has got to, reported after each sample it records.
#[derive(Debug, Clone)]
pub struct Progress {
    /// How many samples have been recorded so far, this one included.
    pub current: usize,
    /// How many samples the dataset holds.
    pub total: usize,
    pub sample_id: String,
    pub correct: bool,
}

/// What the scorer said of one text: its decision, the labels it detected
/// and its score, which the run keeps without reading it.
#[derive(Debug, Clone)]
pub struct Verdict<S> {
    pub decision: Decision,
    pub detected_labels: Vec<String>,
    pub score: S,
}

/// The end of the batch that starts at `next`: `batch_size` samples on, or
/// the end of the dataset.
pub open spec fn batch_end(next: nat, batch_size: nat, total: nat) -> nat {
    if next + batch_size <= total {
        next + batch_size
    } else {
        total
    }
}

/// Whether `outcome` is what a run records for `sample` given the scorer's
/// answer for it (`None` where its batch failed): a copy of the sample, its
/// result, and its score (`None` where its batch failed).
pub open spec fn recorded<S>(sample: Sample, answer: Option<Verdict<S>>, outcome: (Sample, SampleResult, Option<S>)) -> bool {
    &&& outcome.0.same_spec(sample)
    &&& match answer {
        Some(v) => outcome.1.scored_spec(sample, v.decision, v.detected_labels@) && outcome.2 == Some(v.score),
        None => outcome.1.scored_spec(sample, Decision::Reject, Seq::empty()) && outcome.2 is None,
    }
}

/// A run over a dataset's samples in batches of `batch_size`: each sample
/// the scorer answered for gets its result and its score; each sample of a
/// batch the scorer failed on counts as rejected, with no score.
pub struct BatchRun<S> {
    samples: Vec<Sample>,
    batch_size: usize,
    next: usize,
    outcomes: Vec<(Sample, SampleResult, Option<S>)>,
    /// The position in the dataset of the sample of each outcome.
    origins: Ghost<Seq<int>>,
}

impl<S> BatchRun<S> {
    /// The dataset's samples.
    pub closed spec fn samples(&self) -> Seq<Sample> {
        self.samples@
    }

    pub closed spec fn batch_size(&self) -> nat {
        self.batch_size as nat
    }

    /// The samples before this position have been scored.
    pub closed spec fn next(&self) -> nat {
        self.next as nat
    }

    /// Each recorded sample with its result and its score, in dataset order.
    pub closed spec fn outcomes(&self) -> Seq<(Sample, SampleResult, Option<S>)> {
        self.outcomes@
    }

    /// The position in the dataset of the sample of each outcome.
    pub closed spec fn origins(&self) -> Seq<int> {
        self.origins@
    }

    /// Each outcome is for a sample before `next`, in dataset order, no
    /// sample twice.
    pub open spec fn in_order(&self) -> bool {
        &&& self.origins().len() == self.outcomes().len()
        &&& forall|i: int, j: int| 0 <= i < j < self.origins().len() ==> self.origins()[i] < self.origins()[j]
        &&& forall|i: int| 0 <= i < self.origins().len() ==> {
            &&& 0 <= #[trigger] self.origins()[i] < self.next()
            &&& self.outcomes()[i].0.same_spec(self.samples()[self.origins()[i]])
        }
    }

    /// What every run keeps.
    pub open spec fn wf(&self) -> bool {
        &&& self.batch_size() >= 1
        &&& self.next() <= self.samples().len()
        &&& self.outcomes().len() <= self.next()
        &&& self.in_order()
    }

    /// Where the batch now due ends.
    pub open spec fn batch_end_spec(&self) -> nat {
        batch_end(self.next(), self.batch_size(), self.samples().len())
    }

    /// A run that has scored nothing yet.
    pub fn new(samples: Vec<Sample>, batch_size: usize) -> (r: Self)
        requires
            batch_size >= 1,
        ensures
            r.wf(),
            r.samples() == samples@,
            r.batch_size() == batch_size,
            r.next() == 0,
            r.outcomes().len() == 0,
    {
        BatchRun { samples, batch_size, next: 0, outcomes: Vec::new(), origins: Ghost(Seq::empty()) }
    }

    /// The texts of the batch now due; `None` once every sample is scored.
    pub fn next_texts(&self) -> (r: Option<Vec<String>>)
        requires
            self.wf(),
        ensures
            r is None <==> self.next() == self.samples().len(),
            r matches Some(texts) ==> {
                &&& texts@.len() == self.batch_end_spec() - self.next()
                &&& forall|i: int| 0 <= i < texts@.len() ==> #[trigger] texts@[i] == self.samples()[self.next() + i].text
            },
    {
        if self.next == self.samples.len() {
            return None;
        }
        let end: usize = if self.batch_size <= self.samples.len() - self.next {
            self.next + self.batch_size
        } else {
            self.samples.len()
        };
        let mut texts: Vec<String> = Vec::new();
        let mut i: usize = self.next;
        while i < end
            invariant
                self.next <= i <= end <= self.samples@.len(),
                texts@.len() == i - self.next,
                forall|j: int| 0 <= j < texts@.len() ==> #[trigger] texts@[j] == self.samples@[self.next + j].text,
            decreases end - i,
        {
            texts.push(self.samples[i].text.clone());
            i = i + 1;
        }
        Some(texts)
    }

    /// Records the scorer's answer for the batch now due (`Err` where the
    /// whole batch failed), and reports progress for each recorded sample.
    pub fn batch_scored<E>(&mut self, answer: Result<Vec<Verdict<S>>, E>) -> (progress: Vec<Progress>)
        requires
            old(self).wf(),
            old(self).next() < old(self).samples().len(),
        ensures
            final(self).wf(),
            final(self).samples() == old(self).samples(),
            final(self).batch_size() == old(self).batch_size(),
            final(self).next() == old(self).batch_end_spec(),
            ({
                let n = (old(self).batch_end_spec() - old(self).next()) as nat;
                let base = old(self).outcomes().len();
                let k = final(self).outcomes().len() - base;
                &&& k == match answer {
                    Ok(outs) => if outs@.len() < n { outs@.len() } else { n },
                    Err(_) => n,
                }
                &&& final(self).outcomes().subrange(0, base as int) == old(self).outcomes()
                &&& final(self).origins() == old(self).origins() + Seq::new(k as nat, |i: int| old(self).next() + i)
                &&& forall|i: int| 0 <= i < k ==> recorded(
                    old(self).samples()[old(self).next() + i],
                    match answer { Ok(outs) => Some(outs@[i]), Err(_) => None },
                    #[trigger] final(self).outcomes()[base + i],
                )
                &&& progress@.len() == k
                &&& forall|i: int| 0 <= i < k ==> {
                    let p = #[trigger] progress@[i];
                    &&& p.current == base + i + 1
                    &&& p.total == old(self).samples().len()
                    &&& p.sample_id == old(self).samples()[old(self).next() + i].id
                    &&& p.correct == final(self).outcomes()[base + i].1.correct
                }
            }),
    {
        let start = self.next;
        let end: usize = if self.batch_size <= self.samples.len() - start {
            start + self.batch_size
        } else {
            self.samples.len()
        };
        let mut answers = batch_answers(end - start, answer);
        let ghost all = answers@;
        let count = answers.len();
        let ghost before = self.outcomes@;
        let ghost origins_before = self.origins@;
        let base = self.outcomes.len();
        let mut progress: Vec<Progress> = Vec::new();
        let mut i: usize = 0;
        while i < count
            invariant
                count == all.len(),
                answers@ == all.skip(i as int),
                start == old(self).next,
                self.next == start,
                self.samples == old(self).samples,
                self.batch_size == old(self).batch_size,
                origins_before.len() == before.len(),
                start < end <= self.samples@.len(),
                all.len() <= end - start,
                base == before.len(),
                base <= start,
                i <= count,
                self.outcomes@.len() == base + i,
                self.outcomes@.subrange(0, base as int) == before,
                self.origins@ == origins_before + Seq::new(i as nat, |j: int| start + j),
                forall|a: int, b: int| 0 <= a < b < origins_before.len() ==> origins_before[a] < origins_before[b],
                forall|a: int| 0 <= a < origins_before.len() ==> {
                    &&& 0 <= #[trigger] origins_before[a] < start
                    &&& before[a].0.same_spec(self.samples@[origins_before[a]])
                },
                progress@.len() == i,
                forall|j: int| 0 <= j < i ==> recorded(
                    self.samples@[start + j],
                    all[j],
                    #[trigger] self.outcomes@[base + j],
                ),
                forall|j: int| 0 <= j < i ==> {
                    let p = #[trigger] progress@[j];
                    &&& p.current == base + j + 1
                    &&& p.total == self.samples@.len()
                    &&& p.sample_id == self.samples@[start + j].id
                    &&& p.correct == self.outcomes@[base + j].1.correct
                },
            decreases count - i,
        {
            let sample = self.samples[start + i].duplicate();
            let answer = answers.remove(0);
            assert(answer == all[i as int]);
            let (result, score) = match answer {
                Some(v) => (SampleResult::scored(&sample, v.decision, v.detected_labels), Some(v.score)),
                None => (SampleResult::rejected(&sample), None),
            };
            progress.push(Progress {
                current: base + i + 1,
                total: self.samples.len(),
                sample_id: sample.id.clone(),
                correct: result.correct,
            });
            let ghost prev = self.outcomes@;
            self.outcomes.push((sample, result, score));
            proof {
                self.origins@ = self.origins@.push(start + i);
                assert(self.origins@ =~= origins_before + Seq::new((i + 1) as nat, |j: int| start + j));
                assert(self.outcomes@.subrange(0, base as int) =~= before);
                assert(answers@ =~= all.skip(i + 1));
                assert forall|j: int| 0 <= j < i + 1 implies recorded(
                    self.samples@[start + j],
                    all[j],
                    #[trigger] self.outcomes@[base + j],
                ) by {
                    if j < i {
                        assert(self.outcomes@[base + j] == prev[base + j]);
                    } else if all[j] is None {
                        assert(self.outcomes@[base + j].1.detected_labels@ =~= Seq::<String>::empty());
                    }
                }
            }
            i = i + 1;
        }
        self.next = end;
        proof {
            assert forall|a: int, b: int| 0 <= a < b < self.origins@.len() implies self.origins@[a] < self.origins@[b] by {
                if b < base {
                    assert(self.origins@[a] == origins_before[a] && self.origins@[b] == origins_before[b]);
                } else if a < base {
                    assert(self.origins@[a] == origins_before[a]);
                }
            }
            assert forall|a: int| 0 <= a < self.origins@.len() implies {
                &&& 0 <= #[trigger] self.origins@[a] < self.next
                &&& self.outcomes@[a].0.same_spec(self.samples@[self.origins@[a]])
            } by {
                if a < base {
                    assert(self.outcomes@[a] == self.outcomes@.subrange(0, base as int)[a]);
                } else {
                    assert(recorded(self.samples@[start + (a - base)], all[a - base], self.outcomes@[base + (a - base)]));
                }
            }
        }
        progress
    }

    /// Each recorded sample with its result and its score.
    pub fn finish(self) -> (r: Vec<(Sample, SampleResult, Option<S>)>)
        ensures
            r@ == self.outcomes(),
    {
        self.outcomes
    }
}

/// A strictly increasing sequence of positions below its own length counts
/// up from zero.
proof fn lemma_increasing_positions(s: Seq<int>)
    requires
        forall|i: int, j: int| 0 <= i < j < s.len() ==> s[i] < s[j],
        forall|i: int| 0 <= i < s.len() ==> 0 <= #[trigger] s[i] < s.len(),
    ensures
        forall|i: int| 0 <= i < s.len() ==> #[trigger] s[i] == i,
{
    assert forall|i: int| 0 <= i < s.len() implies #[trigger] s[i] >= i by {
        lemma_at_least_position(s, i);
    }
    assert forall|i: int| 0 <= i < s.len() implies #[trigger] s[i] <= i by {
        lemma_at_most_position(s, i);
    }
}

proof fn lemma_at_least_position(s: Seq<int>, i: int)
    requires
        0 <= i < s.len(),
        forall|a: int, b: int| 0 <= a < b < s.len() ==> s[a] < s[b],
        forall|a: int| 0 <= a < s.len() ==> 0 <= #[trigger] s[a],
    ensures
        s[i] >= i,
    decreases i,
{
    if i > 0 {
        lemma_at_least_position(s, i - 1);
    }
}

proof fn lemma_at_most_position(s: Seq<int>, i: int)
    requires
        0 <= i < s.len(),
        forall|a: int, b: int| 0 <= a < b < s.len() ==> s[a] < s[b],
        forall|a: int| 0 <= a < s.len() ==> #[trigger] s[a] < s.len(),
    ensures
        s[i] <= i,
    decreases s.len() - i,
{
    if i + 1 < s.len() {
        lemma_at_most_position(s, i + 1);
    }
}

/// Where no batch of a run was answered short, the run has one outcome per
/// scored sample, the `i`-th outcome for the `i`-th sample.
pub proof fn law_complete_run_aligned<S>(run: BatchRun<S>)
    requires
        run.wf(),
        run.outcomes().len() == run.next(),
    ensures
        forall|i: int| 0 <= i < run.next() ==> {
            &&& #[trigger] run.origins()[i] == i
            &&& run.outcomes()[i].0.same_spec(run.samples()[i])
        },
{
    lemma_increasing_positions(run.origins());
    assert forall|i: int| 0 <= i < run.next() implies {
        &&& #[trigger] run.origins()[i] == i
        &&& run.outcomes()[i].0.same_spec(run.samples()[i])
    } by {
        assert(0 <= run.origins()[i] < run.next());
    }
}

} // verus!
