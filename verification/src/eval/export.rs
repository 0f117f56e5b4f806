//! The counts behind a score export: the scored samples of a dataset grouped
//! by category, with per-category label counts.
//!
//! Rates (accuracy, precision, recall, F1) and raw scores are floats; the
//! caller computes them from these counts.

use vstd::prelude::*;

use super::dataset::SampleDataset;
use super::sample::{Sample, SampleResult};
use super::table::{Entry, sorted_names, table_has, table_lookup, table_store, lex_lt, table_index, lemma_table_at};
use super::tally::{
    EvalResult, LabelResult, label_in, label_listed, mentions, occ, lemma_occ_push, lemma_occ_prefix,
    one_if_correct, expected_of, detected_of, false_positives_of, false_negatives_of,
};

verus! {

/// The position of the last result with id `id`, if any.
pub open spec fn last_result(rs: Seq<SampleResult>, id: Seq<char>) -> Option<int>
    decreases rs.len(),
{
    if rs.len() == 0 {
        None
    } else if rs.last().id@ == id {
        Some(rs.len() - 1)
    } else {
        last_result(rs.drop_last(), id)
    }
}

/// The (sample, result) positions of the first `n` samples that have a
/// result (the last one with their id), in dataset order.
pub open spec fn matched(ss: Seq<Sample>, rs: Seq<SampleResult>, n: int) -> Seq<(usize, usize)>
    decreases n,
{
    if n <= 0 {
        seq![]
    } else {
        let prev = matched(ss, rs, n - 1);
        match last_result(rs, ss[n - 1].id@) {
            Some(j) => prev.push(((n - 1) as usize, j as usize)),
            None => prev,
        }
    }
}

/// Those of `ms` whose sample is in category `c`, in order.
pub open spec fn members_in(ss: Seq<Sample>, ms: Seq<(usize, usize)>, c: Seq<char>) -> Seq<(usize, usize)>
    decreases ms.len(),
{
    if ms.len() == 0 {
        seq![]
    } else {
        let prev = members_in(ss, ms.drop_last(), c);
        if ss[ms.last().0 as int].primary_category@ == c {
            prev.push(ms.last())
        } else {
            prev
        }
    }
}

/// The sum of `f` over the members `ms`.
pub open spec fn member_sum(
    ss: Seq<Sample>,
    rs: Seq<SampleResult>,
    ms: Seq<(usize, usize)>,
    f: spec_fn(Sample, SampleResult) -> nat,
) -> nat
    decreases ms.len(),
{
    if ms.len() == 0 {
        0
    } else {
        member_sum(ss, rs, ms.drop_last(), f) + f(ss[ms.last().0 as int], rs[ms.last().1 as int])
    }
}

/// Expectations of `l` that the scorer detected.
pub open spec fn hits_of(l: Seq<char>) -> spec_fn(Sample, SampleResult) -> nat {
    |s: Sample, r: SampleResult|
        if mentions(r.detected_labels@, l) {
            occ(s.expected_labels@, l)
        } else {
            0nat
        }
}

/// Whether the member `m` expects `l` or had it detected.
pub open spec fn member_mentions(ss: Seq<Sample>, rs: Seq<SampleResult>, m: (usize, usize), l: Seq<char>) -> bool {
    mentions(ss[m.0 as int].expected_labels@, l) || mentions(rs[m.1 as int].detected_labels@, l)
}

/// Whether every member points into `ss` and `rs`.
pub open spec fn members_valid(ss: Seq<Sample>, rs: Seq<SampleResult>, ms: Seq<(usize, usize)>) -> bool {
    forall|k: int| 0 <= k < ms.len() ==> (#[trigger] ms[k]).0 < ss.len() && ms[k].1 < rs.len()
}

/// The samples of one category with their results, and the counts over them.
///
/// Labels are sorted by name; a true positive here is an expectation that
/// was detected.
#[derive(Clone, Debug)]
pub struct CategoryGroup {
    pub name: String,
    pub total: usize,
    pub correct: usize,
    pub labels: Vec<Entry<LabelResult>>,
    /// (sample position, result position) pairs, in dataset order.
    pub members: Vec<(usize, usize)>,
}

/// What a group of `ms` over `ss` and `rs` holds.
pub open spec fn group_counts(g: CategoryGroup, ss: Seq<Sample>, rs: Seq<SampleResult>, ms: Seq<(usize, usize)>) -> bool {
    &&& g.members@ == ms
    &&& g.total == ms.len()
    &&& g.correct == member_sum(ss, rs, ms, one_if_correct())
    &&& sorted_names(g.labels@)
    &&& forall|l: Seq<char>| {
        let a = #[trigger] label_in(g.labels@, l);
        &&& a.expected_count == member_sum(ss, rs, ms, expected_of(l))
        &&& a.detected_count == member_sum(ss, rs, ms, detected_of(l))
        &&& a.true_positives == member_sum(ss, rs, ms, hits_of(l))
        &&& a.false_positives == member_sum(ss, rs, ms, false_positives_of(l))
        &&& a.false_negatives == member_sum(ss, rs, ms, false_negatives_of(l))
    }
    &&& forall|l: Seq<char>| #[trigger] table_has(g.labels@, l) <==> exists|k: int| 0 <= k < ms.len()
        && #[trigger] member_mentions(ss, rs, ms[k], l)
}

proof fn lemma_member_sum_push(
    ss: Seq<Sample>,
    rs: Seq<SampleResult>,
    ms: Seq<(usize, usize)>,
    n: int,
    f: spec_fn(Sample, SampleResult) -> nat,
)
    requires
        0 <= n < ms.len(),
    ensures
        member_sum(ss, rs, ms.take(n + 1), f) == member_sum(ss, rs, ms.take(n), f) + f(ss[ms[n].0 as int], rs[ms[n].1 as int]),
{
    assert(ms.take(n + 1).drop_last() =~= ms.take(n));
}

proof fn lemma_member_sum_prefix(
    ss: Seq<Sample>,
    rs: Seq<SampleResult>,
    ms: Seq<(usize, usize)>,
    n: int,
    f: spec_fn(Sample, SampleResult) -> nat,
)
    requires
        0 <= n <= ms.len(),
    ensures
        member_sum(ss, rs, ms.take(n), f) <= member_sum(ss, rs, ms, f),
    decreases ms.len() - n,
{
    if n < ms.len() {
        lemma_member_sum_push(ss, rs, ms, n, f);
        lemma_member_sum_prefix(ss, rs, ms, n + 1, f);
    } else {
        assert(ms.take(n) =~= ms);
    }
}

proof fn lemma_members_in_within(
    ss: Seq<Sample>,
    rs: Seq<SampleResult>,
    ms: Seq<(usize, usize)>,
    c: Seq<char>,
    f: spec_fn(Sample, SampleResult) -> nat,
)
    ensures
        member_sum(ss, rs, members_in(ss, ms, c), f) <= member_sum(ss, rs, ms, f),
    decreases ms.len(),
{
    if ms.len() > 0 {
        lemma_members_in_within(ss, rs, ms.drop_last(), c, f);
        let prev = members_in(ss, ms.drop_last(), c);
        if ss[ms.last().0 as int].primary_category@ == c {
            assert(prev.push(ms.last()).drop_last() =~= prev);
        }
    }
}

/// Within any group, every expectation of a label is either detected or
/// missed.
pub proof fn law_group_expectations_split(
    ss: Seq<Sample>,
    rs: Seq<SampleResult>,
    ms: Seq<(usize, usize)>,
    l: Seq<char>,
)
    ensures
        member_sum(ss, rs, ms, hits_of(l)) + member_sum(ss, rs, ms, false_negatives_of(l)) == member_sum(ss, rs, ms, expected_of(l)),
    decreases ms.len(),
{
    if ms.len() > 0 {
        law_group_expectations_split(ss, rs, ms.drop_last(), l);
    }
}

/// The position of the last result with id `id`, if any.
fn find_last_result(rs: &Vec<SampleResult>, id: &String) -> (r: Option<usize>)
    ensures
        match r {
            Some(j) => last_result(rs@, id@) == Some(j as int),
            None => last_result(rs@, id@) is None,
        },
{
    let mut k: usize = rs.len();
    assert(rs@.take(k as int) =~= rs@);
    while k > 0
        invariant
            k <= rs@.len(),
            last_result(rs@, id@) == last_result(rs@.take(k as int), id@),
        decreases k,
    {
        proof {
            assert(rs@.take(k as int).drop_last() =~= rs@.take(k - 1));
            assert(rs@.take(k as int).last() == rs@[k - 1]);
        }
        if rs[k - 1].id == *id {
            return Some(k - 1);
        }
        k = k - 1;
    }
    None
}

proof fn lemma_matched_valid(ss: Seq<Sample>, rs: Seq<SampleResult>, n: int)
    requires
        0 <= n <= ss.len(),
        ss.len() <= usize::MAX,
        rs.len() <= usize::MAX,
    ensures
        members_valid(ss, rs, matched(ss, rs, n)),
        forall|k: int| 0 <= k < matched(ss, rs, n).len() ==> (#[trigger] matched(ss, rs, n)[k]).0 < n,
    decreases n,
{
    if n > 0 {
        lemma_matched_valid(ss, rs, n - 1);
        lemma_last_result_valid(rs, ss[n - 1].id@);
    }
}

proof fn lemma_last_result_valid(rs: Seq<SampleResult>, id: Seq<char>)
    ensures
        match last_result(rs, id) {
            Some(j) => 0 <= j < rs.len() && rs[j].id@ == id,
            None => true,
        },
    decreases rs.len(),
{
    if rs.len() > 0 && rs.last().id@ != id {
        lemma_last_result_valid(rs.drop_last(), id);
    }
}

/// The (sample, result) positions of the samples that have a result, in
/// dataset order; a sample's result is the last one with its id.
pub fn matched_results(dataset: &SampleDataset, result: &EvalResult) -> (ms: Vec<(usize, usize)>)
    ensures
        ms@ == matched(dataset.samples@, result.sample_results@, dataset.samples@.len() as int),
        members_valid(dataset.samples@, result.sample_results@, ms@),
{
    let ss = &dataset.samples;
    let rs = &result.sample_results;
    let n_results = rs.len();
    assert(rs@.len() == n_results);
    let mut ms: Vec<(usize, usize)> = Vec::new();
    let mut i: usize = 0;
    while i < ss.len()
        invariant
            i <= ss@.len(),
            ms@ == matched(ss@, rs@, i as int),
        decreases ss@.len() - i,
    {
        match find_last_result(rs, &ss[i].id) {
            Some(j) => {
                ms.push((i, j));
            },
            None => {},
        }
        i = i + 1;
    }
    proof {
        lemma_matched_valid(ss@, rs@, ss@.len() as int);
    }
    ms
}

/// Adds, for each label of `exp`, one expectation and either one hit (where
/// `det` lists it) or one miss.
fn count_expectations(labels: &mut Vec<Entry<LabelResult>>, exp: &Vec<String>, det: &Vec<String>)
    requires
        sorted_names(old(labels)@),
        forall|n: Seq<char>| {
            let a = #[trigger] label_in(old(labels)@, n);
            &&& a.expected_count + occ(exp@, n) <= usize::MAX
            &&& a.true_positives <= a.expected_count
            &&& a.false_negatives <= a.expected_count
        },
    ensures
        sorted_names(final(labels)@),
        forall|n: Seq<char>| {
            let a = #[trigger] label_in(final(labels)@, n);
            let b = label_in(old(labels)@, n);
            &&& a.expected_count == b.expected_count + occ(exp@, n)
            &&& a.detected_count == b.detected_count
            &&& a.true_positives == b.true_positives + if mentions(det@, n) { occ(exp@, n) } else { 0 }
            &&& a.false_positives == b.false_positives
            &&& a.false_negatives == b.false_negatives + if mentions(det@, n) { 0 } else { occ(exp@, n) }
        },
        forall|n: Seq<char>| #[trigger] table_has(final(labels)@, n) <==> (table_has(old(labels)@, n) || mentions(exp@, n)),
{
    let ghost l0 = labels@;
    let mut i: usize = 0;
    proof {
        assert forall|n: Seq<char>| occ(exp@.take(0), n) == 0 && !mentions(#[trigger] exp@.take(0), n) by {
            assert(exp@.take(0).len() == 0);
        }
    }
    while i < exp.len()
        invariant
            i <= exp@.len(),
            sorted_names(labels@),
            forall|n: Seq<char>| {
                let a = #[trigger] label_in(l0, n);
                &&& a.expected_count + occ(exp@, n) <= usize::MAX
                &&& a.true_positives <= a.expected_count
                &&& a.false_negatives <= a.expected_count
            },
            forall|n: Seq<char>| {
                let a = #[trigger] label_in(labels@, n);
                let b = label_in(l0, n);
                &&& a.expected_count == b.expected_count + occ(exp@.take(i as int), n)
                &&& a.detected_count == b.detected_count
                &&& a.true_positives == b.true_positives + if mentions(det@, n) { occ(exp@.take(i as int), n) } else { 0 }
                &&& a.false_positives == b.false_positives
                &&& a.false_negatives == b.false_negatives + if mentions(det@, n) { 0 } else { occ(exp@.take(i as int), n) }
            },
            forall|n: Seq<char>| #[trigger] table_has(labels@, n) <==> (table_has(l0, n) || mentions(exp@.take(i as int), n)),
        decreases exp@.len() - i,
    {
        let l = &exp[i];
        let ghost before = labels@;
        let mut e = match table_lookup(labels, l) {
            Some(x) => x,
            None => LabelResult::default(),
        };
        let hit = label_listed(det, l);
        proof {
            assert(e == label_in(before, l@));
            lemma_occ_push(exp@, i as int, l@);
            lemma_occ_prefix(exp@, i + 1, l@);
            assert(label_in(l0, l@).expected_count + occ(exp@, l@) <= usize::MAX);
        }
        e.expected_count = e.expected_count + 1;
        if hit {
            e.true_positives = e.true_positives + 1;
        } else {
            e.false_negatives = e.false_negatives + 1;
        }
        table_store(labels, l, e);
        proof {
            assert forall|n: Seq<char>| {
                let a = #[trigger] label_in(labels@, n);
                let b = label_in(l0, n);
                &&& a.expected_count == b.expected_count + occ(exp@.take(i + 1), n)
                &&& a.detected_count == b.detected_count
                &&& a.true_positives == b.true_positives + if mentions(det@, n) { occ(exp@.take(i + 1), n) } else { 0 }
                &&& a.false_positives == b.false_positives
                &&& a.false_negatives == b.false_negatives + if mentions(det@, n) { 0 } else { occ(exp@.take(i + 1), n) }
            } by {
                lemma_occ_push(exp@, i as int, n);
                if n != l@ {
                    assert(label_in(labels@, n) == label_in(before, n));
                }
            }
            assert forall|n: Seq<char>| #[trigger] table_has(labels@, n) <==> (table_has(l0, n) || mentions(exp@.take(i + 1), n)) by {
                lemma_occ_push(exp@, i as int, n);
            }
        }
        i = i + 1;
    }
    proof {
        assert(exp@.take(exp@.len() as int) =~= exp@);
    }
}

/// Adds, for each label of `det`, one detection, and one false positive
/// where `exp` does not list it.
fn count_detections(labels: &mut Vec<Entry<LabelResult>>, det: &Vec<String>, exp: &Vec<String>)
    requires
        sorted_names(old(labels)@),
        forall|n: Seq<char>| {
            let a = #[trigger] label_in(old(labels)@, n);
            &&& a.detected_count + occ(det@, n) <= usize::MAX
            &&& a.false_positives <= a.detected_count
        },
    ensures
        sorted_names(final(labels)@),
        forall|n: Seq<char>| {
            let a = #[trigger] label_in(final(labels)@, n);
            let b = label_in(old(labels)@, n);
            &&& a.expected_count == b.expected_count
            &&& a.detected_count == b.detected_count + occ(det@, n)
            &&& a.true_positives == b.true_positives
            &&& a.false_positives == b.false_positives + if mentions(exp@, n) { 0 } else { occ(det@, n) }
            &&& a.false_negatives == b.false_negatives
        },
        forall|n: Seq<char>| #[trigger] table_has(final(labels)@, n) <==> (table_has(old(labels)@, n) || mentions(det@, n)),
{
    let ghost l0 = labels@;
    let mut i: usize = 0;
    proof {
        assert forall|n: Seq<char>| occ(det@.take(0), n) == 0 && !mentions(#[trigger] det@.take(0), n) by {
            assert(det@.take(0).len() == 0);
        }
    }
    while i < det.len()
        invariant
            i <= det@.len(),
            sorted_names(labels@),
            forall|n: Seq<char>| {
                let a = #[trigger] label_in(l0, n);
                &&& a.detected_count + occ(det@, n) <= usize::MAX
                &&& a.false_positives <= a.detected_count
            },
            forall|n: Seq<char>| {
                let a = #[trigger] label_in(labels@, n);
                let b = label_in(l0, n);
                &&& a.expected_count == b.expected_count
                &&& a.detected_count == b.detected_count + occ(det@.take(i as int), n)
                &&& a.true_positives == b.true_positives
                &&& a.false_positives == b.false_positives + if mentions(exp@, n) { 0 } else { occ(det@.take(i as int), n) }
                &&& a.false_negatives == b.false_negatives
            },
            forall|n: Seq<char>| #[trigger] table_has(labels@, n) <==> (table_has(l0, n) || mentions(det@.take(i as int), n)),
        decreases det@.len() - i,
    {
        let l = &det[i];
        let ghost before = labels@;
        let mut e = match table_lookup(labels, l) {
            Some(x) => x,
            None => LabelResult::default(),
        };
        let expected = label_listed(exp, l);
        proof {
            assert(e == label_in(before, l@));
            lemma_occ_push(det@, i as int, l@);
            lemma_occ_prefix(det@, i + 1, l@);
            assert(label_in(l0, l@).detected_count + occ(det@, l@) <= usize::MAX);
        }
        e.detected_count = e.detected_count + 1;
        if !expected {
            e.false_positives = e.false_positives + 1;
        }
        table_store(labels, l, e);
        proof {
            assert forall|n: Seq<char>| {
                let a = #[trigger] label_in(labels@, n);
                let b = label_in(l0, n);
                &&& a.expected_count == b.expected_count
                &&& a.detected_count == b.detected_count + occ(det@.take(i + 1), n)
                &&& a.true_positives == b.true_positives
                &&& a.false_positives == b.false_positives + if mentions(exp@, n) { 0 } else { occ(det@.take(i + 1), n) }
                &&& a.false_negatives == b.false_negatives
            } by {
                lemma_occ_push(det@, i as int, n);
                if n != l@ {
                    assert(label_in(labels@, n) == label_in(before, n));
                }
            }
            assert forall|n: Seq<char>| #[trigger] table_has(labels@, n) <==> (table_has(l0, n) || mentions(det@.take(i + 1), n)) by {
                lemma_occ_push(det@, i as int, n);
            }
        }
        i = i + 1;
    }
    proof {
        assert(det@.take(det@.len() as int) =~= det@);
    }
}

proof fn lemma_members_in_valid(ss: Seq<Sample>, rs: Seq<SampleResult>, ms: Seq<(usize, usize)>, c: Seq<char>)
    requires
        members_valid(ss, rs, ms),
    ensures
        members_valid(ss, rs, members_in(ss, ms, c)),
    decreases ms.len(),
{
    if ms.len() > 0 {
        let w = ms.drop_last();
        assert(members_valid(ss, rs, w)) by {
            assert forall|k: int| 0 <= k < w.len() implies (#[trigger] w[k]).0 < ss.len() && w[k].1 < rs.len() by {
                assert(w[k] == ms[k]);
            }
        }
        lemma_members_in_valid(ss, rs, w, c);
        assert(ms.last() == ms[ms.len() - 1]);
    }
}

proof fn lemma_members_in_nonempty(ss: Seq<Sample>, ms: Seq<(usize, usize)>, c: Seq<char>)
    ensures
        members_in(ss, ms, c).len() > 0 <==> exists|q: int| 0 <= q < ms.len() && #[trigger] ss[ms[q].0 as int].primary_category@ == c,
    decreases ms.len(),
{
    if ms.len() > 0 {
        let w = ms.drop_last();
        lemma_members_in_nonempty(ss, w, c);
        if exists|q: int| 0 <= q < w.len() && #[trigger] ss[w[q].0 as int].primary_category@ == c {
            let q = choose|q: int| 0 <= q < w.len() && #[trigger] ss[w[q].0 as int].primary_category@ == c;
            assert(ms[q] == w[q]);
        }
        if exists|q: int| 0 <= q < ms.len() && #[trigger] ss[ms[q].0 as int].primary_category@ == c {
            let q = choose|q: int| 0 <= q < ms.len() && #[trigger] ss[ms[q].0 as int].primary_category@ == c;
            if q < ms.len() - 1 {
                assert(w[q] == ms[q]);
            }
        }
    }
}

/// The group of category `name` over the members `members`.
pub fn build_group(name: &String, ss: &Vec<Sample>, rs: &Vec<SampleResult>, members: Vec<(usize, usize)>) -> (g: CategoryGroup)
    requires
        members_valid(ss@, rs@, members@),
        forall|l: Seq<char>| #[trigger] member_sum(ss@, rs@, members@, expected_of(l)) <= usize::MAX,
        forall|l: Seq<char>| #[trigger] member_sum(ss@, rs@, members@, detected_of(l)) <= usize::MAX,
    ensures
        g.name@ == name@,
        group_counts(g, ss@, rs@, members@),
{
    let ghost ms = members@;
    let mut labels: Vec<Entry<LabelResult>> = Vec::new();
    let mut correct: usize = 0;
    let mut k: usize = 0;
    proof {
        assert forall|l: Seq<char>| !table_has(labels@, l) by {}
    }
    while k < members.len()
        invariant
            ms == members@,
            k <= ms.len(),
            members_valid(ss@, rs@, ms),
            forall|l: Seq<char>| #[trigger] member_sum(ss@, rs@, ms, expected_of(l)) <= usize::MAX,
            forall|l: Seq<char>| #[trigger] member_sum(ss@, rs@, ms, detected_of(l)) <= usize::MAX,
            correct <= k,
            correct == member_sum(ss@, rs@, ms.take(k as int), one_if_correct()),
            sorted_names(labels@),
            forall|l: Seq<char>| {
                let a = #[trigger] label_in(labels@, l);
                &&& a.expected_count == member_sum(ss@, rs@, ms.take(k as int), expected_of(l))
                &&& a.detected_count == member_sum(ss@, rs@, ms.take(k as int), detected_of(l))
                &&& a.true_positives == member_sum(ss@, rs@, ms.take(k as int), hits_of(l))
                &&& a.false_positives == member_sum(ss@, rs@, ms.take(k as int), false_positives_of(l))
                &&& a.false_negatives == member_sum(ss@, rs@, ms.take(k as int), false_negatives_of(l))
                &&& a.true_positives + a.false_negatives == a.expected_count
                &&& a.false_positives <= a.detected_count
            },
            forall|l: Seq<char>| #[trigger] table_has(labels@, l) <==> exists|q: int| 0 <= q < k
                && #[trigger] member_mentions(ss@, rs@, ms[q], l),
        decreases ms.len() - k,
    {
        let (si, ri) = members[k];
        let ghost before = labels@;
        proof {
            assert(ms[k as int] == (si, ri));
            assert((#[trigger] ms[k as int]).0 < ss@.len() && ms[k as int].1 < rs@.len());
            lemma_member_sum_push(ss@, rs@, ms, k as int, one_if_correct());
            assert forall|l: Seq<char>| {
                let a = #[trigger] label_in(labels@, l);
                &&& a.expected_count + occ(ss@[si as int].expected_labels@, l) <= usize::MAX
                &&& a.true_positives <= a.expected_count
                &&& a.false_negatives <= a.expected_count
            } by {
                lemma_member_sum_push(ss@, rs@, ms, k as int, expected_of(l));
                lemma_member_sum_prefix(ss@, rs@, ms, k + 1, expected_of(l));
            }
        }
        if rs[ri].correct {
            correct = correct + 1;
        }
        count_expectations(&mut labels, &ss[si].expected_labels, &rs[ri].detected_labels);
        proof {
            assert forall|l: Seq<char>| {
                let a = #[trigger] label_in(labels@, l);
                &&& a.detected_count + occ(rs@[ri as int].detected_labels@, l) <= usize::MAX
                &&& a.false_positives <= a.detected_count
            } by {
                assert(label_in(before, l).false_positives <= label_in(before, l).detected_count);
                lemma_member_sum_push(ss@, rs@, ms, k as int, detected_of(l));
                lemma_member_sum_prefix(ss@, rs@, ms, k + 1, detected_of(l));
            }
        }
        count_detections(&mut labels, &rs[ri].detected_labels, &ss[si].expected_labels);
        proof {
            assert forall|l: Seq<char>| {
                let a = #[trigger] label_in(labels@, l);
                &&& a.expected_count == member_sum(ss@, rs@, ms.take(k + 1), expected_of(l))
                &&& a.detected_count == member_sum(ss@, rs@, ms.take(k + 1), detected_of(l))
                &&& a.true_positives == member_sum(ss@, rs@, ms.take(k + 1), hits_of(l))
                &&& a.false_positives == member_sum(ss@, rs@, ms.take(k + 1), false_positives_of(l))
                &&& a.false_negatives == member_sum(ss@, rs@, ms.take(k + 1), false_negatives_of(l))
                &&& a.true_positives + a.false_negatives == a.expected_count
                &&& a.false_positives <= a.detected_count
            } by {
                assert(label_in(before, l).false_positives <= label_in(before, l).detected_count);
                assert(label_in(before, l).true_positives + label_in(before, l).false_negatives == label_in(before, l).expected_count);
                lemma_member_sum_push(ss@, rs@, ms, k as int, expected_of(l));
                lemma_member_sum_push(ss@, rs@, ms, k as int, detected_of(l));
                lemma_member_sum_push(ss@, rs@, ms, k as int, hits_of(l));
                lemma_member_sum_push(ss@, rs@, ms, k as int, false_positives_of(l));
                lemma_member_sum_push(ss@, rs@, ms, k as int, false_negatives_of(l));
            }
            assert forall|l: Seq<char>| #[trigger] table_has(labels@, l) <==> exists|q: int| 0 <= q < k + 1
                && #[trigger] member_mentions(ss@, rs@, ms[q], l) by {
                assert(member_mentions(ss@, rs@, ms[k as int], l) == (mentions(ss@[si as int].expected_labels@, l)
                    || mentions(rs@[ri as int].detected_labels@, l)));
                if exists|q: int| 0 <= q < k + 1 && #[trigger] member_mentions(ss@, rs@, ms[q], l) {
                    let q = choose|q: int| 0 <= q < k + 1 && #[trigger] member_mentions(ss@, rs@, ms[q], l);
                    if q < k {
                        assert(table_has(before, l));
                    }
                }
            }
        }
        k = k + 1;
    }
    proof {
        assert(ms.take(ms.len() as int) =~= ms);
    }
    CategoryGroup { name: name.clone(), total: members.len(), correct, labels, members }
}

/// The scored samples of the dataset grouped by category, groups sorted by
/// name; only categories with a scored sample have a group.
pub fn export_groups(dataset: &SampleDataset, result: &EvalResult) -> (gs: Vec<CategoryGroup>)
    requires
        forall|l: Seq<char>| #[trigger] member_sum(dataset.samples@, result.sample_results@,
            matched(dataset.samples@, result.sample_results@, dataset.samples@.len() as int), expected_of(l)) <= usize::MAX,
        forall|l: Seq<char>| #[trigger] member_sum(dataset.samples@, result.sample_results@,
            matched(dataset.samples@, result.sample_results@, dataset.samples@.len() as int), detected_of(l)) <= usize::MAX,
    ensures
        forall|i: int, j: int| 0 <= i < j < gs@.len() ==> lex_lt(#[trigger] gs@[i].name@, #[trigger] gs@[j].name@),
        forall|i: int| 0 <= i < gs@.len() ==> {
            let ms = members_in(dataset.samples@,
                matched(dataset.samples@, result.sample_results@, dataset.samples@.len() as int), (#[trigger] gs@[i]).name@);
            &&& ms.len() > 0
            &&& group_counts(gs@[i], dataset.samples@, result.sample_results@, ms)
        },
        forall|c: Seq<char>| #[trigger] members_in(dataset.samples@,
            matched(dataset.samples@, result.sample_results@, dataset.samples@.len() as int), c).len() > 0
            ==> exists|i: int| 0 <= i < gs@.len() && #[trigger] gs@[i].name@ == c,
{
    let ss = &dataset.samples;
    let rs = &result.sample_results;
    let ms = matched_results(dataset, result);
    let ghost all = ms@;
    // the categories that have a scored sample, sorted
    let mut names: Vec<Entry<bool>> = Vec::new();
    let mut k: usize = 0;
    proof {
        assert forall|c: Seq<char>| !table_has(names@, c) by {}
    }
    while k < ms.len()
        invariant
            all == ms@,
            k <= all.len(),
            members_valid(ss@, rs@, all),
            sorted_names(names@),
            forall|c: Seq<char>| #[trigger] table_has(names@, c) <==> exists|q: int| 0 <= q < k
                && #[trigger] ss@[all[q].0 as int].primary_category@ == c,
        decreases all.len() - k,
    {
        let (si, _ri) = ms[k];
        let ghost before = names@;
        proof {
            assert((#[trigger] all[k as int]).0 < ss@.len());
        }
        table_store(&mut names, &ss[si].primary_category, true);
        proof {
            assert forall|c: Seq<char>| #[trigger] table_has(names@, c) <==> exists|q: int| 0 <= q < k + 1
                && #[trigger] ss@[all[q].0 as int].primary_category@ == c by {
                if exists|q: int| 0 <= q < k + 1 && #[trigger] ss@[all[q].0 as int].primary_category@ == c {
                    let q = choose|q: int| 0 <= q < k + 1 && #[trigger] ss@[all[q].0 as int].primary_category@ == c;
                    if q < k {
                        assert(table_has(before, c));
                    }
                }
                if c == ss@[si as int].primary_category@ {
                    assert(ss@[all[k as int].0 as int].primary_category@ == c);
                }
            }
        }
        k = k + 1;
    }
    proof {
        assert(all.take(all.len() as int) =~= all);
    }
    // one group per category
    let mut gs: Vec<CategoryGroup> = Vec::new();
    let mut g: usize = 0;
    while g < names.len()
        invariant
            all == ms@,
            all == matched(ss@, rs@, ss@.len() as int),
            members_valid(ss@, rs@, all),
            forall|l: Seq<char>| #[trigger] member_sum(ss@, rs@, all, expected_of(l)) <= usize::MAX,
            forall|l: Seq<char>| #[trigger] member_sum(ss@, rs@, all, detected_of(l)) <= usize::MAX,
            sorted_names(names@),
            forall|c: Seq<char>| #[trigger] table_has(names@, c) <==> exists|q: int| 0 <= q < all.len()
                && #[trigger] ss@[all[q].0 as int].primary_category@ == c,
            g <= names@.len(),
            gs@.len() == g,
            forall|i: int| 0 <= i < g ==> (#[trigger] gs@[i]).name@ == names@[i].name@,
            forall|i: int| 0 <= i < g ==> {
                let m = members_in(ss@, all, (#[trigger] gs@[i]).name@);
                &&& m.len() > 0
                &&& group_counts(gs@[i], ss@, rs@, m)
            },
        decreases names@.len() - g,
    {
        let c = &names[g].name;
        let mut members: Vec<(usize, usize)> = Vec::new();
        let mut q: usize = 0;
        while q < ms.len()
            invariant
                all == ms@,
                members_valid(ss@, rs@, all),
                q <= all.len(),
                members@ == members_in(ss@, all.take(q as int), c@),
            decreases all.len() - q,
        {
            let (si, ri) = ms[q];
            proof {
                assert((#[trigger] all[q as int]).0 < ss@.len());
                assert(all.take(q + 1).drop_last() =~= all.take(q as int));
                assert(all.take(q + 1).last() == all[q as int]);
            }
            if ss[si].primary_category == *c {
                members.push((si, ri));
            }
            q = q + 1;
        }
        proof {
            assert(all.take(all.len() as int) =~= all);
            lemma_members_in_valid(ss@, rs@, all, c@);
            assert forall|l: Seq<char>| #[trigger] member_sum(ss@, rs@, members@, expected_of(l)) <= usize::MAX by {
                lemma_members_in_within(ss@, rs@, all, c@, expected_of(l));
            }
            assert forall|l: Seq<char>| #[trigger] member_sum(ss@, rs@, members@, detected_of(l)) <= usize::MAX by {
                lemma_members_in_within(ss@, rs@, all, c@, detected_of(l));
            }
            lemma_table_at(names@, g as int);
            lemma_members_in_nonempty(ss@, all, c@);
        }
        let group = build_group(c, ss, rs, members);
        gs.push(group);
        proof {
            assert forall|i: int| 0 <= i < g + 1 implies {
                let m = members_in(ss@, all, (#[trigger] gs@[i]).name@);
                &&& m.len() > 0
                &&& group_counts(gs@[i], ss@, rs@, m)
            } by {

            }
        }
        g = g + 1;
    }
    proof {
        assert forall|i: int, j: int| 0 <= i < j < gs@.len() implies lex_lt(#[trigger] gs@[i].name@, #[trigger] gs@[j].name@) by {
            assert(gs@[i].name@ == names@[i].name@);
            assert(gs@[j].name@ == names@[j].name@);
        }
        assert forall|c: Seq<char>| #[trigger] members_in(ss@, all, c).len() > 0
            implies exists|i: int| 0 <= i < gs@.len() && #[trigger] gs@[i].name@ == c by {
            lemma_members_in_nonempty(ss@, all, c);
            assert(table_has(names@, c));
            let i = table_index(names@, c);
            assert(gs@[i].name@ == names@[i].name@);
        }
    }
    gs
}

} // verus!
