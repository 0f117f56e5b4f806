//! Counts gathered over scored samples: overall, per category and per label.

use vstd::prelude::*;

use super::sample::{Sample, SampleResult};
use super::table::{Entry, sorted_names, table_has, table_get, table_lookup, table_store, lemma_table_at};

verus! {

/// Raw counts for one category.
#[derive(Clone, Copy, Debug)]
pub struct CategoryResult {
    pub total: usize,
    pub correct: usize,
}

impl Default for CategoryResult {
    fn default() -> (r: Self)
        ensures
            r.total == 0,
            r.correct == 0,
    {
        CategoryResult { total: 0, correct: 0 }
    }
}

/// Raw counts for one label.
#[derive(Clone, Copy, Debug)]
pub struct LabelResult {
    pub expected_count: usize,
    pub detected_count: usize,
    pub true_positives: usize,
    pub false_positives: usize,
    pub false_negatives: usize,
}

impl Default for LabelResult {
    fn default() -> (r: Self)
        ensures
            r.expected_count == 0,
            r.detected_count == 0,
            r.true_positives == 0,
            r.false_positives == 0,
            r.false_negatives == 0,
    {
        LabelResult { expected_count: 0, detected_count: 0, true_positives: 0, false_positives: 0, false_negatives: 0 }
    }
}

/// How many times `l` occurs in `v`.
pub open spec fn occ(v: Seq<String>, l: Seq<char>) -> nat
    decreases v.len(),
{
    if v.len() == 0 {
        0
    } else {
        occ(v.drop_last(), l) + if v.last()@ == l {
            1nat
        } else {
            0nat
        }
    }
}

/// Whether `l` occurs in `v`.
pub open spec fn mentions(v: Seq<String>, l: Seq<char>) -> bool {
    exists|i: int| 0 <= i < v.len() && v[i]@ == l
}

/// Whether no label occurs twice in `v`.
pub open spec fn no_repeats(v: Seq<String>) -> bool {
    forall|i: int, j: int| 0 <= i < j < v.len() ==> v[i]@ != v[j]@
}

pub(crate) proof fn lemma_occ_mentions(v: Seq<String>, l: Seq<char>)
    ensures
        (occ(v, l) > 0) == mentions(v, l),
    decreases v.len(),
{
    if v.len() > 0 {
        let w = v.drop_last();
        lemma_occ_mentions(w, l);
        if mentions(w, l) {
            let i = choose|i: int| 0 <= i < w.len() && w[i]@ == l;
            assert(v[i] == w[i]);
        }
        if mentions(v, l) {
            let i = choose|i: int| 0 <= i < v.len() && v[i]@ == l;
            if i < v.len() - 1 {
                assert(w[i] == v[i]);
            }
        }
    }
}

proof fn lemma_occ_at_most_one(v: Seq<String>, l: Seq<char>)
    requires
        no_repeats(v),
    ensures
        occ(v, l) <= 1,
    decreases v.len(),
{
    if v.len() > 0 {
        let w = v.drop_last();
        assert(no_repeats(w)) by {
            assert forall|i: int, j: int| 0 <= i < j < w.len() implies w[i]@ != w[j]@ by {
                assert(w[i] == v[i] && w[j] == v[j]);
            }
        }
        lemma_occ_at_most_one(w, l);
        if v.last()@ == l {
            lemma_occ_mentions(w, l);
            if mentions(w, l) {
                let i = choose|i: int| 0 <= i < w.len() && w[i]@ == l;
                assert(w[i] == v[i]);
                assert(v[i]@ != v[v.len() - 1]@);
            }
        }
    }
}

pub(crate) proof fn lemma_occ_push(v: Seq<String>, n: int, l: Seq<char>)
    requires
        0 <= n < v.len(),
    ensures
        occ(v.take(n + 1), l) == occ(v.take(n), l) + if v[n]@ == l {
            1nat
        } else {
            0nat
        },
        mentions(v.take(n + 1), l) == (mentions(v.take(n), l) || v[n]@ == l),
{
    assert(v.take(n + 1).drop_last() =~= v.take(n));
    let a = v.take(n);
    let b = v.take(n + 1);
    if mentions(b, l) {
        let i = choose|i: int| 0 <= i < b.len() && b[i]@ == l;
        if i < n {
            assert(a[i] == b[i]);
        }
    }
    if mentions(a, l) {
        let i = choose|i: int| 0 <= i < a.len() && a[i]@ == l;
        assert(b[i] == a[i]);
    }
    if v[n]@ == l {
        assert(b[n] == v[n]);
    }
}

pub(crate) proof fn lemma_occ_prefix(v: Seq<String>, n: int, l: Seq<char>)
    requires
        0 <= n <= v.len(),
    ensures
        occ(v.take(n), l) <= occ(v, l),
    decreases v.len() - n,
{
    if n < v.len() {
        lemma_occ_push(v, n, l);
        lemma_occ_prefix(v, n + 1, l);
    } else {
        assert(v.take(n) =~= v);
    }
}

/// What one scored sample adds to the count of a label.
pub open spec fn expected_n(s: Sample, l: Seq<char>) -> nat {
    occ(s.expected_labels@, l)
}

pub open spec fn detected_n(r: SampleResult, l: Seq<char>) -> nat {
    occ(r.detected_labels@, l)
}

/// Detections of `l` where the sample expected it.
pub open spec fn true_positive_n(s: Sample, r: SampleResult, l: Seq<char>) -> nat {
    if mentions(s.expected_labels@, l) {
        detected_n(r, l)
    } else {
        0
    }
}

/// Detections of `l` where the sample did not expect it.
pub open spec fn false_positive_n(s: Sample, r: SampleResult, l: Seq<char>) -> nat {
    if mentions(s.expected_labels@, l) {
        0
    } else {
        detected_n(r, l)
    }
}

/// Expectations of `l` that the scorer did not detect.
pub open spec fn false_negative_n(s: Sample, r: SampleResult, l: Seq<char>) -> nat {
    if mentions(r.detected_labels@, l) {
        0
    } else {
        expected_n(s, l)
    }
}

/// The sum of `f` over scored samples.
pub open spec fn sum_over(rs: Seq<(Sample, SampleResult)>, f: spec_fn(Sample, SampleResult) -> nat) -> nat
    decreases rs.len(),
{
    if rs.len() == 0 {
        0
    } else {
        sum_over(rs.drop_last(), f) + f(rs.last().0, rs.last().1)
    }
}

pub open spec fn one_if_correct() -> spec_fn(Sample, SampleResult) -> nat {
    |s: Sample, r: SampleResult|
        if r.correct {
            1nat
        } else {
            0nat
        }
}

pub open spec fn one_if_in(c: Seq<char>) -> spec_fn(Sample, SampleResult) -> nat {
    |s: Sample, r: SampleResult|
        if s.primary_category@ == c {
            1nat
        } else {
            0nat
        }
}

pub open spec fn one_if_correct_in(c: Seq<char>) -> spec_fn(Sample, SampleResult) -> nat {
    |s: Sample, r: SampleResult|
        if s.primary_category@ == c && r.correct {
            1nat
        } else {
            0nat
        }
}

pub open spec fn expected_of(l: Seq<char>) -> spec_fn(Sample, SampleResult) -> nat {
    |s: Sample, r: SampleResult| expected_n(s, l)
}

pub open spec fn detected_of(l: Seq<char>) -> spec_fn(Sample, SampleResult) -> nat {
    |s: Sample, r: SampleResult| detected_n(r, l)
}

pub open spec fn true_positives_of(l: Seq<char>) -> spec_fn(Sample, SampleResult) -> nat {
    |s: Sample, r: SampleResult| true_positive_n(s, r, l)
}

pub open spec fn false_positives_of(l: Seq<char>) -> spec_fn(Sample, SampleResult) -> nat {
    |s: Sample, r: SampleResult| false_positive_n(s, r, l)
}

pub open spec fn false_negatives_of(l: Seq<char>) -> spec_fn(Sample, SampleResult) -> nat {
    |s: Sample, r: SampleResult| false_negative_n(s, r, l)
}

proof fn lemma_sum_push(rs: Seq<(Sample, SampleResult)>, n: int, f: spec_fn(Sample, SampleResult) -> nat)
    requires
        0 <= n < rs.len(),
    ensures
        sum_over(rs.take(n + 1), f) == sum_over(rs.take(n), f) + f(rs[n].0, rs[n].1),
{
    assert(rs.take(n + 1).drop_last() =~= rs.take(n));
}

proof fn lemma_sum_prefix(rs: Seq<(Sample, SampleResult)>, n: int, f: spec_fn(Sample, SampleResult) -> nat)
    requires
        0 <= n <= rs.len(),
    ensures
        sum_over(rs.take(n), f) <= sum_over(rs, f),
    decreases rs.len() - n,
{
    if n < rs.len() {
        lemma_sum_push(rs, n, f);
        lemma_sum_prefix(rs, n + 1, f);
    } else {
        assert(rs.take(n) =~= rs);
    }
}

/// Summing over all samples, every detection of a label is either a true
/// or a false positive.
pub proof fn law_detections_split(rs: Seq<(Sample, SampleResult)>, l: Seq<char>)
    ensures
        sum_over(rs, true_positives_of(l)) + sum_over(rs, false_positives_of(l)) == sum_over(rs, detected_of(l)),
    decreases rs.len(),
{
    if rs.len() > 0 {
        law_detections_split(rs.drop_last(), l);
    }
}

/// Where no sample lists a label twice, every expectation of a label is
/// either a true positive or a false negative.
pub proof fn law_expectations_split(rs: Seq<(Sample, SampleResult)>, l: Seq<char>)
    requires
        forall|i: int| 0 <= i < rs.len() ==> no_repeats(#[trigger] rs[i].0.expected_labels@) && no_repeats(rs[i].1.detected_labels@),
    ensures
        sum_over(rs, true_positives_of(l)) + sum_over(rs, false_negatives_of(l)) == sum_over(rs, expected_of(l)),
    decreases rs.len(),
{
    if rs.len() > 0 {
        let w = rs.drop_last();
        assert forall|i: int| 0 <= i < w.len() implies no_repeats(#[trigger] w[i].0.expected_labels@) && no_repeats(w[i].1.detected_labels@) by {
            assert(w[i] == rs[i]);
        }
        law_expectations_split(w, l);
        let (s, r) = rs.last();
        assert(rs.last() == rs[rs.len() - 1]);
        lemma_occ_at_most_one(s.expected_labels@, l);
        lemma_occ_at_most_one(r.detected_labels@, l);
        lemma_occ_mentions(s.expected_labels@, l);
        lemma_occ_mentions(r.detected_labels@, l);
    }
}

/// The counts of category `c` in `s` (zero where absent).
pub open spec fn category_in(s: Seq<Entry<CategoryResult>>, c: Seq<char>) -> CategoryResult {
    match table_get(s, c) {
        Some(r) => r,
        None => CategoryResult { total: 0, correct: 0 },
    }
}

/// The counts of label `l` in `s` (zero where absent).
pub open spec fn label_in(s: Seq<Entry<LabelResult>>, l: Seq<char>) -> LabelResult {
    match table_get(s, l) {
        Some(r) => r,
        None => LabelResult {
            expected_count: 0,
            detected_count: 0,
            true_positives: 0,
            false_positives: 0,
            false_negatives: 0,
        },
    }
}

/// The sum of the category totals.
pub open spec fn sum_totals(s: Seq<Entry<CategoryResult>>) -> int
    decreases s.len(),
{
    if s.len() == 0 {
        0
    } else {
        sum_totals(s.drop_last()) + s.last().value.total
    }
}

/// The sum of the category correct counts.
pub open spec fn sum_corrects(s: Seq<Entry<CategoryResult>>) -> int
    decreases s.len(),
{
    if s.len() == 0 {
        0
    } else {
        sum_corrects(s.drop_last()) + s.last().value.correct
    }
}

proof fn lemma_sums_update(s: Seq<Entry<CategoryResult>>, i: int, e: Entry<CategoryResult>)
    requires
        0 <= i < s.len(),
    ensures
        sum_totals(s.update(i, e)) == sum_totals(s) - s[i].value.total + e.value.total,
        sum_corrects(s.update(i, e)) == sum_corrects(s) - s[i].value.correct + e.value.correct,
    decreases s.len(),
{
    let u = s.update(i, e);
    if i == s.len() - 1 {
        assert(u.drop_last() =~= s.drop_last());
    } else {
        assert(u.drop_last() =~= s.drop_last().update(i, e));
        lemma_sums_update(s.drop_last(), i, e);
    }
}

proof fn lemma_sums_insert(s: Seq<Entry<CategoryResult>>, i: int, e: Entry<CategoryResult>)
    requires
        0 <= i <= s.len(),
    ensures
        sum_totals(s.insert(i, e)) == sum_totals(s) + e.value.total,
        sum_corrects(s.insert(i, e)) == sum_corrects(s) + e.value.correct,
    decreases s.len(),
{
    let u = s.insert(i, e);
    if i == s.len() {
        assert(u.drop_last() =~= s);
    } else {
        assert(u.drop_last() =~= s.drop_last().insert(i, e));
        lemma_sums_insert(s.drop_last(), i, e);
    }
}

proof fn lemma_entry_within_sum(s: Seq<Entry<CategoryResult>>, i: int)
    requires
        0 <= i < s.len(),
    ensures
        s[i].value.total <= sum_totals(s),
    decreases s.len(),
{
    if i < s.len() - 1 {
        lemma_entry_within_sum(s.drop_last(), i);
    }
    lemma_sums_nonnegative(s.drop_last());
}

proof fn lemma_sums_nonnegative(s: Seq<Entry<CategoryResult>>)
    ensures
        sum_totals(s) >= 0,
    decreases s.len(),
{
    if s.len() > 0 {
        lemma_sums_nonnegative(s.drop_last());
    }
}

/// Whether `l` occurs in `v`.
pub fn label_listed(v: &Vec<String>, l: &String) -> (b: bool)
    ensures
        b == mentions(v@, l@),
{
    let mut i: usize = 0;
    while i < v.len()
        invariant
            i <= v@.len(),
            forall|j: int| 0 <= j < i ==> v@[j]@ != l@,
        decreases v@.len() - i,
    {
        if v[i] == *l {
            return true;
        }
        i = i + 1;
    }
    false
}

/// Adds one expected occurrence for each label of `exp`.
fn count_expected(labels: &mut Vec<Entry<LabelResult>>, exp: &Vec<String>)
    requires
        sorted_names(old(labels)@),
        forall|n: Seq<char>| #[trigger] label_in(old(labels)@, n).expected_count + occ(exp@, n) <= usize::MAX,
    ensures
        sorted_names(final(labels)@),
        forall|n: Seq<char>| {
            let a = #[trigger] label_in(final(labels)@, n);
            let b = label_in(old(labels)@, n);
            &&& a.expected_count == b.expected_count + occ(exp@, n)
            &&& a.detected_count == b.detected_count
            &&& a.true_positives == b.true_positives
            &&& a.false_positives == b.false_positives
            &&& a.false_negatives == b.false_negatives
        },
        forall|n: Seq<char>| #[trigger] table_has(final(labels)@, n) <==> (table_has(old(labels)@, n) || mentions(exp@, n)),
{
    let ghost l0 = labels@;
    let mut i: usize = 0;
    proof {
        assert forall|n: Seq<char>| occ(exp@.take(0), n) == 0 && !mentions(#[trigger] exp@.take(0), n) by {
            assert(exp@.take(0).len() == 0);
        }
    }
    while i < exp.len()
        invariant
            i <= exp@.len(),
            sorted_names(labels@),
            forall|n: Seq<char>| #[trigger] label_in(l0, n).expected_count + occ(exp@, n) <= usize::MAX,
            forall|n: Seq<char>| {
                let a = #[trigger] label_in(labels@, n);
                let b = label_in(l0, n);
                &&& a.expected_count == b.expected_count + occ(exp@.take(i as int), n)
                &&& a.detected_count == b.detected_count
                &&& a.true_positives == b.true_positives
                &&& a.false_positives == b.false_positives
                &&& a.false_negatives == b.false_negatives
            },
            forall|n: Seq<char>| #[trigger] table_has(labels@, n) <==> (table_has(l0, n) || mentions(exp@.take(i as int), n)),
        decreases exp@.len() - i,
    {
        let l = &exp[i];
        let ghost before = labels@;
        let mut e = match table_lookup(labels, l) {
            Some(x) => x,
            None => LabelResult::default(),
        };
        proof {
            assert(e == label_in(before, l@));
            lemma_occ_push(exp@, i as int, l@);
            lemma_occ_prefix(exp@, i + 1, l@);
            assert(label_in(l0, l@).expected_count + occ(exp@, l@) <= usize::MAX);
        }
        e.expected_count = e.expected_count + 1;
        table_store(labels, l, e);
        proof {
            assert forall|n: Seq<char>| {
                let a = #[trigger] label_in(labels@, n);
                let b = label_in(l0, n);
                &&& a.expected_count == b.expected_count + occ(exp@.take(i + 1), n)
                &&& a.detected_count == b.detected_count
                &&& a.true_positives == b.true_positives
                &&& a.false_positives == b.false_positives
                &&& a.false_negatives == b.false_negatives
            } by {
                lemma_occ_push(exp@, i as int, n);
                if n != l@ {
                    assert(label_in(labels@, n) == label_in(before, n));
                }
            }
            assert forall|n: Seq<char>| #[trigger] table_has(labels@, n) <==> (table_has(l0, n) || mentions(exp@.take(i + 1), n)) by {
                lemma_occ_push(exp@, i as int, n);
            }
        }
        i = i + 1;
    }
    proof {
        assert(exp@.take(exp@.len() as int) =~= exp@);
    }
}

/// Adds one detection for each label of `det`, as a true positive where
/// `exp` lists the label and as a false positive where it does not.
fn count_detected(labels: &mut Vec<Entry<LabelResult>>, det: &Vec<String>, exp: &Vec<String>)
    requires
        sorted_names(old(labels)@),
        forall|n: Seq<char>| {
            let a = #[trigger] label_in(old(labels)@, n);
            &&& a.detected_count + occ(det@, n) <= usize::MAX
            &&& a.true_positives <= a.detected_count
            &&& a.false_positives <= a.detected_count
        },
    ensures
        sorted_names(final(labels)@),
        forall|n: Seq<char>| {
            let a = #[trigger] label_in(final(labels)@, n);
            let b = label_in(old(labels)@, n);
            &&& a.expected_count == b.expected_count
            &&& a.detected_count == b.detected_count + occ(det@, n)
            &&& a.true_positives == b.true_positives + if mentions(exp@, n) { occ(det@, n) } else { 0 }
            &&& a.false_positives == b.false_positives + if mentions(exp@, n) { 0 } else { occ(det@, n) }
            &&& a.false_negatives == b.false_negatives
        },
        forall|n: Seq<char>| #[trigger] table_has(final(labels)@, n) <==> (table_has(old(labels)@, n) || mentions(det@, n)),
{
    let ghost l0 = labels@;
    let mut i: usize = 0;
    proof {
        assert forall|n: Seq<char>| occ(det@.take(0), n) == 0 && !mentions(#[trigger] det@.take(0), n) by {
            assert(det@.take(0).len() == 0);
        }
    }
    while i < det.len()
        invariant
            i <= det@.len(),
            sorted_names(labels@),
            forall|n: Seq<char>| {
                let a = #[trigger] label_in(l0, n);
                &&& a.detected_count + occ(det@, n) <= usize::MAX
                &&& a.true_positives <= a.detected_count
                &&& a.false_positives <= a.detected_count
            },
            forall|n: Seq<char>| {
                let a = #[trigger] label_in(labels@, n);
                let b = label_in(l0, n);
                &&& a.expected_count == b.expected_count
                &&& a.detected_count == b.detected_count + occ(det@.take(i as int), n)
                &&& a.true_positives == b.true_positives + if mentions(exp@, n) { occ(det@.take(i as int), n) } else { 0 }
                &&& a.false_positives == b.false_positives + if mentions(exp@, n) { 0 } else { occ(det@.take(i as int), n) }
                &&& a.false_negatives == b.false_negatives
            },
            forall|n: Seq<char>| #[trigger] table_has(labels@, n) <==> (table_has(l0, n) || mentions(det@.take(i as int), n)),
        decreases det@.len() - i,
    {
        let l = &det[i];
        let ghost before = labels@;
        let mut e = match table_lookup(labels, l) {
            Some(x) => x,
            None => LabelResult::default(),
        };
        let expected = label_listed(exp, l);
        proof {
            assert(e == label_in(before, l@));
            lemma_occ_push(det@, i as int, l@);
            lemma_occ_prefix(det@, i + 1, l@);
            assert(label_in(l0, l@).detected_count + occ(det@, l@) <= usize::MAX);
        }
        e.detected_count = e.detected_count + 1;
        if expected {
            e.true_positives = e.true_positives + 1;
        } else {
            e.false_positives = e.false_positives + 1;
        }
        table_store(labels, l, e);
        proof {
            assert forall|n: Seq<char>| {
                let a = #[trigger] label_in(labels@, n);
                let b = label_in(l0, n);
                &&& a.expected_count == b.expected_count
                &&& a.detected_count == b.detected_count + occ(det@.take(i + 1), n)
                &&& a.true_positives == b.true_positives + if mentions(exp@, n) { occ(det@.take(i + 1), n) } else { 0 }
                &&& a.false_positives == b.false_positives + if mentions(exp@, n) { 0 } else { occ(det@.take(i + 1), n) }
                &&& a.false_negatives == b.false_negatives
            } by {
                lemma_occ_push(det@, i as int, n);
                if n != l@ {
                    assert(label_in(labels@, n) == label_in(before, n));
                }
            }
            assert forall|n: Seq<char>| #[trigger] table_has(labels@, n) <==> (table_has(l0, n) || mentions(det@.take(i + 1), n)) by {
                lemma_occ_push(det@, i as int, n);
            }
        }
        i = i + 1;
    }
    proof {
        assert(det@.take(det@.len() as int) =~= det@);
    }
}

/// Adds one false negative for each label of `exp` that `det` does not list.
fn count_missed(labels: &mut Vec<Entry<LabelResult>>, exp: &Vec<String>, det: &Vec<String>)
    requires
        sorted_names(old(labels)@),
        forall|n: Seq<char>| #[trigger] label_in(old(labels)@, n).false_negatives + occ(exp@, n) <= usize::MAX,
    ensures
        sorted_names(final(labels)@),
        forall|n: Seq<char>| {
            let a = #[trigger] label_in(final(labels)@, n);
            let b = label_in(old(labels)@, n);
            &&& a.expected_count == b.expected_count
            &&& a.detected_count == b.detected_count
            &&& a.true_positives == b.true_positives
            &&& a.false_positives == b.false_positives
            &&& a.false_negatives == b.false_negatives + if mentions(det@, n) { 0 } else { occ(exp@, n) }
        },
        forall|n: Seq<char>| #[trigger] table_has(final(labels)@, n) <==> (table_has(old(labels)@, n) || (mentions(exp@, n) && !mentions(det@, n))),
{
    let ghost l0 = labels@;
    let mut i: usize = 0;
    proof {
        assert forall|n: Seq<char>| occ(exp@.take(0), n) == 0 && !mentions(#[trigger] exp@.take(0), n) by {
            assert(exp@.take(0).len() == 0);
        }
    }
    while i < exp.len()
        invariant
            i <= exp@.len(),
            sorted_names(labels@),
            forall|n: Seq<char>| #[trigger] label_in(l0, n).false_negatives + occ(exp@, n) <= usize::MAX,
            forall|n: Seq<char>| {
                let a = #[trigger] label_in(labels@, n);
                let b = label_in(l0, n);
                &&& a.expected_count == b.expected_count
                &&& a.detected_count == b.detected_count
                &&& a.true_positives == b.true_positives
                &&& a.false_positives == b.false_positives
                &&& a.false_negatives == b.false_negatives + if mentions(det@, n) { 0 } else { occ(exp@.take(i as int), n) }
            },
            forall|n: Seq<char>| #[trigger] table_has(labels@, n) <==> (table_has(l0, n) || (mentions(exp@.take(i as int), n) && !mentions(det@, n))),
        decreases exp@.len() - i,
    {
        let l = &exp[i];
        let detected = label_listed(det, l);
        proof {
            lemma_occ_push(exp@, i as int, l@);
        }
        if !detected {
            let ghost before = labels@;
            let mut e = match table_lookup(labels, l) {
                Some(x) => x,
                None => LabelResult::default(),
            };
            proof {
                assert(e == label_in(before, l@));
                lemma_occ_prefix(exp@, i + 1, l@);
                assert(label_in(l0, l@).false_negatives + occ(exp@, l@) <= usize::MAX);
            }
            e.false_negatives = e.false_negatives + 1;
            table_store(labels, l, e);
            proof {
                assert forall|n: Seq<char>| n != l@ implies #[trigger] label_in(labels@, n) == label_in(before, n) by {}
            }
        }
        proof {
            assert forall|n: Seq<char>| {
                let a = #[trigger] label_in(labels@, n);
                let b = label_in(l0, n);
                &&& a.expected_count == b.expected_count
                &&& a.detected_count == b.detected_count
                &&& a.true_positives == b.true_positives
                &&& a.false_positives == b.false_positives
                &&& a.false_negatives == b.false_negatives + if mentions(det@, n) { 0 } else { occ(exp@.take(i + 1), n) }
            } by {
                lemma_occ_push(exp@, i as int, n);
            }
            assert forall|n: Seq<char>| #[trigger] table_has(labels@, n) <==> (table_has(l0, n) || (mentions(exp@.take(i + 1), n) && !mentions(det@, n))) by {
                lemma_occ_push(exp@, i as int, n);
            }
        }
        i = i + 1;
    }
    proof {
        assert(exp@.take(exp@.len() as int) =~= exp@);
    }
}

/// Raw evaluation results: counts only (rates are computed from them).
///
/// Categories and labels are kept sorted by name.
#[derive(Clone, Debug)]
pub struct EvalResult {
    pub total: usize,
    pub correct: usize,
    pub per_category: Vec<Entry<CategoryResult>>,
    pub per_label: Vec<Entry<LabelResult>>,
    pub sample_results: Vec<SampleResult>,
    /// Total evaluation time in milliseconds.
    pub elapsed_ms: i64,
}

impl EvalResult {
    /// The counts of category `c` (zero where absent).
    pub open spec fn category(&self, c: Seq<char>) -> CategoryResult {
        category_in(self.per_category@, c)
    }

    /// The counts of label `l` (zero where absent).
    pub open spec fn label(&self, l: Seq<char>) -> LabelResult {
        label_in(self.per_label@, l)
    }

    /// What holds of every result built by `new`, `record` and `from_outcomes`:
    /// the category counts add up to the overall counts, no count of correct
    /// samples exceeds its total, and every detection of a label is a true or a
    /// false positive.
    pub open spec fn wf(&self) -> bool {
        &&& sorted_names(self.per_category@)
        &&& sorted_names(self.per_label@)
        &&& sum_totals(self.per_category@) == self.total
        &&& sum_corrects(self.per_category@) == self.correct
        &&& self.correct <= self.total
        &&& forall|c: Seq<char>| #[trigger] self.category(c).correct <= self.category(c).total
        &&& forall|l: Seq<char>| {
            let r = #[trigger] self.label(l);
            &&& r.true_positives + r.false_positives == r.detected_count
            &&& r.false_negatives <= r.expected_count
        }
    }

    /// An empty result.
    pub fn new() -> (r: Self)
        ensures
            r.wf(),
            r.total == 0,
            r.correct == 0,
            r.per_category@.len() == 0,
            r.per_label@.len() == 0,
            r.sample_results@.len() == 0,
            r.elapsed_ms == 0,
    {
        EvalResult {
            total: 0,
            correct: 0,
            per_category: Vec::new(),
            per_label: Vec::new(),
            sample_results: Vec::new(),
            elapsed_ms: 0,
        }
    }

    /// Counts one scored sample: overall, under its category, and under every
    /// label that it expects or that was detected in it.
    pub fn record(&mut self, sample: &Sample, result: SampleResult)
        requires
            old(self).wf(),
            old(self).total < usize::MAX,
            forall|l: Seq<char>| #[trigger] old(self).label(l).expected_count + expected_n(*sample, l) <= usize::MAX,
            forall|l: Seq<char>| #[trigger] old(self).label(l).detected_count + detected_n(result, l) <= usize::MAX,
        ensures
            final(self).wf(),
            final(self).total == old(self).total + 1,
            final(self).correct == old(self).correct + if result.correct { 1int } else { 0int },
            forall|c: Seq<char>| {
                let a = #[trigger] final(self).category(c);
                let b = old(self).category(c);
                if c == sample.primary_category@ {
                    &&& a.total == b.total + 1
                    &&& a.correct == b.correct + if result.correct { 1int } else { 0int }
                } else {
                    a == b
                }
            },
            forall|c: Seq<char>| #[trigger] table_has(final(self).per_category@, c)
                <==> (table_has(old(self).per_category@, c) || c == sample.primary_category@),
            forall|l: Seq<char>| {
                let a = #[trigger] final(self).label(l);
                let b = old(self).label(l);
                &&& a.expected_count == b.expected_count + expected_n(*sample, l)
                &&& a.detected_count == b.detected_count + detected_n(result, l)
                &&& a.true_positives == b.true_positives + true_positive_n(*sample, result, l)
                &&& a.false_positives == b.false_positives + false_positive_n(*sample, result, l)
                &&& a.false_negatives == b.false_negatives + false_negative_n(*sample, result, l)
            },
            forall|l: Seq<char>| #[trigger] table_has(final(self).per_label@, l)
                <==> (table_has(old(self).per_label@, l) || mentions(sample.expected_labels@, l)
                    || mentions(result.detected_labels@, l)),
            final(self).sample_results@ == old(self).sample_results@.push(result),
            final(self).elapsed_ms == old(self).elapsed_ms,
    {
        let ghost old_self = *self;
        let hit: usize = if result.correct { 1 } else { 0 };
        // the category
        let c = &sample.primary_category;
        let cur = match table_lookup(&self.per_category, c) {
            Some(x) => x,
            None => CategoryResult::default(),
        };
        proof {
            if table_has(self.per_category@, c@) {
                let i = super::table::table_index(self.per_category@, c@);
                lemma_table_at(self.per_category@, i);
                lemma_entry_within_sum(self.per_category@, i);
            }
            assert(cur.correct <= cur.total) by {
                assert(old_self.category(c@).correct <= old_self.category(c@).total);
            }
        }
        let next = CategoryResult { total: cur.total + 1, correct: cur.correct + hit };
        let ghost cats0 = self.per_category@;
        let (pos, found) = table_store(&mut self.per_category, c, next);
        proof {
            let cats1 = self.per_category@;
            if found {
                lemma_table_at(cats0, pos as int);
                lemma_sums_update(cats0, pos as int, cats1[pos as int]);
            } else {
                lemma_sums_insert(cats0, pos as int, cats1[pos as int]);
            }
        }
        self.total = self.total + 1;
        self.correct = self.correct + hit;
        // the labels
        proof {
            assert forall|l: Seq<char>| #[trigger] label_in(self.per_label@, l).expected_count + occ(sample.expected_labels@, l) <= usize::MAX by {
                assert(old_self.label(l).expected_count + expected_n(*sample, l) <= usize::MAX);
            }
        }
        count_expected(&mut self.per_label, &sample.expected_labels);
        proof {
            assert forall|l: Seq<char>| {
                let a = #[trigger] label_in(self.per_label@, l);
                &&& a.detected_count + occ(result.detected_labels@, l) <= usize::MAX
                &&& a.true_positives <= a.detected_count
                &&& a.false_positives <= a.detected_count
            } by {
                assert(old_self.label(l).detected_count + detected_n(result, l) <= usize::MAX);
                let r = old_self.label(l);
                assert(r.true_positives + r.false_positives == r.detected_count);
            }
        }
        count_detected(&mut self.per_label, &result.detected_labels, &sample.expected_labels);
        proof {
            assert forall|l: Seq<char>| #[trigger] label_in(self.per_label@, l).false_negatives + occ(sample.expected_labels@, l) <= usize::MAX by {
                assert(old_self.label(l).expected_count + expected_n(*sample, l) <= usize::MAX);
                let r = old_self.label(l);
                assert(r.false_negatives <= r.expected_count);
            }
        }
        count_missed(&mut self.per_label, &sample.expected_labels, &result.detected_labels);
        self.sample_results.push(result);
        proof {
            assert forall|c: Seq<char>| #[trigger] self.category(c).correct <= self.category(c).total by {
                assert(old_self.category(c).correct <= old_self.category(c).total);
            }
            assert forall|l: Seq<char>| {
                let r = #[trigger] self.label(l);
                &&& r.true_positives + r.false_positives == r.detected_count
                &&& r.false_negatives <= r.expected_count
            } by {
                let r = old_self.label(l);
                assert(r.true_positives + r.false_positives == r.detected_count);
                assert(r.false_negatives <= r.expected_count);
            }
            assert forall|l: Seq<char>| #[trigger] table_has(self.per_label@, l)
                <==> (table_has(old_self.per_label@, l) || mentions(sample.expected_labels@, l)
                    || mentions(result.detected_labels@, l)) by {}
        }
    }

    /// The result of counting the scored samples `rs`, in order.
    ///
    /// Each overall, category and label count is the number of samples (or
    /// label occurrences) that it counts; a category is present exactly when
    /// some sample has it, a label exactly when some sample expects it or had
    /// it detected.
    pub fn from_outcomes(rs: Vec<(Sample, SampleResult)>) -> (r: Self)
        requires
            forall|l: Seq<char>| #[trigger] sum_over(rs@, expected_of(l)) <= usize::MAX,
            forall|l: Seq<char>| #[trigger] sum_over(rs@, detected_of(l)) <= usize::MAX,
        ensures
            r.wf(),
            r.total == rs@.len(),
            r.correct == sum_over(rs@, one_if_correct()),
            forall|c: Seq<char>| {
                let a = #[trigger] r.category(c);
                &&& a.total == sum_over(rs@, one_if_in(c))
                &&& a.correct == sum_over(rs@, one_if_correct_in(c))
            },
            forall|c: Seq<char>| #[trigger] table_has(r.per_category@, c)
                <==> exists|i: int| 0 <= i < rs@.len() && #[trigger] rs@[i].0.primary_category@ == c,
            forall|l: Seq<char>| {
                let a = #[trigger] r.label(l);
                &&& a.expected_count == sum_over(rs@, expected_of(l))
                &&& a.detected_count == sum_over(rs@, detected_of(l))
                &&& a.true_positives == sum_over(rs@, true_positives_of(l))
                &&& a.false_positives == sum_over(rs@, false_positives_of(l))
                &&& a.false_negatives == sum_over(rs@, false_negatives_of(l))
            },
            forall|l: Seq<char>| #[trigger] table_has(r.per_label@, l)
                <==> exists|i: int| 0 <= i < rs@.len() && (mentions(#[trigger] rs@[i].0.expected_labels@, l)
                    || mentions(rs@[i].1.detected_labels@, l)),
            r.sample_results@.len() == rs@.len(),
            forall|i: int| 0 <= i < rs@.len() ==> #[trigger] r.sample_results@[i] == rs@[i].1,
            r.elapsed_ms == 0,
    {
        let ghost all = rs@;
        let count = rs.len();
        assert(all.len() == count);
        let mut res = EvalResult::new();
        let mut i: usize = 0;
        let mut rs = rs;
        let mut rest: Vec<(Sample, SampleResult)> = Vec::new();
        while rs.len() > 0
            invariant
                rs@.len() + rest@.len() == all.len(),
                rs@ == all.take(rs@.len() as int),
                forall|j: int| 0 <= j < rest@.len() ==> #[trigger] rest@[j] == all[all.len() - 1 - j],
            decreases rs@.len(),
        {
            let ghost k = rs@.len() - 1;
            let p = rs.pop().unwrap();
            proof {
                assert(p == all[k]);
                assert(rs@ =~= all.take(k));
            }
            rest.push(p);
        }
        proof {
            assert forall|c: Seq<char>| !table_has(res.per_category@, c) by {}
            assert forall|l: Seq<char>| !table_has(res.per_label@, l) by {}
        }
        while rest.len() > 0
            invariant
                i + rest@.len() == all.len(),
                all.len() <= usize::MAX,
                forall|j: int| 0 <= j < rest@.len() ==> #[trigger] rest@[j] == all[all.len() - 1 - j],
                res.wf(),
                res.total == i,
                res.correct == sum_over(all.take(i as int), one_if_correct()),
                forall|l: Seq<char>| #[trigger] sum_over(all, expected_of(l)) <= usize::MAX,
                forall|l: Seq<char>| #[trigger] sum_over(all, detected_of(l)) <= usize::MAX,
                forall|c: Seq<char>| {
                    let a = #[trigger] res.category(c);
                    &&& a.total == sum_over(all.take(i as int), one_if_in(c))
                    &&& a.correct == sum_over(all.take(i as int), one_if_correct_in(c))
                },
                forall|c: Seq<char>| #[trigger] table_has(res.per_category@, c)
                    <==> exists|j: int| 0 <= j < i && #[trigger] all[j].0.primary_category@ == c,
                forall|l: Seq<char>| {
                    let a = #[trigger] res.label(l);
                    &&& a.expected_count == sum_over(all.take(i as int), expected_of(l))
                    &&& a.detected_count == sum_over(all.take(i as int), detected_of(l))
                    &&& a.true_positives == sum_over(all.take(i as int), true_positives_of(l))
                    &&& a.false_positives == sum_over(all.take(i as int), false_positives_of(l))
                    &&& a.false_negatives == sum_over(all.take(i as int), false_negatives_of(l))
                },
                forall|l: Seq<char>| #[trigger] table_has(res.per_label@, l)
                    <==> exists|j: int| 0 <= j < i && (mentions(#[trigger] all[j].0.expected_labels@, l)
                        || mentions(all[j].1.detected_labels@, l)),
                res.sample_results@.len() == i,
                forall|j: int| 0 <= j < i ==> #[trigger] res.sample_results@[j] == all[j].1,
                res.elapsed_ms == 0,
            decreases rest@.len(),
        {
            let (sample, result) = rest.pop().unwrap();
            let ghost before = res;
            proof {
                assert(all[i as int] == (sample, result));
                assert forall|l: Seq<char>| #[trigger] before.label(l).expected_count + expected_n(sample, l) <= usize::MAX by {
                    lemma_sum_push(all, i as int, expected_of(l));
                    lemma_sum_prefix(all, i + 1, expected_of(l));
                }
                assert forall|l: Seq<char>| #[trigger] before.label(l).detected_count + detected_n(result, l) <= usize::MAX by {
                    lemma_sum_push(all, i as int, detected_of(l));
                    lemma_sum_prefix(all, i + 1, detected_of(l));
                }
            }
            res.record(&sample, result);
            proof {
                lemma_sum_push(all, i as int, one_if_correct());
                assert forall|c: Seq<char>| {
                    let a = #[trigger] res.category(c);
                    &&& a.total == sum_over(all.take(i + 1), one_if_in(c))
                    &&& a.correct == sum_over(all.take(i + 1), one_if_correct_in(c))
                } by {
                    lemma_sum_push(all, i as int, one_if_in(c));
                    lemma_sum_push(all, i as int, one_if_correct_in(c));
                }
                assert forall|c: Seq<char>| #[trigger] table_has(res.per_category@, c)
                    <==> exists|j: int| 0 <= j < i + 1 && #[trigger] all[j].0.primary_category@ == c by {
                    if table_has(res.per_category@, c) && !table_has(before.per_category@, c) {
                        assert(all[i as int].0.primary_category@ == c);
                    }
                    if exists|j: int| 0 <= j < i + 1 && #[trigger] all[j].0.primary_category@ == c {
                        let j = choose|j: int| 0 <= j < i + 1 && #[trigger] all[j].0.primary_category@ == c;
                        if j < i {
                            assert(table_has(before.per_category@, c));
                        }
                    }
                }
                assert forall|l: Seq<char>| {
                    let a = #[trigger] res.label(l);
                    &&& a.expected_count == sum_over(all.take(i + 1), expected_of(l))
                    &&& a.detected_count == sum_over(all.take(i + 1), detected_of(l))
                    &&& a.true_positives == sum_over(all.take(i + 1), true_positives_of(l))
                    &&& a.false_positives == sum_over(all.take(i + 1), false_positives_of(l))
                    &&& a.false_negatives == sum_over(all.take(i + 1), false_negatives_of(l))
                } by {
                    lemma_sum_push(all, i as int, expected_of(l));
                    lemma_sum_push(all, i as int, detected_of(l));
                    lemma_sum_push(all, i as int, true_positives_of(l));
                    lemma_sum_push(all, i as int, false_positives_of(l));
                    lemma_sum_push(all, i as int, false_negatives_of(l));
                }
                assert forall|l: Seq<char>| #[trigger] table_has(res.per_label@, l)
                    <==> exists|j: int| 0 <= j < i + 1 && (mentions(#[trigger] all[j].0.expected_labels@, l)
                        || mentions(all[j].1.detected_labels@, l)) by {
                    if table_has(res.per_label@, l) && !table_has(before.per_label@, l) {
                        assert(mentions(all[i as int].0.expected_labels@, l) || mentions(all[i as int].1.detected_labels@, l));
                    }
                    if exists|j: int| 0 <= j < i + 1 && (mentions(#[trigger] all[j].0.expected_labels@, l)
                        || mentions(all[j].1.detected_labels@, l)) {
                        let j = choose|j: int| 0 <= j < i + 1 && (mentions(#[trigger] all[j].0.expected_labels@, l)
                            || mentions(all[j].1.detected_labels@, l));
                        if j < i {
                            assert(table_has(before.per_label@, l));
                        }
                    }
                }
                assert forall|j: int| 0 <= j < i + 1 implies #[trigger] res.sample_results@[j] == all[j].1 by {
                    if j < i {
                        assert(res.sample_results@[j] == before.sample_results@[j]);
                    }
                }
            }
            i = i + 1;
        }
        proof {
            assert(all.take(all.len() as int) =~= all);
        }
        res
    }
}

} // verus!
