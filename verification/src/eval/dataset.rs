//! A dataset of samples and its validation.

use vstd::prelude::*;

use super::sample::{Sample, ValidationError};
use super::tally::{label_listed, mentions};
use crate::text::{chars_of, trim, trim_spec};

verus! {

/// A benchmark dataset containing samples for evaluation.
#[derive(Clone, Debug)]
pub struct SampleDataset {
    pub version: String,
    pub created: String,
    pub samples: Vec<Sample>,
}

/// Calls `chrono::Utc::now().format(format)`: the current UTC time as text
/// in `format`, which is the day's date format (the one format known here to
/// be valid, so that the text is made without failing). Nothing is claimed
/// of the text: it depends on the clock.
#[verifier::external_body]
fn utc_now_formatted(format: &str) -> String
    requires
        format@ == "%Y-%m-%d"@,
{
    chrono::Utc::now().format(format).to_string()
}

/// A problem as (sample id, message).
pub open spec fn error_view(e: ValidationError) -> (Seq<char>, Seq<char>) {
    (e.sample_id@, e.message@)
}

/// Whether an earlier sample has the id of sample `i`.
pub open spec fn repeats_id(samples: Seq<Sample>, i: int) -> bool {
    exists|j: int| 0 <= j < i && samples[j].id@ == samples[i].id@
}

/// One problem for each label of `labels` that `valid` does not list.
pub open spec fn invalid_label_errors(id: Seq<char>, labels: Seq<String>, valid: Seq<String>) -> Seq<(Seq<char>, Seq<char>)>
    decreases labels.len(),
{
    if labels.len() == 0 {
        seq![]
    } else {
        let l = labels.last();
        invalid_label_errors(id, labels.drop_last(), valid) + if mentions(valid, l@) {
            seq![]
        } else {
            seq![(id, "Invalid label: '"@ + l@ + "'"@)]
        }
    }
}

/// The problems of sample `i` of `samples`, in the order they are reported.
pub open spec fn sample_errors(
    samples: Seq<Sample>,
    i: int,
    categories: Option<Seq<String>>,
    labels: Option<Seq<String>>,
) -> Seq<(Seq<char>, Seq<char>)> {
    let s = samples[i];
    let id = s.id@;
    (if repeats_id(samples, i) { seq![(id, "Duplicate sample ID"@)] } else { seq![] })
    + (if trim_spec(s.text@).len() == 0 { seq![(id, "Empty text"@)] } else { seq![] })
    + (if s.expected_labels@.len() == 0 { seq![(id, "No expected labels"@)] } else { seq![] })
    + (match categories {
        Some(v) => if mentions(v, s.primary_category@) {
            seq![]
        } else {
            seq![(id, "Invalid category: '"@ + s.primary_category@ + "'"@)]
        },
        None => seq![],
    })
    + (match labels {
        Some(v) => invalid_label_errors(id, s.expected_labels@, v),
        None => seq![],
    })
}

/// The problems of the first `n` samples.
pub open spec fn dataset_errors(
    samples: Seq<Sample>,
    n: int,
    categories: Option<Seq<String>>,
    labels: Option<Seq<String>>,
) -> Seq<(Seq<char>, Seq<char>)>
    decreases n,
{
    if n <= 0 {
        seq![]
    } else {
        dataset_errors(samples, n - 1, categories, labels) + sample_errors(samples, n - 1, categories, labels)
    }
}

fn problem(id: &String, message: String) -> (e: ValidationError)
    ensures
        error_view(e) == (id@, message@),
{
    ValidationError { sample_id: id.clone(), message }
}

fn quoted(prefix: &str, name: &String) -> (s: String)
    ensures
        s@ == prefix@ + name@ + "'"@,
{
    String::from_str(prefix).concat(name.as_str()).concat("'")
}

/// The names of an optional list, as plain values.
pub open spec fn names_view(v: Option<&[String]>) -> Option<Seq<String>> {
    match v {
        Some(s) => Some(s@),
        None => None,
    }
}

/// Whether `l` occurs in `v`.
fn listed_in(v: &[String], l: &String) -> (b: bool)
    ensures
        b == mentions(v@, l@),
{
    let mut i: usize = 0;
    while i < v.len()
        invariant
            i <= v@.len(),
            forall|j: int| 0 <= j < i ==> v@[j]@ != l@,
        decreases v@.len() - i,
    {
        if v[i] == *l {
            return true;
        }
        i = i + 1;
    }
    false
}

/// Whether a sample before position `i` has the id of sample `i`.
fn id_seen(samples: &Vec<Sample>, i: usize) -> (b: bool)
    requires
        i < samples@.len(),
    ensures
        b == repeats_id(samples@, i as int),
{
    let mut j: usize = 0;
    while j < i
        invariant
            i < samples@.len(),
            j <= i,
            forall|k: int| 0 <= k < j ==> samples@[k].id@ != samples@[i as int].id@,
        decreases i - j,
    {
        if samples[j].id == samples[i].id {
            return true;
        }
        j = j + 1;
    }
    false
}

/// Appends the problems of sample `i` to `errors`.
fn check_sample(
    samples: &Vec<Sample>,
    i: usize,
    categories: Option<&[String]>,
    labels: Option<&[String]>,
    errors: &mut Vec<ValidationError>,
)
    requires
        i < samples@.len(),
    ensures
        final(errors)@.map_values(|e: ValidationError| error_view(e)) == old(errors)@.map_values(|e: ValidationError| error_view(e))
            + sample_errors(samples@, i as int, names_view(categories), names_view(labels)),
{
    let ghost start = errors@.map_values(|e: ValidationError| error_view(e));
    let s = &samples[i];
    let ghost id = s.id@;
    let ghost s0 = samples@[i as int];
    let ghost part1: Seq<(Seq<char>, Seq<char>)> = if repeats_id(samples@, i as int) { seq![(id, "Duplicate sample ID"@)] } else { seq![] };
    let ghost part2: Seq<(Seq<char>, Seq<char>)> = if trim_spec(s0.text@).len() == 0 { seq![(id, "Empty text"@)] } else { seq![] };
    let ghost part3: Seq<(Seq<char>, Seq<char>)> = if s0.expected_labels@.len() == 0 { seq![(id, "No expected labels"@)] } else { seq![] };
    let ghost part4: Seq<(Seq<char>, Seq<char>)> = match names_view(categories) {
        Some(v) => if mentions(v, s0.primary_category@) { seq![] } else { seq![(id, "Invalid category: '"@ + s0.primary_category@ + "'"@)] },
        None => seq![],
    };
    if id_seen(samples, i) {
        errors.push(problem(&s.id, String::from_str("Duplicate sample ID")));
    }
    assert(errors@.map_values(|e: ValidationError| error_view(e)) =~= start + part1);
    let text = chars_of(s.text.as_str());
    if trim(&text).len() == 0 {
        errors.push(problem(&s.id, String::from_str("Empty text")));
    }
    assert(errors@.map_values(|e: ValidationError| error_view(e)) =~= start + part1 + part2);
    if s.expected_labels.len() == 0 {
        errors.push(problem(&s.id, String::from_str("No expected labels")));
    }
    assert(errors@.map_values(|e: ValidationError| error_view(e)) =~= start + part1 + part2 + part3);
    match categories {
        Some(valid) => {
            if !listed_in(valid, &s.primary_category) {
                errors.push(problem(&s.id, quoted("Invalid category: '", &s.primary_category)));
            }
        },
        None => {},
    }
    assert(errors@.map_values(|e: ValidationError| error_view(e)) =~= start + part1 + part2 + part3 + part4);
    match labels {
        Some(valid) => {
            check_labels(&s.id, &s.expected_labels, valid, errors);
        },
        None => {
            assert(errors@.map_values(|e: ValidationError| error_view(e)) + seq![] =~= errors@.map_values(|e: ValidationError| error_view(e)));
        },
    }
}

/// Appends one problem for each label of `exp` that `valid` does not list.
fn check_labels(id: &String, exp: &Vec<String>, valid: &[String], errors: &mut Vec<ValidationError>)
    ensures
        final(errors)@.map_values(|e: ValidationError| error_view(e)) == old(errors)@.map_values(|e: ValidationError| error_view(e))
            + invalid_label_errors(id@, exp@, valid@),
{
    let ghost mid = errors@.map_values(|e: ValidationError| error_view(e));
    let mut j: usize = 0;
    assert(mid + invalid_label_errors(id@, exp@.take(0), valid@) =~= mid);
    while j < exp.len()
        invariant
            j <= exp@.len(),
            errors@.map_values(|e: ValidationError| error_view(e)) == mid + invalid_label_errors(id@, exp@.take(j as int), valid@),
        decreases exp@.len() - j,
    {
        let ghost before = errors@.map_values(|e: ValidationError| error_view(e));
        let ghost l = exp@[j as int];
        proof {
            assert(exp@.take(j + 1).drop_last() =~= exp@.take(j as int));
            assert(exp@.take(j + 1).last() == l);
            assert(invalid_label_errors(id@, exp@.take(j + 1), valid@) == invalid_label_errors(id@, exp@.take(j as int), valid@)
                + if mentions(valid@, l@) { seq![] } else { seq![(id@, "Invalid label: '"@ + l@ + "'"@)] });
        }
        if !listed_in(valid, &exp[j]) {
            let e = problem(id, quoted("Invalid label: '", &exp[j]));
            assert(error_view(e) == (id@, "Invalid label: '"@ + l@ + "'"@));
            errors.push(e);
            assert(errors@.map_values(|e: ValidationError| error_view(e)) =~= before.push(error_view(e)));
        } else {
            assert(errors@.map_values(|e: ValidationError| error_view(e)) == before);
        }
        assert(errors@.map_values(|e: ValidationError| error_view(e)) =~= mid + invalid_label_errors(id@, exp@.take(j + 1), valid@));
        j = j + 1;
    }
    assert(exp@.take(exp@.len() as int) =~= exp@);
}

impl SampleDataset {
    /// A new empty dataset, dated today (UTC).
    pub fn new() -> (d: Self)
        ensures
            d.version@ == "1.0.0"@,
            d.samples@.len() == 0,
    {
        SampleDataset { version: String::from_str("1.0.0"), created: utc_now_formatted("%Y-%m-%d"), samples: Vec::new() }
    }

    /// Validates the dataset without label validation.
    pub fn validate(&self) -> (r: Vec<ValidationError>)
        ensures
            r@.map_values(|e: ValidationError| error_view(e)) == dataset_errors(self.samples@, self.samples@.len() as int, None, None),
    {
        self.validate_with_config(None, None)
    }

    /// Validates the dataset with optional label validation.
    pub fn validate_with_labels(&self, valid_labels: Option<&[String]>) -> (r: Vec<ValidationError>)
        ensures
            r@.map_values(|e: ValidationError| error_view(e)) == dataset_errors(self.samples@, self.samples@.len() as int, None, names_view(valid_labels)),
    {
        self.validate_with_config(None, valid_labels)
    }

    /// Validates the dataset: repeated sample ids, empty (or blank) text,
    /// samples that expect no label, and, where lists are given, categories
    /// and labels that they do not name. The problems come sample by sample,
    /// in that order.
    pub fn validate_with_config(&self, valid_categories: Option<&[String]>, valid_labels: Option<&[String]>) -> (r: Vec<ValidationError>)
        ensures
            r@.map_values(|e: ValidationError| error_view(e)) == dataset_errors(
                self.samples@,
                self.samples@.len() as int,
                names_view(valid_categories),
                names_view(valid_labels),
            ),
    {
        let mut errors: Vec<ValidationError> = Vec::new();
        let mut i: usize = 0;
        assert(errors@.map_values(|e: ValidationError| error_view(e)) =~= seq![]);
        while i < self.samples.len()
            invariant
                i <= self.samples@.len(),
                errors@.map_values(|e: ValidationError| error_view(e)) == dataset_errors(
                    self.samples@,
                    i as int,
                    names_view(valid_categories),
                    names_view(valid_labels),
                ),
            decreases self.samples@.len() - i,
        {
            check_sample(&self.samples, i, valid_categories, valid_labels, &mut errors);
            i = i + 1;
        }
        errors
    }
}

/// Every problem `invalid_label_errors` reports is an "Invalid label" one.
proof fn lemma_label_errors_are_invalid_labels(id: Seq<char>, labels: Seq<String>, valid: Seq<String>)
    ensures
        forall|k: int|
            0 <= k < invalid_label_errors(id, labels, valid).len() ==> (#[trigger] invalid_label_errors(id, labels, valid)[k]).1.len() > 0
                && invalid_label_errors(id, labels, valid)[k].1[0] == 'I',
    decreases labels.len(),
{
    if labels.len() > 0 {
        lemma_label_errors_are_invalid_labels(id, labels.drop_last(), valid);
        let prev = invalid_label_errors(id, labels.drop_last(), valid);
        let l = labels.last();
        reveal_strlit("Invalid label: '");
        let m = "Invalid label: '"@ + l@ + "'"@;
        assert(m[0] == 'I');
        let tail: Seq<(Seq<char>, Seq<char>)> = if mentions(valid, l@) { seq![] } else { seq![(id, m)] };
        let all = invalid_label_errors(id, labels, valid);
        assert(all == prev + tail);
        assert forall|k: int| 0 <= k < all.len() implies (#[trigger] all[k]).1.len() > 0 && all[k].1[0] == 'I' by {
            if k < prev.len() {
                assert(all[k] == prev[k]);
            } else {
                assert(all[k] == tail[k - prev.len()]);
            }
        }
    }
}

/// The problems of sample `s` that come after a duplicate report.
spec fn later_problems(s: Sample, categories: Option<Seq<String>>, labels: Option<Seq<String>>) -> Seq<(Seq<char>, Seq<char>)> {
    let id = s.id@;
    (if trim_spec(s.text@).len() == 0 { seq![(id, "Empty text"@)] } else { seq![] })
    + (if s.expected_labels@.len() == 0 { seq![(id, "No expected labels"@)] } else { seq![] })
    + (match categories {
        Some(v) => if mentions(v, s.primary_category@) {
            seq![]
        } else {
            seq![(id, "Invalid category: '"@ + s.primary_category@ + "'"@)]
        },
        None => seq![],
    })
    + (match labels {
        Some(v) => invalid_label_errors(id, s.expected_labels@, v),
        None => seq![],
    })
}

/// No problem after the duplicate report has a message starting with 'D'.
proof fn lemma_later_problems_not_duplicate(s: Sample, categories: Option<Seq<String>>, labels: Option<Seq<String>>)
    ensures
        forall|k: int|
            0 <= k < later_problems(s, categories, labels).len() ==> (#[trigger] later_problems(s, categories, labels)[k]).1.len() > 0
                && later_problems(s, categories, labels)[k].1[0] != 'D',
{
    reveal_strlit("Empty text");
    reveal_strlit("No expected labels");
    reveal_strlit("Invalid category: '");
    let id = s.id@;
    let e1: Seq<(Seq<char>, Seq<char>)> = if trim_spec(s.text@).len() == 0 { seq![(id, "Empty text"@)] } else { seq![] };
    let e2: Seq<(Seq<char>, Seq<char>)> = if s.expected_labels@.len() == 0 { seq![(id, "No expected labels"@)] } else { seq![] };
    let e3: Seq<(Seq<char>, Seq<char>)> = match categories {
        Some(v) => if mentions(v, s.primary_category@) {
            seq![]
        } else {
            seq![(id, "Invalid category: '"@ + s.primary_category@ + "'"@)]
        },
        None => seq![],
    };
    let e4: Seq<(Seq<char>, Seq<char>)> = match labels {
        Some(v) => invalid_label_errors(id, s.expected_labels@, v),
        None => seq![],
    };
    match labels {
        Some(v) => lemma_label_errors_are_invalid_labels(id, s.expected_labels@, v),
        None => {},
    }
    let a = e1 + e2;
    let b = a + e3;
    let r = later_problems(s, categories, labels);
    assert(r == b + e4);
    assert forall|k: int| 0 <= k < r.len() implies (#[trigger] r[k]).1.len() > 0 && r[k].1[0] != 'D' by {
        if k < b.len() {
            assert(r[k] == b[k]);
            if k < a.len() {
                assert(b[k] == a[k]);
                if k < e1.len() {
                    assert(a[k] == e1[k]);
                } else {
                    assert(a[k] == e2[k - e1.len()]);
                }
            } else {
                assert(b[k] == e3[k - a.len()]);
                let m = "Invalid category: '"@ + s.primary_category@ + "'"@;
                assert(m[0] == 'I');
            }
        } else {
            assert(r[k] == e4[k - b.len()]);
        }
    }
}

/// A sample is reported as a duplicate exactly when some sample before it
/// (at any earlier position, not only the one just before) has the same id:
/// the report is then its first problem, and otherwise none of its problems
/// is a duplicate report.
pub proof fn law_duplicate_ids(
    samples: Seq<Sample>,
    i: int,
    categories: Option<Seq<String>>,
    labels: Option<Seq<String>>,
)
    requires
        0 <= i < samples.len(),
    ensures
        (exists|j: int| 0 <= j < i && samples[j].id@ == samples[i].id@) <==> sample_errors(samples, i, categories, labels).contains(
            (samples[i].id@, "Duplicate sample ID"@),
        ),
        (exists|j: int| 0 <= j < i && samples[j].id@ == samples[i].id@) ==> sample_errors(samples, i, categories, labels)[0]
            == (samples[i].id@, "Duplicate sample ID"@),
{
    reveal_strlit("Duplicate sample ID");
    let s = samples[i];
    let dup = (s.id@, "Duplicate sample ID"@);
    let all = sample_errors(samples, i, categories, labels);
    let first: Seq<(Seq<char>, Seq<char>)> = if repeats_id(samples, i) { seq![dup] } else { seq![] };
    let rest = later_problems(s, categories, labels);
    assert(all =~= first + rest);
    lemma_later_problems_not_duplicate(s, categories, labels);
    if repeats_id(samples, i) {
        assert(all[0] == dup);
        assert(all.contains(dup));
    } else {
        assert(all =~= rest);
        if all.contains(dup) {
            let k = choose|k: int| 0 <= k < all.len() && all[k] == dup;
            assert(rest[k].1[0] == 'D');
        }
    }
}

} // verus!
