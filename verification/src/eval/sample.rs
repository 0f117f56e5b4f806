//! Samples of a scoring dataset and the result of scoring one.

use vstd::prelude::*;

verus! {

/// Whether a text is kept (accepted) or dropped (rejected) by the scorer.
#[derive(Clone, Copy, Debug, PartialEq, Eq, Structural)]
pub enum Decision {
    Accept,
    Reject,
}

/// How hard a sample is meant to be.
#[derive(Clone, Copy, Debug, PartialEq, Eq, Structural)]
pub enum Difficulty {
    Easy,
    Medium,
    Hard,
}

/// A single benchmark sample.
///
/// `metadata` holds the sample's free-form metadata as JSON text.
#[derive(Clone, Debug)]
pub struct Sample {
    pub id: String,
    pub text: String,
    pub context: Option<String>,
    pub expected_decision: Decision,
    pub expected_labels: Vec<String>,
    pub primary_category: String,
    pub difficulty: Difficulty,
    pub notes: Option<String>,
    pub metadata: Option<String>,
}

/// The outcome of scoring one sample.
///
/// The score itself is a float and is kept beside this record by the caller.
#[derive(Clone, Debug)]
pub struct SampleResult {
    pub id: String,
    pub expected_decision: Decision,
    pub actual_decision: Decision,
    pub correct: bool,
    pub expected_labels: Vec<String>,
    pub detected_labels: Vec<String>,
}

/// A problem found in one sample of a dataset.
#[derive(Clone, Debug)]
pub struct ValidationError {
    pub sample_id: String,
    pub message: String,
}

/// A copy of a list of labels.
pub fn copy_labels(v: &Vec<String>) -> (r: Vec<String>)
    ensures
        r@ == v@,
{
    let mut r: Vec<String> = Vec::new();
    let mut i: usize = 0;
    while i < v.len()
        invariant
            i <= v@.len(),
            r@ == v@.subrange(0, i as int),
        decreases v@.len() - i,
    {
        r.push(v[i].clone());
        proof {
            assert(v@.subrange(0, i + 1) =~= v@.subrange(0, i as int).push(v@[i as int]));
        }
        i = i + 1;
    }
    assert(v@.subrange(0, v@.len() as int) =~= v@);
    r
}

impl Sample {
    /// Whether `other` holds the same fields.
    pub open spec fn same_spec(&self, other: Sample) -> bool {
        &&& self.id == other.id
        &&& self.text == other.text
        &&& self.context == other.context
        &&& self.expected_decision == other.expected_decision
        &&& self.expected_labels@ == other.expected_labels@
        &&& self.primary_category == other.primary_category
        &&& self.difficulty == other.difficulty
        &&& self.notes == other.notes
        &&& self.metadata == other.metadata
    }

    /// A copy with the same fields.
    pub fn duplicate(&self) -> (r: Sample)
        ensures
            r.same_spec(*self),
    {
        Sample {
            id: self.id.clone(),
            text: self.text.clone(),
            context: self.context.clone(),
            expected_decision: self.expected_decision,
            expected_labels: copy_labels(&self.expected_labels),
            primary_category: self.primary_category.clone(),
            difficulty: self.difficulty,
            notes: self.notes.clone(),
            metadata: self.metadata.clone(),
        }
    }
}

impl SampleResult {
    /// Whether this is the result for `sample` when the scorer decided
    /// `decision` and detected `detected`.
    pub open spec fn scored_spec(&self, sample: Sample, decision: Decision, detected: Seq<String>) -> bool {
        &&& self.id == sample.id
        &&& self.expected_decision == sample.expected_decision
        &&& self.actual_decision == decision
        &&& self.correct == (decision == sample.expected_decision)
        &&& self.expected_labels@ == sample.expected_labels@
        &&& self.detected_labels@ == detected
    }

    /// The result for a sample that the scorer decided on, with the labels it
    /// detected: correct exactly when the decision is the expected one.
    pub fn scored(sample: &Sample, actual_decision: Decision, detected_labels: Vec<String>) -> (r: Self)
        ensures
            r.id == sample.id,
            r.expected_decision == sample.expected_decision,
            r.actual_decision == actual_decision,
            r.correct == (actual_decision == sample.expected_decision),
            r.expected_labels@ == sample.expected_labels@,
            r.detected_labels@ == detected_labels@,
    {
        SampleResult {
            id: sample.id.clone(),
            expected_decision: sample.expected_decision,
            actual_decision,
            correct: actual_decision == sample.expected_decision,
            expected_labels: copy_labels(&sample.expected_labels),
            detected_labels,
        }
    }

    /// The result for a sample whose batch the scorer failed on: it counts as
    /// rejected, with nothing detected.
    pub fn rejected(sample: &Sample) -> (r: Self)
        ensures
            r.id == sample.id,
            r.expected_decision == sample.expected_decision,
            r.actual_decision == Decision::Reject,
            r.correct == (sample.expected_decision == Decision::Reject),
            r.expected_labels@ == sample.expected_labels@,
            r.detected_labels@.len() == 0,
    {
        SampleResult {
            id: sample.id.clone(),
            expected_decision: sample.expected_decision,
            actual_decision: Decision::Reject,
            correct: sample.expected_decision == Decision::Reject,
            expected_labels: copy_labels(&sample.expected_labels),
            detected_labels: Vec::new(),
        }
    }
}

} // verus!
