//! Scoring configuration: the acceptance threshold and how text length
//! moves it. Thresholds are held in hundredths (75 stands for 0.75).

use vstd::prelude::*;

verus! {

/// Texts up to this many bytes are short.
pub const SHORT_TEXT_LEN: usize = 20;

/// Texts over this many bytes are long.
pub const LONG_TEXT_LEN: usize = 200;

/// How far (in hundredths) a short text lowers, and a long text raises, the threshold.
pub const LENGTH_ADJUSTMENT: u32 = 5;

/// The integer part of the scoring configuration.
#[derive(Clone, Copy, Debug)]
pub struct ScoreConfig {
    /// Minimum overall score for a text to be accepted, in hundredths.
    pub threshold: u32,
    /// How many of a category's best labels make up its score.
    pub top_k: usize,
}

impl Default for ScoreConfig {
    fn default() -> (c: Self)
        ensures
            c.threshold == 75,
            c.top_k == 2,
    {
        ScoreConfig { threshold: 75, top_k: 2 }
    }
}

/// The threshold for a text of `len` bytes: lowered for short texts, raised
/// for long ones (never below 0 nor above `u32::MAX`).
pub open spec fn threshold_for(threshold: u32, len: usize) -> int {
    if len <= SHORT_TEXT_LEN {
        if threshold >= LENGTH_ADJUSTMENT { threshold - LENGTH_ADJUSTMENT } else { 0 }
    } else if len > LONG_TEXT_LEN {
        if threshold + LENGTH_ADJUSTMENT <= u32::MAX { threshold + LENGTH_ADJUSTMENT } else { u32::MAX as int }
    } else {
        threshold as int
    }
}

impl ScoreConfig {
    /// The effective threshold for a text of `len` bytes, in hundredths.
    pub fn threshold_of(&self, len: usize) -> (t: u32)
        ensures
            t == threshold_for(self.threshold, len),
    {
        if len <= SHORT_TEXT_LEN {
            self.threshold.saturating_sub(LENGTH_ADJUSTMENT)
        } else if len > LONG_TEXT_LEN {
            self.threshold.saturating_add(LENGTH_ADJUSTMENT)
        } else {
            self.threshold
        }
    }
}

/// A longer text never gets a lower threshold.
pub proof fn law_threshold_monotone(threshold: u32, short: usize, long: usize)
    requires
        short <= long,
    ensures
        threshold_for(threshold, short) <= threshold_for(threshold, long),
{
}

} // verus!
