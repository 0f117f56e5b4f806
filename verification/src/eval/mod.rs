//! Scoring evaluation: datasets of labelled samples and their validation,
//! the counts gathered over scored samples, and the per-category counts
//! behind an export.

pub mod dataset;
pub mod export;
pub mod sample;
pub mod score;
pub mod table;
pub mod tally;

pub use dataset::SampleDataset;
pub use export::{CategoryGroup, build_group, export_groups, matched_results};
pub use sample::{Decision, Difficulty, Sample, SampleResult, ValidationError};
pub use score::ScoreConfig;
pub use table::Entry;
pub use tally::{CategoryResult, EvalResult, LabelResult};
