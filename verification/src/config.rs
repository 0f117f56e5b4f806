//! Runtime settings: concurrency, batching, strictness and output location.

use vstd::prelude::*;
use std::path::PathBuf;

verus! {

/// Top-level runtime configuration for Loom.
#[derive(Debug, Clone)]
pub struct LoomConfig {
    /// Output path for results
    pub output: Option<PathBuf>,
    /// Fail on unknown categories/labels instead of skipping
    pub strict: bool,
    /// Number of parallel inference workers (must be >= 1)
    pub concurrency: usize,
    /// Batch size for ML inference (must be >= 1)
    pub batch_size: usize,
}

/// A setting that breaks one of the configuration's rules.
#[derive(Debug, Clone, Copy, PartialEq, Eq, Structural)]
pub enum ConfigViolation {
    /// `concurrency` is below its minimum of 1.
    Concurrency,
    /// `batch_size` is below its minimum of 1.
    BatchSize,
}

impl LoomConfig {
    /// Concurrency used when none is configured.
    pub fn default_concurrency() -> (n: usize)
        ensures
            n == 4,
    {
        4
    }

    /// Batch size used when none is configured.
    pub fn default_batch_size() -> (n: usize)
        ensures
            n == 8,
    {
        8
    }

    /// The rules a valid configuration keeps, listed as the violations of `c`.
    pub open spec fn violations_spec(c: LoomConfig) -> Seq<ConfigViolation> {
        let a = if c.concurrency < 1 { seq![ConfigViolation::Concurrency] } else { seq![] };
        let b = if c.batch_size < 1 { seq![ConfigViolation::BatchSize] } else { seq![] };
        a + b
    }

    /// Checks the configuration's rules (`concurrency >= 1`, `batch_size >= 1`)
    /// and lists every one that is broken.
    pub fn validate(&self) -> (r: Result<(), Vec<ConfigViolation>>)
        ensures
            LoomConfig::violations_spec(*self).len() == 0 <==> r is Ok,
            r matches Err(v) ==> v@ == LoomConfig::violations_spec(*self),
    {
        let mut v: Vec<ConfigViolation> = Vec::new();
        if self.concurrency < 1 {
            v.push(ConfigViolation::Concurrency);
        }
        if self.batch_size < 1 {
            v.push(ConfigViolation::BatchSize);
        }
        proof {
            assert(v@ =~= LoomConfig::violations_spec(*self));
        }
        if v.len() == 0 {
            Ok(())
        } else {
            Err(v)
        }
    }
}

impl Default for LoomConfig {
    fn default() -> (c: Self)
        ensures
            c.output is None,
            !c.strict,
            c.concurrency == 4,
            c.batch_size == 8,
    {
        LoomConfig {
            output: None,
            strict: false,
            concurrency: Self::default_concurrency(),
            batch_size: Self::default_batch_size(),
        }
    }
}

} // verus!
