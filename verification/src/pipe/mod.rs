//! Pipelines of operators over single values.

pub mod source;

pub use source::{Applied, Apply, Build, Call, Operator, Pipe, Ready, Source, Thunk};
pub mod map;

pub use map::{MapOp, MapPipe, TryMap};
pub mod filter;

pub use filter::{Filter, FilterPipe};
pub mod guard;

pub use guard::Guard;
pub mod branch;

pub use branch::{
    Branch, BranchBuilderComplete, BranchBuilderInit, BranchBuilderWithCondition, BranchBuilderWithThen,
    BranchPassthrough, BranchPipe,
};
pub mod result;

pub use result::{
    Expect, OptionExpect, OptionOkOr, OptionPipe, OptionUnwrap, OptionUnwrapOr, OptionUnwrapOrElse, ResultOk,
    ResultPipe, Unwrap, UnwrapOr, UnwrapOrElse,
};
pub mod retry;

pub use retry::{Retries, RetryStep};
pub mod sequence;

pub use sequence::{Chunk, Concat, FlatMap, Flatten, FlattenPipe, SequencePipe, Window};
pub mod fan_out;

pub use fan_out::{Branches, FanOut};
pub mod router;

pub use router::{Fallback, NoDefault, Router, Routes, WithDefault};
pub mod transformer;

pub use transformer::Transformer;
