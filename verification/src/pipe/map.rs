//! Map: turn a value into another with a function.

use vstd::prelude::*;

use super::source::{Applied, Operator, Pipe, Source};

verus! {

/// An operator that applies a function to the value.
pub struct MapOp<F> {
    handler: F,
}

impl<F> MapOp<F> {
    pub fn new(handler: F) -> (m: Self)
        ensures
            m.handler() == handler,
    {
        MapOp { handler }
    }

    /// The function applied.
    pub closed spec fn handler(&self) -> F {
        self.handler
    }
}

impl<Input, Output, F: FnOnce(Input) -> Output> Operator<Input> for MapOp<F> {
    type Output = Output;

    open spec fn accepts(&self, input: Input) -> bool {
        call_requires(self.handler(), (input,))
    }

    open spec fn produces(&self, input: Input, output: Output) -> bool {
        call_ensures(self.handler(), (input,), output)
    }

    fn eval(self, input: Input) -> (r: Output) {
        (self.handler)(input)
    }
}

/// Applies a fallible function to the value: its `Result` is the output.
pub struct TryMap<F> {
    f: F,
}

impl<F> TryMap<F> {
    pub fn new(f: F) -> (m: Self)
        ensures
            m.f() == f,
    {
        TryMap { f }
    }

    pub closed spec fn f(&self) -> F {
        self.f
    }
}

impl<Input, Output, E, F: FnOnce(Input) -> Result<Output, E>> Operator<Input> for TryMap<F> {
    type Output = Result<Output, E>;

    open spec fn accepts(&self, input: Input) -> bool {
        call_requires(self.f(), (input,))
    }

    open spec fn produces(&self, input: Input, output: Result<Output, E>) -> bool {
        call_ensures(self.f(), (input,), output)
    }

    fn eval(self, input: Input) -> (r: Result<Output, E>) {
        (self.f)(input)
    }
}

/// Mapping on anything an operator can be piped onto.
pub trait MapPipe<T>: Pipe<T> {
    /// Applies `handler` to the value.
    fn map<Output, Handler: FnOnce(T) -> Output>(self, handler: Handler) -> (r: Source<Output, Applied<T, Self::Upstream, MapOp<Handler>>>)
        requires
            self.ready(),
            forall|v: T| self.yields(v) ==> call_requires(handler, (v,)),
        ensures
            r.is_deferred(),
            forall|w: Output| r.gives(w) <==> (exists|v: T| self.yields(v) && call_ensures(handler, (v,), w)),
    {
        self.pipe(MapOp::new(handler))
    }
}

impl<T, S: Pipe<T>> MapPipe<T> for S {}

} // verus!
