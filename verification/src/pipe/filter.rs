//! Filter: keep a value (as `Some`) or drop it (as `None`) by a predicate.

use vstd::prelude::*;

use super::source::{Applied, Operator, Pipe, Source};

verus! {

/// What gating `input` gives when the predicate says `verdict`: the value
/// is kept exactly when the verdict is the one that allows.
pub open spec fn gated<T>(input: T, verdict: bool, allow: bool) -> Option<T> {
    if verdict == allow {
        Some(input)
    } else {
        None
    }
}

/// Keeps the value where the predicate allows it (T to Option<T>).
pub struct Filter<P> {
    predicate: P,
    allow: bool,
}

impl<P> Filter<P> {
    /// A filter that keeps values matching the predicate.
    pub fn new(predicate: P) -> (f: Self)
        ensures
            f.predicate() == predicate,
            f.keeps_matches(),
    {
        Filter { predicate, allow: true }
    }

    /// A filter that keeps values matching the predicate (same as `new`).
    pub fn allow(predicate: P) -> (f: Self)
        ensures
            f.predicate() == predicate,
            f.keeps_matches(),
    {
        Filter::new(predicate)
    }

    /// A filter that drops values matching the predicate.
    pub fn block(predicate: P) -> (f: Self)
        ensures
            f.predicate() == predicate,
            !f.keeps_matches(),
    {
        Filter { predicate, allow: false }
    }

    pub closed spec fn predicate(&self) -> P {
        self.predicate
    }

    /// Whether matching values are kept (else they are dropped).
    pub closed spec fn keeps_matches(&self) -> bool {
        self.allow
    }
}

impl<P> Filter<P> {
    /// `new` and `allow` build the same operator: two filters with the
    /// same predicate that both keep matching values are equal.
    pub proof fn law_new_same_as_allow(a: Filter<P>, b: Filter<P>)
        requires
            a.predicate() == b.predicate(),
            a.keeps_matches(),
            b.keeps_matches(),
        ensures
            a == b,
    {
    }
}

impl<T, P: Fn(&T) -> bool> Operator<T> for Filter<P> {
    type Output = Option<T>;

    open spec fn accepts(&self, input: T) -> bool {
        call_requires(self.predicate(), (&input,))
    }

    open spec fn produces(&self, input: T, output: Option<T>) -> bool {
        exists|b: bool| call_ensures(self.predicate(), (&input,), b) && output == gated(input, b, self.keeps_matches())
    }

    fn eval(self, input: T) -> (r: Option<T>) {
        let ghost g = input;
        let b = (self.predicate)(&input);
        let out = if b == self.allow {
            Some(input)
        } else {
            None
        };
        assert(call_ensures(self.predicate(), (&g,), b) && out == gated(g, b, self.keeps_matches()));
        out
    }
}

/// Filtering on anything a filter can be piped onto.
pub trait FilterPipe<T>: Pipe<T> {
    /// Keeps the value where `predicate` holds.
    fn filter<P: Fn(&T) -> bool>(self, predicate: P) -> (r: Source<Option<T>, Applied<T, Self::Upstream, Filter<P>>>)
        requires
            self.ready(),
            forall|v: T| self.yields(v) ==> call_requires(predicate, (&v,)),
        ensures
            r.is_deferred(),
            forall|w: Option<T>| r.gives(w) <==> (exists|v: T, b: bool| self.yields(v) && call_ensures(predicate, (&v,), b) && w == gated(v, b, true)),
    {
        self.pipe(Filter::new(predicate))
    }

    /// Keeps the value where `predicate` holds (same as `filter`).
    fn filter_allow<P: Fn(&T) -> bool>(self, predicate: P) -> (r: Source<Option<T>, Applied<T, Self::Upstream, Filter<P>>>)
        requires
            self.ready(),
            forall|v: T| self.yields(v) ==> call_requires(predicate, (&v,)),
        ensures
            r.is_deferred(),
            forall|w: Option<T>| r.gives(w) <==> (exists|v: T, b: bool| self.yields(v) && call_ensures(predicate, (&v,), b) && w == gated(v, b, true)),
    {
        self.pipe(Filter::allow(predicate))
    }

    /// Drops the value where `predicate` holds.
    fn filter_block<P: Fn(&T) -> bool>(self, predicate: P) -> (r: Source<Option<T>, Applied<T, Self::Upstream, Filter<P>>>)
        requires
            self.ready(),
            forall|v: T| self.yields(v) ==> call_requires(predicate, (&v,)),
        ensures
            r.is_deferred(),
            forall|w: Option<T>| r.gives(w) <==> (exists|v: T, b: bool| self.yields(v) && call_ensures(predicate, (&v,), b) && w == gated(v, b, false)),
    {
        self.pipe(Filter::block(predicate))
    }
}

impl<T, S: Pipe<T>> FilterPipe<T> for S {}

} // verus!
