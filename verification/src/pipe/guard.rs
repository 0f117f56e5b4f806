//! Guard: let a pipeline continue with a value or stop it, by a predicate.

use vstd::prelude::*;

use super::filter::gated;
use super::source::{Operator, Source};

verus! {

/// Lets the pipeline go on with the value (as `Some`) where the predicate allows it, and stops it (`None`) otherwise.
pub struct Guard<P> {
    predicate: P,
    allow: bool,
}

impl<P> Guard<P> {
    /// A guard that lets values matching the predicate through.
    pub fn new(predicate: P) -> (f: Self)
        ensures
            f.predicate() == predicate,
            f.keeps_matches(),
    {
        Guard { predicate, allow: true }
    }

    /// A guard that lets values matching the predicate through (same as `new`).
    pub fn allow(predicate: P) -> (f: Self)
        ensures
            f.predicate() == predicate,
            f.keeps_matches(),
    {
        Guard::new(predicate)
    }

    /// A guard that stops values matching the predicate.
    pub fn block(predicate: P) -> (f: Self)
        ensures
            f.predicate() == predicate,
            !f.keeps_matches(),
    {
        Guard { predicate, allow: false }
    }

    pub closed spec fn predicate(&self) -> P {
        self.predicate
    }

    /// Whether matching values go through (else they are stopped).
    pub closed spec fn keeps_matches(&self) -> bool {
        self.allow
    }
}

impl<P> Guard<P> {
    /// `new` and `allow` build the same operator: two guards with the
    /// same predicate that both keep matching values are equal.
    pub proof fn law_new_same_as_allow(a: Guard<P>, b: Guard<P>)
        requires
            a.predicate() == b.predicate(),
            a.keeps_matches(),
            b.keeps_matches(),
        ensures
            a == b,
    {
    }
}

impl<T, P: Fn(&T) -> bool> Operator<T> for Guard<P> {
    type Output = Option<T>;

    open spec fn accepts(&self, input: T) -> bool {
        call_requires(self.predicate(), (&input,))
    }

    open spec fn produces(&self, input: T, output: Option<T>) -> bool {
        exists|b: bool| call_ensures(self.predicate(), (&input,), b) && output == gated(input, b, self.keeps_matches())
    }

    fn eval(self, input: T) -> (r: Option<T>) {
        let ghost g = input;
        let b = (self.predicate)(&input);
        let out = if b == self.allow {
            Some(input)
        } else {
            None
        };
        assert(call_ensures(self.predicate(), (&g,), b) && out == gated(g, b, self.keeps_matches()));
        out
    }
}

} // verus!
