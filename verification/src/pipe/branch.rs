//! Branch: run one function or another depending on a condition.

use std::marker::PhantomData;
use vstd::prelude::*;

use super::source::{Applied, Build, Operator, Pipe, Source};

verus! {

/// Runs `then_fn` on the value where `condition` holds, else `else_fn`.
///
/// Without an `else_fn` the condition must hold.
pub struct Branch<C, T, E> {
    condition: C,
    then_fn: T,
    else_fn: Option<E>,
}

impl<C, T, E> Branch<C, T, E> {
    pub fn new(condition: C, then_fn: T, else_fn: Option<E>) -> (b: Self)
        ensures
            b.condition() == condition,
            b.then_fn() == then_fn,
            b.else_fn() == else_fn,
    {
        Branch { condition, then_fn, else_fn }
    }

    pub closed spec fn condition(&self) -> C {
        self.condition
    }

    pub closed spec fn then_fn(&self) -> T {
        self.then_fn
    }

    pub closed spec fn else_fn(&self) -> Option<E> {
        self.else_fn
    }
}

impl<Input, Output, C: FnOnce(&Input) -> bool, T: FnOnce(Input) -> Output, E: FnOnce(Input) -> Output> Operator<Input> for Branch<C, T, E> {
    type Output = Output;

    open spec fn accepts(&self, input: Input) -> bool {
        &&& call_requires(self.condition(), (&input,))
        &&& forall|b: bool| #[trigger] call_ensures(self.condition(), (&input,), b) ==> if b {
            call_requires(self.then_fn(), (input,))
        } else {
            self.else_fn() matches Some(e) && call_requires(e, (input,))
        }
    }

    open spec fn produces(&self, input: Input, output: Output) -> bool {
        exists|b: bool| #[trigger] call_ensures(self.condition(), (&input,), b) && if b {
            call_ensures(self.then_fn(), (input,), output)
        } else {
            self.else_fn() matches Some(e) && call_ensures(e, (input,), output)
        }
    }

    fn eval(self, input: Input) -> (r: Output) {
        let value = input;
        let ghost v = value;
        let b = (self.condition)(&value);
        let out = if b {
            (self.then_fn)(value)
        } else {
            let e = self.else_fn.unwrap();
            e(value)
        };
        assert(call_ensures(self.condition(), (&v,), b));
        out
    }
}

/// Runs `then_fn` on the value where `condition` holds, else passes the
/// value through.
pub struct BranchPassthrough<C, T> {
    condition: C,
    then_fn: T,
}

impl<C, T> BranchPassthrough<C, T> {
    pub fn new(condition: C, then_fn: T) -> (b: Self)
        ensures
            b.condition() == condition,
            b.then_fn() == then_fn,
    {
        BranchPassthrough { condition, then_fn }
    }

    pub closed spec fn condition(&self) -> C {
        self.condition
    }

    pub closed spec fn then_fn(&self) -> T {
        self.then_fn
    }

    pub closed spec fn spec_new(condition: C, then_fn: T) -> Self {
        BranchPassthrough { condition, then_fn }
    }

    /// The operator `spec_new` describes holds the given condition and function.
    pub proof fn lemma_spec_new(condition: C, then_fn: T)
        ensures
            Self::spec_new(condition, then_fn).condition() == condition,
            Self::spec_new(condition, then_fn).then_fn() == then_fn,
    {
    }
}

impl<Input, C: FnOnce(&Input) -> bool, T: FnOnce(Input) -> Input> Operator<Input> for BranchPassthrough<C, T> {
    type Output = Input;

    open spec fn accepts(&self, input: Input) -> bool {
        &&& call_requires(self.condition(), (&input,))
        &&& forall|b: bool| #[trigger] call_ensures(self.condition(), (&input,), b) ==> (b ==> call_requires(self.then_fn(), (input,)))
    }

    open spec fn produces(&self, input: Input, output: Input) -> bool {
        exists|b: bool| #[trigger] call_ensures(self.condition(), (&input,), b) && if b {
            call_ensures(self.then_fn(), (input,), output)
        } else {
            output == input
        }
    }

    fn eval(self, input: Input) -> (r: Input) {
        let value = input;
        let ghost v = value;
        let b = (self.condition)(&value);
        let out = if b {
            (self.then_fn)(value)
        } else {
            value
        };
        assert(call_ensures(self.condition(), (&v,), b));
        out
    }
}

/// Starting a branch on anything an operator can be piped onto.
pub trait BranchPipe<T>: Pipe<T> {
    fn branch(self) -> (b: BranchBuilderInit<T, Self>)
        ensures
            b.source() == self,
    {
        BranchBuilderInit::new(self)
    }
}

impl<T, S: Pipe<T>> BranchPipe<T> for S {}

/// A branch being built: it needs a condition.
pub struct BranchBuilderInit<T, P> {
    source: P,
    _marker: PhantomData<T>,
}

impl<T, P: Pipe<T>> BranchBuilderInit<T, P> {
    pub closed spec fn source(&self) -> P {
        self.source
    }

    fn new(source: P) -> (b: Self)
        ensures
            b.source() == source,
    {
        BranchBuilderInit { source, _marker: PhantomData }
    }

    /// Sets the condition.
    pub fn when<C: FnOnce(&T) -> bool>(self, condition: C) -> (b: BranchBuilderWithCondition<T, P, C>)
        ensures
            b.source() == self.source(),
            b.condition() == condition,
    {
        BranchBuilderWithCondition { source: self.source, condition, _marker: PhantomData }
    }
}

/// A branch with its condition: it needs the function run where it holds.
pub struct BranchBuilderWithCondition<T, P, C> {
    source: P,
    condition: C,
    _marker: PhantomData<T>,
}

impl<T, P: Pipe<T>, C: FnOnce(&T) -> bool> BranchBuilderWithCondition<T, P, C> {
    pub closed spec fn source(&self) -> P {
        self.source
    }

    pub closed spec fn condition(&self) -> C {
        self.condition
    }

    /// Sets the function run where the condition holds.
    pub fn then<O, F: FnOnce(T) -> O>(self, then_fn: F) -> (b: BranchBuilderWithThen<T, O, P, C, F>)
        ensures
            b.source() == self.source(),
            b.condition() == self.condition(),
            b.then_fn() == then_fn,
    {
        BranchBuilderWithThen { source: self.source, condition: self.condition, then_fn, _marker: PhantomData }
    }
}

/// A branch with condition and `then`: it can take an `else`, or (where
/// `then` keeps the type) be finished, passing the value through where the
/// condition fails.
pub struct BranchBuilderWithThen<T, O, P, C, F> {
    source: P,
    condition: C,
    then_fn: F,
    _marker: PhantomData<(T, O)>,
}

impl<T, O, P: Pipe<T>, C: FnOnce(&T) -> bool, F: FnOnce(T) -> O> BranchBuilderWithThen<T, O, P, C, F> {
    pub closed spec fn source(&self) -> P {
        self.source
    }

    pub closed spec fn condition(&self) -> C {
        self.condition
    }

    pub closed spec fn then_fn(&self) -> F {
        self.then_fn
    }

    /// Sets the function run where the condition fails.
    pub fn or_else<E: FnOnce(T) -> O>(self, else_fn: E) -> (b: BranchBuilderComplete<T, O, P, C, F, E>)
        ensures
            b.source() == self.source(),
            b.op() == Branch::new_spec(self.condition(), self.then_fn(), Some(else_fn)),
            b.op().condition() == self.condition(),
            b.op().then_fn() == self.then_fn(),
            b.op().else_fn() == Some(else_fn),
    {
        BranchBuilderComplete {
            source: self.source,
            condition: self.condition,
            then_fn: self.then_fn,
            else_fn,
            _marker: PhantomData,
        }
    }
}

impl<C, T, E> Branch<C, T, E> {
    pub closed spec fn new_spec(condition: C, then_fn: T, else_fn: Option<E>) -> Self {
        Branch { condition, then_fn, else_fn }
    }

    /// The operator `new_spec` describes holds the given condition and functions.
    pub proof fn lemma_new_spec(condition: C, then_fn: T, else_fn: Option<E>)
        ensures
            Self::new_spec(condition, then_fn, else_fn).condition() == condition,
            Self::new_spec(condition, then_fn, else_fn).then_fn() == then_fn,
            Self::new_spec(condition, then_fn, else_fn).else_fn() == else_fn,
    {
    }
}

impl<T, P: Pipe<T>, C: FnOnce(&T) -> bool, F: FnOnce(T) -> T> BranchBuilderWithThen<T, T, P, C, F> {
    /// The operator the finished branch applies.
    pub open spec fn passthrough(&self) -> BranchPassthrough<C, F> {
        BranchPassthrough::spec_new(self.condition(), self.then_fn())
    }

    /// The finished branch tests this builder's condition and runs its
    /// `then` function.
    pub proof fn lemma_passthrough(&self)
        ensures
            self.passthrough().condition() == self.condition(),
            self.passthrough().then_fn() == self.then_fn(),
    {
        BranchPassthrough::<C, F>::lemma_spec_new(self.condition(), self.then_fn());
    }

    /// Finishes the branch: the value passes through where the condition fails.
    pub fn done(self) -> (r: Source<T, Applied<T, P::Upstream, BranchPassthrough<C, F>>>)
        requires
            self.source().ready(),
            forall|v: T| self.source().yields(v) ==> self.passthrough().accepts(v),
        ensures
            r.is_deferred(),
            forall|w: T| r.gives(w) <==> exists|v: T| self.source().yields(v) && self.passthrough().produces(v, w),
    {
        let op = BranchPassthrough::new(self.condition, self.then_fn);
        assert(op == self.passthrough());
        self.source.pipe(op)
    }
}

impl<T, P: Pipe<T>, C: FnOnce(&T) -> bool, F: FnOnce(T) -> T> Build for BranchBuilderWithThen<T, T, P, C, F> {
    type Output = T;

    open spec fn buildable(&self) -> bool {
        &&& self.source().ready()
        &&& forall|v: T| self.source().yields(v) ==> self.passthrough().accepts(v)
    }

    open spec fn builds(&self, out: T) -> bool {
        exists|v: T| self.source().yields(v) && self.passthrough().produces(v, out)
    }

    fn build(self) -> (r: T) {
        self.done().build_any()
    }
}

impl<T, P: Pipe<T>, C: FnOnce(&T) -> bool, F: FnOnce(T) -> T> Pipe<T> for BranchBuilderWithThen<T, T, P, C, F> {
    type Upstream = Applied<T, P::Upstream, BranchPassthrough<C, F>>;

    open spec fn ready(&self) -> bool {
        self.buildable()
    }

    open spec fn yields(&self, out: T) -> bool {
        self.builds(out)
    }

    fn into_source(self) -> (s: Source<T, Self::Upstream>) {
        self.done()
    }
}

/// A branch with condition, `then` and `else`.
pub struct BranchBuilderComplete<T, O, P, C, Then, Else> {
    source: P,
    condition: C,
    then_fn: Then,
    else_fn: Else,
    _marker: PhantomData<(T, O)>,
}

impl<T, O, P: Pipe<T>, C: FnOnce(&T) -> bool, Then: FnOnce(T) -> O, Else: FnOnce(T) -> O> BranchBuilderComplete<T, O, P, C, Then, Else> {
    pub closed spec fn source(&self) -> P {
        self.source
    }

    /// The operator the finished branch applies.
    pub closed spec fn op(&self) -> Branch<C, Then, Else> {
        Branch::new_spec(self.condition, self.then_fn, Some(self.else_fn))
    }

    /// Finishes the branch.
    pub fn done(self) -> (r: Source<O, Applied<T, P::Upstream, Branch<C, Then, Else>>>)
        requires
            self.source().ready(),
            forall|v: T| self.source().yields(v) ==> self.op().accepts(v),
        ensures
            r.is_deferred(),
            forall|w: O| r.gives(w) <==> exists|v: T| self.source().yields(v) && self.op().produces(v, w),
    {
        let op = Branch::new(self.condition, self.then_fn, Some(self.else_fn));
        assert(op == self.op());
        self.source.pipe(op)
    }
}

impl<T, O, P: Pipe<T>, C: FnOnce(&T) -> bool, Then: FnOnce(T) -> O, Else: FnOnce(T) -> O> Build for BranchBuilderComplete<T, O, P, C, Then, Else> {
    type Output = O;

    open spec fn buildable(&self) -> bool {
        &&& self.source().ready()
        &&& forall|v: T| self.source().yields(v) ==> self.op().accepts(v)
    }

    open spec fn builds(&self, out: O) -> bool {
        exists|v: T| self.source().yields(v) && self.op().produces(v, out)
    }

    fn build(self) -> (r: O) {
        self.done().build_any()
    }
}

impl<T, O, P: Pipe<T>, C: FnOnce(&T) -> bool, Then: FnOnce(T) -> O, Else: FnOnce(T) -> O> Pipe<O> for BranchBuilderComplete<T, O, P, C, Then, Else> {
    type Upstream = Applied<T, P::Upstream, Branch<C, Then, Else>>;

    open spec fn ready(&self) -> bool {
        self.buildable()
    }

    open spec fn yields(&self, out: O) -> bool {
        self.builds(out)
    }

    fn into_source(self) -> (s: Source<O, Self::Upstream>) {
        self.done()
    }
}

} // verus!
