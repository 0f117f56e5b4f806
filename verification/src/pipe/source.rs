//! Sources of values and the traits that connect operators to them.

use vstd::prelude::*;

verus! {

/// A computation of a value, run at most once.
pub trait Thunk<T>: Sized {
    /// Whether it may be run.
    spec fn runnable(&self) -> bool;

    /// Whether `v` is a value running it may give.
    spec fn result(&self, v: T) -> bool;

    fn run(self) -> (v: T)
        requires
            self.runnable(),
        ensures
            self.result(v),
    ;
}

/// A function waiting to be called with no arguments.
pub struct Call<F> {
    f: F,
}

impl<F> Call<F> {
    pub closed spec fn function(&self) -> F {
        self.f
    }
}

impl<T, F: FnOnce() -> T> Thunk<T> for Call<F> {
    open spec fn runnable(&self) -> bool {
        call_requires(self.function(), ())
    }

    open spec fn result(&self, v: T) -> bool {
        call_ensures(self.function(), (), v)
    }

    fn run(self) -> (v: T) {
        (self.f)()
    }
}

/// No computation: a source of this kind always holds its value (no value
/// of this type is ever made).
pub struct Ready {
    never: (),
}

impl<T> Thunk<T> for Ready {
    open spec fn runnable(&self) -> bool {
        false
    }

    open spec fn result(&self, v: T) -> bool {
        false
    }

    fn run(self) -> (v: T) {
        vstd::pervasive::unreached()
    }
}

/// What a source holds: its value, or the computation that will make it.
enum Held<T, D> {
    Value(T),
    Deferred(D),
}

/// A value flowing through a pipeline.
///
/// A source made by `new` holds a function, called only when the source is
/// built; one made from a value holds that value. Piping an operator onto a
/// source makes a new source that holds both; nothing runs until the last
/// source is built.
pub struct Source<T, D: Thunk<T> = Ready> {
    held: Held<T, D>,
}

impl<T, D: Thunk<T>> Source<T, D> {
    #[verifier::type_invariant]
    spec fn deferred_runnable(&self) -> bool {
        self.held matches Held::Deferred(d) ==> d.runnable()
    }

    /// The computation the source holds, where it holds one.
    pub closed spec fn deferred(&self) -> Option<D> {
        match self.held {
            Held::Value(_) => None,
            Held::Deferred(d) => Some(d),
        }
    }

    /// Whether the source holds a computation not yet run.
    pub open spec fn is_deferred(&self) -> bool {
        self.deferred() is Some
    }

    /// The value the source holds, where it holds one.
    pub closed spec fn value(&self) -> T {
        match self.held {
            Held::Value(v) => v,
            Held::Deferred(_) => arbitrary(),
        }
    }

    /// Whether `v` is a value that building the source may give: what its
    /// computation may give, or else its value.
    pub open spec fn gives(&self, v: T) -> bool {
        match self.deferred() {
            Some(d) => if d.runnable() { d.result(v) } else { v == self.value() },
            None => v == self.value(),
        }
    }

    /// The value, taking the source apart (running its computation, if any).
    pub fn build_any(self) -> (v: T)
        ensures
            self.gives(v),
            !self.is_deferred() ==> v == self.value(),
    {
        proof {
            use_type_invariant(&self);
        }
        match self.held {
            Held::Value(v) => v,
            Held::Deferred(d) => d.run(),
        }
    }
}

impl<T, D: Thunk<T>> Source<T, D> {
    /// A source that runs `d` when built.
    pub(crate) fn of_thunk(d: D) -> (s: Self)
        requires
            d.runnable(),
        ensures
            s.is_deferred(),
            forall|v: T| s.gives(v) <==> d.result(v),
    {
        Source { held: Held::Deferred(d) }
    }
}

impl<T, F: FnOnce() -> T> Source<T, Call<F>> {
    /// A source that gives what `handler` returns; `handler` is called only
    /// when the source is built, and then once.
    pub fn new(handler: F) -> (s: Self)
        requires
            call_requires(handler, ()),
        ensures
            s.is_deferred(),
            forall|v: T| s.gives(v) <==> call_ensures(handler, (), v),
    {
        Source { held: Held::Deferred(Call { f: handler }) }
    }
}

impl<T> Source<T> {
    /// The value, taking the source apart.
    pub fn build_value(self) -> (v: T)
        ensures
            v == self.value(),
            !self.is_deferred(),
    {
        proof {
            use_type_invariant(&self);
        }
        match self.held {
            Held::Value(v) => v,
            Held::Deferred(d) => d.run(),
        }
    }

    /// A source of `value`.
    pub fn of(value: T) -> (s: Self)
        ensures
            !s.is_deferred(),
            s.value() == value,
            forall|v: T| s.gives(v) <==> v == value,
    {
        Source { held: Held::Value(value) }
    }
}

impl<T> From<T> for Source<T> {
    fn from(value: T) -> (s: Self) {
        Source { held: Held::Value(value) }
    }
}

impl<T> vstd::std_specs::convert::FromSpecImpl<T> for Source<T> {
    open spec fn obeys_from_spec() -> bool {
        true
    }

    open spec fn from_spec(v: T) -> Self {
        Source::spec_of(v)
    }
}

impl<T> Source<T> {
    /// The source `From` makes of `v`.
    pub closed spec fn spec_of(v: T) -> Self {
        Source { held: Held::Value(v) }
    }

    /// The source `From` makes of `v` holds `v`.
    pub proof fn lemma_from_value(v: T)
        ensures
            !Source::spec_of(v).is_deferred(),
            Source::spec_of(v).value() == v,
            forall|x: T| Source::spec_of(v).gives(x) <==> x == v,
    {
    }
}

/// A step of a pipeline: turns the value of a source into a new value.
pub trait Operator<Input>: Sized {
    type Output;

    /// Whether the operator can take `input`.
    spec fn accepts(&self, input: Input) -> bool;

    /// Whether `output` is what the operator may make of `input`.
    spec fn produces(&self, input: Input, output: Self::Output) -> bool;

    /// The operator's work on a value.
    fn eval(self, input: Input) -> (r: Self::Output)
        requires
            self.accepts(input),
        ensures
            self.produces(input, r),
    ;
}

/// Putting an operator after a source.
pub trait Apply<Input>: Operator<Input> {
    /// A source that, when built, builds `src` and hands its value to the
    /// operator; nothing runs before then.
    fn apply<D: Thunk<Input>>(self, src: Source<Input, D>) -> (r: Source<Self::Output, Applied<Input, D, Self>>)
        requires
            forall|v: Input| src.gives(v) ==> self.accepts(v),
        ensures
            r.is_deferred(),
            forall|w: Self::Output| r.gives(w) <==> exists|v: Input| src.gives(v) && self.produces(v, w),
    {
        let a = Applied { src, op: self };
        Source::of_thunk(a)
    }
}

impl<Input, Op: Operator<Input>> Apply<Input> for Op {}

/// An operator waiting for the value of a source.
pub struct Applied<Input, D: Thunk<Input>, Op> {
    src: Source<Input, D>,
    op: Op,
}

impl<Input, D: Thunk<Input>, Op> Applied<Input, D, Op> {
    pub closed spec fn source(&self) -> Source<Input, D> {
        self.src
    }

    pub closed spec fn op(&self) -> Op {
        self.op
    }
}

impl<Input, D: Thunk<Input>, Op: Operator<Input>> Thunk<Op::Output> for Applied<Input, D, Op> {
    open spec fn runnable(&self) -> bool {
        forall|v: Input| self.source().gives(v) ==> self.op().accepts(v)
    }

    open spec fn result(&self, w: Op::Output) -> bool {
        exists|v: Input| self.source().gives(v) && self.op().produces(v, w)
    }

    fn run(self) -> (w: Op::Output) {
        let ghost src = self.src;
        let v = self.src.build_any();
        let w = self.op.eval(v);
        assert(src.gives(v) && self.op().produces(v, w));
        w
    }
}

/// Something an operator can be piped onto.
pub trait Pipe<Input>: Sized {
    /// The computation of the source it stands for.
    type Upstream: Thunk<Input>;

    /// Whether it can produce its value.
    spec fn ready(&self) -> bool;

    /// Whether `v` is a value it may produce.
    spec fn yields(&self, v: Input) -> bool;

    /// The source it stands for, with nothing run yet.
    fn into_source(self) -> (s: Source<Input, Self::Upstream>)
        requires
            self.ready(),
        ensures
            forall|v: Input| s.gives(v) <==> self.yields(v),
    ;

    /// A source that, when built, builds this one and hands its value to
    /// `op`; nothing runs before then.
    fn pipe<Op: Operator<Input>>(self, op: Op) -> (r: Source<Op::Output, Applied<Input, Self::Upstream, Op>>)
        requires
            self.ready(),
            forall|v: Input| self.yields(v) ==> op.accepts(v),
        ensures
            r.is_deferred(),
            forall|w: Op::Output| r.gives(w) <==> exists|v: Input| self.yields(v) && op.produces(v, w),
    {
        let ghost me = self;
        let s = self.into_source();
        let r = op.apply(s);
        assert forall|w: Op::Output| r.gives(w) <==> exists|v: Input| me.yields(v) && op.produces(v, w) by {
            if r.gives(w) {
                let v = choose|v: Input| s.gives(v) && op.produces(v, w);
                assert(me.yields(v));
            }
            if exists|v: Input| me.yields(v) && op.produces(v, w) {
                let v = choose|v: Input| me.yields(v) && op.produces(v, w);
                assert(s.gives(v));
            }
        }
        r
    }
}

/// Something that yields a value when built.
pub trait Build: Sized {
    type Output;

    /// Whether it can be built.
    spec fn buildable(&self) -> bool;

    /// Whether `v` is a value it may build.
    spec fn builds(&self, v: Self::Output) -> bool;

    fn build(self) -> (r: Self::Output)
        requires
            self.buildable(),
        ensures
            self.builds(r),
    ;
}

impl<T, D: Thunk<T>> Pipe<T> for Source<T, D> {
    type Upstream = D;

    open spec fn ready(&self) -> bool {
        true
    }

    open spec fn yields(&self, v: T) -> bool {
        self.gives(v)
    }

    fn into_source(self) -> (s: Source<T, D>) {
        self
    }
}

impl<T, D: Thunk<T>> Build for Source<T, D> {
    type Output = T;

    open spec fn buildable(&self) -> bool {
        true
    }

    open spec fn builds(&self, v: T) -> bool {
        self.gives(v)
    }

    fn build(self) -> (r: T) {
        self.build_any()
    }
}

} // verus!
