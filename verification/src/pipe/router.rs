//! Router: send a value to the first operator whose predicate it meets, or
//! to a default operator; `None` where there is neither.

use std::marker::PhantomData;
use vstd::prelude::*;

use super::source::{Operator, Source};

verus! {

/// A list of (predicate, operator) routes, tried in the order they were
/// added. `()` is the empty list; `(rest, (p, op))` is `rest` followed by
/// the route `(p, op)`.
pub trait Routes<Input, Output>: Sized {
    /// Whether the routes can be tried on `input`.
    spec fn accepts(&self, input: Input) -> bool;

    /// Whether `r` may be the outcome on `input`: `Ok` with the output of the
    /// first route that took it, or the input back where none did.
    spec fn outcome(&self, input: Input, r: Result<Output, Input>) -> bool;

    /// How many routes the list holds.
    spec fn len(&self) -> nat;

    /// Whether the predicate of route `i` (counting from the first added)
    /// may turn `input` down.
    spec fn declines(&self, i: int, input: Input) -> bool;

    /// Whether the predicate of route `i` may accept `input` and its
    /// operator make `output` of it.
    spec fn takes(&self, i: int, input: Input, output: Output) -> bool;

    /// An outcome comes from the first route whose predicate accepted the
    /// input, every earlier one having turned it down; the input comes back
    /// only where every route turned it down.
    proof fn lemma_first_match(&self, input: Input, r: Result<Output, Input>)
        requires
            self.outcome(input, r),
        ensures
            r matches Ok(o) ==> exists|i: int| 0 <= i < self.len() && (forall|j: int| 0 <= j < i ==> #[trigger] self.declines(j, input)) && #[trigger] self.takes(i, input, o),
            r is Err ==> forall|j: int| 0 <= j < self.len() ==> #[trigger] self.declines(j, input),
    ;

    fn route(self, input: Input) -> (r: Result<Output, Input>)
        requires
            self.accepts(input),
        ensures
            self.outcome(input, r),
            r matches Err(x) ==> x == input,
    ;
}

impl<Input, Output> Routes<Input, Output> for () {
    open spec fn accepts(&self, input: Input) -> bool {
        true
    }

    open spec fn outcome(&self, input: Input, r: Result<Output, Input>) -> bool {
        r == Err::<Output, Input>(input)
    }

    open spec fn len(&self) -> nat {
        0
    }

    open spec fn declines(&self, i: int, input: Input) -> bool {
        false
    }

    open spec fn takes(&self, i: int, input: Input, output: Output) -> bool {
        false
    }

    proof fn lemma_first_match(&self, input: Input, r: Result<Output, Input>) {
    }

    fn route(self, input: Input) -> (r: Result<Output, Input>) {
        Err(input)
    }
}

impl<Input, Output, Rest: Routes<Input, Output>, P: Fn(&Input) -> bool, Op: Operator<Input, Output = Output>> Routes<Input, Output> for (Rest, (P, Op)) {
    open spec fn accepts(&self, input: Input) -> bool {
        &&& self.0.accepts(input)
        &&& self.0.outcome(input, Err(input)) ==> {
            &&& call_requires(self.1.0, (&input,))
            &&& forall|b: bool| #[trigger] call_ensures(self.1.0, (&input,), b) ==> (b ==> self.1.1.accepts(input))
        }
    }

    open spec fn outcome(&self, input: Input, r: Result<Output, Input>) -> bool {
        ||| (r is Ok && self.0.outcome(input, r))
        ||| {
            &&& self.0.outcome(input, Err(input))
            &&& exists|b: bool| #[trigger] call_ensures(self.1.0, (&input,), b) && if b {
                r matches Ok(o) && self.1.1.produces(input, o)
            } else {
                r == Err::<Output, Input>(input)
            }
        }
    }

    open spec fn len(&self) -> nat {
        self.0.len() + 1
    }

    open spec fn declines(&self, i: int, input: Input) -> bool {
        if i < self.0.len() {
            self.0.declines(i, input)
        } else {
            i == self.0.len() && call_ensures(self.1.0, (&input,), false)
        }
    }

    open spec fn takes(&self, i: int, input: Input, output: Output) -> bool {
        if i < self.0.len() {
            self.0.takes(i, input, output)
        } else {
            i == self.0.len() && call_ensures(self.1.0, (&input,), true) && self.1.1.produces(input, output)
        }
    }

    proof fn lemma_first_match(&self, input: Input, r: Result<Output, Input>) {
        if r is Ok && self.0.outcome(input, r) {
            self.0.lemma_first_match(input, r);
            let o = r->Ok_0;
            let i = choose|i: int| 0 <= i < self.0.len() && (forall|j: int| 0 <= j < i ==> #[trigger] self.0.declines(j, input)) && #[trigger] self.0.takes(i, input, o);
            assert(forall|j: int| 0 <= j < i ==> #[trigger] self.declines(j, input));
            assert(self.takes(i, input, o));
        } else {
            self.0.lemma_first_match(input, Err(input));
            let n = self.0.len() as int;
            assert(forall|j: int| 0 <= j < n ==> #[trigger] self.declines(j, input));
            let b = choose|b: bool| #[trigger] call_ensures(self.1.0, (&input,), b) && if b {
                r matches Ok(o) && self.1.1.produces(input, o)
            } else {
                r == Err::<Output, Input>(input)
            };
            if b {
                assert(self.takes(n, input, r->Ok_0));
            } else {
                assert(self.declines(n, input));
            }
        }
    }

    fn route(self, input: Input) -> (r: Result<Output, Input>) {
        let (rest, (p, op)) = self;
        match rest.route(input) {
            Ok(o) => Ok(o),
            Err(input) => {
                let ghost g = input;
                let b = p(&input);
                assert(call_ensures(p, (&g,), b));
                if b {
                    Ok(op.eval(input))
                } else {
                    Err(input)
                }
            },
        }
    }
}

/// What a router does with a value no route took.
pub trait Fallback<Input, Output>: Sized {
    spec fn accepts(&self, input: Input) -> bool;

    spec fn outcome(&self, input: Input, r: Option<Output>) -> bool;

    fn run(self, input: Input) -> (r: Option<Output>)
        requires
            self.accepts(input),
        ensures
            self.outcome(input, r),
    ;
}

/// No default operator: a value no route took gives `None`.
pub struct NoDefault;

impl<Input, Output> Fallback<Input, Output> for NoDefault {
    open spec fn accepts(&self, input: Input) -> bool {
        true
    }

    open spec fn outcome(&self, input: Input, r: Option<Output>) -> bool {
        r is None
    }

    fn run(self, input: Input) -> (r: Option<Output>) {
        None
    }
}

/// A default operator for values no route took.
pub struct WithDefault<Op>(pub Op);

impl<Input, Output, Op: Operator<Input, Output = Output>> Fallback<Input, Output> for WithDefault<Op> {
    open spec fn accepts(&self, input: Input) -> bool {
        self.0.accepts(input)
    }

    open spec fn outcome(&self, input: Input, r: Option<Output>) -> bool {
        r matches Some(o) && self.0.produces(input, o)
    }

    fn run(self, input: Input) -> (r: Option<Output>) {
        Some(self.0.eval(input))
    }
}

/// Sends the value to the first route whose predicate it meets, else to the
/// default operator; `None` where neither takes it.
pub struct Router<Input, Output, R = (), D = NoDefault> {
    routes: R,
    fallback: D,
    _marker: PhantomData<(Input, Output)>,
}

impl<Input, Output> Router<Input, Output, (), NoDefault> {
    /// A router with no routes and no default.
    pub fn new() -> (r: Self)
        ensures
            r.routes() == (),
            r.fallback() == NoDefault,
    {
        Router { routes: (), fallback: NoDefault, _marker: PhantomData }
    }
}

impl<Input, Output> Default for Router<Input, Output, (), NoDefault> {
    fn default() -> (r: Self) {
        Router::new()
    }
}

impl<Input, Output, R, D> Router<Input, Output, R, D> {
    pub closed spec fn routes(&self) -> R {
        self.routes
    }

    pub closed spec fn fallback(&self) -> D {
        self.fallback
    }

    /// Adds a route after those already added.
    pub fn route<P: Fn(&Input) -> bool, Op: Operator<Input, Output = Output>>(self, predicate: P, op: Op) -> (r: Router<
        Input,
        Output,
        (R, (P, Op)),
        D,
    >)
        ensures
            r.routes() == (self.routes(), (predicate, op)),
            r.fallback() == self.fallback(),
    {
        Router { routes: (self.routes, (predicate, op)), fallback: self.fallback, _marker: PhantomData }
    }

    /// Sets the operator for values no route takes.
    pub fn default<Op: Operator<Input, Output = Output>>(self, op: Op) -> (r: Router<Input, Output, R, WithDefault<Op>>)
        ensures
            r.routes() == self.routes(),
            r.fallback() == WithDefault(op),
    {
        Router { routes: self.routes, fallback: WithDefault(op), _marker: PhantomData }
    }
}

impl<Input, Output, R: Routes<Input, Output>, D: Fallback<Input, Output>> Operator<Input> for Router<Input, Output, R, D> {
    type Output = Option<Output>;

    open spec fn accepts(&self, input: Input) -> bool {
        &&& self.routes().accepts(input)
        &&& self.routes().outcome(input, Err(input)) ==> self.fallback().accepts(input)
    }

    open spec fn produces(&self, input: Input, output: Option<Output>) -> bool {
        ||| exists|o: Output| self.routes().outcome(input, Ok(o)) && output == Some(o)
        ||| self.routes().outcome(input, Err(input)) && self.fallback().outcome(input, output)
    }

    fn eval(self, input: Input) -> (r: Option<Output>) {
        let ghost g = input;
        let Router { routes, fallback, _marker } = self;
        match routes.route(input) {
            Ok(o) => {
                assert(routes.outcome(g, Ok(o)));
                Some(o)
            },
            Err(input) => fallback.run(input),
        }
    }
}

/// A router gives the output of the first route whose predicate accepted the
/// value, every earlier predicate having turned it down; where every
/// predicate turned it down, the default operator's output, or `None` where
/// there is no default.
pub proof fn law_router_first_match<Input, Output, R: Routes<Input, Output>, D: Fallback<Input, Output>>(
    router: Router<Input, Output, R, D>,
    input: Input,
    output: Option<Output>,
)
    requires
        router.produces(input, output),
    ensures
        ({
            ||| exists|i: int, o: Output| {
                &&& 0 <= i < router.routes().len()
                &&& forall|j: int| 0 <= j < i ==> #[trigger] router.routes().declines(j, input)
                &&& #[trigger] router.routes().takes(i, input, o)
                &&& output == Some(o)
            }
            ||| {
                &&& forall|j: int| 0 <= j < router.routes().len() ==> #[trigger] router.routes().declines(j, input)
                &&& router.fallback().outcome(input, output)
            }
        }),
{
    if exists|o: Output| router.routes().outcome(input, Ok(o)) && output == Some(o) {
        let o = choose|o: Output| router.routes().outcome(input, Ok(o)) && output == Some(o);
        router.routes().lemma_first_match(input, Ok(o));
        let i = choose|i: int| 0 <= i < router.routes().len() && (forall|j: int| 0 <= j < i ==> #[trigger] router.routes().declines(j, input)) && #[trigger] router.routes().takes(i, input, o);
        assert(router.routes().takes(i, input, o) && output == Some(o));
    } else {
        router.routes().lemma_first_match(input, Err(input));
    }
}

} // verus!
