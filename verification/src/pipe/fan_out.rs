//! Fan-out: send the same value to several operators and collect every
//! output, in the order the operators were added.

use std::marker::PhantomData;
use vstd::prelude::*;

use super::source::{Operator, Source};

verus! {

/// A list of operators that each take a copy of the same input.
///
/// `()` is the empty list; `(rest, op)` is `rest` followed by `op`.
pub trait Branches<Input, Output>: Sized {
    /// How many operators the list holds.
    spec fn count(&self) -> nat;

    /// Whether every operator can take a copy of `input`.
    spec fn accepts_all(&self, input: Input) -> bool;

    /// Whether `outs` may be the outputs of the operators on copies of
    /// `input`, in order.
    spec fn outputs(&self, input: Input, outs: Seq<Output>) -> bool;

    /// Whether the operator at position `i` (counting from the first added)
    /// may make `output` of a copy of `input`.
    spec fn nth_produces(&self, i: int, input: Input, output: Output) -> bool;

    /// Outputs of the list hold one output per operator, the `i`-th made by
    /// the `i`-th operator.
    proof fn lemma_outputs(&self, input: Input, outs: Seq<Output>)
        requires
            self.outputs(input, outs),
        ensures
            outs.len() == self.count(),
            forall|i: int| 0 <= i < outs.len() ==> #[trigger] self.nth_produces(i, input, outs[i]),
    ;

    fn run_all(self, input: &Input, out: &mut Vec<Output>)
        requires
            self.accepts_all(*input),
        ensures
            final(out)@.len() == old(out)@.len() + self.count(),
            final(out)@.take(old(out)@.len() as int) == old(out)@,
            self.outputs(*input, final(out)@.skip(old(out)@.len() as int)),
    ;
}

impl<Input, Output> Branches<Input, Output> for () {
    open spec fn count(&self) -> nat {
        0
    }

    open spec fn accepts_all(&self, input: Input) -> bool {
        true
    }

    open spec fn outputs(&self, input: Input, outs: Seq<Output>) -> bool {
        outs.len() == 0
    }

    open spec fn nth_produces(&self, i: int, input: Input, output: Output) -> bool {
        false
    }

    proof fn lemma_outputs(&self, input: Input, outs: Seq<Output>) {
    }

    fn run_all(self, input: &Input, out: &mut Vec<Output>) {
        assert(out@.take(out@.len() as int) =~= out@);
    }
}

impl<Input: Clone, Output, Rest: Branches<Input, Output>, Op: Operator<Input, Output = Output>> Branches<Input, Output> for (Rest, Op) {
    open spec fn count(&self) -> nat {
        self.0.count() + 1
    }

    open spec fn accepts_all(&self, input: Input) -> bool {
        &&& self.0.accepts_all(input)
        &&& forall|c: Input| cloned::<Input>(input, c) ==> self.1.accepts(c)
    }

    open spec fn outputs(&self, input: Input, outs: Seq<Output>) -> bool {
        &&& outs.len() == self.count()
        &&& self.0.outputs(input, outs.drop_last())
        &&& exists|c: Input| cloned::<Input>(input, c) && self.1.produces(c, outs.last())
    }

    open spec fn nth_produces(&self, i: int, input: Input, output: Output) -> bool {
        if i < self.0.count() {
            self.0.nth_produces(i, input, output)
        } else {
            i == self.0.count() && exists|c: Input| cloned::<Input>(input, c) && self.1.produces(c, output)
        }
    }

    proof fn lemma_outputs(&self, input: Input, outs: Seq<Output>) {
        self.0.lemma_outputs(input, outs.drop_last());
        assert forall|i: int| 0 <= i < outs.len() implies #[trigger] self.nth_produces(i, input, outs[i]) by {
            if i < self.0.count() {
                assert(outs.drop_last()[i] == outs[i]);
            }
        }
    }

    fn run_all(self, input: &Input, out: &mut Vec<Output>) {
        let ghost start = out@;
        let (rest, op) = self;
        rest.run_all(input, out);
        let ghost mid = out@;
        let c = input.clone();
        assert(cloned::<Input>(*input, c));
        let ghost g = c;
        let o = op.eval(c);
        out.push(o);
        proof {
            let outs = out@.skip(start.len() as int);
            assert(outs.drop_last() =~= mid.skip(start.len() as int));
            assert(outs.last() == o);
            assert(cloned::<Input>(*input, g) && op.produces(g, outs.last()));
            assert(out@.take(start.len() as int) =~= mid.take(start.len() as int));
        }
    }
}

/// Sends copies of the value to every operator added, collecting their
/// outputs in the order added.
pub struct FanOut<Input, Output, Ops = ()> {
    ops: Ops,
    _marker: PhantomData<(Input, Output)>,
}

impl<Input, Output> FanOut<Input, Output, ()> {
    /// A fan-out with no operators.
    pub fn new() -> (f: Self)
        ensures
            f.ops() == (),
    {
        FanOut { ops: (), _marker: PhantomData }
    }
}

impl<Input, Output> Default for FanOut<Input, Output, ()> {
    fn default() -> (f: Self)
        ensures
            f.ops() == (),
    {
        FanOut::new()
    }
}

impl<Input, Output, Ops> FanOut<Input, Output, Ops> {
    pub closed spec fn ops(&self) -> Ops {
        self.ops
    }

    /// Adds an operator after those already added.
    pub fn add<Op: Operator<Input, Output = Output>>(self, op: Op) -> (f: FanOut<Input, Output, (Ops, Op)>)
        ensures
            f.ops() == (self.ops(), op),
    {
        FanOut { ops: (self.ops, op), _marker: PhantomData }
    }
}

impl<Input, Output, Ops: Branches<Input, Output>> Operator<Input> for FanOut<Input, Output, Ops> {
    type Output = Vec<Output>;

    open spec fn accepts(&self, input: Input) -> bool {
        self.ops().accepts_all(input)
    }

    open spec fn produces(&self, input: Input, output: Vec<Output>) -> bool {
        self.ops().outputs(input, output@)
    }

    fn eval(self, input: Input) -> (r: Vec<Output>) {
        let mut out: Vec<Output> = Vec::new();
        self.ops.run_all(&input, &mut out);
        assert(out@.skip(0) =~= out@);
        out
    }
}

/// A fan-out gives one output per operator added, in the order added: the
/// `i`-th output is what the `i`-th operator made of a copy of the input.
pub proof fn law_fan_out_outputs<Input, Output, Ops: Branches<Input, Output>>(
    f: FanOut<Input, Output, Ops>,
    input: Input,
    outs: Vec<Output>,
)
    requires
        f.produces(input, outs),
    ensures
        outs@.len() == f.ops().count(),
        forall|i: int| 0 <= i < outs@.len() ==> #[trigger] f.ops().nth_produces(i, input, outs@[i]),
{
    f.ops().lemma_outputs(input, outs@);
}

} // verus!
