//! A source paired with a function to apply when it is built.

use vstd::prelude::*;

use super::source::{Build, Operator, Pipe, Ready, Source, Thunk};

verus! {

/// A source and a function: building applies the function to the source's
/// value; piping an operator onto it pipes onto the source alone.
pub struct Transformer<Input, F, D: Thunk<Input> = Ready> {
    source: Source<Input, D>,
    handler: F,
}

impl<Input, F, D: Thunk<Input>> Transformer<Input, F, D> {
    pub fn new(source: Source<Input, D>, handler: F) -> (t: Self)
        ensures
            t.source() == source,
            t.handler() == handler,
    {
        Transformer { source, handler }
    }

    pub closed spec fn source(&self) -> Source<Input, D> {
        self.source
    }

    pub closed spec fn handler(&self) -> F {
        self.handler
    }
}

impl<Input, F, D: Thunk<Input>> Pipe<Input> for Transformer<Input, F, D> {
    type Upstream = D;

    open spec fn ready(&self) -> bool {
        true
    }

    open spec fn yields(&self, v: Input) -> bool {
        self.source().gives(v)
    }

    fn into_source(self) -> (s: Source<Input, D>) {
        self.source
    }
}

impl<Input, Output, F: FnOnce(Input) -> Output, D: Thunk<Input>> Build for Transformer<Input, F, D> {
    type Output = Output;

    /// The function can take every value the source may give.
    open spec fn buildable(&self) -> bool {
        forall|v: Input| self.source().gives(v) ==> call_requires(self.handler(), (v,))
    }

    /// `v` is what the function may make of a value the source may give.
    open spec fn builds(&self, v: Output) -> bool {
        exists|u: Input| self.source().gives(u) && call_ensures(self.handler(), (u,), v)
    }

    fn build(self) -> (r: Output) {
        let ghost src = self.source();
        let input = self.source.build_any();
        assert(src.gives(input));
        let r = (self.handler)(input);
        assert(self.source().gives(input) && call_ensures(self.handler(), (input,), r));
        r
    }
}

impl<Input, F, D: Thunk<Input>> Transformer<Input, F, D> {
    /// Piping an operator onto a transformer pipes it onto the source alone:
    /// what the pipeline may go on with is what the source may give, and two
    /// transformers of the same source agree there whatever their functions
    /// (the function is never called).
    pub proof fn law_pipe_bypasses_handler(t: Self, u: Self)
        requires
            t.source() == u.source(),
        ensures
            forall|v: Input| #[trigger] t.yields(v) <==> t.source().gives(v),
            forall|v: Input| #[trigger] t.yields(v) <==> u.yields(v),
    {
    }
}

} // verus!
