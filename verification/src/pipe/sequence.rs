//! Operators on sequences: flattening, chunks, windows and concatenation.

use std::marker::PhantomData;
use vstd::prelude::*;

use super::source::{Applied, Operator, Pipe, Source};

verus! {

/// The sequences of `s`, one after another.
pub open spec fn concat_all<T>(s: Seq<Seq<T>>) -> Seq<T>
    decreases s.len(),
{
    if s.len() == 0 {
        seq![]
    } else {
        concat_all(s.drop_last()) + s.last()
    }
}

/// The contents of each vector of `s`.
pub open spec fn views<T>(s: Seq<Vec<T>>) -> Seq<Seq<T>> {
    s.map_values(|v: Vec<T>| v@)
}

/// `s` cut into consecutive pieces of `size` items (the last may be shorter).
pub open spec fn chunks_of<T>(s: Seq<T>, size: nat) -> Seq<Seq<T>>
    decreases s.len(),
{
    if s.len() == 0 || size == 0 {
        seq![]
    } else if s.len() <= size {
        seq![s]
    } else {
        seq![s.take(size as int)] + chunks_of(s.skip(size as int), size)
    }
}

/// The items of `v` in reverse order.
fn reversed<X>(v: Vec<X>) -> (r: Vec<X>)
    ensures
        r@.len() == v@.len(),
        forall|j: int| 0 <= j < v@.len() ==> #[trigger] r@[j] == v@[v@.len() - 1 - j],
{
    let ghost all = v@;
    let mut rest = v;
    let mut out: Vec<X> = Vec::new();
    while rest.len() > 0
        invariant
            out@.len() + rest@.len() == all.len(),
            rest@ == all.take(rest@.len() as int),
            forall|j: int| 0 <= j < out@.len() ==> #[trigger] out@[j] == all[all.len() - 1 - j],
        decreases rest@.len(),
    {
        let ghost k = rest@.len() - 1;
        let x = rest.pop().unwrap();
        proof {
            assert(x == all[k]);
            assert(rest@ =~= all.take(k));
        }
        out.push(x);
    }
    out
}

proof fn lemma_views_take<T>(s: Seq<Vec<T>>, i: int)
    requires
        0 <= i < s.len(),
    ensures
        concat_all(views(s.take(i + 1))) == concat_all(views(s.take(i))) + s[i]@,
{
    assert(views(s.take(i + 1)).drop_last() =~= views(s.take(i)));
}

/// Flattens a sequence of sequences.
pub struct Flatten<T> {
    _marker: PhantomData<T>,
}

impl<T> Flatten<T> {
    pub fn new() -> Self {
        Flatten { _marker: PhantomData }
    }
}

impl<T> Default for Flatten<T> {
    fn default() -> Self {
        Flatten::new()
    }
}

impl<T> Operator<Vec<Vec<T>>> for Flatten<T> {
    type Output = Vec<T>;

    open spec fn accepts(&self, input: Vec<Vec<T>>) -> bool {
        true
    }

    open spec fn produces(&self, input: Vec<Vec<T>>, output: Vec<T>) -> bool {
        output@ == concat_all(views(input@))
    }

    fn eval(self, input: Vec<Vec<T>>) -> (r: Vec<T>) {
        let ghost all = input@;
        let n = input.len();
        let mut parts = reversed(input);
        let mut result: Vec<T> = Vec::new();
        let mut i: usize = 0;
        assert(views(all.take(0)) =~= Seq::<Seq<T>>::empty());
        while parts.len() > 0
            invariant
                parts@.len() + i == all.len(),
                n == all.len(),
                forall|j: int| 0 <= j < parts@.len() ==> #[trigger] parts@[j] == all[all.len() - 1 - j],
                result@ == concat_all(views(all.take(i as int))),
            decreases parts@.len(),
        {
            let ghost k = parts@.len() - 1;
            let mut p = parts.pop().unwrap();
            proof {
                assert(p == all[i as int]);
                lemma_views_take(all, i as int);
            }
            result.append(&mut p);
            i = i + 1;
        }
        assert(all.take(all.len() as int) =~= all);
        result
    }
}

/// Maps each item to a sequence and flattens the results.
pub struct FlatMap<F> {
    f: F,
}

impl<F> FlatMap<F> {
    pub fn new(f: F) -> (m: Self)
        ensures
            m.f() == f,
    {
        FlatMap { f }
    }

    pub closed spec fn f(&self) -> F {
        self.f
    }
}

/// `output` is the concatenation of some results of `f` on the items of
/// `input`, in order.
pub open spec fn flat_mapped<T, U, F: Fn(T) -> Vec<U>>(f: F, input: Seq<T>, output: Seq<U>) -> bool {
    exists|parts: Seq<Vec<U>>| {
        &&& parts.len() == input.len()
        &&& forall|i: int| 0 <= i < input.len() ==> call_ensures(f, (input[i],), #[trigger] parts[i])
        &&& output == concat_all(views(parts))
    }
}

impl<T, U, F: Fn(T) -> Vec<U>> Operator<Vec<T>> for FlatMap<F> {
    type Output = Vec<U>;

    open spec fn accepts(&self, input: Vec<T>) -> bool {
        forall|i: int| 0 <= i < input@.len() ==> call_requires(self.f(), (#[trigger] input@[i],))
    }

    open spec fn produces(&self, input: Vec<T>, output: Vec<U>) -> bool {
        flat_mapped(self.f(), input@, output@)
    }

    fn eval(self, input: Vec<T>) -> (r: Vec<U>) {
        let ghost all = input@;
        let n = input.len();
        let mut items = reversed(input);
        let mut result: Vec<U> = Vec::new();
        let ghost mut parts: Seq<Vec<U>> = seq![];
        let mut i: usize = 0;
        assert(views(parts) =~= Seq::<Seq<U>>::empty());
        while items.len() > 0
            invariant
                items@.len() + i == all.len(),
                n == all.len(),
                forall|j: int| 0 <= j < items@.len() ==> #[trigger] items@[j] == all[all.len() - 1 - j],
                forall|j: int| 0 <= j < all.len() ==> call_requires(self.f(), (#[trigger] all[j],)),
                parts.len() == i,
                forall|j: int| 0 <= j < i ==> call_ensures(self.f(), (all[j],), #[trigger] parts[j]),
                result@ == concat_all(views(parts)),
            decreases items@.len(),
        {
            let x = items.pop().unwrap();
            proof {
                assert(x == all[i as int]);
            }
            let mut ys = (self.f)(x);
            proof {
                let p2 = parts.push(ys);
                assert(views(p2).drop_last() =~= views(parts));
                parts = p2;
            }
            result.append(&mut ys);
            i = i + 1;
        }
        assert(flat_mapped(self.f(), all, result@));
        result
    }
}

/// Cuts a sequence into consecutive chunks of a size (the last may be
/// shorter); the size must not be zero.
pub struct Chunk {
    size: usize,
}

impl Chunk {
    pub fn new(size: usize) -> (c: Self)
        ensures
            c.size() == size,
    {
        Chunk { size }
    }

    pub closed spec fn size(&self) -> usize {
        self.size
    }
}

proof fn lemma_chunks_step<T>(s: Seq<T>, size: nat)
    requires
        s.len() > 0,
        size > 0,
    ensures
        s.len() <= size ==> chunks_of(s, size) == seq![s],
        s.len() > size ==> chunks_of(s, size) == seq![s.take(size as int)] + chunks_of(s.skip(size as int), size),
{
}

impl<T> Operator<Vec<T>> for Chunk {
    type Output = Vec<Vec<T>>;

    open spec fn accepts(&self, input: Vec<T>) -> bool {
        self.size() > 0
    }

    open spec fn produces(&self, input: Vec<T>, output: Vec<Vec<T>>) -> bool {
        views(output@) == chunks_of(input@, self.size() as nat)
    }

    fn eval(self, input: Vec<T>) -> (r: Vec<Vec<T>>) {
        let ghost all = input@;
        let size = self.size;
        let mut rev = reversed(input);
        let mut chunks: Vec<Vec<T>> = Vec::new();
        assert(all.skip(0) =~= all);
        assert(views(chunks@) =~= Seq::<Seq<T>>::empty());
        while rev.len() > 0
            invariant
                size > 0,
                rev@.len() <= all.len(),
                forall|j: int| 0 <= j < rev@.len() ==> #[trigger] rev@[j] == all[all.len() - 1 - j],
                views(chunks@) + chunks_of(all.skip(all.len() - rev@.len()), size as nat) == chunks_of(all, size as nat),
            decreases rev@.len(),
        {
            let ghost rest = all.skip(all.len() - rev@.len());
            let ghost start = all.len() - rev@.len();
            let mut chunk: Vec<T> = Vec::new();
            while chunk.len() < size && rev.len() > 0
                invariant
                    size > 0,
                    rest == all.skip(start),
                    0 <= start <= all.len(),
                    start + chunk@.len() + rev@.len() == all.len(),
                    chunk@.len() <= size,
                    forall|j: int| 0 <= j < rev@.len() ==> #[trigger] rev@[j] == all[all.len() - 1 - j],
                    chunk@ == rest.take(chunk@.len() as int),
                decreases rev@.len(),
            {
                let ghost k = rev@.len() - 1;
                let x = rev.pop().unwrap();
                proof {
                    assert(x == all[all.len() - 1 - k]);
                    assert(x == rest[chunk@.len() as int]);
                    assert(rest.take(chunk@.len() + 1 as int) =~= rest.take(chunk@.len() as int).push(x));
                }
                chunk.push(x);
            }
            proof {
                lemma_chunks_step(rest, size as nat);
                let next = all.skip(all.len() - rev@.len());
                if rest.len() <= size {
                    assert(chunk@ =~= rest);
                    assert(next.len() == 0);
                    assert(chunks_of(next, size as nat) =~= Seq::<Seq<T>>::empty());
                } else {
                    assert(chunk@ =~= rest.take(size as int));
                    assert(next =~= rest.skip(size as int));
                }
                assert(views(chunks@.push(chunk)) =~= views(chunks@).push(chunk@));
                assert(views(chunks@).push(chunk@) + chunks_of(next, size as nat) =~= views(chunks@) + (seq![chunk@]
                    + chunks_of(next, size as nat)));
            }
            chunks.push(chunk);
        }
        proof {
            assert(chunks_of(all.skip(all.len() as int), size as nat) =~= Seq::<Seq<T>>::empty());
            assert(views(chunks@) + Seq::<Seq<T>>::empty() =~= views(chunks@));
        }
        chunks
    }
}

/// Overlapping windows of a size over a sequence (none where the sequence is
/// shorter than the size); the size must not be zero. Windows hold clones.
pub struct Window {
    size: usize,
}

impl Window {
    pub fn new(size: usize) -> (w: Self)
        ensures
            w.size() == size,
    {
        Window { size }
    }

    pub closed spec fn size(&self) -> usize {
        self.size
    }
}

/// `output` holds the windows of `size` items of `input`, each item a clone.
pub open spec fn windows_of<T: Clone>(input: Seq<T>, size: nat, output: Seq<Vec<T>>) -> bool {
    &&& output.len() == if input.len() >= size { input.len() - size + 1 } else { 0 }
    &&& forall|i: int| 0 <= i < output.len() ==> (#[trigger] output[i])@.len() == size
    &&& forall|i: int, k: int| 0 <= i < output.len() && 0 <= k < size ==> cloned::<T>(input[i + k], #[trigger] output[i]@[k])
}

impl<T: Clone> Operator<Vec<T>> for Window {
    type Output = Vec<Vec<T>>;

    open spec fn accepts(&self, input: Vec<T>) -> bool {
        self.size() > 0
    }

    open spec fn produces(&self, input: Vec<T>, output: Vec<Vec<T>>) -> bool {
        windows_of(input@, self.size() as nat, output@)
    }

    fn eval(self, input: Vec<T>) -> (r: Vec<Vec<T>>) {
        let items = input;
        let size = self.size;
        let mut out: Vec<Vec<T>> = Vec::new();
        if items.len() < size {
            return out;
        }
        let last = items.len() - size;
        let mut i: usize = 0;
        while i <= last
            invariant
                size > 0,
                items@.len() <= usize::MAX,
                last == items@.len() - size,
                i <= last + 1,
                out@.len() == i,
                forall|a: int| 0 <= a < i ==> (#[trigger] out@[a])@.len() == size,
                forall|a: int, k: int| 0 <= a < i && 0 <= k < size ==> cloned::<T>(items@[a + k], #[trigger] out@[a]@[k]),
            decreases last + 1 - i,
        {
            let mut w: Vec<T> = Vec::new();
            let mut k: usize = 0;
            while k < size
                invariant
                    i <= last,
                    items@.len() <= usize::MAX,
                    last == items@.len() - size,
                    k <= size,
                    w@.len() == k,
                    forall|b: int| 0 <= b < k ==> cloned::<T>(items@[i + b], #[trigger] w@[b]),
                decreases size - k,
            {
                w.push(items[i + k].clone());
                k = k + 1;
            }
            out.push(w);
            i = i + 1;
        }
        out
    }
}

/// Appends another sequence.
pub struct Concat<T> {
    other: Vec<T>,
}

impl<T> Concat<T> {
    pub fn new(other: Vec<T>) -> (c: Self)
        ensures
            c.other() == other,
    {
        Concat { other }
    }

    pub closed spec fn other(&self) -> Vec<T> {
        self.other
    }
}

impl<T> Operator<Vec<T>> for Concat<T> {
    type Output = Vec<T>;

    open spec fn accepts(&self, input: Vec<T>) -> bool {
        true
    }

    open spec fn produces(&self, input: Vec<T>, output: Vec<T>) -> bool {
        output@ == input@ + self.other()@
    }

    fn eval(self, input: Vec<T>) -> (r: Vec<T>) {
        let mut result = input;
        let mut other = self.other;
        result.append(&mut other);
        result
    }
}

/// Sequence operators for anything a sequence can be piped from.
pub trait SequencePipe<T>: Pipe<Vec<T>> {
    /// Maps each item and flattens the results.
    fn flat_map<U, F: Fn(T) -> Vec<U>>(self, f: F) -> (r: Source<Vec<U>, Applied<Vec<T>, Self::Upstream, FlatMap<F>>>)
        requires
            self.ready(),
            forall|v: Vec<T>| self.yields(v) ==> FlatMap::spec_new(f).accepts(v),
        ensures
            r.is_deferred(),
            forall|w: Vec<U>| r.gives(w) <==> (exists|v: Vec<T>| self.yields(v) && flat_mapped(f, v@, w@)),
    {
        let op = FlatMap::new(f);
        assert(op == FlatMap::spec_new(f));
        self.pipe(op)
    }

    /// Cuts into chunks of `size` items (`size` must not be zero).
    fn chunk(self, size: usize) -> (r: Source<Vec<Vec<T>>, Applied<Vec<T>, Self::Upstream, Chunk>>)
        requires
            self.ready(),
            size > 0,
        ensures
            r.is_deferred(),
            forall|w: Vec<Vec<T>>| r.gives(w) <==> (exists|v: Vec<T>| self.yields(v) && views(w@) == chunks_of(v@, size as nat)),
    {
        self.pipe(Chunk::new(size))
    }

    /// Overlapping windows of `size` items (`size` must not be zero).
    fn window(self, size: usize) -> (r: Source<Vec<Vec<T>>, Applied<Vec<T>, Self::Upstream, Window>>)
        where T: Clone,
        requires
            self.ready(),
            size > 0,
        ensures
            r.is_deferred(),
            forall|w: Vec<Vec<T>>| r.gives(w) <==> (exists|v: Vec<T>| self.yields(v) && windows_of(v@, size as nat, w@)),
    {
        self.pipe(Window::new(size))
    }

    /// Appends `other`.
    fn concat(self, other: Vec<T>) -> (r: Source<Vec<T>, Applied<Vec<T>, Self::Upstream, Concat<T>>>)
        requires
            self.ready(),
        ensures
            r.is_deferred(),
            forall|w: Vec<T>| r.gives(w) <==> (exists|v: Vec<T>| self.yields(v) && w@ == v@ + other@),
    {
        self.pipe(Concat::new(other))
    }
}

impl<T, S: Pipe<Vec<T>>> SequencePipe<T> for S {}

/// Flattening for anything a sequence of sequences can be piped from.
pub trait FlattenPipe<T>: Pipe<Vec<Vec<T>>> {
    /// The sequences one after another.
    fn flatten(self) -> (r: Source<Vec<T>, Applied<Vec<Vec<T>>, Self::Upstream, Flatten<T>>>)
        requires
            self.ready(),
        ensures
            r.is_deferred(),
            forall|w: Vec<T>| r.gives(w) <==> (exists|v: Vec<Vec<T>>| self.yields(v) && w@ == concat_all(views(v@))),
    {
        self.pipe(Flatten::new())
    }
}

impl<T, S: Pipe<Vec<Vec<T>>>> FlattenPipe<T> for S {}

impl<F> FlatMap<F> {
    pub closed spec fn spec_new(f: F) -> Self {
        FlatMap { f }
    }
}

proof fn lemma_concat_all_prepend<T>(x: Seq<T>, rest: Seq<Seq<T>>)
    ensures
        concat_all(seq![x] + rest) == x + concat_all(rest),
    decreases rest.len(),
{
    let all = seq![x] + rest;
    if rest.len() == 0 {
        assert(all =~= seq![x]);
        assert(all.drop_last() =~= Seq::<Seq<T>>::empty());
        assert(concat_all(all.drop_last()) =~= Seq::<T>::empty());
        assert(concat_all(all) =~= x);
        assert(concat_all(rest) =~= Seq::<T>::empty());
        assert(x + concat_all(rest) =~= x);
    } else {
        assert(all.drop_last() =~= seq![x] + rest.drop_last());
        assert(all.last() == rest.last());
        lemma_concat_all_prepend(x, rest.drop_last());
        assert(concat_all(all) == concat_all(seq![x] + rest.drop_last()) + rest.last());
        assert(concat_all(all) =~= x + (concat_all(rest.drop_last()) + rest.last()));
    }
}

/// Cutting a sequence into chunks and flattening them gives the sequence back.
pub proof fn law_chunks_flatten_back<T>(s: Seq<T>, size: nat)
    requires
        size > 0,
    ensures
        concat_all(chunks_of(s, size)) == s,
    decreases s.len(),
{
    if s.len() == 0 {
        assert(chunks_of(s, size) =~= Seq::<Seq<T>>::empty());
        assert(concat_all(chunks_of(s, size)) =~= s);
    } else if s.len() <= size {
        assert(chunks_of(s, size) == seq![s]);
        lemma_concat_all_prepend(s, Seq::<Seq<T>>::empty());
        assert(seq![s] + Seq::<Seq<T>>::empty() =~= seq![s]);
        assert(concat_all(Seq::<Seq<T>>::empty()) =~= Seq::<T>::empty());
        assert(s + Seq::<T>::empty() =~= s);
    } else {
        law_chunks_flatten_back(s.skip(size as int), size);
        lemma_concat_all_prepend(s.take(size as int), chunks_of(s.skip(size as int), size));
        assert(s.take(size as int) + s.skip(size as int) =~= s);
    }
}

} // verus!
