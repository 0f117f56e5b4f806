//! File-system paths held as the text they were parsed from.

use vstd::prelude::*;

verus! {

/// One component of a file path, as `std::path::Path::components` yields it
/// on Unix.
pub enum PathComponent {
    RootDir,
    CurDir,
    ParentDir,
    Normal(Seq<char>),
}

/// The `/`-separated pieces of `s`, empty pieces included.
pub open spec fn pieces(s: Seq<char>) -> Seq<Seq<char>>
    decreases s.len(),
{
    if s.len() == 0 {
        seq![Seq::<char>::empty()]
    } else {
        let rest = pieces(s.drop_first());
        if s[0] == '/' {
            seq![Seq::<char>::empty()] + rest
        } else {
            rest.update(0, seq![s[0]] + rest[0])
        }
    }
}

/// The components of the pieces from index `i` on: empty pieces and `.`
/// are dropped, `..` is a parent component, anything else a normal one.
pub open spec fn inner_components(ps: Seq<Seq<char>>, i: int) -> Seq<PathComponent>
    decreases ps.len() - i,
{
    if i >= ps.len() || i < 0 {
        Seq::empty()
    } else {
        let p = ps[i];
        let rest = inner_components(ps, i + 1);
        if p.len() == 0 || p == seq!['.'] {
            rest
        } else if p == seq!['.', '.'] {
            seq![PathComponent::ParentDir] + rest
        } else {
            seq![PathComponent::Normal(p)] + rest
        }
    }
}

/// The components `std::path::Path::components` gives for a Unix path: a root
/// for a leading `/`, a current-directory component for a leading `.` piece
/// of a relative path, then the remaining pieces without empty ones and `.`.
pub open spec fn components_spec(s: Seq<char>) -> Seq<PathComponent> {
    let ps = pieces(s);
    if s.len() > 0 && s[0] == '/' {
        seq![PathComponent::RootDir] + inner_components(ps, 1)
    } else if ps[0] == seq!['.'] {
        seq![PathComponent::CurDir] + inner_components(ps, 1)
    } else {
        inner_components(ps, 0)
    }
}

/// The final component's name, if that component is a normal one.
pub open spec fn file_name_spec(s: Seq<char>) -> Option<Seq<char>> {
    let cs = components_spec(s);
    if cs.len() > 0 && cs.last() is Normal {
        Some(cs.last()->Normal_0)
    } else {
        None
    }
}

/// A component of a path, as computed; its view is the `PathComponent`.
pub enum Component {
    RootDir,
    CurDir,
    ParentDir,
    Normal(Vec<char>),
}

impl View for Component {
    type V = PathComponent;

    open spec fn view(&self) -> PathComponent {
        match self {
            Component::RootDir => PathComponent::RootDir,
            Component::CurDir => PathComponent::CurDir,
            Component::ParentDir => PathComponent::ParentDir,
            Component::Normal(v) => PathComponent::Normal(v@),
        }
    }
}

/// The `/`-separated pieces of `v`, computed.
fn split_pieces(v: &Vec<char>) -> (r: Vec<Vec<char>>)
    ensures
        r@.len() == pieces(v@).len(),
        forall|k: int| 0 <= k < r@.len() ==> #[trigger] r@[k]@ == pieces(v@)[k],
    decreases v@.len(),
{
    let n = v.len();
    // Walk from the end so that each step matches the recursion of `pieces`.
    let mut r: Vec<Vec<char>> = Vec::new();
    r.push(Vec::new());
    let mut i: usize = n;
    while i > 0
        invariant
            i <= n == v@.len(),
            r@.len() == pieces(v@.subrange(i as int, n as int)).len(),
            r@.len() > 0,
            forall|k: int| 0 <= k < r@.len() ==> #[trigger] r@[k]@ == pieces(
                v@.subrange(i as int, n as int),
            )[k],
        decreases i,
    {
        let c = v[i - 1];
        let ghost old_r = r@;
        let ghost tail = v@.subrange(i as int, n as int);
        let ghost whole = v@.subrange(i - 1, n as int);
        proof {
            assert(whole.drop_first() =~= tail);
            assert(whole[0] == c);
        }
        if c == '/' {
            let mut next: Vec<Vec<char>> = Vec::new();
            next.push(Vec::new());
            let mut k: usize = 0;
            while k < r.len()
                invariant
                    r@ == old_r,
                    next@.len() == k + 1,
                    k <= r@.len(),
                    next@[0]@ == Seq::<char>::empty(),
                    forall|m: int| 0 <= m < k ==> #[trigger] next@[m + 1]@ == r@[m]@,
                decreases r@.len() - k,
            {
                next.push(clone_chars(&r[k]));
                k = k + 1;
            }
            proof {
                let pw = pieces(whole);
                assert(pw == seq![Seq::<char>::empty()] + pieces(tail));
                assert forall|m: int| 0 <= m < next@.len() implies #[trigger] next@[m]@ == pw[m] by {
                    if m > 0 {
                        assert(next@[(m - 1) + 1]@ == old_r[m - 1]@);
                    }
                }
            }
            r = next;
        } else {
            let mut first: Vec<char> = Vec::new();
            first.push(c);
            let mut k: usize = 0;
            while k < r[0].len()
                invariant
                    r@ == old_r,
                    r@.len() > 0,
                    k <= r@[0]@.len(),
                    first@ == seq![c] + r@[0]@.subrange(0, k as int),
                decreases r@[0]@.len() - k,
            {
                first.push(r[0][k]);
                proof {
                    assert(r@[0]@.subrange(0, k + 1) =~= r@[0]@.subrange(0, k as int).push(r@[0]@[k as int]));
                }
                k = k + 1;
            }
            proof {
                assert(r@[0]@.subrange(0, r@[0]@.len() as int) =~= r@[0]@);
            }
            r.set(0, first);
            proof {
                let pw = pieces(whole);
                let pt = pieces(tail);
                assert(pw == pt.update(0, seq![c] + pt[0]));
                assert forall|m: int| 0 <= m < r@.len() implies #[trigger] r@[m]@ == pw[m] by {
                    if m > 0 {
                        assert(r@[m] == old_r[m]);
                    }
                }
            }
        }
        i = i - 1;
        proof {
            assert(v@.subrange(i as int, n as int) =~= whole);
        }
    }
    assert(v@.subrange(0, n as int) =~= v@);
    r
}

fn clone_chars(v: &Vec<char>) -> (r: Vec<char>)
    ensures
        r@ == v@,
{
    let mut r: Vec<char> = Vec::new();
    let mut i: usize = 0;
    while i < v.len()
        invariant
            i <= v@.len(),
            r@ == v@.subrange(0, i as int),
        decreases v@.len() - i,
    {
        r.push(v[i]);
        i = i + 1;
    }
    r
}

fn is_dot(p: &Vec<char>) -> (b: bool)
    ensures
        b == (p@ == seq!['.']),
{
    if p.len() == 1 && p[0] == '.' {
        assert(p@ =~= seq!['.']);
        true
    } else {
        false
    }
}

fn is_dot_dot(p: &Vec<char>) -> (b: bool)
    ensures
        b == (p@ == seq!['.', '.']),
{
    if p.len() == 2 && p[0] == '.' && p[1] == '.' {
        assert(p@ =~= seq!['.', '.']);
        true
    } else {
        false
    }
}

/// The components of the path text `s`, as `Path::components` yields them.
pub fn components(s: &str) -> (r: Vec<Component>)
    ensures
        r@.len() == components_spec(s@).len(),
        forall|k: int| 0 <= k < r@.len() ==> #[trigger] r@[k]@ == components_spec(s@)[k],
{
    let v = crate::text::chars_of(s);
    let ps = split_pieces(&v);
    proof {
        lemma_pieces_nonempty(v@);
    }
    let mut out: Vec<Component> = Vec::new();
    let start: usize;
    if v.len() > 0 && v[0] == '/' {
        out.push(Component::RootDir);
        start = 1;
    } else if is_dot(&ps[0]) {
        out.push(Component::CurDir);
        start = 1;
    } else {
        start = 0;
    }
    let ghost head = out@.map_values(|c: Component| c@);
    // Collect the inner components from the end backwards.
    let mut inner: Vec<Component> = Vec::new();
    let mut i: usize = ps.len();
    while i > start
        invariant
            start <= i <= ps@.len(),
            ps@.len() == pieces(v@).len(),
            forall|k: int| 0 <= k < ps@.len() ==> #[trigger] ps@[k]@ == pieces(v@)[k],
            inner@.len() == inner_components(pieces(v@), i as int).len(),
            forall|k: int| 0 <= k < inner@.len() ==> #[trigger] inner@[inner@.len() - 1 - k]@
                == inner_components(pieces(v@), i as int)[k],
        decreases i,
    {
        let p = &ps[i - 1];
        let ghost ic = inner_components(pieces(v@), i as int);
        assert(p@ == pieces(v@)[i - 1]);
        let ghost old_inner = inner@;
        proof {
            reveal_with_fuel(inner_components, 2);
        }
        if p.len() == 0 || is_dot(p) {
            assert(inner_components(pieces(v@), i - 1) == ic);
        } else {
            let comp = if is_dot_dot(p) {
                Component::ParentDir
            } else {
                Component::Normal(clone_chars(p))
            };
            let ghost cv = comp@;
            inner.push(comp);
            proof {
                let ic2 = inner_components(pieces(v@), i - 1);
                assert(ic2 == seq![cv] + ic);
                assert forall|k: int| 0 <= k < inner@.len() implies #[trigger] inner@[inner@.len() - 1 - k]@
                    == ic2[k] by {
                    if k > 0 {
                        assert(inner@[inner@.len() - 1 - k] == old_inner[old_inner.len() - 1 - (k - 1)]);
                    }
                }
            }
        }
        i = i - 1;
    }
    let mut k: usize = inner.len();
    let ghost base = out@.len();
    while k > 0
        invariant
            k <= inner@.len(),
            out@.len() == base + (inner@.len() - k),
            base == if start == 1 { 1int } else { 0int },
            start == 1 ==> (out@[0]@ == if v@.len() > 0 && v@[0] == '/' { PathComponent::RootDir } else { PathComponent::CurDir }),
            forall|m: int| 0 <= m < inner@.len() - k ==> #[trigger] out@[base + m]@ == inner@[inner@.len() - 1 - m]@,
        decreases k,
    {
        let c = match &inner[k - 1] {
            Component::RootDir => Component::RootDir,
            Component::CurDir => Component::CurDir,
            Component::ParentDir => Component::ParentDir,
            Component::Normal(x) => Component::Normal(clone_chars(x)),
        };
        out.push(c);
        k = k - 1;
    }
    proof {
        let cs = components_spec(v@);
        let ic = inner_components(pieces(v@), start as int);
        if v@.len() > 0 && v@[0] == '/' {
            assert(cs =~= seq![PathComponent::RootDir] + ic);
        } else if pieces(v@)[0] == seq!['.'] {
            assert(cs =~= seq![PathComponent::CurDir] + ic);
        } else {
            assert(cs =~= ic);
        }
        assert forall|k: int| 0 <= k < out@.len() implies #[trigger] out@[k]@ == cs[k] by {
            if k >= base {
                assert(out@[base + (k - base)]@ == inner@[inner@.len() - 1 - (k - base)]@);
            }
        }
    }
    out
}

proof fn lemma_pieces_nonempty(s: Seq<char>)
    ensures
        pieces(s).len() >= 1,
        s.len() > 0 && s[0] == '/' ==> pieces(s)[0] == Seq::<char>::empty(),
    decreases s.len(),
{
    if s.len() > 0 {
        lemma_pieces_nonempty(s.drop_first());
    }
}

/// A non-empty text that does not start with `/` has a non-empty first piece
/// starting with its first character.
proof fn lemma_first_piece(s: Seq<char>)
    requires
        s.len() > 0,
        s[0] != '/',
    ensures
        pieces(s)[0].len() > 0,
        pieces(s)[0][0] == s[0],
{
    lemma_pieces_nonempty(s.drop_first());
}

/// A path has no components exactly when its text is empty: so a parsed
/// path's length is zero exactly when it is empty.
pub proof fn law_no_components_iff_empty(s: Seq<char>)
    ensures
        (components_spec(s).len() == 0) <==> (s.len() == 0),
{
    if s.len() == 0 {
        let ps = pieces(s);
        assert(ps == seq![Seq::<char>::empty()]);
        assert(ps[0].len() == 0);
        assert(ps[0] != seq!['.']);
        assert(inner_components(ps, 1) == Seq::<PathComponent>::empty());
    } else if s[0] != '/' {
        lemma_first_piece(s);
        lemma_pieces_nonempty(s);
        let ps = pieces(s);
        let p = ps[0];
        if p != seq!['.'] {
            let rest = inner_components(ps, 1);
            if p == seq!['.', '.'] {
                assert(inner_components(ps, 0) == seq![PathComponent::ParentDir] + rest);
            } else {
                assert(inner_components(ps, 0) == seq![PathComponent::Normal(p)] + rest);
            }
        }
    }
}

/// A file-system path.
#[derive(Debug, Clone)]
pub struct FilePath(String);

impl View for FilePath {
    type V = Seq<char>;

    /// The text of the path.
    closed spec fn view(&self) -> Seq<char> {
        self.0@
    }
}

impl FilePath {
    /// The path with the given text.
    pub fn parse(input: &str) -> (p: Self)
        ensures
            p@ == input@,
    {
        FilePath(String::from_str(input))
    }

    /// Number of components of the path.
    pub fn len(&self) -> (n: usize)
        ensures
            n as nat == components_spec(self@).len(),
    {
        let cs = components(self.0.as_str());
        cs.len()
    }

    /// Whether the path text is empty.
    pub fn is_empty(&self) -> (b: bool)
        ensures
            b == (self@.len() == 0),
            b == (components_spec(self@).len() == 0),
    {
        proof {
            law_no_components_iff_empty(self@);
        }
        self.0.as_str().unicode_len() == 0
    }

    /// Name of the final component, if it is a normal component (not the
    /// root, `.` or `..`).
    pub fn file_name(&self) -> (r: Option<String>)
        ensures
            match r {
                Some(n) => file_name_spec(self@) == Some(n@),
                None => file_name_spec(self@) is None,
            },
    {
        let cs = components(self.0.as_str());
        let n = cs.len();
        if n == 0 {
            return None;
        }
        let last = &cs[n - 1];
        assert(cs@[n - 1]@ == components_spec(self@)[n - 1]);
        match last {
            Component::Normal(name) => Some(crate::text::string_of(name)),
            _ => None,
        }
    }

    /// The path text.
    pub fn to_string(&self) -> (s: String)
        ensures
            s@ == self@,
    {
        self.0.clone()
    }

    /// An equal copy.
    pub fn duplicate(&self) -> (p: Self)
        ensures
            p == *self,
    {
        FilePath(self.0.clone())
    }
}

} // verus!
