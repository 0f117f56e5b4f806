//! Name-keyed tables of counts, kept sorted by name.
//!
//! Names are ordered the way `str` orders them: code point by code point,
//! a proper prefix first. A table holds at most one entry per name.

use vstd::prelude::*;

verus! {

/// Code-point lexicographic order on strings (the order of `str::cmp`).
pub open spec fn lex_lt(a: Seq<char>, b: Seq<char>) -> bool
    decreases a.len(),
{
    if b.len() == 0 {
        false
    } else if a.len() == 0 {
        true
    } else if a[0] != b[0] {
        a[0] < b[0]
    } else {
        lex_lt(a.drop_first(), b.drop_first())
    }
}

/// No string is before itself.
pub proof fn lemma_lex_irreflexive(a: Seq<char>)
    ensures
        !lex_lt(a, a),
    decreases a.len(),
{
    if a.len() > 0 {
        lemma_lex_irreflexive(a.drop_first());
    }
}

/// The order is transitive.
pub proof fn lemma_lex_transitive(a: Seq<char>, b: Seq<char>, c: Seq<char>)
    requires
        lex_lt(a, b),
        lex_lt(b, c),
    ensures
        lex_lt(a, c),
    decreases a.len(),
{
    if a.len() > 0 && b.len() > 0 && c.len() > 0 && a[0] == b[0] && b[0] == c[0] {
        lemma_lex_transitive(a.drop_first(), b.drop_first(), c.drop_first());
    }
}

/// Of two different strings, one is before the other.
pub proof fn lemma_lex_total(a: Seq<char>, b: Seq<char>)
    requires
        a != b,
    ensures
        lex_lt(a, b) || lex_lt(b, a),
    decreases a.len(),
{
    if a.len() > 0 && b.len() > 0 && a[0] == b[0] {
        let ta = a.drop_first();
        let tb = b.drop_first();
        if ta == tb {
            assert(ta.len() == a.len() - 1);
            assert(tb.len() == b.len() - 1);
            assert(a =~= b) by {
                assert forall|i: int| 0 <= i < a.len() implies a[i] == b[i] by {
                    if i > 0 {
                        assert(a[i] == a.drop_first()[i - 1]);
                        assert(b[i] == b.drop_first()[i - 1]);
                    }
                }
            }
        }
        lemma_lex_total(a.drop_first(), b.drop_first());
    } else if a.len() == 0 && b.len() == 0 {
        assert(a =~= b);
    }
}

proof fn lemma_lex_skip(a: Seq<char>, b: Seq<char>, i: int)
    requires
        0 <= i < a.len(),
        i < b.len(),
        a[i] == b[i],
    ensures
        lex_lt(a.skip(i), b.skip(i)) == lex_lt(a.skip(i + 1), b.skip(i + 1)),
{
    assert(a.skip(i).drop_first() =~= a.skip(i + 1));
    assert(b.skip(i).drop_first() =~= b.skip(i + 1));
}

/// Whether `a` comes before `b` in code-point order.
pub fn str_lt(a: &str, b: &str) -> (r: bool)
    ensures
        r == lex_lt(a@, b@),
{
    let n = a.unicode_len();
    let m = b.unicode_len();
    let mut i: usize = 0;
    proof {
        assert(a@.skip(0) =~= a@);
        assert(b@.skip(0) =~= b@);
    }
    while i < n && i < m
        invariant
            n == a@.len(),
            m == b@.len(),
            i <= n,
            i <= m,
            lex_lt(a@, b@) == lex_lt(a@.skip(i as int), b@.skip(i as int)),
        decreases n - i,
    {
        let x = a.get_char(i);
        let y = b.get_char(i);
        if x != y {
            proof {
                assert(a@.skip(i as int)[0] == x);
                assert(b@.skip(i as int)[0] == y);
            }
            return x < y;
        }
        proof {
            lemma_lex_skip(a@, b@, i as int);
        }
        i = i + 1;
    }
    proof {
        assert(a@.skip(i as int).len() == n - i);
        assert(b@.skip(i as int).len() == m - i);
    }
    i < m
}

/// One named entry of a table.
#[derive(Clone, Debug)]
pub struct Entry<V> {
    pub name: String,
    pub value: V,
}

/// Entries strictly increasing by name (so no name occurs twice).
pub open spec fn sorted_names<V>(s: Seq<Entry<V>>) -> bool {
    forall|i: int, j: int| 0 <= i < j < s.len() ==> lex_lt(#[trigger] s[i].name@, #[trigger] s[j].name@)
}

/// Whether some entry is named `k`.
pub open spec fn table_has<V>(s: Seq<Entry<V>>, k: Seq<char>) -> bool {
    exists|i: int| 0 <= i < s.len() && s[i].name@ == k
}

/// The position of the entry named `k` (meaningful where there is one).
pub open spec fn table_index<V>(s: Seq<Entry<V>>, k: Seq<char>) -> int {
    choose|i: int| 0 <= i < s.len() && s[i].name@ == k
}

/// The value stored under `k`, if any.
pub open spec fn table_get<V>(s: Seq<Entry<V>>, k: Seq<char>) -> Option<V> {
    if table_has(s, k) {
        Some(s[table_index(s, k)].value)
    } else {
        None
    }
}

/// In a sorted table the entry named `k` is the one at the only position holding it.
pub proof fn lemma_table_at<V>(s: Seq<Entry<V>>, i: int)
    requires
        sorted_names(s),
        0 <= i < s.len(),
    ensures
        table_has(s, s[i].name@),
        table_get(s, s[i].name@) == Some(s[i].value),
{
    let k = s[i].name@;
    assert(0 <= i < s.len() && s[i].name@ == k);
    assert(table_has(s, k));
    let j = table_index(s, k);
    assert(j == i) by {
        lemma_lex_irreflexive(k);
        if j < i {
            assert(lex_lt(s[j].name@, s[i].name@));
        } else if j > i {
            assert(lex_lt(s[i].name@, s[j].name@));
        }
    }
}

/// Where `k` is, or where it would go.
fn locate<V>(s: &Vec<Entry<V>>, k: &String) -> (r: (usize, bool))
    requires
        sorted_names(s@),
    ensures
        r.0 <= s@.len(),
        r.1 ==> r.0 < s@.len() && s@[r.0 as int].name@ == k@,
        !r.1 ==> forall|i: int| 0 <= i < s@.len() ==> (i < r.0 <==> lex_lt(#[trigger] s@[i].name@, k@)) && s@[i].name@ != k@,
{
    let mut i: usize = 0;
    while i < s.len() && str_lt(s[i].name.as_str(), k.as_str())
        invariant
            i <= s@.len(),
            sorted_names(s@),
            forall|j: int| 0 <= j < i ==> lex_lt(#[trigger] s@[j].name@, k@),
        decreases s@.len() - i,
    {
        i = i + 1;
    }
    if i < s.len() && s[i].name == *k {
        return (i, true);
    }
    proof {
        assert forall|j: int| 0 <= j < s@.len() implies (j < i <==> lex_lt(#[trigger] s@[j].name@, k@))
            && s@[j].name@ != k@ by {
            if j < i {
                if s@[j].name@ == k@ {
                    lemma_lex_irreflexive(k@);
                }
            } else {
                // s[i] is not before k and is not k, so k is before s[i] <= s[j]
                assert(!lex_lt(s@[i as int].name@, k@));
                assert(s@[i as int].name@ != k@);
                lemma_lex_total(s@[i as int].name@, k@);
                if j > i {
                    assert(lex_lt(s@[i as int].name@, s@[j].name@));
                    lemma_lex_transitive(k@, s@[i as int].name@, s@[j].name@);
                }
                let kj = s@[j].name@;
                lemma_lex_irreflexive(k@);
                if lex_lt(kj, k@) {
                    lemma_lex_transitive(k@, kj, k@);
                }
            }
        }
    }
    (i, false)
}

/// The value stored under `k`, if any.
pub fn table_lookup<V: Copy>(s: &Vec<Entry<V>>, k: &String) -> (r: Option<V>)
    requires
        sorted_names(s@),
    ensures
        r == table_get(s@, k@),
{
    let (i, found) = locate(s, k);
    if found {
        proof {
            lemma_table_at(s@, i as int);
        }
        Some(s[i].value)
    } else {
        None
    }
}

/// Stores `v` under `k`, replacing what was there; the table stays sorted,
/// `k` then finds `v`, and every other name finds what it found before.
pub fn table_store<V: Copy>(s: &mut Vec<Entry<V>>, k: &String, v: V) -> (r: (usize, bool))
    requires
        sorted_names(old(s)@),
    ensures
        r.1 == table_has(old(s)@, k@),
        r.1 ==> r.0 < old(s)@.len() && old(s)@[r.0 as int].name@ == k@,
        r.0 <= old(s)@.len(),
        r.0 < final(s)@.len(),
        final(s)@[r.0 as int].name@ == k@,
        final(s)@[r.0 as int].value == v,
        r.1 ==> final(s)@ == old(s)@.update(r.0 as int, final(s)@[r.0 as int]),
        !r.1 ==> final(s)@ == old(s)@.insert(r.0 as int, final(s)@[r.0 as int]),
        sorted_names(final(s)@),
        table_get(final(s)@, k@) == Some(v),
        forall|n: Seq<char>| n != k@ ==> #[trigger] table_get(final(s)@, n) == table_get(old(s)@, n),
        forall|n: Seq<char>| #[trigger] table_has(final(s)@, n) <==> (table_has(old(s)@, n) || n == k@),
{
    let ghost s0 = s@;
    let (i, found) = locate(s, k);
    let e = Entry { name: k.clone(), value: v };
    proof {
        if found {
            assert(table_has(s0, k@)) by {
                assert(s0[i as int].name@ == k@);
            }
        } else {
            assert(!table_has(s0, k@));
        }
    }
    if found {
        s.set(i, e);
        proof {
            let s1 = s@;
            assert forall|a: int, b: int| 0 <= a < b < s1.len() implies lex_lt(#[trigger] s1[a].name@, #[trigger] s1[b].name@) by {
                assert(s0[a].name@ == s1[a].name@);
                assert(s0[b].name@ == s1[b].name@);
            }
            lemma_table_at(s1, i as int);
            assert forall|n: Seq<char>| n != k@ implies #[trigger] table_get(s1, n) == table_get(s0, n) by {
                if table_has(s0, n) {
                    let j = choose|j: int| 0 <= j < s0.len() && s0[j].name@ == n;
                    lemma_table_at(s0, j);
                    assert(s1[j] == s0[j]);
                    lemma_table_at(s1, j);
                }
                if table_has(s1, n) {
                    let j = choose|j: int| 0 <= j < s1.len() && s1[j].name@ == n;
                    assert(s1[j] == s0[j]);
                }
            }
            assert forall|n: Seq<char>| #[trigger] table_has(s1, n) <==> (table_has(s0, n) || n == k@) by {
                if table_has(s0, n) {
                    let j = choose|j: int| 0 <= j < s0.len() && s0[j].name@ == n;
                    assert(s1[j].name@ == n);
                }
                if table_has(s1, n) {
                    let j = choose|j: int| 0 <= j < s1.len() && s1[j].name@ == n;
                    assert(s0[j].name@ == n);
                }
            }
        }
    } else {
        s.insert(i, e);
        proof {
            let s1 = s@;
            assert(s1 == s0.insert(i as int, e));
            assert forall|a: int, b: int| 0 <= a < b < s1.len() implies lex_lt(#[trigger] s1[a].name@, #[trigger] s1[b].name@) by {
                if a < i && b < i {
                } else if a < i && b == i {
                    assert(lex_lt(s0[a].name@, k@));
                } else if a < i {
                    assert(s1[b] == s0[b - 1]);
                } else if a == i {
                    assert(s1[b] == s0[b - 1]);
                    assert(!lex_lt(s0[b - 1].name@, k@));
                    assert(s0[b - 1].name@ != k@);
                    lemma_lex_total(s0[b - 1].name@, k@);
                } else {
                    assert(s1[a] == s0[a - 1]);
                    assert(s1[b] == s0[b - 1]);
                }
            }
            assert(s1[i as int] == e);
            lemma_table_at(s1, i as int);
            assert forall|n: Seq<char>| n != k@ implies #[trigger] table_get(s1, n) == table_get(s0, n) by {
                if table_has(s0, n) {
                    let j = choose|j: int| 0 <= j < s0.len() && s0[j].name@ == n;
                    lemma_table_at(s0, j);
                    let j1 = if j < i { j } else { j + 1 };
                    assert(s1[j1] == s0[j]);
                    lemma_table_at(s1, j1);
                }
                if table_has(s1, n) {
                    let j = choose|j: int| 0 <= j < s1.len() && s1[j].name@ == n;
                    assert(j != i);
                    let j0 = if j < i { j } else { j - 1 };
                    assert(s1[j] == s0[j0]);
                }
            }
            assert forall|n: Seq<char>| #[trigger] table_has(s1, n) <==> (table_has(s0, n) || n == k@) by {
                if table_has(s0, n) {
                    let j = choose|j: int| 0 <= j < s0.len() && s0[j].name@ == n;
                    let j1 = if j < i { j } else { j + 1 };
                    assert(s1[j1] == s0[j]);
                }
                if table_has(s1, n) {
                    let j = choose|j: int| 0 <= j < s1.len() && s1[j].name@ == n;
                    if j != i {
                        let j0 = if j < i { j } else { j - 1 };
                        assert(s1[j] == s0[j0]);
                    }
                }
            }
        }
    }
    (i, found)
}

} // verus!
