//! The syntax of field paths and URIs, as small state machines over characters.

use vstd::prelude::*;

verus! {

/// Characters allowed in a field name.
pub open spec fn is_name_char_spec(c: char) -> bool {
    ('a' <= c && c <= 'z') || ('A' <= c && c <= 'Z') || ('0' <= c && c <= '9') || c == '_' || c == '-'
}

pub open spec fn is_digit_spec(c: char) -> bool {
    '0' <= c && c <= '9'
}

pub open spec fn is_alpha_spec(c: char) -> bool {
    ('a' <= c && c <= 'z') || ('A' <= c && c <= 'Z')
}

/// One step of the field-path recognizer. States: 0 expects a name, 1 is in
/// a name, 2 follows `[`, 3 is in an index, 4 follows `]`, 5 has failed.
pub open spec fn field_step(st: u8, c: char) -> u8 {
    if st == 0 {
        if is_name_char_spec(c) { 1 } else { 5 }
    } else if st == 1 {
        if is_name_char_spec(c) { 1 } else if c == '.' { 0 } else if c == '[' { 2 } else { 5 }
    } else if st == 2 {
        if is_digit_spec(c) { 3 } else { 5 }
    } else if st == 3 {
        if is_digit_spec(c) { 3 } else if c == ']' { 4 } else { 5 }
    } else if st == 4 {
        if c == '.' { 0 } else if c == '[' { 2 } else { 5 }
    } else {
        5
    }
}

/// The recognizer's state after reading `s`.
pub open spec fn field_state(s: Seq<char>) -> u8
    decreases s.len(),
{
    if s.len() == 0 {
        0
    } else {
        field_step(field_state(s.drop_last()), s.last())
    }
}

/// A field path: `.`-separated names, each followed by any number of
/// `[index]` suffixes, e.g. `data.items[0].name`.
pub open spec fn is_field_path_spec(s: Seq<char>) -> bool {
    field_state(s) == 1 || field_state(s) == 4
}

/// One step of the URI recognizer. States: 0 expects the scheme's first
/// letter, 1 is in the scheme, 2 follows the `:`, 3 is in the rest, 4 has failed.
pub open spec fn uri_step(st: u8, c: char) -> u8 {
    if st == 0 {
        if is_alpha_spec(c) { 1 } else { 4 }
    } else if st == 1 {
        if is_alpha_spec(c) || is_digit_spec(c) || c == '+' || c == '-' || c == '.' {
            1
        } else if c == ':' {
            2
        } else {
            4
        }
    } else if st == 2 || st == 3 {
        if crate::text::is_space_spec(c) { 4 } else { 3 }
    } else {
        4
    }
}

pub open spec fn uri_state(s: Seq<char>) -> u8
    decreases s.len(),
{
    if s.len() == 0 {
        0
    } else {
        uri_step(uri_state(s.drop_last()), s.last())
    }
}

/// A URI: a scheme (a letter, then letters, digits, `+`, `-` or `.`), a `:`,
/// and a non-empty rest without whitespace.
pub open spec fn is_uri_spec(s: Seq<char>) -> bool {
    uri_state(s) == 3
}

/// `root`, the name of a document's top entity, is a field path.
pub proof fn lemma_root_is_field_path()
    ensures
        is_field_path_spec("root"@),
{
    reveal_strlit("root");
    let s = "root"@;
    let s3 = seq!['r', 'o', 'o'];
    let s2 = seq!['r', 'o'];
    let s1 = seq!['r'];
    assert(s =~= seq!['r', 'o', 'o', 't']);
    assert(s.drop_last() =~= s3);
    assert(s3.drop_last() =~= s2);
    assert(s2.drop_last() =~= s1);
    assert(s1.drop_last() =~= Seq::<char>::empty());
    assert(field_state(Seq::<char>::empty()) == 0);
    assert(s1.last() == 'r' && s2.last() == 'o' && s3.last() == 'o' && s.last() == 't');
    assert(field_state(s1) == 1);
    assert(field_state(s2) == 1);
    assert(field_state(s3) == 1);
    assert(field_state(s) == 1);
}

/// The recognizer's state after reading `t`, starting from state `st`.
pub open spec fn field_run(st: u8, t: Seq<char>) -> u8
    decreases t.len(),
{
    if t.len() == 0 {
        st
    } else {
        field_step(field_run(st, t.drop_last()), t.last())
    }
}

/// A field name: one or more name characters.
pub open spec fn is_field_name(s: Seq<char>) -> bool {
    s.len() > 0 && forall|k: int| 0 <= k < s.len() ==> is_name_char_spec(#[trigger] s[k])
}

/// An index: one or more decimal digits.
pub open spec fn is_index_digits(s: Seq<char>) -> bool {
    s.len() > 0 && forall|k: int| 0 <= k < s.len() ==> is_digit_spec(#[trigger] s[k])
}

/// Reading `s` and then `t` ends where reading `t` from the state after `s` ends.
proof fn lemma_field_state_concat(s: Seq<char>, t: Seq<char>)
    ensures
        field_state(s + t) == field_run(field_state(s), t),
    decreases t.len(),
{
    if t.len() == 0 {
        assert(s + t =~= s);
    } else {
        lemma_field_state_concat(s, t.drop_last());
        assert((s + t).drop_last() =~= s + t.drop_last());
        assert((s + t).last() == t.last());
    }
}

/// Reading one more character is one step.
proof fn lemma_field_state_push(s: Seq<char>, c: char)
    ensures
        field_state(s + seq![c]) == field_step(field_state(s), c),
{
    assert((s + seq![c]).drop_last() =~= s);
    assert((s + seq![c]).last() == c);
}

/// A name read where a name may start or go on leaves the recognizer in a name.
proof fn lemma_field_run_name(st: u8, t: Seq<char>)
    requires
        st == 0 || st == 1,
        is_field_name(t),
    ensures
        field_run(st, t) == 1,
    decreases t.len(),
{
    assert(is_name_char_spec(t[t.len() - 1]));
    assert(t.last() == t[t.len() - 1]);
    if t.len() == 1 {
        assert(t.drop_last() =~= Seq::<char>::empty());
        assert(field_run(st, t.drop_last()) == st);
    } else {
        let u = t.drop_last();
        assert forall|k: int| 0 <= k < u.len() implies is_name_char_spec(#[trigger] u[k]) by {
            assert(u[k] == t[k]);
        }
        lemma_field_run_name(st, u);
    }
}

/// Digits read after `[` leave the recognizer in an index.
proof fn lemma_field_run_digits(st: u8, t: Seq<char>)
    requires
        st == 2 || st == 3,
        is_index_digits(t),
    ensures
        field_run(st, t) == 3,
    decreases t.len(),
{
    assert(is_digit_spec(t[t.len() - 1]));
    assert(t.last() == t[t.len() - 1]);
    if t.len() == 1 {
        assert(t.drop_last() =~= Seq::<char>::empty());
        assert(field_run(st, t.drop_last()) == st);
    } else {
        let u = t.drop_last();
        assert forall|k: int| 0 <= k < u.len() implies is_digit_spec(#[trigger] u[k]) by {
            assert(u[k] == t[k]);
        }
        lemma_field_run_digits(st, u);
    }
}

/// A single field name is a field path.
pub proof fn law_name_is_field_path(a: Seq<char>)
    requires
        is_field_name(a),
    ensures
        is_field_path_spec(a),
{
    lemma_field_state_concat(Seq::<char>::empty(), a);
    assert(Seq::<char>::empty() + a =~= a);
    lemma_field_run_name(0, a);
}

/// A field path, a `.` and a field name make a field path, whether the path
/// ends in a name or in an index: `data.items[0]` followed by `.name`.
pub proof fn law_dot_name_is_field_path(p: Seq<char>, b: Seq<char>)
    requires
        is_field_path_spec(p),
        is_field_name(b),
    ensures
        is_field_path_spec(p + seq!['.'] + b),
{
    let q = p + seq!['.'];
    lemma_field_state_push(p, '.');
    assert(field_state(q) == 0);
    lemma_field_state_concat(q, b);
    lemma_field_run_name(0, b);
}

/// A field path followed by `[`, one or more digits and `]` is a field path:
/// `data.items` followed by `[0]`, or `m[1]` followed by `[2]`.
pub proof fn law_index_is_field_path(p: Seq<char>, n: Seq<char>)
    requires
        is_field_path_spec(p),
        is_index_digits(n),
    ensures
        is_field_path_spec(p + seq!['['] + n + seq![']']),
{
    let q = p + seq!['['];
    lemma_field_state_push(p, '[');
    assert(field_state(q) == 2);
    let r = q + n;
    lemma_field_state_concat(q, n);
    lemma_field_run_digits(2, n);
    assert(field_state(r) == 3);
    lemma_field_state_push(r, ']');
}

fn is_name_char(c: char) -> (b: bool)
    ensures
        b == is_name_char_spec(c),
{
    ('a' <= c && c <= 'z') || ('A' <= c && c <= 'Z') || ('0' <= c && c <= '9') || c == '_' || c == '-'
}

fn field_step_exec(st: u8, c: char) -> (r: u8)
    ensures
        r == field_step(st, c),
{
    let digit = '0' <= c && c <= '9';
    if st == 0 {
        if is_name_char(c) { 1 } else { 5 }
    } else if st == 1 {
        if is_name_char(c) { 1 } else if c == '.' { 0 } else if c == '[' { 2 } else { 5 }
    } else if st == 2 {
        if digit { 3 } else { 5 }
    } else if st == 3 {
        if digit { 3 } else if c == ']' { 4 } else { 5 }
    } else if st == 4 {
        if c == '.' { 0 } else if c == '[' { 2 } else { 5 }
    } else {
        5
    }
}

fn uri_step_exec(st: u8, c: char) -> (r: u8)
    ensures
        r == uri_step(st, c),
{
    let alpha = ('a' <= c && c <= 'z') || ('A' <= c && c <= 'Z');
    let digit = '0' <= c && c <= '9';
    if st == 0 {
        if alpha { 1 } else { 4 }
    } else if st == 1 {
        if alpha || digit || c == '+' || c == '-' || c == '.' {
            1
        } else if c == ':' {
            2
        } else {
            4
        }
    } else if st == 2 || st == 3 {
        if crate::text::is_space(c) { 4 } else { 3 }
    } else {
        4
    }
}

/// Whether `s` is a field path.
pub fn is_field_path(s: &str) -> (b: bool)
    ensures
        b == is_field_path_spec(s@),
{
    let v = crate::text::chars_of(s);
    let mut st: u8 = 0;
    let mut i: usize = 0;
    while i < v.len()
        invariant
            i <= v@.len(),
            st == field_state(v@.subrange(0, i as int)),
        decreases v@.len() - i,
    {
        proof {
            let p = v@.subrange(0, i + 1);
            assert(p.drop_last() =~= v@.subrange(0, i as int));
        }
        st = field_step_exec(st, v[i]);
        i = i + 1;
    }
    assert(v@.subrange(0, v@.len() as int) =~= v@);
    st == 1 || st == 4
}

/// Whether `s` is a URI.
pub fn is_uri(s: &str) -> (b: bool)
    ensures
        b == is_uri_spec(s@),
{
    let v = crate::text::chars_of(s);
    let mut st: u8 = 0;
    let mut i: usize = 0;
    while i < v.len()
        invariant
            i <= v@.len(),
            st == uri_state(v@.subrange(0, i as int)),
        decreases v@.len() - i,
    {
        proof {
            let p = v@.subrange(0, i + 1);
            assert(p.drop_last() =~= v@.subrange(0, i as int));
        }
        st = uri_step_exec(st, v[i]);
        i = i + 1;
    }
    assert(v@.subrange(0, v@.len() as int) =~= v@);
    st == 3
}

} // verus!
