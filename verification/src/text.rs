//! Character-level string helpers shared by the block rules.

use vstd::prelude::*;

verus! {

broadcast use vstd::string::group_string_axioms;

/// `p` is a suffix of `s`.
pub open spec fn seq_ends_with(s: Seq<char>, p: Seq<char>) -> bool {
    p.len() <= s.len() && s.subrange(s.len() - p.len(), s.len() as int) == p
}

/// `p` is a prefix of `s`.
pub open spec fn seq_starts_with(s: Seq<char>, p: Seq<char>) -> bool {
    p.len() <= s.len() && s.subrange(0, p.len() as int) == p
}

/// `p` occurs somewhere in `s` as a contiguous run.
pub open spec fn seq_contains(s: Seq<char>, p: Seq<char>) -> bool {
    exists|i: int| 0 <= i && i + p.len() <= s.len() && #[trigger] s.subrange(i, i + p.len()) == p
}

/// `str == str` from std: true exactly when both hold the same characters.
#[verifier::external_body]
pub(crate) fn str_eq(a: &str, b: &str) -> (r: bool)
    ensures
        r == (a@ == b@),
{
    a == b
}

/// `str::ends_with` from std with a string pattern.
#[verifier::external_body]
pub(crate) fn str_ends_with(s: &str, pat: &str) -> (r: bool)
    ensures
        r == seq_ends_with(s@, pat@),
{
    s.ends_with(pat)
}

/// `str::contains` from std with a string pattern.
#[verifier::external_body]
pub(crate) fn str_contains(s: &str, pat: &str) -> (r: bool)
    ensures
        r == seq_contains(s@, pat@),
{
    s.contains(pat)
}

/// `str::strip_prefix` from std with a string pattern.
#[verifier::external_body]
pub(crate) fn str_strip_prefix<'a>(s: &'a str, pat: &str) -> (r: Option<&'a str>)
    ensures
        r is Some <==> seq_starts_with(s@, pat@),
        r is Some ==> r.unwrap()@ == s@.skip(pat@.len() as int),
{
    s.strip_prefix(pat)
}

/// `String::push` from std: appends one character.
#[verifier::external_body]
pub(crate) fn string_push(s: &mut String, c: char)
    ensures
        final(s)@ == old(s)@.push(c),
{
    s.push(c);
}

/// An owned copy of a string slice.
pub fn owned(s: &str) -> (r: String)
    ensures
        r@ == s@,
{
    s.to_owned()
}

/// The characters of a string slice, in order.
pub fn chars_of(s: &str) -> (v: Vec<char>)
    ensures
        v@ == s@,
{
    let mut v: Vec<char> = Vec::new();
    for c in it: s.chars()
        invariant
            v@ == it.seq().take(it.index() as int),
            it.seq() == s@,
    {
        v.push(c);
    }
    v
}

/// `a` comes strictly before `b` in lexicographic order of code points, a
/// proper prefix first: the order of `String`.
pub open spec fn lex_lt(a: Seq<char>, b: Seq<char>) -> bool
    decreases a.len(),
{
    if a.len() == 0 {
        b.len() > 0
    } else if b.len() == 0 {
        false
    } else if a[0] != b[0] {
        (a[0] as int) < (b[0] as int)
    } else {
        lex_lt(a.drop_first(), b.drop_first())
    }
}

/// No sequence comes before itself, and of two different sequences exactly
/// one comes first.
pub proof fn lemma_lex_total(a: Seq<char>, b: Seq<char>)
    ensures
        !lex_lt(a, a),
        lex_lt(a, b) ==> !lex_lt(b, a),
        a != b ==> lex_lt(a, b) || lex_lt(b, a),
    decreases a.len(),
{
    if a.len() > 0 {
        lemma_lex_total(a.drop_first(), a.drop_first());
        if b.len() > 0 {
            lemma_lex_total(a.drop_first(), b.drop_first());
            if a[0] == b[0] && a != b {
                assert(a =~= seq![a[0]] + a.drop_first());
                assert(b =~= seq![b[0]] + b.drop_first());
            }
        }
    } else if b.len() == 0 {
        assert(a =~= b);
    }
}

/// The order is transitive.
pub proof fn lemma_lex_trans(a: Seq<char>, b: Seq<char>, c: Seq<char>)
    requires
        lex_lt(a, b),
        lex_lt(b, c),
    ensures
        lex_lt(a, c),
    decreases a.len(),
{
    if a.len() > 0 && b.len() > 0 && c.len() > 0 && a[0] == b[0] && b[0] == c[0] {
        lemma_lex_trans(a.drop_first(), b.drop_first(), c.drop_first());
    }
}

proof fn lemma_lex_skip(a: Seq<char>, b: Seq<char>, i: int)
    requires
        0 <= i <= a.len(),
        i <= b.len(),
        a.take(i) == b.take(i),
    ensures
        lex_lt(a, b) == lex_lt(a.skip(i), b.skip(i)),
    decreases i,
{
    if i > 0 {
        assert(a[0] == a.take(i)[0]);
        assert(b[0] == b.take(i)[0]);
        assert(a.drop_first().take(i - 1) =~= a.take(i).drop_first());
        assert(b.drop_first().take(i - 1) =~= b.take(i).drop_first());
        lemma_lex_skip(a.drop_first(), b.drop_first(), i - 1);
        assert(a.drop_first().skip(i - 1) =~= a.skip(i));
        assert(b.drop_first().skip(i - 1) =~= b.skip(i));
    } else {
        assert(a.skip(0) =~= a);
        assert(b.skip(0) =~= b);
    }
}

/// Whether `a` comes strictly before `b`, as `String`s are ordered.
pub fn str_lt(a: &str, b: &str) -> (r: bool)
    ensures
        r == lex_lt(a@, b@),
{
    let ca = chars_of(a);
    let cb = chars_of(b);
    let mut i: usize = 0;
    while i < ca.len() && i < cb.len()
        invariant
            i <= ca@.len(),
            i <= cb@.len(),
            ca@ == a@,
            cb@ == b@,
            ca@.take(i as int) == cb@.take(i as int),
        ensures
            i <= ca@.len(),
            i <= cb@.len(),
            ca@.take(i as int) == cb@.take(i as int),
            i < ca@.len() && i < cb@.len() ==> ca@[i as int] != cb@[i as int],
        decreases ca.len() - i,
    {
        if ca[i] != cb[i] {
            break;
        }
        assert(ca@.take(i + 1) =~= ca@.take(i as int).push(ca@[i as int]));
        assert(cb@.take(i + 1) =~= cb@.take(i as int).push(cb@[i as int]));
        i = i + 1;
    }
    proof {
        lemma_lex_skip(a@, b@, i as int);
        if i < ca.len() && i < cb.len() {
            assert(a@.skip(i as int)[0] == ca@[i as int]);
            assert(b@.skip(i as int)[0] == cb@[i as int]);
        }
    }
    if i == ca.len() {
        i < cb.len()
    } else if i == cb.len() {
        false
    } else {
        ca[i] < cb[i]
    }
}

/// The views of a sequence of strings.
pub open spec fn strings_view(v: Seq<String>) -> Seq<Seq<char>> {
    v.map_values(|x: String| x@)
}

/// Every string comes strictly before every later one.
pub open spec fn strictly_sorted(s: Seq<Seq<char>>) -> bool {
    forall|i: int, j: int| 0 <= i < j < s.len() ==> lex_lt(#[trigger] s[i], #[trigger] s[j])
}

/// Adds `t` to a strictly sorted list of strings unless it is there already;
/// the list stays strictly sorted.
pub fn insert_sorted(v: &mut Vec<String>, t: &str)
    requires
        strictly_sorted(strings_view(old(v)@)),
    ensures
        strictly_sorted(strings_view(final(v)@)),
        forall|x: Seq<char>| strings_view(final(v)@).contains(x) <==> (strings_view(old(v)@).contains(x) || x == t@),
{
    let ghost old_v = strings_view(v@);
    let mut i: usize = 0;
    while i < v.len()
        invariant
            i <= v@.len(),
            strings_view(v@) == old_v,
            strictly_sorted(old_v),
            forall|k: int| 0 <= k < i ==> lex_lt(#[trigger] old_v[k], t@),
        ensures
            i <= v@.len(),
            strings_view(v@) == old_v,
            forall|k: int| 0 <= k < i ==> lex_lt(#[trigger] old_v[k], t@),
            i < v@.len() ==> !lex_lt(old_v[i as int], t@),
        decreases v.len() - i,
    {
        if !str_lt(v[i].as_str(), t) {
            break;
        }
        i = i + 1;
    }
    if i < v.len() && str_eq(v[i].as_str(), t) {
        assert(old_v[i as int] == t@);
        assert(forall|x: Seq<char>| x == t@ ==> old_v.contains(x));
        return;
    }
    proof {
        if i < old_v.len() {
            lemma_lex_total(old_v[i as int], t@);
        }
    }
    v.insert(i, owned(t));
    let ghost new_v = strings_view(v@);
    assert(new_v =~= old_v.insert(i as int, t@));
    assert forall|p: int, q: int| 0 <= p < q < new_v.len() implies lex_lt(#[trigger] new_v[p], #[trigger] new_v[q]) by {
        if q < i {
        } else if q == i {
        } else if p < i {
            assert(old_v[p] == new_v[p]);
            assert(old_v[q - 1] == new_v[q]);
        } else if p == i {
            if q - 1 > i {
                lemma_lex_trans(t@, old_v[i as int], old_v[q - 1]);
            }
        } else {
            assert(old_v[p - 1] == new_v[p]);
            assert(old_v[q - 1] == new_v[q]);
        }
    }
    assert forall|x: Seq<char>| new_v.contains(x) <==> (old_v.contains(x) || x == t@) by {
        if new_v.contains(x) {
            let k = choose|k: int| 0 <= k < new_v.len() && new_v[k] == x;
            if k < i {
                assert(old_v[k] == x);
            } else if k > i {
                assert(old_v[k - 1] == x);
            }
        }
        if old_v.contains(x) {
            let k = choose|k: int| 0 <= k < old_v.len() && old_v[k] == x;
            if k < i {
                assert(new_v[k] == x);
            } else {
                assert(new_v[k + 1] == x);
            }
        }
        if x == t@ {
            assert(new_v[i as int] == x);
        }
    }
}

} // verus!
