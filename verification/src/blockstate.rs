//! Block-state strings such as `minecraft:oak_stairs[facing=east,half=top]`:
//! the id before the first `[`, and the `key=value` pairs between the first
//! and the second `[` (trailing `]` removed), separated by commas.

use vstd::prelude::*;

use crate::model::{Block, BlockView, pair_view};
use crate::text::{chars_of, string_push};

verus! {

/// The index of the first `c` in `s` at or after `i`.
pub open spec fn first_index(s: Seq<char>, c: char, i: int) -> Option<int>
    decreases s.len() - i,
{
    if i < 0 || i >= s.len() {
        None
    } else if s[i] == c {
        Some(i)
    } else {
        first_index(s, c, i + 1)
    }
}

/// What [`first_index`] finds.
pub proof fn lemma_first_index(s: Seq<char>, c: char, i: int)
    requires
        0 <= i,
    ensures
        match first_index(s, c, i) {
            Some(k) => i <= k < s.len() && s[k] == c && forall|j: int| i <= j < k ==> s[j] != c,
            None => forall|j: int| i <= j < s.len() ==> s[j] != c,
        },
    decreases s.len() - i,
{
    if i < s.len() && s[i] != c {
        lemma_first_index(s, c, i + 1);
    }
}

/// The part of a block-state string before the first `[`.
pub open spec fn state_name(s: Seq<char>) -> Seq<char> {
    match first_index(s, '[', 0) {
        Some(i) => s.take(i),
        None => s,
    }
}

/// `s` without its trailing `]` characters.
pub open spec fn trim_closing(s: Seq<char>) -> Seq<char>
    decreases s.len(),
{
    if s.len() > 0 && s.last() == ']' {
        trim_closing(s.drop_last())
    } else {
        s
    }
}

/// The property text: between the first and the second `[`, without
/// trailing `]`; empty when there is no `[`.
pub open spec fn state_props_text(s: Seq<char>) -> Seq<char> {
    match first_index(s, '[', 0) {
        Some(i) => {
            let rest = s.skip(i + 1);
            match first_index(rest, '[', 0) {
                Some(k) => trim_closing(rest.take(k)),
                None => trim_closing(rest),
            }
        },
        None => Seq::empty(),
    }
}

/// The pieces of `s` between the characters `c`.
pub open spec fn split_on(s: Seq<char>, c: char) -> Seq<Seq<char>>
    decreases s.len(),
{
    match first_index(s, c, 0) {
        Some(i) => {
            proof {
                lemma_first_index(s, c, 0);
            }
            seq![s.take(i)] + split_on(s.skip(i + 1), c)
        },
        None => seq![s],
    }
}

/// A `key=value` piece: the key before the first `=`, not empty, and the
/// rest after it.
pub open spec fn pair_of(p: Seq<char>) -> Option<(Seq<char>, Seq<char>)> {
    match first_index(p, '=', 0) {
        Some(i) => if i > 0 { Some((p.take(i), p.skip(i + 1))) } else { None },
        None => None,
    }
}

/// The pairs of the given pieces, in order, skipping pieces that are not pairs.
pub open spec fn pairs_of(ps: Seq<Seq<char>>) -> Seq<(Seq<char>, Seq<char>)>
    decreases ps.len(),
{
    if ps.len() == 0 {
        Seq::empty()
    } else {
        let head = match pair_of(ps[0]) {
            Some(kv) => seq![kv],
            None => Seq::empty(),
        };
        head + pairs_of(ps.drop_first())
    }
}

/// The properties of a block-state string.
pub open spec fn state_props(s: Seq<char>) -> Seq<(Seq<char>, Seq<char>)> {
    let t = state_props_text(s);
    if t.len() == 0 {
        Seq::empty()
    } else {
        pairs_of(split_on(t, ','))
    }
}

/// The block a block-state string describes; its texture is its id.
pub open spec fn block_of_state(s: Seq<char>) -> BlockView {
    BlockView { name: state_name(s), texture: state_name(s), properties: state_props(s) }
}

/// The string of the characters `cs[lo..hi]`.
fn string_of(cs: &Vec<char>, lo: usize, hi: usize) -> (r: String)
    requires
        lo <= hi <= cs@.len(),
    ensures
        r@ == cs@.subrange(lo as int, hi as int),
{
    let mut r = String::new();
    let mut i = lo;
    while i < hi
        invariant
            lo <= i <= hi <= cs@.len(),
            r@ == cs@.subrange(lo as int, i as int),
        decreases hi - i,
    {
        string_push(&mut r, cs[i]);
        i = i + 1;
        assert(r@ =~= cs@.subrange(lo as int, i as int));
    }
    r
}

/// The first `c` in `cs[lo..hi]`.
fn find_in(cs: &Vec<char>, c: char, lo: usize, hi: usize) -> (r: Option<usize>)
    requires
        lo <= hi <= cs@.len(),
    ensures
        match r {
            Some(i) => first_index(cs@.subrange(lo as int, hi as int), c, 0) == Some(i - lo) && lo <= i < hi,
            None => first_index(cs@.subrange(lo as int, hi as int), c, 0) is None,
        },
{
    let ghost s = cs@.subrange(lo as int, hi as int);
    let mut i = lo;
    while i < hi
        invariant
            lo <= i <= hi <= cs@.len(),
            s == cs@.subrange(lo as int, hi as int),
            first_index(s, c, 0) == first_index(s, c, i - lo),
        decreases hi - i,
    {
        if cs[i] == c {
            return Some(i);
        }
        i = i + 1;
    }
    None
}

proof fn lemma_trim_closing_prefix(s: Seq<char>, k: int)
    requires
        0 <= k <= s.len(),
        forall|j: int| k <= j < s.len() ==> s[j] == ']',
        k == 0 || s[k - 1] != ']',
    ensures
        trim_closing(s) == s.take(k),
    decreases s.len(),
{
    if s.len() > k {
        assert(s.drop_last().len() < s.len());
        lemma_trim_closing_prefix(s.drop_last(), k);
        assert(s.drop_last().take(k) =~= s.take(k));
    } else {
        assert(s.take(k) =~= s);
    }
}

/// The end of `cs[lo..hi]` once trailing `]` are removed.
fn trim_end(cs: &Vec<char>, lo: usize, hi: usize) -> (r: usize)
    requires
        lo <= hi <= cs@.len(),
    ensures
        lo <= r <= hi,
        trim_closing(cs@.subrange(lo as int, hi as int)) == cs@.subrange(lo as int, r as int),
{
    let mut e = hi;
    while e > lo && cs[e - 1] == ']'
        invariant
            lo <= e <= hi <= cs@.len(),
            forall|j: int| e <= j < hi ==> cs@[j] == ']',
        decreases e,
    {
        e = e - 1;
    }
    proof {
        let s = cs@.subrange(lo as int, hi as int);
        lemma_trim_closing_prefix(s, e - lo);
        assert(s.take(e - lo) =~= cs@.subrange(lo as int, e as int));
    }
    e
}

pub open spec fn pairs_view(v: Seq<(String, String)>) -> Seq<(Seq<char>, Seq<char>)> {
    v.map_values(|p: (String, String)| pair_view(p))
}

/// The pair of the piece `cs[a..b]`, if it is one.
fn pair_in(cs: &Vec<char>, a: usize, b: usize) -> (r: Option<(String, String)>)
    requires
        a <= b <= cs@.len(),
    ensures
        match r {
            Some(kv) => pair_of(cs@.subrange(a as int, b as int)) == Some(pair_view(kv)),
            None => pair_of(cs@.subrange(a as int, b as int)) is None,
        },
{
    let ghost p = cs@.subrange(a as int, b as int);
    match find_in(cs, '=', a, b) {
        Some(i) => {
            if i > a {
                let k = string_of(cs, a, i);
                let v = string_of(cs, i + 1, b);
                assert(p.take(i - a) =~= cs@.subrange(a as int, i as int));
                assert(p.skip(i - a + 1) =~= cs@.subrange(i + 1, b as int));
                Some((k, v))
            } else {
                None
            }
        },
        None => None,
    }
}

/// The pairs of the comma-separated pieces of `cs[lo..hi]`.
fn parse_pairs(cs: &Vec<char>, lo: usize, hi: usize) -> (r: Vec<(String, String)>)
    requires
        lo <= hi <= cs@.len(),
    ensures
        pairs_view(r@) == pairs_of(split_on(cs@.subrange(lo as int, hi as int), ',')),
{
    let ghost whole = pairs_of(split_on(cs@.subrange(lo as int, hi as int), ','));
    let mut out: Vec<(String, String)> = Vec::new();
    let mut start = lo;
    let mut done = false;
    while !done
        invariant
            lo <= start <= hi <= cs@.len(),
            !done ==> whole == pairs_view(out@) + pairs_of(split_on(cs@.subrange(start as int, hi as int), ',')),
            done ==> whole == pairs_view(out@),
        decreases hi - start, if done { 0int } else { 1int },
    {
        let ghost sub = cs@.subrange(start as int, hi as int);
        let ghost before = pairs_view(out@);
        let found = find_in(cs, ',', start, hi);
        let end = match found {
            Some(k) => k,
            None => hi,
        };
        let piece = pair_in(cs, start, end);
        let ghost head = match pair_of(cs@.subrange(start as int, end as int)) {
            Some(kv) => seq![kv],
            None => Seq::<(Seq<char>, Seq<char>)>::empty(),
        };
        match piece {
            Some(kv) => {
                out.push(kv);
            },
            None => {},
        }
        assert(pairs_view(out@) =~= before + head);
        match found {
            Some(k) => {
                proof {
                    let rest = cs@.subrange(k + 1, hi as int);
                    assert(sub.take(k - start) =~= cs@.subrange(start as int, k as int));
                    assert(sub.skip(k - start + 1) =~= rest);
                    let ps = seq![sub.take(k - start)] + split_on(rest, ',');
                    assert(ps.drop_first() =~= split_on(rest, ','));
                    assert(pairs_of(ps) == head + pairs_of(split_on(rest, ',')));
                    assert(whole =~= pairs_view(out@) + pairs_of(split_on(rest, ',')));
                }
                start = k + 1;
            },
            None => {
                proof {
                    assert(sub =~= cs@.subrange(start as int, end as int));
                    let ps = seq![sub];
                    assert(ps.drop_first() =~= Seq::<Seq<char>>::empty());
                    assert(pairs_of(ps.drop_first()) =~= Seq::<(Seq<char>, Seq<char>)>::empty());
                    assert(ps[0] == sub);
                    assert(pairs_of(ps) =~= head);
                }
                done = true;
            },
        }
    }
    out
}

/// The block that a block-state string describes.
pub fn block_from_state(s: &str) -> (b: Block)
    ensures
        b@ == block_of_state(s@),
{
    let cs = chars_of(s);
    let n = cs.len();
    proof {
        assert(cs@.subrange(0, n as int) =~= s@);
    }
    let first = find_in(&cs, '[', 0, n);
    let name_end = match first {
        Some(i) => i,
        None => n,
    };
    let name = string_of(&cs, 0, name_end);
    assert(name@ == state_name(s@)) by {
        if first is Some {
            assert(s@.take(name_end as int) =~= cs@.subrange(0, name_end as int));
        } else {
            assert(s@ =~= cs@.subrange(0, n as int));
        }
    }
    let properties = match first {
        None => {
            let v: Vec<(String, String)> = Vec::new();
            assert(pairs_view(v@) =~= state_props(s@));
            v
        },
        Some(i) => {
            let lo = i + 1;
            let second = find_in(&cs, '[', lo, n);
            let hi = match second {
                Some(k) => k,
                None => n,
            };
            let e = trim_end(&cs, lo, hi);
            proof {
                let rest = s@.skip(i + 1);
                assert(rest =~= cs@.subrange(lo as int, n as int));
                if second is Some {
                    assert(rest.take(hi - lo) =~= cs@.subrange(lo as int, hi as int));
                } else {
                    assert(rest =~= cs@.subrange(lo as int, hi as int));
                }
                assert(state_props_text(s@) == cs@.subrange(lo as int, e as int));
            }
            if e == lo {
                let v: Vec<(String, String)> = Vec::new();
                assert(pairs_view(v@) =~= state_props(s@));
                v
            } else {
                parse_pairs(&cs, lo, e)
            }
        },
    };
    let b = Block { name: name.clone(), texture: name, properties };
    assert(b@.properties =~= pairs_view(b.properties@));
    b
}

/// A block's id stops before the first `[`; a state without `[` is a plain
/// block named by the whole string, with no properties.
pub proof fn lemma_state_name(s: Seq<char>)
    ensures
        forall|i: int| 0 <= i < state_name(s).len() ==> state_name(s)[i] != '[',
        (forall|i: int| 0 <= i < s.len() ==> s[i] != '[') ==> block_of_state(s) == (BlockView { name: s, texture: s, properties: Seq::empty() }),
{
    lemma_first_index(s, '[', 0);
}

} // verus!
