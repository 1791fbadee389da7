//! Lexicographic order of strings and sorted, duplicate-free lists.
//!
//! Strings compare character by character by code point, which is the order
//! `str`'s `Ord` gives (UTF-8 preserves code point order byte by byte).

use vstd::prelude::*;
use crate::text::{chars_view, string_of};

verus! {

/// `a` comes strictly before `b`.
pub open spec fn lex_lt(a: Seq<char>, b: Seq<char>) -> bool
    decreases a.len(),
{
    if a.len() == 0 {
        b.len() > 0
    } else if b.len() == 0 {
        false
    } else if a[0] != b[0] {
        a[0] < b[0]
    } else {
        lex_lt(a.drop_first(), b.drop_first())
    }
}

/// No string comes before itself.
pub proof fn lemma_lex_irreflexive(a: Seq<char>)
    ensures
        !lex_lt(a, a),
    decreases a.len(),
{
    if a.len() > 0 {
        lemma_lex_irreflexive(a.drop_first());
    }
}

/// Any two different strings are ordered one way or the other, and not both.
pub proof fn lemma_lex_total(a: Seq<char>, b: Seq<char>)
    ensures
        a != b ==> (lex_lt(a, b) || lex_lt(b, a)),
        !(lex_lt(a, b) && lex_lt(b, a)),
    decreases a.len(),
{
    if a.len() > 0 && b.len() > 0 && a[0] == b[0] {
        lemma_lex_total(a.drop_first(), b.drop_first());
        if a != b {
            assert(a.drop_first() != b.drop_first()) by {
                if a.drop_first() == b.drop_first() {
                    assert(a =~= seq![a[0]] + a.drop_first());
                    assert(b =~= seq![b[0]] + b.drop_first());
                }
            }
        }
    } else if a.len() == 0 && b.len() == 0 {
        assert(a =~= b);
    } else if a.len() > 0 && b.len() > 0 {
        assert(a[0] != b[0]);
    }
}

/// The order is transitive.
pub proof fn lemma_lex_transitive(a: Seq<char>, b: Seq<char>, c: Seq<char>)
    requires
        lex_lt(a, b),
        lex_lt(b, c),
    ensures
        lex_lt(a, c),
    decreases a.len(),
{
    if a.len() > 0 && b.len() > 0 && c.len() > 0 && a[0] == b[0] && b[0] == c[0] {
        lemma_lex_transitive(a.drop_first(), b.drop_first(), c.drop_first());
    }
}

/// `s` is strictly increasing (hence free of duplicates).
pub open spec fn strictly_sorted(s: Seq<Seq<char>>) -> bool {
    forall|i: int, j: int| 0 <= i < j < s.len() ==> lex_lt(#[trigger] s[i], #[trigger] s[j])
}

/// Whether `a` comes strictly before `b`.
pub fn lex_less(a: &[char], b: &[char]) -> (r: bool)
    ensures
        r == lex_lt(a@, b@),
{
    let mut i: usize = 0;
    assert(a@.skip(0) =~= a@);
    assert(b@.skip(0) =~= b@);
    while i < a.len() && i < b.len() && a[i] == b[i]
        invariant
            i <= a@.len(),
            i <= b@.len(),
            lex_lt(a@, b@) == lex_lt(a@.skip(i as int), b@.skip(i as int)),
        decreases a@.len() - i,
    {
        assert(a@.skip(i as int).drop_first() =~= a@.skip(i + 1));
        assert(b@.skip(i as int).drop_first() =~= b@.skip(i + 1));
        i = i + 1;
    }
    if i == a.len() {
        i < b.len()
    } else if i == b.len() {
        false
    } else {
        assert(a@.skip(i as int)[0] == a@[i as int]);
        assert(b@.skip(i as int)[0] == b@[i as int]);
        a[i] < b[i]
    }
}

/// Inserts `x` into a strictly sorted list, unless it is there already.
pub fn insert_unique(v: &mut Vec<Vec<char>>, x: Vec<char>)
    requires
        strictly_sorted(chars_view(old(v)@)),
    ensures
        strictly_sorted(chars_view(final(v)@)),
        chars_view(final(v)@).to_set() == chars_view(old(v)@).to_set().insert(x@),
{
    let ghost s0 = chars_view(v@);
    let mut i: usize = 0;
    while i < v.len() && lex_less(v[i].as_slice(), x.as_slice())
        invariant
            i <= v@.len(),
            s0 == chars_view(v@),
            strictly_sorted(s0),
            forall|k: int| 0 <= k < i ==> lex_lt(#[trigger] s0[k], x@),
        decreases v@.len() - i,
    {
        i = i + 1;
    }
    if i < v.len() && crate::text::chars_eq(v[i].as_slice(), x.as_slice()) {
        assert(s0.to_set().insert(x@) =~= s0.to_set()) by {
            assert(s0.contains(s0[i as int]));
        }
        return;
    }
    let ghost xv = x@;
    v.insert(i, x);
    let ghost s1 = chars_view(v@);
    assert(s1 =~= s0.insert(i as int, xv));
    proof {
        if i < s0.len() {
            lemma_lex_total(s0[i as int], xv);
            assert(lex_lt(xv, s0[i as int]));
        }
        assert forall|a: int, b: int| 0 <= a < b < s1.len() implies lex_lt(
            #[trigger] s1[a],
            #[trigger] s1[b],
        ) by {
            if b < i {
            } else if b == i {
                assert(s1[a] == s0[a]);
            } else if a == i {
                assert(s1[b] == s0[b - 1]);
                if b - 1 > i {
                    lemma_lex_transitive(xv, s0[i as int], s0[b - 1]);
                }
            } else if a < i {
                assert(s1[a] == s0[a]);
                assert(s1[b] == s0[b - 1]);
            } else {
                assert(s1[a] == s0[a - 1]);
                assert(s1[b] == s0[b - 1]);
            }
        }
        assert forall|y: Seq<char>| #[trigger] s1.to_set().contains(y) == s0.to_set().insert(
            xv,
        ).contains(y) by {
            if s1.contains(y) {
                let k = choose|k: int| 0 <= k < s1.len() && s1[k] == y;
                if k < i {
                    assert(s0[k] == y);
                } else if k > i {
                    assert(s0[k - 1] == y);
                }
            }
            if s0.contains(y) {
                let k = choose|k: int| 0 <= k < s0.len() && s0[k] == y;
                if k < i {
                    assert(s1[k] == y);
                } else {
                    assert(s1[k + 1] == y);
                }
            }
            if y == xv {
                assert(s1[i as int] == y);
            }
        }
        assert(s1.to_set() =~= s0.to_set().insert(xv));
    }
}

/// The strings of `items`, sorted and without duplicates: the result is
/// strictly increasing and holds exactly the strings that occur in `items`.
pub fn sorted_unique(items: &Vec<Vec<char>>) -> (r: Vec<String>)
    ensures
        strictly_sorted(r@.map_values(|s: String| s@)),
        r@.map_values(|s: String| s@).to_set() == chars_view(items@).to_set(),
{
    let mut acc: Vec<Vec<char>> = Vec::new();
    let mut i: usize = 0;
    assert(chars_view(items@).take(0) =~= Seq::<Seq<char>>::empty());
    assert(chars_view(acc@) =~= Seq::<Seq<char>>::empty());
    while i < items.len()
        invariant
            i <= items@.len(),
            strictly_sorted(chars_view(acc@)),
            chars_view(acc@).to_set() == chars_view(items@).take(i as int).to_set(),
        decreases items@.len() - i,
    {
        let x = crate::text::sub_chars(items[i].as_slice(), 0, items[i].len());
        assert(items@[i as int]@.subrange(0, items@[i as int]@.len() as int) =~= items@[i as int]@);
        insert_unique(&mut acc, x);
        assert(chars_view(items@).take(i + 1) =~= chars_view(items@).take(i as int).push(
            items@[i as int]@,
        ));
        proof {
            broadcast use vstd::seq_lib::group_seq_properties;
        }
        assert(chars_view(items@).take(i + 1).to_set() =~= chars_view(items@).take(
            i as int,
        ).to_set().insert(items@[i as int]@));
        i = i + 1;
    }
    assert(chars_view(items@).take(items@.len() as int) =~= chars_view(items@));
    let mut out: Vec<String> = Vec::new();
    let mut j: usize = 0;
    while j < acc.len()
        invariant
            j <= acc@.len(),
            out@.len() == j,
            forall|k: int| 0 <= k < j ==> #[trigger] out@[k]@ == acc@[k]@,
        decreases acc@.len() - j,
    {
        out.push(string_of(acc[j].as_slice()));
        j = j + 1;
    }
    assert(out@.map_values(|s: String| s@) =~= chars_view(acc@));
    out
}

} // verus!
