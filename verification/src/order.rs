//! The order of texts by code point, which is the order of their UTF-8
//! bytes, and of the keys built from them.

use vstd::prelude::*;

verus! {

/// Whether `a` comes before `b`, comparing from position `i` on: the first
/// differing code point decides, and a text that ends first comes first.
pub open spec fn text_lt_from(a: Seq<char>, b: Seq<char>, i: int) -> bool
    decreases a.len() - i,
{
    if i < 0 || b.len() <= i {
        false
    } else if a.len() <= i {
        true
    } else if a[i] != b[i] {
        a[i] < b[i]
    } else {
        text_lt_from(a, b, i + 1)
    }
}

/// Whether text `a` comes strictly before text `b`.
pub open spec fn text_lt(a: Seq<char>, b: Seq<char>) -> bool {
    text_lt_from(a, b, 0)
}

/// No text comes before itself.
pub proof fn lemma_text_lt_irreflexive(a: Seq<char>, i: int)
    requires
        0 <= i,
    ensures
        !text_lt_from(a, a, i),
    decreases a.len() - i,
{
    if i < a.len() {
        lemma_text_lt_irreflexive(a, i + 1);
    }
}

/// Texts that agree before `i` compare as their suffixes from `i`; two texts
/// that agree on every position from `i`, and have the same length, are not
/// ordered either way.
pub proof fn lemma_text_lt_transitive(a: Seq<char>, b: Seq<char>, c: Seq<char>, i: int)
    requires
        0 <= i,
        text_lt_from(a, b, i),
        text_lt_from(b, c, i),
    ensures
        text_lt_from(a, c, i),
    decreases a.len() - i,
{
    if a.len() > i && b.len() > i && c.len() > i && a[i] == b[i] && b[i] == c[i] {
        lemma_text_lt_transitive(a, b, c, i + 1);
    }
}

/// Of two texts that agree before `i`, either they are equal or one comes
/// first.
pub proof fn lemma_text_lt_total(a: Seq<char>, b: Seq<char>, i: int)
    requires
        0 <= i <= a.len(),
        i <= b.len(),
        a.subrange(0, i) == b.subrange(0, i),
    ensures
        a == b || text_lt_from(a, b, i) || text_lt_from(b, a, i),
    decreases a.len() - i,
{
    if i < a.len() && i < b.len() {
        if a[i] == b[i] {
            assert(a.subrange(0, i + 1) =~= a.subrange(0, i).push(a[i]));
            assert(b.subrange(0, i + 1) =~= b.subrange(0, i).push(b[i]));
            lemma_text_lt_total(a, b, i + 1);
        } else {
            assert(a[i] < b[i] || b[i] < a[i]);
        }
    } else if i == a.len() && i == b.len() {
        assert(a =~= a.subrange(0, i));
        assert(b =~= b.subrange(0, i));
    }
}

/// Compares two texts: negative when `a` comes first, zero when they are
/// equal, positive when `b` comes first.
pub fn compare_text(a: &[char], b: &[char]) -> (r: i8)
    ensures
        r < 0 <==> text_lt(a@, b@),
        r == 0 <==> a@ == b@,
        r > 0 <==> text_lt(b@, a@),
{
    let mut i: usize = 0;
    proof {
        lemma_text_lt_irreflexive(a@, 0);
    }
    while i < a.len() && i < b.len()
        invariant
            i <= a@.len(),
            i <= b@.len(),
            a@.subrange(0, i as int) == b@.subrange(0, i as int),
            text_lt(a@, b@) == text_lt_from(a@, b@, i as int),
            text_lt(b@, a@) == text_lt_from(b@, a@, i as int),
        decreases a@.len() - i,
    {
        if a[i] != b[i] {
            proof {
                if a@ == b@ {
                    assert(a@[i as int] == b@[i as int]);
                }
            }
            if a[i] < b[i] {
                return -1;
            } else {
                return 1;
            }
        }
        assert(a@.subrange(0, i + 1) =~= a@.subrange(0, i as int).push(a@[i as int]));
        assert(b@.subrange(0, i + 1) =~= b@.subrange(0, i as int).push(b@[i as int]));
        i = i + 1;
    }
    if a.len() == b.len() {
        assert(a@ =~= a@.subrange(0, i as int));
        assert(b@ =~= b@.subrange(0, i as int));
        proof {
            lemma_text_lt_irreflexive(a@, 0);
        }
        0
    } else if a.len() < b.len() {
        proof {
            if a@ == b@ {
                assert(a@.len() == b@.len());
            }
        }
        -1
    } else {
        proof {
            if a@ == b@ {
                assert(a@.len() == b@.len());
            }
        }
        1
    }
}

/// A key of a text, a rank and a second text, ordered field by field.
pub open spec fn key_lt(a: (Seq<char>, u8, Seq<char>), b: (Seq<char>, u8, Seq<char>)) -> bool {
    ||| text_lt(a.0, b.0)
    ||| (a.0 == b.0 && a.1 < b.1)
    ||| (a.0 == b.0 && a.1 == b.1 && text_lt(a.2, b.2))
}

/// The key order is a strict total order.
pub proof fn lemma_key_order(a: (Seq<char>, u8, Seq<char>), b: (Seq<char>, u8, Seq<char>), c: (Seq<char>, u8, Seq<char>))
    ensures
        !key_lt(a, a),
        key_lt(a, b) && key_lt(b, c) ==> key_lt(a, c),
        a == b || key_lt(a, b) || key_lt(b, a),
        key_lt(a, b) ==> !key_lt(b, a),
{
    lemma_text_lt_irreflexive(a.0, 0);
    lemma_text_lt_irreflexive(a.2, 0);
    lemma_text_lt_irreflexive(b.0, 0);
    lemma_text_lt_irreflexive(b.2, 0);
    if text_lt(a.0, b.0) && text_lt(b.0, c.0) {
        lemma_text_lt_transitive(a.0, b.0, c.0, 0);
    }
    if text_lt(a.2, b.2) && text_lt(b.2, c.2) {
        lemma_text_lt_transitive(a.2, b.2, c.2, 0);
    }
    if text_lt(a.0, b.0) && text_lt(b.0, a.0) {
        lemma_text_lt_transitive(a.0, b.0, a.0, 0);
    }
    if text_lt(a.2, b.2) && text_lt(b.2, a.2) {
        lemma_text_lt_transitive(a.2, b.2, a.2, 0);
    }
    assert(a.0.subrange(0, 0) =~= b.0.subrange(0, 0));
    assert(a.2.subrange(0, 0) =~= b.2.subrange(0, 0));
    lemma_text_lt_total(a.0, b.0, 0);
    lemma_text_lt_total(a.2, b.2, 0);
}

/// Compares two keys: negative, zero or positive as `a` comes before, equals
/// or comes after `b`.
pub fn compare_key(a: (&[char], u8, &[char]), b: (&[char], u8, &[char])) -> (r: i8)
    ensures
        r < 0 <==> key_lt((a.0@, a.1, a.2@), (b.0@, b.1, b.2@)),
        r == 0 <==> (a.0@, a.1, a.2@) == (b.0@, b.1, b.2@),
        r > 0 <==> key_lt((b.0@, b.1, b.2@), (a.0@, a.1, a.2@)),
{
    proof {
        lemma_key_order((a.0@, a.1, a.2@), (b.0@, b.1, b.2@), (a.0@, a.1, a.2@));
    }
    let first = compare_text(a.0, b.0);
    if first != 0 {
        return first;
    }
    if a.1 < b.1 {
        return -1;
    }
    if a.1 > b.1 {
        return 1;
    }
    compare_text(a.2, b.2)
}

} // verus!
