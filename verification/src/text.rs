//! Character-level syntax shared by the domain values of this crate.

use vstd::prelude::*;

verus! {

/// The character classes that the textual domain values are built from.
#[derive(Clone, Copy, Debug, PartialEq, Eq, Structural)]
pub enum CharClass {
    /// `a`-`z`, `0`-`9` and `-`.
    LowerIdent,
    /// `0`-`9` and `a`-`f`.
    LowerHex,
    /// `0`-`9`, `a`-`f` and `A`-`F`.
    Hex,
    /// `0`-`9`.
    Digit,
    /// Printable ASCII without space (`!`-`~`).
    Graphic,
    /// Any ASCII character.
    Ascii,
}

pub open spec fn char_in_class(c: char, class: CharClass) -> bool {
    match class {
        CharClass::LowerIdent => ('a' <= c && c <= 'z') || ('0' <= c && c <= '9') || c == '-',
        CharClass::LowerHex => ('a' <= c && c <= 'f') || ('0' <= c && c <= '9'),
        CharClass::Hex => ('a' <= c && c <= 'f') || ('A' <= c && c <= 'F') || ('0' <= c && c <= '9'),
        CharClass::Digit => '0' <= c && c <= '9',
        CharClass::Graphic => '!' <= c && c <= '~',
        CharClass::Ascii => (c as u32) < 128,
    }
}

/// Every character of `s` in `[lo, hi)` belongs to `class`.
pub open spec fn all_in_class(s: Seq<char>, lo: int, hi: int, class: CharClass) -> bool {
    forall|i: int| lo <= i < hi ==> #[trigger] char_in_class(s[i], class)
}

/// The first position at or after `from` that holds `c`, if any.
pub open spec fn first_index_of(s: Seq<char>, c: char, from: int) -> Option<int> {
    if exists|i: int| from <= i < s.len() && s[i] == c {
        Some(choose|i: int| from <= i < s.len() && s[i] == c && (forall|j: int| from <= j < i ==> s[j] != c))
    } else {
        None
    }
}

/// The last position of `s` that holds `c`, if any.
pub open spec fn last_index_of(s: Seq<char>, c: char) -> Option<int> {
    if exists|i: int| 0 <= i < s.len() && s[i] == c {
        Some(choose|i: int| 0 <= i < s.len() && s[i] == c && (forall|j: int| i < j < s.len() ==> s[j] != c))
    } else {
        None
    }
}

pub fn char_is_in_class(c: char, class: CharClass) -> (r: bool)
    ensures
        r == char_in_class(c, class),
{
    match class {
        CharClass::LowerIdent => ('a' <= c && c <= 'z') || ('0' <= c && c <= '9') || c == '-',
        CharClass::LowerHex => ('a' <= c && c <= 'f') || ('0' <= c && c <= '9'),
        CharClass::Hex => ('a' <= c && c <= 'f') || ('A' <= c && c <= 'F') || ('0' <= c && c <= '9'),
        CharClass::Digit => '0' <= c && c <= '9',
        CharClass::Graphic => '!' <= c && c <= '~',
        CharClass::Ascii => (c as u32) < 128,
    }
}

/// The characters of `s`, in order.
pub fn chars_of(s: &str) -> (r: Vec<char>)
    ensures
        r@ == s@,
{
    let n = s.unicode_len();
    let mut r: Vec<char> = Vec::new();
    let mut i: usize = 0;
    while i < n
        invariant
            i <= n,
            n == s@.len(),
            r@ == s@.subrange(0, i as int),
        decreases n - i,
    {
        r.push(s.get_char(i));
        i = i + 1;
    }
    assert(r@ =~= s@);
    r
}

/// Whether every character of `s` in `[lo, hi)` belongs to `class`.
pub fn chars_in_class(s: &[char], lo: usize, hi: usize, class: CharClass) -> (r: bool)
    requires
        lo <= hi <= s@.len(),
    ensures
        r == all_in_class(s@, lo as int, hi as int, class),
{
    let mut i = lo;
    while i < hi
        invariant
            lo <= i <= hi <= s@.len(),
            all_in_class(s@, lo as int, i as int, class),
        decreases hi - i,
    {
        if !char_is_in_class(s[i], class) {
            assert(!char_in_class(s@[i as int], class));
            return false;
        }
        i = i + 1;
    }
    true
}

/// The first position at or after `from` that holds `c`.
pub fn find_char(s: &[char], c: char, from: usize) -> (r: Option<usize>)
    requires
        from <= s@.len(),
    ensures
        match r {
            Some(i) => from <= i < s@.len() && s@[i as int] == c && (forall|j: int|
                from <= j < i ==> s@[j] != c),
            None => forall|j: int| from <= j < s@.len() ==> s@[j] != c,
        },
        r matches Some(i) ==> first_index_of(s@, c, from as int) == Some(i as int),
        r is None ==> first_index_of(s@, c, from as int) is None,
{
    let n = s.len();
    let mut i = from;
    while i < n
        invariant
            from <= i <= n,
            n == s@.len(),
            forall|j: int| from <= j < i ==> s@[j] != c,
        decreases n - i,
    {
        if s[i] == c {
            proof {
                let w = choose|k: int|
                    from <= k < s@.len() && s@[k] == c && (forall|j: int| from <= j < k ==> s@[j] != c);
                assert(from <= i < s@.len() && s@[i as int] == c && (forall|j: int| from <= j < i ==> s@[j] != c));
                if w < i {
                    assert(s@[w] != c);
                } else if w > i {
                    assert(s@[i as int] != c);
                }
            }
            return Some(i);
        }
        i = i + 1;
    }
    None
}

} // verus!
