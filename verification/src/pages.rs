//! Source page selections: the textual `--pages` syntax and the canonical
//! form that compilation identities are computed from.

use vstd::prelude::*;
use vstd::string::StringExecFns;
use crate::NonZeroUsize;
use crate::text::chars_of;
use crate::request::CompilationRequestIssue;

verus! {

/// The characters that `str::trim` removes: Unicode `White_Space`.
pub open spec fn is_white_space(c: char) -> bool {
    ||| ('\t' <= c && c <= '\r')
    ||| c == ' '
    ||| c == '\u{85}'
    ||| c == '\u{a0}'
    ||| c == '\u{1680}'
    ||| ('\u{2000}' <= c && c <= '\u{200a}')
    ||| c == '\u{2028}'
    ||| c == '\u{2029}'
    ||| c == '\u{202f}'
    ||| c == '\u{205f}'
    ||| c == '\u{3000}'
}

/// `s` without its leading white space.
pub open spec fn trim_start(s: Seq<char>) -> Seq<char>
    decreases s.len(),
{
    if s.len() > 0 && is_white_space(s[0]) {
        trim_start(s.subrange(1, s.len() as int))
    } else {
        s
    }
}

/// `s` without its trailing white space.
pub open spec fn trim_end(s: Seq<char>) -> Seq<char>
    decreases s.len(),
{
    if s.len() > 0 && is_white_space(s.last()) {
        trim_end(s.drop_last())
    } else {
        s
    }
}

/// `s` without leading and trailing white space.
pub open spec fn trim(s: Seq<char>) -> Seq<char> {
    trim_end(trim_start(s))
}

/// The pieces of `s` between occurrences of `sep`, in order: one more piece
/// than `s` has separators, empty pieces included.
pub open spec fn split_on(s: Seq<char>, sep: char) -> Seq<Seq<char>>
    decreases s.len(),
{
    if s.len() == 0 {
        seq![Seq::empty()]
    } else {
        let p = split_on(s.drop_last(), sep);
        if s.last() == sep {
            p.push(Seq::empty())
        } else {
            p.update(p.len() - 1, p.last().push(s.last()))
        }
    }
}

proof fn lemma_split_nonempty(s: Seq<char>, sep: char)
    ensures
        split_on(s, sep).len() >= 1,
    decreases s.len(),
{
    if s.len() > 0 {
        lemma_split_nonempty(s.drop_last(), sep);
    }
}

/// The last piece of a split, seen from the separator that precedes it.
proof fn lemma_split_piece(s: Seq<char>, sep: char, j: int, i: int)
    requires
        0 <= j <= i <= s.len(),
        j == 0 || s[j - 1] == sep,
        forall|m: int| j <= m < i ==> s[m] != sep,
    ensures
        split_on(s.subrange(0, j), sep).len() >= 1,
        split_on(s.subrange(0, i), sep) == split_on(s.subrange(0, j), sep).drop_last().push(
            s.subrange(j, i),
        ),
    decreases i - j,
{
    lemma_split_nonempty(s.subrange(0, j), sep);
    if i == j {
        if j == 0 {
            assert(s.subrange(0, 0) =~= Seq::<char>::empty());
            assert(split_on(Seq::<char>::empty(), sep).drop_last().push(s.subrange(0, 0)) =~= seq![
                Seq::<char>::empty(),
            ]);
        } else {
            let t = s.subrange(0, j);
            assert(t.drop_last() =~= s.subrange(0, j - 1));
            assert(t.last() == sep);
            assert(split_on(t, sep) == split_on(t.drop_last(), sep).push(Seq::empty()));
            assert(split_on(t, sep).drop_last() =~= split_on(t.drop_last(), sep));
            assert(s.subrange(j, j) =~= Seq::<char>::empty());
            assert(split_on(t, sep).drop_last().push(s.subrange(j, i)) =~= split_on(t, sep));
        }
    } else {
        lemma_split_piece(s, sep, j, i - 1);
        let t = s.subrange(0, i);
        assert(t.drop_last() =~= s.subrange(0, i - 1));
        assert(t.last() == s[i - 1]);
        assert(s[i - 1] != sep);
        let p = split_on(t.drop_last(), sep);
        assert(p == split_on(s.subrange(0, j), sep).drop_last().push(s.subrange(j, i - 1)));
        assert(p.last().push(s[i - 1]) =~= s.subrange(j, i));
        assert(split_on(t, sep) == p.update(p.len() - 1, p.last().push(t.last())));
        assert(split_on(t, sep) =~= split_on(s.subrange(0, j), sep).drop_last().push(
            s.subrange(j, i),
        ));
    }
}

/// The pieces of `s` that `bounds` delimit.
pub open spec fn pieces(s: Seq<char>, bounds: Seq<(usize, usize)>) -> Seq<Seq<char>> {
    Seq::new(bounds.len(), |k: int| s.subrange(bounds[k].0 as int, bounds[k].1 as int))
}

/// Every bound of `bounds` lies within `[lo, hi]` and is ordered.
pub open spec fn bounds_within(bounds: Seq<(usize, usize)>, lo: int, hi: int) -> bool {
    forall|k: int| 0 <= k < bounds.len() ==> lo <= #[trigger] bounds[k].0 <= bounds[k].1 <= hi
}

fn char_is_white_space(c: char) -> (r: bool)
    ensures
        r == is_white_space(c),
{
    ('\t' <= c && c <= '\r') || c == ' ' || c == '\u{85}' || c == '\u{a0}' || c == '\u{1680}' || (
    '\u{2000}' <= c && c <= '\u{200a}') || c == '\u{2028}' || c == '\u{2029}' || c == '\u{202f}'
        || c == '\u{205f}' || c == '\u{3000}'
}

/// The bounds of `s[lo..hi]` without its leading and trailing white space.
pub(crate) fn trimmed(s: &[char], lo: usize, hi: usize) -> (r: (usize, usize))
    requires
        lo <= hi <= s@.len(),
    ensures
        lo <= r.0 <= r.1 <= hi,
        s@.subrange(r.0 as int, r.1 as int) == trim(s@.subrange(lo as int, hi as int)),
{
    let mut a = lo;
    while a < hi && char_is_white_space(s[a])
        invariant
            lo <= a <= hi <= s@.len(),
            trim_start(s@.subrange(lo as int, hi as int)) == trim_start(s@.subrange(a as int, hi as int)),
        decreases hi - a,
    {
        proof {
            let t = s@.subrange(a as int, hi as int);
            assert(t[0] == s@[a as int]);
            assert(t.subrange(1, t.len() as int) =~= s@.subrange(a + 1, hi as int));
        }
        a = a + 1;
    }
    proof {
        let t = s@.subrange(a as int, hi as int);
        if a < hi {
            assert(t[0] == s@[a as int]);
        }
        assert(trim_start(t) == t);
    }
    let mut b = hi;
    while b > a && char_is_white_space(s[b - 1])
        invariant
            lo <= a <= b <= hi <= s@.len(),
            trim_end(s@.subrange(a as int, hi as int)) == trim_end(s@.subrange(a as int, b as int)),
        decreases b - a,
    {
        proof {
            let t = s@.subrange(a as int, b as int);
            assert(t.last() == s@[b - 1]);
            assert(t.drop_last() =~= s@.subrange(a as int, b - 1));
        }
        b = b - 1;
    }
    proof {
        let t = s@.subrange(a as int, b as int);
        if b > a {
            assert(t.last() == s@[b - 1]);
        }
        assert(trim_end(t) == t);
    }
    (a, b)
}

/// The bounds of the pieces of `s[lo..hi]` between occurrences of `sep`.
pub(crate) fn split_bounds(s: &[char], lo: usize, hi: usize, sep: char) -> (r: Vec<(usize, usize)>)
    requires
        lo <= hi <= s@.len(),
    ensures
        bounds_within(r@, lo as int, hi as int),
        pieces(s@, r@) == split_on(s@.subrange(lo as int, hi as int), sep),
{
    let ghost t = s@.subrange(lo as int, hi as int);
    let mut r: Vec<(usize, usize)> = Vec::new();
    let mut j = lo;
    let mut i = lo;
    proof {
        lemma_split_nonempty(t.subrange(0, 0), sep);
        assert(t.subrange(0, 0) =~= Seq::<char>::empty());
        assert(pieces(s@, r@) =~= split_on(t.subrange(0, 0), sep).drop_last());
    }
    while i < hi
        invariant
            lo <= j <= i <= hi <= s@.len(),
            t == s@.subrange(lo as int, hi as int),
            j == lo || s@[j - 1] == sep,
            forall|m: int| j <= m < i ==> s@[m] != sep,
            bounds_within(r@, lo as int, hi as int),
            pieces(s@, r@) == split_on(t.subrange(0, j - lo), sep).drop_last(),
        decreases hi - i,
    {
        if s[i] == sep {
            proof {
                assert forall|m: int| j - lo <= m < i - lo implies t[m] != sep by {
                    assert(t[m] == s@[m + lo]);
                }
                if j > lo {
                    assert(t[j - lo - 1] == s@[j - 1]);
                }
                lemma_split_piece(t, sep, j - lo, i - lo);
                lemma_split_piece(t, sep, i - lo + 1, i - lo + 1);
                let u = t.subrange(0, i - lo + 1);
                assert(u.drop_last() =~= t.subrange(0, i - lo));
                assert(u.last() == s@[i as int]);
                assert(split_on(u, sep) == split_on(u.drop_last(), sep).push(Seq::empty()));
                assert(split_on(u, sep).drop_last() =~= split_on(t.subrange(0, i - lo), sep));
                assert(t.subrange(j - lo, i - lo) =~= s@.subrange(j as int, i as int));
            }
            r.push((j, i));
            proof {
                assert(pieces(s@, r@) =~= split_on(t.subrange(0, i - lo + 1), sep).drop_last());
            }
            j = i + 1;
        }
        i = i + 1;
    }
    proof {
        assert forall|m: int| j - lo <= m < hi - lo implies t[m] != sep by {
            assert(t[m] == s@[m + lo]);
        }
        if j > lo {
            assert(t[j - lo - 1] == s@[j - 1]);
        }
        lemma_split_piece(t, sep, j - lo, hi - lo);
        assert(t.subrange(0, hi - lo) =~= t);
        assert(t.subrange(j - lo, hi - lo) =~= s@.subrange(j as int, hi as int));
    }
    r.push((j, hi));
    proof {
        assert(pieces(s@, r@) =~= split_on(t, sep));
    }
    r
}

/// The value of a decimal digit.
pub open spec fn digit_value(c: char) -> int {
    (c as int) - ('0' as int)
}

/// Every character of `s` is an ASCII decimal digit.
pub open spec fn all_digits(s: Seq<char>) -> bool {
    forall|i: int| 0 <= i < s.len() ==> '0' <= #[trigger] s[i] && s[i] <= '9'
}

/// The number that the decimal digits `s` denote.
pub open spec fn decimal_value(s: Seq<char>) -> int
    decreases s.len(),
{
    if s.len() == 0 {
        0
    } else {
        decimal_value(s.drop_last()) * 10 + digit_value(s.last())
    }
}

/// The digits of an unsigned number: `s` without one leading `+`.
pub open spec fn unsigned_digits(s: Seq<char>) -> Seq<char> {
    if s.len() > 0 && s[0] == '+' {
        s.subrange(1, s.len() as int)
    } else {
        s
    }
}

/// Whether `str::parse::<NonZeroUsize>` accepts `s`: an optional `+`, then
/// at least one decimal digit, denoting a number from one to `usize::MAX`.
pub open spec fn is_page_number(s: Seq<char>) -> bool {
    let d = unsigned_digits(s);
    &&& d.len() > 0
    &&& all_digits(d)
    &&& 0 < decimal_value(d) <= usize::MAX
}

pub open spec fn pages_start_at_one_message() -> Seq<char> {
    "page numbers start at one"@
}

pub open spec fn invalid_page_number_message(value: Seq<char>) -> Seq<char> {
    "`"@ + value + "` is not a valid page number"@
}

pub open spec fn empty_range_message() -> Seq<char> {
    "page export range must not be empty"@
}

pub open spec fn unbounded_range_message() -> Seq<char> {
    "page export range must have start or end"@
}

pub open spec fn reversed_range_message() -> Seq<char> {
    "page export range must end at a page after the start"@
}

pub open spec fn hyphens_message() -> Seq<char> {
    "page export range must have a single hyphen"@
}

/// One page number of a range, or the message that refuses it.
pub open spec fn parse_page(value: Seq<char>) -> Result<usize, Seq<char>> {
    if value == seq!['0'] {
        Err(pages_start_at_one_message())
    } else if is_page_number(value) {
        Ok(decimal_value(unsigned_digits(value)) as usize)
    } else {
        Err(invalid_page_number_message(value))
    }
}

/// One comma-separated part of a page selection: a page, `start-end`,
/// `start-` or `-end`, each number trimmed of white space.
pub open spec fn parse_range(part: Seq<char>) -> Result<(Option<usize>, Option<usize>), Seq<char>> {
    let fields = split_on(trim(part), '-');
    if fields.len() == 1 {
        let single = trim(fields[0]);
        if single.len() == 0 {
            Err(empty_range_message())
        } else {
            match parse_page(single) {
                Ok(p) => Ok((Some(p), Some(p))),
                Err(e) => Err(e),
            }
        }
    } else if fields.len() == 2 {
        let start = trim(fields[0]);
        let end = trim(fields[1]);
        if start.len() == 0 && end.len() == 0 {
            Err(unbounded_range_message())
        } else if end.len() == 0 {
            match parse_page(start) {
                Ok(p) => Ok((Some(p), None)),
                Err(e) => Err(e),
            }
        } else if start.len() == 0 {
            match parse_page(end) {
                Ok(p) => Ok((None, Some(p))),
                Err(e) => Err(e),
            }
        } else {
            match parse_page(start) {
                Err(e) => Err(e),
                Ok(s) => match parse_page(end) {
                    Err(e) => Err(e),
                    Ok(e) => if s > e {
                        Err(reversed_range_message())
                    } else {
                        Ok((Some(s), Some(e)))
                    },
                },
            }
        }
    } else {
        Err(hyphens_message())
    }
}

/// The ranges of the parts in order, or the refusal of the first part that
/// is refused.
pub open spec fn parse_ranges(parts: Seq<Seq<char>>) -> Result<Seq<(Option<usize>, Option<usize>)>, Seq<char>>
    decreases parts.len(),
{
    if parts.len() == 0 {
        Ok(Seq::empty())
    } else {
        match parse_ranges(parts.drop_last()) {
            Err(e) => Err(e),
            Ok(rs) => match parse_range(parts.last()) {
                Err(e) => Err(e),
                Ok(r) => Ok(rs.push(r)),
            },
        }
    }
}

/// What the textual page selection `text` denotes: its comma-separated parts
/// as ranges.
pub open spec fn page_selection_text(text: Seq<char>) -> Result<Seq<(Option<usize>, Option<usize>)>, Seq<char>> {
    parse_ranges(split_on(text, ','))
}

proof fn lemma_digit_char(d: int)
    requires
        0 <= d < 10,
    ensures
        '0' <= crate::artifact_publication::digit_char(d) <= '9',
        digit_value(crate::artifact_publication::digit_char(d)) == d,
{
}

/// The decimal digits of a number are digits, do not start with `+`, and
/// denote the number; those of a positive number are not `0`.
proof fn lemma_decimal_text(n: nat)
    ensures
        crate::artifact_publication::decimal(n).len() >= 1,
        all_digits(crate::artifact_publication::decimal(n)),
        decimal_value(crate::artifact_publication::decimal(n)) == n,
        crate::artifact_publication::decimal(n)[0] != '+',
        n >= 1 ==> crate::artifact_publication::decimal(n) != seq!['0'],
    decreases n,
{
    let t = crate::artifact_publication::decimal(n);
    if n < 10 {
        lemma_digit_char(n as int);
        assert(t.drop_last() =~= Seq::<char>::empty());
        assert(decimal_value(Seq::<char>::empty()) == 0);
        assert(decimal_value(t) == decimal_value(t.drop_last()) * 10 + digit_value(t.last()));
        assert(decimal_value(t) == n);
        if n >= 1 && t == seq!['0'] {
            assert(digit_value(t[0]) == 0);
        }
    } else {
        let h = crate::artifact_publication::decimal(n / 10);
        lemma_decimal_text(n / 10);
        lemma_digit_char((n % 10) as int);
        assert(t == h.push(crate::artifact_publication::digit_char((n % 10) as int)));
        assert(t.drop_last() =~= h);
        vstd::arithmetic::div_mod::lemma_fundamental_div_mod(n as int, 10);
        assert(decimal_value(t) == decimal_value(h) * 10 + digit_value(t.last()));
        assert(digit_value(t.last()) == n % 10);
        assert(decimal_value(h) == n / 10);
        assert(decimal_value(t) == n);
        assert(t[0] == h[0]);
        assert forall|i: int| 0 <= i < t.len() implies '0' <= #[trigger] t[i] && t[i] <= '9' by {
            if i < h.len() {
                assert(t[i] == h[i]);
            }
        }
    }
}

/// Splitting a text without the separator gives the text itself.
proof fn lemma_split_without_separator(s: Seq<char>, sep: char)
    requires
        forall|i: int| 0 <= i < s.len() ==> s[i] != sep,
    ensures
        split_on(s, sep) == seq![s],
    decreases s.len(),
{
    if s.len() == 0 {
        assert(s =~= Seq::<char>::empty());
    } else {
        lemma_split_without_separator(s.drop_last(), sep);
        assert(s.drop_last().push(s.last()) =~= s);
        assert(seq![s.drop_last()].update(0, s.drop_last().push(s.last())) =~= seq![s]);
    }
}

/// Splitting `a`, the separator and `b`, neither holding the separator,
/// gives `a` and `b`.
proof fn lemma_split_at_separator(a: Seq<char>, b: Seq<char>, sep: char)
    requires
        forall|i: int| 0 <= i < a.len() ==> a[i] != sep,
        forall|i: int| 0 <= i < b.len() ==> b[i] != sep,
    ensures
        split_on(a + seq![sep] + b, sep) == seq![a, b],
    decreases b.len(),
{
    let t = a + seq![sep] + b;
    if b.len() == 0 {
        lemma_split_without_separator(a, sep);
        assert(t.drop_last() =~= a);
        assert(t.last() == sep);
        assert(b =~= Seq::<char>::empty());
        assert(seq![a].push(Seq::<char>::empty()) =~= seq![a, b]);
    } else {
        lemma_split_at_separator(a, b.drop_last(), sep);
        assert(t.drop_last() =~= a + seq![sep] + b.drop_last());
        assert(t.last() == b.last());
        assert(b.drop_last().push(b.last()) =~= b);
        assert(seq![a, b.drop_last()].update(1, b.drop_last().push(b.last())) =~= seq![a, b]);
    }
}

/// A text of digits is its own trim.
proof fn lemma_digits_trimmed(s: Seq<char>)
    requires
        s.len() >= 1,
        '0' <= s[0] <= '9',
        '0' <= s.last() <= '9',
    ensures
        trim(s) == s,
{
}

proof fn lemma_page_number_text(n: usize)
    requires
        1 <= n,
    ensures
        parse_page(crate::artifact_publication::decimal(n as nat)) == Ok::<usize, Seq<char>>(n),
        trim(crate::artifact_publication::decimal(n as nat)) == crate::artifact_publication::decimal(n as nat),
        forall|i: int|
            0 <= i < crate::artifact_publication::decimal(n as nat).len() ==> #[trigger] crate::artifact_publication::decimal(
                n as nat,
            )[i] != '-' && crate::artifact_publication::decimal(n as nat)[i] != ',',
{
    let a = crate::artifact_publication::decimal(n as nat);
    lemma_decimal_text(n as nat);
    assert forall|i: int| 0 <= i < a.len() implies #[trigger] a[i] != '-' && a[i] != ',' by {
        assert('0' <= a[i] && a[i] <= '9');
    }
    assert('0' <= a[0] <= '9' && '0' <= a.last() <= '9');
    lemma_digits_trimmed(a);
    assert(unsigned_digits(a) == a);
}

proof fn lemma_single_part(t: Seq<char>)
    requires
        forall|i: int| 0 <= i < t.len() ==> t[i] != ',',
    ensures
        page_selection_text(t) == match parse_range(t) {
            Err(e) => Err(e),
            Ok(r) => Ok(seq![r]),
        },
{
    lemma_split_without_separator(t, ',');
    assert(seq![t].drop_last() =~= Seq::<Seq<char>>::empty());
    assert(parse_ranges(Seq::<Seq<char>>::empty()) == Ok::<Seq<(Option<usize>, Option<usize>)>, Seq<char>>(Seq::empty()));
    if let Ok(r) = parse_range(t) {
        assert(Seq::<(Option<usize>, Option<usize>)>::empty().push(r) =~= seq![r]);
    }
}

/// A single page number from one selects that page; `n-` selects from page
/// `n` on, and `-n` up to page `n`; `0` is refused, since pages start at one.
pub proof fn lemma_single_and_open_range_text(n: usize)
    requires
        1 <= n,
    ensures
        page_selection_text(crate::artifact_publication::decimal(n as nat)) == Ok::<
            Seq<(Option<usize>, Option<usize>)>,
            Seq<char>,
        >(seq![(Some(n), Some(n))]),
        page_selection_text(crate::artifact_publication::decimal(n as nat) + seq!['-']) == Ok::<
            Seq<(Option<usize>, Option<usize>)>,
            Seq<char>,
        >(seq![(Some(n), None)]),
        page_selection_text(seq!['-'] + crate::artifact_publication::decimal(n as nat)) == Ok::<
            Seq<(Option<usize>, Option<usize>)>,
            Seq<char>,
        >(seq![(None, Some(n))]),
        page_selection_text(seq!['0']) == Err::<Seq<(Option<usize>, Option<usize>)>, Seq<char>>(
            pages_start_at_one_message(),
        ),
{
    let a = crate::artifact_publication::decimal(n as nat);
    lemma_page_number_text(n);
    lemma_decimal_text(n as nat);
    let e = Seq::<char>::empty();
    lemma_single_part(a);
    lemma_split_without_separator(a, '-');
    let t1 = a + seq!['-'];
    assert forall|i: int| 0 <= i < t1.len() implies t1[i] != ',' by {
        if i < a.len() {
            assert(t1[i] == a[i]);
        }
    }
    lemma_single_part(t1);
    assert(t1 =~= a + seq!['-'] + e);
    lemma_split_at_separator(a, e, '-');
    assert(t1[0] == a[0]);
    lemma_not_space_trimmed(t1);
    assert(trim(e) =~= e) by {
        assert(trim_start(e) == e);
        assert(trim_end(e) == e);
    }
    let t2 = seq!['-'] + a;
    assert forall|i: int| 0 <= i < t2.len() implies t2[i] != ',' by {
        if i > 0 {
            assert(t2[i] == a[i - 1]);
        }
    }
    lemma_single_part(t2);
    assert(t2 =~= e + seq!['-'] + a);
    lemma_split_at_separator(e, a, '-');
    assert(t2.last() == a.last());
    lemma_not_space_trimmed(t2);
    let z = seq!['0'];
    lemma_single_part(z);
    lemma_split_without_separator(z, '-');
    lemma_not_space_trimmed(z);
}

/// A text that neither starts nor ends with white space is its own trim.
proof fn lemma_not_space_trimmed(s: Seq<char>)
    requires
        s.len() >= 1,
        !is_white_space(s[0]),
        !is_white_space(s.last()),
    ensures
        trim(s) == s,
{
}

/// A closed range written `start-end`, with page numbers from one, is the
/// range of those pages when the start is not after the end, a single page
/// included, and is refused as reversed only when the start is after the
/// end.
pub proof fn lemma_closed_range_text(start: usize, end: usize)
    requires
        1 <= start,
        1 <= end,
    ensures
        page_selection_text(crate::artifact_publication::decimal(start as nat) + seq!['-']
            + crate::artifact_publication::decimal(end as nat)) == if start <= end {
            Ok::<Seq<(Option<usize>, Option<usize>)>, Seq<char>>(seq![(Some(start), Some(end))])
        } else {
            Err::<Seq<(Option<usize>, Option<usize>)>, Seq<char>>(reversed_range_message())
        },
{
    let a = crate::artifact_publication::decimal(start as nat);
    let b = crate::artifact_publication::decimal(end as nat);
    lemma_decimal_text(start as nat);
    lemma_decimal_text(end as nat);
    let t = a + seq!['-'] + b;
    assert forall|i: int| 0 <= i < a.len() implies a[i] != '-' && a[i] != ',' by {
        assert('0' <= a[i] && a[i] <= '9');
    }
    assert forall|i: int| 0 <= i < b.len() implies b[i] != '-' && b[i] != ',' by {
        assert('0' <= b[i] && b[i] <= '9');
    }
    assert forall|i: int| 0 <= i < t.len() implies t[i] != ',' by {
        if i < a.len() {
            assert(t[i] == a[i]);
        } else if i > a.len() {
            assert(t[i] == b[i - a.len() - 1]);
        }
    }
    lemma_split_without_separator(t, ',');
    assert(seq![t].drop_last() =~= Seq::<Seq<char>>::empty());
    assert(seq![t].last() == t);
    assert(parse_ranges(Seq::<Seq<char>>::empty()) == Ok::<Seq<(Option<usize>, Option<usize>)>, Seq<char>>(Seq::empty()));
    assert(page_selection_text(t) == match parse_range(t) {
        Err(e) => Err(e),
        Ok(r) => Ok(Seq::<(Option<usize>, Option<usize>)>::empty().push(r)),
    });
    assert(t[0] == a[0]);
    assert(t.last() == b.last());
    assert('0' <= b[b.len() - 1] <= '9');
    lemma_digits_trimmed(t);
    lemma_split_at_separator(a, b, '-');
    assert('0' <= a[0] <= '9' && '0' <= a.last() <= '9');
    assert('0' <= b[0] <= '9' && '0' <= b.last() <= '9');
    lemma_digits_trimmed(a);
    lemma_digits_trimmed(b);
    assert(unsigned_digits(a) == a);
    assert(unsigned_digits(b) == b);
    assert(parse_page(a) == Ok::<usize, Seq<char>>(start));
    assert(parse_page(b) == Ok::<usize, Seq<char>>(end));
    if start <= end {
        assert(Seq::<(Option<usize>, Option<usize>)>::empty().push((Some(start), Some(end))) =~= seq![
            (Some(start), Some(end)),
        ]);
    }
}

proof fn lemma_decimal_step(s: Seq<char>, k: int)
    requires
        0 <= k < s.len(),
    ensures
        decimal_value(s.subrange(0, k + 1)) == decimal_value(s.subrange(0, k)) * 10 + digit_value(s[k]),
{
    assert(s.subrange(0, k + 1).drop_last() =~= s.subrange(0, k));
}

proof fn lemma_decimal_monotone(s: Seq<char>, k: int, m: int)
    requires
        0 <= k <= m <= s.len(),
        all_digits(s),
    ensures
        0 <= decimal_value(s.subrange(0, k)) <= decimal_value(s.subrange(0, m)),
    decreases m,
{
    if k == m {
        lemma_decimal_nonnegative(s.subrange(0, k));
    } else {
        lemma_decimal_monotone(s, k, m - 1);
        lemma_decimal_step(s, m - 1);
        assert('0' <= s[m - 1]);
    }
}

proof fn lemma_decimal_nonnegative(s: Seq<char>)
    requires
        all_digits(s),
    ensures
        decimal_value(s) >= 0,
    decreases s.len(),
{
    if s.len() > 0 {
        assert(all_digits(s.drop_last())) by {
            assert forall|i: int| 0 <= i < s.drop_last().len() implies '0' <= #[trigger] s.drop_last()[i]
                && s.drop_last()[i] <= '9' by {
                assert(s.drop_last()[i] == s[i]);
            }
        }
        lemma_decimal_nonnegative(s.drop_last());
        assert('0' <= s[s.len() - 1]);
    }
}

/// The message that refuses the page number `text[a..b]`.
fn invalid_page_number(text: &str, a: usize, b: usize) -> (r: String)
    requires
        a <= b <= text@.len(),
    ensures
        r@ == invalid_page_number_message(text@.subrange(a as int, b as int)),
{
    let mut m = String::from_str("`");
    m.append(text.substring_char(a, b));
    m.append("` is not a valid page number");
    m
}

/// The page number in `s[a..b]`, whose text `text` also holds.
fn parse_page_at(s: &[char], text: &str, a: usize, b: usize) -> (r: Result<usize, String>)
    requires
        a <= b <= s@.len(),
        s@ == text@,
    ensures
        r matches Ok(q) ==> q > 0,
        match parse_page(s@.subrange(a as int, b as int)) {
            Ok(p) => r matches Ok(q) && q == p,
            Err(e) => r matches Err(m) && m@ == e,
        },
{
    let ghost v = s@.subrange(a as int, b as int);
    if b - a == 1 && s[a] == '0' {
        proof {
            assert(v =~= seq!['0']);
        }
        return Err(String::from_str("page numbers start at one"));
    }
    proof {
        if v == seq!['0'] {
            assert(seq!['0'].len() == 1);
            assert(v.len() == b - a);
            assert(seq!['0'][0] == '0');
            assert(v[0] == s@[a as int]);
        }
    }
    let mut k = a;
    if k < b && s[k] == '+' {
        k = k + 1;
    }
    let ghost d = unsigned_digits(v);
    proof {
        assert(d =~= s@.subrange(k as int, b as int));
    }
    if k == b {
        proof {
            assert(d.len() == 0);
        }
        return Err(invalid_page_number(text, a, b));
    }
    let mut acc: usize = 0;
    let mut i = k;
    proof {
        assert(d.subrange(0, 0) =~= Seq::<char>::empty());
    }
    while i < b
        invariant
            a <= k < b <= s@.len(),
            k <= i <= b,
            v == s@.subrange(a as int, b as int),
            v != seq!['0'],
            s@ == text@,
            d == unsigned_digits(v),
            d == s@.subrange(k as int, b as int),
            all_digits(d.subrange(0, i - k)),
            acc == decimal_value(d.subrange(0, i - k)),
        decreases b - i,
    {
        let c = s[i];
        proof {
            assert(d[i - k] == c);
        }
        if c < '0' || c > '9' {
            proof {
                assert(!all_digits(d));
            }
            return Err(invalid_page_number(text, a, b));
        }
        proof {
            lemma_decimal_step(d, i - k);
            assert(all_digits(d.subrange(0, i - k + 1))) by {
                assert forall|m: int| 0 <= m < i - k + 1 implies '0' <= #[trigger] d.subrange(0, i - k + 1)[m]
                    && d.subrange(0, i - k + 1)[m] <= '9' by {
                    if m < i - k {
                        assert(d.subrange(0, i - k + 1)[m] == d.subrange(0, i - k)[m]);
                    }
                }
            }
        }
        let digit = ((c as u32) - ('0' as u32)) as usize;
        let next = match acc.checked_mul(10) {
            None => None,
            Some(t) => t.checked_add(digit),
        };
        match next {
            None => {
                proof {
                    if is_page_number(v) {
                        lemma_decimal_monotone(d, i - k + 1, d.len() as int);
                        assert(d.subrange(0, d.len() as int) =~= d);
                    }
                }
                return Err(invalid_page_number(text, a, b));
            },
            Some(u) => {
                acc = u;
                i = i + 1;
            },
        }
    }
    proof {
        assert(d.subrange(0, i - k) =~= d);
    }
    if acc > 0 {
        Ok(acc)
    } else {
        Err(invalid_page_number(text, a, b))
    }
}

/// A one-indexed, inclusive range of source pages; a missing bound leaves
/// that end open.
#[derive(Clone, Copy, Debug, PartialEq, Eq)]
pub struct PageRange {
    pub start: Option<NonZeroUsize>,
    pub end: Option<NonZeroUsize>,
}

/// The number a bound holds, if any.
pub open spec fn bound_value(b: Option<NonZeroUsize>) -> Option<usize> {
    match b {
        Some(n) => Some(n.spec_get()),
        None => None,
    }
}

impl View for PageRange {
    type V = (Option<usize>, Option<usize>);

    open spec fn view(&self) -> (Option<usize>, Option<usize>) {
        (bound_value(self.start), bound_value(self.end))
    }
}

/// The views of `ranges`, in order.
pub open spec fn range_views(ranges: Seq<PageRange>) -> Seq<(Option<usize>, Option<usize>)> {
    ranges.map_values(|r: PageRange| r@)
}

/// A selection of one-indexed source page ranges. No ranges select every
/// source page.
#[derive(Clone, Debug, PartialEq, Eq)]
pub struct PageSelection {
    ranges: Vec<PageRange>,
}

impl View for PageSelection {
    type V = Seq<(Option<usize>, Option<usize>)>;

    closed spec fn view(&self) -> Seq<(Option<usize>, Option<usize>)> {
        range_views(self.ranges@)
    }
}

impl PageSelection {
    pub closed spec fn spec_ranges(&self) -> Seq<PageRange> {
        self.ranges@
    }

    /// Selects all source pages.
    pub fn all() -> (r: Self)
        ensures
            r.spec_ranges() == Seq::<PageRange>::empty(),
            r@ == Seq::<(Option<usize>, Option<usize>)>::empty(),
    {
        let r = PageSelection { ranges: Vec::new() };
        proof {
            assert(r@ =~= Seq::<(Option<usize>, Option<usize>)>::empty());
        }
        r
    }

    /// Selects the union of the given ranges; no ranges select all pages.
    pub fn new(ranges: Vec<PageRange>) -> (r: Self)
        ensures
            r.spec_ranges() == ranges@,
            r@ == range_views(ranges@),
    {
        PageSelection { ranges }
    }

    /// The selected ranges.
    pub fn ranges(&self) -> (r: &[PageRange])
        ensures
            r@ == self.spec_ranges(),
            range_views(r@) == self@,
    {
        self.ranges.as_slice()
    }
}

fn nonzero(p: usize) -> (n: NonZeroUsize)
    requires
        p > 0,
    ensures
        n.spec_get() == p,
{
    NonZeroUsize::new(p).unwrap()
}

/// The range in `s[lo..hi]`, whose text `text` also holds.
fn parse_range_at(s: &[char], text: &str, lo: usize, hi: usize) -> (r: Result<PageRange, String>)
    requires
        lo <= hi <= s@.len(),
        s@ == text@,
    ensures
        match parse_range(s@.subrange(lo as int, hi as int)) {
            Ok(v) => r matches Ok(pr) && pr@ == v,
            Err(e) => r matches Err(m) && m@ == e,
        },
{
    let ghost part = s@.subrange(lo as int, hi as int);
    let (a, b) = trimmed(s, lo, hi);
    let fields = split_bounds(s, a, b, '-');
    let ghost fs = split_on(trim(part), '-');
    proof {
        assert(pieces(s@, fields@) == fs);
        assert(pieces(s@, fields@).len() == fields@.len());
    }
    if fields.len() == 1 {
        let (fa, fb) = fields[0];
        proof {
            assert(bounds_within(fields@, a as int, b as int));
            assert(fs[0] == s@.subrange(fa as int, fb as int));
        }
        let (x, y) = trimmed(s, fa, fb);
        if x == y {
            return Err(String::from_str("page export range must not be empty"));
        }
        match parse_page_at(s, text, x, y) {
            Ok(p) => {
                let n = nonzero(p);
                Ok(PageRange { start: Some(n), end: Some(n) })
            },
            Err(m) => Err(m),
        }
    } else if fields.len() == 2 {
        let (sa, sb) = fields[0];
        let (ea, eb) = fields[1];
        proof {
            assert(bounds_within(fields@, a as int, b as int));
            assert(fs[0] == s@.subrange(sa as int, sb as int));
            assert(fs[1] == s@.subrange(ea as int, eb as int));
        }
        let (sx, sy) = trimmed(s, sa, sb);
        let (ex, ey) = trimmed(s, ea, eb);
        if sx == sy && ex == ey {
            Err(String::from_str("page export range must have start or end"))
        } else if ex == ey {
            match parse_page_at(s, text, sx, sy) {
                Ok(p) => Ok(PageRange { start: Some(nonzero(p)), end: None }),
                Err(m) => Err(m),
            }
        } else if sx == sy {
            match parse_page_at(s, text, ex, ey) {
                Ok(p) => Ok(PageRange { start: None, end: Some(nonzero(p)) }),
                Err(m) => Err(m),
            }
        } else {
            let start = match parse_page_at(s, text, sx, sy) {
                Ok(p) => p,
                Err(m) => {
                    return Err(m);
                },
            };
            let end = match parse_page_at(s, text, ex, ey) {
                Ok(p) => p,
                Err(m) => {
                    return Err(m);
                },
            };
            if start > end {
                Err(String::from_str("page export range must end at a page after the start"))
            } else {
                Ok(PageRange { start: Some(nonzero(start)), end: Some(nonzero(end)) })
            }
        }
    } else {
        Err(String::from_str("page export range must have a single hyphen"))
    }
}

proof fn lemma_refusal_persists(parts: Seq<Seq<char>>, k: int, m: int)
    requires
        0 <= k <= m <= parts.len(),
        parse_ranges(parts.subrange(0, k)) is Err,
    ensures
        parse_ranges(parts.subrange(0, m)) == parse_ranges(parts.subrange(0, k)),
    decreases m - k,
{
    if m > k {
        lemma_refusal_persists(parts, k, m - 1);
        assert(parts.subrange(0, m).drop_last() =~= parts.subrange(0, m - 1));
    }
}

/// Parses a textual page selection such as `1,3-5,9-`: comma-separated
/// parts, each a page, `start-end`, `start-` or `-end`, with white space
/// around parts and numbers ignored.
pub fn parse_page_selection(text: &str) -> (r: Result<PageSelection, String>)
    ensures
        match page_selection_text(text@) {
            Ok(rs) => r matches Ok(sel) && sel@ == rs,
            Err(e) => r matches Err(m) && m@ == e,
        },
{
    let cs = chars_of(text);
    let n = cs.len();
    let parts = split_bounds(cs.as_slice(), 0, n, ',');
    let ghost ps = split_on(text@, ',');
    proof {
        assert(cs@.subrange(0, n as int) =~= text@);
        assert(pieces(cs@, parts@) == ps);
        assert(pieces(cs@, parts@).len() == parts@.len());
        assert(ps.subrange(0, 0) =~= Seq::<Seq<char>>::empty());
        assert(range_views(Seq::<PageRange>::empty()) =~= Seq::<(Option<usize>, Option<usize>)>::empty());
    }
    let mut ranges: Vec<PageRange> = Vec::new();
    let mut k: usize = 0;
    while k < parts.len()
        invariant
            k <= parts@.len(),
            cs@ == text@,
            n == cs@.len(),
            bounds_within(parts@, 0, n as int),
            ps == split_on(text@, ','),
            pieces(cs@, parts@) == ps,
            ps.len() == parts@.len(),
            parse_ranges(ps.subrange(0, k as int)) == Ok::<Seq<(Option<usize>, Option<usize>)>, Seq<char>>(
                range_views(ranges@),
            ),
        decreases parts@.len() - k,
    {
        let (lo, hi) = parts[k];
        proof {
            assert(ps[k as int] == cs@.subrange(lo as int, hi as int));
            assert(ps.subrange(0, k + 1).drop_last() =~= ps.subrange(0, k as int));
            assert(ps.subrange(0, k + 1).last() == ps[k as int]);
        }
        match parse_range_at(cs.as_slice(), text, lo, hi) {
            Err(m) => {
                proof {
                    lemma_refusal_persists(ps, k + 1, ps.len() as int);
                    assert(ps.subrange(0, ps.len() as int) =~= ps);
                }
                return Err(m);
            },
            Ok(r) => {
                let ghost before = ranges@;
                ranges.push(r);
                proof {
                    assert(range_views(ranges@) =~= range_views(before).push(r@));
                }
            },
        }
        k = k + 1;
    }
    proof {
        assert(ps.subrange(0, k as int) =~= ps);
    }
    Ok(PageSelection { ranges })
}

/// The first page of a range: its start, or page one.
pub open spec fn range_first(r: (Option<usize>, Option<usize>)) -> int {
    match r.0 {
        Some(s) => s as int,
        None => 1,
    }
}

/// The last page of a range: its end, or the largest page number.
pub open spec fn range_last(r: (Option<usize>, Option<usize>)) -> int {
    match r.1 {
        Some(e) => e as int,
        None => usize::MAX as int,
    }
}

/// Whether one of `ranges` holds page `p`.
pub open spec fn selects_page(ranges: Seq<(Option<usize>, Option<usize>)>, p: int) -> bool {
    exists|k: int| 0 <= k < ranges.len() && range_first(#[trigger] ranges[k]) <= p <= range_last(ranges[k])
}

/// Whether one of the inclusive intervals `c` holds `p`.
pub open spec fn intervals_cover(c: Seq<(usize, usize)>, p: int) -> bool {
    exists|k: int| 0 <= k < c.len() && (#[trigger] c[k]).0 <= p <= c[k].1
}

/// Non-empty intervals of pages, ascending, with a gap of at least one page
/// between neighbours.
pub open spec fn is_canonical(c: Seq<(usize, usize)>) -> bool {
    &&& forall|k: int| 0 <= k < c.len() ==> 1 <= (#[trigger] c[k]).0 <= c[k].1
    &&& forall|a: int, b: int| #![trigger c[a], c[b]] 0 <= a < b < c.len() ==> c[a].1 + 1 < c[b].0
}

/// Intervals ordered by their first page.
pub open spec fn starts_ascending(c: Seq<(usize, usize)>) -> bool {
    forall|a: int, b: int| #![trigger c[a], c[b]] 0 <= a < b < c.len() ==> c[a].0 <= c[b].0
}

/// Every interval of `c` is non-empty and starts at page one or later.
pub open spec fn intervals_valid(c: Seq<(usize, usize)>) -> bool {
    forall|k: int| 0 <= k < c.len() ==> 1 <= (#[trigger] c[k]).0 <= c[k].1
}

proof fn lemma_cover_insert(c: Seq<(usize, usize)>, pos: int, x: (usize, usize), p: int)
    requires
        0 <= pos <= c.len(),
    ensures
        intervals_cover(c.insert(pos, x), p) <==> (intervals_cover(c, p) || (x.0 <= p <= x.1)),
{
    let d = c.insert(pos, x);
    assert(d.len() == c.len() + 1);
    if intervals_cover(d, p) {
        let k = choose|k: int| 0 <= k < d.len() && (#[trigger] d[k]).0 <= p <= d[k].1;
        if k < pos {
            assert(d[k] == c[k]);
        } else if k > pos {
            assert(d[k] == c[k - 1]);
        } else {
            assert(d[k] == x);
        }
    }
    if intervals_cover(c, p) {
        let k = choose|k: int| 0 <= k < c.len() && (#[trigger] c[k]).0 <= p <= c[k].1;
        if k < pos {
            assert(d[k] == c[k]);
        } else {
            assert(d[k + 1] == c[k]);
        }
    }
    if x.0 <= p <= x.1 {
        assert(d[pos] == x);
    }
}

proof fn lemma_cover_push(c: Seq<(usize, usize)>, x: (usize, usize), p: int)
    ensures
        intervals_cover(c.push(x), p) <==> (intervals_cover(c, p) || (x.0 <= p <= x.1)),
{
    assert(c.push(x) =~= c.insert(c.len() as int, x));
    lemma_cover_insert(c, c.len() as int, x, p);
}

proof fn lemma_selects_push(r: Seq<(Option<usize>, Option<usize>)>, x: (Option<usize>, Option<usize>), p: int)
    ensures
        selects_page(r.push(x), p) <==> (selects_page(r, p) || (range_first(x) <= p <= range_last(x))),
{
    let d = r.push(x);
    if selects_page(d, p) {
        let k = choose|k: int| 0 <= k < d.len() && range_first(#[trigger] d[k]) <= p <= range_last(d[k]);
        if k < r.len() {
            assert(d[k] == r[k]);
        }
    }
    if selects_page(r, p) {
        let k = choose|k: int| 0 <= k < r.len() && range_first(#[trigger] r[k]) <= p <= range_last(r[k]);
        assert(d[k] == r[k]);
    }
    if range_first(x) <= p <= range_last(x) {
        assert(d[r.len() as int] == x);
    }
}

/// Inserts `x` after every interval that starts no later than it.
fn insert_by_start(v: &mut Vec<(usize, usize)>, x: (usize, usize)) -> (pos: usize)
    requires
        starts_ascending(old(v)@),
        intervals_valid(old(v)@),
        1 <= x.0 <= x.1,
    ensures
        pos <= old(v)@.len(),
        final(v)@ == old(v)@.insert(pos as int, x),
        starts_ascending(final(v)@),
        intervals_valid(final(v)@),
{
    let mut i: usize = 0;
    while i < v.len() && v[i].0 <= x.0
        invariant
            i <= v@.len(),
            forall|k: int| 0 <= k < i ==> (#[trigger] v@[k]).0 <= x.0,
        decreases v@.len() - i,
    {
        i = i + 1;
    }
    let ghost before = v@;
    v.insert(i, x);
    proof {
        let d = v@;
        assert(d.len() == before.len() + 1);
        assert forall|k: int| 0 <= k < d.len() implies d[k] == (if k < i {
            before[k]
        } else if k == i {
            x
        } else {
            before[k - 1]
        }) by {}
        assert forall|a: int, b: int| #![trigger d[a], d[b]] 0 <= a < b < d.len() implies d[a].0 <= d[b].0 by {
            if b == i {
                assert(before[a].0 <= x.0);
            } else if a == i {
                assert(before[i as int].0 > x.0);
                if b - 1 > i {
                    assert(before[i as int].0 <= before[b - 1].0);
                }
            } else if a < i && b > i {
                assert(before[a].0 <= x.0);
                assert(before[i as int].0 > x.0);
                if b - 1 > i {
                    assert(before[i as int].0 <= before[b - 1].0);
                }
            } else if a < i {
                assert(before[a].0 <= before[b].0);
            } else {
                assert(before[a - 1].0 <= before[b - 1].0);
            }
        }
        assert forall|k: int| 0 <= k < d.len() implies 1 <= (#[trigger] d[k]).0 <= d[k].1 by {
            if k < i {
                assert(d[k] == before[k]);
            } else if k > i {
                assert(d[k] == before[k - 1]);
            }
        }
    }
    i
}

/// The pages a selection denotes as ascending, disjoint, non-adjacent
/// intervals, and whether it selects all pages by having no ranges.
///
/// Ranges that end before they start select nothing and leave no interval.
pub fn canonical_page_selection(selection: &PageSelection) -> (r: (bool, Vec<(usize, usize)>))
    ensures
        r.0 == (selection@.len() == 0),
        is_canonical(r.1@),
        forall|p: int| 1 <= p ==> (intervals_cover(r.1@, p) <==> selects_page(selection@, p)),
{
    let ranges = selection.ranges();
    let ghost views = selection@;
    let mut sorted: Vec<(usize, usize)> = Vec::new();
    let mut i: usize = 0;
    proof {
        assert(views.subrange(0, 0) =~= Seq::<(Option<usize>, Option<usize>)>::empty());
    }
    while i < ranges.len()
        invariant
            i <= ranges@.len(),
            views == range_views(ranges@),
            starts_ascending(sorted@),
            intervals_valid(sorted@),
            forall|p: int| 1 <= p ==> (intervals_cover(sorted@, p) <==> selects_page(views.subrange(0, i as int), p)),
        decreases ranges@.len() - i,
    {
        let r = ranges[i];
        let first: usize = match r.start {
            Some(n) => n.get(),
            None => 1,
        };
        let last: usize = match r.end {
            Some(n) => n.get(),
            None => usize::MAX,
        };
        let ghost before = sorted@;
        proof {
            assert(views[i as int] == r@);
            assert(range_first(r@) == first);
            assert(range_last(r@) == last);
            assert(views.subrange(0, i + 1) =~= views.subrange(0, i as int).push(r@));
        }
        if first <= last {
            let pos = insert_by_start(&mut sorted, (first, last));
            proof {
                assert forall|p: int| 1 <= p implies (intervals_cover(sorted@, p) <==> selects_page(
                    views.subrange(0, i + 1),
                    p,
                )) by {
                    lemma_cover_insert(before, pos as int, (first, last), p);
                    lemma_selects_push(views.subrange(0, i as int), r@, p);
                }
            }
        } else {
            proof {
                assert forall|p: int| 1 <= p implies (intervals_cover(sorted@, p) <==> selects_page(
                    views.subrange(0, i + 1),
                    p,
                )) by {
                    lemma_selects_push(views.subrange(0, i as int), r@, p);
                }
            }
        }
        i = i + 1;
    }
    proof {
        assert(views.subrange(0, i as int) =~= views);
    }
    let mut out: Vec<(usize, usize)> = Vec::new();
    let mut j: usize = 0;
    proof {
        assert(sorted@.subrange(0, 0) =~= Seq::<(usize, usize)>::empty());
    }
    while j < sorted.len()
        invariant
            j <= sorted@.len(),
            starts_ascending(sorted@),
            intervals_valid(sorted@),
            is_canonical(out@),
            j > 0 ==> out@.len() > 0,
            j < sorted@.len() && out@.len() > 0 ==> out@.last().0 <= sorted@[j as int].0,
            forall|p: int| 1 <= p ==> (intervals_cover(out@, p) <==> intervals_cover(sorted@.subrange(0, j as int), p)),
        decreases sorted@.len() - j,
    {
        let (s, e) = sorted[j];
        let ghost before = out@;
        proof {
            assert(sorted@.subrange(0, j + 1) =~= sorted@.subrange(0, j as int).push((s, e)));
            assert(1 <= s <= e);
        }
        let n = out.len();
        if n > 0 && (out[n - 1].1 == usize::MAX || s <= out[n - 1].1 + 1) {
            let (ls, le) = out[n - 1];
            let ne = if e > le { e } else { le };
            out.set(n - 1, (ls, ne));
            proof {
                assert(ls <= s);
                assert forall|p: int| 1 <= p implies (intervals_cover(out@, p) <==> intervals_cover(
                    sorted@.subrange(0, j + 1),
                    p,
                )) by {
                    lemma_cover_push(sorted@.subrange(0, j as int), (s, e), p);
                    if intervals_cover(out@, p) {
                        let k = choose|k: int| 0 <= k < out@.len() && (#[trigger] out@[k]).0 <= p <= out@[k].1;
                        if k != n - 1 {
                            assert(out@[k] == before[k]);
                        } else if p > le {
                            assert(s <= p <= e);
                        } else {
                            assert(before[k] == (ls, le));
                        }
                    }
                    if intervals_cover(before, p) {
                        let k = choose|k: int| 0 <= k < before.len() && (#[trigger] before[k]).0 <= p <= before[k].1;
                        if k != n - 1 {
                            assert(out@[k] == before[k]);
                        } else {
                            assert(out@[k] == (ls, ne));
                        }
                    }
                    if s <= p <= e {
                        assert(out@[n - 1] == (ls, ne));
                    }
                }
                assert forall|a: int, b: int| #![trigger out@[a], out@[b]] 0 <= a < b < out@.len() implies out@[a].1
                    + 1 < out@[b].0 by {
                    assert(before[a].1 + 1 < before[b].0);
                }
            }
        } else {
            out.push((s, e));
            proof {
                assert forall|p: int| 1 <= p implies (intervals_cover(out@, p) <==> intervals_cover(
                    sorted@.subrange(0, j + 1),
                    p,
                )) by {
                    lemma_cover_push(sorted@.subrange(0, j as int), (s, e), p);
                    lemma_cover_push(before, (s, e), p);
                }
                assert forall|a: int, b: int| #![trigger out@[a], out@[b]] 0 <= a < b < out@.len() implies out@[a].1
                    + 1 < out@[b].0 by {
                    if b == n {
                        assert(out@[b] == (s, e));
                        assert(before[n - 1].1 + 1 < s);
                        if a < n - 1 {
                            assert(before[a].1 + 1 < before[n - 1].0);
                        }
                    } else {
                        assert(before[a].1 + 1 < before[b].0);
                    }
                }
            }
        }
        proof {
            if j + 1 < sorted@.len() {
                assert(sorted@[j as int].0 <= sorted@[j + 1].0);
            }
        }
        j = j + 1;
    }
    proof {
        assert(sorted@.subrange(0, j as int) =~= sorted@);
    }
    (ranges.len() == 0, out)
}

/// A range whose both ends are given and whose end comes before its start.
pub open spec fn is_reversed(r: (Option<usize>, Option<usize>)) -> bool {
    match (r.0, r.1) {
        (Some(s), Some(e)) => s > e,
        _ => false,
    }
}

/// The order of ranges: by first page, then by last page.
pub open spec fn range_key_lt(a: (Option<usize>, Option<usize>), b: (Option<usize>, Option<usize>)) -> bool {
    range_first(a) < range_first(b) || (range_first(a) == range_first(b) && range_last(a) < range_last(b))
}

/// Ranges strictly ascending in the order of `range_key_lt`.
pub open spec fn ranges_ascending(s: Seq<(Option<usize>, Option<usize>)>) -> bool {
    forall|a: int, b: int| #![trigger s[a], s[b]] 0 <= a < b < s.len() ==> range_key_lt(s[a], s[b])
}

/// The shape that canonicalization gives a range that is not reversed: a
/// start of page one or later, no end when it reaches the largest page
/// number, and its end otherwise.
pub open spec fn is_closed_form(r: (Option<usize>, Option<usize>)) -> bool {
    &&& r.0 is Some
    &&& 1 <= range_first(r) <= range_last(r)
    &&& (r.1 is None <==> range_last(r) == usize::MAX)
}

/// The range that canonicalization lists for the interval or reversed pair `x`.
pub open spec fn closed_range(x: (usize, usize)) -> (Option<usize>, Option<usize>) {
    (Some(x.0), if x.1 == usize::MAX { None } else { Some(x.1) })
}

/// Pairs strictly ascending: by first element, then by second.
pub open spec fn pairs_ascending(s: Seq<(usize, usize)>) -> bool {
    forall|a: int, b: int| #![trigger s[a], s[b]] 0 <= a < b < s.len() ==> (s[a].0 < s[b].0 || (s[a].0
        == s[b].0 && s[a].1 < s[b].1))
}

/// `x` is the pair of ends of a reversed range of `ranges`.
pub open spec fn reversed_in(ranges: Seq<(Option<usize>, Option<usize>)>, x: (usize, usize)) -> bool {
    exists|j: int| 0 <= j < ranges.len() && #[trigger] ranges[j] == (Some(x.0), Some(x.1)) && x.0 > x.1
}

/// The pair of ends that an issue reports as reversed.
pub open spec fn issue_pair(issue: CompilationRequestIssue) -> (usize, usize) {
    match issue {
        CompilationRequestIssue::InvalidPageRange { start, end } => (start.spec_get(), end.spec_get()),
        _ => (0, 0),
    }
}

/// `added` reports each distinct reversed range of `ranges` once, ascending
/// by start, then by end.
pub open spec fn reports_reversed_ranges(added: Seq<CompilationRequestIssue>, ranges: Seq<(Option<usize>, Option<usize>)>) -> bool {
    &&& forall|k: int| 0 <= k < added.len() ==> (#[trigger] added[k]) is InvalidPageRange
    &&& pairs_ascending(added.map_values(|i: CompilationRequestIssue| issue_pair(i)))
    &&& forall|k: int| 0 <= k < added.len() ==> reversed_in(ranges, issue_pair(#[trigger] added[k]))
    &&& forall|x: (usize, usize)| reversed_in(ranges, x) ==> exists|k: int| 0 <= k < added.len() && issue_pair(
        #[trigger] added[k],
    ) == x
}

/// What canonicalization makes of the ranges `old`: ascending ranges, each
/// either a reversed range of `old` or in closed form; every reversed range
/// of `old` listed; the others separated by at least one page and selecting
/// exactly the pages that `old` selects.
pub open spec fn canonical_ranges_of(new: Seq<(Option<usize>, Option<usize>)>, old: Seq<(Option<usize>, Option<usize>)>) -> bool {
    &&& ranges_ascending(new)
    &&& forall|k: int| 0 <= k < new.len() ==> is_reversed(#[trigger] new[k]) || is_closed_form(new[k])
    &&& forall|k: int| 0 <= k < new.len() && is_reversed(#[trigger] new[k]) ==> old.contains(new[k])
    &&& forall|j: int| 0 <= j < old.len() && is_reversed(#[trigger] old[j]) ==> new.contains(old[j])
    &&& forall|a: int, b: int| #![trigger new[a], new[b]] 0 <= a < b < new.len() && !is_reversed(new[a]) && !is_reversed(new[b])
        ==> range_last(new[a]) + 1 < range_first(new[b])
    &&& forall|p: int| 1 <= p ==> (selects_page(new, p) <==> selects_page(old, p))
}

/// Inserts `x` into strictly ascending pairs unless it is there already.
fn insert_pair(v: &mut Vec<(usize, usize)>, x: (usize, usize))
    requires
        pairs_ascending(old(v)@),
    ensures
        pairs_ascending(final(v)@),
        forall|y: (usize, usize)| final(v)@.contains(y) <==> (old(v)@.contains(y) || y == x),
{
    let mut i: usize = 0;
    while i < v.len() && (v[i].0 < x.0 || (v[i].0 == x.0 && v[i].1 < x.1))
        invariant
            i <= v@.len(),
            forall|k: int| 0 <= k < i ==> ((#[trigger] v@[k]).0 < x.0 || (v@[k].0 == x.0 && v@[k].1 < x.1)),
        decreases v@.len() - i,
    {
        i = i + 1;
    }
    if i < v.len() && v[i].0 == x.0 && v[i].1 == x.1 {
        proof {
            assert(v@[i as int] == x);
        }
        return;
    }
    let ghost before = v@;
    v.insert(i, x);
    proof {
        let d = v@;
        assert(d.len() == before.len() + 1);
        assert forall|k: int| 0 <= k < d.len() implies d[k] == (if k < i {
            before[k]
        } else if k == i {
            x
        } else {
            before[k - 1]
        }) by {}
        assert forall|a: int, b: int| #![trigger d[a], d[b]] 0 <= a < b < d.len() implies (d[a].0 < d[b].0 || (
        d[a].0 == d[b].0 && d[a].1 < d[b].1)) by {
            if b == i {
                assert(before[a].0 < x.0 || (before[a].0 == x.0 && before[a].1 < x.1));
            } else if a == i {
                if b - 1 > i {
                    assert(before[i as int].0 < before[b - 1].0 || (before[i as int].0 == before[b - 1].0
                        && before[i as int].1 < before[b - 1].1));
                }
            } else if a < i && b > i {
                assert(before[a].0 < x.0 || (before[a].0 == x.0 && before[a].1 < x.1));
                if b - 1 > i {
                    assert(before[i as int].0 < before[b - 1].0 || (before[i as int].0 == before[b - 1].0
                        && before[i as int].1 < before[b - 1].1));
                }
            } else if a < i {
                assert(d[a] == before[a] && d[b] == before[b]);
            } else {
                assert(d[a] == before[a - 1] && d[b] == before[b - 1]);
            }
        }
        assert forall|y: (usize, usize)| d.contains(y) <==> (before.contains(y) || y == x) by {
            if d.contains(y) {
                let k = choose|k: int| 0 <= k < d.len() && d[k] == y;
                if k < i {
                    assert(before[k] == y);
                } else if k > i {
                    assert(before[k - 1] == y);
                }
            }
            if before.contains(y) {
                let k = choose|k: int| 0 <= k < before.len() && before[k] == y;
                if k < i {
                    assert(d[k] == y);
                } else {
                    assert(d[k + 1] == y);
                }
            }
            if y == x {
                assert(d[i as int] == x);
            }
        }
    }
}

proof fn lemma_closed_range(x: (usize, usize))
    ensures
        range_first(closed_range(x)) == x.0,
        range_last(closed_range(x)) == x.1,
        is_reversed(closed_range(x)) <==> x.0 > x.1,
        x.0 > x.1 ==> closed_range(x) == (Some(x.0), Some(x.1)),
        1 <= x.0 <= x.1 ==> is_closed_form(closed_range(x)),
{
}

proof fn lemma_canonical_listing(
    old: Seq<(Option<usize>, Option<usize>)>,
    canon: Seq<(usize, usize)>,
    rev: Seq<(usize, usize)>,
    keys: Seq<(usize, usize)>,
)
    requires
        is_canonical(canon),
        forall|p: int| 1 <= p ==> (intervals_cover(canon, p) <==> selects_page(old, p)),
        pairs_ascending(keys),
        forall|y: (usize, usize)| keys.contains(y) <==> (rev.contains(y) || canon.contains(y)),
        forall|y: (usize, usize)| rev.contains(y) <==> reversed_in(old, y),
    ensures
        canonical_ranges_of(keys.map_values(|x: (usize, usize)| closed_range(x)), old),
{
    let new = keys.map_values(|x: (usize, usize)| closed_range(x));
    assert forall|k: int| 0 <= k < keys.len() implies (canon.contains(#[trigger] keys[k]) && 1 <= keys[k].0
        <= keys[k].1) || (rev.contains(keys[k]) && keys[k].0 > keys[k].1) by {
        assert(keys.contains(keys[k]));
        if canon.contains(keys[k]) {
            let i = choose|i: int| 0 <= i < canon.len() && canon[i] == keys[k];
            assert(1 <= canon[i].0 <= canon[i].1);
        } else {
            assert(rev.contains(keys[k]));
            assert(reversed_in(old, keys[k]));
        }
    }
    assert forall|k: int| 0 <= k < new.len() implies new[k] == closed_range(keys[k]) && range_first(#[trigger] new[k])
        == keys[k].0 && range_last(new[k]) == keys[k].1 && (is_reversed(new[k]) <==> keys[k].0 > keys[k].1) by {
        lemma_closed_range(keys[k]);
    }
    assert forall|a: int, b: int| #![trigger new[a], new[b]] 0 <= a < b < new.len() implies range_key_lt(new[a], new[b]) by {
        assert(keys[a].0 < keys[b].0 || (keys[a].0 == keys[b].0 && keys[a].1 < keys[b].1));
    }
    assert forall|k: int| 0 <= k < new.len() implies is_reversed(#[trigger] new[k]) || is_closed_form(new[k]) by {
        lemma_closed_range(keys[k]);
    }
    assert forall|k: int| 0 <= k < new.len() && is_reversed(#[trigger] new[k]) implies old.contains(new[k]) by {
        lemma_closed_range(keys[k]);
        assert(rev.contains(keys[k]));
        assert(reversed_in(old, keys[k]));
        let j = choose|j: int| 0 <= j < old.len() && #[trigger] old[j] == (Some(keys[k].0), Some(keys[k].1)) && keys[k].0
            > keys[k].1;
        assert(old[j] == new[k]);
    }
    assert forall|j: int| 0 <= j < old.len() && is_reversed(#[trigger] old[j]) implies new.contains(old[j]) by {
        let x: (usize, usize) = (old[j].0->0, old[j].1->0);
        assert(old[j] == (Some(x.0), Some(x.1)));
        assert(reversed_in(old, x));
        assert(rev.contains(x));
        assert(keys.contains(x));
        let k = choose|k: int| 0 <= k < keys.len() && keys[k] == x;
        lemma_closed_range(x);
        assert(new[k] == old[j]);
    }
    assert forall|a: int, b: int| #![trigger new[a], new[b]] 0 <= a < b < new.len() && !is_reversed(new[a]) && !is_reversed(new[b])
        implies range_last(new[a]) + 1 < range_first(new[b]) by {
        assert(canon.contains(keys[a]));
        assert(canon.contains(keys[b]));
        let i = choose|i: int| 0 <= i < canon.len() && canon[i] == keys[a];
        let j = choose|j: int| 0 <= j < canon.len() && canon[j] == keys[b];
        assert(keys[a].0 < keys[b].0 || (keys[a].0 == keys[b].0 && keys[a].1 < keys[b].1));
        if j < i {
            assert(canon[j].1 + 1 < canon[i].0);
            assert(1 <= canon[j].0 <= canon[j].1);
        } else if i == j {
        } else {
            assert(canon[i].1 + 1 < canon[j].0);
        }
    }
    assert forall|p: int| 1 <= p implies (selects_page(new, p) <==> selects_page(old, p)) by {
        if selects_page(new, p) {
            let k = choose|k: int| 0 <= k < new.len() && range_first(#[trigger] new[k]) <= p <= range_last(new[k]);
            assert(canon.contains(keys[k]));
            let i = choose|i: int| 0 <= i < canon.len() && canon[i] == keys[k];
            assert(canon[i].0 <= p <= canon[i].1);
            assert(intervals_cover(canon, p));
        }
        if selects_page(old, p) {
            assert(intervals_cover(canon, p));
            let i = choose|i: int| 0 <= i < canon.len() && (#[trigger] canon[i]).0 <= p <= canon[i].1;
            assert(canon.contains(canon[i]));
            assert(keys.contains(canon[i]));
            let k = choose|k: int| 0 <= k < keys.len() && keys[k] == canon[i];
            assert(range_first(new[k]) <= p <= range_last(new[k]));
        }
    }
}

/// Brings a selection into canonical form and reports the ranges that end
/// before they start.
///
/// Each distinct reversed range is reported once, ascending by start and
/// then by end, after the issues already in `issues`. A selection without
/// ranges stays as it is. Otherwise its ranges become the canonical
/// intervals of the pages it selects, followed in order by the reversed
/// ranges, all ascending by start and then by end.
pub fn canonicalize_page_selection(selection: &mut PageSelection, issues: &mut Vec<CompilationRequestIssue>)
    ensures
        final(issues)@.len() >= old(issues)@.len(),
        final(issues)@.subrange(0, old(issues)@.len() as int) == old(issues)@,
        reports_reversed_ranges(
            final(issues)@.subrange(old(issues)@.len() as int, final(issues)@.len() as int),
            old(selection)@,
        ),
        old(selection)@.len() == 0 ==> final(selection)@ == old(selection)@,
        old(selection)@.len() > 0 ==> canonical_ranges_of(final(selection)@, old(selection)@),
{
    let ghost old_views = selection@;
    let ghost old_issues = issues@;
    let (_, canon) = canonical_page_selection(selection);
    let n = selection.ranges.len();
    let mut rev: Vec<(usize, usize)> = Vec::new();
    let mut i: usize = 0;
    while i < n
        invariant
            i <= n,
            n == selection.ranges@.len(),
            old_views == selection@,
            old_views == range_views(selection.ranges@),
            pairs_ascending(rev@),
            forall|y: (usize, usize)| rev@.contains(y) ==> y.0 > y.1 && y.1 >= 1,
            forall|y: (usize, usize)| rev@.contains(y) <==> reversed_in(old_views.subrange(0, i as int), y),
        decreases n - i,
    {
        let r = selection.ranges[i];
        let ghost before = rev@;
        let ghost prefix = old_views.subrange(0, i as int);
        let ghost next = old_views.subrange(0, i + 1);
        proof {
            assert(old_views[i as int] == r@);
            assert forall|k: int| 0 <= k < i implies next[k] == prefix[k] by {}
            assert(next[i as int] == r@);
        }
        let mut added: Option<(usize, usize)> = None;
        if let Some(s) = r.start {
            if let Some(e) = r.end {
                let s = s.get();
                let e = e.get();
                if s > e {
                    insert_pair(&mut rev, (s, e));
                    added = Some((s, e));
                }
            }
        }
        proof {
            assert(added matches Some(x) ==> r@ == (Some(x.0), Some(x.1)) && x.0 > x.1 && x.1 >= 1);
            assert(added is None ==> !is_reversed(r@));
            assert(added is None ==> rev@ == before);
            assert forall|y: (usize, usize)| rev@.contains(y) <==> reversed_in(next, y) by {
                if reversed_in(next, y) {
                    let j = choose|j: int| 0 <= j < next.len() && #[trigger] next[j] == (Some(y.0), Some(y.1)) && y.0 > y.1;
                    if j < i {
                        assert(prefix[j] == next[j]);
                        assert(reversed_in(prefix, y));
                    } else {
                        assert(next[j] == r@);
                        assert(is_reversed(r@));
                    }
                }
                if reversed_in(prefix, y) {
                    let j = choose|j: int| 0 <= j < prefix.len() && #[trigger] prefix[j] == (Some(y.0), Some(y.1)) && y.0 > y.1;
                    assert(next[j] == prefix[j]);
                }
                if added == Some(y) {
                    assert(next[i as int] == (Some(y.0), Some(y.1)));
                }
            }
        }
        i = i + 1;
    }
    proof {
        assert(old_views.subrange(0, n as int) =~= old_views);
    }
    let ghost reversed = rev@;
    let mut k: usize = 0;
    while k < rev.len()
        invariant
            k <= rev@.len(),
            rev@ == reversed,
            forall|y: (usize, usize)| reversed.contains(y) ==> y.0 > y.1 && y.1 >= 1,
            issues@.len() == old_issues.len() + k,
            issues@.subrange(0, old_issues.len() as int) == old_issues,
            forall|m: int| 0 <= m < k ==> (#[trigger] issues@[old_issues.len() + m]) is InvalidPageRange
                && issue_pair(issues@[old_issues.len() + m]) == reversed[m],
        decreases rev@.len() - k,
    {
        let (s, e) = rev[k];
        proof {
            assert(reversed.contains(reversed[k as int]));
        }
        let ghost before = issues@;
        issues.push(CompilationRequestIssue::InvalidPageRange { start: nonzero(s), end: nonzero(e) });
        proof {
            assert forall|m: int| 0 <= m < k implies #[trigger] issues@[old_issues.len() + m] == before[old_issues.len() + m] by {}
            assert(issues@.subrange(0, old_issues.len() as int) =~= before.subrange(0, old_issues.len() as int));
        }
        k = k + 1;
    }
    proof {
        let added = issues@.subrange(old_issues.len() as int, issues@.len() as int);
        let pairs = added.map_values(|i: CompilationRequestIssue| issue_pair(i));
        assert forall|m: int| 0 <= m < added.len() implies added[m] == issues@[old_issues.len() + m] by {}
        assert(pairs =~= reversed);
        assert forall|m: int| 0 <= m < added.len() implies reversed_in(old_views, issue_pair(#[trigger] added[m])) by {
            assert(reversed.contains(reversed[m]));
        }
        assert forall|x: (usize, usize)| reversed_in(old_views, x) implies exists|m: int| 0 <= m < added.len()
            && issue_pair(#[trigger] added[m]) == x by {
            assert(reversed.contains(x));
            let m = choose|m: int| 0 <= m < reversed.len() && reversed[m] == x;
            assert(issue_pair(added[m]) == pairs[m]);
        }
    }
    if n == 0 {
        return;
    }
    let mut c: usize = 0;
    while c < canon.len()
        invariant
            c <= canon@.len(),
            is_canonical(canon@),
            pairs_ascending(rev@),
            forall|y: (usize, usize)| rev@.contains(y) ==> y.0 >= 1 && y.1 >= 1,
            forall|y: (usize, usize)| rev@.contains(y) <==> (reversed.contains(y) || canon@.subrange(0, c as int).contains(y)),
            forall|y: (usize, usize)| reversed.contains(y) ==> y.0 > y.1 && y.1 >= 1,
        decreases canon@.len() - c,
    {
        let x = canon[c];
        let ghost before = rev@;
        proof {
            assert(1 <= canon@[c as int].0 <= canon@[c as int].1);
        }
        insert_pair(&mut rev, x);
        proof {
            let prefix = canon@.subrange(0, c as int);
            let next = canon@.subrange(0, c + 1);
            assert forall|y: (usize, usize)| next.contains(y) <==> (prefix.contains(y) || y == x) by {
                if next.contains(y) {
                    let j = choose|j: int| 0 <= j < next.len() && next[j] == y;
                    if j < c {
                        assert(prefix[j] == y);
                    }
                }
                if prefix.contains(y) {
                    let j = choose|j: int| 0 <= j < prefix.len() && prefix[j] == y;
                    assert(next[j] == y);
                }
                if y == x {
                    assert(next[c as int] == x);
                }
            }
            assert forall|y: (usize, usize)| rev@.contains(y) <==> (reversed.contains(y) || next.contains(y)) by {
                assert(rev@.contains(y) <==> (before.contains(y) || y == x));
                assert(before.contains(y) <==> (reversed.contains(y) || prefix.contains(y)));
                assert(next.contains(y) <==> (prefix.contains(y) || y == x));
            }
        }
        c = c + 1;
    }
    proof {
        assert(canon@.subrange(0, c as int) =~= canon@);
    }
    let mut out: Vec<PageRange> = Vec::new();
    let mut m: usize = 0;
    while m < rev.len()
        invariant
            m <= rev@.len(),
            forall|y: (usize, usize)| rev@.contains(y) ==> y.0 >= 1 && y.1 >= 1,
            out@.len() == m,
            forall|j: int| 0 <= j < m ==> (#[trigger] out@[j])@ == closed_range(rev@[j]),
        decreases rev@.len() - m,
    {
        let (s, e) = rev[m];
        proof {
            assert(rev@.contains(rev@[m as int]));
        }
        let end = if e == usize::MAX {
            None
        } else {
            Some(nonzero(e))
        };
        out.push(PageRange { start: Some(nonzero(s)), end });
        m = m + 1;
    }
    proof {
        lemma_canonical_listing(old_views, canon@, reversed, rev@);
        assert(range_views(out@) =~= rev@.map_values(|x: (usize, usize)| closed_range(x)));
    }
    selection.ranges = out;
}

proof fn lemma_canonical_first_is_least(c: Seq<(usize, usize)>, p: int)
    requires
        is_canonical(c),
        c.len() > 0,
        intervals_cover(c, p),
    ensures
        c[0].0 <= p,
        p > c[0].1 ==> p > c[0].1 + 1 && intervals_cover(c.subrange(1, c.len() as int), p),
{
    let k = choose|k: int| 0 <= k < c.len() && (#[trigger] c[k]).0 <= p <= c[k].1;
    if k > 0 {
        assert(c[0].1 + 1 < c[k].0);
        assert(1 <= c[0].0 <= c[0].1);
        let t = c.subrange(1, c.len() as int);
        assert(t[k - 1] == c[k]);
    }
}

proof fn lemma_canonical_tail(c: Seq<(usize, usize)>)
    requires
        is_canonical(c),
        c.len() > 0,
    ensures
        is_canonical(c.subrange(1, c.len() as int)),
        forall|p: int| #![trigger intervals_cover(c, p)] p > c[0].1 ==> (intervals_cover(c, p) <==> intervals_cover(
            c.subrange(1, c.len() as int),
            p,
        )),
        forall|p: int| p <= c[0].1 + 1 ==> !intervals_cover(#[trigger] c.subrange(1, c.len() as int), p),
{
    let t = c.subrange(1, c.len() as int);
    assert forall|a: int, b: int| #![trigger t[a], t[b]] 0 <= a < b < t.len() implies t[a].1 + 1 < t[b].0 by {
        assert(t[a] == c[a + 1] && t[b] == c[b + 1]);
    }
    assert forall|k: int| 0 <= k < t.len() implies 1 <= (#[trigger] t[k]).0 <= t[k].1 by {
        assert(t[k] == c[k + 1]);
    }
    assert forall|p: int| #![trigger intervals_cover(c, p)] p > c[0].1 implies (intervals_cover(c, p) <==> intervals_cover(t, p)) by {
        if intervals_cover(c, p) {
            lemma_canonical_first_is_least(c, p);
        }
        if intervals_cover(t, p) {
            let k = choose|k: int| 0 <= k < t.len() && (#[trigger] t[k]).0 <= p <= t[k].1;
            assert(c[k + 1] == t[k]);
        }
    }
    assert forall|p: int| p <= c[0].1 + 1 implies !intervals_cover(#[trigger] c.subrange(1, c.len() as int), p) by {
        if intervals_cover(t, p) {
            let k = choose|k: int| 0 <= k < t.len() && (#[trigger] t[k]).0 <= p <= t[k].1;
            assert(c[k + 1] == t[k]);
            assert(c[0].1 + 1 < c[k + 1].0);
        }
    }
}

/// Canonical intervals are determined by the pages they cover: two lists of
/// canonical intervals that cover the same pages are the same list.
pub proof fn lemma_canonical_intervals_unique(a: Seq<(usize, usize)>, b: Seq<(usize, usize)>)
    requires
        is_canonical(a),
        is_canonical(b),
        forall|p: int| 1 <= p ==> (intervals_cover(a, p) <==> intervals_cover(b, p)),
    ensures
        a == b,
    decreases a.len() + b.len(),
{
    if a.len() == 0 || b.len() == 0 {
        if a.len() > 0 {
            assert(1 <= a[0].0 <= a[0].1);
            assert(intervals_cover(a, a[0].0 as int));
        }
        if b.len() > 0 {
            assert(1 <= b[0].0 <= b[0].1);
            assert(intervals_cover(b, b[0].0 as int));
        }
        assert(a =~= b);
    } else {
        assert(1 <= a[0].0 <= a[0].1);
        assert(1 <= b[0].0 <= b[0].1);
        assert(intervals_cover(a, a[0].0 as int));
        assert(intervals_cover(b, b[0].0 as int));
        lemma_canonical_first_is_least(b, a[0].0 as int);
        lemma_canonical_first_is_least(a, b[0].0 as int);
        assert(a[0].0 == b[0].0);
        if a[0].1 < b[0].1 {
            let q = a[0].1 + 1;
            assert(b[0].0 <= q <= b[0].1);
            assert(intervals_cover(b, q));
            lemma_canonical_first_is_least(a, q);
        }
        if b[0].1 < a[0].1 {
            let q = b[0].1 + 1;
            assert(a[0].0 <= q <= a[0].1);
            assert(intervals_cover(a, q));
            lemma_canonical_first_is_least(b, q);
        }
        assert(a[0] == b[0]);
        let ta = a.subrange(1, a.len() as int);
        let tb = b.subrange(1, b.len() as int);
        lemma_canonical_tail(a);
        lemma_canonical_tail(b);
        assert forall|p: int| 1 <= p implies (intervals_cover(ta, p) <==> intervals_cover(tb, p)) by {
            if p > a[0].1 {
                assert(intervals_cover(a, p) <==> intervals_cover(ta, p));
                assert(intervals_cover(b, p) <==> intervals_cover(tb, p));
            } else {
                assert(!intervals_cover(ta, p));
                assert(!intervals_cover(tb, p));
            }
        }
        lemma_canonical_intervals_unique(ta, tb);
        assert(a =~= seq![a[0]] + ta);
        assert(b =~= seq![b[0]] + tb);
    }
}

/// The canonical intervals of a selection depend on nothing but the pages it
/// selects: selections that select the same pages have the same canonical
/// intervals.
pub proof fn lemma_canonical_selection_depends_on_pages(
    x: Seq<(Option<usize>, Option<usize>)>,
    y: Seq<(Option<usize>, Option<usize>)>,
    cx: Seq<(usize, usize)>,
    cy: Seq<(usize, usize)>,
)
    requires
        is_canonical(cx),
        is_canonical(cy),
        forall|p: int| 1 <= p ==> (intervals_cover(cx, p) <==> selects_page(x, p)),
        forall|p: int| 1 <= p ==> (intervals_cover(cy, p) <==> selects_page(y, p)),
        forall|p: int| 1 <= p ==> (selects_page(x, p) <==> selects_page(y, p)),
    ensures
        cx == cy,
{
    lemma_canonical_intervals_unique(cx, cy);
}

/// The pages of a range of a canonical listing that is not reversed form a
/// maximal run of the pages that `old` selects.
proof fn lemma_listed_range_is_maximal_run(u: Seq<(Option<usize>, Option<usize>)>, old: Seq<(Option<usize>, Option<usize>)>, k: int)
    requires
        canonical_ranges_of(u, old),
        0 <= k < u.len(),
        !is_reversed(u[k]),
    ensures
        1 <= range_first(u[k]) <= range_last(u[k]),
        forall|p: int| range_first(u[k]) <= p <= range_last(u[k]) ==> selects_page(old, p),
        range_first(u[k]) > 1 ==> !selects_page(old, range_first(u[k]) - 1),
        range_last(u[k]) < usize::MAX ==> !selects_page(old, range_last(u[k]) + 1),
{
    let z = u[k];
    assert(is_closed_form(z));
    assert forall|p: int| range_first(z) <= p <= range_last(z) implies selects_page(old, p) by {
        assert(selects_page(u, p));
    }
    if range_first(z) > 1 {
        let q = range_first(z) - 1;
        if selects_page(old, q) {
            assert(selects_page(u, q));
            let y = choose|y: int| 0 <= y < u.len() && range_first(#[trigger] u[y]) <= q <= range_last(u[y]);
            assert(!is_reversed(u[y])) by {
                if is_reversed(u[y]) {
                    assert(range_first(u[y]) > range_last(u[y]));
                }
            }
            if y < k {
                assert(range_last(u[y]) + 1 < range_first(u[k]));
            } else if y > k {
                assert(range_key_lt(u[k], u[y]));
            }
        }
    }
    if range_last(z) < usize::MAX {
        let q = range_last(z) + 1;
        if selects_page(old, q) {
            assert(selects_page(u, q));
            let y = choose|y: int| 0 <= y < u.len() && range_first(#[trigger] u[y]) <= q <= range_last(u[y]);
            assert(!is_reversed(u[y])) by {
                if is_reversed(u[y]) {
                    assert(range_first(u[y]) > range_last(u[y]));
                }
            }
            if y < k {
                assert(range_key_lt(u[y], u[k]));
                assert(range_last(u[y]) + 1 < range_first(u[k]));
            } else if y > k {
                assert(range_last(u[k]) + 1 < range_first(u[y]));
            }
        }
    }
}

/// A range in closed form is determined by its first and last page.
proof fn lemma_closed_form_determined(a: (Option<usize>, Option<usize>), b: (Option<usize>, Option<usize>))
    requires
        is_closed_form(a),
        is_closed_form(b),
        range_first(a) == range_first(b),
        range_last(a) == range_last(b),
    ensures
        a == b,
{
}

/// Every range of one canonical listing is in another listing of the same
/// pages and the same reversed ranges.
proof fn lemma_listed_range_shared(
    u: Seq<(Option<usize>, Option<usize>)>,
    old_u: Seq<(Option<usize>, Option<usize>)>,
    v: Seq<(Option<usize>, Option<usize>)>,
    old_v: Seq<(Option<usize>, Option<usize>)>,
    k: int,
)
    requires
        canonical_ranges_of(u, old_u),
        canonical_ranges_of(v, old_v),
        forall|p: int| 1 <= p ==> (selects_page(old_u, p) <==> selects_page(old_v, p)),
        forall|r: (Option<usize>, Option<usize>)| is_reversed(r) ==> (old_u.contains(r) <==> old_v.contains(r)),
        0 <= k < u.len(),
    ensures
        v.contains(u[k]),
{
    let z = u[k];
    if is_reversed(z) {
        assert(old_u.contains(z));
        assert(old_v.contains(z));
        let j = choose|j: int| 0 <= j < old_v.len() && old_v[j] == z;
        assert(is_reversed(old_v[j]));
    } else {
        lemma_listed_range_is_maximal_run(u, old_u, k);
        let f = range_first(z);
        let l = range_last(z);
        assert(selects_page(old_u, f));
        assert(selects_page(v, f));
        let w = choose|w: int| 0 <= w < v.len() && range_first(#[trigger] v[w]) <= f <= range_last(v[w]);
        assert(!is_reversed(v[w])) by {
            if is_reversed(v[w]) {
                assert(range_first(v[w]) > range_last(v[w]));
            }
        }
        lemma_listed_range_is_maximal_run(v, old_v, w);
        let f2 = range_first(v[w]);
        let l2 = range_last(v[w]);
        if f2 < f {
            assert(selects_page(old_v, f - 1));
        }
        if l2 < l {
            assert(f <= l2 + 1 <= l);
            assert(selects_page(old_u, l2 + 1));
        }
        if l < l2 {
            assert(f2 <= l + 1 <= l2);
            assert(selects_page(old_v, l + 1));
        }
        assert(is_closed_form(z));
        assert(is_closed_form(v[w]));
        lemma_closed_form_determined(z, v[w]);
    }
}

/// Two sequences ascending in the order of ranges that hold the same ranges
/// are the same sequence.
proof fn lemma_ascending_ranges_equal(u: Seq<(Option<usize>, Option<usize>)>, v: Seq<(Option<usize>, Option<usize>)>)
    requires
        ranges_ascending(u),
        ranges_ascending(v),
        forall|k: int| 0 <= k < u.len() ==> v.contains(#[trigger] u[k]),
        forall|k: int| 0 <= k < v.len() ==> u.contains(#[trigger] v[k]),
    ensures
        u == v,
    decreases u.len() + v.len(),
{
    if u.len() == 0 || v.len() == 0 {
        if u.len() > 0 {
            assert(v.contains(u[0]));
        }
        if v.len() > 0 {
            assert(u.contains(v[0]));
        }
        assert(u =~= v);
    } else {
        assert(v.contains(u[0]));
        assert(u.contains(v[0]));
        let i = choose|i: int| 0 <= i < v.len() && v[i] == u[0];
        let j = choose|j: int| 0 <= j < u.len() && u[j] == v[0];
        if i > 0 {
            assert(range_key_lt(v[0], v[i]));
            if j > 0 {
                assert(range_key_lt(u[0], u[j]));
            }
        }
        if j > 0 {
            assert(range_key_lt(u[0], u[j]));
            if i > 0 {
                assert(range_key_lt(v[0], v[i]));
            }
        }
        assert(u[0] == v[0]);
        let tu = u.subrange(1, u.len() as int);
        let tv = v.subrange(1, v.len() as int);
        assert forall|a: int, b: int| #![trigger tu[a], tu[b]] 0 <= a < b < tu.len() implies range_key_lt(tu[a], tu[b]) by {
            assert(tu[a] == u[a + 1] && tu[b] == u[b + 1]);
        }
        assert forall|a: int, b: int| #![trigger tv[a], tv[b]] 0 <= a < b < tv.len() implies range_key_lt(tv[a], tv[b]) by {
            assert(tv[a] == v[a + 1] && tv[b] == v[b + 1]);
        }
        assert forall|k: int| 0 <= k < tu.len() implies tv.contains(#[trigger] tu[k]) by {
            assert(tu[k] == u[k + 1]);
            assert(range_key_lt(u[0], u[k + 1]));
            assert(v.contains(u[k + 1]));
            let m = choose|m: int| 0 <= m < v.len() && v[m] == u[k + 1];
            if m == 0 {
                assert(range_key_lt(u[0], u[0]));
            }
            assert(tv[m - 1] == v[m]);
        }
        assert forall|k: int| 0 <= k < tv.len() implies tu.contains(#[trigger] tv[k]) by {
            assert(tv[k] == v[k + 1]);
            assert(range_key_lt(v[0], v[k + 1]));
            assert(u.contains(v[k + 1]));
            let m = choose|m: int| 0 <= m < u.len() && u[m] == v[k + 1];
            if m == 0 {
                assert(range_key_lt(v[0], v[0]));
            }
            assert(tu[m - 1] == u[m]);
        }
        lemma_ascending_ranges_equal(tu, tv);
        assert(u =~= seq![u[0]] + tu);
        assert(v =~= seq![v[0]] + tv);
    }
}

/// What canonicalization makes of ranges depends on nothing but the pages
/// they select and the reversed ranges among them.
pub proof fn lemma_canonical_ranges_unique(
    u: Seq<(Option<usize>, Option<usize>)>,
    old_u: Seq<(Option<usize>, Option<usize>)>,
    v: Seq<(Option<usize>, Option<usize>)>,
    old_v: Seq<(Option<usize>, Option<usize>)>,
)
    requires
        canonical_ranges_of(u, old_u),
        canonical_ranges_of(v, old_v),
        forall|p: int| 1 <= p ==> (selects_page(old_u, p) <==> selects_page(old_v, p)),
        forall|r: (Option<usize>, Option<usize>)| is_reversed(r) ==> (old_u.contains(r) <==> old_v.contains(r)),
    ensures
        u == v,
{
    assert forall|k: int| 0 <= k < u.len() implies v.contains(#[trigger] u[k]) by {
        lemma_listed_range_shared(u, old_u, v, old_v, k);
    }
    assert forall|k: int| 0 <= k < v.len() implies u.contains(#[trigger] v[k]) by {
        lemma_listed_range_shared(v, old_v, u, old_u, k);
    }
    lemma_ascending_ranges_equal(u, v);
}

/// Canonicalization is idempotent: canonicalizing the canonical ranges of a
/// selection gives them back unchanged.
pub proof fn lemma_canonicalization_idempotent(
    ranges: Seq<(Option<usize>, Option<usize>)>,
    once: Seq<(Option<usize>, Option<usize>)>,
    twice: Seq<(Option<usize>, Option<usize>)>,
)
    requires
        canonical_ranges_of(once, ranges),
        canonical_ranges_of(twice, once),
    ensures
        twice == once,
{
    assert forall|r: (Option<usize>, Option<usize>)| is_reversed(r) implies (ranges.contains(r) <==> once.contains(r)) by {
        if ranges.contains(r) {
            let j = choose|j: int| 0 <= j < ranges.len() && ranges[j] == r;
            assert(is_reversed(ranges[j]));
        }
        if once.contains(r) {
            let k = choose|k: int| 0 <= k < once.len() && once[k] == r;
            assert(is_reversed(once[k]));
        }
    }
    lemma_canonical_ranges_unique(twice, once, once, ranges);
}

/// Whether a selection takes page `p`: a selection without ranges takes
/// every page, and otherwise page `p` must lie in one of its ranges.
pub open spec fn takes_page(ranges: Seq<(Option<usize>, Option<usize>)>, p: int) -> bool {
    ranges.len() == 0 || selects_page(ranges, p)
}

/// The numbers of the pages of a document of `page_count` pages that a
/// selection takes, in document order.
pub fn selected_pages(selection: &PageSelection, page_count: usize) -> (r: Vec<usize>)
    ensures
        forall|a: int, b: int| 0 <= a < b < r@.len() ==> r@[a] < r@[b],
        forall|k: int| 0 <= k < r@.len() ==> 1 <= #[trigger] r@[k] <= page_count && takes_page(selection@, r@[k] as int),
        forall|p: int| 1 <= p <= page_count && takes_page(selection@, p) ==> r@.contains(p as usize),
{
    let ranges = selection.ranges();
    let ghost views = selection@;
    let mut pages: Vec<usize> = Vec::new();
    let mut q: usize = 0;
    while q < page_count
        invariant
            q <= page_count,
            views == range_views(ranges@),
            forall|a: int, b: int| 0 <= a < b < pages@.len() ==> pages@[a] < pages@[b],
            forall|k: int| 0 <= k < pages@.len() ==> 1 <= #[trigger] pages@[k] <= q && takes_page(views, pages@[k] as int),
            forall|x: int| 1 <= x <= q && takes_page(views, x) ==> pages@.contains(x as usize),
        decreases page_count - q,
    {
        let p = q + 1;
        let mut taken = ranges.len() == 0;
        let mut i: usize = 0;
        while i < ranges.len() && !taken
            invariant
                i <= ranges@.len(),
                1 <= p,
                views == range_views(ranges@),
                taken ==> takes_page(views, p as int),
                !taken ==> ranges@.len() > 0 && forall|j: int| 0 <= j < i ==> !(range_first(#[trigger] views[j]) <= p
                    <= range_last(views[j])),
            decreases ranges@.len() - i,
        {
            let r = ranges[i];
            proof {
                assert(views[i as int] == r@);
            }
            let after_start = match r.start {
                Some(s) => s.get() <= p,
                None => true,
            };
            let before_end = match r.end {
                Some(e) => p <= e.get(),
                None => true,
            };
            proof {
                assert(after_start == (range_first(views[i as int]) <= p));
                assert(before_end == (p <= range_last(views[i as int])));
            }
            if after_start && before_end {
                proof {
                    assert(selects_page(views, p as int));
                }
                taken = true;
            }
            i = i + 1;
        }
        proof {
            if !taken {
                assert(!selects_page(views, p as int));
            }
        }
        let ghost before = pages@;
        if taken {
            pages.push(p);
            proof {
                assert forall|x: int| 1 <= x <= p && takes_page(views, x) implies pages@.contains(x as usize) by {
                    if x < p {
                        let k = choose|k: int| 0 <= k < before.len() && before[k] == x as usize;
                        assert(pages@[k] == x as usize);
                    } else {
                        assert(pages@[before.len() as int] == p);
                    }
                }
            }
        }
        q = q + 1;
    }
    pages
}

/// Every bound of `ranges` is a page number, one or more, as every range of
/// a `PageSelection` has.
pub open spec fn page_numbers_valid(ranges: Seq<(Option<usize>, Option<usize>)>) -> bool {
    forall|k: int| 0 <= k < ranges.len() ==> (#[trigger] ranges[k]).0 != Some(0usize) && ranges[k].1 != Some(0usize)
}

/// Canonicalizing a selection keeps the pages it takes.
pub proof fn lemma_canonicalization_keeps_pages(
    old: Seq<(Option<usize>, Option<usize>)>,
    new: Seq<(Option<usize>, Option<usize>)>,
)
    requires
        page_numbers_valid(old),
        old.len() > 0,
        canonical_ranges_of(new, old),
    ensures
        forall|p: int| 1 <= p ==> (takes_page(new, p) <==> takes_page(old, p)),
{
    let r = old[0];
    if is_reversed(r) {
        assert(new.contains(r));
    } else {
        assert(range_first(r) <= range_last(r));
        assert(selects_page(old, range_first(r)));
        assert(1 <= range_first(r));
        assert(selects_page(new, range_first(r)));
    }
    assert(new.len() > 0);
}

} // verus!
