//! The preflight checks on the planned relative paths of a filesystem
//! publication that need no look at the destination: each path must be a
//! plain relative path, each of its components must fit the platform's
//! limit, and no two planned paths may name the same file where the
//! platform folds case.

use vstd::prelude::*;
use vstd::string::StrSliceExecFns;
use unicode_normalization::UnicodeNormalization;
use crate::text::{chars_of, find_char, first_index_of};
use crate::publication::{
    canonical_preflight_issues, has_issue_key, issue_key, issues_canonical, FilesystemPublicationPreflightIssue,
};

verus! {

/// The Unicode canonical composition (NFC) of a text.
pub uninterp spec fn nfc_form(text: Seq<char>) -> Seq<char>;

/// The Unicode lowercase mapping of a text.
pub uninterp spec fn lowercase_form(text: Seq<char>) -> Seq<char>;

/// The Unicode canonical decomposition (NFD) of a text.
pub uninterp spec fn nfd_form(text: Seq<char>) -> Seq<char>;

/// Calls `nfc` of `unicode_normalization` and collects the characters.
///
/// Trusted: the result is the crate's NFC form of `text`, a function of the
/// text alone.
#[verifier::external_body]
fn nfc_string(text: &str) -> (r: String)
    ensures
        r@ == nfc_form(text@),
{
    text.nfc().collect::<String>()
}

/// Calls `nfd` of `unicode_normalization` and collects the characters.
///
/// Trusted: the result is the crate's NFD form of `text`, a function of the
/// text alone.
#[verifier::external_body]
fn nfd_string(text: &str) -> (r: String)
    ensures
        r@ == nfd_form(text@),
{
    text.nfd().collect::<String>()
}

/// Calls `str::to_lowercase`.
///
/// Trusted: the result is the Unicode lowercase mapping of `text`, a function
/// of the text alone.
#[verifier::external_body]
fn lowercase_string(text: &str) -> (r: String)
    ensures
        r@ == lowercase_form(text@),
{
    text.to_lowercase()
}

/// The number of bytes of a character in UTF-8.
pub open spec fn char_utf8_len(c: char) -> nat {
    if (c as u32) < 0x80 {
        1
    } else if (c as u32) < 0x800 {
        2
    } else if (c as u32) < 0x10000 {
        3
    } else {
        4
    }
}

/// The number of units of a character in UTF-16.
pub open spec fn char_utf16_len(c: char) -> nat {
    if (c as u32) < 0x10000 {
        1
    } else {
        2
    }
}

/// The number of units of a character in the platform's encoding of file
/// names: UTF-16 where names are `wide`, UTF-8 elsewhere.
pub open spec fn char_units(c: char, wide: bool) -> nat {
    if wide {
        char_utf16_len(c)
    } else {
        char_utf8_len(c)
    }
}

/// The number of units of a text in the platform's encoding of file names.
pub open spec fn text_units(s: Seq<char>, wide: bool) -> nat
    decreases s.len(),
{
    if s.len() == 0 {
        0
    } else {
        text_units(s.drop_last(), wide) + char_units(s.last(), wide)
    }
}

/// Whether a destination measures file names in UTF-16 units.
pub open spec fn is_wide(folding: PathFolding) -> bool {
    folding.platform == PathPlatform::Windows
}

/// Whether `p[a..b]` is a component of `p`: a maximal run without `/`.
pub open spec fn is_component(p: Seq<char>, a: int, b: int) -> bool {
    &&& 0 <= a <= b <= p.len()
    &&& (a == 0 || p[a - 1] == '/')
    &&& (b == p.len() || p[b] == '/')
    &&& forall|k: int| a <= k < b ==> p[k] != '/'
}

/// Whether `p` is a plain relative path: not empty, not rooted, not
/// starting at `.`, and without a `..` component (`.` components after the
/// first and empty components are dropped when the path is read).
pub open spec fn plain_relative_path(p: Seq<char>) -> bool {
    &&& p.len() > 0
    &&& p[0] != '/'
    &&& forall|b: int| is_component(p, 0, b) ==> p.subrange(0, b) != seq!['.']
    &&& forall|a: int, b: int| is_component(p, a, b) ==> #[trigger] p.subrange(a, b) != seq!['.', '.']
}

/// The family of platform whose file names a destination follows.
#[derive(Clone, Copy, Debug, Eq, PartialEq, Structural)]
pub enum PathPlatform {
    /// Windows: components are compared without trailing spaces and dots,
    /// lowercased, and measured in UTF-16 units; some names are reserved.
    Windows,
    /// macOS and iOS: paths are compared in NFD, lowercased where the volume
    /// folds case.
    Apple,
    /// Any other platform: paths are compared as given, or in NFC lowercased
    /// where the destination folds case.
    Other,
}

/// How a destination compares file names: its platform, and whether it
/// folds case.
#[derive(Clone, Copy, Debug, Eq, PartialEq, Structural)]
pub struct PathFolding {
    pub platform: PathPlatform,
    pub case_insensitive: bool,
}

/// A component without its trailing spaces and dots.
pub open spec fn trim_trailing_dots(c: Seq<char>) -> Seq<char>
    decreases c.len(),
{
    if c.len() > 0 && (c.last() == ' ' || c.last() == '.') {
        trim_trailing_dots(c.drop_last())
    } else {
        c
    }
}

/// The Windows key of `p[a..]`: each component without its trailing spaces
/// and dots, lowercased, joined by `/`.
#[verifier::opaque]
pub open spec fn windows_key_from(p: Seq<char>, a: int) -> Seq<char>
    decreases p.len() - a,
{
    if a < 0 || a > p.len() {
        Seq::empty()
    } else {
        match first_index_of(p, '/', a) {
            None => lowercase_form(trim_trailing_dots(p.subrange(a, p.len() as int))),
            Some(k) => if a <= k < p.len() {
                lowercase_form(trim_trailing_dots(p.subrange(a, k))) + seq!['/'] + windows_key_from(p, k + 1)
            } else {
                Seq::empty()
            },
        }
    }
}

/// The key under which two planned paths name the same file.
pub open spec fn alias_key(p: Seq<char>, folding: PathFolding) -> Seq<char> {
    match folding.platform {
        PathPlatform::Windows => windows_key_from(p, 0),
        PathPlatform::Apple => if folding.case_insensitive {
            lowercase_form(nfd_form(p))
        } else {
            nfd_form(p)
        },
        PathPlatform::Other => if folding.case_insensitive {
            lowercase_form(nfc_form(p))
        } else {
            p
        },
    }
}

/// Whether planned path `j` aliases the latest earlier plain path `i` that
/// shares its alias key, and differs from it.
pub open spec fn aliases_latest(paths: Seq<String>, folding: PathFolding, i: int, j: int) -> bool {
    &&& 0 <= i < j < paths.len()
    &&& plain_relative_path(paths[i]@)
    &&& plain_relative_path(paths[j]@)
    &&& alias_key(paths[i]@, folding) == alias_key(paths[j]@, folding)
    &&& forall|k: int|
        i < k < j ==> !(plain_relative_path(#[trigger] paths[k]@) && alias_key(paths[k]@, folding) == alias_key(
            paths[j]@,
            folding,
        ))
    &&& paths[i]@ != paths[j]@
}

/// Whether the path checks find an issue with key `key` among the first
/// `n` planned paths.
pub open spec fn path_issue_key(
    paths: Seq<String>,
    folding: PathFolding,
    component_limit: nat,
    n: int,
    key: (Seq<char>, u8, Seq<char>),
) -> bool {
    ||| (key.1 == 0 && key.2 == Seq::<char>::empty() && exists|i: int|
        0 <= i < n && #[trigger] paths[i]@ == key.0 && !plain_relative_path(key.0))
    ||| (key.1 == 3 && exists|i: int, a: int, b: int|
        0 <= i < n && #[trigger] paths[i]@ == key.0 && plain_relative_path(key.0) && is_component(key.0, a, b)
            && #[trigger] key.0.subrange(a, b) == key.2 && text_units(key.2, is_wide(folding)) > component_limit)
    ||| (key.1 == 1 && exists|i: int, j: int|
        0 <= j < n && #[trigger] aliases_latest(paths, folding, i, j) && paths[i]@ == key.0 && paths[j]@ == key.2)
}

/// Whether an issue is one that the path checks report.
pub open spec fn is_path_issue_kind(issue: FilesystemPublicationPreflightIssue) -> bool {
    issue is InvalidRelativePath || issue is ComponentTooLong || issue is PathAlias
}

proof fn lemma_text_units_push(s: Seq<char>, c: char, wide: bool)
    ensures
        text_units(s.push(c), wide) == text_units(s, wide) + char_units(c, wide),
{
    assert(s.push(c).drop_last() =~= s);
}

fn char_unit_len(c: char, wide: bool) -> (r: usize)
    ensures
        r == char_units(c, wide),
{
    let code = c as u32;
    if wide {
        if code < 0x10000 {
            1
        } else {
            2
        }
    } else if code < 0x80 {
        1
    } else if code < 0x800 {
        2
    } else if code < 0x10000 {
        3
    } else {
        4
    }
}

/// Whether the length of `p[a..b]` in the platform's units exceeds `limit`.
fn exceeds_unit_limit(p: &[char], a: usize, b: usize, limit: usize, wide: bool) -> (r: bool)
    requires
        a <= b <= p@.len(),
    ensures
        r == (text_units(p@.subrange(a as int, b as int), wide) > limit),
{
    let mut total: usize = 0;
    let mut k = a;
    assert(p@.subrange(a as int, a as int) =~= Seq::<char>::empty());
    while k < b
        invariant
            a <= k <= b <= p@.len(),
            total <= limit,
            total == text_units(p@.subrange(a as int, k as int), wide),
        decreases b - k,
    {
        let n = char_unit_len(p[k], wide);
        proof {
            assert(p@.subrange(a as int, k + 1) =~= p@.subrange(a as int, k as int).push(p@[k as int]));
            lemma_text_units_push(p@.subrange(a as int, k as int), p@[k as int], wide);
        }
        if n > limit - total {
            proof {
                lemma_text_units_monotone(p@, a as int, k + 1, b as int, wide);
            }
            return true;
        }
        total = total + n;
        k = k + 1;
    }
    false
}

proof fn lemma_text_units_monotone(p: Seq<char>, a: int, k: int, b: int, wide: bool)
    requires
        0 <= a <= k <= b <= p.len(),
    ensures
        text_units(p.subrange(a, k), wide) <= text_units(p.subrange(a, b), wide),
    decreases b - k,
{
    if k < b {
        lemma_text_units_monotone(p, a, k, b - 1, wide);
        assert(p.subrange(a, b) =~= p.subrange(a, b - 1).push(p[b - 1]));
        lemma_text_units_push(p.subrange(a, b - 1), p[b - 1], wide);
    }
}

proof fn lemma_component_start(p: Seq<char>, a: int, j: int, a2: int)
    requires
        0 <= a <= j <= p.len(),
        a == 0 || p[a - 1] == '/',
        forall|k: int| a <= k < j ==> p[k] != '/',
        is_component(p, a2, j),
    ensures
        a2 == a,
{
    if a2 < a {
        assert(p[a - 1] != '/');
    } else if a2 > a {
        assert(p[a2 - 1] != '/');
    }
}

/// Whether the component `p[a..b]` is allowed in a plain relative path.
fn component_allowed(p: &[char], a: usize, b: usize) -> (r: bool)
    requires
        a <= b <= p@.len(),
    ensures
        r == (p@.subrange(a as int, b as int) != seq!['.', '.'] && (a == 0 ==> p@.subrange(a as int, b as int)
            != seq!['.'])),
{
    let ghost piece = p@.subrange(a as int, b as int);
    if b - a == 2 && p[a] == '.' && p[a + 1] == '.' {
        assert(piece =~= seq!['.', '.']);
        return false;
    }
    if a == 0 && b - a == 1 && p[a] == '.' {
        assert(piece =~= seq!['.']);
        return false;
    }
    proof {
        if piece == seq!['.', '.'] {
            assert(seq!['.', '.'].len() == 2 && seq!['.', '.'][0] == '.' && seq!['.', '.'][1] == '.');
            assert(piece[0] == p@[a as int] && piece[1] == p@[a + 1]);
        }
        if a == 0 && piece == seq!['.'] {
            assert(seq!['.'].len() == 1 && seq!['.'][0] == '.');
            assert(piece[0] == p@[a as int]);
        }
    }
    true
}

/// Whether `p` is a plain relative path.
fn check_plain_relative(p: &[char]) -> (r: bool)
    ensures
        r == plain_relative_path(p@),
{
    let n = p.len();
    if n == 0 {
        return false;
    }
    if p[0] == '/' {
        return false;
    }
    let mut a: usize = 0;
    let mut j: usize = 0;
    while j < n
        invariant
            n == p@.len(),
            a <= j <= n,
            a == 0 || p@[a - 1] == '/',
            forall|k: int| a <= k < j ==> p@[k] != '/',
            forall|a2: int, b2: int| is_component(p@, a2, b2) && b2 < a ==> #[trigger] p@.subrange(a2, b2) != seq!['.', '.'],
            forall|b2: int| is_component(p@, 0, b2) && b2 < a ==> p@.subrange(0, b2) != seq!['.'],
        decreases n - j,
    {
        if p[j] == '/' {
            let allowed = component_allowed(p, a, j);
            if !allowed {
                proof {
                    assert(is_component(p@, a as int, j as int));
                }
                return false;
            }
            proof {
                assert forall|a2: int, b2: int| is_component(p@, a2, b2) && b2 < j + 1 implies #[trigger] p@.subrange(a2, b2)
                    != seq!['.', '.'] by {
                    if b2 == j {
                        lemma_component_start(p@, a as int, j as int, a2);
                    } else if b2 >= a {
                        assert(p@[b2] != '/');
                    }
                }
                assert forall|b2: int| is_component(p@, 0, b2) && b2 < j + 1 implies p@.subrange(0, b2) != seq!['.'] by {
                    if b2 == j {
                        lemma_component_start(p@, a as int, j as int, 0);
                    } else if b2 >= a {
                        assert(p@[b2] != '/');
                    }
                }
            }
            a = j + 1;
        }
        j = j + 1;
    }
    let allowed = component_allowed(p, a, n);
    proof {
        assert(is_component(p@, a as int, n as int));
        if allowed {
            assert forall|a2: int, b2: int| is_component(p@, a2, b2) implies #[trigger] p@.subrange(a2, b2) != seq!['.', '.'] by {
                if b2 == n {
                    lemma_component_start(p@, a as int, n as int, a2);
                } else if b2 >= a {
                    assert(p@[b2] != '/');
                }
            }
            assert forall|b2: int| is_component(p@, 0, b2) implies p@.subrange(0, b2) != seq!['.'] by {
                if b2 == n {
                    lemma_component_start(p@, a as int, n as int, 0);
                } else if b2 >= a {
                    assert(p@[b2] != '/');
                }
            }
        }
    }
    allowed
}

/// Whether every issue is of a kind that the path checks report.
pub open spec fn only_path_issues(s: Seq<FilesystemPublicationPreflightIssue>) -> bool {
    forall|j: int| 0 <= j < s.len() ==> is_path_issue_kind(#[trigger] s[j])
}

/// Whether `k` is the key of a too-long component of `path`.
pub open spec fn long_component_key(path: Seq<char>, limit: nat, wide: bool, k: (Seq<char>, u8, Seq<char>)) -> bool {
    k.1 == 3 && k.0 == path && exists|a: int, b: int|
        is_component(path, a, b) && #[trigger] path.subrange(a, b) == k.2 && text_units(k.2, wide) > limit
}

proof fn lemma_push_issue_keys(s: Seq<FilesystemPublicationPreflightIssue>, x: FilesystemPublicationPreflightIssue)
    ensures
        forall|k: (Seq<char>, u8, Seq<char>)| #[trigger] has_issue_key(s.push(x), k) <==> (has_issue_key(s, k) || k == issue_key(x)),
{
    assert forall|k: (Seq<char>, u8, Seq<char>)| #[trigger] has_issue_key(s.push(x), k) <==> (has_issue_key(s, k) || k == issue_key(x)) by {
        if has_issue_key(s.push(x), k) {
            let j = choose|j: int| 0 <= j < s.push(x).len() && issue_key(#[trigger] s.push(x)[j]) == k;
            if j < s.len() {
                assert(s.push(x)[j] == s[j]);
            }
        }
        if has_issue_key(s, k) {
            let j = choose|j: int| 0 <= j < s.len() && issue_key(#[trigger] s[j]) == k;
            assert(s.push(x)[j] == s[j]);
        }
        if k == issue_key(x) {
            assert(s.push(x)[s.len() as int] == x);
        }
    }
}

/// Records the components of `path` whose length in the platform's units
/// exceeds `limit`.
fn long_component_issues(
    path: &String,
    p: &[char],
    limit: usize,
    wide: bool,
    raw: &mut Vec<FilesystemPublicationPreflightIssue>,
)
    requires
        p@ == path@,
        only_path_issues(old(raw)@),
    ensures
        only_path_issues(final(raw)@),
        forall|k: (Seq<char>, u8, Seq<char>)|
            #[trigger] has_issue_key(final(raw)@, k) <==> (has_issue_key(old(raw)@, k) || long_component_key(
                path@,
                limit as nat,
                wide,
                k,
            )),
{
    let n = p.len();
    let mut a: usize = 0;
    let mut j: usize = 0;
    while j <= n
        invariant
            n == p@.len(),
            p@ == path@,
            a <= j,
            j <= n ==> a <= n,
            j <= n ==> (a == 0 || p@[a - 1] == '/'),
            j <= n ==> forall|k: int| a <= k < j ==> p@[k] != '/',
            only_path_issues(raw@),
            forall|k: (Seq<char>, u8, Seq<char>)|
                #[trigger] has_issue_key(raw@, k) <==> (has_issue_key(old(raw)@, k) || (k.1 == 3 && k.0 == path@ && exists|a2: int, b2: int|
                    is_component(path@, a2, b2) && (b2 < a || j > n) && #[trigger] path@.subrange(a2, b2) == k.2 && text_units(k.2, wide)
                        > limit)),
        decreases n + 1 - j,
    {
        if j == n || p[j] == '/' {
            let ghost before = raw@;
            let too_long = exceeds_unit_limit(p, a, j, limit, wide);
            if too_long {
                let component = path.as_str().substring_char(a, j).to_owned();
                let x = FilesystemPublicationPreflightIssue::ComponentTooLong { relative_path: path.clone(), component };
                raw.push(x);
                proof {
                    lemma_push_issue_keys(before, x);
                }
            }
            proof {
                assert(is_component(path@, a as int, j as int));
                assert forall|k: (Seq<char>, u8, Seq<char>)|
                    #[trigger] has_issue_key(raw@, k) <==> (has_issue_key(old(raw)@, k) || (k.1 == 3 && k.0 == path@ && exists|a2: int, b2: int|
                        is_component(path@, a2, b2) && (b2 < j + 1 || j + 1 > n) && #[trigger] path@.subrange(a2, b2) == k.2
                            && text_units(k.2, wide) > limit)) by {
                    if k.1 == 3 && k.0 == path@ && exists|a2: int, b2: int|
                        is_component(path@, a2, b2) && (b2 < j + 1 || j + 1 > n) && #[trigger] path@.subrange(a2, b2) == k.2
                            && text_units(k.2, wide) > limit {
                        let (a2, b2) = choose|a2: int, b2: int|
                            is_component(path@, a2, b2) && (b2 < j + 1 || j + 1 > n) && #[trigger] path@.subrange(a2, b2) == k.2
                                && text_units(k.2, wide) > limit;
                        if b2 == j {
                            lemma_component_start(path@, a as int, j as int, a2);
                        } else if b2 > j {
                            assert(path@[j as int] == '/' || j == n);
                            assert(j == n);
                        } else if b2 >= a {
                            assert(path@[b2] != '/');
                        }
                    }
                    if has_issue_key(before, k) && !has_issue_key(old(raw)@, k) {
                        let (a2, b2) = choose|a2: int, b2: int|
                            is_component(path@, a2, b2) && (b2 < a || j > n) && #[trigger] path@.subrange(a2, b2) == k.2
                                && text_units(k.2, wide) > limit;
                        assert(b2 < j + 1 || j + 1 > n);
                    }
                }
            }
            if j == n {
                proof {
                assert forall|k: (Seq<char>, u8, Seq<char>)|
                    #[trigger] has_issue_key(raw@, k) <==> (has_issue_key(old(raw)@, k) || long_component_key(path@, limit as nat, wide, k)) by {
                    if long_component_key(path@, limit as nat, wide, k) {
                        let (a2, b2) = choose|a2: int, b2: int|
                            is_component(path@, a2, b2) && #[trigger] path@.subrange(a2, b2) == k.2 && text_units(k.2, wide) > limit;
                        assert(b2 < j + 1 || j + 1 > n);
                    }
                }
                }
                return;
            }
            a = j + 1;
        }
        j = j + 1;
    }
}

/// Whether planned path `idx` is the latest plain path before `i` whose
/// alias key is `key`.
pub open spec fn latest_with_key(paths: Seq<String>, folding: PathFolding, i: int, idx: int, key: Seq<char>) -> bool {
    &&& 0 <= idx < i
    &&& plain_relative_path(paths[idx]@)
    &&& alias_key(paths[idx]@, folding) == key
    &&& forall|k: int|
        idx < k < i ==> !(plain_relative_path(#[trigger] paths[k]@) && alias_key(paths[k]@, folding) == key)
}

proof fn lemma_latest_unique(paths: Seq<String>, folding: PathFolding, i: int, idx1: int, idx2: int, key: Seq<char>)
    requires
        latest_with_key(paths, folding, i, idx1, key),
        latest_with_key(paths, folding, i, idx2, key),
    ensures
        idx1 == idx2,
{
    if idx1 < idx2 {
        assert(plain_relative_path(paths[idx2]@));
    } else if idx2 < idx1 {
        assert(plain_relative_path(paths[idx1]@));
    }
}

/// Whether an alias table entry holds the latest plain path, among the first
/// `i`, with the entry's key.
pub open spec fn entry_is_latest(paths: Seq<String>, folding: PathFolding, i: int, entry: (String, String)) -> bool {
    exists|idx: int| #[trigger] latest_with_key(paths, folding, i, idx, entry.0@) && paths[idx]@ == entry.1@
}

/// Whether each entry of the alias table holds the latest plain path, among
/// the first `i`, with the entry's key.
pub open spec fn alias_entries_latest(paths: Seq<String>, folding: PathFolding, i: int, table: Seq<(String, String)>) -> bool {
    forall|e: int| 0 <= e < table.len() ==> #[trigger] entry_is_latest(paths, folding, i, table[e])
}

/// Whether every plain path among the first `i` has an entry for its key.
pub open spec fn alias_entries_complete(paths: Seq<String>, folding: PathFolding, i: int, table: Seq<(String, String)>) -> bool {
    forall|idx: int|
        0 <= idx < i && plain_relative_path(#[trigger] paths[idx]@) ==> exists|e: int|
            0 <= e < table.len() && #[trigger] table[e].0@ == alias_key(paths[idx]@, folding)
}

/// What the alias table holds after the first `i` planned paths: for each
/// alias key met, once, the latest plain path with that key.
pub open spec fn alias_table(paths: Seq<String>, folding: PathFolding, i: int, table: Seq<(String, String)>) -> bool {
    &&& alias_entries_latest(paths, folding, i, table)
    &&& alias_entries_complete(paths, folding, i, table)
    &&& forall|e1: int, e2: int| 0 <= e1 < e2 < table.len() ==> table[e1].0@ != table[e2].0@
}

fn find_alias(table: &Vec<(String, String)>, key: &String) -> (r: Option<usize>)
    ensures
        match r {
            Some(e) => e < table@.len() && table@[e as int].0@ == key@,
            None => forall|e: int| 0 <= e < table@.len() ==> #[trigger] table@[e].0@ != key@,
        },
{
    let mut e: usize = 0;
    while e < table.len()
        invariant
            e <= table@.len(),
            forall|q: int| 0 <= q < e ==> #[trigger] table@[q].0@ != key@,
        decreases table@.len() - e,
    {
        if table[e].0 == *key {
            return Some(e);
        }
        e = e + 1;
    }
    None
}

/// The end of `cs[a..b]` without its trailing spaces and dots.
fn trimmed_end(cs: &[char], a: usize, b: usize) -> (r: usize)
    requires
        a <= b <= cs@.len(),
    ensures
        a <= r <= b,
        cs@.subrange(a as int, r as int) == trim_trailing_dots(cs@.subrange(a as int, b as int)),
{
    let mut e = b;
    while e > a && (cs[e - 1] == ' ' || cs[e - 1] == '.')
        invariant
            a <= e <= b <= cs@.len(),
            trim_trailing_dots(cs@.subrange(a as int, e as int)) == trim_trailing_dots(
                cs@.subrange(a as int, b as int),
            ),
        decreases e - a,
    {
        proof {
            assert(cs@.subrange(a as int, e as int).drop_last() =~= cs@.subrange(a as int, e - 1));
        }
        e = e - 1;
    }
    proof {
        let c = cs@.subrange(a as int, e as int);
        if c.len() > 0 {
            assert(c.last() == cs@[e - 1]);
        }
    }
    e
}

proof fn lemma_windows_key_step(p: Seq<char>, a: int, k: int)
    requires
        0 <= a <= k < p.len(),
        first_index_of(p, '/', a) == Some(k),
    ensures
        windows_key_from(p, a) == lowercase_form(trim_trailing_dots(p.subrange(a, k))) + seq!['/']
            + windows_key_from(p, k + 1),
{
    reveal(windows_key_from);
}

proof fn lemma_windows_key_last(p: Seq<char>, a: int)
    requires
        0 <= a <= p.len(),
        first_index_of(p, '/', a) is None,
    ensures
        windows_key_from(p, a) == lowercase_form(trim_trailing_dots(p.subrange(a, p.len() as int))),
{
    reveal(windows_key_from);
}

/// The lowercased component `path[a..b]` without its trailing spaces and
/// dots.
fn windows_component_key(path: &str, cs: &Vec<char>, a: usize, b: usize) -> (r: String)
    requires
        cs@ == path@,
        a <= b <= cs@.len(),
    ensures
        r@ == lowercase_form(trim_trailing_dots(path@.subrange(a as int, b as int))),
{
    let e = trimmed_end(cs.as_slice(), a, b);
    lowercase_string(path.substring_char(a, e))
}

/// The Windows key of a planned path.
fn windows_alias_key(path: &str) -> (r: String)
    ensures
        r@ == windows_key_from(path@, 0),
{
    let cs = chars_of(path);
    let n = cs.len();
    let mut result = String::new();
    let mut a: usize = 0;
    proof {
        assert(result@ + windows_key_from(path@, 0) =~= windows_key_from(path@, 0));
    }
    loop
        invariant
            cs@ == path@,
            n == path@.len(),
            a <= n,
            result@ + windows_key_from(path@, a as int) == windows_key_from(path@, 0),
        decreases n - a,
    {
        match find_char(cs.as_slice(), '/', a) {
            None => {
                let component = windows_component_key(path, &cs, a, n);
                proof {
                    lemma_windows_key_last(path@, a as int);
                }
                let ghost before = result@;
                result.append(component.as_str());
                proof {
                    assert(result@ == before + windows_key_from(path@, a as int));
                    assert(result@ =~= before + windows_key_from(path@, a as int));
                }
                return result;
            },
            Some(k) => {
                let component = windows_component_key(path, &cs, a, k);
                proof {
                    lemma_windows_key_step(path@, a as int, k as int);
                }
                let ghost before = result@;
                result.append(component.as_str());
                result.append("/");
                proof {
                    reveal_strlit("/");
                    assert(result@ =~= before + component@ + seq!['/']);
                    assert(result@ + windows_key_from(path@, k + 1) =~= before + windows_key_from(path@, a as int));
                }
                a = k + 1;
            },
        }
    }
}

/// The key under which a planned path is compared with the others.
fn alias_key_of(path: &String, folding: PathFolding) -> (r: String)
    ensures
        r@ == alias_key(path@, folding),
{
    match folding.platform {
        PathPlatform::Windows => windows_alias_key(path.as_str()),
        PathPlatform::Apple => {
            let decomposed = nfd_string(path.as_str());
            if folding.case_insensitive {
                lowercase_string(decomposed.as_str())
            } else {
                decomposed
            }
        },
        PathPlatform::Other => if folding.case_insensitive {
            let composed = nfc_string(path.as_str());
            lowercase_string(composed.as_str())
        } else {
            path.clone()
        },
    }
}

proof fn lemma_table_skip(ps: Seq<String>, ci: PathFolding, i: int, table: Seq<(String, String)>)
    requires
        0 <= i < ps.len(),
        !plain_relative_path(ps[i]@),
        alias_table(ps, ci, i, table),
    ensures
        alias_table(ps, ci, i + 1, table),
{
    assert forall|e: int| 0 <= e < table.len() implies #[trigger] entry_is_latest(ps, ci, i + 1, table[e]) by {
        assert(entry_is_latest(ps, ci, i, table[e]));
        let idx = choose|idx: int| #[trigger] latest_with_key(ps, ci, i, idx, table[e].0@) && ps[idx]@ == table[e].1@;
        assert(latest_with_key(ps, ci, i + 1, idx, table[e].0@));
    }
    assert forall|idx: int| 0 <= idx < i + 1 && plain_relative_path(#[trigger] ps[idx]@) implies exists|e: int|
        0 <= e < table.len() && #[trigger] table[e].0@ == alias_key(ps[idx]@, ci) by {
        assert(idx < i);
    }
}

/// Records planned path `i` as the latest with its alias key, and gives
/// back the path it replaces.
fn remember_alias(
    table: &mut Vec<(String, String)>,
    key: String,
    path: &String,
    Ghost(ps): Ghost<Seq<String>>,
    Ghost(ci): Ghost<PathFolding>,
    Ghost(i): Ghost<int>,
) -> (prev: Option<String>)
    requires
        0 <= i < ps.len(),
        plain_relative_path(ps[i]@),
        key@ == alias_key(ps[i]@, ci),
        path@ == ps[i]@,
        alias_table(ps, ci, i, old(table)@),
    ensures
        alias_table(ps, ci, i + 1, final(table)@),
        match prev {
            Some(p) => exists|idx: int| latest_with_key(ps, ci, i, idx, key@) && ps[idx]@ == p@,
            None => forall|idx: int| !latest_with_key(ps, ci, i, idx, key@),
        },
{
    let ghost old_table = table@;
    let ghost kk = key@;
    let found = find_alias(table, &key);
    let prev = match found {
        Some(e) => {
            let p = table[e].1.clone();
            proof {
                assert(entry_is_latest(ps, ci, i, old_table[e as int]));
            }
            table.set(e, (key, path.clone()));
            Some(p)
        },
        None => {
            table.push((key, path.clone()));
            proof {
                assert forall|idx: int| !latest_with_key(ps, ci, i, idx, kk) by {
                    if latest_with_key(ps, ci, i, idx, kk) {
                        let e = choose|e: int| 0 <= e < old_table.len() && #[trigger] old_table[e].0@ == alias_key(ps[idx]@, ci);
                    }
                }
            }
            None
        },
    };
    proof {
        assert forall|e: int| 0 <= e < table@.len() implies #[trigger] entry_is_latest(ps, ci, i + 1, table@[e]) by {
            if table@[e].0@ == kk {
                assert(latest_with_key(ps, ci, i + 1, i, table@[e].0@));
            } else {
                assert(e < old_table.len() && table@[e] == old_table[e]);
                assert(entry_is_latest(ps, ci, i, old_table[e]));
                let idx = choose|idx: int| #[trigger] latest_with_key(ps, ci, i, idx, old_table[e].0@) && ps[idx]@ == old_table[e].1@;
                assert(latest_with_key(ps, ci, i + 1, idx, table@[e].0@));
            }
        }
        assert forall|idx: int| 0 <= idx < i + 1 && plain_relative_path(#[trigger] ps[idx]@) implies exists|e: int|
            0 <= e < table@.len() && #[trigger] table@[e].0@ == alias_key(ps[idx]@, ci) by {
            if idx == i {
                if let Some(e) = found {
                    assert(table@[e as int].0@ == kk);
                } else {
                    assert(table@[old_table.len() as int].0@ == kk);
                }
            } else {
                let e = choose|e: int| 0 <= e < old_table.len() && #[trigger] old_table[e].0@ == alias_key(ps[idx]@, ci);
                assert(table@[e].0@ == old_table[e].0@);
            }
        }
        assert forall|e1: int, e2: int| 0 <= e1 < e2 < table@.len() implies table@[e1].0@ != table@[e2].0@ by {
            if let Some(e) = found {
                assert(table@[e1].0@ == old_table[e1].0@ && table@[e2].0@ == old_table[e2].0@);
            } else {
                if e2 == old_table.len() {
                    assert(table@[e1] == old_table[e1]);
                } else {
                    assert(table@[e1] == old_table[e1] && table@[e2] == old_table[e2]);
                }
            }
        }
    }
    prev
}

proof fn lemma_invalid_step(
    ps: Seq<String>,
    ci: PathFolding,
    limit: nat,
    i: int,
    before: Seq<FilesystemPublicationPreflightIssue>,
    after: Seq<FilesystemPublicationPreflightIssue>,
)
    requires
        0 <= i < ps.len(),
        !plain_relative_path(ps[i]@),
        forall|k: (Seq<char>, u8, Seq<char>)| #[trigger] has_issue_key(before, k) <==> path_issue_key(ps, ci, limit, i, k),
        forall|k: (Seq<char>, u8, Seq<char>)|
            #[trigger] has_issue_key(after, k) <==> (has_issue_key(before, k) || k == (ps[i]@, 0u8, Seq::<char>::empty())),
    ensures
        forall|k: (Seq<char>, u8, Seq<char>)| #[trigger] has_issue_key(after, k) <==> path_issue_key(ps, ci, limit, i + 1, k),
{
    assert forall|k: (Seq<char>, u8, Seq<char>)| #[trigger] has_issue_key(after, k) <==> path_issue_key(ps, ci, limit, i + 1, k) by {
        if path_issue_key(ps, ci, limit, i + 1, k) && !path_issue_key(ps, ci, limit, i, k) {
            if k.1 == 3 {
                let (i2, a, b) = choose|i2: int, a: int, b: int|
                    0 <= i2 < i + 1 && #[trigger] ps[i2]@ == k.0 && plain_relative_path(k.0) && is_component(k.0, a, b)
                        && #[trigger] k.0.subrange(a, b) == k.2 && text_units(k.2, is_wide(ci)) > limit;
                assert(i2 < i);
            } else if k.1 == 1 {
                let (i2, j2) = choose|i2: int, j2: int|
                    0 <= j2 < i + 1 && #[trigger] aliases_latest(ps, ci, i2, j2) && ps[i2]@ == k.0 && ps[j2]@ == k.2;
                assert(j2 < i);
            } else if k.1 == 0 {
                let i2 = choose|i2: int| 0 <= i2 < i + 1 && #[trigger] ps[i2]@ == k.0 && !plain_relative_path(k.0);
                assert(i2 == i);
            }
        }
        if path_issue_key(ps, ci, limit, i, k) {
            if k.1 == 0 {
                let i2 = choose|i2: int| 0 <= i2 < i && #[trigger] ps[i2]@ == k.0 && !plain_relative_path(k.0);
                assert(0 <= i2 < i + 1);
            } else if k.1 == 3 {
                let (i2, a, b) = choose|i2: int, a: int, b: int|
                    0 <= i2 < i && #[trigger] ps[i2]@ == k.0 && plain_relative_path(k.0) && is_component(k.0, a, b)
                        && #[trigger] k.0.subrange(a, b) == k.2 && text_units(k.2, is_wide(ci)) > limit;
                assert(0 <= i2 < i + 1);
            } else {
                let (i2, j2) = choose|i2: int, j2: int|
                    0 <= j2 < i && #[trigger] aliases_latest(ps, ci, i2, j2) && ps[i2]@ == k.0 && ps[j2]@ == k.2;
                assert(0 <= j2 < i + 1);
            }
        }
        if k == (ps[i]@, 0u8, Seq::<char>::empty()) {
            assert(ps[i]@ == k.0 && !plain_relative_path(k.0));
        }
    }
}

proof fn lemma_plain_step(
    ps: Seq<String>,
    ci: PathFolding,
    limit: nat,
    i: int,
    before: Seq<FilesystemPublicationPreflightIssue>,
    mid: Seq<FilesystemPublicationPreflightIssue>,
    after: Seq<FilesystemPublicationPreflightIssue>,
)
    requires
        0 <= i < ps.len(),
        plain_relative_path(ps[i]@),
        forall|k: (Seq<char>, u8, Seq<char>)| #[trigger] has_issue_key(before, k) <==> path_issue_key(ps, ci, limit, i, k),
        forall|k: (Seq<char>, u8, Seq<char>)|
            #[trigger] has_issue_key(mid, k) <==> (has_issue_key(before, k) || long_component_key(ps[i]@, limit, is_wide(ci), k)),
        forall|k: (Seq<char>, u8, Seq<char>)|
            #[trigger] has_issue_key(after, k) <==> (has_issue_key(mid, k) || exists|i2: int|
                #[trigger] aliases_latest(ps, ci, i2, i) && k == (ps[i2]@, 1u8, ps[i]@)),
    ensures
        forall|k: (Seq<char>, u8, Seq<char>)| #[trigger] has_issue_key(after, k) <==> path_issue_key(ps, ci, limit, i + 1, k),
{
    assert forall|k: (Seq<char>, u8, Seq<char>)| #[trigger] has_issue_key(after, k) <==> path_issue_key(ps, ci, limit, i + 1, k) by {
        if path_issue_key(ps, ci, limit, i + 1, k) && !path_issue_key(ps, ci, limit, i, k) {
            if k.1 == 0 {
                let i2 = choose|i2: int| 0 <= i2 < i + 1 && #[trigger] ps[i2]@ == k.0 && !plain_relative_path(k.0);
                assert(i2 < i);
            } else if k.1 == 3 {
                let (i2, a, b) = choose|i2: int, a: int, b: int|
                    0 <= i2 < i + 1 && #[trigger] ps[i2]@ == k.0 && plain_relative_path(k.0) && is_component(k.0, a, b)
                        && #[trigger] k.0.subrange(a, b) == k.2 && text_units(k.2, is_wide(ci)) > limit;
                assert(i2 == i);
                assert(long_component_key(ps[i]@, limit, is_wide(ci), k));
                assert(has_issue_key(mid, k));
            } else if k.1 == 1 {
                let (i2, j2) = choose|i2: int, j2: int|
                    0 <= j2 < i + 1 && #[trigger] aliases_latest(ps, ci, i2, j2) && ps[i2]@ == k.0 && ps[j2]@ == k.2;
                assert(j2 == i);
            }
        }
        if has_issue_key(after, k) && !has_issue_key(before, k) {
            if has_issue_key(mid, k) {
                let (a, b) = choose|a: int, b: int|
                    is_component(ps[i]@, a, b) && #[trigger] ps[i]@.subrange(a, b) == k.2 && text_units(k.2, is_wide(ci)) > limit;
                assert(path_issue_key(ps, ci, limit, i + 1, k));
            } else {
                let i2 = choose|i2: int| #[trigger] aliases_latest(ps, ci, i2, i) && k == (ps[i2]@, 1u8, ps[i]@);
                assert(path_issue_key(ps, ci, limit, i + 1, k));
            }
        }
        if path_issue_key(ps, ci, limit, i, k) {
            assert(has_issue_key(mid, k));
            if k.1 == 0 {
                let i2 = choose|i2: int| 0 <= i2 < i && #[trigger] ps[i2]@ == k.0 && !plain_relative_path(k.0);
                assert(0 <= i2 < i + 1);
            } else if k.1 == 3 {
                let (i2, a, b) = choose|i2: int, a: int, b: int|
                    0 <= i2 < i && #[trigger] ps[i2]@ == k.0 && plain_relative_path(k.0) && is_component(k.0, a, b)
                        && #[trigger] k.0.subrange(a, b) == k.2 && text_units(k.2, is_wide(ci)) > limit;
                assert(0 <= i2 < i + 1);
            } else {
                let (i2, j2) = choose|i2: int, j2: int|
                    0 <= j2 < i && #[trigger] aliases_latest(ps, ci, i2, j2) && ps[i2]@ == k.0 && ps[j2]@ == k.2;
                assert(0 <= j2 < i + 1);
            }
        }
    }
}

/// Checks the planned relative paths of a publication, in order, without
/// looking at the destination.
///
/// A path that is not plain and relative is reported and not checked
/// further. Every component longer than `component_limit` units (UTF-16
/// units on Windows, bytes elsewhere) is reported. Paths are compared by their key under the destination's
/// `folding` (see `alias_key`), and a path that matches the latest earlier
/// path with the same key, without being equal to it, is reported as its
/// alias. The issues come in canonical order, each key once.
pub fn preflight_planned_paths(
    paths: &[String],
    folding: PathFolding,
    component_limit: usize,
) -> (r: Vec<FilesystemPublicationPreflightIssue>)
    ensures
        issues_canonical(r@),
        only_path_issues(r@),
        forall|k: (Seq<char>, u8, Seq<char>)|
            #[trigger] has_issue_key(r@, k) <==> path_issue_key(paths@, folding, component_limit as nat, paths@.len() as int, k),
{
    let ghost ps = paths@;
    let ghost ci = folding;
    let ghost limit = component_limit as nat;
    let wide = match folding.platform {
        PathPlatform::Windows => true,
        _ => false,
    };
    let mut raw: Vec<FilesystemPublicationPreflightIssue> = Vec::new();
    let mut table: Vec<(String, String)> = Vec::new();
    let mut i: usize = 0;
    while i < paths.len()
        invariant
            i <= ps.len(),
            ps == paths@,
            ci == folding,
            wide == is_wide(folding),
            limit == component_limit as nat,
            only_path_issues(raw@),
            alias_table(ps, ci, i as int, table@),
            forall|k: (Seq<char>, u8, Seq<char>)| #[trigger] has_issue_key(raw@, k) <==> path_issue_key(ps, ci, limit, i as int, k),
        decreases ps.len() - i,
    {
        let path = &paths[i];
        let chars = crate::text::chars_of(path.as_str());
        let ghost before = raw@;
        if !check_plain_relative(chars.as_slice()) {
            let x = FilesystemPublicationPreflightIssue::InvalidRelativePath { relative_path: path.clone() };
            raw.push(x);
            proof {
                lemma_push_issue_keys(before, x);
                lemma_invalid_step(ps, ci, limit, i as int, before, raw@);
                lemma_table_skip(ps, ci, i as int, table@);
            }
        } else {
            long_component_issues(path, chars.as_slice(), component_limit, wide, &mut raw);
            let ghost mid = raw@;
            let key = alias_key_of(path, folding);
            let ghost kk = key@;
            let prev = remember_alias(&mut table, key, path, Ghost(ps), Ghost(ci), Ghost(i as int));
            match prev {
                Some(first) => {
                    if first != *path {
                        let x = FilesystemPublicationPreflightIssue::PathAlias { first_path: first, second_path: path.clone() };
                        raw.push(x);
                        proof {
                            lemma_push_issue_keys(mid, x);
                            let idx = choose|idx: int| latest_with_key(ps, ci, i as int, idx, kk) && ps[idx]@ == x->first_path@;
                            assert(aliases_latest(ps, ci, idx, i as int));
                            assert forall|k: (Seq<char>, u8, Seq<char>)|
                                #[trigger] has_issue_key(raw@, k) <==> (has_issue_key(mid, k) || exists|i2: int|
                                    #[trigger] aliases_latest(ps, ci, i2, i as int) && k == (ps[i2]@, 1u8, ps[i as int]@)) by {
                                if exists|i2: int| #[trigger] aliases_latest(ps, ci, i2, i as int) && k == (ps[i2]@, 1u8, ps[i as int]@) {
                                    let i2 = choose|i2: int| #[trigger] aliases_latest(ps, ci, i2, i as int) && k == (ps[i2]@, 1u8, ps[i as int]@);
                                    assert(latest_with_key(ps, ci, i as int, i2, kk));
                                    lemma_latest_unique(ps, ci, i as int, i2, idx, kk);
                                }
                                if k == issue_key(x) {
                                    assert(aliases_latest(ps, ci, idx, i as int) && k == (ps[idx]@, 1u8, ps[i as int]@));
                                }
                            }
                        }
                    } else {
                        proof {
                            let idx = choose|idx: int| latest_with_key(ps, ci, i as int, idx, kk) && ps[idx]@ == first@;
                            assert forall|i2: int| !#[trigger] aliases_latest(ps, ci, i2, i as int) by {
                                if aliases_latest(ps, ci, i2, i as int) {
                                    assert(latest_with_key(ps, ci, i as int, i2, kk));
                                    lemma_latest_unique(ps, ci, i as int, i2, idx, kk);
                                }
                            }
                        }
                    }
                },
                None => {
                    proof {
                        assert forall|i2: int| !#[trigger] aliases_latest(ps, ci, i2, i as int) by {
                            if aliases_latest(ps, ci, i2, i as int) {
                                assert(latest_with_key(ps, ci, i as int, i2, kk));
                            }
                        }
                    }
                },
            }
            proof {
                lemma_plain_step(ps, ci, limit, i as int, before, mid, raw@);
            }
        }
        i = i + 1;
    }
    let ghost raw_view = raw@;
    let r = canonical_preflight_issues(raw);
    proof {
        assert forall|j: int| 0 <= j < r@.len() implies is_path_issue_kind(#[trigger] r@[j]) by {
            assert(raw_view.contains(r@[j]));
        }
        assert forall|k: (Seq<char>, u8, Seq<char>)| #[trigger] has_issue_key(r@, k) <==> has_issue_key(raw_view, k) by {
            if has_issue_key(r@, k) {
                let j = choose|j: int| 0 <= j < r@.len() && issue_key(#[trigger] r@[j]) == k;
                assert(raw_view.contains(r@[j]));
                let q = choose|q: int| 0 <= q < raw_view.len() && raw_view[q] == r@[j];
                assert(issue_key(raw_view[q]) == k);
            }
            if has_issue_key(raw_view, k) {
                let q = choose|q: int| 0 <= q < raw_view.len() && issue_key(#[trigger] raw_view[q]) == k;
                assert(has_issue_key(r@, issue_key(raw_view[q])));
            }
        }
    }
    r
}

/// Where names are compared as given (no platform folding and no case
/// folding), no two planned paths are aliases: only equal paths share a key,
/// and a path planned twice is no alias.
pub proof fn lemma_no_alias_without_case_folding(
    paths: Seq<String>,
    component_limit: nat,
    k: (Seq<char>, u8, Seq<char>),
)
    requires
        k.1 == 1,
    ensures
        !path_issue_key(
            paths,
            PathFolding { platform: PathPlatform::Other, case_insensitive: false },
            component_limit,
            paths.len() as int,
            k,
        ),
{
    let f = PathFolding { platform: PathPlatform::Other, case_insensitive: false };
    if path_issue_key(paths, f, component_limit, paths.len() as int, k) {
        let (i, j) = choose|i: int, j: int|
            0 <= j < paths.len() && #[trigger] aliases_latest(paths, f, i, j) && paths[i]@ == k.0 && paths[j]@ == k.2;
        assert(alias_key(paths[i]@, f) == paths[i]@);
    }
}

/// Characters that a Windows file name cannot hold: control characters and
/// `"`, `*`, `/`, `:`, `<`, `>`, `?`, `\` and `|`.
pub open spec fn windows_forbidden_char(c: char) -> bool {
    (c as u32) < 32 || c == '"' || c == '*' || c == '/' || c == ':' || c == '<' || c == '>' || c == '?' || c
        == '\\' || c == '|'
}

/// Windows cannot create a name holding a control character or any of
/// `"` (34), `*` (42), `/` (47), `:` (58), `<` (60), `>` (62), `?` (63),
/// `\` (92) or `|` (124): every component holding one is reserved,
/// wherever it stands.
pub proof fn lemma_forbidden_characters_reserved(c: Seq<char>, i: int)
    requires
        0 <= i < c.len(),
        (c[i] as u32) < 32 || c[i] as u32 == 34 || c[i] as u32 == 42 || c[i] as u32 == 47 || c[i] as u32 == 58
            || c[i] as u32 == 60 || c[i] as u32 == 62 || c[i] as u32 == 63 || c[i] as u32 == 92 || c[i] as u32 == 124,
    ensures
        windows_reserved(c),
{
    let x = c[i];
    vstd::utf8::char_u32_cast(x, x as u32);
    vstd::utf8::char_u32_cast('"', 34);
    vstd::utf8::char_u32_cast('*', 42);
    vstd::utf8::char_u32_cast('/', 47);
    vstd::utf8::char_u32_cast(':', 58);
    vstd::utf8::char_u32_cast('<', 60);
    vstd::utf8::char_u32_cast('>', 62);
    vstd::utf8::char_u32_cast('?', 63);
    vstd::utf8::char_u32_cast('\\', 92);
    vstd::utf8::char_u32_cast('|', 124);
    assert(('"' as u32) == 34 && ('*' as u32) == 42 && ('/' as u32) == 47 && (':' as u32) == 58 && ('<' as u32)
        == 60 && ('>' as u32) == 62 && ('?' as u32) == 63 && ('\\' as u32) == 92 && ('|' as u32) == 124);
    assert(windows_forbidden_char(x));
}

/// A component that ends with a space or a dot is reserved.
pub proof fn lemma_trailing_space_or_dot_reserved(c: Seq<char>)
    requires
        c.len() > 0,
        c.last() == ' ' || c.last() == '.',
    ensures
        windows_reserved(c),
{
}

/// `c` in ASCII upper case.
pub open spec fn ascii_upper(c: char) -> char {
    if 'a' <= c && c <= 'z' {
        ((c as u32) - 32) as char
    } else {
        c
    }
}

/// `s` reads `word` when put in ASCII upper case.
pub open spec fn upper_reads(s: Seq<char>, word: Seq<char>) -> bool {
    s.len() == word.len() && forall|i: int| 0 <= i < s.len() ==> ascii_upper(#[trigger] s[i]) == word[i]
}

/// The part of a component before its first `.`.
pub open spec fn component_stem(c: Seq<char>) -> Seq<char> {
    match crate::text::first_index_of(c, '.', 0) {
        Some(i) => c.subrange(0, i),
        None => c,
    }
}

/// The digits that may follow `COM` or `LPT` in a device name.
pub open spec fn port_digit(c: char) -> bool {
    ('1' <= c && c <= '9') || c == '\u{b9}' || c == '\u{b2}' || c == '\u{b3}'
}

/// Whether Windows reserves the file name `c`: it ends with a space or a
/// dot, holds a forbidden character, or its stem names a device (`CON`,
/// `PRN`, `AUX`, `NUL`, or `COM` or `LPT` and a port digit) in any ASCII case.
pub open spec fn windows_reserved(c: Seq<char>) -> bool {
    let stem = component_stem(c);
    ||| c.len() > 0 && (c.last() == ' ' || c.last() == '.')
    ||| exists|i: int| 0 <= i < c.len() && windows_forbidden_char(#[trigger] c[i])
    ||| upper_reads(stem, seq!['C', 'O', 'N'])
    ||| upper_reads(stem, seq!['P', 'R', 'N'])
    ||| upper_reads(stem, seq!['A', 'U', 'X'])
    ||| upper_reads(stem, seq!['N', 'U', 'L'])
    ||| (stem.len() == 4 && (upper_reads(stem.subrange(0, 3), seq!['C', 'O', 'M']) || upper_reads(
        stem.subrange(0, 3),
        seq!['L', 'P', 'T'],
    )) && port_digit(stem[3]))
}

pub(crate) fn upper_char(c: char) -> (r: char)
    ensures
        r == ascii_upper(c),
{
    if 'a' <= c && c <= 'z' {
        match c {
            'a' => 'A',
            'b' => 'B',
            'c' => 'C',
            'd' => 'D',
            'e' => 'E',
            'f' => 'F',
            'g' => 'G',
            'h' => 'H',
            'i' => 'I',
            'j' => 'J',
            'k' => 'K',
            'l' => 'L',
            'm' => 'M',
            'n' => 'N',
            'o' => 'O',
            'p' => 'P',
            'q' => 'Q',
            'r' => 'R',
            's' => 'S',
            't' => 'T',
            'u' => 'U',
            'v' => 'V',
            'w' => 'W',
            'x' => 'X',
            'y' => 'Y',
            _ => 'Z',
        }
    } else {
        c
    }
}

/// Whether `s[a..a + 3]` reads the three letters `x`, `y`, `z` in upper case.
fn reads_upper3(s: &[char], a: usize, x: char, y: char, z: char) -> (r: bool)
    requires
        a + 3 <= s@.len(),
    ensures
        r == upper_reads(s@.subrange(a as int, a + 3), seq![x, y, z]),
{
    let r = upper_char(s[a]) == x && upper_char(s[a + 1]) == y && upper_char(s[a + 2]) == z;
    proof {
        let t = s@.subrange(a as int, a + 3);
        assert(t[0] == s@[a as int] && t[1] == s@[a + 1] && t[2] == s@[a + 2]);
        if r {
            assert forall|i: int| 0 <= i < t.len() implies ascii_upper(#[trigger] t[i]) == seq![x, y, z][i] by {
                if i == 0 {
                } else if i == 1 {
                } else {
                }
            }
        } else {
            if upper_reads(t, seq![x, y, z]) {
                assert(ascii_upper(t[0]) == x);
                assert(ascii_upper(t[1]) == y);
                assert(ascii_upper(t[2]) == z);
            }
        }
    }
    r
}

/// Whether Windows reserves the file name `component`.
pub fn is_reserved_windows_component(component: &str) -> (r: bool)
    ensures
        r == windows_reserved(component@),
{
    let c = crate::text::chars_of(component);
    let n = c.len();
    if n > 0 && (c[n - 1] == ' ' || c[n - 1] == '.') {
        return true;
    }
    let mut i: usize = 0;
    while i < n
        invariant
            n == c@.len(),
            c@ == component@,
            i <= n,
            forall|j: int| 0 <= j < i ==> !windows_forbidden_char(#[trigger] c@[j]),
        decreases n - i,
    {
        let ch = c[i];
        if (ch as u32) < 32 || ch == '"' || ch == '*' || ch == '/' || ch == ':' || ch == '<' || ch == '>' || ch == '?'
            || ch == '\\' || ch == '|' {
            proof {
                assert(windows_forbidden_char(c@[i as int]));
            }
            return true;
        }
        i = i + 1;
    }
    let stem_end = match crate::text::find_char(c.as_slice(), '.', 0) {
        Some(d) => d,
        None => n,
    };
    let ghost stem = component_stem(component@);
    proof {
        assert(stem =~= c@.subrange(0, stem_end as int));
        assert(!exists|j: int| 0 <= j < c@.len() && windows_forbidden_char(#[trigger] c@[j]));
        assert(!(c@.len() > 0 && (c@.last() == ' ' || c@.last() == '.')));
    }
    if stem_end == 3 {
        let device = reads_upper3(c.as_slice(), 0, 'C', 'O', 'N') || reads_upper3(c.as_slice(), 0, 'P', 'R', 'N')
            || reads_upper3(c.as_slice(), 0, 'A', 'U', 'X') || reads_upper3(c.as_slice(), 0, 'N', 'U', 'L');
        proof {
            assert(c@.subrange(0, 3) =~= stem);
            assert(stem.len() != 4);
        }
        return device;
    }
    if stem_end == 4 {
        let d = c[3];
        let port = ('1' <= d && d <= '9') || d == '\u{b9}' || d == '\u{b2}' || d == '\u{b3}';
        let prefix = reads_upper3(c.as_slice(), 0, 'C', 'O', 'M') || reads_upper3(c.as_slice(), 0, 'L', 'P', 'T');
        proof {
            assert(c@.subrange(0, 3) =~= stem.subrange(0, 3));
            assert(stem[3] == d);
        }
        return prefix && port;
    }
    false
}


/// The components of `p[a..]` that Windows reserves, in order.
#[verifier::opaque]
pub open spec fn reserved_components_from(p: Seq<char>, a: int) -> Seq<Seq<char>>
    decreases p.len() - a,
{
    if a < 0 || a > p.len() {
        Seq::empty()
    } else {
        match first_index_of(p, '/', a) {
            None => reserved_if(p.subrange(a, p.len() as int)),
            Some(k) => if a <= k < p.len() {
                reserved_if(p.subrange(a, k)) + reserved_components_from(p, k + 1)
            } else {
                Seq::empty()
            },
        }
    }
}

/// The component itself when Windows reserves it, else nothing.
pub open spec fn reserved_if(c: Seq<char>) -> Seq<Seq<char>> {
    if windows_reserved(c) {
        seq![c]
    } else {
        Seq::empty()
    }
}

/// The reserved components of a planned path under `folding`: those that
/// Windows reserves, in order, on Windows, and none elsewhere.
pub open spec fn reserved_components(p: Seq<char>, folding: PathFolding) -> Seq<Seq<char>> {
    if folding.platform == PathPlatform::Windows {
        reserved_components_from(p, 0)
    } else {
        Seq::empty()
    }
}

proof fn lemma_reserved_step(p: Seq<char>, a: int, k: int)
    requires
        0 <= a <= k < p.len(),
        first_index_of(p, '/', a) == Some(k),
    ensures
        reserved_components_from(p, a) == reserved_if(p.subrange(a, k)) + reserved_components_from(p, k + 1),
{
    reveal(reserved_components_from);
}

proof fn lemma_reserved_last(p: Seq<char>, a: int)
    requires
        0 <= a <= p.len(),
        first_index_of(p, '/', a) is None,
    ensures
        reserved_components_from(p, a) == reserved_if(p.subrange(a, p.len() as int)),
{
    reveal(reserved_components_from);
}

/// Whether `issues` reports, in order, exactly the components `components`
/// of `path` as reserved.
pub open spec fn reports_reserved(
    issues: Seq<FilesystemPublicationPreflightIssue>,
    path: Seq<char>,
    components: Seq<Seq<char>>,
) -> bool {
    &&& issues.len() == components.len()
    &&& forall|j: int|
        0 <= j < issues.len() ==> (#[trigger] issues[j] matches FilesystemPublicationPreflightIssue::ReservedName {
            relative_path,
            component,
        } && relative_path@ == path && component@ == components[j])
}

/// Reports `path[a..b]` as a reserved component of `path` when Windows
/// reserves it.
fn push_if_reserved(
    path: &String,
    a: usize,
    b: usize,
    issues: &mut Vec<FilesystemPublicationPreflightIssue>,
    Ghost(done): Ghost<Seq<Seq<char>>>,
)
    requires
        a <= b <= path@.len(),
        reports_reserved(old(issues)@, path@, done),
    ensures
        reports_reserved(final(issues)@, path@, done + reserved_if(path@.subrange(a as int, b as int))),
{
    let component = path.as_str().substring_char(a, b);
    if is_reserved_windows_component(component) {
        let x = FilesystemPublicationPreflightIssue::ReservedName {
            relative_path: path.clone(),
            component: component.to_owned(),
        };
        issues.push(x);
        proof {
            let all = done + reserved_if(path@.subrange(a as int, b as int));
            assert(all =~= done.push(path@.subrange(a as int, b as int)));
            assert forall|j: int| 0 <= j < issues@.len() implies (#[trigger] issues@[j] matches FilesystemPublicationPreflightIssue::ReservedName {
                relative_path,
                component,
            } && relative_path@ == path@ && component@ == all[j]) by {
                if j < old(issues)@.len() {
                    assert(issues@[j] == old(issues)@[j]);
                }
            }
        }
    } else {
        proof {
            assert(done + reserved_if(path@.subrange(a as int, b as int)) =~= done);
        }
    }
}

/// The reserved-name issues of a planned path: on Windows, one for each
/// component that Windows reserves, in order; elsewhere none.
pub fn reserved_name_issues(path: &String, folding: PathFolding) -> (r: Vec<FilesystemPublicationPreflightIssue>)
    ensures
        reports_reserved(r@, path@, reserved_components(path@, folding)),
{
    let mut issues: Vec<FilesystemPublicationPreflightIssue> = Vec::new();
    match folding.platform {
        PathPlatform::Windows => {},
        _ => {
            return issues;
        },
    }
    let cs = chars_of(path.as_str());
    let n = cs.len();
    let mut a: usize = 0;
    let ghost mut done: Seq<Seq<char>> = Seq::empty();
    proof {
        assert(done + reserved_components_from(path@, 0) =~= reserved_components_from(path@, 0));
    }
    loop
        invariant
            cs@ == path@,
            n == path@.len(),
            a <= n,
            folding.platform == PathPlatform::Windows,
            reports_reserved(issues@, path@, done),
            done + reserved_components_from(path@, a as int) == reserved_components_from(path@, 0),
        decreases n - a,
    {
        match find_char(cs.as_slice(), '/', a) {
            None => {
                proof {
                    lemma_reserved_last(path@, a as int);
                }
                push_if_reserved(path, a, n, &mut issues, Ghost(done));
                proof {
                    assert(path@.subrange(a as int, n as int) =~= path@.subrange(a as int, path@.len() as int));
                }
                return issues;
            },
            Some(k) => {
                proof {
                    lemma_reserved_step(path@, a as int, k as int);
                }
                push_if_reserved(path, a, k, &mut issues, Ghost(done));
                proof {
                    let next = done + reserved_if(path@.subrange(a as int, k as int));
                    assert(next + reserved_components_from(path@, k + 1) =~= done + reserved_components_from(
                        path@,
                        a as int,
                    ));
                    done = next;
                }
                a = k + 1;
            },
        }
    }
}

/// Whether a target path of `units` units, of which the first `prefix`
/// units are a platform prefix, exceeds the platform's path limit.
pub open spec fn path_too_long(units: nat, prefix: nat, limit: nat) -> bool {
    (if units >= prefix {
        units - prefix
    } else {
        0
    }) > limit
}

/// The path-length issue of a planned path whose target path has `units`
/// units, of which the first `prefix` are a platform prefix: reported when
/// the rest exceeds `limit`.
pub fn path_length_issue(path: &String, units: usize, prefix: usize, limit: usize) -> (r: Option<
    FilesystemPublicationPreflightIssue,
>)
    ensures
        match r {
            Some(issue) => path_too_long(units as nat, prefix as nat, limit as nat) && (issue matches FilesystemPublicationPreflightIssue::PathTooLong {
                relative_path,
            } && relative_path@ == path@),
            None => !path_too_long(units as nat, prefix as nat, limit as nat),
        },
{
    if units.saturating_sub(prefix) > limit {
        Some(FilesystemPublicationPreflightIssue::PathTooLong { relative_path: path.clone() })
    } else {
        None
    }
}


/// The issue keys that the platform's own checks give a planned path whose
/// target path has `units` units: none for a path that is not plain and
/// relative; otherwise its reserved components, in order, then the path
/// length where it exceeds the limit.
pub open spec fn platform_keys_of(
    path: Seq<char>,
    units: nat,
    folding: PathFolding,
    prefix: nat,
    limit: nat,
) -> Seq<(Seq<char>, u8, Seq<char>)> {
    if !plain_relative_path(path) {
        Seq::empty()
    } else {
        reserved_components(path, folding).map_values(|c: Seq<char>| (path, 2u8, c)) + if path_too_long(
            units,
            prefix,
            limit,
        ) {
            seq![(path, 4u8, Seq::<char>::empty())]
        } else {
            Seq::empty()
        }
    }
}

/// The issue keys of the platform's own checks on the first `n` planned
/// paths, path by path.
pub open spec fn platform_keys(
    paths: Seq<String>,
    units: Seq<usize>,
    folding: PathFolding,
    prefix: nat,
    limit: nat,
    n: int,
) -> Seq<(Seq<char>, u8, Seq<char>)>
    decreases n,
{
    if n <= 0 {
        Seq::empty()
    } else {
        platform_keys(paths, units, folding, prefix, limit, n - 1) + platform_keys_of(
            paths[n - 1]@,
            units[n - 1] as nat,
            folding,
            prefix,
            limit,
        )
    }
}

proof fn lemma_reserved_keys(
    issues: Seq<FilesystemPublicationPreflightIssue>,
    path: Seq<char>,
    components: Seq<Seq<char>>,
)
    requires
        reports_reserved(issues, path, components),
    ensures
        issues.map_values(|x: FilesystemPublicationPreflightIssue| issue_key(x)) == components.map_values(
            |c: Seq<char>| (path, 2u8, c),
        ),
{
    assert forall|j: int| 0 <= j < issues.len() implies #[trigger] issue_key(issues[j]) == (path, 2u8, components[j]) by {
        assert(issues[j] matches FilesystemPublicationPreflightIssue::ReservedName { relative_path, component }
            && relative_path@ == path && component@ == components[j]);
    }
    assert(issues.map_values(|x: FilesystemPublicationPreflightIssue| issue_key(x)) =~= components.map_values(
        |c: Seq<char>| (path, 2u8, c),
    ));
}

/// The platform's own checks on the planned paths, each with the number of
/// units of its target path: for each plain relative path, in order, its
/// reserved components (on Windows) and whether its target path is too
/// long. Paths that are not plain and relative are left to
/// `preflight_planned_paths`.
pub fn platform_path_issues(
    paths: &[String],
    target_units: &[usize],
    folding: PathFolding,
    prefix: usize,
    limit: usize,
) -> (r: Vec<FilesystemPublicationPreflightIssue>)
    requires
        target_units@.len() == paths@.len(),
    ensures
        r@.map_values(|x: FilesystemPublicationPreflightIssue| issue_key(x)) == platform_keys(
            paths@,
            target_units@,
            folding,
            prefix as nat,
            limit as nat,
            paths@.len() as int,
        ),
{
    let mut out: Vec<FilesystemPublicationPreflightIssue> = Vec::new();
    let mut i: usize = 0;
    proof {
        assert(out@.map_values(|x: FilesystemPublicationPreflightIssue| issue_key(x)) =~= Seq::<
            (Seq<char>, u8, Seq<char>),
        >::empty());
    }
    while i < paths.len()
        invariant
            i <= paths@.len(),
            target_units@.len() == paths@.len(),
            out@.map_values(|x: FilesystemPublicationPreflightIssue| issue_key(x)) == platform_keys(
                paths@,
                target_units@,
                folding,
                prefix as nat,
                limit as nat,
                i as int,
            ),
        decreases paths.len() - i,
    {
        let path = &paths[i];
        let chars = chars_of(path.as_str());
        let ghost before = out@;
        let ghost keys_before = out@.map_values(|x: FilesystemPublicationPreflightIssue| issue_key(x));
        if check_plain_relative(chars.as_slice()) {
            let mut reserved = reserved_name_issues(path, folding);
            let ghost rs = reserved@;
            proof {
                lemma_reserved_keys(rs, path@, reserved_components(path@, folding));
            }
            out.append(&mut reserved);
            let ghost mid = out@;
            proof {
                assert(mid =~= before + rs);
                assert(mid.map_values(|x: FilesystemPublicationPreflightIssue| issue_key(x)) =~= keys_before
                    + rs.map_values(|x: FilesystemPublicationPreflightIssue| issue_key(x)));
            }
            match path_length_issue(path, target_units[i], prefix, limit) {
                Some(x) => {
                    out.push(x);
                    proof {
                        assert(issue_key(x) == (path@, 4u8, Seq::<char>::empty()));
                        assert(out@.map_values(|x: FilesystemPublicationPreflightIssue| issue_key(x)) =~= mid.map_values(
                            |x: FilesystemPublicationPreflightIssue| issue_key(x),
                        ).push(issue_key(x)));
                    }
                },
                None => {},
            }
            proof {
                assert(out@.map_values(|x: FilesystemPublicationPreflightIssue| issue_key(x)) =~= keys_before
                    + platform_keys_of(path@, target_units@[i as int] as nat, folding, prefix as nat, limit as nat));
            }
        } else {
            proof {
                assert(platform_keys_of(path@, target_units@[i as int] as nat, folding, prefix as nat, limit as nat)
                    =~= Seq::<(Seq<char>, u8, Seq<char>)>::empty());
                assert(keys_before + Seq::<(Seq<char>, u8, Seq<char>)>::empty() =~= keys_before);
            }
        }
        i = i + 1;
    }
    out
}
} // verus!
