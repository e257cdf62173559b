//! The textual syntax of identities, namespaced values, logical paths and
//! capability classes.

use vstd::prelude::*;
use crate::text::{
    CharClass, char_in_class, all_in_class, first_index_of, chars_in_class, find_char,
};
use crate::{DomainValueRejection, OperationalCapabilityClassRejection};

verus! {

/// The longest admitted operational capability class, in characters.
pub const MAX_CAPABILITY_CLASS_CHARS: usize = 128;

// ---------------------------------------------------------------------------
// Identities: `<algorithm>:<lowercase hex digest>`.

/// Why an identity text is refused, or `None` when it is a canonical identity.
pub open spec fn identity_rejection(s: Seq<char>) -> Option<DomainValueRejection> {
    if s.len() == 0 {
        Some(DomainValueRejection::Empty)
    } else {
        match first_index_of(s, ':', 0) {
            None => Some(DomainValueRejection::InvalidSyntax),
            Some(k) => if k == 0 || !all_in_class(s, 0, k, CharClass::LowerIdent) {
                Some(DomainValueRejection::InvalidNamespace)
            } else if k + 1 == s.len() || !all_in_class(s, k + 1, s.len() as int, CharClass::Hex) {
                Some(DomainValueRejection::InvalidSyntax)
            } else if !all_in_class(s, k + 1, s.len() as int, CharClass::LowerHex) {
                Some(DomainValueRejection::NonCanonical)
            } else {
                None
            },
        }
    }
}

pub fn check_identity(s: &[char]) -> (r: Option<DomainValueRejection>)
    ensures
        r == identity_rejection(s@),
{
    let n = s.len();
    if n == 0 {
        return Some(DomainValueRejection::Empty);
    }
    match find_char(s, ':', 0) {
        None => Some(DomainValueRejection::InvalidSyntax),
        Some(k) => {
            if k == 0 || !chars_in_class(s, 0, k, CharClass::LowerIdent) {
                Some(DomainValueRejection::InvalidNamespace)
            } else if k + 1 == n || !chars_in_class(s, k + 1, n, CharClass::Hex) {
                Some(DomainValueRejection::InvalidSyntax)
            } else if !chars_in_class(s, k + 1, n, CharClass::LowerHex) {
                Some(DomainValueRejection::NonCanonical)
            } else {
                None
            }
        },
    }
}

// ---------------------------------------------------------------------------
// Namespaced values: `<namespace>:<graphic text>`.

/// Why a namespaced value is refused, or `None` when it is well formed.
pub open spec fn namespaced_rejection(s: Seq<char>) -> Option<DomainValueRejection> {
    if s.len() == 0 {
        Some(DomainValueRejection::Empty)
    } else {
        match first_index_of(s, ':', 0) {
            None => Some(DomainValueRejection::InvalidNamespace),
            Some(k) => if k == 0 || !all_in_class(s, 0, k, CharClass::LowerIdent) || k + 1 == s.len()
                || !all_in_class(s, k + 1, s.len() as int, CharClass::Graphic) {
                Some(DomainValueRejection::InvalidNamespace)
            } else {
                None
            },
        }
    }
}

pub fn check_namespaced(s: &[char]) -> (r: Option<DomainValueRejection>)
    ensures
        r == namespaced_rejection(s@),
{
    let n = s.len();
    if n == 0 {
        return Some(DomainValueRejection::Empty);
    }
    match find_char(s, ':', 0) {
        None => Some(DomainValueRejection::InvalidNamespace),
        Some(k) => {
            if k == 0 || !chars_in_class(s, 0, k, CharClass::LowerIdent) || k + 1 == n
                || !chars_in_class(s, k + 1, n, CharClass::Graphic) {
                Some(DomainValueRejection::InvalidNamespace)
            } else {
                None
            }
        },
    }
}

// ---------------------------------------------------------------------------
// Logical paths: `/`-separated, relative, no empty, `.` or `..` component.

pub open spec fn component_start(s: Seq<char>, i: int) -> bool {
    0 <= i < s.len() && (i == 0 || s[i - 1] == '/')
}

pub open spec fn is_dot_component(s: Seq<char>, i: int) -> bool {
    s[i] == '.' && (i + 1 == s.len() || s[i + 1] == '/' || (s[i + 1] == '.' && (i + 2 == s.len()
        || s[i + 2] == '/')))
}

/// The constraints that position `i` of a logical path must meet.
pub open spec fn path_position_ok(s: Seq<char>, i: int) -> bool {
    &&& s[i] != '\\'
    &&& s[i] != '\0'
    &&& s[i] == '/' ==> (i + 1 < s.len() && s[i + 1] != '/')
    &&& component_start(s, i) ==> !is_dot_component(s, i)
}

/// A canonical relative logical path.
pub open spec fn is_canonical_relative_path(s: Seq<char>) -> bool {
    &&& s.len() > 0
    &&& s[0] != '/'
    &&& forall|i: int| 0 <= i < s.len() ==> #[trigger] path_position_ok(s, i)
}

pub open spec fn relative_path_rejection(s: Seq<char>) -> Option<DomainValueRejection> {
    if s.len() == 0 {
        Some(DomainValueRejection::Empty)
    } else if !is_canonical_relative_path(s) {
        Some(DomainValueRejection::InvalidSyntax)
    } else {
        None
    }
}

fn path_position_is_ok(s: &[char], i: usize) -> (r: bool)
    requires
        i < s@.len(),
    ensures
        r == path_position_ok(s@, i as int),
{
    let n = s.len();
    let c = s[i];
    if c == '\\' || c == '\0' {
        return false;
    }
    if c == '/' && !(i + 1 < n && s[i + 1] != '/') {
        return false;
    }
    let starts = i == 0 || s[i - 1] == '/';
    if starts && c == '.' {
        if i + 1 == n || s[i + 1] == '/' {
            return false;
        }
        if s[i + 1] == '.' && (i + 2 == n || s[i + 2] == '/') {
            return false;
        }
    }
    true
}

pub fn check_relative_path(s: &[char]) -> (r: Option<DomainValueRejection>)
    ensures
        r == relative_path_rejection(s@),
{
    let n = s.len();
    if n == 0 {
        return Some(DomainValueRejection::Empty);
    }
    if s[0] == '/' {
        return Some(DomainValueRejection::InvalidSyntax);
    }
    let mut i: usize = 0;
    while i < n
        invariant
            i <= n,
            n == s@.len(),
            n > 0,
            s@[0] != '/',
            forall|j: int| 0 <= j < i ==> #[trigger] path_position_ok(s@, j),
        decreases n - i,
    {
        if !path_position_is_ok(s, i) {
            return Some(DomainValueRejection::InvalidSyntax);
        }
        i = i + 1;
    }
    None
}

// ---------------------------------------------------------------------------
// Package specifications: `@<namespace>/<name>:<version>`.

pub open spec fn package_specification_rejection(s: Seq<char>) -> Option<DomainValueRejection> {
    if s.len() == 0 {
        Some(DomainValueRejection::Empty)
    } else if s[0] != '@' {
        Some(DomainValueRejection::InvalidSyntax)
    } else {
        match first_index_of(s, '/', 1) {
            None => Some(DomainValueRejection::InvalidSyntax),
            Some(a) => if a == 1 || !all_in_class(s, 1, a, CharClass::LowerIdent) {
                Some(DomainValueRejection::InvalidNamespace)
            } else {
                match first_index_of(s, ':', a + 1) {
                    None => Some(DomainValueRejection::InvalidSyntax),
                    Some(b) => if b == a + 1 || !all_in_class(s, a + 1, b, CharClass::LowerIdent) || b + 1
                        == s.len() || !all_in_class(s, b + 1, s.len() as int, CharClass::Graphic) {
                        Some(DomainValueRejection::InvalidSyntax)
                    } else {
                        None
                    },
                }
            },
        }
    }
}

pub fn check_package_specification(s: &[char]) -> (r: Option<DomainValueRejection>)
    ensures
        r == package_specification_rejection(s@),
{
    let n = s.len();
    if n == 0 {
        return Some(DomainValueRejection::Empty);
    }
    if s[0] != '@' {
        return Some(DomainValueRejection::InvalidSyntax);
    }
    match find_char(s, '/', 1) {
        None => Some(DomainValueRejection::InvalidSyntax),
        Some(a) => {
            if a == 1 || !chars_in_class(s, 1, a, CharClass::LowerIdent) {
                Some(DomainValueRejection::InvalidNamespace)
            } else {
                match find_char(s, ':', a + 1) {
                    None => Some(DomainValueRejection::InvalidSyntax),
                    Some(b) => {
                        if b == a + 1 || !chars_in_class(s, a + 1, b, CharClass::LowerIdent) || b + 1
                            == n || !chars_in_class(s, b + 1, n, CharClass::Graphic) {
                            Some(DomainValueRejection::InvalidSyntax)
                        } else {
                            None
                        }
                    },
                }
            }
        },
    }
}

// ---------------------------------------------------------------------------
// Typst input keys and engine features.

pub open spec fn input_key_rejection(s: Seq<char>) -> Option<DomainValueRejection> {
    if s.len() == 0 {
        Some(DomainValueRejection::Empty)
    } else if !all_in_class(s, 0, s.len() as int, CharClass::Graphic) || first_index_of(s, '=', 0)
        is Some {
        Some(DomainValueRejection::InvalidSyntax)
    } else {
        None
    }
}

pub fn check_input_key(s: &[char]) -> (r: Option<DomainValueRejection>)
    ensures
        r == input_key_rejection(s@),
{
    let n = s.len();
    if n == 0 {
        Some(DomainValueRejection::Empty)
    } else if !chars_in_class(s, 0, n, CharClass::Graphic) || find_char(s, '=', 0).is_some() {
        Some(DomainValueRejection::InvalidSyntax)
    } else {
        None
    }
}

pub open spec fn feature_rejection(s: Seq<char>) -> Option<DomainValueRejection> {
    if s.len() == 0 {
        Some(DomainValueRejection::Empty)
    } else if !all_in_class(s, 0, s.len() as int, CharClass::LowerIdent) {
        Some(DomainValueRejection::InvalidSyntax)
    } else {
        None
    }
}

pub fn check_feature(s: &[char]) -> (r: Option<DomainValueRejection>)
    ensures
        r == feature_rejection(s@),
{
    let n = s.len();
    if n == 0 {
        Some(DomainValueRejection::Empty)
    } else if !chars_in_class(s, 0, n, CharClass::LowerIdent) {
        Some(DomainValueRejection::InvalidSyntax)
    } else {
        None
    }
}

// ---------------------------------------------------------------------------
// Operational capability classes: `<namespace>:<segment>(/<segment>)*@<major>`.

/// `s[lo..hi]` is one or more `/`-separated non-empty segments of `LowerIdent`.
pub open spec fn is_segment_path(s: Seq<char>, lo: int, hi: int) -> bool {
    &&& lo < hi
    &&& s[lo] != '/'
    &&& s[hi - 1] != '/'
    &&& forall|i: int| lo <= i < hi ==> #[trigger] segment_position_ok(s, i, hi)
}

pub open spec fn segment_position_ok(s: Seq<char>, i: int, hi: int) -> bool {
    &&& (s[i] == '/' || char_in_class(s[i], CharClass::LowerIdent))
    &&& (s[i] == '/' && i + 1 < hi) ==> s[i + 1] != '/'
}

/// `s[lo..]` is a decimal major version without a leading zero.
pub open spec fn is_major(s: Seq<char>, lo: int) -> bool {
    &&& lo < s.len()
    &&& s[lo] != '0'
    &&& all_in_class(s, lo, s.len() as int, CharClass::Digit)
}

pub open spec fn capability_class_rejection(s: Seq<char>) -> Option<
    OperationalCapabilityClassRejection,
> {
    if s.len() == 0 {
        Some(OperationalCapabilityClassRejection::Empty)
    } else if s.len() > MAX_CAPABILITY_CLASS_CHARS {
        Some(OperationalCapabilityClassRejection::TooLong)
    } else if !all_in_class(s, 0, s.len() as int, CharClass::Ascii) {
        Some(OperationalCapabilityClassRejection::NonAscii)
    } else {
        match first_index_of(s, ':', 0) {
            None => Some(OperationalCapabilityClassRejection::InvalidNamespace),
            Some(k) => if k == 0 || !all_in_class(s, 0, k, CharClass::LowerIdent) {
                Some(OperationalCapabilityClassRejection::InvalidNamespace)
            } else {
                match first_index_of(s, '@', k + 1) {
                    None => if is_segment_path(s, k + 1, s.len() as int) {
                        Some(OperationalCapabilityClassRejection::InvalidMajor)
                    } else {
                        Some(OperationalCapabilityClassRejection::InvalidPath)
                    },
                    Some(a) => if !is_segment_path(s, k + 1, a) {
                        Some(OperationalCapabilityClassRejection::InvalidPath)
                    } else if !is_major(s, a + 1) {
                        Some(OperationalCapabilityClassRejection::InvalidMajor)
                    } else {
                        None
                    },
                }
            },
        }
    }
}

fn segment_path_is_ok(s: &[char], lo: usize, hi: usize) -> (r: bool)
    requires
        lo <= hi <= s@.len(),
    ensures
        r == is_segment_path(s@, lo as int, hi as int),
{
    if lo >= hi || s[lo] == '/' || s[hi - 1] == '/' {
        return false;
    }
    let mut i = lo;
    while i < hi
        invariant
            lo <= i <= hi <= s@.len(),
            forall|j: int| lo <= j < i ==> #[trigger] segment_position_ok(s@, j, hi as int),
        decreases hi - i,
    {
        let c = s[i];
        if !(c == '/' || char_is_lower_ident(c)) {
            assert(!segment_position_ok(s@, i as int, hi as int));
            return false;
        }
        if c == '/' && i + 1 < hi && s[i + 1] == '/' {
            assert(!segment_position_ok(s@, i as int, hi as int));
            return false;
        }
        i = i + 1;
    }
    true
}

fn char_is_lower_ident(c: char) -> (r: bool)
    ensures
        r == char_in_class(c, CharClass::LowerIdent),
{
    crate::text::char_is_in_class(c, CharClass::LowerIdent)
}

pub fn check_capability_class(s: &[char]) -> (r: Option<OperationalCapabilityClassRejection>)
    ensures
        r == capability_class_rejection(s@),
{
    let n = s.len();
    if n == 0 {
        return Some(OperationalCapabilityClassRejection::Empty);
    }
    if n > MAX_CAPABILITY_CLASS_CHARS {
        return Some(OperationalCapabilityClassRejection::TooLong);
    }
    if !chars_in_class(s, 0, n, CharClass::Ascii) {
        return Some(OperationalCapabilityClassRejection::NonAscii);
    }
    match find_char(s, ':', 0) {
        None => Some(OperationalCapabilityClassRejection::InvalidNamespace),
        Some(k) => {
            if k == 0 || !chars_in_class(s, 0, k, CharClass::LowerIdent) {
                Some(OperationalCapabilityClassRejection::InvalidNamespace)
            } else {
                match find_char(s, '@', k + 1) {
                    None => {
                        if segment_path_is_ok(s, k + 1, n) {
                            Some(OperationalCapabilityClassRejection::InvalidMajor)
                        } else {
                            Some(OperationalCapabilityClassRejection::InvalidPath)
                        }
                    },
                    Some(a) => {
                        if !segment_path_is_ok(s, k + 1, a) {
                            Some(OperationalCapabilityClassRejection::InvalidPath)
                        } else if !(a + 1 < n && s[a + 1] != '0' && chars_in_class(
                            s,
                            a + 1,
                            n,
                            CharClass::Digit,
                        )) {
                            Some(OperationalCapabilityClassRejection::InvalidMajor)
                        } else {
                            None
                        }
                    },
                }
            }
        },
    }
}

/// A character that separates the components of a filesystem path.
pub open spec fn is_path_separator(c: char) -> bool {
    c == '/' || c == '\\'
}

/// Whether text holds a path separator, the mark of a filesystem detail.
pub open spec fn has_path_separator(s: Seq<char>) -> bool {
    exists|i: int| 0 <= i < s.len() && is_path_separator(#[trigger] s[i])
}

pub fn check_path_separator(s: &[char]) -> (r: bool)
    ensures
        r == has_path_separator(s@),
{
    let mut i: usize = 0;
    while i < s.len()
        invariant
            i <= s@.len(),
            forall|k: int| 0 <= k < i ==> !is_path_separator(#[trigger] s@[k]),
        decreases s@.len() - i,
    {
        if s[i] == '/' || s[i] == '\\' {
            return true;
        }
        i = i + 1;
    }
    false
}

} // verus!
