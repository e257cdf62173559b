//! Package and font authorities: the values they report, the evidence they
//! keep, the budgets they draw on and the controls they run under.

use vstd::prelude::*;
use core::cmp::Ordering;
use vstd::std_specs::cmp::PartialOrdSpec;
use vstd::std_specs::cmp::PartialEqSpec;
use crate::{
    AuthorityInstanceIdentity, CompletePackageTreeIdentity, ContentIdentity, FontRequirementIdentity,
    PackagePath, PackageSpecification,
};
use crate::transport::{copy_bytes, StableByteValue};

verus! {

#[derive(Clone, Copy, Debug, Eq, PartialEq, Structural)]
pub enum FontStyle {
    Normal,
    Italic,
    Oblique,
}

#[derive(Clone, Copy, Debug, Eq, PartialEq, Structural)]
pub enum CompletePackageTreeRejection {
    Empty,
    DuplicatePath,
    InvalidPath,
    AggregateLengthOverflow,
    FormatCeilingExceeded,
    BudgetExceeded(BudgetExceeded),
}

#[derive(Clone, Copy, Debug, Eq, PartialEq, Structural)]
pub enum FontCatalogRejection {
    InvalidAcquisitionIdentity,
    WrongAuthority,
    EmptyFamily,
    WeightOutOfRange,
    StretchOutOfRange,
    UnknownFlagBits,
    InvalidAxisValue,
    InvalidAxisBounds,
    InvalidCodepointRange,
    NonCanonicalAxes,
    NonCanonicalCodepointCoverage,
    DuplicateFace,
    FormatCeilingExceeded,
    BudgetExceeded(BudgetExceeded),
}

#[derive(Clone, Copy, Debug, Eq, PartialEq, Structural)]
pub enum InvalidFontCandidateDisposition {
    Omit,
    WarnAndOmit,
    RejectCatalog,
}

#[derive(Clone, Copy, Debug, Eq, PartialEq, Structural)]
pub enum EvidenceFactKind {
    Content,
    Absence,
    Membership,
    Order,
    Metadata,
    SourceChoice,
}

#[derive(Clone, Copy, Debug, Eq, PartialEq, Structural)]
pub enum EvidenceFactOutcome {
    Selected,
    HigherPriorityUnavailable,
    Missing,
}

#[derive(Clone, Copy, Debug, Eq, PartialEq, Structural)]
pub enum DependencyEvidenceRejection {
    WrongAuthority,
    DuplicateContradiction,
    IncompleteSelection,
    InvalidOpaqueKey,
}

#[derive(Clone, Copy, Debug, Eq, PartialEq, Structural)]
pub enum AcquisitionSourceClass {
    CallerSupplied,
    ExplicitLocal,
    Cache,
    Network,
    SystemFont,
    EngineEmbeddedFont,
}

#[derive(Clone, Copy, Debug, Eq, PartialEq, Structural)]
pub enum AuthorityValueRejection {
    Empty,
    NotNamespaced,
    ContainsSensitiveDetail,
    InvalidCode,
}

#[derive(Clone, Copy, Debug, Eq, PartialEq, Structural)]
pub enum AuthorityFailureClass {
    Unavailable,
    Transient,
    Permanent,
    InvalidContent,
    IntegrityMismatch,
}

#[derive(Clone, Copy, Debug, Eq, PartialEq, Structural)]
pub enum AuthorityCachePolicy {
    Disabled,
    LookupOnly,
    LookupAndAdmit,
}

#[derive(Clone, Copy, Debug, Eq, PartialEq, Structural)]
pub enum AuthorityCapabilityDescriptorRejection {
    WrongRole,
    WrongInstance,
    EmptySources,
    IncoherentCachePolicy,
    IncoherentNetworkContract,
}

#[derive(Clone, Copy, Debug, Eq, PartialEq, Structural)]
pub enum AcquisitionBudgetDimension {
    PackageFiles,
    LargestPackageFileBytes,
    FontCandidates,
    FontFaces,
    DownloadedBytes,
    ExpandedBytes,
    StableSpoolBytes,
    RetainedMemoryBytes,
}

#[derive(Clone, Copy, Debug, Eq, PartialEq, Structural)]
pub enum EvidenceValueRejection {
    Empty,
    WrongAuthority,
    IncompleteCoverage,
    IncoherentCursor,
    InvalidSafeCode,
}

#[derive(Clone, Copy, Debug, Eq, PartialEq, Structural)]
pub struct BudgetExceeded {
    pub dimension: AcquisitionBudgetDimension,
    pub requested: u64,
    pub remaining: u64,
}

#[derive(Clone, Copy, Debug, Eq, PartialEq, Structural)]
pub struct FontScanPolicy {
    pub invalid_candidate: InvalidFontCandidateDisposition,
    pub unreadable_candidate: InvalidFontCandidateDisposition,
}

#[derive(Clone, Copy, Debug, Eq, PartialEq, Structural)]
pub struct AuthorityEvidenceCapabilities {
    pub immutable_values: bool,
    pub exact_key_revalidation: bool,
    pub opaque_scope_revalidation: bool,
    pub polling: bool,
    pub push_subscription: bool,
    pub cursor_replay: bool,
}

/// A font weight on the CSS scale, from 100 to 900.
#[derive(Clone, Copy, Debug, Eq, Ord, PartialEq, Structural)]
pub struct FontWeight {
    value: u16,
}

impl FontWeight {
    pub closed spec fn spec_get(self) -> u16 {
        self.value
    }

    pub fn try_new(value: u16) -> (r: Result<Self, FontCatalogRejection>)
        ensures
            match r {
                Ok(w) => 100 <= value <= 900 && w.spec_get() == value,
                Err(e) => !(100 <= value <= 900) && e == FontCatalogRejection::WeightOutOfRange,
            },
    {
        if 100 <= value && value <= 900 {
            Ok(FontWeight { value })
        } else {
            Err(FontCatalogRejection::WeightOutOfRange)
        }
    }

    pub fn get(self) -> (r: u16)
        ensures
            r == self.spec_get(),
    {
        self.value
    }
}

/// Two font weights are equal exactly when their values are, and one comes
/// before the other exactly when its value is smaller.
pub proof fn lemma_font_weight_order(a: FontWeight, b: FontWeight)
    ensures
        (a == b) <==> a.spec_get() == b.spec_get(),
        (a.partial_cmp_spec(&b) == Some(Ordering::Less)) <==> a.spec_get() < b.spec_get(),
        (a.partial_cmp_spec(&b) == Some(Ordering::Greater)) <==> b.spec_get() < a.spec_get(),
{
}

/// A font stretch in thousandths of the normal width, from 500 to 2000.
#[derive(Clone, Copy, Debug, Eq, Ord, PartialEq, Structural)]
pub struct FontStretch {
    value: u16,
}

impl FontStretch {
    pub closed spec fn spec_thousandths(self) -> u16 {
        self.value
    }

    pub fn try_from_thousandths(value: u16) -> (r: Result<Self, FontCatalogRejection>)
        ensures
            match r {
                Ok(s) => 500 <= value <= 2000 && s.spec_thousandths() == value,
                Err(e) => !(500 <= value <= 2000) && e == FontCatalogRejection::StretchOutOfRange,
            },
    {
        if 500 <= value && value <= 2000 {
            Ok(FontStretch { value })
        } else {
            Err(FontCatalogRejection::StretchOutOfRange)
        }
    }

    pub fn thousandths(self) -> (r: u16)
        ensures
            r == self.spec_thousandths(),
    {
        self.value
    }
}

/// Two font stretches are equal exactly when their widths are, and one comes
/// before the other exactly when its width is smaller.
pub proof fn lemma_font_stretch_order(a: FontStretch, b: FontStretch)
    ensures
        (a == b) <==> a.spec_thousandths() == b.spec_thousandths(),
        (a.partial_cmp_spec(&b) == Some(Ordering::Less)) <==> a.spec_thousandths() < b.spec_thousandths(),
        (a.partial_cmp_spec(&b) == Some(Ordering::Greater)) <==> b.spec_thousandths() < a.spec_thousandths(),
{
}

/// Font selection flags; only the low four bits are defined.
#[derive(Clone, Copy, Debug, Eq, PartialEq)]
pub struct FontSelectionFlags {
    bits: u8,
}

impl FontSelectionFlags {
    pub closed spec fn spec_bits(self) -> u8 {
        self.bits
    }

    pub fn try_from_bits(bits: u8) -> (r: Result<Self, FontCatalogRejection>)
        ensures
            match r {
                Ok(f) => bits & 0xf0u8 == 0 && f.spec_bits() == bits,
                Err(e) => bits & 0xf0u8 != 0 && e == FontCatalogRejection::UnknownFlagBits,
            },
    {
        if bits & 0xf0u8 == 0 {
            Ok(FontSelectionFlags { bits })
        } else {
            Err(FontCatalogRejection::UnknownFlagBits)
        }
    }

    pub fn bits(self) -> (r: u8)
        ensures
            r == self.spec_bits(),
    {
        self.bits
    }
}

/// The big-endian value of four bytes.
pub open spec fn be_u32(b: Seq<u8>) -> int {
    b[0] * 0x100_0000 + b[1] * 0x1_0000 + b[2] * 0x100 + b[3]
}

/// A four-byte OpenType axis tag.
#[derive(Clone, Copy, Debug, Eq, Ord)]
pub struct OpenTypeAxisTag {
    bytes: [u8; 4],
}

impl OpenTypeAxisTag {
    pub closed spec fn spec_bytes(self) -> Seq<u8> {
        self.bytes@
    }

    /// Tags are ordered as their bytes, most significant first.
    pub open spec fn spec_key(self) -> int {
        be_u32(self.spec_bytes())
    }

    pub fn from_bytes(bytes: [u8; 4]) -> (r: Self)
        ensures
            r.spec_bytes() == bytes@,
    {
        OpenTypeAxisTag { bytes }
    }

    pub fn as_bytes(&self) -> (r: &[u8; 4])
        ensures
            r@ == self.spec_bytes(),
    {
        &self.bytes
    }

    pub fn key(&self) -> (r: u32)
        ensures
            r == self.spec_key(),
    {
        (self.bytes[0] as u32) * 0x100_0000 + (self.bytes[1] as u32) * 0x1_0000 + (self.bytes[2] as u32) * 0x100
            + (self.bytes[3] as u32)
    }
}

/// Two axis tags are equal exactly when their bytes are, and one comes before
/// the other exactly when its bytes do, most significant first.
pub proof fn lemma_axis_tag_order(a: OpenTypeAxisTag, b: OpenTypeAxisTag)
    ensures
        a.eq_spec(&b) <==> a.spec_bytes() == b.spec_bytes(),
        (a.partial_cmp_spec(&b) == Some(Ordering::Less)) <==> a.spec_key() < b.spec_key(),
        (a.partial_cmp_spec(&b) == Some(Ordering::Greater)) <==> b.spec_key() < a.spec_key(),
{
}

/// Whether the bits of an IEEE single are an admissible axis value: finite
/// (its exponent is not all ones) and not negative zero.
pub open spec fn axis_value_bits_valid(bits: u32) -> bool {
    (bits / 0x80_0000) % 0x100 != 0xff && bits != 0x8000_0000
}

/// A key on the bits of an admissible IEEE single that orders as the numbers
/// they encode: negative values count down from the top of the lower half,
/// non-negative values fill the upper half.
pub open spec fn axis_value_key(bits: u32) -> int {
    if bits >= 0x8000_0000 {
        0xffff_ffff - bits
    } else {
        bits + 0x8000_0000
    }
}

/// An OpenType axis coordinate, held as the bits of a finite IEEE single.
#[derive(Clone, Copy, Debug, Eq, Ord, PartialEq, PartialOrd)]
pub struct FontAxisValue {
    bits: u32,
}

impl FontAxisValue {
    pub closed spec fn spec_bits(self) -> u32 {
        self.bits
    }

    pub fn try_from_be_bytes(bytes: [u8; 4]) -> (r: Result<Self, FontCatalogRejection>)
        ensures
            match r {
                Ok(v) => axis_value_bits_valid(be_u32(bytes@) as u32) && v.spec_bits() == be_u32(bytes@),
                Err(e) => !axis_value_bits_valid(be_u32(bytes@) as u32) && e
                    == FontCatalogRejection::InvalidAxisValue,
            },
    {
        let bits: u32 = (bytes[0] as u32) * 0x100_0000 + (bytes[1] as u32) * 0x1_0000 + (bytes[2] as u32)
            * 0x100 + (bytes[3] as u32);
        if (bits / 0x80_0000) % 0x100 == 0xff || bits == 0x8000_0000 {
            return Err(FontCatalogRejection::InvalidAxisValue);
        }
        Ok(FontAxisValue { bits })
    }

    pub fn to_be_bytes(self) -> (r: [u8; 4])
        ensures
            be_u32(r@) == self.spec_bits(),
    {
        let b = self.bits;
        let r = [(b / 0x100_0000) as u8, ((b / 0x1_0000) % 0x100) as u8, ((b / 0x100) % 0x100) as u8, (b % 0x100) as u8];
        assert(r@[0] == b / 0x100_0000 && r@[1] == (b / 0x1_0000) % 0x100 && r@[2] == (b / 0x100) % 0x100
            && r@[3] == b % 0x100);
        r
    }

    fn key(self) -> (r: u32)
        ensures
            r == axis_value_key(self.spec_bits()),
    {
        if self.bits >= 0x8000_0000 {
            0xffff_ffff - self.bits
        } else {
            self.bits + 0x8000_0000
        }
    }
}

/// One variation axis of a font face: its tag and its minimum, default and
/// maximum coordinates, in that order.
#[derive(Clone, Copy, Debug, Eq, PartialEq)]
pub struct FontAxis {
    tag: OpenTypeAxisTag,
    minimum: FontAxisValue,
    default: FontAxisValue,
    maximum: FontAxisValue,
}

impl FontAxis {
    pub closed spec fn spec_tag(self) -> OpenTypeAxisTag {
        self.tag
    }

    pub closed spec fn spec_minimum(self) -> FontAxisValue {
        self.minimum
    }

    pub closed spec fn spec_default(self) -> FontAxisValue {
        self.default
    }

    pub closed spec fn spec_maximum(self) -> FontAxisValue {
        self.maximum
    }

    pub fn try_new(
        tag: OpenTypeAxisTag,
        minimum: FontAxisValue,
        default: FontAxisValue,
        maximum: FontAxisValue,
    ) -> (r: Result<Self, FontCatalogRejection>)
        ensures
            match r {
                Ok(a) => axis_value_key(minimum.spec_bits()) <= axis_value_key(default.spec_bits())
                    <= axis_value_key(maximum.spec_bits()) && a.spec_tag() == tag && a.spec_minimum()
                    == minimum && a.spec_default() == default && a.spec_maximum() == maximum,
                Err(e) => !(axis_value_key(minimum.spec_bits()) <= axis_value_key(default.spec_bits())
                    <= axis_value_key(maximum.spec_bits())) && e == FontCatalogRejection::InvalidAxisBounds,
            },
    {
        if minimum.key() > default.key() || default.key() > maximum.key() {
            return Err(FontCatalogRejection::InvalidAxisBounds);
        }
        Ok(FontAxis { tag, minimum, default, maximum })
    }

    pub fn tag(&self) -> (r: OpenTypeAxisTag)
        ensures
            r == self.spec_tag(),
    {
        self.tag
    }

    pub fn minimum(&self) -> (r: FontAxisValue)
        ensures
            r == self.spec_minimum(),
    {
        self.minimum
    }

    pub fn default(&self) -> (r: FontAxisValue)
        ensures
            r == self.spec_default(),
    {
        self.default
    }

    pub fn maximum(&self) -> (r: FontAxisValue)
        ensures
            r == self.spec_maximum(),
    {
        self.maximum
    }
}

/// Whether `first..=last` is a range of Unicode scalar values: ordered, within
/// the code space and clear of the surrogates.
pub open spec fn codepoint_range_valid(first: u32, last: u32) -> bool {
    first <= last && last <= 0x10ffff && !(first <= 0xdfff && last >= 0xd800)
}

/// A range of Unicode scalar values.
#[derive(Clone, Copy, Debug, Eq, Ord, PartialEq, PartialOrd)]
pub struct UnicodeCodepointRange {
    first: u32,
    last: u32,
}

impl UnicodeCodepointRange {
    #[verifier::type_invariant]
    spec fn valid(self) -> bool {
        codepoint_range_valid(self.first, self.last)
    }

    pub closed spec fn spec_first(self) -> u32 {
        self.first
    }

    pub closed spec fn spec_last(self) -> u32 {
        self.last
    }

    pub fn try_new(first: u32, last: u32) -> (r: Result<Self, FontCatalogRejection>)
        ensures
            match r {
                Ok(c) => codepoint_range_valid(first, last) && c.spec_first() == first && c.spec_last()
                    == last,
                Err(e) => !codepoint_range_valid(first, last) && e == FontCatalogRejection::InvalidCodepointRange,
            },
    {
        let invalid = first > last || last > 0x10ffff || (first <= 0xdfff && last >= 0xd800);
        if invalid {
            Err(FontCatalogRejection::InvalidCodepointRange)
        } else {
            Ok(UnicodeCodepointRange { first, last })
        }
    }

    pub fn first(self) -> (r: u32)
        ensures
            r == self.spec_first(),
    {
        self.first
    }

    pub fn last(self) -> (r: u32)
        ensures
            r == self.spec_last(),
    {
        self.last
    }
}

/// Which authority acquired a font container, and its opaque name for it.
#[derive(Clone, Debug, Eq, Ord, PartialEq, PartialOrd)]
pub struct FontContainerAcquisitionIdentity {
    authority: AuthorityInstanceIdentity,
    opaque: Vec<u8>,
}

impl FontContainerAcquisitionIdentity {
    pub closed spec fn spec_authority(&self) -> Seq<char> {
        self.authority@
    }

    pub closed spec fn spec_opaque(&self) -> Seq<u8> {
        self.opaque@
    }

    pub(crate) fn try_new(authority: AuthorityInstanceIdentity, opaque: Vec<u8>) -> (r: Result<
        Self,
        FontCatalogRejection,
    >)
        ensures
            match r {
                Ok(i) => opaque@.len() > 0 && i.spec_authority() == authority@ && i.spec_opaque() == opaque@,
                Err(e) => opaque@.len() == 0 && e == FontCatalogRejection::InvalidAcquisitionIdentity,
            },
    {
        if opaque.len() == 0 {
            return Err(FontCatalogRejection::InvalidAcquisitionIdentity);
        }
        Ok(FontContainerAcquisitionIdentity { authority, opaque })
    }

    pub fn opaque(&self) -> (r: &[u8])
        ensures
            r@ == self.spec_opaque(),
    {
        self.opaque.as_slice()
    }

    pub fn authority(&self) -> (r: &AuthorityInstanceIdentity)
        ensures
            r@ == self.spec_authority(),
    {
        &self.authority
    }

    pub fn same_as(&self, other: &Self) -> (r: bool)
        ensures
            r == (self.spec_authority() == other.spec_authority() && self.spec_opaque() == other.spec_opaque()),
    {
        self.authority.same_as(&other.authority) && same_bytes(self.opaque.as_slice(), other.opaque.as_slice())
    }
}

/// Whether two byte strings are equal.
pub fn same_bytes(a: &[u8], b: &[u8]) -> (r: bool)
    ensures
        r == (a@ == b@),
{
    if a.len() != b.len() {
        return false;
    }
    let mut i: usize = 0;
    while i < a.len()
        invariant
            i <= a@.len(),
            a@.len() == b@.len(),
            forall|k: int| 0 <= k < i ==> a@[k] == b@[k],
        decreases a@.len() - i,
    {
        if a[i] != b[i] {
            return false;
        }
        i = i + 1;
    }
    assert(a@ =~= b@);
    true
}

/// Why a safe message cannot be reported, if it cannot: it is empty or holds a
/// path separator.
pub open spec fn safe_message_rejection(s: Seq<char>) -> Option<AuthorityValueRejection> {
    if s.len() == 0 {
        Some(AuthorityValueRejection::Empty)
    } else if crate::syntax::has_path_separator(s) {
        Some(AuthorityValueRejection::ContainsSensitiveDetail)
    } else {
        None
    }
}

/// Why a failure or diagnostic code cannot be reported, if it cannot: it is
/// empty or not namespaced.
pub open spec fn code_rejection(s: Seq<char>) -> Option<AuthorityValueRejection> {
    if s.len() == 0 {
        Some(AuthorityValueRejection::Empty)
    } else if crate::syntax::namespaced_rejection(s) is Some {
        Some(AuthorityValueRejection::InvalidCode)
    } else {
        None
    }
}

fn check_safe_message(s: &str) -> (r: Option<AuthorityValueRejection>)
    ensures
        r == safe_message_rejection(s@),
{
    let chars = crate::text::chars_of(s);
    if chars.len() == 0 {
        Some(AuthorityValueRejection::Empty)
    } else if crate::syntax::check_path_separator(chars.as_slice()) {
        Some(AuthorityValueRejection::ContainsSensitiveDetail)
    } else {
        None
    }
}

fn check_code(s: &str) -> (r: Option<AuthorityValueRejection>)
    ensures
        r == code_rejection(s@),
{
    let chars = crate::text::chars_of(s);
    if chars.len() == 0 {
        Some(AuthorityValueRejection::Empty)
    } else if crate::syntax::check_namespaced(chars.as_slice()).is_some() {
        Some(AuthorityValueRejection::InvalidCode)
    } else {
        None
    }
}

/// What a scan reported about one font candidate.
#[derive(Clone, Debug, Eq, PartialEq)]
pub struct FontScanDiagnostic {
    candidate_ordinal: u64,
    code: String,
    safe_message: String,
}

impl FontScanDiagnostic {
    pub closed spec fn spec_candidate_ordinal(&self) -> u64 {
        self.candidate_ordinal
    }

    pub closed spec fn spec_code(&self) -> Seq<char> {
        self.code@
    }

    pub closed spec fn spec_safe_message(&self) -> Seq<char> {
        self.safe_message@
    }

    pub fn try_new(candidate_ordinal: u64, code: &str, safe_message: &str) -> (r: Result<
        Self,
        AuthorityValueRejection,
    >)
        ensures
            match r {
                Ok(d) => code_rejection(code@) is None && safe_message_rejection(safe_message@) is None
                    && d.spec_candidate_ordinal() == candidate_ordinal && d.spec_code() == code@
                    && d.spec_safe_message() == safe_message@,
                Err(e) => code_rejection(code@) == Some(e) || (code_rejection(code@) is None
                    && safe_message_rejection(safe_message@) == Some(e)),
            },
    {
        if let Some(e) = check_code(code) {
            return Err(e);
        }
        if let Some(e) = check_safe_message(safe_message) {
            return Err(e);
        }
        Ok(FontScanDiagnostic { candidate_ordinal, code: code.to_owned(), safe_message: safe_message.to_owned() })
    }

    pub fn candidate_ordinal(&self) -> (r: u64)
        ensures
            r == self.spec_candidate_ordinal(),
    {
        self.candidate_ordinal
    }

    pub fn code(&self) -> (r: &str)
        ensures
            r@ == self.spec_code(),
    {
        self.code.as_str()
    }

    pub fn safe_message(&self) -> (r: &str)
        ensures
            r@ == self.spec_safe_message(),
    {
        self.safe_message.as_str()
    }
}

/// A failure reported by an authority, with a class, a namespaced code and a
/// safe message.
#[derive(Clone, Debug, Eq, PartialEq)]
pub struct AuthorityFailure {
    class: AuthorityFailureClass,
    code: String,
    safe_message: String,
}

impl AuthorityFailure {
    pub closed spec fn spec_class(&self) -> AuthorityFailureClass {
        self.class
    }

    pub closed spec fn spec_code(&self) -> Seq<char> {
        self.code@
    }

    pub closed spec fn spec_safe_message(&self) -> Seq<char> {
        self.safe_message@
    }

    pub fn try_new(class: AuthorityFailureClass, code: &str, safe_message: &str) -> (r: Result<
        Self,
        AuthorityValueRejection,
    >)
        ensures
            match r {
                Ok(f) => code_rejection(code@) is None && safe_message_rejection(safe_message@) is None
                    && f.spec_class() == class && f.spec_code() == code@ && f.spec_safe_message()
                    == safe_message@,
                Err(e) => code_rejection(code@) == Some(e) || (code_rejection(code@) is None
                    && safe_message_rejection(safe_message@) == Some(e)),
            },
    {
        if let Some(e) = check_code(code) {
            return Err(e);
        }
        if let Some(e) = check_safe_message(safe_message) {
            return Err(e);
        }
        Ok(AuthorityFailure { class, code: code.to_owned(), safe_message: safe_message.to_owned() })
    }

    pub fn class(&self) -> (r: AuthorityFailureClass)
        ensures
            r == self.spec_class(),
    {
        self.class
    }

    pub fn code(&self) -> (r: &str)
        ensures
            r@ == self.spec_code(),
    {
        self.code.as_str()
    }

    pub fn safe_message(&self) -> (r: &str)
        ensures
            r@ == self.spec_safe_message(),
    {
        self.safe_message.as_str()
    }
}

/// Where an acquired dependency came from: the namespaced kind of the
/// authority, the class of source, and an optional safe logical origin.
#[derive(Clone, Debug)]
pub struct AcquisitionProvenance {
    authority_kind: String,
    source_class: AcquisitionSourceClass,
    logical_origin: Option<String>,
}

impl AcquisitionProvenance {
    pub closed spec fn spec_authority_kind(&self) -> Seq<char> {
        self.authority_kind@
    }

    pub closed spec fn spec_source_class(&self) -> AcquisitionSourceClass {
        self.source_class
    }

    pub closed spec fn spec_logical_origin(&self) -> Option<Seq<char>> {
        match self.logical_origin {
            Some(s) => Some(s@),
            None => None,
        }
    }

    pub fn try_new(
        authority_kind: &str,
        source_class: AcquisitionSourceClass,
        logical_origin: Option<&str>,
    ) -> (r: Result<Self, AuthorityValueRejection>)
        ensures
            match r {
                Ok(p) => crate::syntax::namespaced_rejection(authority_kind@) is None && (logical_origin matches Some(
                    o,
                ) ==> safe_message_rejection(o@) is None) && p.spec_authority_kind() == authority_kind@
                    && p.spec_source_class() == source_class && p.spec_logical_origin() == (match logical_origin {
                    Some(o) => Some(o@),
                    None => None::<Seq<char>>,
                }),
                Err(e) => (crate::syntax::namespaced_rejection(authority_kind@) is Some && e
                    == AuthorityValueRejection::NotNamespaced) || (crate::syntax::namespaced_rejection(
                    authority_kind@,
                ) is None && (logical_origin matches Some(o) && safe_message_rejection(o@) == Some(e))),
            },
    {
        if crate::syntax::check_namespaced(crate::text::chars_of(authority_kind).as_slice()).is_some() {
            return Err(AuthorityValueRejection::NotNamespaced);
        }
        let origin = match logical_origin {
            Some(o) => {
                if let Some(e) = check_safe_message(o) {
                    return Err(e);
                }
                Some(o.to_owned())
            },
            None => None,
        };
        Ok(AcquisitionProvenance { authority_kind: authority_kind.to_owned(), source_class, logical_origin: origin })
    }

    pub fn authority_kind(&self) -> (r: &str)
        ensures
            r@ == self.spec_authority_kind(),
    {
        self.authority_kind.as_str()
    }

    pub fn source_class(&self) -> (r: AcquisitionSourceClass)
        ensures
            r == self.spec_source_class(),
    {
        self.source_class
    }

    pub fn logical_origin(&self) -> (r: Option<&str>)
        ensures
            match r {
                Some(o) => self.spec_logical_origin() == Some(o@),
                None => self.spec_logical_origin() is None,
            },
    {
        match &self.logical_origin {
            Some(o) => Some(o.as_str()),
            None => None,
        }
    }
}

/// The key of one fact of dependency evidence: which authority keeps it, its
/// kind, an opaque key and an optional immutable version.
#[derive(Clone, Debug)]
pub struct DependencyEvidenceKey {
    authority: AuthorityInstanceIdentity,
    kind: EvidenceFactKind,
    opaque_key: Vec<u8>,
    immutable_version: Option<Vec<u8>>,
}

impl DependencyEvidenceKey {
    pub closed spec fn spec_authority(&self) -> Seq<char> {
        self.authority@
    }

    pub closed spec fn spec_kind(&self) -> EvidenceFactKind {
        self.kind
    }

    pub closed spec fn spec_opaque_key(&self) -> Seq<u8> {
        self.opaque_key@
    }

    pub closed spec fn spec_immutable_version(&self) -> Option<Seq<u8>> {
        match self.immutable_version {
            Some(v) => Some(v@),
            None => None,
        }
    }

    /// Two keys name the same fact when all their parts agree.
    pub open spec fn spec_same_fact(&self, other: &Self) -> bool {
        &&& self.spec_authority() == other.spec_authority()
        &&& self.spec_kind() == other.spec_kind()
        &&& self.spec_opaque_key() == other.spec_opaque_key()
        &&& self.spec_immutable_version() == other.spec_immutable_version()
    }

    pub(crate) fn try_new(
        authority: AuthorityInstanceIdentity,
        kind: EvidenceFactKind,
        opaque_key: Vec<u8>,
        immutable_version: Option<Vec<u8>>,
    ) -> (r: Result<Self, DependencyEvidenceRejection>)
        ensures
            match r {
                Ok(k) => opaque_key@.len() > 0 && k.spec_authority() == authority@ && k.spec_kind() == kind
                    && k.spec_opaque_key() == opaque_key@ && k.spec_immutable_version() == (match immutable_version {
                    Some(v) => Some(v@),
                    None => None::<Seq<u8>>,
                }),
                Err(e) => opaque_key@.len() == 0 && e == DependencyEvidenceRejection::InvalidOpaqueKey,
            },
    {
        if opaque_key.len() == 0 {
            return Err(DependencyEvidenceRejection::InvalidOpaqueKey);
        }
        Ok(DependencyEvidenceKey { authority, kind, opaque_key, immutable_version })
    }

    pub fn kind(&self) -> (r: EvidenceFactKind)
        ensures
            r == self.spec_kind(),
    {
        self.kind
    }

    pub fn opaque_key(&self) -> (r: &[u8])
        ensures
            r@ == self.spec_opaque_key(),
    {
        self.opaque_key.as_slice()
    }

    pub fn immutable_version(&self) -> (r: Option<&[u8]>)
        ensures
            match r {
                Some(v) => self.spec_immutable_version() == Some(v@),
                None => self.spec_immutable_version() is None,
            },
    {
        match &self.immutable_version {
            Some(v) => Some(v.as_slice()),
            None => None,
        }
    }

    pub fn authority(&self) -> (r: &AuthorityInstanceIdentity)
        ensures
            r@ == self.spec_authority(),
    {
        &self.authority
    }

    pub fn same_fact(&self, other: &Self) -> (r: bool)
        ensures
            r == self.spec_same_fact(other),
    {
        if !self.authority.same_as(&other.authority) || self.kind != other.kind || !same_bytes(
            self.opaque_key.as_slice(),
            other.opaque_key.as_slice(),
        ) {
            return false;
        }
        match (&self.immutable_version, &other.immutable_version) {
            (Some(a), Some(b)) => same_bytes(a.as_slice(), b.as_slice()),
            (None, None) => true,
            _ => false,
        }
    }
}

pub struct DependencyEvidenceFactView<'a> {
    pub key: &'a DependencyEvidenceKey,
    pub outcome: EvidenceFactOutcome,
}

/// Whether the facts hold no key twice.
pub open spec fn facts_distinct(keys: Seq<DependencyEvidenceKey>) -> bool {
    forall|i: int, j: int| 0 <= i < j < keys.len() ==> !keys[i].spec_same_fact(&keys[j])
}

/// Whether a complete record of facts makes a selection: when any fact was
/// recorded, at least one of them selected a value.
pub open spec fn selection_complete(outcomes: Seq<EvidenceFactOutcome>) -> bool {
    outcomes.len() == 0 || outcomes.contains(EvidenceFactOutcome::Selected)
}

/// The facts an authority relied on to resolve one dependency, in the order
/// they were recorded.
#[derive(Clone, Debug)]
pub struct DependencyResolutionEvidence {
    authority: AuthorityInstanceIdentity,
    keys: Vec<DependencyEvidenceKey>,
    outcomes: Vec<EvidenceFactOutcome>,
}

impl DependencyResolutionEvidence {
    pub closed spec fn spec_authority(&self) -> Seq<char> {
        self.authority@
    }

    pub closed spec fn spec_keys(&self) -> Seq<DependencyEvidenceKey> {
        self.keys@
    }

    pub closed spec fn spec_outcomes(&self) -> Seq<EvidenceFactOutcome> {
        self.outcomes@
    }

    pub(crate) fn builder(authority: AuthorityInstanceIdentity) -> (r: DependencyEvidenceBuilder)
        ensures
            r.spec_authority() == authority@,
            r.spec_keys().len() == 0,
            r.spec_outcomes().len() == 0,
    {
        DependencyEvidenceBuilder { authority, keys: Vec::new(), outcomes: Vec::new() }
    }

    pub fn keys(&self) -> (r: &[DependencyEvidenceKey])
        ensures
            r@ == self.spec_keys(),
    {
        self.keys.as_slice()
    }

    pub fn outcomes(&self) -> (r: &[EvidenceFactOutcome])
        ensures
            r@ == self.spec_outcomes(),
    {
        self.outcomes.as_slice()
    }

    /// The fact at `index`, in recording order.
    pub fn facts(&self, index: usize) -> (r: Option<DependencyEvidenceFactView<'_>>)
        ensures
            match r {
                Some(f) => index < self.spec_keys().len() && index < self.spec_outcomes().len() && *f.key
                    == self.spec_keys()[index as int] && f.outcome == self.spec_outcomes()[index as int],
                None => !(index < self.spec_keys().len() && index < self.spec_outcomes().len()),
            },
    {
        if index < self.keys.len() && index < self.outcomes.len() {
            Some(DependencyEvidenceFactView { key: &self.keys[index], outcome: self.outcomes[index] })
        } else {
            None
        }
    }
}

/// Records the facts of one resolution, refusing contradictions.
pub struct DependencyEvidenceBuilder {
    authority: AuthorityInstanceIdentity,
    keys: Vec<DependencyEvidenceKey>,
    outcomes: Vec<EvidenceFactOutcome>,
}

impl DependencyEvidenceBuilder {
    pub closed spec fn spec_authority(&self) -> Seq<char> {
        self.authority@
    }

    pub closed spec fn spec_keys(&self) -> Seq<DependencyEvidenceKey> {
        self.keys@
    }

    pub closed spec fn spec_outcomes(&self) -> Seq<EvidenceFactOutcome> {
        self.outcomes@
    }

    /// The builder's facts are one outcome per key, each key once.
    pub open spec fn spec_wf(&self) -> bool {
        self.spec_keys().len() == self.spec_outcomes().len() && facts_distinct(self.spec_keys())
    }

    /// The index of the fact named by `key`, if it was recorded.
    pub open spec fn spec_index_of(&self, key: DependencyEvidenceKey) -> Option<int> {
        if exists|i: int| 0 <= i < self.spec_keys().len() && #[trigger] self.spec_keys()[i].spec_same_fact(&key) {
            Some(choose|i: int| 0 <= i < self.spec_keys().len() && #[trigger] self.spec_keys()[i].spec_same_fact(&key))
        } else {
            None
        }
    }

    fn find(&self, key: &DependencyEvidenceKey) -> (r: Option<usize>)
        ensures
            match r {
                Some(i) => i < self.spec_keys().len() && self.spec_keys()[i as int].spec_same_fact(key),
                None => forall|i: int| 0 <= i < self.spec_keys().len() ==> !#[trigger] self.spec_keys()[i].spec_same_fact(key),
            },
    {
        let mut i: usize = 0;
        while i < self.keys.len()
            invariant
                i <= self.spec_keys().len(),
                forall|k: int| 0 <= k < i ==> !#[trigger] self.spec_keys()[k].spec_same_fact(key),
            decreases self.spec_keys().len() - i,
        {
            if self.keys[i].same_fact(key) {
                return Some(i);
            }
            i = i + 1;
        }
        None
    }

    /// Records one fact. A key of another authority is refused; a key
    /// already recorded with another outcome is a contradiction; recording a
    /// fact that is already there changes nothing; otherwise the fact is
    /// appended.
    pub fn record(&mut self, key: DependencyEvidenceKey, outcome: EvidenceFactOutcome) -> (r: Result<
        (),
        DependencyEvidenceRejection,
    >)
        requires
            old(self).spec_wf(),
        ensures
            final(self).spec_wf(),
            final(self).spec_authority() == old(self).spec_authority(),
            key.spec_authority() != old(self).spec_authority() ==> r == Err::<(), DependencyEvidenceRejection>(
                DependencyEvidenceRejection::WrongAuthority,
            ) && final(self).spec_keys() == old(self).spec_keys() && final(self).spec_outcomes()
                == old(self).spec_outcomes(),
            key.spec_authority() == old(self).spec_authority() ==> match old(self).spec_index_of(key) {
                Some(i) => final(self).spec_keys() == old(self).spec_keys() && final(self).spec_outcomes()
                    == old(self).spec_outcomes() && (r is Ok <==> old(self).spec_outcomes()[i] == outcome)
                    && (r is Err ==> r == Err::<(), DependencyEvidenceRejection>(
                    DependencyEvidenceRejection::DuplicateContradiction,
                )),
                None => r is Ok && final(self).spec_keys() == old(self).spec_keys().push(key)
                    && final(self).spec_outcomes() == old(self).spec_outcomes().push(outcome),
            },
    {
        if !key.authority.same_as(&self.authority) {
            return Err(DependencyEvidenceRejection::WrongAuthority);
        }
        match self.find(&key) {
            Some(i) => {
                proof {
                    let j = choose|j: int| 0 <= j < self.spec_keys().len() && #[trigger] self.spec_keys()[j].spec_same_fact(&key);
                    if j != i {
                        if j < i {
                            assert(!self.spec_keys()[j].spec_same_fact(&self.spec_keys()[i as int]));
                        } else {
                            assert(!self.spec_keys()[i as int].spec_same_fact(&self.spec_keys()[j]));
                        }
                        assert(false);
                    }
                }
                if self.outcomes[i] == outcome {
                    Ok(())
                } else {
                    Err(DependencyEvidenceRejection::DuplicateContradiction)
                }
            },
            None => {
                let ghost old_keys = self.keys@;
                self.keys.push(key);
                self.outcomes.push(outcome);
                proof {
                    assert forall|i: int, j: int| 0 <= i < j < self.spec_keys().len() implies !self.spec_keys()[i].spec_same_fact(
                        &self.spec_keys()[j],
                    ) by {
                        if j == old_keys.len() {
                            assert(self.spec_keys()[j] == key);
                            assert(old_keys[i] == self.spec_keys()[i]);
                        } else {
                            assert(old_keys[i] == self.spec_keys()[i] && old_keys[j] == self.spec_keys()[j]);
                        }
                    }
                }
                Ok(())
            },
        }
    }

    /// Closes the record; it needs a selection when any fact was recorded.
    pub fn finish(self) -> (r: Result<DependencyResolutionEvidence, DependencyEvidenceRejection>)
        requires
            self.spec_wf(),
        ensures
            match r {
                Ok(e) => selection_complete(self.spec_outcomes()) && e.spec_authority() == self.spec_authority()
                    && e.spec_keys() == self.spec_keys() && e.spec_outcomes() == self.spec_outcomes(),
                Err(e) => !selection_complete(self.spec_outcomes()) && e
                    == DependencyEvidenceRejection::IncompleteSelection,
            },
    {
        if self.outcomes.len() > 0 {
            let mut i: usize = 0;
            let mut found = false;
            while i < self.outcomes.len()
                invariant
                    i <= self.spec_outcomes().len(),
                    found == exists|k: int| 0 <= k < i && self.spec_outcomes()[k] == EvidenceFactOutcome::Selected,
                decreases self.spec_outcomes().len() - i,
            {
                if self.outcomes[i] == EvidenceFactOutcome::Selected {
                    found = true;
                }
                i = i + 1;
            }
            if !found {
                return Err(DependencyEvidenceRejection::IncompleteSelection);
            }
        }
        Ok(DependencyResolutionEvidence { authority: self.authority, keys: self.keys, outcomes: self.outcomes })
    }
}

/// An acquired dependency value with the evidence and provenance of its
/// acquisition.
pub struct AcquiredDependency<T> {
    pub value: T,
    pub evidence: DependencyResolutionEvidence,
    pub provenance: AcquisitionProvenance,
}

pub enum DependencyAcquisitionOutcome<T> {
    Acquired(AcquiredDependency<T>),
    Failed(AuthorityFailure),
    ResourceLimit(BudgetExceeded),
}

/// Whether the axes are in strictly increasing tag order, which also means no
/// tag occurs twice.
pub open spec fn axes_canonical(axes: Seq<FontAxis>) -> bool {
    forall|i: int, j: int| 0 <= i < j < axes.len() ==> axes[i].spec_tag().spec_key() < axes[j].spec_tag().spec_key()
}

/// Whether the ranges are in increasing order and neither overlap nor touch,
/// so that no shorter list covers the same code points.
pub open spec fn coverage_canonical(ranges: Seq<UnicodeCodepointRange>) -> bool {
    forall|i: int, j: int| 0 <= i < j < ranges.len() ==> ranges[i].spec_last() + 1 < ranges[j].spec_first()
}

fn check_axes_canonical(axes: &[FontAxis]) -> (r: bool)
    ensures
        r == axes_canonical(axes@),
{
    let mut i: usize = 1;
    if axes.len() == 0 {
        return true;
    }
    while i < axes.len()
        invariant
            1 <= i <= axes@.len(),
            axes_canonical(axes@.subrange(0, i as int)),
        decreases axes@.len() - i,
    {
        if axes[i - 1].tag().key() >= axes[i].tag().key() {
            assert(!axes_canonical(axes@)) by {
                assert(axes@[i - 1].spec_tag().spec_key() >= axes@[i as int].spec_tag().spec_key());
            }
            return false;
        }
        proof {
            let s = axes@.subrange(0, i + 1);
            assert forall|a: int, b: int| 0 <= a < b < s.len() implies s[a].spec_tag().spec_key()
                < s[b].spec_tag().spec_key() by {
                let p = axes@.subrange(0, i as int);
                if b < i {
                    assert(s[a] == p[a] && s[b] == p[b]);
                } else if a < i - 1 {
                    assert(s[a] == p[a] && p[i - 1] == s[i - 1]);
                }
            }
        }
        i = i + 1;
    }
    assert(axes@.subrange(0, i as int) =~= axes@);
    true
}

fn check_coverage_canonical(ranges: &[UnicodeCodepointRange]) -> (r: bool)
    ensures
        r == coverage_canonical(ranges@),
{
    let mut i: usize = 1;
    if ranges.len() == 0 {
        return true;
    }
    while i < ranges.len()
        invariant
            1 <= i <= ranges@.len(),
            coverage_canonical(ranges@.subrange(0, i as int)),
        decreases ranges@.len() - i,
    {
        let prev = &ranges[i - 1];
        proof {
            use_type_invariant(prev);
        }
        let prev_last = prev.last();
        let next_first = ranges[i].first();
        if prev_last as u64 + 1 >= next_first as u64 {
            assert(!coverage_canonical(ranges@));
            return false;
        }
        proof {
            let s = ranges@.subrange(0, i + 1);
            let p = ranges@.subrange(0, i as int);
            assert forall|a: int, b: int| 0 <= a < b < s.len() implies s[a].spec_last() + 1 < s[b].spec_first() by {
                if b < i {
                    assert(s[a] == p[a] && s[b] == p[b]);
                } else if a < i - 1 {
                    assert(s[a] == p[a] && p[i - 1] == s[i - 1]);
                    assert(p[a].spec_last() + 1 < p[i - 1].spec_first());
                }
            }
        }
        i = i + 1;
    }
    assert(ranges@.subrange(0, i as int) =~= ranges@);
    true
}

/// One font face that an authority offers: its container, its index in the
/// container, and the metadata by which it is selected.
#[derive(Clone, Debug)]
pub struct FontCatalogCandidate {
    container_acquisition: FontContainerAcquisitionIdentity,
    face_index: u32,
    family: String,
    style: FontStyle,
    weight: FontWeight,
    stretch: FontStretch,
    flags: FontSelectionFlags,
    axes: Vec<FontAxis>,
    codepoint_coverage: Vec<UnicodeCodepointRange>,
}

/// Why a candidate cannot be admitted, if it cannot, checked in this order:
/// its container was acquired by another authority, its family is empty, its
/// axes are not in canonical order, or its coverage is not canonical.
pub open spec fn candidate_rejection(
    controls_authority: Seq<char>,
    container_authority: Seq<char>,
    family: Seq<char>,
    axes: Seq<FontAxis>,
    coverage: Seq<UnicodeCodepointRange>,
) -> Option<FontCatalogRejection> {
    if container_authority != controls_authority {
        Some(FontCatalogRejection::WrongAuthority)
    } else if family.len() == 0 {
        Some(FontCatalogRejection::EmptyFamily)
    } else if !axes_canonical(axes) {
        Some(FontCatalogRejection::NonCanonicalAxes)
    } else if !coverage_canonical(coverage) {
        Some(FontCatalogRejection::NonCanonicalCodepointCoverage)
    } else {
        None
    }
}

impl FontCatalogCandidate {
    pub closed spec fn spec_container_acquisition(&self) -> FontContainerAcquisitionIdentity {
        self.container_acquisition
    }

    pub closed spec fn spec_face_index(&self) -> u32 {
        self.face_index
    }

    pub closed spec fn spec_family(&self) -> Seq<char> {
        self.family@
    }

    pub closed spec fn spec_style(&self) -> FontStyle {
        self.style
    }

    pub closed spec fn spec_weight(&self) -> FontWeight {
        self.weight
    }

    pub closed spec fn spec_stretch(&self) -> FontStretch {
        self.stretch
    }

    pub closed spec fn spec_flags(&self) -> FontSelectionFlags {
        self.flags
    }

    pub closed spec fn spec_axes(&self) -> Seq<FontAxis> {
        self.axes@
    }

    pub closed spec fn spec_codepoint_coverage(&self) -> Seq<UnicodeCodepointRange> {
        self.codepoint_coverage@
    }

    /// Two candidates are the same face when they name the same face of the
    /// same acquired container.
    pub open spec fn spec_same_face(&self, other: &Self) -> bool {
        &&& self.spec_container_acquisition().spec_authority() == other.spec_container_acquisition().spec_authority()
        &&& self.spec_container_acquisition().spec_opaque() == other.spec_container_acquisition().spec_opaque()
        &&& self.spec_face_index() == other.spec_face_index()
    }

    pub fn try_new(
        controls: &AcquisitionControls<'_>,
        container_acquisition: FontContainerAcquisitionIdentity,
        face_index: u32,
        family: String,
        style: FontStyle,
        weight: FontWeight,
        stretch: FontStretch,
        flags: FontSelectionFlags,
        axes: Vec<FontAxis>,
        codepoint_coverage: Vec<UnicodeCodepointRange>,
    ) -> (r: Result<Self, FontCatalogRejection>)
        ensures
            match r {
                Ok(c) => candidate_rejection(
                    controls.spec_authority(),
                    container_acquisition.spec_authority(),
                    family@,
                    axes@,
                    codepoint_coverage@,
                ) is None && c.spec_container_acquisition() == container_acquisition && c.spec_face_index()
                    == face_index && c.spec_family() == family@ && c.spec_style() == style && c.spec_weight()
                    == weight && c.spec_stretch() == stretch && c.spec_flags() == flags && c.spec_axes()
                    == axes@ && c.spec_codepoint_coverage() == codepoint_coverage@,
                Err(e) => candidate_rejection(
                    controls.spec_authority(),
                    container_acquisition.spec_authority(),
                    family@,
                    axes@,
                    codepoint_coverage@,
                ) == Some(e),
            },
    {
        if !container_acquisition.authority().same_as(controls.authority()) {
            return Err(FontCatalogRejection::WrongAuthority);
        }
        if family.as_str().is_empty() {
            return Err(FontCatalogRejection::EmptyFamily);
        }
        if !check_axes_canonical(axes.as_slice()) {
            return Err(FontCatalogRejection::NonCanonicalAxes);
        }
        if !check_coverage_canonical(codepoint_coverage.as_slice()) {
            return Err(FontCatalogRejection::NonCanonicalCodepointCoverage);
        }
        Ok(FontCatalogCandidate {
            container_acquisition,
            face_index,
            family,
            style,
            weight,
            stretch,
            flags,
            axes,
            codepoint_coverage,
        })
    }

    pub fn container_acquisition(&self) -> (r: &FontContainerAcquisitionIdentity)
        ensures
            *r == self.spec_container_acquisition(),
    {
        &self.container_acquisition
    }

    pub fn face_index(&self) -> (r: u32)
        ensures
            r == self.spec_face_index(),
    {
        self.face_index
    }

    pub fn family(&self) -> (r: &str)
        ensures
            r@ == self.spec_family(),
    {
        self.family.as_str()
    }

    pub fn style(&self) -> (r: FontStyle)
        ensures
            r == self.spec_style(),
    {
        self.style
    }

    pub fn weight(&self) -> (r: FontWeight)
        ensures
            r == self.spec_weight(),
    {
        self.weight
    }

    pub fn stretch(&self) -> (r: FontStretch)
        ensures
            r == self.spec_stretch(),
    {
        self.stretch
    }

    pub fn flags(&self) -> (r: FontSelectionFlags)
        ensures
            r == self.spec_flags(),
    {
        self.flags
    }

    pub fn axes(&self) -> (r: &[FontAxis])
        ensures
            r@ == self.spec_axes(),
    {
        self.axes.as_slice()
    }

    pub fn codepoint_coverage(&self) -> (r: &[UnicodeCodepointRange])
        ensures
            r@ == self.spec_codepoint_coverage(),
    {
        self.codepoint_coverage.as_slice()
    }

    pub fn same_face(&self, other: &Self) -> (r: bool)
        ensures
            r == self.spec_same_face(other),
    {
        self.face_index == other.face_index && self.container_acquisition.same_as(&other.container_acquisition)
    }
}

/// Whether no face occurs twice among the candidates.
pub open spec fn faces_distinct(candidates: Seq<FontCatalogCandidate>) -> bool {
    forall|i: int, j: int| 0 <= i < j < candidates.len() ==> !candidates[i].spec_same_face(&candidates[j])
}

/// The font faces an authority offered at one moment, each face once.
#[derive(Debug)]
pub struct FontCatalogSnapshot {
    candidates: Vec<FontCatalogCandidate>,
}

impl FontCatalogSnapshot {
    #[verifier::type_invariant]
    spec fn distinct(self) -> bool {
        faces_distinct(self.candidates@)
    }

    pub closed spec fn spec_candidates(&self) -> Seq<FontCatalogCandidate> {
        self.candidates@
    }

    pub fn try_new(_controls: &AcquisitionControls<'_>, candidates: Vec<FontCatalogCandidate>) -> (r: Result<
        Self,
        FontCatalogRejection,
    >)
        ensures
            match r {
                Ok(s) => faces_distinct(candidates@) && s.spec_candidates() == candidates@,
                Err(e) => !faces_distinct(candidates@) && e == FontCatalogRejection::DuplicateFace,
            },
    {
        let n = candidates.len();
        let mut i: usize = 0;
        while i < n
            invariant
                n == candidates@.len(),
                i <= n,
                forall|a: int, b: int| 0 <= a < i && a < b < n ==> !candidates@[a].spec_same_face(&candidates@[b]),
            decreases n - i,
        {
            let mut j: usize = i + 1;
            while j < n
                invariant
                    n == candidates@.len(),
                    i < n,
                    i + 1 <= j <= n,
                    forall|a: int, b: int| 0 <= a < i && a < b < n ==> !candidates@[a].spec_same_face(&candidates@[b]),
                    forall|b: int| i < b < j ==> !candidates@[i as int].spec_same_face(&candidates@[b]),
                decreases n - j,
            {
                if candidates[i].same_face(&candidates[j]) {
                    return Err(FontCatalogRejection::DuplicateFace);
                }
                j = j + 1;
            }
            i = i + 1;
        }
        Ok(FontCatalogSnapshot { candidates })
    }

    pub fn candidates(&self) -> (r: &[FontCatalogCandidate])
        ensures
            r@ == self.spec_candidates(),
            faces_distinct(r@),
    {
        proof {
            use_type_invariant(self);
        }
        self.candidates.as_slice()
    }
}

/// A catalog snapshot with the scan policy it was taken under and what the
/// scan reported.
pub struct FontCatalogAcquisition {
    snapshot: FontCatalogSnapshot,
    scan_policy: FontScanPolicy,
    diagnostics: Vec<FontScanDiagnostic>,
}

impl FontCatalogAcquisition {
    pub closed spec fn spec_snapshot(&self) -> FontCatalogSnapshot {
        self.snapshot
    }

    pub closed spec fn spec_scan_policy(&self) -> FontScanPolicy {
        self.scan_policy
    }

    pub closed spec fn spec_diagnostics(&self) -> Seq<FontScanDiagnostic> {
        self.diagnostics@
    }

    /// Binds a snapshot to its scan policy and diagnostics; every
    /// combination is accepted.
    pub fn try_new(
        _controls: &AcquisitionControls<'_>,
        snapshot: FontCatalogSnapshot,
        scan_policy: FontScanPolicy,
        diagnostics: Vec<FontScanDiagnostic>,
    ) -> (r: Result<Self, FontCatalogRejection>)
        ensures
            r matches Ok(a) && a.spec_snapshot() == snapshot && a.spec_scan_policy() == scan_policy
                && a.spec_diagnostics() == diagnostics@,
    {
        Ok(FontCatalogAcquisition { snapshot, scan_policy, diagnostics })
    }

    pub fn snapshot(&self) -> (r: &FontCatalogSnapshot)
        ensures
            *r == self.spec_snapshot(),
    {
        &self.snapshot
    }

    pub fn scan_policy(&self) -> (r: &FontScanPolicy)
        ensures
            *r == self.spec_scan_policy(),
    {
        &self.scan_policy
    }

    pub fn diagnostics(&self) -> (r: &[FontScanDiagnostic])
        ensures
            r@ == self.spec_diagnostics(),
    {
        self.diagnostics.as_slice()
    }
}

#[derive(Clone, Debug)]
pub struct PackageAcquisitionRequest {
    pub specification: PackageSpecification,
    pub expected_tree_identity: Option<CompletePackageTreeIdentity>,
}

/// A request for a font catalog under a scan policy.
#[derive(Clone, Debug)]
pub struct FontCatalogRequest {
    scan_policy: FontScanPolicy,
}

impl FontCatalogRequest {
    pub closed spec fn spec_scan_policy(&self) -> FontScanPolicy {
        self.scan_policy
    }

    pub(crate) fn new(scan_policy: FontScanPolicy) -> (r: Self)
        ensures
            r.spec_scan_policy() == scan_policy,
    {
        FontCatalogRequest { scan_policy }
    }

    pub fn requested_scan_policy(&self) -> (r: &FontScanPolicy)
        ensures
            *r == self.spec_scan_policy(),
    {
        &self.scan_policy
    }
}

/// What a font container is acquired for.
pub enum FontContainerAcquisitionPurpose<'a> {
    CatalogFace { acquisition_identity: &'a FontContainerAcquisitionIdentity, face_index: u32 },
    ExternalRequirement {
        requirement_identity: &'a FontRequirementIdentity,
        expected_container_identity: &'a ContentIdentity,
        expected_bytes: u64,
        required_face_indices: &'a [u32],
    },
}

#[derive(Clone, Debug)]
enum FontContainerTarget {
    CatalogFace { acquisition_identity: FontContainerAcquisitionIdentity, face_index: u32 },
    ExternalRequirement {
        requirement_identity: FontRequirementIdentity,
        expected_container_identity: ContentIdentity,
        expected_bytes: u64,
        required_face_indices: Vec<u32>,
    },
}

/// A request for one font container.
#[derive(Clone, Debug)]
pub struct FontContainerAcquisitionRequest {
    target: FontContainerTarget,
}

impl FontContainerAcquisitionRequest {
    pub(crate) fn for_catalog_face(acquisition_identity: FontContainerAcquisitionIdentity, face_index: u32) -> (r: Self)
        ensures
            r.spec_catalog_face() == Some((acquisition_identity, face_index)),
    {
        FontContainerAcquisitionRequest { target: FontContainerTarget::CatalogFace { acquisition_identity, face_index } }
    }

    pub(crate) fn for_external_requirement(
        requirement_identity: FontRequirementIdentity,
        expected_container_identity: ContentIdentity,
        expected_bytes: u64,
        required_face_indices: Vec<u32>,
    ) -> (r: Self)
        ensures
            r.spec_catalog_face() is None,
    {
        FontContainerAcquisitionRequest {
            target: FontContainerTarget::ExternalRequirement {
                requirement_identity,
                expected_container_identity,
                expected_bytes,
                required_face_indices,
            },
        }
    }

    /// The catalog face the request names, if it names one.
    pub closed spec fn spec_catalog_face(&self) -> Option<(FontContainerAcquisitionIdentity, u32)> {
        match self.target {
            FontContainerTarget::CatalogFace { acquisition_identity, face_index } => Some((acquisition_identity, face_index)),
            _ => None,
        }
    }

    pub fn purpose(&self) -> (r: FontContainerAcquisitionPurpose<'_>)
        ensures
            match self.spec_catalog_face() {
                Some((i, f)) => r matches FontContainerAcquisitionPurpose::CatalogFace { acquisition_identity, face_index }
                    && *acquisition_identity == i && face_index == f,
                None => r is ExternalRequirement,
            },
    {
        match &self.target {
            FontContainerTarget::CatalogFace { acquisition_identity, face_index } => {
                FontContainerAcquisitionPurpose::CatalogFace { acquisition_identity, face_index: *face_index }
            },
            FontContainerTarget::ExternalRequirement {
                requirement_identity,
                expected_container_identity,
                expected_bytes,
                required_face_indices,
            } => FontContainerAcquisitionPurpose::ExternalRequirement {
                requirement_identity,
                expected_container_identity,
                expected_bytes: *expected_bytes,
                required_face_indices: required_face_indices.as_slice(),
            },
        }
    }
}

/// Whether no path occurs twice.
pub open spec fn paths_distinct(paths: Seq<Seq<char>>) -> bool {
    forall|i: int, j: int| 0 <= i < j < paths.len() ==> paths[i] != paths[j]
}

/// The sum of the lengths of the files.
pub open spec fn total_length(files: Seq<(PackagePath, StableByteValue)>) -> int
    decreases files.len(),
{
    if files.len() == 0 {
        0
    } else {
        total_length(files.drop_last()) + files.last().1@.len()
    }
}

/// The paths of the files, in order.
pub open spec fn file_paths(files: Seq<(PackagePath, StableByteValue)>) -> Seq<Seq<char>> {
    files.map_values(|f: (PackagePath, StableByteValue)| f.0@)
}

/// Why files cannot form a complete package tree, if they cannot, checked in
/// this order: there are none, a path occurs twice, or their total length
/// does not fit in 64 bits.
pub open spec fn package_tree_rejection(files: Seq<(PackagePath, StableByteValue)>) -> Option<
    CompletePackageTreeRejection,
> {
    if files.len() == 0 {
        Some(CompletePackageTreeRejection::Empty)
    } else if !paths_distinct(file_paths(files)) {
        Some(CompletePackageTreeRejection::DuplicatePath)
    } else if total_length(files) > u64::MAX {
        Some(CompletePackageTreeRejection::AggregateLengthOverflow)
    } else {
        None
    }
}

pub struct CompletePackageTreeFileView<'a> {
    pub path: &'a PackagePath,
    pub bytes: &'a StableByteValue,
}

/// Every file of one package, each path once.
#[derive(Clone, Debug)]
pub struct CompletePackageTree {
    files: Vec<(PackagePath, StableByteValue)>,
    aggregate_bytes: u64,
}

proof fn lemma_total_length_prefix(files: Seq<(PackagePath, StableByteValue)>, i: int)
    requires
        0 < i <= files.len(),
    ensures
        total_length(files.subrange(0, i)) == total_length(files.subrange(0, i - 1)) + files[i - 1].1@.len(),
{
    assert(files.subrange(0, i).drop_last() =~= files.subrange(0, i - 1));
}

proof fn lemma_total_length_monotonic(files: Seq<(PackagePath, StableByteValue)>, k: int)
    requires
        0 <= k <= files.len(),
    ensures
        total_length(files.subrange(0, k)) <= total_length(files),
    decreases files.len() - k,
{
    if k < files.len() {
        lemma_total_length_monotonic(files, k + 1);
        lemma_total_length_prefix(files, k + 1);
    } else {
        assert(files.subrange(0, k) =~= files);
    }
}

impl CompletePackageTree {
    pub closed spec fn spec_files(&self) -> Seq<(PackagePath, StableByteValue)> {
        self.files@
    }

    pub closed spec fn spec_aggregate_bytes(&self) -> u64 {
        self.aggregate_bytes
    }

    pub fn try_from_files(_controls: &AcquisitionControls<'_>, files: Vec<(PackagePath, StableByteValue)>) -> (r: Result<
        Self,
        CompletePackageTreeRejection,
    >)
        ensures
            match r {
                Ok(t) => package_tree_rejection(files@) is None && t.spec_files() == files@
                    && t.spec_aggregate_bytes() == total_length(files@),
                Err(e) => package_tree_rejection(files@) == Some(e),
            },
    {
        let n = files.len();
        if n == 0 {
            return Err(CompletePackageTreeRejection::Empty);
        }
        let mut i: usize = 0;
        while i < n
            invariant
                n == files@.len(),
                i <= n,
                forall|a: int, b: int| 0 <= a < i && a < b < n ==> files@[a].0@ != files@[b].0@,
            decreases n - i,
        {
            let mut j: usize = i + 1;
            while j < n
                invariant
                    n == files@.len(),
                    i < n,
                    i + 1 <= j <= n,
                    forall|a: int, b: int| 0 <= a < i && a < b < n ==> files@[a].0@ != files@[b].0@,
                    forall|b: int| i < b < j ==> files@[i as int].0@ != files@[b].0@,
                decreases n - j,
            {
                if files[i].0.same_as(&files[j].0) {
                    assert(!paths_distinct(file_paths(files@))) by {
                        assert(file_paths(files@)[i as int] == files@[i as int].0@);
                        assert(file_paths(files@)[j as int] == files@[j as int].0@);
                    }
                    return Err(CompletePackageTreeRejection::DuplicatePath);
                }
                j = j + 1;
            }
            i = i + 1;
        }
        assert(paths_distinct(file_paths(files@))) by {
            assert forall|a: int, b: int| 0 <= a < b < file_paths(files@).len() implies file_paths(files@)[a]
                != file_paths(files@)[b] by {
                assert(file_paths(files@)[a] == files@[a].0@);
                assert(file_paths(files@)[b] == files@[b].0@);
            }
        }
        let mut total: u64 = 0;
        let mut k: usize = 0;
        while k < n
            invariant
                n == files@.len(),
                n > 0,
                paths_distinct(file_paths(files@)),
                k <= n,
                total == total_length(files@.subrange(0, k as int)),
            decreases n - k,
        {
            let len = files[k].1.len();
            proof {
                lemma_total_length_prefix(files@, k + 1);
            }
            if len > u64::MAX - total {
                proof {
                    lemma_total_length_monotonic(files@, k + 1);
                }
                return Err(CompletePackageTreeRejection::AggregateLengthOverflow);
            }
            total = total + len;
            k = k + 1;
        }
        assert(files@.subrange(0, n as int) =~= files@);
        Ok(CompletePackageTree { files, aggregate_bytes: total })
    }

    pub fn files(&self) -> (r: &[(PackagePath, StableByteValue)])
        ensures
            r@ == self.spec_files(),
    {
        self.files.as_slice()
    }

    /// The file at `index`, in the order the tree was given.
    pub fn file(&self, index: usize) -> (r: Option<CompletePackageTreeFileView<'_>>)
        ensures
            match r {
                Some(f) => index < self.spec_files().len() && *f.path == self.spec_files()[index as int].0
                    && *f.bytes == self.spec_files()[index as int].1,
                None => index >= self.spec_files().len(),
            },
    {
        if index < self.files.len() {
            let f = &self.files[index];
            Some(CompletePackageTreeFileView { path: &f.0, bytes: &f.1 })
        } else {
            None
        }
    }

    pub fn aggregate_bytes(&self) -> (r: u64)
        ensures
            r == self.spec_aggregate_bytes(),
    {
        self.aggregate_bytes
    }
}

/// A reservation drawn from an acquisition budget.
pub struct BudgetReservation {
    dimension: AcquisitionBudgetDimension,
    amount: u64,
}

impl BudgetReservation {
    pub closed spec fn spec_dimension(&self) -> AcquisitionBudgetDimension {
        self.dimension
    }

    pub closed spec fn spec_amount(&self) -> u64 {
        self.amount
    }

    pub fn dimension(&self) -> (r: AcquisitionBudgetDimension)
        ensures
            r == self.spec_dimension(),
    {
        self.dimension
    }

    pub fn amount(&self) -> (r: u64)
        ensures
            r == self.spec_amount(),
    {
        self.amount
    }
}

/// Draws `amount` from a counter bounded by `limit`.
fn draw(used: &mut u64, limit: u64, dimension: AcquisitionBudgetDimension, amount: u64) -> (r: Result<
    BudgetReservation,
    BudgetExceeded,
>)
    requires
        *old(used) <= limit,
    ensures
        match r {
            Ok(res) => amount <= limit - *old(used) && *final(used) == *old(used) + amount
                && res.spec_dimension() == dimension && res.spec_amount() == amount,
            Err(e) => amount > limit - *old(used) && *final(used) == *old(used) && e == BudgetExceeded {
                dimension,
                requested: amount,
                remaining: (limit - *old(used)) as u64,
            },
        },
    no_unwind
{
    let remaining = limit - *used;
    if amount > remaining {
        return Err(BudgetExceeded { dimension, requested: amount, remaining });
    }
    *used = *used + amount;
    Ok(BudgetReservation { dimension, amount })
}

/// The resources that one acquisition may consume, and what it has consumed.
///
/// Every counter stays within its limit: a reservation that would pass it is
/// refused and changes nothing.
pub struct AcquisitionBudget {
    package_files: u64,
    largest_package_file_bytes: u64,
    font_candidates: u64,
    font_faces: u64,
    downloaded_bytes: u64,
    expanded_bytes: u64,
    stable_spool_bytes: u64,
    retained_memory_bytes: u64,
    used_package_files: u64,
    used_font_candidates: u64,
    used_font_faces: u64,
    used_downloaded_bytes: u64,
    used_expanded_bytes: u64,
    used_stable_spool_bytes: u64,
    used_retained_memory_bytes: u64,
}

impl AcquisitionBudget {
    #[verifier::type_invariant]
    spec fn within_limits(self) -> bool {
        &&& self.used_package_files <= self.package_files
        &&& self.used_font_candidates <= self.font_candidates
        &&& self.used_font_faces <= self.font_faces
        &&& self.used_downloaded_bytes <= self.downloaded_bytes
        &&& self.used_expanded_bytes <= self.expanded_bytes
        &&& self.used_stable_spool_bytes <= self.stable_spool_bytes
        &&& self.used_retained_memory_bytes <= self.retained_memory_bytes
    }

    /// The limit of a dimension.
    pub closed spec fn spec_limit(&self, d: AcquisitionBudgetDimension) -> u64 {
        match d {
            AcquisitionBudgetDimension::PackageFiles => self.package_files,
            AcquisitionBudgetDimension::LargestPackageFileBytes => self.largest_package_file_bytes,
            AcquisitionBudgetDimension::FontCandidates => self.font_candidates,
            AcquisitionBudgetDimension::FontFaces => self.font_faces,
            AcquisitionBudgetDimension::DownloadedBytes => self.downloaded_bytes,
            AcquisitionBudgetDimension::ExpandedBytes => self.expanded_bytes,
            AcquisitionBudgetDimension::StableSpoolBytes => self.stable_spool_bytes,
            AcquisitionBudgetDimension::RetainedMemoryBytes => self.retained_memory_bytes,
        }
    }

    /// What a dimension has consumed; the per-file bound consumes nothing.
    pub closed spec fn spec_used(&self, d: AcquisitionBudgetDimension) -> u64 {
        match d {
            AcquisitionBudgetDimension::PackageFiles => self.used_package_files,
            AcquisitionBudgetDimension::LargestPackageFileBytes => 0,
            AcquisitionBudgetDimension::FontCandidates => self.used_font_candidates,
            AcquisitionBudgetDimension::FontFaces => self.used_font_faces,
            AcquisitionBudgetDimension::DownloadedBytes => self.used_downloaded_bytes,
            AcquisitionBudgetDimension::ExpandedBytes => self.used_expanded_bytes,
            AcquisitionBudgetDimension::StableSpoolBytes => self.used_stable_spool_bytes,
            AcquisitionBudgetDimension::RetainedMemoryBytes => self.used_retained_memory_bytes,
        }
    }

    /// Every dimension other than `d` is as it was in `old`.
    pub open spec fn spec_others_unchanged(&self, old: &Self, d: AcquisitionBudgetDimension, e: AcquisitionBudgetDimension) -> bool {
        forall|x: AcquisitionBudgetDimension| x != d && x != e ==> #[trigger] self.spec_used(x) == old.spec_used(x)
    }

    /// The limits never change.
    pub open spec fn spec_same_limits(&self, old: &Self) -> bool {
        forall|x: AcquisitionBudgetDimension| #[trigger] self.spec_limit(x) == old.spec_limit(x)
    }

    pub(crate) fn try_new(
        package_files: u64,
        largest_package_file_bytes: u64,
        font_candidates: u64,
        font_faces: u64,
        downloaded_bytes: u64,
        expanded_bytes: u64,
        stable_spool_bytes: u64,
        retained_memory_bytes: u64,
    ) -> (r: Result<Self, crate::AdmissionRefusal>)
        ensures
            match r {
                Ok(b) => largest_package_file_bytes <= expanded_bytes && b.spec_limit(
                    AcquisitionBudgetDimension::PackageFiles,
                ) == package_files && b.spec_limit(AcquisitionBudgetDimension::LargestPackageFileBytes)
                    == largest_package_file_bytes && b.spec_limit(AcquisitionBudgetDimension::FontCandidates)
                    == font_candidates && b.spec_limit(AcquisitionBudgetDimension::FontFaces) == font_faces
                    && b.spec_limit(AcquisitionBudgetDimension::DownloadedBytes) == downloaded_bytes
                    && b.spec_limit(AcquisitionBudgetDimension::ExpandedBytes) == expanded_bytes && b.spec_limit(
                    AcquisitionBudgetDimension::StableSpoolBytes,
                ) == stable_spool_bytes && b.spec_limit(AcquisitionBudgetDimension::RetainedMemoryBytes)
                    == retained_memory_bytes && forall|x: AcquisitionBudgetDimension| #[trigger] b.spec_used(x) == 0,
                Err(e) => largest_package_file_bytes > expanded_bytes && e
                    == crate::AdmissionRefusal::InvalidResourceLimits,
            },
    {
        if largest_package_file_bytes > expanded_bytes {
            return Err(crate::AdmissionRefusal::InvalidResourceLimits);
        }
        Ok(AcquisitionBudget {
            package_files,
            largest_package_file_bytes,
            font_candidates,
            font_faces,
            downloaded_bytes,
            expanded_bytes,
            stable_spool_bytes,
            retained_memory_bytes,
            used_package_files: 0,
            used_font_candidates: 0,
            used_font_faces: 0,
            used_downloaded_bytes: 0,
            used_expanded_bytes: 0,
            used_stable_spool_bytes: 0,
            used_retained_memory_bytes: 0,
        })
    }

    /// How much of a dimension is left.
    pub fn remaining(&self, d: AcquisitionBudgetDimension) -> (r: u64)
        ensures
            r == self.spec_limit(d) - self.spec_used(d),
    {
        proof {
            use_type_invariant(self);
        }
        match d {
            AcquisitionBudgetDimension::PackageFiles => self.package_files - self.used_package_files,
            AcquisitionBudgetDimension::LargestPackageFileBytes => self.largest_package_file_bytes,
            AcquisitionBudgetDimension::FontCandidates => self.font_candidates - self.used_font_candidates,
            AcquisitionBudgetDimension::FontFaces => self.font_faces - self.used_font_faces,
            AcquisitionBudgetDimension::DownloadedBytes => self.downloaded_bytes - self.used_downloaded_bytes,
            AcquisitionBudgetDimension::ExpandedBytes => self.expanded_bytes - self.used_expanded_bytes,
            AcquisitionBudgetDimension::StableSpoolBytes => self.stable_spool_bytes - self.used_stable_spool_bytes,
            AcquisitionBudgetDimension::RetainedMemoryBytes => self.retained_memory_bytes
                - self.used_retained_memory_bytes,
        }
    }

    /// Reserves `bytes` of the DownloadedBytes dimension; a refusal reports what is left
    /// and changes nothing.
    pub fn reserve_download(&mut self, bytes: u64) -> (r: Result<BudgetReservation, BudgetExceeded>)
        ensures
            final(self).spec_same_limits(old(self)),
            final(self).spec_others_unchanged(old(self), AcquisitionBudgetDimension::DownloadedBytes, AcquisitionBudgetDimension::DownloadedBytes),
            match r {
                Ok(res) => bytes <= old(self).spec_limit(AcquisitionBudgetDimension::DownloadedBytes) - old(self).spec_used(
                    AcquisitionBudgetDimension::DownloadedBytes,
                ) && final(self).spec_used(AcquisitionBudgetDimension::DownloadedBytes) == old(self).spec_used(
                    AcquisitionBudgetDimension::DownloadedBytes,
                ) + bytes && res.spec_dimension() == AcquisitionBudgetDimension::DownloadedBytes && res.spec_amount() == bytes,
                Err(e) => bytes > old(self).spec_limit(AcquisitionBudgetDimension::DownloadedBytes) - old(self).spec_used(
                    AcquisitionBudgetDimension::DownloadedBytes,
                ) && final(self).spec_used(AcquisitionBudgetDimension::DownloadedBytes) == old(self).spec_used(
                    AcquisitionBudgetDimension::DownloadedBytes,
                ) && e == BudgetExceeded {
                    dimension: AcquisitionBudgetDimension::DownloadedBytes,
                    requested: bytes,
                    remaining: (old(self).spec_limit(AcquisitionBudgetDimension::DownloadedBytes) - old(self).spec_used(
                        AcquisitionBudgetDimension::DownloadedBytes,
                    )) as u64,
                },
            },
    {
        proof {
            use_type_invariant(&*self);
        }
        let limit = self.downloaded_bytes;
        draw(&mut self.used_downloaded_bytes, limit, AcquisitionBudgetDimension::DownloadedBytes, bytes)
    }

    /// Reserves `bytes` of the ExpandedBytes dimension; a refusal reports what is left
    /// and changes nothing.
    pub fn reserve_expanded(&mut self, bytes: u64) -> (r: Result<BudgetReservation, BudgetExceeded>)
        ensures
            final(self).spec_same_limits(old(self)),
            final(self).spec_others_unchanged(old(self), AcquisitionBudgetDimension::ExpandedBytes, AcquisitionBudgetDimension::ExpandedBytes),
            match r {
                Ok(res) => bytes <= old(self).spec_limit(AcquisitionBudgetDimension::ExpandedBytes) - old(self).spec_used(
                    AcquisitionBudgetDimension::ExpandedBytes,
                ) && final(self).spec_used(AcquisitionBudgetDimension::ExpandedBytes) == old(self).spec_used(
                    AcquisitionBudgetDimension::ExpandedBytes,
                ) + bytes && res.spec_dimension() == AcquisitionBudgetDimension::ExpandedBytes && res.spec_amount() == bytes,
                Err(e) => bytes > old(self).spec_limit(AcquisitionBudgetDimension::ExpandedBytes) - old(self).spec_used(
                    AcquisitionBudgetDimension::ExpandedBytes,
                ) && final(self).spec_used(AcquisitionBudgetDimension::ExpandedBytes) == old(self).spec_used(
                    AcquisitionBudgetDimension::ExpandedBytes,
                ) && e == BudgetExceeded {
                    dimension: AcquisitionBudgetDimension::ExpandedBytes,
                    requested: bytes,
                    remaining: (old(self).spec_limit(AcquisitionBudgetDimension::ExpandedBytes) - old(self).spec_used(
                        AcquisitionBudgetDimension::ExpandedBytes,
                    )) as u64,
                },
            },
    {
        proof {
            use_type_invariant(&*self);
        }
        let limit = self.expanded_bytes;
        draw(&mut self.used_expanded_bytes, limit, AcquisitionBudgetDimension::ExpandedBytes, bytes)
    }

    /// Reserves `bytes` of the StableSpoolBytes dimension; a refusal reports what is left
    /// and changes nothing.
    pub fn reserve_stable_spool(&mut self, bytes: u64) -> (r: Result<BudgetReservation, BudgetExceeded>)
        ensures
            final(self).spec_same_limits(old(self)),
            final(self).spec_others_unchanged(old(self), AcquisitionBudgetDimension::StableSpoolBytes, AcquisitionBudgetDimension::StableSpoolBytes),
            match r {
                Ok(res) => bytes <= old(self).spec_limit(AcquisitionBudgetDimension::StableSpoolBytes) - old(self).spec_used(
                    AcquisitionBudgetDimension::StableSpoolBytes,
                ) && final(self).spec_used(AcquisitionBudgetDimension::StableSpoolBytes) == old(self).spec_used(
                    AcquisitionBudgetDimension::StableSpoolBytes,
                ) + bytes && res.spec_dimension() == AcquisitionBudgetDimension::StableSpoolBytes && res.spec_amount() == bytes,
                Err(e) => bytes > old(self).spec_limit(AcquisitionBudgetDimension::StableSpoolBytes) - old(self).spec_used(
                    AcquisitionBudgetDimension::StableSpoolBytes,
                ) && final(self).spec_used(AcquisitionBudgetDimension::StableSpoolBytes) == old(self).spec_used(
                    AcquisitionBudgetDimension::StableSpoolBytes,
                ) && e == BudgetExceeded {
                    dimension: AcquisitionBudgetDimension::StableSpoolBytes,
                    requested: bytes,
                    remaining: (old(self).spec_limit(AcquisitionBudgetDimension::StableSpoolBytes) - old(self).spec_used(
                        AcquisitionBudgetDimension::StableSpoolBytes,
                    )) as u64,
                },
            },
    {
        proof {
            use_type_invariant(&*self);
        }
        let limit = self.stable_spool_bytes;
        draw(&mut self.used_stable_spool_bytes, limit, AcquisitionBudgetDimension::StableSpoolBytes, bytes)
    }

    /// Reserves `bytes` of the RetainedMemoryBytes dimension; a refusal reports what is left
    /// and changes nothing.
    pub fn reserve_retained(&mut self, bytes: u64) -> (r: Result<BudgetReservation, BudgetExceeded>)
        ensures
            final(self).spec_same_limits(old(self)),
            final(self).spec_others_unchanged(old(self), AcquisitionBudgetDimension::RetainedMemoryBytes, AcquisitionBudgetDimension::RetainedMemoryBytes),
            match r {
                Ok(res) => bytes <= old(self).spec_limit(AcquisitionBudgetDimension::RetainedMemoryBytes) - old(self).spec_used(
                    AcquisitionBudgetDimension::RetainedMemoryBytes,
                ) && final(self).spec_used(AcquisitionBudgetDimension::RetainedMemoryBytes) == old(self).spec_used(
                    AcquisitionBudgetDimension::RetainedMemoryBytes,
                ) + bytes && res.spec_dimension() == AcquisitionBudgetDimension::RetainedMemoryBytes && res.spec_amount() == bytes,
                Err(e) => bytes > old(self).spec_limit(AcquisitionBudgetDimension::RetainedMemoryBytes) - old(self).spec_used(
                    AcquisitionBudgetDimension::RetainedMemoryBytes,
                ) && final(self).spec_used(AcquisitionBudgetDimension::RetainedMemoryBytes) == old(self).spec_used(
                    AcquisitionBudgetDimension::RetainedMemoryBytes,
                ) && e == BudgetExceeded {
                    dimension: AcquisitionBudgetDimension::RetainedMemoryBytes,
                    requested: bytes,
                    remaining: (old(self).spec_limit(AcquisitionBudgetDimension::RetainedMemoryBytes) - old(self).spec_used(
                        AcquisitionBudgetDimension::RetainedMemoryBytes,
                    )) as u64,
                },
            },
    {
        proof {
            use_type_invariant(&*self);
        }
        let limit = self.retained_memory_bytes;
        draw(&mut self.used_retained_memory_bytes, limit, AcquisitionBudgetDimension::RetainedMemoryBytes, bytes)
    }

    /// Reserves one unit of the FontCandidates dimension.
    pub fn reserve_font_candidate(&mut self) -> (r: Result<BudgetReservation, BudgetExceeded>)
        ensures
            final(self).spec_same_limits(old(self)),
            final(self).spec_others_unchanged(old(self), AcquisitionBudgetDimension::FontCandidates, AcquisitionBudgetDimension::FontCandidates),
            match r {
                Ok(res) => old(self).spec_used(AcquisitionBudgetDimension::FontCandidates) < old(self).spec_limit(
                    AcquisitionBudgetDimension::FontCandidates,
                ) && final(self).spec_used(AcquisitionBudgetDimension::FontCandidates) == old(self).spec_used(
                    AcquisitionBudgetDimension::FontCandidates,
                ) + 1 && res.spec_dimension() == AcquisitionBudgetDimension::FontCandidates && res.spec_amount() == 1,
                Err(e) => old(self).spec_used(AcquisitionBudgetDimension::FontCandidates) == old(self).spec_limit(
                    AcquisitionBudgetDimension::FontCandidates,
                ) && final(self).spec_used(AcquisitionBudgetDimension::FontCandidates) == old(self).spec_used(
                    AcquisitionBudgetDimension::FontCandidates,
                ) && e == BudgetExceeded { dimension: AcquisitionBudgetDimension::FontCandidates, requested: 1, remaining: 0 },
            },
    {
        proof {
            use_type_invariant(&*self);
        }
        let limit = self.font_candidates;
        draw(&mut self.used_font_candidates, limit, AcquisitionBudgetDimension::FontCandidates, 1)
    }

    /// Reserves one unit of the FontFaces dimension.
    pub fn reserve_font_face(&mut self) -> (r: Result<BudgetReservation, BudgetExceeded>)
        ensures
            final(self).spec_same_limits(old(self)),
            final(self).spec_others_unchanged(old(self), AcquisitionBudgetDimension::FontFaces, AcquisitionBudgetDimension::FontFaces),
            match r {
                Ok(res) => old(self).spec_used(AcquisitionBudgetDimension::FontFaces) < old(self).spec_limit(
                    AcquisitionBudgetDimension::FontFaces,
                ) && final(self).spec_used(AcquisitionBudgetDimension::FontFaces) == old(self).spec_used(
                    AcquisitionBudgetDimension::FontFaces,
                ) + 1 && res.spec_dimension() == AcquisitionBudgetDimension::FontFaces && res.spec_amount() == 1,
                Err(e) => old(self).spec_used(AcquisitionBudgetDimension::FontFaces) == old(self).spec_limit(
                    AcquisitionBudgetDimension::FontFaces,
                ) && final(self).spec_used(AcquisitionBudgetDimension::FontFaces) == old(self).spec_used(
                    AcquisitionBudgetDimension::FontFaces,
                ) && e == BudgetExceeded { dimension: AcquisitionBudgetDimension::FontFaces, requested: 1, remaining: 0 },
            },
    {
        proof {
            use_type_invariant(&*self);
        }
        let limit = self.font_faces;
        draw(&mut self.used_font_faces, limit, AcquisitionBudgetDimension::FontFaces, 1)
    }

    /// Reserves one package file of `bytes` bytes: the file may be no larger
    /// than the per-file bound, and counts as one package file.
    pub fn reserve_package_file(&mut self, bytes: u64) -> (r: Result<BudgetReservation, BudgetExceeded>)
        ensures
            final(self).spec_same_limits(old(self)),
            final(self).spec_others_unchanged(old(self), AcquisitionBudgetDimension::PackageFiles, AcquisitionBudgetDimension::PackageFiles),
            bytes > old(self).spec_limit(AcquisitionBudgetDimension::LargestPackageFileBytes) ==> r == Err::<
                BudgetReservation,
                BudgetExceeded,
            >(
                BudgetExceeded {
                    dimension: AcquisitionBudgetDimension::LargestPackageFileBytes,
                    requested: bytes,
                    remaining: old(self).spec_limit(AcquisitionBudgetDimension::LargestPackageFileBytes),
                },
            ) && final(self).spec_used(AcquisitionBudgetDimension::PackageFiles) == old(self).spec_used(
                AcquisitionBudgetDimension::PackageFiles,
            ),
            bytes <= old(self).spec_limit(AcquisitionBudgetDimension::LargestPackageFileBytes) ==> match r {
                Ok(res) => old(self).spec_used(AcquisitionBudgetDimension::PackageFiles) < old(self).spec_limit(
                    AcquisitionBudgetDimension::PackageFiles,
                ) && final(self).spec_used(AcquisitionBudgetDimension::PackageFiles) == old(self).spec_used(
                    AcquisitionBudgetDimension::PackageFiles,
                ) + 1 && res.spec_dimension() == AcquisitionBudgetDimension::PackageFiles && res.spec_amount() == 1,
                Err(e) => old(self).spec_used(AcquisitionBudgetDimension::PackageFiles) == old(self).spec_limit(
                    AcquisitionBudgetDimension::PackageFiles,
                ) && final(self).spec_used(AcquisitionBudgetDimension::PackageFiles) == old(self).spec_used(
                    AcquisitionBudgetDimension::PackageFiles,
                ) && e == BudgetExceeded {
                    dimension: AcquisitionBudgetDimension::PackageFiles,
                    requested: 1,
                    remaining: 0,
                },
            },
    {
        proof {
            use_type_invariant(&*self);
        }
        if bytes > self.largest_package_file_bytes {
            return Err(
                BudgetExceeded {
                    dimension: AcquisitionBudgetDimension::LargestPackageFileBytes,
                    requested: bytes,
                    remaining: self.largest_package_file_bytes,
                },
            );
        }
        let limit = self.package_files;
        draw(&mut self.used_package_files, limit, AcquisitionBudgetDimension::PackageFiles, 1)
    }
}

/// The controls of one acquisition by one authority.
pub struct AcquisitionControls<'a> {
    authority: &'a AuthorityInstanceIdentity,
    deadline: crate::OperationDeadline,
    clock: (&'a dyn crate::MonotonicClock,),
    clock_domain: crate::MonotonicTimeDomain,
    interruption: (&'a dyn crate::InterruptionSource,),
    budget: &'a AcquisitionBudget,
}

impl<'a> AcquisitionControls<'a> {
    pub closed spec fn spec_authority(&self) -> Seq<char> {
        self.authority@
    }

    pub closed spec fn spec_deadline(&self) -> crate::OperationDeadline {
        self.deadline
    }

    /// The clock the operation runs against, as it was given.
    pub closed spec fn spec_clock(&self) -> (&'a dyn crate::MonotonicClock,) {
        self.clock
    }

    /// The cancellation signal of the operation, as it was given.
    pub closed spec fn spec_interruption(&self) -> (&'a dyn crate::InterruptionSource,) {
        self.interruption
    }

    /// The domain of the operation's clock, as it was when the controls were
    /// bound.
    pub closed spec fn spec_clock_domain(&self) -> crate::MonotonicTimeDomain {
        self.clock_domain
    }

    pub closed spec fn spec_budget(&self) -> &'a AcquisitionBudget {
        self.budget
    }

    pub(crate) fn try_new(
        authority: &'a AuthorityInstanceIdentity,
        deadline: crate::OperationDeadline,
        clock: &'a dyn crate::MonotonicClock,
        interruption: &'a dyn crate::InterruptionSource,
        budget: &'a AcquisitionBudget,
    ) -> (r: Result<Self, crate::AdmissionRefusal>)
        ensures
            match r {
                Ok(c) => crate::deadline_matches_clock(deadline, clock.spec_domain()) && c.spec_authority()
                    == authority@ && c.spec_deadline() == deadline && c.spec_clock_domain()@ == clock.spec_domain() && c.spec_clock() == (clock,)
                    && c.spec_interruption() == (interruption,)
                    && c.spec_budget() == budget,
                Err(e) => !crate::deadline_matches_clock(deadline, clock.spec_domain()) && e
                    == crate::AdmissionRefusal::MissingEnforcementCapability,
            },
    {
        if let Err(e) = crate::check_deadline_domain(&deadline, clock.domain()) {
            return Err(e);
        }
        let clock_domain = clock.domain().clone_domain();
        let kept_clock = (clock,);
        let kept_interruption = (interruption,);
        Ok(AcquisitionControls { authority, deadline, clock: kept_clock, clock_domain, interruption: kept_interruption, budget })
    }

    pub fn authority(&self) -> (r: &AuthorityInstanceIdentity)
        ensures
            r@ == self.spec_authority(),
    {
        self.authority
    }

    pub fn deadline(&self) -> (r: &crate::OperationDeadline)
        ensures
            *r == self.spec_deadline(),
    {
        &self.deadline
    }

    /// The clock the acquisition runs against.
    pub fn clock(&self) -> &'a dyn crate::MonotonicClock {
        self.clock.0
    }

    /// The cancellation signal of the acquisition.
    pub fn interruption(&self) -> &'a dyn crate::InterruptionSource {
        self.interruption.0
    }

    pub fn budget(&self) -> (r: &AcquisitionBudget)
        ensures
            r == self.spec_budget(),
    {
        self.budget
    }

    /// A builder for evidence kept by this acquisition's authority.
    pub fn evidence_builder(&self) -> (r: DependencyEvidenceBuilder)
        ensures
            r.spec_authority() == self.spec_authority(),
            r.spec_keys().len() == 0,
            r.spec_outcomes().len() == 0,
    {
        DependencyResolutionEvidence::builder(self.authority.duplicate())
    }

    pub fn evidence_key(&self, kind: EvidenceFactKind, opaque_key: Vec<u8>, immutable_version: Option<Vec<u8>>) -> (r:
        Result<DependencyEvidenceKey, DependencyEvidenceRejection>)
        ensures
            match r {
                Ok(k) => opaque_key@.len() > 0 && k.spec_authority() == self.spec_authority() && k.spec_kind()
                    == kind && k.spec_opaque_key() == opaque_key@ && k.spec_immutable_version() == (
                match immutable_version {
                    Some(v) => Some(v@),
                    None => None::<Seq<u8>>,
                }),
                Err(e) => opaque_key@.len() == 0 && e == DependencyEvidenceRejection::InvalidOpaqueKey,
            },
    {
        DependencyEvidenceKey::try_new(self.authority.duplicate(), kind, opaque_key, immutable_version)
    }

    pub fn font_container_acquisition_identity(&self, opaque: Vec<u8>) -> (r: Result<
        FontContainerAcquisitionIdentity,
        FontCatalogRejection,
    >)
        ensures
            match r {
                Ok(i) => opaque@.len() > 0 && i.spec_authority() == self.spec_authority() && i.spec_opaque() == opaque@,
                Err(e) => opaque@.len() == 0 && e == FontCatalogRejection::InvalidAcquisitionIdentity,
            },
    {
        FontContainerAcquisitionIdentity::try_new(self.authority.duplicate(), opaque)
    }

    pub fn evidence_fence(
        &self,
        confirmed: Vec<DependencyEvidenceKey>,
        generation: Vec<u8>,
        through_cursor: Option<ProviderCursor>,
    ) -> (r: Result<EvidenceFence, EvidenceValueRejection>)
        ensures
            fence_outcome(r, self.spec_authority(), confirmed@, generation@, through_cursor),
    {
        EvidenceFence::try_new(self.authority.duplicate(), confirmed, generation, through_cursor)
    }

    pub fn provider_cursor(&self, opaque: Vec<u8>) -> (r: Result<ProviderCursor, EvidenceValueRejection>)
        ensures
            match r {
                Ok(c) => opaque@.len() > 0 && c.spec_provider() == self.spec_authority() && c.spec_opaque() == opaque@,
                Err(e) => opaque@.len() == 0 && e == EvidenceValueRejection::Empty,
            },
    {
        ProviderCursor::try_new(self.authority.duplicate(), opaque)
    }
}

/// A position in an authority's change feed.
#[derive(Clone, Debug, Eq, PartialEq)]
pub struct ProviderCursor {
    provider: AuthorityInstanceIdentity,
    opaque: Vec<u8>,
}

impl ProviderCursor {
    pub closed spec fn spec_provider(&self) -> Seq<char> {
        self.provider@
    }

    pub closed spec fn spec_opaque(&self) -> Seq<u8> {
        self.opaque@
    }

    pub(crate) fn try_new(provider: AuthorityInstanceIdentity, opaque: Vec<u8>) -> (r: Result<
        Self,
        EvidenceValueRejection,
    >)
        ensures
            match r {
                Ok(c) => opaque@.len() > 0 && c.spec_provider() == provider@ && c.spec_opaque() == opaque@,
                Err(e) => opaque@.len() == 0 && e == EvidenceValueRejection::Empty,
            },
    {
        if opaque.len() == 0 {
            return Err(EvidenceValueRejection::Empty);
        }
        Ok(ProviderCursor { provider, opaque })
    }

    pub fn opaque(&self) -> (r: &[u8])
        ensures
            r@ == self.spec_opaque(),
    {
        self.opaque.as_slice()
    }

    pub fn provider(&self) -> (r: &AuthorityInstanceIdentity)
        ensures
            r@ == self.spec_provider(),
    {
        &self.provider
    }
}

/// Why a fence cannot be raised, if it cannot, checked in this order: its
/// generation is empty, a confirmed key belongs to another authority, or the
/// cursor belongs to another authority.
pub open spec fn fence_rejection(
    authority: Seq<char>,
    confirmed: Seq<DependencyEvidenceKey>,
    generation: Seq<u8>,
    through_cursor: Option<ProviderCursor>,
) -> Option<EvidenceValueRejection> {
    if generation.len() == 0 {
        Some(EvidenceValueRejection::Empty)
    } else if exists|i: int| 0 <= i < confirmed.len() && #[trigger] confirmed[i].spec_authority() != authority {
        Some(EvidenceValueRejection::WrongAuthority)
    } else if through_cursor matches Some(c) && c.spec_provider() != authority {
        Some(EvidenceValueRejection::IncoherentCursor)
    } else {
        None
    }
}

/// Whether `r` is the outcome of fencing `confirmed` keys of `authority` at
/// `generation`: refused exactly as `fence_rejection` says, and otherwise a
/// fence that holds exactly the authority and the given values.
pub open spec fn fence_outcome(
    r: Result<EvidenceFence, EvidenceValueRejection>,
    authority: Seq<char>,
    confirmed: Seq<DependencyEvidenceKey>,
    generation: Seq<u8>,
    through_cursor: Option<ProviderCursor>,
) -> bool {
    match r {
        Ok(f) => fence_rejection(authority, confirmed, generation, through_cursor) is None && f.spec_authority()
            == authority && f.spec_confirmed() == confirmed && f.spec_generation() == generation
            && f.spec_through_cursor() == through_cursor,
        Err(e) => fence_rejection(authority, confirmed, generation, through_cursor) == Some(e),
    }
}

/// A fence is determined by its authority and its values: two outcomes of
/// fencing the same keys of the same authority at the same generation and
/// cursor (as `AcquisitionControls::evidence_fence` does with the controls'
/// authority, and `EvidenceFence::try_new` with a given one) are both
/// refusals with the same reason, or both fences with the same authority,
/// keys, generation and cursor.
pub proof fn lemma_fence_outcome_determined(
    r1: Result<EvidenceFence, EvidenceValueRejection>,
    r2: Result<EvidenceFence, EvidenceValueRejection>,
    authority: Seq<char>,
    confirmed: Seq<DependencyEvidenceKey>,
    generation: Seq<u8>,
    through_cursor: Option<ProviderCursor>,
)
    requires
        fence_outcome(r1, authority, confirmed, generation, through_cursor),
        fence_outcome(r2, authority, confirmed, generation, through_cursor),
    ensures
        r1 is Ok <==> r2 is Ok,
        r1 is Err ==> r1 == r2,
        r1 matches Ok(f1) ==> (r2 matches Ok(f2) && f1.spec_authority() == f2.spec_authority()
            && f1.spec_confirmed() == f2.spec_confirmed() && f1.spec_generation() == f2.spec_generation()
            && f1.spec_through_cursor() == f2.spec_through_cursor()),
{
}

/// The keys an authority confirmed unchanged as of one generation.
#[derive(Clone, Debug)]
pub struct EvidenceFence {
    authority: AuthorityInstanceIdentity,
    confirmed: Vec<DependencyEvidenceKey>,
    generation: Vec<u8>,
    through_cursor: Option<ProviderCursor>,
}

impl EvidenceFence {
    /// The authority whose keys the fence confirms.
    pub closed spec fn spec_authority(&self) -> Seq<char> {
        self.authority@
    }

    pub closed spec fn spec_confirmed(&self) -> Seq<DependencyEvidenceKey> {
        self.confirmed@
    }

    pub closed spec fn spec_generation(&self) -> Seq<u8> {
        self.generation@
    }

    pub closed spec fn spec_through_cursor(&self) -> Option<ProviderCursor> {
        self.through_cursor
    }

    pub(crate) fn try_new(
        authority: AuthorityInstanceIdentity,
        confirmed: Vec<DependencyEvidenceKey>,
        generation: Vec<u8>,
        through_cursor: Option<ProviderCursor>,
    ) -> (r: Result<Self, EvidenceValueRejection>)
        ensures
            fence_outcome(r, authority@, confirmed@, generation@, through_cursor),
    {
        if generation.len() == 0 {
            return Err(EvidenceValueRejection::Empty);
        }
        let mut i: usize = 0;
        while i < confirmed.len()
            invariant
                i <= confirmed@.len(),
                generation@.len() > 0,
                forall|k: int| 0 <= k < i ==> #[trigger] confirmed@[k].spec_authority() == authority@,
            decreases confirmed@.len() - i,
        {
            if !confirmed[i].authority().same_as(&authority) {
                assert(confirmed@[i as int].spec_authority() != authority@);
                return Err(EvidenceValueRejection::WrongAuthority);
            }
            i = i + 1;
        }
        if let Some(c) = &through_cursor {
            if !c.provider().same_as(&authority) {
                return Err(EvidenceValueRejection::IncoherentCursor);
            }
        }
        Ok(EvidenceFence { authority, confirmed, generation, through_cursor })
    }

    pub fn confirmed(&self) -> (r: &[DependencyEvidenceKey])
        ensures
            r@ == self.spec_confirmed(),
    {
        self.confirmed.as_slice()
    }

    pub fn generation(&self) -> (r: &[u8])
        ensures
            r@ == self.spec_generation(),
    {
        self.generation.as_slice()
    }

    pub fn through_cursor(&self) -> (r: Option<&ProviderCursor>)
        ensures
            match r {
                Some(c) => self.spec_through_cursor() == Some(*c),
                None => self.spec_through_cursor() is None,
            },
    {
        self.through_cursor.as_ref()
    }
}

/// Why a safe code cannot be reported, if it cannot: it is empty or not
/// namespaced.
pub open spec fn safe_code_rejection(s: Seq<char>) -> Option<EvidenceValueRejection> {
    if s.len() == 0 {
        Some(EvidenceValueRejection::Empty)
    } else if crate::syntax::namespaced_rejection(s) is Some {
        Some(EvidenceValueRejection::InvalidSafeCode)
    } else {
        None
    }
}

fn check_safe_code(s: &str) -> (r: Option<EvidenceValueRejection>)
    ensures
        r == safe_code_rejection(s@),
{
    let chars = crate::text::chars_of(s);
    if chars.len() == 0 {
        Some(EvidenceValueRejection::Empty)
    } else if crate::syntax::check_namespaced(chars.as_slice()).is_some() {
        Some(EvidenceValueRejection::InvalidSafeCode)
    } else {
        None
    }
}

/// What changed in revalidated evidence, as a safe code.
#[derive(Clone, Debug)]
pub struct EvidenceChange {
    safe_code: String,
}

impl EvidenceChange {
    pub closed spec fn spec_safe_code(&self) -> Seq<char> {
        self.safe_code@
    }

    pub fn try_new(safe_code: &str) -> (r: Result<Self, EvidenceValueRejection>)
        ensures
            match r {
                Ok(c) => safe_code_rejection(safe_code@) is None && c.spec_safe_code() == safe_code@,
                Err(e) => safe_code_rejection(safe_code@) == Some(e),
            },
    {
        if let Some(e) = check_safe_code(safe_code) {
            return Err(e);
        }
        Ok(EvidenceChange { safe_code: safe_code.to_owned() })
    }

    pub fn safe_code(&self) -> (r: &str)
        ensures
            r@ == self.spec_safe_code(),
    {
        self.safe_code.as_str()
    }
}

/// Why revalidation failed, as a safe code.
#[derive(Clone, Debug)]
pub struct EvidenceFailure {
    safe_code: String,
}

impl EvidenceFailure {
    pub closed spec fn spec_safe_code(&self) -> Seq<char> {
        self.safe_code@
    }

    pub fn try_new(safe_code: &str) -> (r: Result<Self, EvidenceValueRejection>)
        ensures
            match r {
                Ok(c) => safe_code_rejection(safe_code@) is None && c.spec_safe_code() == safe_code@,
                Err(e) => safe_code_rejection(safe_code@) == Some(e),
            },
    {
        if let Some(e) = check_safe_code(safe_code) {
            return Err(e);
        }
        Ok(EvidenceFailure { safe_code: safe_code.to_owned() })
    }

    pub fn safe_code(&self) -> (r: &str)
        ensures
            r@ == self.spec_safe_code(),
    {
        self.safe_code.as_str()
    }
}

/// The evidence capabilities revalidation needed, and those the authority has.
#[derive(Clone, Debug)]
pub struct InsufficientEvidenceCapability {
    required: AuthorityEvidenceCapabilities,
    available: AuthorityEvidenceCapabilities,
}

impl InsufficientEvidenceCapability {
    pub closed spec fn spec_required(&self) -> AuthorityEvidenceCapabilities {
        self.required
    }

    pub closed spec fn spec_available(&self) -> AuthorityEvidenceCapabilities {
        self.available
    }

    pub fn new(required: AuthorityEvidenceCapabilities, available: AuthorityEvidenceCapabilities) -> (r: Self)
        ensures
            r.spec_required() == required,
            r.spec_available() == available,
    {
        InsufficientEvidenceCapability { required, available }
    }

    pub fn required(&self) -> (r: AuthorityEvidenceCapabilities)
        ensures
            r == self.spec_required(),
    {
        self.required
    }

    pub fn available(&self) -> (r: AuthorityEvidenceCapabilities)
        ensures
            r == self.spec_available(),
    {
        self.available
    }
}

#[derive(Clone, Debug)]
pub struct EvidenceRevalidationRequest {
    pub keys: Vec<DependencyEvidenceKey>,
}

pub enum EvidenceRevalidationOutcome {
    Clean(EvidenceFence),
    Changed(EvidenceChange),
    InsufficientCapability(InsufficientEvidenceCapability),
    Failed(EvidenceFailure),
    ResourceLimit,
    Cancelled,
    Deadline,
}

#[derive(Clone, Debug)]
pub struct AuthorityPrivateCacheCapabilityProjection {
    pub class: crate::OperationalCapabilityClass,
    pub policy: AuthorityCachePolicy,
    pub isolation_domain_present: bool,
    pub network: crate::SelectedNetworkContract,
}

#[derive(Clone, Debug)]
pub struct AuthorityCapabilitySpec {
    pub class: crate::OperationalCapabilityClass,
    pub ordered_source_classes: Vec<AcquisitionSourceClass>,
    pub evidence: AuthorityEvidenceCapabilities,
    pub network: crate::SelectedNetworkContract,
    pub resolution_cache: AuthorityCachePolicy,
    pub private_caches: Vec<AuthorityPrivateCacheCapabilityProjection>,
}

/// Whether a source class serves fonts only.
pub open spec fn font_only_source(c: AcquisitionSourceClass) -> bool {
    c == AcquisitionSourceClass::SystemFont || c == AcquisitionSourceClass::EngineEmbeddedFont
}

/// Why an authority's declared capabilities are incoherent, if they are,
/// checked in this order: it names no source; a package authority names a
/// font-only source; it promises no network yet names the network as a
/// source; or it uses a resolution cache without naming the cache as a source.
pub open spec fn authority_descriptor_rejection(
    for_packages: bool,
    sources: Seq<AcquisitionSourceClass>,
    network: crate::SelectedNetworkContract,
    resolution_cache: AuthorityCachePolicy,
) -> Option<AuthorityCapabilityDescriptorRejection> {
    if sources.len() == 0 {
        Some(AuthorityCapabilityDescriptorRejection::EmptySources)
    } else if for_packages && exists|i: int| 0 <= i < sources.len() && font_only_source(#[trigger] sources[i]) {
        Some(AuthorityCapabilityDescriptorRejection::WrongRole)
    } else if network == crate::SelectedNetworkContract::NoNetwork && sources.contains(AcquisitionSourceClass::Network) {
        Some(AuthorityCapabilityDescriptorRejection::IncoherentNetworkContract)
    } else if resolution_cache != AuthorityCachePolicy::Disabled && !sources.contains(AcquisitionSourceClass::Cache) {
        Some(AuthorityCapabilityDescriptorRejection::IncoherentCachePolicy)
    } else {
        None
    }
}

fn contains_source(v: &[AcquisitionSourceClass], c: AcquisitionSourceClass) -> (r: bool)
    ensures
        r == v@.contains(c),
{
    let mut i: usize = 0;
    while i < v.len()
        invariant
            i <= v@.len(),
            forall|k: int| 0 <= k < i ==> v@[k] != c,
        decreases v@.len() - i,
    {
        if v[i] == c {
            return true;
        }
        i = i + 1;
    }
    false
}

fn check_authority_descriptor(
    for_packages: bool,
    sources: &[AcquisitionSourceClass],
    network: crate::SelectedNetworkContract,
    resolution_cache: AuthorityCachePolicy,
) -> (r: Option<AuthorityCapabilityDescriptorRejection>)
    ensures
        r == authority_descriptor_rejection(for_packages, sources@, network, resolution_cache),
{
    if sources.len() == 0 {
        return Some(AuthorityCapabilityDescriptorRejection::EmptySources);
    }
    if for_packages {
        let mut i: usize = 0;
        while i < sources.len()
            invariant
                i <= sources@.len(),
                sources@.len() > 0,
                for_packages,
                forall|k: int| 0 <= k < i ==> !font_only_source(#[trigger] sources@[k]),
            decreases sources@.len() - i,
        {
            if sources[i] == AcquisitionSourceClass::SystemFont || sources[i]
                == AcquisitionSourceClass::EngineEmbeddedFont {
                assert(font_only_source(sources@[i as int]));
                return Some(AuthorityCapabilityDescriptorRejection::WrongRole);
            }
            i = i + 1;
        }
    }
    if network == crate::SelectedNetworkContract::NoNetwork && contains_source(sources, AcquisitionSourceClass::Network) {
        return Some(AuthorityCapabilityDescriptorRejection::IncoherentNetworkContract);
    }
    if resolution_cache != AuthorityCachePolicy::Disabled && !contains_source(sources, AcquisitionSourceClass::Cache) {
        return Some(AuthorityCapabilityDescriptorRejection::IncoherentCachePolicy);
    }
    None
}

/// The capabilities that one authority instance declares.
#[derive(Clone, Debug)]
pub struct PackageAuthorityCapabilityDescriptor {
    instance: AuthorityInstanceIdentity,
    spec: AuthorityCapabilitySpec,
}

impl PackageAuthorityCapabilityDescriptor {
    pub closed spec fn spec_instance(&self) -> Seq<char> {
        self.instance@
    }

    pub closed spec fn spec_capabilities(&self) -> AuthorityCapabilitySpec {
        self.spec
    }

    pub fn try_new(instance: AuthorityInstanceIdentity, spec: AuthorityCapabilitySpec) -> (r: Result<
        Self,
        AuthorityCapabilityDescriptorRejection,
    >)
        ensures
            match r {
                Ok(d) => authority_descriptor_rejection(
                    true,
                    spec.ordered_source_classes@,
                    spec.network,
                    spec.resolution_cache,
                ) is None && d.spec_instance() == instance@ && d.spec_capabilities() == spec,
                Err(e) => authority_descriptor_rejection(
                    true,
                    spec.ordered_source_classes@,
                    spec.network,
                    spec.resolution_cache,
                ) == Some(e),
            },
    {
        if let Some(e) = check_authority_descriptor(
            true,
            spec.ordered_source_classes.as_slice(),
            spec.network,
            spec.resolution_cache,
        ) {
            return Err(e);
        }
        Ok(PackageAuthorityCapabilityDescriptor { instance, spec })
    }

    pub fn descriptor_version(&self) -> (r: u32)
        ensures
            r == 1,
    {
        1
    }

    pub fn instance(&self) -> (r: &AuthorityInstanceIdentity)
        ensures
            r@ == self.spec_instance(),
    {
        &self.instance
    }

    pub fn class(&self) -> (r: &crate::OperationalCapabilityClass)
        ensures
            *r == self.spec_capabilities().class,
    {
        &self.spec.class
    }

    pub fn ordered_source_classes(&self) -> (r: &[AcquisitionSourceClass])
        ensures
            r@ == self.spec_capabilities().ordered_source_classes@,
    {
        self.spec.ordered_source_classes.as_slice()
    }

    pub fn evidence(&self) -> (r: AuthorityEvidenceCapabilities)
        ensures
            r == self.spec_capabilities().evidence,
    {
        self.spec.evidence
    }

    pub fn network(&self) -> (r: crate::SelectedNetworkContract)
        ensures
            r == self.spec_capabilities().network,
    {
        self.spec.network
    }

    pub fn resolution_cache(&self) -> (r: AuthorityCachePolicy)
        ensures
            r == self.spec_capabilities().resolution_cache,
    {
        self.spec.resolution_cache
    }

    pub fn private_caches(&self) -> (r: &[AuthorityPrivateCacheCapabilityProjection])
        ensures
            r@ == self.spec_capabilities().private_caches@,
    {
        self.spec.private_caches.as_slice()
    }
}

/// The capabilities that one authority instance declares.
#[derive(Clone, Debug)]
pub struct FontAuthorityCapabilityDescriptor {
    instance: AuthorityInstanceIdentity,
    spec: AuthorityCapabilitySpec,
}

impl FontAuthorityCapabilityDescriptor {
    pub closed spec fn spec_instance(&self) -> Seq<char> {
        self.instance@
    }

    pub closed spec fn spec_capabilities(&self) -> AuthorityCapabilitySpec {
        self.spec
    }

    pub fn try_new(instance: AuthorityInstanceIdentity, spec: AuthorityCapabilitySpec) -> (r: Result<
        Self,
        AuthorityCapabilityDescriptorRejection,
    >)
        ensures
            match r {
                Ok(d) => authority_descriptor_rejection(
                    false,
                    spec.ordered_source_classes@,
                    spec.network,
                    spec.resolution_cache,
                ) is None && d.spec_instance() == instance@ && d.spec_capabilities() == spec,
                Err(e) => authority_descriptor_rejection(
                    false,
                    spec.ordered_source_classes@,
                    spec.network,
                    spec.resolution_cache,
                ) == Some(e),
            },
    {
        if let Some(e) = check_authority_descriptor(
            false,
            spec.ordered_source_classes.as_slice(),
            spec.network,
            spec.resolution_cache,
        ) {
            return Err(e);
        }
        Ok(FontAuthorityCapabilityDescriptor { instance, spec })
    }

    pub fn descriptor_version(&self) -> (r: u32)
        ensures
            r == 1,
    {
        1
    }

    pub fn instance(&self) -> (r: &AuthorityInstanceIdentity)
        ensures
            r@ == self.spec_instance(),
    {
        &self.instance
    }

    pub fn class(&self) -> (r: &crate::OperationalCapabilityClass)
        ensures
            *r == self.spec_capabilities().class,
    {
        &self.spec.class
    }

    pub fn ordered_source_classes(&self) -> (r: &[AcquisitionSourceClass])
        ensures
            r@ == self.spec_capabilities().ordered_source_classes@,
    {
        self.spec.ordered_source_classes.as_slice()
    }

    pub fn evidence(&self) -> (r: AuthorityEvidenceCapabilities)
        ensures
            r == self.spec_capabilities().evidence,
    {
        self.spec.evidence
    }

    pub fn network(&self) -> (r: crate::SelectedNetworkContract)
        ensures
            r == self.spec_capabilities().network,
    {
        self.spec.network
    }

    pub fn resolution_cache(&self) -> (r: AuthorityCachePolicy)
        ensures
            r == self.spec_capabilities().resolution_cache,
    {
        self.spec.resolution_cache
    }

    pub fn private_caches(&self) -> (r: &[AuthorityPrivateCacheCapabilityProjection])
        ensures
            r@ == self.spec_capabilities().private_caches@,
    {
        self.spec.private_caches.as_slice()
    }
}

/// A package authority supplied by an adapter.
pub trait SyncPackageAuthority {
    fn instance_identity(&self) -> &AuthorityInstanceIdentity;

    fn descriptor(&self) -> &PackageAuthorityCapabilityDescriptor;

    fn acquire(&self, request: PackageAcquisitionRequest, controls: AcquisitionControls<'_>) -> DependencyAcquisitionOutcome<
        CompletePackageTree,
    >;

    fn revalidate(&self, request: EvidenceRevalidationRequest, controls: AcquisitionControls<'_>) -> EvidenceRevalidationOutcome;
}

/// A font authority supplied by an adapter.
pub trait SyncFontAuthority {
    fn instance_identity(&self) -> &AuthorityInstanceIdentity;

    fn descriptor(&self) -> &FontAuthorityCapabilityDescriptor;

    fn catalog(&self, request: FontCatalogRequest, controls: AcquisitionControls<'_>) -> DependencyAcquisitionOutcome<
        FontCatalogAcquisition,
    >;

    fn acquire_container(&self, request: FontContainerAcquisitionRequest, controls: AcquisitionControls<'_>) -> DependencyAcquisitionOutcome<
        StableByteValue,
    >;

    fn revalidate(&self, request: EvidenceRevalidationRequest, controls: AcquisitionControls<'_>) -> EvidenceRevalidationOutcome;
}

/// After a new fact is recorded, the builder finds it, last, with the
/// outcome it was recorded with: recording it again with that outcome is
/// accepted and changes nothing, and recording it with another outcome is
/// refused as a contradiction.
pub proof fn lemma_recorded_fact_is_found(
    before: DependencyEvidenceBuilder,
    after: DependencyEvidenceBuilder,
    key: DependencyEvidenceKey,
    outcome: EvidenceFactOutcome,
)
    requires
        before.spec_wf(),
        before.spec_index_of(key) is None,
        after.spec_keys() == before.spec_keys().push(key),
        after.spec_outcomes() == before.spec_outcomes().push(outcome),
    ensures
        after.spec_wf(),
        after.spec_index_of(key) == Some(before.spec_keys().len() as int),
        after.spec_outcomes()[before.spec_keys().len() as int] == outcome,
{
    let n = before.spec_keys().len() as int;
    assert(after.spec_keys()[n].spec_same_fact(&key));
    let i = choose|i: int| 0 <= i < after.spec_keys().len() && #[trigger] after.spec_keys()[i].spec_same_fact(&key);
    if i < n {
        assert(after.spec_keys()[i] == before.spec_keys()[i]);
        assert(before.spec_keys()[i].spec_same_fact(&key));
    }
    assert forall|a: int, b: int| 0 <= a < b < after.spec_keys().len() implies !after.spec_keys()[a].spec_same_fact(
        &after.spec_keys()[b],
    ) by {
        assert(after.spec_keys()[a] == before.spec_keys()[a]);
        if b < n {
            assert(after.spec_keys()[b] == before.spec_keys()[b]);
        } else if before.spec_keys()[a].spec_same_fact(&key) {
            assert(exists|i: int| 0 <= i < before.spec_keys().len() && #[trigger] before.spec_keys()[i].spec_same_fact(&key));
        }
    }
}

} // verus!
