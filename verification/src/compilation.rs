//! Compilation requests, outputs, results and their reports, and the
//! semantic cache that keeps compiled results.

use vstd::prelude::*;
use core::cmp::Ordering;
use vstd::std_specs::cmp::PartialOrdSpec;
use crate::{
    AdmissionRefusal, AdmittedOperationResourceLimits, CacheIsolationDomain, CompilationArtifactIdentity,
    CompilationIdentity, CompilationRequestCommitment, CompilationResultIdentity, EngineIdentity,
    EngineNeutralCompilationIntentIdentity, ExporterIdentity, FontRequirementIdentity, NonZeroUsize,
    OperationDeadline, OperationLimitSet, OrdinaryAdmission, PackageRequirementIdentity, ProjectPath,
    TypstInputKey, TypstInputValue,
};
use crate::transport::StableByteValue;

verus! {

/// An engine feature, named by a lower-case identifier.
#[derive(Clone, Debug, Eq, Ord, PartialEq, PartialOrd)]
pub struct EngineFeature {
    value: String,
}

impl View for EngineFeature {
    type V = Seq<char>;

    closed spec fn view(&self) -> Seq<char> {
        self.value@
    }
}

impl EngineFeature {
    pub fn parse(_admission: &OrdinaryAdmission, value: &str) -> (r: Result<Self, crate::DomainValueRejection>)
        ensures
            match r {
                Ok(f) => crate::syntax::feature_rejection(value@) is None && f@ == value@,
                Err(e) => crate::syntax::feature_rejection(value@) == Some(e),
            },
    {
        match crate::syntax::check_feature(&crate::text::chars_of(value)) {
            Some(e) => Err(e),
            None => Ok(EngineFeature { value: value.to_owned() }),
        }
    }

    pub fn as_str(&self) -> (r: &str)
        ensures
            r@ == self@,
    {
        self.value.as_str()
    }

    pub fn same_as(&self, other: &Self) -> (r: bool)
        ensures
            r == (self@ == other@),
    {
        self.value == other.value
    }
}

/// The Typst document model selected for creation or compilation.
#[derive(Clone, Copy, Debug, Eq, PartialEq, PartialOrd, Ord, Hash, Structural)]
pub enum TypstTarget {
    Paged,
    Html,
}

#[derive(Clone, Copy, Debug, Eq, PartialEq, Structural)]
pub enum CompilationRequestIssueCode {
    InvalidSyntax,
    NonCanonicalValue,
    DuplicateLogicalKey,
    UnknownPackPath,
    InvalidUtf8Value,
    UnsupportedFeature,
    InapplicableFormatControl,
    IncompatibleOutputControls,
    OutOfEngineRange,
    MemberLimitExceeded,
    AggregateLimitExceeded,
    FormatCeilingExceeded,
}

#[derive(Clone, Copy, Debug, Eq, PartialEq, Structural)]
pub enum CompilationRequestIssue {
    InvalidPackOverride,
    InvalidTypstInput,
    UnsupportedFeature,
    InvalidOutputSpecification,
    InvalidCanonicalDiagnosticPolicy,
    PackFormatCeilingExceeded,
}

/// Seconds from the Unix epoch, excluding the one value that has no negation.
#[derive(Clone, Copy, Debug, Eq, Ord, PartialEq, Structural)]
pub struct SignedUnixSeconds {
    value: i64,
}

impl SignedUnixSeconds {
    pub closed spec fn spec_get(self) -> i64 {
        self.value
    }

    pub fn try_new(value: i64) -> (r: Result<Self, CompilationRequestIssueCode>)
        ensures
            match r {
                Ok(s) => value != i64::MIN && s.spec_get() == value,
                Err(e) => value == i64::MIN && e == CompilationRequestIssueCode::OutOfEngineRange,
            },
    {
        if value != i64::MIN {
            Ok(SignedUnixSeconds { value })
        } else {
            Err(CompilationRequestIssueCode::OutOfEngineRange)
        }
    }

    pub fn get(self) -> (r: i64)
        ensures
            r == self.spec_get(),
    {
        self.value
    }
}

/// Two instants are equal exactly when their seconds are, and one comes
/// before the other exactly when it has fewer seconds.
pub proof fn lemma_unix_seconds_order(a: SignedUnixSeconds, b: SignedUnixSeconds)
    ensures
        (a == b) <==> a.spec_get() == b.spec_get(),
        (a.partial_cmp_spec(&b) == Some(Ordering::Less)) <==> a.spec_get() < b.spec_get(),
        (a.partial_cmp_spec(&b) == Some(Ordering::Greater)) <==> b.spec_get() < a.spec_get(),
{
}

#[derive(Clone, Copy, Debug, Eq, PartialEq)]
pub enum CompilationDocumentTime {
    Absent,
    Exact(SignedUnixSeconds),
}

#[derive(Clone, Copy, Debug, Eq, PartialEq)]
pub enum PdfCreationTime {
    Omitted,
    Exact(SignedUnixSeconds),
}

#[derive(Clone, Copy, Debug, Eq, PartialEq, Structural)]
pub enum PdfTagging {
    Automatic,
    Enabled,
    Disabled,
}

#[derive(Clone, Debug, Eq, PartialEq)]
pub enum PdfIdentifierMode {
    Automatic,
    Omit,
    Custom(String),
}

#[derive(Clone, Debug, Eq, PartialEq)]
pub enum PdfCreatorMode {
    Automatic,
    Omit,
    Custom(String),
}

#[derive(Clone, Copy, Debug, Eq, Ord, PartialEq, PartialOrd, Structural)]
pub enum PdfStandard {
    Pdf14,
    Pdf15,
    Pdf16,
    Pdf17,
    Pdf20,
    PdfA1B,
    PdfA1A,
    PdfA2B,
    PdfA2U,
    PdfA2A,
    PdfA3B,
    PdfA3U,
    PdfA3A,
    PdfA4,
    PdfA4F,
    PdfA4E,
    PdfUa1,
}

/// The registry number of a PDF standard: its position in declaration order,
/// counted from one.
pub open spec fn pdf_standard_registry_value(s: PdfStandard) -> u8 {
    match s {
        PdfStandard::Pdf14 => 1,
        PdfStandard::Pdf15 => 2,
        PdfStandard::Pdf16 => 3,
        PdfStandard::Pdf17 => 4,
        PdfStandard::Pdf20 => 5,
        PdfStandard::PdfA1B => 6,
        PdfStandard::PdfA1A => 7,
        PdfStandard::PdfA2B => 8,
        PdfStandard::PdfA2U => 9,
        PdfStandard::PdfA2A => 10,
        PdfStandard::PdfA3B => 11,
        PdfStandard::PdfA3U => 12,
        PdfStandard::PdfA3A => 13,
        PdfStandard::PdfA4 => 14,
        PdfStandard::PdfA4F => 15,
        PdfStandard::PdfA4E => 16,
        PdfStandard::PdfUa1 => 17,
    }
}

impl PdfStandard {
    pub fn registry_value(self) -> (r: u8)
        ensures
            r == pdf_standard_registry_value(self),
    {
        match self {
            PdfStandard::Pdf14 => 1,
            PdfStandard::Pdf15 => 2,
            PdfStandard::Pdf16 => 3,
            PdfStandard::Pdf17 => 4,
            PdfStandard::Pdf20 => 5,
            PdfStandard::PdfA1B => 6,
            PdfStandard::PdfA1A => 7,
            PdfStandard::PdfA2B => 8,
            PdfStandard::PdfA2U => 9,
            PdfStandard::PdfA2A => 10,
            PdfStandard::PdfA3B => 11,
            PdfStandard::PdfA3U => 12,
            PdfStandard::PdfA3A => 13,
            PdfStandard::PdfA4 => 14,
            PdfStandard::PdfA4F => 15,
            PdfStandard::PdfA4E => 16,
            PdfStandard::PdfUa1 => 17,
        }
    }
}

/// The identity text of a PDF standard: its version, or its conformance
/// part and level in lower case.
pub open spec fn pdf_standard_identity_text(s: PdfStandard) -> Seq<char> {
    match s {
        PdfStandard::Pdf14 => "1.4"@,
        PdfStandard::Pdf15 => "1.5"@,
        PdfStandard::Pdf16 => "1.6"@,
        PdfStandard::Pdf17 => "1.7"@,
        PdfStandard::Pdf20 => "2.0"@,
        PdfStandard::PdfA1B => "a-1b"@,
        PdfStandard::PdfA1A => "a-1a"@,
        PdfStandard::PdfA2B => "a-2b"@,
        PdfStandard::PdfA2U => "a-2u"@,
        PdfStandard::PdfA2A => "a-2a"@,
        PdfStandard::PdfA3B => "a-3b"@,
        PdfStandard::PdfA3U => "a-3u"@,
        PdfStandard::PdfA3A => "a-3a"@,
        PdfStandard::PdfA4 => "a-4"@,
        PdfStandard::PdfA4F => "a-4f"@,
        PdfStandard::PdfA4E => "a-4e"@,
        PdfStandard::PdfUa1 => "ua-1"@,
    }
}

/// The name of a standard that requires tagged PDF, if `s` is one: the
/// accessible conformance levels of PDF/A and PDF/UA.
pub open spec fn tag_requiring_name(s: PdfStandard) -> Option<Seq<char>> {
    match s {
        PdfStandard::PdfA1A => Some("PDF/A-1a"@),
        PdfStandard::PdfA2A => Some("PDF/A-2a"@),
        PdfStandard::PdfA3A => Some("PDF/A-3a"@),
        PdfStandard::PdfUa1 => Some("PDF/UA-1"@),
        _ => None,
    }
}

/// The identity text of a PDF standard.
pub fn pdf_standard_identity(standard: PdfStandard) -> (r: &'static str)
    ensures
        r@ == pdf_standard_identity_text(standard),
{
    match standard {
        PdfStandard::Pdf14 => "1.4",
        PdfStandard::Pdf15 => "1.5",
        PdfStandard::Pdf16 => "1.6",
        PdfStandard::Pdf17 => "1.7",
        PdfStandard::Pdf20 => "2.0",
        PdfStandard::PdfA1B => "a-1b",
        PdfStandard::PdfA1A => "a-1a",
        PdfStandard::PdfA2B => "a-2b",
        PdfStandard::PdfA2U => "a-2u",
        PdfStandard::PdfA2A => "a-2a",
        PdfStandard::PdfA3B => "a-3b",
        PdfStandard::PdfA3U => "a-3u",
        PdfStandard::PdfA3A => "a-3a",
        PdfStandard::PdfA4 => "a-4",
        PdfStandard::PdfA4F => "a-4f",
        PdfStandard::PdfA4E => "a-4e",
        PdfStandard::PdfUa1 => "ua-1",
    }
}

fn tag_requiring(standard: PdfStandard) -> (r: Option<&'static str>)
    ensures
        match tag_requiring_name(standard) {
            Some(n) => r matches Some(t) && t@ == n,
            None => r is None,
        },
{
    match standard {
        PdfStandard::PdfA1A => Some("PDF/A-1a"),
        PdfStandard::PdfA2A => Some("PDF/A-2a"),
        PdfStandard::PdfA3A => Some("PDF/A-3a"),
        PdfStandard::PdfUa1 => Some("PDF/UA-1"),
        _ => None,
    }
}

/// The name of the first of `standards` that requires tagged PDF, if any.
pub open spec fn first_tag_requiring(standards: Seq<PdfStandard>) -> Option<Seq<char>>
    decreases standards.len(),
{
    if standards.len() == 0 {
        None
    } else {
        match tag_requiring_name(standards[0]) {
            Some(n) => Some(n),
            None => first_tag_requiring(standards.subrange(1, standards.len() as int)),
        }
    }
}

/// The standards that require tagged PDF are exactly the accessible
/// conformance levels PDF/A-1a, PDF/A-2a and PDF/A-3a and PDF/UA-1: a list
/// of standards has one that requires tags exactly when it holds one of
/// these, and the name reported is that of the first of them in the list,
/// as its specification writes it.
pub proof fn lemma_tagged_standards(standards: Seq<PdfStandard>)
    ensures
        first_tag_requiring(standards) is Some <==> exists|i: int|
            0 <= i < standards.len() && (#[trigger] standards[i] == PdfStandard::PdfA1A || standards[i]
                == PdfStandard::PdfA2A || standards[i] == PdfStandard::PdfA3A || standards[i] == PdfStandard::PdfUa1),
        first_tag_requiring(standards) matches Some(n) ==> exists|i: int|
            0 <= i < standards.len() && (forall|j: int|
                0 <= j < i ==> !(#[trigger] standards[j] == PdfStandard::PdfA1A || standards[j] == PdfStandard::PdfA2A
                    || standards[j] == PdfStandard::PdfA3A || standards[j] == PdfStandard::PdfUa1)) && n == match
                standards[i] {
                PdfStandard::PdfA1A => "PDF/A-1a"@,
                PdfStandard::PdfA2A => "PDF/A-2a"@,
                PdfStandard::PdfA3A => "PDF/A-3a"@,
                PdfStandard::PdfUa1 => "PDF/UA-1"@,
                _ => Seq::<char>::empty(),
            } && (standards[i] == PdfStandard::PdfA1A || standards[i] == PdfStandard::PdfA2A || standards[i]
                == PdfStandard::PdfA3A || standards[i] == PdfStandard::PdfUa1),
    decreases standards.len(),
{
    if standards.len() > 0 {
        let rest = standards.subrange(1, standards.len() as int);
        lemma_tagged_standards(rest);
        assert forall|i: int| 0 <= i < rest.len() implies rest[i] == standards[i + 1] by {}
        if let Some(n) = first_tag_requiring(standards) {
            if tag_requiring_name(standards[0]) is None {
                let k = choose|k: int|
                    0 <= k < rest.len() && (forall|j: int|
                        0 <= j < k ==> !(#[trigger] rest[j] == PdfStandard::PdfA1A || rest[j] == PdfStandard::PdfA2A
                            || rest[j] == PdfStandard::PdfA3A || rest[j] == PdfStandard::PdfUa1)) && n == match rest[k] {
                        PdfStandard::PdfA1A => "PDF/A-1a"@,
                        PdfStandard::PdfA2A => "PDF/A-2a"@,
                        PdfStandard::PdfA3A => "PDF/A-3a"@,
                        PdfStandard::PdfUa1 => "PDF/UA-1"@,
                        _ => Seq::<char>::empty(),
                    } && (rest[k] == PdfStandard::PdfA1A || rest[k] == PdfStandard::PdfA2A || rest[k]
                        == PdfStandard::PdfA3A || rest[k] == PdfStandard::PdfUa1);
                assert forall|j: int| 0 <= j < k + 1 implies !(#[trigger] standards[j] == PdfStandard::PdfA1A
                    || standards[j] == PdfStandard::PdfA2A || standards[j] == PdfStandard::PdfA3A || standards[j]
                    == PdfStandard::PdfUa1) by {
                    if j > 0 {
                        assert(standards[j] == rest[j - 1]);
                    }
                }
                assert(standards[k + 1] == rest[k]);
            }
        }
        if exists|i: int|
            0 <= i < standards.len() && (#[trigger] standards[i] == PdfStandard::PdfA1A || standards[i]
                == PdfStandard::PdfA2A || standards[i] == PdfStandard::PdfA3A || standards[i] == PdfStandard::PdfUa1) {
            let i = choose|i: int|
                0 <= i < standards.len() && (#[trigger] standards[i] == PdfStandard::PdfA1A || standards[i]
                    == PdfStandard::PdfA2A || standards[i] == PdfStandard::PdfA3A || standards[i] == PdfStandard::PdfUa1);
            if i > 0 && tag_requiring_name(standards[0]) is None {
                assert(rest[i - 1] == standards[i]);
            }
        }
        if tag_requiring_name(standards[0]) is None {
            if exists|i: int|
                0 <= i < rest.len() && (#[trigger] rest[i] == PdfStandard::PdfA1A || rest[i] == PdfStandard::PdfA2A
                    || rest[i] == PdfStandard::PdfA3A || rest[i] == PdfStandard::PdfUa1) {
                let i = choose|i: int|
                    0 <= i < rest.len() && (#[trigger] rest[i] == PdfStandard::PdfA1A || rest[i] == PdfStandard::PdfA2A
                        || rest[i] == PdfStandard::PdfA3A || rest[i] == PdfStandard::PdfUa1);
                assert(standards[i + 1] == rest[i]);
            }
        }
    }
}

/// The name of the first of `standards` that requires tagged PDF, if any.
pub fn pdf_standard_requiring_tags(standards: &[PdfStandard]) -> (r: Option<&'static str>)
    ensures
        match first_tag_requiring(standards@) {
            Some(n) => r matches Some(t) && t@ == n,
            None => r is None,
        },
{
    let mut i: usize = 0;
    proof {
        assert(standards@.subrange(0, standards@.len() as int) =~= standards@);
    }
    while i < standards.len()
        invariant
            i <= standards@.len(),
            first_tag_requiring(standards@) == first_tag_requiring(standards@.subrange(i as int, standards@.len() as int)),
        decreases standards@.len() - i,
    {
        let ghost rest = standards@.subrange(i as int, standards@.len() as int);
        proof {
            assert(rest[0] == standards@[i as int]);
            assert(rest.subrange(1, rest.len() as int) =~= standards@.subrange(i + 1, standards@.len() as int));
        }
        if let Some(name) = tag_requiring(standards[i]) {
            return Some(name);
        }
        i = i + 1;
    }
    None
}

#[derive(Clone, Debug)]
pub enum CompilationOutputSpecification {
    Pdf(PdfOutputSpecification),
    Png(PngOutputSpecification),
    Svg(SvgOutputSpecification),
    Html(HtmlOutputSpecification),
}

impl CompilationOutputSpecification {
    /// The output format this specification asks for.
    pub fn format(&self) -> (r: crate::artifact_publication::OutputFormat)
        ensures
            r == match self {
                CompilationOutputSpecification::Pdf(_) => crate::artifact_publication::OutputFormat::Pdf,
                CompilationOutputSpecification::Png(_) => crate::artifact_publication::OutputFormat::Png,
                CompilationOutputSpecification::Svg(_) => crate::artifact_publication::OutputFormat::Svg,
                CompilationOutputSpecification::Html(_) => crate::artifact_publication::OutputFormat::Html,
            },
    {
        match self {
            CompilationOutputSpecification::Pdf(_) => crate::artifact_publication::OutputFormat::Pdf,
            CompilationOutputSpecification::Png(_) => crate::artifact_publication::OutputFormat::Png,
            CompilationOutputSpecification::Svg(_) => crate::artifact_publication::OutputFormat::Svg,
            CompilationOutputSpecification::Html(_) => crate::artifact_publication::OutputFormat::Html,
        }
    }

    /// The document model the output is compiled from: HTML for HTML, paged
    /// for the rest.
    pub fn target(&self) -> (r: TypstTarget)
        ensures
            r == (if self is Html {
                TypstTarget::Html
            } else {
                TypstTarget::Paged
            }),
    {
        match self {
            CompilationOutputSpecification::Html(_) => TypstTarget::Html,
            _ => TypstTarget::Paged,
        }
    }
}

pub enum CompilationRequestDeclaration {
    PackOverride {
        declaration_ordinal: u64,
        path: String,
        bytes: StableByteValue,
        origin: CompilationInventoryOrigin,
    },
    TypstInput {
        declaration_ordinal: u64,
        key: String,
        value: Vec<u8>,
        origin: CompilationInventoryOrigin,
    },
    DocumentTime {
        declaration_ordinal: u64,
        unix_seconds: Option<i64>,
        origin: CompilationInventoryOrigin,
    },
    Feature {
        declaration_ordinal: u64,
        identifier: String,
        origin: CompilationInventoryOrigin,
    },
}

pub struct CanonicalDiagnosticPolicyDeclarations {
    pub members: Vec<CanonicalDiagnosticPolicyDeclaration>,
}

pub enum CanonicalDiagnosticPolicyDeclaration {
    Version {
        declaration_ordinal: u64,
        value: u64,
        origin: CompilationInventoryOrigin,
    },
    MaxEntries {
        declaration_ordinal: u64,
        value: u64,
        origin: CompilationInventoryOrigin,
    },
    MaxCanonicalEntryBytes {
        declaration_ordinal: u64,
        value: u64,
        origin: CompilationInventoryOrigin,
    },
}

pub struct CompilationOutputDeclarations {
    pub format: CompilationOutputFormatDeclaration,
    pub controls: Vec<CompilationOutputControlDeclaration>,
}

pub struct CompilationOutputFormatDeclaration {
    pub declaration_ordinal: u64,
    pub value: String,
    pub origin: CompilationInventoryOrigin,
}

pub enum CompilationOutputControlDeclaration {
    PageRange {
        declaration_ordinal: u64,
        start: u64,
        end: u64,
        origin: CompilationInventoryOrigin,
    },
    PdfIdentifier {
        declaration_ordinal: u64,
        value: PdfIdentifierMode,
        origin: CompilationInventoryOrigin,
    },
    PdfCreator {
        declaration_ordinal: u64,
        value: PdfCreatorMode,
        origin: CompilationInventoryOrigin,
    },
    PdfCreationTime {
        declaration_ordinal: u64,
        unix_seconds: Option<i64>,
        origin: CompilationInventoryOrigin,
    },
    PdfStandard {
        declaration_ordinal: u64,
        identifier: String,
        origin: CompilationInventoryOrigin,
    },
    PdfTagging {
        declaration_ordinal: u64,
        value: PdfTagging,
        origin: CompilationInventoryOrigin,
    },
    PixelsPerInch {
        declaration_ordinal: u64,
        value_bits: u64,
        origin: CompilationInventoryOrigin,
    },
    Bleed {
        declaration_ordinal: u64,
        value: bool,
        origin: CompilationInventoryOrigin,
    },
    Pretty {
        declaration_ordinal: u64,
        value: bool,
        origin: CompilationInventoryOrigin,
    },
}

pub struct CompilationRequestIssueView {
    pub code: CompilationRequestIssueCode,
    pub role: CompilationRequestInventoryRole,
    pub declaration_ordinal: u64,
    pub referenced_inventory_ordinal: Option<u64>,
}

pub enum CompilationTerminal {
    RequestRejected(CompilationRequestRejection),
    Report(CompilationReport),
}

pub enum CompilationReportTerminalRef {
    Result(CompilationResult),
    OperationOutcome(CompilationOperationOutcome),
}

#[derive(Clone, Copy, Debug, Eq, PartialEq, Structural)]
pub enum CompilationRequestInventoryStatus {
    Effective,
    SuppliedCanonical,
    RejectedSafeValue,
    InvalidDeclaration,
}

#[derive(Clone, Copy, Debug, Eq, PartialEq, Structural)]
pub enum CompilationRequestInventoryRole {
    Pack,
    PackOverride,
    TypstInput,
    DocumentTime,
    Feature,
    Target,
    Output,
    Diagnostics,
    Engine,
    Exporter,
    PageSelection,
    PdfControl,
    PngPixelsPerInch,
    FormatControl,
    RequestLimit,
}

pub enum CompilationRequestInventoryEntryView {
    Pack {
        identity: crate::pack::PackIdentity,
        origin: CompilationInventoryOrigin,
        status: CompilationRequestInventoryStatus,
    },
    PackOverride {
        path: ProjectPath,
        exact_bytes: u64,
        commitment: Option<CompilationRequestCommitment>,
        origin: CompilationInventoryOrigin,
        status: CompilationRequestInventoryStatus,
        declaration_ordinal: Option<u64>,
    },
    TypstInput {
        key: TypstInputKey,
        exact_utf8_bytes: u64,
        commitment: CompilationRequestCommitment,
        origin: CompilationInventoryOrigin,
        status: CompilationRequestInventoryStatus,
        declaration_ordinal: Option<u64>,
    },
    DocumentTime {
        value: CompilationDocumentTime,
        origin: CompilationInventoryOrigin,
        status: CompilationRequestInventoryStatus,
        declaration_ordinal: Option<u64>,
    },
    Feature {
        value: EngineFeature,
        origin: CompilationInventoryOrigin,
        status: CompilationRequestInventoryStatus,
        declaration_ordinal: Option<u64>,
    },
    Target {
        value: TypstTarget,
        origin: CompilationInventoryOrigin,
        status: CompilationRequestInventoryStatus,
        declaration_ordinal: Option<u64>,
    },
    Output(CompilationOutputInventoryView),
    Diagnostics(CanonicalDiagnosticInventoryView),
    Engine {
        identity: EngineIdentity,
        origin: CompilationInventoryOrigin,
        status: CompilationRequestInventoryStatus,
    },
    Exporter {
        identity: ExporterIdentity,
        origin: CompilationInventoryOrigin,
        status: CompilationRequestInventoryStatus,
    },
    InvalidDeclaration {
        role: CompilationRequestInventoryRole,
        declaration_ordinal: u64,
        origin: CompilationInventoryOrigin,
        status: CompilationRequestInventoryStatus,
        issues: Vec<CompilationRequestIssueCode>,
        referenced_safe_inventory_ordinal: Option<u64>,
    },
}

pub struct CanonicalDiagnosticInventoryView {
    pub effective_policy: Option<CanonicalDiagnosticPolicy>,
    pub version: InventoryLeaf<u64>,
    pub max_entries: InventoryLeaf<u64>,
    pub max_canonical_entry_bytes: InventoryLeaf<u64>,
    pub status: CompilationRequestInventoryStatus,
}

pub enum CompilationOutputInventoryView {
    Pdf(PdfOutputInventoryView),
    Png(PngOutputInventoryView),
    Svg(SvgOutputInventoryView),
    Html(HtmlOutputInventoryView),
}

#[derive(Clone, Copy, Debug, Eq, PartialEq, Structural)]
pub enum CompilationOutputFormat {
    Pdf,
    Png,
    Svg,
    Html,
}

pub struct InventoryLeaf<T> {
    pub value: T,
    pub origin: CompilationInventoryOrigin,
    pub status: CompilationRequestInventoryStatus,
    pub declaration_ordinal: Option<u64>,
}

pub enum PageSelectionInventoryView {
    All {
        origin: CompilationInventoryOrigin,
        status: CompilationRequestInventoryStatus,
    },
    Ranges(Vec<InventoryLeaf<(u32, u32)>>),
}

pub struct PdfOutputInventoryView {
    pub format: InventoryLeaf<CompilationOutputFormat>,
    pub pages: PageSelectionInventoryView,
    pub identifier: InventoryLeaf<PdfIdentifierMode>,
    pub creator: InventoryLeaf<PdfCreatorMode>,
    pub creation_time: InventoryLeaf<PdfCreationTime>,
    pub standards: Vec<InventoryLeaf<PdfStandard>>,
    pub tagging: InventoryLeaf<PdfTagging>,
    pub pretty: InventoryLeaf<bool>,
    pub status: CompilationRequestInventoryStatus,
}

pub struct PngOutputInventoryView {
    pub format: InventoryLeaf<CompilationOutputFormat>,
    pub pages: PageSelectionInventoryView,
    pub pixels_per_inch: InventoryLeaf<PngPixelsPerInch>,
    pub bleed: InventoryLeaf<bool>,
    pub status: CompilationRequestInventoryStatus,
}

pub struct SvgOutputInventoryView {
    pub format: InventoryLeaf<CompilationOutputFormat>,
    pub pages: PageSelectionInventoryView,
    pub bleed: InventoryLeaf<bool>,
    pub pretty: InventoryLeaf<bool>,
    pub status: CompilationRequestInventoryStatus,
}

pub struct HtmlOutputInventoryView {
    pub format: InventoryLeaf<CompilationOutputFormat>,
    pub pretty: InventoryLeaf<bool>,
    pub status: CompilationRequestInventoryStatus,
}

pub struct CompilationAdmissionInventoryView {
    pub requested_trust: crate::DeploymentTrustProfile,
    pub admitted_trust: crate::DeploymentTrustProfile,
    pub requested_network: crate::OperationNetworkPolicy,
    pub admitted_network: crate::OperationNetworkPolicy,
    pub contractual_no_network: bool,
    pub structural_network_enforcement: crate::EnforcementStrength,
    pub enforcement: crate::EnforcementAdmissionView,
}

pub struct CompilationResourcesInventoryView {
    pub profile: Option<crate::ResourceProfileIdentity>,
    pub requested: CompilationResourceLimits,
    pub admitted: CompilationResourceLimits,
}

pub struct CompilationDependencyExecutionInventoryView {
    pub packages: crate::authority::PackageAuthorityCapabilityDescriptor,
    pub fonts: crate::authority::FontAuthorityCapabilityDescriptor,
    pub cache_descriptor: Option<SemanticResultCacheCapabilityDescriptor>,
    pub cache_policy: SemanticResultCachePolicy,
    pub cache_lookup: SemanticCacheLookupState,
    pub cache_isolation_domain_present: bool,
    pub offline_roles_covered: Vec<crate::PreCommitFacilityRole>,
    pub concurrency: crate::DependencyConcurrencyAdmission,
}

pub struct CompilationAttemptControlInventoryView {
    pub deadline: OperationDeadline,
    pub cancellation_present: bool,
    pub monotonic_domain: crate::MonotonicTimeDomain,
    pub queue_timeout_ticks: Option<u64>,
    pub latency_target_ticks: Option<u64>,
    pub session_supersession: SessionSupersessionInventory,
    pub requested_interruption: crate::OperationInterruptionStrength,
    pub admitted_interruption: crate::OperationInterruptionStrength,
    pub winner: Option<CompilationInterruptionWinner>,
}

#[derive(Clone, Copy, Debug, Eq, PartialEq, Structural)]
pub enum SessionSupersessionInventory {
    NotApplicable,
    Bound,
}

#[derive(Clone, Copy, Debug, Eq, PartialEq, Structural)]
pub enum CompilationInterruptionWinner {
    TerminalCommitment,
    Cancellation,
    Deadline,
    Supersession,
    ForcedTermination,
}

pub enum CompilationExecutionInventoryView {
    CallerThread {
        domain: EngineRuntimeDomainSelectionView,
        engine_width: crate::EngineWidthAdmission,
    },
    Facility {
        descriptor: CompilationExecutionFacilityCapabilityDescriptor,
        domain: EngineRuntimeDomainSelectionView,
        engine_width: crate::EngineWidthAdmission,
        capacity: CompilationExecutionFacilityCapacity,
        queue_reached: bool,
        dispatch_reached: bool,
        worker_terminated: bool,
        worker_reaped: bool,
    },
}

pub struct CompilationReportingInventoryView {
    pub requested: CompilationReportingPolicy,
    pub admitted: CompilationReportingPolicy,
    pub diagnostic_projection: ReportingChannelStatus,
    pub diagnostic_sources: ReportingChannelStatus,
    pub timing: ReportingChannelStatus,
    pub fine_engine_timing: ReportingChannelStatus,
    pub fine_timing_lease_reached: bool,
}

#[derive(Clone, Copy, Debug, Eq, PartialEq, Structural)]
pub enum ReportingChannelStatus {
    NotRequested,
    Complete,
    Limited,
    Unavailable,
}

#[derive(Clone, Copy, Debug, Eq, PartialEq, Structural)]
pub enum CompilationInventoryOrigin {
    CallerSupplied,
    CoreDefaulted,
    CoreDerived,
    AdapterResolved,
}

#[derive(Clone, Copy, Debug, Eq, PartialEq, Structural)]
pub enum SemanticCacheProvenance {
    Disabled,
    Miss,
    HitVerified,
    UnavailableContinued,
}

#[derive(Clone, Copy, Debug, Eq, PartialEq, Structural)]
pub enum SemanticCacheLookupState {
    Disabled,
    Miss,
    VerifiedHit,
    UnavailableContinued,
}

#[derive(Clone, Copy, Debug, Eq, PartialEq, Structural)]
pub enum DependencyEvidenceScope {
    NoEvidence,
    Partial,
    CompleteCurrentAttempt,
    HistoricalCacheTraceOnly,
}

pub enum OriginatingEvidenceAvailabilityView {
    Available(DependencyEvidenceTableView),
    Unavailable,
}

pub struct DependencyEvidenceEntryView {
    pub ordinal: OriginatingEvidenceReference,
    pub subject: DependencyEvidenceSubjectView,
    pub authority_role: DependencyEvidenceAuthorityRole,
    pub authority_priority: u32,
    pub kind: DependencyEvidenceEntryKind,
    pub key: Option<crate::authority::DependencyEvidenceKey>,
    pub provenance: Option<crate::authority::AcquisitionProvenance>,
    pub phase: DependencyEvidencePhase,
}

pub enum DependencyEvidenceSubjectView {
    ProjectAccess {
        path: ProjectPath,
        request_kind: TypstFileRequestKind,
    },
    PackageRequirement(PackageRequirementIdentity),
    PackageAccess {
        requirement: PackageRequirementIdentity,
        path: crate::PackagePath,
        request_kind: TypstFileRequestKind,
    },
    UndeclaredPackageAccess {
        specification: crate::PackageSpecification,
        path: crate::PackagePath,
        request_kind: TypstFileRequestKind,
    },
    FontRequirement(FontRequirementIdentity),
    FontFaceAccess {
        container: crate::ContentIdentity,
        face_index: u32,
    },
}

#[derive(Clone, Copy, Debug, Eq, PartialEq, Structural)]
pub enum DependencyEvidenceAuthorityRole {
    Pack,
    Package,
    Font,
}

#[derive(Clone, Copy, Debug, Eq, PartialEq, Structural)]
pub enum DependencyEvidenceEntryKind {
    SelectedContent,
    ConfirmedAbsence,
    ConfirmedMembership,
    ConfirmedOrder,
    ConfirmedMetadata,
    SelectedSourceChoice,
    HigherPriorityUnavailable,
    Missing,
    Acquired,
    TransientFailure,
    PermanentFailure,
    InvalidContent,
    IntegrityMismatch,
}

#[derive(Clone, Copy, Debug, Eq, PartialEq, Structural)]
pub enum DependencyEvidencePhase {
    DependencyResolution,
    CompilationKernel,
}

pub struct SafeDependencyEvidenceEntryView {
    pub ordinal: OriginatingEvidenceReference,
    pub subject: DependencyEvidenceSubjectView,
    pub authority_role: DependencyEvidenceAuthorityRole,
    pub authority_priority: u32,
    pub kind: DependencyEvidenceEntryKind,
    pub sanitized_authority_kind: String,
    pub source_class: Option<crate::pack::AcquisitionSourceClass>,
    pub phase: DependencyEvidencePhase,
}

pub struct CompilationArtifactView {
    pub role: CompilationArtifactRole,
    pub bytes: StableByteValue,
    pub artifact_identity: CompilationArtifactIdentity,
    pub content_identity: crate::ContentIdentity,
    pub exact_bytes: u64,
}

pub enum CompilationArtifactRole {
    Document {
        format: DocumentFormat,
    },
    Page {
        format: PageFormat,
        source_page_number: u32,
    },
}

#[derive(Clone, Copy, Debug, Eq, PartialEq, Structural)]
pub enum DocumentFormat {
    Pdf,
    Html,
}

#[derive(Clone, Copy, Debug, Eq, PartialEq, Structural)]
pub enum PageFormat {
    Png,
    Svg,
}

pub struct CanonicalDiagnosticEntryView {
    pub phase: DiagnosticPhase,
    pub severity: DiagnosticSeverity,
    pub kind: DiagnosticKind,
    pub message: String,
    pub spans: Vec<DiagnosticSpanView>,
    pub hints: Vec<String>,
}

pub enum DiagnosticKind {
    Stable(String),
    EngineSpecific {
        engine: EngineIdentity,
        name: String,
    },
    ExporterSpecific {
        exporter: ExporterIdentity,
        name: String,
    },
}

pub struct DiagnosticSpanView {
    pub location: DiagnosticLogicalLocation,
    pub start: u64,
    pub end: u64,
}

pub enum DiagnosticLogicalLocation {
    ProjectBaseline(ProjectPath),
    ProjectOverride {
        path: ProjectPath,
        commitment: CompilationRequestCommitment,
    },
    Package {
        requirement: PackageRequirementIdentity,
        path: crate::PackagePath,
    },
}

#[derive(Clone, Copy, Debug, Eq, PartialEq, Structural)]
pub enum DiagnosticPhase {
    Compilation,
    Export,
}

#[derive(Clone, Copy, Debug, Eq, PartialEq, Structural)]
pub enum CanonicalDiagnosticCompletion {
    Complete,
    Limited {
        first_omitted_ordinal: u64,
        first_omitted_phase: DiagnosticPhase,
        dimension: DiagnosticLimitDimension,
    },
}

#[derive(Clone, Copy, Debug, Eq, PartialEq, Structural)]
pub enum DiagnosticLimitDimension {
    EntryCount,
    CanonicalEntryBytes,
}

pub enum CompilationReportAccessTraceView {
    NotReached,
    ResultOwned(CompilationAccessTraceView),
    Partial(CompilationAccessTraceView),
}

#[derive(Clone, Copy, Debug, Eq, PartialEq, Structural)]
pub enum TypstFileRequestKind {
    TypstSource,
    RawFile,
}

#[derive(Clone, Copy, Debug, Eq, PartialEq, Structural)]
pub enum DependencyFulfillment {
    Embedded,
    External,
}

pub struct IdentityObjectView {
    pub exact_bytes: u64,
    pub content_identity: crate::ContentIdentity,
}

pub struct CompilationSensitiveValueView {
    pub exact_bytes: u64,
    pub commitment: CompilationRequestCommitment,
}

pub struct CompilationAccessObservationView {
    pub semantic: CompilationAccessObservationKindView,
    pub originating_evidence: Vec<OriginatingEvidenceReference>,
}

pub enum CompilationAccessObservationKindView {
    ProjectBaselineRead {
        path: ProjectPath,
        request_kind: TypstFileRequestKind,
        object: IdentityObjectView,
    },
    ProjectOverrideRead {
        path: ProjectPath,
        request_kind: TypstFileRequestKind,
        replacement: CompilationSensitiveValueView,
    },
    ProjectLogicalMissing {
        path: ProjectPath,
        request_kind: TypstFileRequestKind,
    },
    ProjectBaselineInvalidAsSource {
        path: ProjectPath,
        object: IdentityObjectView,
    },
    ProjectOverrideInvalidAsSource {
        path: ProjectPath,
        replacement: CompilationSensitiveValueView,
    },
    PackageRead {
        requirement: PackageRequirementIdentity,
        path: crate::PackagePath,
        request_kind: TypstFileRequestKind,
        object: IdentityObjectView,
        fulfillment: DependencyFulfillment,
    },
    PackageLogicalMissing {
        requirement: PackageRequirementIdentity,
        path: crate::PackagePath,
        request_kind: TypstFileRequestKind,
        fulfillment: DependencyFulfillment,
    },
    PackageInvalidAsSource {
        requirement: PackageRequirementIdentity,
        path: crate::PackagePath,
        object: IdentityObjectView,
        fulfillment: DependencyFulfillment,
    },
    UndeclaredPackage {
        specification: crate::PackageSpecification,
        path: crate::PackagePath,
        request_kind: TypstFileRequestKind,
    },
    FontFace {
        container: crate::ContentIdentity,
        face_index: u32,
        fulfillment: DependencyFulfillment,
    },
}

pub struct CompilationAccessTraceReachedScope {
    pub phase: CompilationTracePhase,
    pub project: CompilationTraceClassScope,
    pub packages: CompilationTraceClassScope,
    pub fonts: CompilationTraceClassScope,
}

#[derive(Clone, Copy, Debug, Eq, PartialEq, Structural)]
pub enum CompilationTracePhase {
    DependencyResolution,
    CompilationKernel,
    Export,
}

#[derive(Clone, Copy, Debug, Eq, PartialEq, Structural)]
pub enum CompilationTraceClassScope {
    NotReached,
    Partial,
    CompleteForReachedExecution,
}

pub struct CompilationOperationOutcome {
    pub phase: CompilationPhase,
    pub cause: CompilationOperationCause,
}

#[derive(Clone, Copy, Debug, Eq, PartialEq, Structural)]
pub enum CompilationPhase {
    Admission,
    SemanticCacheLookup,
    DependencyResolution,
    DependencyAcquisition,
    DependencyVerification,
    Spooling,
    ReadyDispatchQueue,
    CompilationKernel,
    Export,
    ReportFinalization,
}

pub enum CompilationOperationCause {
    DependencyResolution(crate::authority::AuthorityFailure),
    CacheUnavailable,
    CacheAuthorization,
    CacheIntegrity,
    CacheConflict,
    ResourceLimit(ResourceLimitFailure),
    Deadline,
    Cancelled,
    Superseded,
    Execution(CompilationExecutionFailure),
    Isolation(CompilationExecutionFailure),
    InternalIntegrity,
}

pub struct ResourceLimitFailure {
    pub dimension: ResourceLimitDimension,
    pub limit: u64,
    pub observed: Option<u64>,
}

#[derive(Clone, Copy, Debug, Eq, PartialEq, Structural)]
pub enum ResourceLimitDimension {
    DependencyCount,
    DownloadedBytes,
    ExpandedBytes,
    LargestDependency,
    OverrideCount,
    LargestOverride,
    AggregateOverride,
    StableSpool,
    PageCount,
    ArtifactCount,
    ArtifactBytes,
    RasterPixels,
    RetainedMemory,
    DiagnosticProjection,
    DiagnosticSource,
}

#[derive(Clone, Copy, Debug, Eq, PartialEq, Structural)]
pub struct CompilationResourceLimitSpec {
    pub dependencies: u64,
    pub downloaded_dependency_bytes: u64,
    pub expanded_dependency_bytes: u64,
    pub largest_dependency_bytes: u64,
    pub override_count: u64,
    pub largest_override_bytes: u64,
    pub aggregate_override_bytes: u64,
    pub stable_spool_bytes: u64,
    pub pages: u64,
    pub artifacts: u64,
    pub largest_artifact_bytes: u64,
    pub aggregate_artifact_bytes: u64,
    pub largest_raster_pixels: u64,
    pub aggregate_raster_pixels: u64,
    pub retained_memory_bytes: u64,
    pub diagnostic_projection_entries: u64,
    pub diagnostic_projection_bytes: u64,
    pub diagnostic_source_bindings: u64,
    pub diagnostic_source_blobs: u64,
    pub largest_diagnostic_source_bytes: u64,
    pub aggregate_diagnostic_source_bytes: u64,
    pub diagnostic_source_metadata_bytes: u64,
}

#[derive(Clone, Copy, Debug, Eq, PartialEq, Structural)]
pub enum SemanticCacheAvailabilityPolicy {
    Required,
    ContinueOnUnavailable,
}

pub enum SemanticResultCachePolicy {
    Disabled,
    ReadOnly(SemanticCacheAvailabilityPolicy),
    ReadWrite(SemanticCacheAvailabilityPolicy),
    RebuildAndWrite,
}

pub struct SemanticResultCacheCapabilitySpec {
    pub class: crate::OperationalCapabilityClass,
    pub network: crate::SelectedNetworkContract,
    pub trusted_writer_domain: bool,
    pub authenticated_records: bool,
    pub required_availability: bool,
    pub continue_on_unavailable: bool,
}

pub struct SemanticResultCacheCapabilityView {
    pub class: crate::OperationalCapabilityClass,
    pub isolation_domain_present: bool,
    pub network: crate::SelectedNetworkContract,
    pub trusted_writer_domain: bool,
    pub authenticated_records: bool,
    pub required_availability: bool,
    pub continue_on_unavailable: bool,
}

pub struct CompilationReportingPolicy {
    pub diagnostic_projection: bool,
    pub diagnostic_source_bundle: bool,
    pub timing: bool,
    pub fine_engine_timing: bool,
}

pub struct CompilationOperationRequest {
    pub network: crate::OperationNetworkPolicy,
    pub cache: SemanticResultCachePolicy,
    pub dependency_concurrency: NonZeroUsize,
    pub engine_width: crate::EngineWidthRequest,
    pub requested_ready_jobs: Option<NonZeroUsize>,
    pub requested_queue: Option<usize>,
    pub requested_workers: Option<NonZeroUsize>,
    pub placement: crate::ExecutionPlacement,
    pub interruption: crate::OperationInterruptionStrength,
    pub deadline: OperationDeadline,
    pub queue_timeout_ticks: Option<u64>,
    pub latency_target_ticks: Option<u64>,
    pub required_enforcement: Vec<crate::EnforcementClaim>,
    pub reporting: CompilationReportingPolicy,
}

pub struct SemanticCacheLookupRequest<'a> {
    pub identity: &'a CompilationIdentity,
    pub limits: &'a CompilationResourceLimits,
    pub controls: CacheOperationControls<'a>,
}

pub enum SemanticCacheLookupOutcome {
    Miss,
    Candidate(SemanticCacheRecord),
    Unavailable,
    AuthorizationRefused,
    IntegrityFailure,
    ConflictingResult,
    ResourceLimit,
    Cancelled,
    Deadline,
}

pub struct SemanticCacheAdmissionRequest<'a> {
    pub identity: &'a CompilationIdentity,
    pub record: &'a SemanticCacheRecord,
    pub controls: CacheOperationControls<'a>,
}

pub enum SemanticCacheAdmissionOutcome {
    Admitted,
    RecordPreparationFailed(SemanticCacheRecordFailure),
    Unavailable,
    AuthorizationRefused,
    IntegrityFailure,
    ConflictingResult,
    ResourceLimit,
    Cancelled,
    Deadline,
}

#[derive(Clone, Copy, Debug, Eq, PartialEq, Structural)]
pub enum SemanticCacheAdapterAdmissionOutcome {
    Admitted,
    Unavailable,
    AuthorizationRefused,
    IntegrityFailure,
    ConflictingResult,
    ResourceLimit,
    Cancelled,
    Deadline,
}

pub struct CompilationCacheAdmissionOutcome {
    pub report: CompilationReport,
    pub cache: SemanticCacheAdmissionOutcome,
}

#[derive(Clone, Copy, Debug, Eq, PartialEq, Structural)]
pub enum SemanticCacheRecordFailure {
    NoSemanticResult,
    ResourceLimit,
    InternalIntegrity,
}

pub struct EngineRuntimeDomainPolicySpec {
    pub class: crate::OperationalCapabilityClass,
    pub managed: bool,
    pub supported_placements: Vec<crate::ExecutionPlacement>,
    pub width_policy: crate::EngineWidthRequest,
    pub sharing_scope: crate::OperationalCapabilityClass,
    pub exclusive_fine_timing_lease: bool,
}

pub struct EngineRuntimeDomainPolicyView {
    pub class: crate::OperationalCapabilityClass,
    pub managed: bool,
    pub supported_placements: Vec<crate::ExecutionPlacement>,
    pub width_policy: crate::EngineWidthRequest,
    pub sharing_scope: crate::OperationalCapabilityClass,
    pub exclusive_fine_timing_lease: bool,
}

#[derive(Clone, Copy, Debug, Eq, PartialEq, Structural)]
pub enum EngineRuntimeDomainManagement {
    InheritedUnmanaged,
    Managed,
}

pub enum EngineRuntimeDomainSelectionView {
    InheritedUnmanaged,
    Managed {
        identity: EngineRuntimeDomainIdentity,
        placement: crate::ExecutionPlacement,
        width: NonZeroUsize,
        fine_timing_lease_reached: bool,
    },
}

pub struct CompilationExecutionFacilityCapacity {
    pub requested_ready_jobs: NonZeroUsize,
    pub admitted_ready_jobs: NonZeroUsize,
    pub requested_queue: usize,
    pub admitted_queue: usize,
    pub requested_workers: Option<NonZeroUsize>,
    pub admitted_workers: Option<NonZeroUsize>,
    pub constraints: Vec<crate::AdmissionConstraint>,
}

pub struct CompilationExecutionFacilityMaximumCapacity {
    pub ready_jobs: NonZeroUsize,
    pub queue: usize,
    pub workers: Option<NonZeroUsize>,
}

pub struct CompilationExecutionFacilityCapabilitySpec {
    pub class: crate::OperationalCapabilityClass,
    pub capacity_scope_class: crate::OperationalCapabilityClass,
    pub shared_with_creation: bool,
    pub supported_placements: Vec<crate::ExecutionPlacement>,
    pub ready_job_capacity: NonZeroUsize,
    pub queue_capacity: usize,
    pub worker_capacity: Option<NonZeroUsize>,
    pub overlapping_jobs_per_worker: bool,
    pub domain_policy: EngineRuntimeDomainPolicyDescriptor,
    pub execution_network: crate::SelectedNetworkContract,
    pub worker_control_network: Option<crate::SelectedNetworkContract>,
    pub interruption: crate::OperationInterruptionStrength,
    pub worker_protocol: Option<crate::OperationalCapabilityClass>,
    pub parent_verifies_response: bool,
    pub parent_withholds_output: bool,
    pub no_in_process_fallback: bool,
    pub terminate_and_reap: bool,
    pub forced_termination_target_ticks: Option<u64>,
    pub enforcement: Vec<crate::EnforcementClaim>,
}

pub struct CompilationExecutionFacilityCapabilityView {
    pub class: crate::OperationalCapabilityClass,
    pub capacity_scope_class: crate::OperationalCapabilityClass,
    pub shared_with_creation: bool,
    pub supported_placements: Vec<crate::ExecutionPlacement>,
    pub maximum_capacity: CompilationExecutionFacilityMaximumCapacity,
    pub overlapping_jobs_per_worker: bool,
    pub domain_policy: EngineRuntimeDomainPolicyDescriptor,
    pub execution_network: crate::SelectedNetworkContract,
    pub worker_control_network: Option<crate::SelectedNetworkContract>,
    pub interruption: crate::OperationInterruptionStrength,
    pub worker_protocol: Option<crate::OperationalCapabilityClass>,
    pub parent_verifies_response: bool,
    pub parent_withholds_output: bool,
    pub no_in_process_fallback: bool,
    pub terminate_and_reap: bool,
    pub forced_termination_target_ticks: Option<u64>,
    pub enforcement: Vec<crate::EnforcementClaim>,
}

pub enum CompilationDispatchOutcome {
    Completed,
    QueueFull,
    QueueTimeout,
    Refused,
    WorkerFailed,
    ProtocolFailed,
    ResourceLimit,
    Cancelled,
    Deadline,
}

#[derive(Clone, Copy, Debug, Eq, PartialEq, Structural)]
pub enum CompilationExecutionFailure {
    Queue,
    Worker,
    Protocol,
    Isolation,
    InternalIntegrity,
}

pub enum CompilationProjectionTerminalView {
    SemanticResult {
        status: CompilationResultStatus,
        document: CompilationDocumentSummaryView,
    },
    OperationOutcome {
        phase: CompilationPhase,
        cause: CompilationOperationCause,
    },
}

#[derive(Clone, Copy, Debug, Eq, PartialEq, Structural)]
pub enum CompilationResultStatus {
    Succeeded,
    Rejected,
}

pub enum CompilationTerminalProjection {
    RequestRejected(CompilationRequestRejectionProjection),
    Report(CompilationReportProjection),
}

pub struct CompilationArtifactDisclosureView {
    pub role: CompilationArtifactRole,
    pub artifact_identity: CompilationArtifactIdentity,
    pub content_identity: crate::ContentIdentity,
    pub exact_bytes: u64,
}

pub struct DiagnosticDisclosureSummary {
    pub retained_entries: u64,
    pub retained_canonical_bytes: u64,
    pub completion: Option<CanonicalDiagnosticCompletion>,
}

#[derive(Clone, Copy, Debug, Eq, PartialEq, Structural)]
pub enum CompilationDisclosureChannelStatus {
    NotRequested,
    Complete,
    Redacted,
    Limited,
    Unavailable,
}

pub struct CanonicalEvidenceDisclosureView {
    pub trace: CompilationAccessTraceView,
    pub evidence: Option<SafeDependencyEvidenceTableView>,
}

pub struct DisclosedSourceView {
    pub logical_location: DiagnosticLogicalLocation,
    pub bytes: StableByteValue,
}

pub struct DisclosedRequestValueView {
    pub key: TypstInputKey,
    pub value: TypstInputValue,
}

pub struct DisclosedOverrideView {
    pub path: ProjectPath,
    pub bytes: StableByteValue,
    pub replacement_content_identity: crate::ContentIdentity,
    pub equals_baseline: bool,
}

pub struct DisclosedBackingLocatorView {
    pub evidence: OriginatingEvidenceReference,
    pub safe_summary: String,
    pub raw: Vec<u8>,
}

pub struct DiagnosticProjectionEntry {
    pub phase: DiagnosticPhase,
    pub severity: DiagnosticSeverity,
    pub kind: DiagnosticKind,
    pub message: String,
    pub spans: Vec<DiagnosticSpanView>,
    pub hints: Vec<String>,
}

#[derive(Clone, Copy, Debug, Eq, PartialEq, Structural)]
pub enum DiagnosticSeverity {
    Warning,
    Error,
}


/// The limits of one compilation.
#[derive(Clone, Copy, Debug)]
pub struct CompilationResourceLimits {
    spec: CompilationResourceLimitSpec,
}

impl CompilationResourceLimits {
    pub closed spec fn spec_limits(&self) -> CompilationResourceLimitSpec {
        self.spec
    }

    /// Every largest-member bound lies within its aggregate bound.
    pub open spec fn spec_coherent(s: CompilationResourceLimitSpec) -> bool {
        &&& s.largest_dependency_bytes <= s.expanded_dependency_bytes
        &&& s.largest_override_bytes <= s.aggregate_override_bytes
        &&& s.largest_artifact_bytes <= s.aggregate_artifact_bytes
        &&& s.largest_raster_pixels <= s.aggregate_raster_pixels
        &&& s.largest_diagnostic_source_bytes <= s.aggregate_diagnostic_source_bytes
    }

    pub fn try_new(spec: CompilationResourceLimitSpec) -> (r: Result<Self, AdmissionRefusal>)
        ensures
            match r {
                Ok(l) => Self::spec_coherent(spec) && l.spec_limits() == spec,
                Err(e) => !Self::spec_coherent(spec) && e == AdmissionRefusal::InvalidResourceLimits,
            },
    {
        let limits = CompilationResourceLimits { spec };
        match limits.validate() {
            Ok(()) => Ok(limits),
            Err(e) => Err(e),
        }
    }

    pub fn spec(&self) -> (r: &CompilationResourceLimitSpec)
        ensures
            *r == self.spec_limits(),
    {
        &self.spec
    }
}

impl OperationLimitSet for CompilationResourceLimits {
    open spec fn spec_valid(&self) -> bool {
        Self::spec_coherent(self.spec_limits())
    }

    open spec fn spec_no_looser_than(&self, requested: &Self) -> bool {
        &&& self.spec_limits().dependencies <= requested.spec_limits().dependencies
        &&& self.spec_limits().downloaded_dependency_bytes <= requested.spec_limits().downloaded_dependency_bytes
        &&& self.spec_limits().expanded_dependency_bytes <= requested.spec_limits().expanded_dependency_bytes
        &&& self.spec_limits().largest_dependency_bytes <= requested.spec_limits().largest_dependency_bytes
        &&& self.spec_limits().override_count <= requested.spec_limits().override_count
        &&& self.spec_limits().largest_override_bytes <= requested.spec_limits().largest_override_bytes
        &&& self.spec_limits().aggregate_override_bytes <= requested.spec_limits().aggregate_override_bytes
        &&& self.spec_limits().stable_spool_bytes <= requested.spec_limits().stable_spool_bytes
        &&& self.spec_limits().pages <= requested.spec_limits().pages
        &&& self.spec_limits().artifacts <= requested.spec_limits().artifacts
        &&& self.spec_limits().largest_artifact_bytes <= requested.spec_limits().largest_artifact_bytes
        &&& self.spec_limits().aggregate_artifact_bytes <= requested.spec_limits().aggregate_artifact_bytes
        &&& self.spec_limits().largest_raster_pixels <= requested.spec_limits().largest_raster_pixels
        &&& self.spec_limits().aggregate_raster_pixels <= requested.spec_limits().aggregate_raster_pixels
        &&& self.spec_limits().retained_memory_bytes <= requested.spec_limits().retained_memory_bytes
        &&& self.spec_limits().diagnostic_projection_entries <= requested.spec_limits().diagnostic_projection_entries
        &&& self.spec_limits().diagnostic_projection_bytes <= requested.spec_limits().diagnostic_projection_bytes
        &&& self.spec_limits().diagnostic_source_bindings <= requested.spec_limits().diagnostic_source_bindings
        &&& self.spec_limits().diagnostic_source_blobs <= requested.spec_limits().diagnostic_source_blobs
        &&& self.spec_limits().largest_diagnostic_source_bytes <= requested.spec_limits().largest_diagnostic_source_bytes
        &&& self.spec_limits().aggregate_diagnostic_source_bytes <= requested.spec_limits().aggregate_diagnostic_source_bytes
        &&& self.spec_limits().diagnostic_source_metadata_bytes <= requested.spec_limits().diagnostic_source_metadata_bytes
    }

    fn validate(&self) -> (r: Result<(), AdmissionRefusal>) {
        if self.spec.largest_dependency_bytes <= self.spec.expanded_dependency_bytes
            && self.spec.largest_override_bytes <= self.spec.aggregate_override_bytes
            && self.spec.largest_artifact_bytes <= self.spec.aggregate_artifact_bytes
            && self.spec.largest_raster_pixels <= self.spec.aggregate_raster_pixels
            && self.spec.largest_diagnostic_source_bytes <= self.spec.aggregate_diagnostic_source_bytes {
            Ok(())
        } else {
            Err(AdmissionRefusal::InvalidResourceLimits)
        }
    }

    fn no_looser_than(&self, requested: &Self) -> (r: bool) {
        self.spec.dependencies <= requested.spec.dependencies
            && self.spec.downloaded_dependency_bytes <= requested.spec.downloaded_dependency_bytes
            && self.spec.expanded_dependency_bytes <= requested.spec.expanded_dependency_bytes
            && self.spec.largest_dependency_bytes <= requested.spec.largest_dependency_bytes
            && self.spec.override_count <= requested.spec.override_count
            && self.spec.largest_override_bytes <= requested.spec.largest_override_bytes
            && self.spec.aggregate_override_bytes <= requested.spec.aggregate_override_bytes
            && self.spec.stable_spool_bytes <= requested.spec.stable_spool_bytes
            && self.spec.pages <= requested.spec.pages
            && self.spec.artifacts <= requested.spec.artifacts
            && self.spec.largest_artifact_bytes <= requested.spec.largest_artifact_bytes
            && self.spec.aggregate_artifact_bytes <= requested.spec.aggregate_artifact_bytes
            && self.spec.largest_raster_pixels <= requested.spec.largest_raster_pixels
            && self.spec.aggregate_raster_pixels <= requested.spec.aggregate_raster_pixels
            && self.spec.retained_memory_bytes <= requested.spec.retained_memory_bytes
            && self.spec.diagnostic_projection_entries <= requested.spec.diagnostic_projection_entries
            && self.spec.diagnostic_projection_bytes <= requested.spec.diagnostic_projection_bytes
            && self.spec.diagnostic_source_bindings <= requested.spec.diagnostic_source_bindings
            && self.spec.diagnostic_source_blobs <= requested.spec.diagnostic_source_blobs
            && self.spec.largest_diagnostic_source_bytes <= requested.spec.largest_diagnostic_source_bytes
            && self.spec.aggregate_diagnostic_source_bytes <= requested.spec.aggregate_diagnostic_source_bytes
            && self.spec.diagnostic_source_metadata_bytes <= requested.spec.diagnostic_source_metadata_bytes
    }

    proof fn lemma_no_looser_than_reflexive(limits: &Self) {
    }

    proof fn lemma_no_looser_than_transitive(a: &Self, b: &Self, c: &Self) {
    }
}

/// A canonical diagnostic policy: its version and its two bounds.
#[derive(Clone, Copy, Debug)]
pub struct CanonicalDiagnosticPolicy {
    version: u32,
    max_entries: u64,
    max_canonical_entry_bytes: u64,
}

/// The version of the canonical diagnostic format this library writes.
pub const CANONICAL_DIAGNOSTIC_VERSION: u32 = 1;

impl CanonicalDiagnosticPolicy {
    pub closed spec fn spec_version(&self) -> u32 {
        self.version
    }

    pub closed spec fn spec_max_entries(&self) -> u64 {
        self.max_entries
    }

    pub closed spec fn spec_max_canonical_entry_bytes(&self) -> u64 {
        self.max_canonical_entry_bytes
    }

    /// A policy names the supported version and keeps room for at least one
    /// entry of at least one byte.
    pub fn try_new(version: u32, max_entries: u64, max_canonical_entry_bytes: u64) -> (r: Result<
        Self,
        CompilationRequestIssue,
    >)
        ensures
            match r {
                Ok(p) => version == CANONICAL_DIAGNOSTIC_VERSION && max_entries > 0 && max_canonical_entry_bytes > 0
                    && p.spec_version() == version && p.spec_max_entries() == max_entries
                    && p.spec_max_canonical_entry_bytes() == max_canonical_entry_bytes,
                Err(e) => !(version == CANONICAL_DIAGNOSTIC_VERSION && max_entries > 0 && max_canonical_entry_bytes
                    > 0) && e == CompilationRequestIssue::InvalidCanonicalDiagnosticPolicy,
            },
    {
        if version != CANONICAL_DIAGNOSTIC_VERSION || max_entries == 0 || max_canonical_entry_bytes == 0 {
            return Err(CompilationRequestIssue::InvalidCanonicalDiagnosticPolicy);
        }
        Ok(CanonicalDiagnosticPolicy { version, max_entries, max_canonical_entry_bytes })
    }

    pub fn version(&self) -> (r: u32)
        ensures
            r == self.spec_version(),
    {
        self.version
    }

    pub fn max_entries(&self) -> (r: u64)
        ensures
            r == self.spec_max_entries(),
    {
        self.max_entries
    }

    pub fn max_canonical_entry_bytes(&self) -> (r: u64)
        ensures
            r == self.spec_max_canonical_entry_bytes(),
    {
        self.max_canonical_entry_bytes
    }
}

/// Whether page ranges are a canonical selection: at least one range, each
/// from a first page (counted from one) to a last page not before it, in
/// increasing order without overlap.
pub open spec fn page_ranges_canonical(ranges: Seq<(u32, u32)>) -> bool {
    &&& ranges.len() > 0
    &&& forall|i: int| 0 <= i < ranges.len() ==> 1 <= #[trigger] ranges[i].0 <= ranges[i].1
    &&& forall|i: int, j: int| 0 <= i < j < ranges.len() ==> ranges[i].1 < ranges[j].0
}

/// Which pages an output covers: all of them, or canonical ranges.
#[derive(Clone, Debug)]
pub struct PageSelection {
    ranges: Option<Vec<(u32, u32)>>,
}

impl PageSelection {
    /// The ranges selected, or none for every page.
    pub closed spec fn spec_ranges(&self) -> Option<Seq<(u32, u32)>> {
        match self.ranges {
            Some(r) => Some(r@),
            None => None,
        }
    }

    pub fn all() -> (r: Self)
        ensures
            r.spec_ranges() is None,
    {
        PageSelection { ranges: None }
    }

    pub fn try_from_ranges(ranges: Vec<(u32, u32)>) -> (r: Result<Self, CompilationRequestIssue>)
        ensures
            match r {
                Ok(p) => page_ranges_canonical(ranges@) && p.spec_ranges() == Some(ranges@),
                Err(e) => !page_ranges_canonical(ranges@) && e == CompilationRequestIssue::InvalidOutputSpecification,
            },
    {
        let n = ranges.len();
        if n == 0 {
            return Err(CompilationRequestIssue::InvalidOutputSpecification);
        }
        let mut i: usize = 0;
        while i < n
            invariant
                n == ranges@.len(),
                n > 0,
                i <= n,
                forall|k: int| 0 <= k < i ==> 1 <= #[trigger] ranges@[k].0 <= ranges@[k].1,
                forall|a: int, b: int| 0 <= a < b < i ==> ranges@[a].1 < ranges@[b].0,
            decreases n - i,
        {
            let (first, last) = ranges[i];
            if first < 1 || first > last {
                assert(!(1 <= ranges@[i as int].0 <= ranges@[i as int].1));
                return Err(CompilationRequestIssue::InvalidOutputSpecification);
            }
            if i > 0 && ranges[i - 1].1 >= first {
                assert(!(ranges@[i - 1].1 < ranges@[i as int].0));
                return Err(CompilationRequestIssue::InvalidOutputSpecification);
            }
            proof {
                assert forall|a: int, b: int| 0 <= a < b < i + 1 implies ranges@[a].1 < ranges@[b].0 by {
                    if b == i && a < i - 1 {
                        assert(ranges@[a].1 < ranges@[i - 1].0);
                        assert(ranges@[i - 1].0 <= ranges@[i - 1].1);
                    }
                }
            }
            i = i + 1;
        }
        Ok(PageSelection { ranges: Some(ranges) })
    }
}

/// Replacement bytes for project files, applied to one compilation.
#[derive(Clone, Debug)]
pub struct PackOverrideSet {
    overrides: Vec<(ProjectPath, StableByteValue)>,
}

impl PackOverrideSet {
    pub closed spec fn spec_overrides(&self) -> Seq<(ProjectPath, StableByteValue)> {
        self.overrides@
    }

    pub fn empty() -> (r: Self)
        ensures
            r.spec_overrides().len() == 0,
    {
        PackOverrideSet { overrides: Vec::new() }
    }

    pub fn try_new(
        _limits: &AdmittedOperationResourceLimits<CompilationResourceLimits>,
        overrides: Vec<(ProjectPath, StableByteValue)>,
    ) -> (r: Self)
        ensures
            r.spec_overrides() == overrides@,
    {
        PackOverrideSet { overrides }
    }

    pub fn overrides(&self) -> (r: &[(ProjectPath, StableByteValue)])
        ensures
            r@ == self.spec_overrides(),
    {
        self.overrides.as_slice()
    }
}

/// Whether no standard occurs twice.
pub open spec fn standards_distinct(standards: Seq<PdfStandard>) -> bool {
    forall|i: int, j: int| 0 <= i < j < standards.len() ==> standards[i] != standards[j]
}

/// Whether PDF controls can be met together: no standard is named twice, a
/// custom identifier or creator is not empty, and PDF/UA-1, which needs a
/// tagged document, is not asked for with tagging disabled.
pub open spec fn pdf_controls_compatible(
    identifier: PdfIdentifierMode,
    creator: PdfCreatorMode,
    standards: Seq<PdfStandard>,
    tagging: PdfTagging,
) -> bool {
    &&& standards_distinct(standards)
    &&& !(identifier matches PdfIdentifierMode::Custom(s) && s@.len() == 0)
    &&& !(creator matches PdfCreatorMode::Custom(s) && s@.len() == 0)
    &&& !(standards.contains(PdfStandard::PdfUa1) && tagging == PdfTagging::Disabled)
}

fn check_standards(standards: &[PdfStandard], tagging: PdfTagging) -> (r: bool)
    ensures
        r == (standards_distinct(standards@) && !(standards@.contains(PdfStandard::PdfUa1) && tagging
            == PdfTagging::Disabled)),
{
    let n = standards.len();
    let mut ua = false;
    let mut i: usize = 0;
    while i < n
        invariant
            n == standards@.len(),
            i <= n,
            forall|a: int, b: int| 0 <= a < i && a < b < n ==> standards@[a] != standards@[b],
            ua == exists|k: int| 0 <= k < i && standards@[k] == PdfStandard::PdfUa1,
        decreases n - i,
    {
        if standards[i] == PdfStandard::PdfUa1 {
            ua = true;
        }
        let mut j: usize = i + 1;
        while j < n
            invariant
                n == standards@.len(),
                i < n,
                i + 1 <= j <= n,
                forall|a: int, b: int| 0 <= a < i && a < b < n ==> standards@[a] != standards@[b],
                forall|b: int| i < b < j ==> standards@[i as int] != standards@[b],
            decreases n - j,
        {
            if standards[i] == standards[j] {
                return false;
            }
            j = j + 1;
        }
        i = i + 1;
    }
    if ua && tagging == PdfTagging::Disabled {
        assert(standards@.contains(PdfStandard::PdfUa1));
        return false;
    }
    true
}

fn custom_text_empty(m: &PdfIdentifierMode) -> (r: bool)
    ensures
        r == (*m matches PdfIdentifierMode::Custom(s) && s@.len() == 0),
{
    match m {
        PdfIdentifierMode::Custom(s) => s.as_str().is_empty(),
        _ => false,
    }
}

fn creator_text_empty(m: &PdfCreatorMode) -> (r: bool)
    ensures
        r == (*m matches PdfCreatorMode::Custom(s) && s@.len() == 0),
{
    match m {
        PdfCreatorMode::Custom(s) => s.as_str().is_empty(),
        _ => false,
    }
}

/// How a PDF is written.
#[derive(Clone, Debug)]
pub struct PdfOutputSpecification {
    pages: PageSelection,
    identifier: PdfIdentifierMode,
    creator: PdfCreatorMode,
    creation_time: PdfCreationTime,
    standards: Vec<PdfStandard>,
    tagging: PdfTagging,
    pretty: bool,
}

impl PdfOutputSpecification {
    pub closed spec fn spec_standards(&self) -> Seq<PdfStandard> {
        self.standards@
    }

    pub closed spec fn spec_tagging(&self) -> PdfTagging {
        self.tagging
    }

    pub closed spec fn spec_pretty(&self) -> bool {
        self.pretty
    }

    pub closed spec fn spec_creation_time(&self) -> PdfCreationTime {
        self.creation_time
    }

    pub closed spec fn spec_pages(&self) -> PageSelection {
        self.pages
    }

    pub closed spec fn spec_identifier(&self) -> PdfIdentifierMode {
        self.identifier
    }

    pub closed spec fn spec_creator(&self) -> PdfCreatorMode {
        self.creator
    }

    /// Every page, automatic identifier and creator, no creation time, no
    /// standard, automatic tagging, compact output.
    pub fn core_defaults() -> (r: Self)
        ensures
            r.spec_pages().spec_ranges() is None,
            r.spec_identifier() == PdfIdentifierMode::Automatic,
            r.spec_creator() == PdfCreatorMode::Automatic,
            r.spec_standards().len() == 0,
            r.spec_tagging() == PdfTagging::Automatic,
            !r.spec_pretty(),
            r.spec_creation_time() == PdfCreationTime::Omitted,
    {
        PdfOutputSpecification {
            pages: PageSelection::all(),
            identifier: PdfIdentifierMode::Automatic,
            creator: PdfCreatorMode::Automatic,
            creation_time: PdfCreationTime::Omitted,
            standards: Vec::new(),
            tagging: PdfTagging::Automatic,
            pretty: false,
        }
    }

    pub fn try_with_controls(
        self,
        pages: PageSelection,
        identifier: PdfIdentifierMode,
        creator: PdfCreatorMode,
        creation_time: PdfCreationTime,
        standards: Vec<PdfStandard>,
        tagging: PdfTagging,
        pretty: bool,
    ) -> (r: Result<Self, CompilationRequestIssue>)
        ensures
            match r {
                Ok(s) => pdf_controls_compatible(identifier, creator, standards@, tagging) && s.spec_standards()
                    == standards@ && s.spec_tagging() == tagging && s.spec_pretty() == pretty
                    && s.spec_creation_time() == creation_time,
                Err(e) => !pdf_controls_compatible(identifier, creator, standards@, tagging) && e
                    == CompilationRequestIssue::InvalidOutputSpecification,
            },
    {
        if custom_text_empty(&identifier) || creator_text_empty(&creator) || !check_standards(
            standards.as_slice(),
            tagging,
        ) {
            return Err(CompilationRequestIssue::InvalidOutputSpecification);
        }
        Ok(PdfOutputSpecification { pages, identifier, creator, creation_time, standards, tagging, pretty })
    }
}

/// Whether the bits of an IEEE single encode a positive finite number.
pub open spec fn positive_finite_bits(bits: u32) -> bool {
    0 < bits < 0x7f80_0000
}

/// A raster density, held as the bits of a positive finite IEEE single.
#[derive(Clone, Copy, Debug, Eq, Ord, PartialEq, PartialOrd)]
pub struct PngPixelsPerInch {
    bits: u32,
}

impl PngPixelsPerInch {
    pub closed spec fn spec_bits(self) -> u32 {
        self.bits
    }

    pub fn try_from_bits(bits: u32) -> (r: Result<Self, CompilationRequestIssue>)
        ensures
            match r {
                Ok(p) => positive_finite_bits(bits) && p.spec_bits() == bits,
                Err(e) => !positive_finite_bits(bits) && e == CompilationRequestIssue::InvalidOutputSpecification,
            },
    {
        if bits == 0 || bits >= 0x7f80_0000 {
            return Err(CompilationRequestIssue::InvalidOutputSpecification);
        }
        Ok(PngPixelsPerInch { bits })
    }

    pub fn to_be_bytes(self) -> (r: [u8; 4])
        ensures
            crate::authority::be_u32(r@) == self.spec_bits(),
    {
        let b = self.bits;
        let r = [(b / 0x100_0000) as u8, ((b / 0x1_0000) % 0x100) as u8, ((b / 0x100) % 0x100) as u8, (b % 0x100) as u8];
        assert(r@[0] == b / 0x100_0000 && r@[1] == (b / 0x1_0000) % 0x100 && r@[2] == (b / 0x100) % 0x100
            && r@[3] == b % 0x100);
        r
    }
}

/// How raster pages are written.
#[derive(Clone, Debug)]
pub struct PngOutputSpecification {
    pages: PageSelection,
    pixels_per_inch: PngPixelsPerInch,
    bleed: bool,
}

impl PngOutputSpecification {
    pub closed spec fn spec_pages(&self) -> PageSelection {
        self.pages
    }

    pub closed spec fn spec_pixels_per_inch(&self) -> PngPixelsPerInch {
        self.pixels_per_inch
    }

    pub closed spec fn spec_bleed(&self) -> bool {
        self.bleed
    }

    pub fn pages(&self) -> (r: &PageSelection)
        ensures
            *r == self.spec_pages(),
    {
        &self.pages
    }

    pub fn pixels_per_inch(&self) -> (r: PngPixelsPerInch)
        ensures
            r == self.spec_pixels_per_inch(),
    {
        self.pixels_per_inch
    }

    pub fn bleed(&self) -> (r: bool)
        ensures
            r == self.spec_bleed(),
    {
        self.bleed
    }

    pub fn try_new(pages: PageSelection, pixels_per_inch: PngPixelsPerInch, bleed: bool) -> (r: Result<
        Self,
        CompilationRequestIssue,
    >)
        ensures
            r matches Ok(s) && s.spec_pages() == pages && s.spec_pixels_per_inch() == pixels_per_inch
                && s.spec_bleed() == bleed,
    {
        Ok(PngOutputSpecification { pages, pixels_per_inch, bleed })
    }
}

/// How vector pages are written.
#[derive(Clone, Debug)]
pub struct SvgOutputSpecification {
    pages: PageSelection,
    bleed: bool,
    pretty: bool,
}

impl SvgOutputSpecification {
    pub closed spec fn spec_pages(&self) -> PageSelection {
        self.pages
    }

    pub closed spec fn spec_bleed(&self) -> bool {
        self.bleed
    }

    pub closed spec fn spec_pretty(&self) -> bool {
        self.pretty
    }

    pub fn new(pages: PageSelection, bleed: bool, pretty: bool) -> (r: Self)
        ensures
            r.spec_pages() == pages,
            r.spec_bleed() == bleed,
            r.spec_pretty() == pretty,
    {
        SvgOutputSpecification { pages, bleed, pretty }
    }

    pub fn pages(&self) -> (r: &PageSelection)
        ensures
            *r == self.spec_pages(),
    {
        &self.pages
    }

    pub fn bleed(&self) -> (r: bool)
        ensures
            r == self.spec_bleed(),
    {
        self.bleed
    }

    pub fn pretty(&self) -> (r: bool)
        ensures
            r == self.spec_pretty(),
    {
        self.pretty
    }
}

/// How an HTML document is written.
#[derive(Clone, Debug)]
pub struct HtmlOutputSpecification {
    pretty: bool,
}

impl HtmlOutputSpecification {
    pub closed spec fn spec_pretty(&self) -> bool {
        self.pretty
    }

    pub fn new(pretty: bool) -> (r: Self)
        ensures
            r.spec_pretty() == pretty,
    {
        HtmlOutputSpecification { pretty }
    }

    pub fn pretty(&self) -> (r: bool)
        ensures
            r == self.spec_pretty(),
    {
        self.pretty
    }
}

/// What to compile, how to report it, and with which inputs.
#[derive(Clone, Debug)]
pub struct CompilationRequest {
    output: CompilationOutputSpecification,
    diagnostics: CanonicalDiagnosticPolicy,
    inputs: Vec<(TypstInputKey, TypstInputValue)>,
    features: Vec<EngineFeature>,
    document_time: CompilationDocumentTime,
    overrides: PackOverrideSet,
}

impl CompilationRequest {
    pub closed spec fn spec_output(&self) -> CompilationOutputSpecification {
        self.output
    }

    pub closed spec fn spec_diagnostics(&self) -> CanonicalDiagnosticPolicy {
        self.diagnostics
    }

    pub closed spec fn spec_inputs(&self) -> Seq<(TypstInputKey, TypstInputValue)> {
        self.inputs@
    }

    pub closed spec fn spec_features(&self) -> Seq<EngineFeature> {
        self.features@
    }

    pub closed spec fn spec_document_time(&self) -> CompilationDocumentTime {
        self.document_time
    }

    /// Whether the request is a plain one: no inputs, features, document
    /// time or overrides.
    pub open spec fn spec_plain(&self) -> bool {
        &&& self.spec_inputs().len() == 0
        &&& self.spec_features().len() == 0
        &&& self.spec_document_time() == CompilationDocumentTime::Absent
    }

    fn plain(output: CompilationOutputSpecification, diagnostics: CanonicalDiagnosticPolicy) -> (r: Self)
        ensures
            r.spec_plain(),
            r.spec_output() == output,
            r.spec_diagnostics() == diagnostics,
    {
        CompilationRequest {
            output,
            diagnostics,
            inputs: Vec::new(),
            features: Vec::new(),
            document_time: CompilationDocumentTime::Absent,
            overrides: PackOverrideSet::empty(),
        }
    }

    /// A plain PDF request with the core defaults.
    pub fn pdf(diagnostics: CanonicalDiagnosticPolicy) -> (r: Self)
        ensures
            r.spec_plain(),
            r.spec_output() is Pdf,
            r.spec_diagnostics() == diagnostics,
    {
        Self::plain(CompilationOutputSpecification::Pdf(PdfOutputSpecification::core_defaults()), diagnostics)
    }

    /// A plain PNG request: every page at the bits of 144.0 pixels per inch,
    /// without bleed.
    pub fn png(diagnostics: CanonicalDiagnosticPolicy) -> (r: Self)
        ensures
            r.spec_plain(),
            r.spec_output() is Png,
            r.spec_diagnostics() == diagnostics,
    {
        let png = PngOutputSpecification { pages: PageSelection::all(), pixels_per_inch: PngPixelsPerInch { bits: 0x4310_0000 }, bleed: false };
        Self::plain(CompilationOutputSpecification::Png(png), diagnostics)
    }

    /// A plain SVG request: every page, without bleed, compact.
    pub fn svg(diagnostics: CanonicalDiagnosticPolicy) -> (r: Self)
        ensures
            r.spec_plain(),
            r.spec_output() is Svg,
            r.spec_diagnostics() == diagnostics,
    {
        Self::plain(CompilationOutputSpecification::Svg(SvgOutputSpecification::new(PageSelection::all(), false, false)), diagnostics)
    }

    /// A plain HTML request, compact.
    pub fn html(diagnostics: CanonicalDiagnosticPolicy) -> (r: Self)
        ensures
            r.spec_plain(),
            r.spec_output() is Html,
            r.spec_diagnostics() == diagnostics,
    {
        Self::plain(CompilationOutputSpecification::Html(HtmlOutputSpecification::new(false)), diagnostics)
    }

    pub fn try_new(
        output: CompilationOutputSpecification,
        diagnostics: CanonicalDiagnosticPolicy,
        inputs: Vec<(TypstInputKey, TypstInputValue)>,
        features: Vec<EngineFeature>,
        document_time: CompilationDocumentTime,
        overrides: PackOverrideSet,
    ) -> (r: Self)
        ensures
            r.spec_output() == output,
            r.spec_diagnostics() == diagnostics,
            r.spec_inputs() == inputs@,
            r.spec_features() == features@,
            r.spec_document_time() == document_time,
    {
        CompilationRequest { output, diagnostics, inputs, features, document_time, overrides }
    }

    pub fn diagnostics(&self) -> (r: Option<&CanonicalDiagnosticPolicy>)
        ensures
            r == Some(&self.spec_diagnostics()),
    {
        Some(&self.diagnostics)
    }

    pub fn output(&self) -> (r: &CompilationOutputSpecification)
        ensures
            *r == self.spec_output(),
    {
        &self.output
    }
}

/// The position of an entry in an originating evidence table.
#[derive(Clone, Copy, Debug, Eq, Ord, PartialEq, PartialOrd, Structural)]
pub struct OriginatingEvidenceReference {
    ordinal: u64,
}

impl OriginatingEvidenceReference {
    pub closed spec fn spec_ordinal(self) -> u64 {
        self.ordinal
    }

    pub(crate) fn new(ordinal: u64) -> (r: Self)
        ensures
            r.spec_ordinal() == ordinal,
    {
        OriginatingEvidenceReference { ordinal }
    }

    pub fn ordinal(self) -> (r: u64)
        ensures
            r == self.spec_ordinal(),
    {
        self.ordinal
    }
}

/// The dependency evidence of one compilation attempt.
pub struct DependencyEvidenceTableView {
    entries: Vec<DependencyEvidenceEntryView>,
}

impl DependencyEvidenceTableView {
    pub closed spec fn spec_entries(&self) -> Vec<DependencyEvidenceEntryView> {
        self.entries
    }

    pub(crate) fn new(entries: Vec<DependencyEvidenceEntryView>) -> (r: Self)
        ensures
            r.spec_entries() == entries,
    {
        DependencyEvidenceTableView { entries }
    }

    pub fn entries(&self) -> (r: &[DependencyEvidenceEntryView])
        ensures
            r@ == self.spec_entries()@,
    {
        self.entries.as_slice()
    }
}

/// Dependency evidence with every sensitive detail removed.
pub struct SafeDependencyEvidenceTableView {
    entries: Vec<SafeDependencyEvidenceEntryView>,
}

impl SafeDependencyEvidenceTableView {
    pub closed spec fn spec_entries(&self) -> Vec<SafeDependencyEvidenceEntryView> {
        self.entries
    }

    pub(crate) fn new(entries: Vec<SafeDependencyEvidenceEntryView>) -> (r: Self)
        ensures
            r.spec_entries() == entries,
    {
        SafeDependencyEvidenceTableView { entries }
    }

    pub fn entries(&self) -> (r: &[SafeDependencyEvidenceEntryView])
        ensures
            r@ == self.spec_entries()@,
    {
        self.entries.as_slice()
    }
}

/// The canonical diagnostics a result retained under its policy.
pub struct CanonicalDiagnosticEnvelopeView {
    policy: CanonicalDiagnosticPolicy,
    retained_entries: u64,
    retained_canonical_bytes: u64,
    completion: CanonicalDiagnosticCompletion,
    entries: Vec<CanonicalDiagnosticEntryView>,
}

impl CanonicalDiagnosticEnvelopeView {
    pub closed spec fn spec_policy(&self) -> CanonicalDiagnosticPolicy {
        self.policy
    }

    pub closed spec fn spec_retained_entries(&self) -> u64 {
        self.retained_entries
    }

    pub closed spec fn spec_retained_canonical_bytes(&self) -> u64 {
        self.retained_canonical_bytes
    }

    pub closed spec fn spec_completion(&self) -> CanonicalDiagnosticCompletion {
        self.completion
    }

    pub closed spec fn spec_entries(&self) -> Vec<CanonicalDiagnosticEntryView> {
        self.entries
    }

    pub(crate) fn new(policy: CanonicalDiagnosticPolicy, retained_entries: u64, retained_canonical_bytes: u64, completion: CanonicalDiagnosticCompletion, entries: Vec<CanonicalDiagnosticEntryView>) -> (r: Self)
        ensures
            r.spec_policy() == policy,
            r.spec_retained_entries() == retained_entries,
            r.spec_retained_canonical_bytes() == retained_canonical_bytes,
            r.spec_completion() == completion,
            r.spec_entries() == entries,
    {
        CanonicalDiagnosticEnvelopeView { policy, retained_entries, retained_canonical_bytes, completion, entries }
    }

    pub fn policy(&self) -> (r: &CanonicalDiagnosticPolicy)
        ensures
            *r == self.spec_policy(),
    {
        &self.policy
    }

    pub fn retained_entries(&self) -> (r: u64)
        ensures
            r == self.spec_retained_entries(),
    {
        self.retained_entries
    }

    pub fn retained_canonical_bytes(&self) -> (r: u64)
        ensures
            r == self.spec_retained_canonical_bytes(),
    {
        self.retained_canonical_bytes
    }

    pub fn completion(&self) -> (r: CanonicalDiagnosticCompletion)
        ensures
            r == self.spec_completion(),
    {
        self.completion
    }

    pub fn entries(&self) -> (r: &[CanonicalDiagnosticEntryView])
        ensures
            r@ == self.spec_entries()@,
    {
        self.entries.as_slice()
    }
}

/// What kind of document a compilation produced.
pub struct CompilationDocumentSummaryView {
    target: TypstTarget,
    source_page_count: Option<u32>,
}

impl CompilationDocumentSummaryView {
    pub closed spec fn spec_target(&self) -> TypstTarget {
        self.target
    }

    pub closed spec fn spec_source_page_count(&self) -> Option<u32> {
        self.source_page_count
    }

    pub(crate) fn new(target: TypstTarget, source_page_count: Option<u32>) -> (r: Self)
        ensures
            r.spec_target() == target,
            r.spec_source_page_count() == source_page_count,
    {
        CompilationDocumentSummaryView { target, source_page_count }
    }

    pub fn target(&self) -> (r: TypstTarget)
        ensures
            r == self.spec_target(),
    {
        self.target
    }

    pub fn source_page_count(&self) -> (r: Option<u32>)
        ensures
            r == self.spec_source_page_count(),
    {
        self.source_page_count
    }
}

/// What a compilation read, and how far its trace reached.
pub struct CompilationAccessTraceView {
    observations: Vec<CompilationAccessObservationView>,
    reached_scope: CompilationAccessTraceReachedScope,
}

impl CompilationAccessTraceView {
    pub closed spec fn spec_observations(&self) -> Vec<CompilationAccessObservationView> {
        self.observations
    }

    pub closed spec fn spec_reached_scope(&self) -> CompilationAccessTraceReachedScope {
        self.reached_scope
    }

    pub(crate) fn new(observations: Vec<CompilationAccessObservationView>, reached_scope: CompilationAccessTraceReachedScope) -> (r: Self)
        ensures
            r.spec_observations() == observations,
            r.spec_reached_scope() == reached_scope,
    {
        CompilationAccessTraceView { observations, reached_scope }
    }

    pub fn observations(&self) -> (r: &[CompilationAccessObservationView])
        ensures
            r@ == self.spec_observations()@,
    {
        self.observations.as_slice()
    }

    pub fn reached_scope(&self) -> (r: &CompilationAccessTraceReachedScope)
        ensures
            *r == self.spec_reached_scope(),
    {
        &self.reached_scope
    }
}

/// The semantic result of a compilation.
pub struct CompilationResult {
    identity: CompilationResultIdentity,
    succeeded: bool,
    artifacts: Vec<CompilationArtifactView>,
    diagnostics: CanonicalDiagnosticEnvelopeView,
    document_summary: CompilationDocumentSummaryView,
    access_trace: CompilationAccessTraceView,
}

impl CompilationResult {
    pub closed spec fn spec_identity(&self) -> CompilationResultIdentity {
        self.identity
    }

    pub closed spec fn spec_succeeded(&self) -> bool {
        self.succeeded
    }

    pub closed spec fn spec_artifacts(&self) -> Vec<CompilationArtifactView> {
        self.artifacts
    }

    pub closed spec fn spec_diagnostics(&self) -> CanonicalDiagnosticEnvelopeView {
        self.diagnostics
    }

    pub closed spec fn spec_document_summary(&self) -> CompilationDocumentSummaryView {
        self.document_summary
    }

    pub closed spec fn spec_access_trace(&self) -> CompilationAccessTraceView {
        self.access_trace
    }

    pub(crate) fn new(identity: CompilationResultIdentity, succeeded: bool, artifacts: Vec<CompilationArtifactView>, diagnostics: CanonicalDiagnosticEnvelopeView, document_summary: CompilationDocumentSummaryView, access_trace: CompilationAccessTraceView) -> (r: Self)
        ensures
            r.spec_identity() == identity,
            r.spec_succeeded() == succeeded,
            r.spec_artifacts() == artifacts,
            r.spec_diagnostics() == diagnostics,
            r.spec_document_summary() == document_summary,
            r.spec_access_trace() == access_trace,
    {
        CompilationResult { identity, succeeded, artifacts, diagnostics, document_summary, access_trace }
    }

    pub fn identity(&self) -> (r: &CompilationResultIdentity)
        ensures
            *r == self.spec_identity(),
    {
        &self.identity
    }

    pub fn succeeded(&self) -> (r: bool)
        ensures
            r == self.spec_succeeded(),
    {
        self.succeeded
    }

    pub fn artifacts(&self) -> (r: &[CompilationArtifactView])
        ensures
            r@ == self.spec_artifacts()@,
    {
        self.artifacts.as_slice()
    }

    pub fn diagnostics(&self) -> (r: &CanonicalDiagnosticEnvelopeView)
        ensures
            *r == self.spec_diagnostics(),
    {
        &self.diagnostics
    }

    pub fn document_summary(&self) -> (r: &CompilationDocumentSummaryView)
        ensures
            *r == self.spec_document_summary(),
    {
        &self.document_summary
    }

    pub fn access_trace(&self) -> (r: &CompilationAccessTraceView)
        ensures
            *r == self.spec_access_trace(),
    {
        &self.access_trace
    }
}

/// Every member of a compilation request, as it was taken.
pub struct CompilationRequestInventoryView {
    entries: Vec<CompilationRequestInventoryEntryView>,
}

impl CompilationRequestInventoryView {
    pub closed spec fn spec_entries(&self) -> Vec<CompilationRequestInventoryEntryView> {
        self.entries
    }

    pub(crate) fn new(entries: Vec<CompilationRequestInventoryEntryView>) -> (r: Self)
        ensures
            r.spec_entries() == entries,
    {
        CompilationRequestInventoryView { entries }
    }

    pub fn entries(&self) -> (r: &[CompilationRequestInventoryEntryView])
        ensures
            r@ == self.spec_entries()@,
    {
        self.entries.as_slice()
    }
}

/// A refused compilation request and the issues that refused it.
pub struct CompilationRequestRejection {
    resource_profile: Option<crate::ResourceProfileIdentity>,
    requested_limits: CompilationResourceLimits,
    admitted_limits: CompilationResourceLimits,
    request_inventory: CompilationRequestInventoryView,
    issues: Vec<CompilationRequestIssueView>,
}

impl CompilationRequestRejection {
    pub closed spec fn spec_resource_profile(&self) -> Option<crate::ResourceProfileIdentity> {
        self.resource_profile
    }

    pub closed spec fn spec_requested_limits(&self) -> CompilationResourceLimits {
        self.requested_limits
    }

    pub closed spec fn spec_admitted_limits(&self) -> CompilationResourceLimits {
        self.admitted_limits
    }

    pub closed spec fn spec_request_inventory(&self) -> CompilationRequestInventoryView {
        self.request_inventory
    }

    pub closed spec fn spec_issues(&self) -> Vec<CompilationRequestIssueView> {
        self.issues
    }

    pub(crate) fn new(resource_profile: Option<crate::ResourceProfileIdentity>, requested_limits: CompilationResourceLimits, admitted_limits: CompilationResourceLimits, request_inventory: CompilationRequestInventoryView, issues: Vec<CompilationRequestIssueView>) -> (r: Self)
        ensures
            r.spec_resource_profile() == resource_profile,
            r.spec_requested_limits() == requested_limits,
            r.spec_admitted_limits() == admitted_limits,
            r.spec_request_inventory() == request_inventory,
            r.spec_issues() == issues,
    {
        CompilationRequestRejection { resource_profile, requested_limits, admitted_limits, request_inventory, issues }
    }

    pub fn resource_profile(&self) -> (r: Option<&crate::ResourceProfileIdentity>)
        ensures
            match r {
                Some(x) => self.spec_resource_profile() == Some(*x),
                None => self.spec_resource_profile() is None,
            },
    {
        self.resource_profile.as_ref()
    }

    pub fn requested_limits(&self) -> (r: &CompilationResourceLimits)
        ensures
            *r == self.spec_requested_limits(),
    {
        &self.requested_limits
    }

    pub fn admitted_limits(&self) -> (r: &CompilationResourceLimits)
        ensures
            *r == self.spec_admitted_limits(),
    {
        &self.admitted_limits
    }

    pub fn request_inventory(&self) -> (r: &CompilationRequestInventoryView)
        ensures
            *r == self.spec_request_inventory(),
    {
        &self.request_inventory
    }

    pub fn issues(&self) -> (r: &[CompilationRequestIssueView])
        ensures
            r@ == self.spec_issues()@,
    {
        self.issues.as_slice()
    }
}

/// How a compilation was admitted and run.
pub struct CompilationOperationalInventoryView {
    admission: CompilationAdmissionInventoryView,
    resources: CompilationResourcesInventoryView,
    dependency_execution: CompilationDependencyExecutionInventoryView,
    attempt_control: CompilationAttemptControlInventoryView,
    role_execution: CompilationExecutionInventoryView,
    reporting: CompilationReportingInventoryView,
}

impl CompilationOperationalInventoryView {
    pub closed spec fn spec_admission(&self) -> CompilationAdmissionInventoryView {
        self.admission
    }

    pub closed spec fn spec_resources(&self) -> CompilationResourcesInventoryView {
        self.resources
    }

    pub closed spec fn spec_dependency_execution(&self) -> CompilationDependencyExecutionInventoryView {
        self.dependency_execution
    }

    pub closed spec fn spec_attempt_control(&self) -> CompilationAttemptControlInventoryView {
        self.attempt_control
    }

    pub closed spec fn spec_role_execution(&self) -> CompilationExecutionInventoryView {
        self.role_execution
    }

    pub closed spec fn spec_reporting(&self) -> CompilationReportingInventoryView {
        self.reporting
    }

    pub(crate) fn new(admission: CompilationAdmissionInventoryView, resources: CompilationResourcesInventoryView, dependency_execution: CompilationDependencyExecutionInventoryView, attempt_control: CompilationAttemptControlInventoryView, role_execution: CompilationExecutionInventoryView, reporting: CompilationReportingInventoryView) -> (r: Self)
        ensures
            r.spec_admission() == admission,
            r.spec_resources() == resources,
            r.spec_dependency_execution() == dependency_execution,
            r.spec_attempt_control() == attempt_control,
            r.spec_role_execution() == role_execution,
            r.spec_reporting() == reporting,
    {
        CompilationOperationalInventoryView { admission, resources, dependency_execution, attempt_control, role_execution, reporting }
    }

    pub fn admission(&self) -> (r: &CompilationAdmissionInventoryView)
        ensures
            *r == self.spec_admission(),
    {
        &self.admission
    }

    pub fn resources(&self) -> (r: &CompilationResourcesInventoryView)
        ensures
            *r == self.spec_resources(),
    {
        &self.resources
    }

    pub fn dependency_execution(&self) -> (r: &CompilationDependencyExecutionInventoryView)
        ensures
            *r == self.spec_dependency_execution(),
    {
        &self.dependency_execution
    }

    pub fn attempt_control(&self) -> (r: &CompilationAttemptControlInventoryView)
        ensures
            *r == self.spec_attempt_control(),
    {
        &self.attempt_control
    }

    pub fn role_execution(&self) -> (r: &CompilationExecutionInventoryView)
        ensures
            *r == self.spec_role_execution(),
    {
        &self.role_execution
    }

    pub fn reporting(&self) -> (r: &CompilationReportingInventoryView)
        ensures
            *r == self.spec_reporting(),
    {
        &self.reporting
    }
}

/// The report of one compilation: its result or the outcome that ended it.
pub struct CompilationReport {
    compilation_identity: CompilationIdentity,
    result: Option<CompilationResult>,
    outcome: Option<CompilationOperationOutcome>,
    request_inventory: CompilationRequestInventoryView,
    current_attempt_evidence: DependencyEvidenceTableView,
    access_trace: CompilationReportAccessTraceView,
    operational_inventory: CompilationOperationalInventoryView,
    cache_provenance: SemanticCacheProvenance,
    evidence_scope: DependencyEvidenceScope,
}

impl CompilationReport {
    pub closed spec fn spec_compilation_identity(&self) -> CompilationIdentity {
        self.compilation_identity
    }

    pub closed spec fn spec_result(&self) -> Option<CompilationResult> {
        self.result
    }

    pub closed spec fn spec_outcome(&self) -> Option<CompilationOperationOutcome> {
        self.outcome
    }

    pub closed spec fn spec_request_inventory(&self) -> CompilationRequestInventoryView {
        self.request_inventory
    }

    pub closed spec fn spec_current_attempt_evidence(&self) -> DependencyEvidenceTableView {
        self.current_attempt_evidence
    }

    pub closed spec fn spec_access_trace(&self) -> CompilationReportAccessTraceView {
        self.access_trace
    }

    pub closed spec fn spec_operational_inventory(&self) -> CompilationOperationalInventoryView {
        self.operational_inventory
    }

    pub closed spec fn spec_cache_provenance(&self) -> SemanticCacheProvenance {
        self.cache_provenance
    }

    pub closed spec fn spec_evidence_scope(&self) -> DependencyEvidenceScope {
        self.evidence_scope
    }

    pub(crate) fn new(compilation_identity: CompilationIdentity, result: Option<CompilationResult>, outcome: Option<CompilationOperationOutcome>, request_inventory: CompilationRequestInventoryView, current_attempt_evidence: DependencyEvidenceTableView, access_trace: CompilationReportAccessTraceView, operational_inventory: CompilationOperationalInventoryView, cache_provenance: SemanticCacheProvenance, evidence_scope: DependencyEvidenceScope) -> (r: Self)
        ensures
            r.spec_compilation_identity() == compilation_identity,
            r.spec_result() == result,
            r.spec_outcome() == outcome,
            r.spec_request_inventory() == request_inventory,
            r.spec_current_attempt_evidence() == current_attempt_evidence,
            r.spec_access_trace() == access_trace,
            r.spec_operational_inventory() == operational_inventory,
            r.spec_cache_provenance() == cache_provenance,
            r.spec_evidence_scope() == evidence_scope,
    {
        CompilationReport { compilation_identity, result, outcome, request_inventory, current_attempt_evidence, access_trace, operational_inventory, cache_provenance, evidence_scope }
    }

    pub fn compilation_identity(&self) -> (r: &CompilationIdentity)
        ensures
            *r == self.spec_compilation_identity(),
    {
        &self.compilation_identity
    }

    pub fn result(&self) -> (r: Option<&CompilationResult>)
        ensures
            match r {
                Some(x) => self.spec_result() == Some(*x),
                None => self.spec_result() is None,
            },
    {
        self.result.as_ref()
    }

    pub fn outcome(&self) -> (r: Option<&CompilationOperationOutcome>)
        ensures
            match r {
                Some(x) => self.spec_outcome() == Some(*x),
                None => self.spec_outcome() is None,
            },
    {
        self.outcome.as_ref()
    }

    pub fn request_inventory(&self) -> (r: &CompilationRequestInventoryView)
        ensures
            *r == self.spec_request_inventory(),
    {
        &self.request_inventory
    }

    pub fn current_attempt_evidence(&self) -> (r: &DependencyEvidenceTableView)
        ensures
            *r == self.spec_current_attempt_evidence(),
    {
        &self.current_attempt_evidence
    }

    pub fn access_trace(&self) -> (r: &CompilationReportAccessTraceView)
        ensures
            *r == self.spec_access_trace(),
    {
        &self.access_trace
    }

    pub fn operational_inventory(&self) -> (r: &CompilationOperationalInventoryView)
        ensures
            *r == self.spec_operational_inventory(),
    {
        &self.operational_inventory
    }

    pub fn cache_provenance(&self) -> (r: SemanticCacheProvenance)
        ensures
            r == self.spec_cache_provenance(),
    {
        self.cache_provenance
    }

    pub fn evidence_scope(&self) -> (r: DependencyEvidenceScope)
        ensures
            r == self.spec_evidence_scope(),
    {
        self.evidence_scope
    }
}

/// Why a cache's declared capabilities are incoherent, if they are: it both
/// requires availability and continues when unavailable, or its records are
/// neither authenticated nor written by a trusted domain.
pub open spec fn cache_descriptor_rejection(spec: SemanticResultCacheCapabilitySpec) -> Option<crate::OperationAdmissionRefusalReason> {
    if (spec.required_availability && spec.continue_on_unavailable) || (!spec.authenticated_records
        && !spec.trusted_writer_domain) {
        Some(crate::OperationAdmissionRefusalReason::IncoherentDescriptor)
    } else {
        None
    }
}

/// The capabilities a semantic result cache declares, for one isolation
/// domain.
pub struct SemanticResultCacheCapabilityDescriptor {
    isolation: CacheIsolationDomain,
    spec: SemanticResultCacheCapabilitySpec,
}

impl SemanticResultCacheCapabilityDescriptor {
    pub closed spec fn spec_isolation(&self) -> Seq<char> {
        self.isolation@
    }

    pub closed spec fn spec_capabilities(&self) -> SemanticResultCacheCapabilitySpec {
        self.spec
    }

    pub fn try_new(isolation: CacheIsolationDomain, spec: SemanticResultCacheCapabilitySpec) -> (r: Result<
        Self,
        crate::OperationAdmissionRefusalReason,
    >)
        ensures
            match r {
                Ok(d) => cache_descriptor_rejection(spec) is None && d.spec_isolation() == isolation@
                    && d.spec_capabilities() == spec,
                Err(e) => cache_descriptor_rejection(spec) == Some(e),
            },
    {
        if (spec.required_availability && spec.continue_on_unavailable) || (!spec.authenticated_records
            && !spec.trusted_writer_domain) {
            return Err(crate::OperationAdmissionRefusalReason::IncoherentDescriptor);
        }
        Ok(SemanticResultCacheCapabilityDescriptor { isolation, spec })
    }

    pub fn descriptor_version(&self) -> (r: u32)
        ensures
            r == 1,
    {
        1
    }

    pub fn class(&self) -> (r: &crate::OperationalCapabilityClass)
        ensures
            *r == self.spec_capabilities().class,
    {
        &self.spec.class
    }

    pub fn network(&self) -> (r: crate::SelectedNetworkContract)
        ensures
            r == self.spec_capabilities().network,
    {
        self.spec.network
    }

    pub fn capabilities(&self) -> (r: &SemanticResultCacheCapabilitySpec)
        ensures
            *r == self.spec_capabilities(),
    {
        &self.spec
    }

    pub fn isolation(&self) -> (r: &CacheIsolationDomain)
        ensures
            r@ == self.spec_isolation(),
    {
        &self.isolation
    }
}

/// Why an engine runtime domain policy is incoherent, if it is: it names no
/// placement, or an unmanaged domain promises a width.
pub open spec fn domain_policy_rejection(spec: EngineRuntimeDomainPolicySpec) -> Option<crate::OperationAdmissionRefusalReason> {
    if spec.supported_placements@.len() == 0 {
        Some(crate::OperationAdmissionRefusalReason::IncoherentDescriptor)
    } else if !spec.managed && !(spec.width_policy is InheritedUnmanaged) {
        Some(crate::OperationAdmissionRefusalReason::EngineWidth)
    } else {
        None
    }
}

/// How an engine runtime domain is managed and shared.
pub struct EngineRuntimeDomainPolicyDescriptor {
    spec: EngineRuntimeDomainPolicySpec,
}

impl EngineRuntimeDomainPolicyDescriptor {
    pub closed spec fn spec_capabilities(&self) -> EngineRuntimeDomainPolicySpec {
        self.spec
    }

    pub fn try_new(spec: EngineRuntimeDomainPolicySpec) -> (r: Result<Self, crate::OperationAdmissionRefusalReason>)
        ensures
            match r {
                Ok(d) => domain_policy_rejection(spec) is None && d.spec_capabilities() == spec,
                Err(e) => domain_policy_rejection(spec) == Some(e),
            },
    {
        if spec.supported_placements.len() == 0 {
            return Err(crate::OperationAdmissionRefusalReason::IncoherentDescriptor);
        }
        if !spec.managed {
            match spec.width_policy {
                crate::EngineWidthRequest::InheritedUnmanaged => {},
                _ => return Err(crate::OperationAdmissionRefusalReason::EngineWidth),
            }
        }
        Ok(EngineRuntimeDomainPolicyDescriptor { spec })
    }

    pub fn descriptor_version(&self) -> (r: u32)
        ensures
            r == 1,
    {
        1
    }

    pub fn class(&self) -> (r: &crate::OperationalCapabilityClass)
        ensures
            *r == self.spec_capabilities().class,
    {
        &self.spec.class
    }

    pub fn width_policy(&self) -> (r: crate::EngineWidthRequest)
        ensures
            r == self.spec_capabilities().width_policy,
    {
        self.spec.width_policy
    }

    pub fn capabilities(&self) -> (r: &EngineRuntimeDomainPolicySpec)
        ensures
            *r == self.spec_capabilities(),
    {
        &self.spec
    }
}

/// The identity of one engine runtime domain, assigned by its parent.
#[derive(Clone, Debug, Eq, Ord, PartialEq, PartialOrd)]
pub struct EngineRuntimeDomainIdentity {
    value: String,
}

impl View for EngineRuntimeDomainIdentity {
    type V = Seq<char>;

    closed spec fn view(&self) -> Seq<char> {
        self.value@
    }
}

impl EngineRuntimeDomainIdentity {
    pub fn try_new(value: &str) -> (r: Result<Self, crate::DomainValueRejection>)
        ensures
            match r {
                Ok(i) => value@.len() > 0 && i@ == value@,
                Err(e) => value@.len() == 0 && e == crate::DomainValueRejection::Empty,
            },
    {
        if value.is_empty() {
            return Err(crate::DomainValueRejection::Empty);
        }
        Ok(EngineRuntimeDomainIdentity { value: value.to_owned() })
    }

    pub fn as_str(&self) -> (r: &str)
        ensures
            r@ == self@,
    {
        self.value.as_str()
    }
}

/// Why an execution facility's declared capabilities are incoherent, if
/// they are, checked in this order: it supports no placement, it offers
/// workers without a worker protocol, or it claims isolated interruption
/// without terminating and reaping its workers.
pub open spec fn execution_facility_rejection(spec: CompilationExecutionFacilityCapabilitySpec) -> Option<
    crate::OperationAdmissionRefusalReason,
> {
    if spec.supported_placements@.len() == 0 {
        Some(crate::OperationAdmissionRefusalReason::ExecutionPlacement)
    } else if spec.supported_placements@.contains(crate::ExecutionPlacement::Worker) && spec.worker_protocol is None {
        Some(crate::OperationAdmissionRefusalReason::IncoherentDescriptor)
    } else if spec.interruption == crate::OperationInterruptionStrength::Isolated && !spec.terminate_and_reap {
        Some(crate::OperationAdmissionRefusalReason::InterruptionStrength)
    } else {
        None
    }
}

fn contains_placement(v: &[crate::ExecutionPlacement], p: crate::ExecutionPlacement) -> (r: bool)
    ensures
        r == v@.contains(p),
{
    let mut i: usize = 0;
    while i < v.len()
        invariant
            i <= v@.len(),
            forall|k: int| 0 <= k < i ==> v@[k] != p,
        decreases v@.len() - i,
    {
        if v[i] == p {
            return true;
        }
        i = i + 1;
    }
    false
}

/// The capabilities a compilation execution facility declares.
pub struct CompilationExecutionFacilityCapabilityDescriptor {
    spec: CompilationExecutionFacilityCapabilitySpec,
}

impl CompilationExecutionFacilityCapabilityDescriptor {
    pub closed spec fn spec_capabilities(&self) -> CompilationExecutionFacilityCapabilitySpec {
        self.spec
    }

    pub fn try_new(spec: CompilationExecutionFacilityCapabilitySpec) -> (r: Result<
        Self,
        crate::OperationAdmissionRefusalReason,
    >)
        ensures
            match r {
                Ok(d) => execution_facility_rejection(spec) is None && d.spec_capabilities() == spec,
                Err(e) => execution_facility_rejection(spec) == Some(e),
            },
    {
        if spec.supported_placements.len() == 0 {
            return Err(crate::OperationAdmissionRefusalReason::ExecutionPlacement);
        }
        if contains_placement(spec.supported_placements.as_slice(), crate::ExecutionPlacement::Worker)
            && spec.worker_protocol.is_none() {
            return Err(crate::OperationAdmissionRefusalReason::IncoherentDescriptor);
        }
        if spec.interruption == crate::OperationInterruptionStrength::Isolated && !spec.terminate_and_reap {
            return Err(crate::OperationAdmissionRefusalReason::InterruptionStrength);
        }
        Ok(CompilationExecutionFacilityCapabilityDescriptor { spec })
    }

    pub fn descriptor_version(&self) -> (r: u32)
        ensures
            r == 1,
    {
        1
    }

    pub fn class(&self) -> (r: &crate::OperationalCapabilityClass)
        ensures
            *r == self.spec_capabilities().class,
    {
        &self.spec.class
    }

    pub fn capacity_scope_class(&self) -> (r: &crate::OperationalCapabilityClass)
        ensures
            *r == self.spec_capabilities().capacity_scope_class,
    {
        &self.spec.capacity_scope_class
    }

    pub fn domain_policy(&self) -> (r: &EngineRuntimeDomainPolicyDescriptor)
        ensures
            *r == self.spec_capabilities().domain_policy,
    {
        &self.spec.domain_policy
    }

    pub fn maximum_capacity(&self) -> (r: CompilationExecutionFacilityMaximumCapacity)
        ensures
            r.ready_jobs == self.spec_capabilities().ready_job_capacity,
            r.queue == self.spec_capabilities().queue_capacity,
            r.workers == self.spec_capabilities().worker_capacity,
    {
        CompilationExecutionFacilityMaximumCapacity {
            ready_jobs: self.spec.ready_job_capacity,
            queue: self.spec.queue_capacity,
            workers: self.spec.worker_capacity,
        }
    }

    pub fn capabilities(&self) -> (r: &CompilationExecutionFacilityCapabilitySpec)
        ensures
            *r == self.spec_capabilities(),
    {
        &self.spec
    }
}

/// A compilation operation that was refused admission, with what it asked for.
pub struct CompilationAdmissionRefusal {
    operation_request: CompilationOperationRequest,
    requested_trust: crate::DeploymentTrustProfile,
    resource_profile: Option<crate::ResourceProfileIdentity>,
    requested_limits: CompilationResourceLimits,
    packages: crate::authority::PackageAuthorityCapabilityDescriptor,
    fonts: crate::authority::FontAuthorityCapabilityDescriptor,
    cache: Option<SemanticResultCacheCapabilityDescriptor>,
    execution: Option<CompilationExecutionFacilityCapabilityDescriptor>,
    reason: crate::OperationAdmissionRefusalReason,
}

impl CompilationAdmissionRefusal {
    pub closed spec fn spec_operation_request(&self) -> CompilationOperationRequest {
        self.operation_request
    }

    pub closed spec fn spec_requested_trust(&self) -> crate::DeploymentTrustProfile {
        self.requested_trust
    }

    pub closed spec fn spec_resource_profile(&self) -> Option<crate::ResourceProfileIdentity> {
        self.resource_profile
    }

    pub closed spec fn spec_requested_limits(&self) -> CompilationResourceLimits {
        self.requested_limits
    }

    pub closed spec fn spec_packages(&self) -> crate::authority::PackageAuthorityCapabilityDescriptor {
        self.packages
    }

    pub closed spec fn spec_fonts(&self) -> crate::authority::FontAuthorityCapabilityDescriptor {
        self.fonts
    }

    pub closed spec fn spec_cache(&self) -> Option<SemanticResultCacheCapabilityDescriptor> {
        self.cache
    }

    pub closed spec fn spec_execution(&self) -> Option<CompilationExecutionFacilityCapabilityDescriptor> {
        self.execution
    }

    pub closed spec fn spec_reason(&self) -> crate::OperationAdmissionRefusalReason {
        self.reason
    }

    pub(crate) fn new(operation_request: CompilationOperationRequest, requested_trust: crate::DeploymentTrustProfile, resource_profile: Option<crate::ResourceProfileIdentity>, requested_limits: CompilationResourceLimits, packages: crate::authority::PackageAuthorityCapabilityDescriptor, fonts: crate::authority::FontAuthorityCapabilityDescriptor, cache: Option<SemanticResultCacheCapabilityDescriptor>, execution: Option<CompilationExecutionFacilityCapabilityDescriptor>, reason: crate::OperationAdmissionRefusalReason) -> (r: Self)
        ensures
            r.spec_operation_request() == operation_request,
            r.spec_requested_trust() == requested_trust,
            r.spec_resource_profile() == resource_profile,
            r.spec_requested_limits() == requested_limits,
            r.spec_packages() == packages,
            r.spec_fonts() == fonts,
            r.spec_cache() == cache,
            r.spec_execution() == execution,
            r.spec_reason() == reason,
    {
        CompilationAdmissionRefusal { operation_request, requested_trust, resource_profile, requested_limits, packages, fonts, cache, execution, reason }
    }

    pub fn operation_request(&self) -> (r: &CompilationOperationRequest)
        ensures
            *r == self.spec_operation_request(),
    {
        &self.operation_request
    }

    pub fn requested_trust(&self) -> (r: crate::DeploymentTrustProfile)
        ensures
            r == self.spec_requested_trust(),
    {
        self.requested_trust
    }

    pub fn resource_profile(&self) -> (r: Option<&crate::ResourceProfileIdentity>)
        ensures
            match r {
                Some(x) => self.spec_resource_profile() == Some(*x),
                None => self.spec_resource_profile() is None,
            },
    {
        self.resource_profile.as_ref()
    }

    pub fn requested_limits(&self) -> (r: &CompilationResourceLimits)
        ensures
            *r == self.spec_requested_limits(),
    {
        &self.requested_limits
    }

    pub fn packages(&self) -> (r: &crate::authority::PackageAuthorityCapabilityDescriptor)
        ensures
            *r == self.spec_packages(),
    {
        &self.packages
    }

    pub fn fonts(&self) -> (r: &crate::authority::FontAuthorityCapabilityDescriptor)
        ensures
            *r == self.spec_fonts(),
    {
        &self.fonts
    }

    pub fn cache(&self) -> (r: Option<&SemanticResultCacheCapabilityDescriptor>)
        ensures
            match r {
                Some(x) => self.spec_cache() == Some(*x),
                None => self.spec_cache() is None,
            },
    {
        self.cache.as_ref()
    }

    pub fn execution(&self) -> (r: Option<&CompilationExecutionFacilityCapabilityDescriptor>)
        ensures
            match r {
                Some(x) => self.spec_execution() == Some(*x),
                None => self.spec_execution() is None,
            },
    {
        self.execution.as_ref()
    }

    pub fn reason(&self) -> (r: crate::OperationAdmissionRefusalReason)
        ensures
            r == self.spec_reason(),
    {
        self.reason
    }
}

/// A cache record, as it came from an untrusted cache.
#[derive(Clone)]
pub struct SemanticCacheRecord {
    bytes: StableByteValue,
}

impl SemanticCacheRecord {
    pub closed spec fn spec_bytes(&self) -> StableByteValue {
        self.bytes
    }

    pub fn from_untrusted_bytes(bytes: StableByteValue) -> (r: Self)
        ensures
            r.spec_bytes() == bytes,
    {
        SemanticCacheRecord { bytes }
    }

    pub fn bytes(&self) -> (r: &StableByteValue)
        ensures
            *r == self.spec_bytes(),
    {
        &self.bytes
    }
}

/// A reservation drawn from a cache budget.
pub struct CacheReservation {
    dimension: ResourceLimitDimension,
    bytes: u64,
}

impl CacheReservation {
    pub closed spec fn spec_bytes(&self) -> u64 {
        self.bytes
    }

    pub closed spec fn spec_dimension(&self) -> ResourceLimitDimension {
        self.dimension
    }
}

/// The bytes one cache operation may use: for its record, and retained in
/// memory. What is used never passes what is allowed.
pub struct CacheBudget {
    record_bytes: u64,
    retained_memory_bytes: u64,
    used_record_bytes: u64,
    used_retained_memory_bytes: u64,
}

impl CacheBudget {
    #[verifier::type_invariant]
    spec fn within_limits(self) -> bool {
        self.used_record_bytes <= self.record_bytes && self.used_retained_memory_bytes <= self.retained_memory_bytes
    }

    pub closed spec fn spec_record_limit(&self) -> u64 {
        self.record_bytes
    }

    pub closed spec fn spec_retained_limit(&self) -> u64 {
        self.retained_memory_bytes
    }

    pub closed spec fn spec_used_record(&self) -> u64 {
        self.used_record_bytes
    }

    pub closed spec fn spec_used_retained(&self) -> u64 {
        self.used_retained_memory_bytes
    }

    pub(crate) fn try_new(record_bytes: u64, retained_memory_bytes: u64) -> (r: Result<Self, AdmissionRefusal>)
        ensures
            r matches Ok(b) && b.spec_record_limit() == record_bytes && b.spec_retained_limit() == retained_memory_bytes
                && b.spec_used_record() == 0 && b.spec_used_retained() == 0,
    {
        Ok(CacheBudget { record_bytes, retained_memory_bytes, used_record_bytes: 0, used_retained_memory_bytes: 0 })
    }

    /// Reserves `bytes` for the record; a refusal reports the limit and what
    /// the request would have reached, and changes nothing.
    pub fn reserve_record(&mut self, bytes: u64) -> (r: Result<CacheReservation, ResourceLimitFailure>)
        ensures
            final(self).spec_record_limit() == old(self).spec_record_limit(),
            final(self).spec_retained_limit() == old(self).spec_retained_limit(),
            final(self).spec_used_retained() == old(self).spec_used_retained(),
            match r {
                Ok(res) => old(self).spec_used_record() + bytes <= old(self).spec_record_limit()
                    && final(self).spec_used_record() == old(self).spec_used_record() + bytes && res.spec_bytes() == bytes,
                Err(f) => old(self).spec_used_record() + bytes > old(self).spec_record_limit()
                    && final(self).spec_used_record() == old(self).spec_used_record() && f.dimension
                    == ResourceLimitDimension::RetainedMemory && f.limit == old(self).spec_record_limit(),
            },
    {
        proof {
            use_type_invariant(&*self);
        }
        if bytes > self.record_bytes - self.used_record_bytes {
            let observed = self.used_record_bytes.checked_add(bytes);
            return Err(ResourceLimitFailure { dimension: ResourceLimitDimension::RetainedMemory, limit: self.record_bytes, observed });
        }
        self.used_record_bytes = self.used_record_bytes + bytes;
        Ok(CacheReservation { dimension: ResourceLimitDimension::RetainedMemory, bytes })
    }

    /// Reserves `bytes` of retained memory, with the same rules as
    /// `reserve_record`.
    pub fn reserve_retained(&mut self, bytes: u64) -> (r: Result<CacheReservation, ResourceLimitFailure>)
        ensures
            final(self).spec_record_limit() == old(self).spec_record_limit(),
            final(self).spec_retained_limit() == old(self).spec_retained_limit(),
            final(self).spec_used_record() == old(self).spec_used_record(),
            match r {
                Ok(res) => old(self).spec_used_retained() + bytes <= old(self).spec_retained_limit()
                    && final(self).spec_used_retained() == old(self).spec_used_retained() + bytes && res.spec_bytes()
                    == bytes,
                Err(f) => old(self).spec_used_retained() + bytes > old(self).spec_retained_limit()
                    && final(self).spec_used_retained() == old(self).spec_used_retained() && f.dimension
                    == ResourceLimitDimension::RetainedMemory && f.limit == old(self).spec_retained_limit(),
            },
    {
        proof {
            use_type_invariant(&*self);
        }
        if bytes > self.retained_memory_bytes - self.used_retained_memory_bytes {
            let observed = self.used_retained_memory_bytes.checked_add(bytes);
            return Err(ResourceLimitFailure { dimension: ResourceLimitDimension::RetainedMemory, limit: self.retained_memory_bytes, observed });
        }
        self.used_retained_memory_bytes = self.used_retained_memory_bytes + bytes;
        Ok(CacheReservation { dimension: ResourceLimitDimension::RetainedMemory, bytes })
    }
}

/// The controls of one cache operation.
pub struct CacheOperationControls<'a> {
    deadline: OperationDeadline,
    clock: (&'a dyn crate::MonotonicClock,),
    clock_domain: crate::MonotonicTimeDomain,
    interruption: (&'a dyn crate::InterruptionSource,),
    budget: &'a CacheBudget,
}

impl<'a> CacheOperationControls<'a> {
    pub closed spec fn spec_deadline(&self) -> OperationDeadline {
        self.deadline
    }

    /// The clock the operation runs against, as it was given.
    pub closed spec fn spec_clock(&self) -> (&'a dyn crate::MonotonicClock,) {
        self.clock
    }

    /// The cancellation signal of the operation, as it was given.
    pub closed spec fn spec_interruption(&self) -> (&'a dyn crate::InterruptionSource,) {
        self.interruption
    }

    /// The domain of the operation's clock, as it was when the controls were
    /// bound.
    pub closed spec fn spec_clock_domain(&self) -> crate::MonotonicTimeDomain {
        self.clock_domain
    }

    pub closed spec fn spec_budget(&self) -> &'a CacheBudget {
        self.budget
    }

    pub(crate) fn try_new(
        deadline: OperationDeadline,
        clock: &'a dyn crate::MonotonicClock,
        interruption: &'a dyn crate::InterruptionSource,
        budget: &'a CacheBudget,
    ) -> (r: Result<Self, AdmissionRefusal>)
        ensures
            match r {
                Ok(c) => crate::deadline_matches_clock(deadline, clock.spec_domain()) && c.spec_deadline() == deadline
                    && c.spec_clock_domain()@ == clock.spec_domain() && c.spec_clock() == (clock,)
                    && c.spec_interruption() == (interruption,) && c.spec_budget() == budget,
                Err(e) => !crate::deadline_matches_clock(deadline, clock.spec_domain()) && e
                    == AdmissionRefusal::MissingEnforcementCapability,
            },
    {
        if let Err(e) = crate::check_deadline_domain(&deadline, clock.domain()) {
            return Err(e);
        }
        let clock_domain = clock.domain().clone_domain();
        let kept_clock = (clock,);
        let kept_interruption = (interruption,);
        Ok(CacheOperationControls { deadline, clock: kept_clock, clock_domain, interruption: kept_interruption, budget })
    }

    pub fn deadline(&self) -> (r: &OperationDeadline)
        ensures
            *r == self.spec_deadline(),
    {
        &self.deadline
    }

    /// The clock the operation runs against.
    pub fn clock(&self) -> &'a dyn crate::MonotonicClock {
        self.clock.0
    }

    /// The cancellation signal of the operation.
    pub fn interruption(&self) -> &'a dyn crate::InterruptionSource {
        self.interruption.0
    }

    pub fn budget(&self) -> (r: &CacheBudget)
        ensures
            r == self.spec_budget(),
    {
        self.budget
    }
}

/// A semantic result cache supplied by an adapter.
pub trait SyncSemanticResultCache {
    fn descriptor(&self) -> &SemanticResultCacheCapabilityDescriptor;

    fn lookup(&self, request: SemanticCacheLookupRequest<'_>) -> SemanticCacheLookupOutcome;

    fn admit_record(&self, request: SemanticCacheAdmissionRequest<'_>) -> SemanticCacheAdapterAdmissionOutcome;
}

/// A cache that never holds a record: every lookup misses and every
/// admission finds the cache unavailable.
pub struct NoSemanticResultCache {
    descriptor: SemanticResultCacheCapabilityDescriptor,
}

impl NoSemanticResultCache {
    pub closed spec fn spec_descriptor(&self) -> SemanticResultCacheCapabilityDescriptor {
        self.descriptor
    }

    pub fn new(isolation: CacheIsolationDomain) -> (r: Self)
        ensures
            r.spec_descriptor().spec_isolation() == isolation@,
            !r.spec_descriptor().spec_capabilities().required_availability,
            r.spec_descriptor().spec_capabilities().continue_on_unavailable,
            r.spec_descriptor().spec_capabilities().network == crate::SelectedNetworkContract::NoNetwork,
    {
        let spec = SemanticResultCacheCapabilitySpec {
            class: crate::OperationalCapabilityClass::from_trusted_literal("typst-pack:no-semantic-result-cache@1"),
            network: crate::SelectedNetworkContract::NoNetwork,
            trusted_writer_domain: true,
            authenticated_records: true,
            required_availability: false,
            continue_on_unavailable: true,
        };
        NoSemanticResultCache { descriptor: SemanticResultCacheCapabilityDescriptor { isolation, spec } }
    }

    pub fn lookup_outcome(&self) -> (r: SemanticCacheLookupOutcome)
        ensures
            r is Miss,
    {
        SemanticCacheLookupOutcome::Miss
    }

    pub fn admission_outcome(&self) -> (r: SemanticCacheAdapterAdmissionOutcome)
        ensures
            r == SemanticCacheAdapterAdmissionOutcome::Unavailable,
    {
        SemanticCacheAdapterAdmissionOutcome::Unavailable
    }
}

impl SyncSemanticResultCache for NoSemanticResultCache {
    fn descriptor(&self) -> &SemanticResultCacheCapabilityDescriptor {
        &self.descriptor
    }

    fn lookup(&self, _request: SemanticCacheLookupRequest<'_>) -> SemanticCacheLookupOutcome {
        self.lookup_outcome()
    }

    fn admit_record(&self, _request: SemanticCacheAdmissionRequest<'_>) -> SemanticCacheAdapterAdmissionOutcome {
        self.admission_outcome()
    }
}

/// The admission outcome reported for what an adapter answered: the same
/// outcome, variant for variant.
pub open spec fn admission_outcome_of(value: SemanticCacheAdapterAdmissionOutcome) -> SemanticCacheAdmissionOutcome {
    match value {
        SemanticCacheAdapterAdmissionOutcome::Admitted => SemanticCacheAdmissionOutcome::Admitted,
        SemanticCacheAdapterAdmissionOutcome::Unavailable => SemanticCacheAdmissionOutcome::Unavailable,
        SemanticCacheAdapterAdmissionOutcome::AuthorizationRefused => SemanticCacheAdmissionOutcome::AuthorizationRefused,
        SemanticCacheAdapterAdmissionOutcome::IntegrityFailure => SemanticCacheAdmissionOutcome::IntegrityFailure,
        SemanticCacheAdapterAdmissionOutcome::ConflictingResult => SemanticCacheAdmissionOutcome::ConflictingResult,
        SemanticCacheAdapterAdmissionOutcome::ResourceLimit => SemanticCacheAdmissionOutcome::ResourceLimit,
        SemanticCacheAdapterAdmissionOutcome::Cancelled => SemanticCacheAdmissionOutcome::Cancelled,
        SemanticCacheAdapterAdmissionOutcome::Deadline => SemanticCacheAdmissionOutcome::Deadline,
    }
}

impl From<SemanticCacheAdapterAdmissionOutcome> for SemanticCacheAdmissionOutcome {
    fn from(value: SemanticCacheAdapterAdmissionOutcome) -> (r: Self) {
        match value {
            SemanticCacheAdapterAdmissionOutcome::Admitted => SemanticCacheAdmissionOutcome::Admitted,
            SemanticCacheAdapterAdmissionOutcome::Unavailable => SemanticCacheAdmissionOutcome::Unavailable,
            SemanticCacheAdapterAdmissionOutcome::AuthorizationRefused => SemanticCacheAdmissionOutcome::AuthorizationRefused,
            SemanticCacheAdapterAdmissionOutcome::IntegrityFailure => SemanticCacheAdmissionOutcome::IntegrityFailure,
            SemanticCacheAdapterAdmissionOutcome::ConflictingResult => SemanticCacheAdmissionOutcome::ConflictingResult,
            SemanticCacheAdapterAdmissionOutcome::ResourceLimit => SemanticCacheAdmissionOutcome::ResourceLimit,
            SemanticCacheAdapterAdmissionOutcome::Cancelled => SemanticCacheAdmissionOutcome::Cancelled,
            SemanticCacheAdapterAdmissionOutcome::Deadline => SemanticCacheAdmissionOutcome::Deadline,
        }
    }
}

impl vstd::std_specs::convert::FromSpecImpl<SemanticCacheAdapterAdmissionOutcome> for SemanticCacheAdmissionOutcome {
    open spec fn obeys_from_spec() -> bool {
        true
    }

    open spec fn from_spec(value: SemanticCacheAdapterAdmissionOutcome) -> Self {
        admission_outcome_of(value)
    }
}

/// Proof that the caller chose to disclose this channel.
pub struct CanonicalDiagnosticsDisclosureCapability {
    granted: bool,
}

impl CanonicalDiagnosticsDisclosureCapability {
    pub closed spec fn spec_granted(&self) -> bool {
        self.granted
    }

    pub fn explicitly_granted_by_caller() -> (r: Self)
        ensures
            r.spec_granted(),
    {
        CanonicalDiagnosticsDisclosureCapability { granted: true }
    }
}

/// Proof that the caller chose to disclose this channel.
pub struct CanonicalEvidenceDisclosureCapability {
    granted: bool,
}

impl CanonicalEvidenceDisclosureCapability {
    pub closed spec fn spec_granted(&self) -> bool {
        self.granted
    }

    pub fn explicitly_granted_by_caller() -> (r: Self)
        ensures
            r.spec_granted(),
    {
        CanonicalEvidenceDisclosureCapability { granted: true }
    }
}

/// Proof that the caller chose to disclose this channel.
pub struct DiagnosticSourcesDisclosureCapability {
    granted: bool,
}

impl DiagnosticSourcesDisclosureCapability {
    pub closed spec fn spec_granted(&self) -> bool {
        self.granted
    }

    pub fn explicitly_granted_by_caller() -> (r: Self)
        ensures
            r.spec_granted(),
    {
        DiagnosticSourcesDisclosureCapability { granted: true }
    }
}

/// Proof that the caller chose to disclose this channel.
pub struct RequestValuesDisclosureCapability {
    granted: bool,
}

impl RequestValuesDisclosureCapability {
    pub closed spec fn spec_granted(&self) -> bool {
        self.granted
    }

    pub fn explicitly_granted_by_caller() -> (r: Self)
        ensures
            r.spec_granted(),
    {
        RequestValuesDisclosureCapability { granted: true }
    }
}

/// Proof that the caller chose to disclose this channel.
pub struct OverrideBytesDisclosureCapability {
    granted: bool,
}

impl OverrideBytesDisclosureCapability {
    pub closed spec fn spec_granted(&self) -> bool {
        self.granted
    }

    pub fn explicitly_granted_by_caller() -> (r: Self)
        ensures
            r.spec_granted(),
    {
        OverrideBytesDisclosureCapability { granted: true }
    }
}

/// Proof that the caller chose to disclose this channel.
pub struct BackingLocatorsDisclosureCapability {
    granted: bool,
}

impl BackingLocatorsDisclosureCapability {
    pub closed spec fn spec_granted(&self) -> bool {
        self.granted
    }

    pub fn explicitly_granted_by_caller() -> (r: Self)
        ensures
            r.spec_granted(),
    {
        BackingLocatorsDisclosureCapability { granted: true }
    }
}

/// Proof that the caller chose to disclose this channel.
pub struct AdapterDetailDisclosureCapability {
    granted: bool,
}

impl AdapterDetailDisclosureCapability {
    pub closed spec fn spec_granted(&self) -> bool {
        self.granted
    }

    pub fn explicitly_granted_by_caller() -> (r: Self)
        ensures
            r.spec_granted(),
    {
        AdapterDetailDisclosureCapability { granted: true }
    }
}

/// Which report channels a caller chose to disclose.
#[derive(Clone, Copy, Debug, Eq, PartialEq, Structural)]
pub struct CompilationReportDisclosure {
    pub canonical_diagnostics: bool,
    pub canonical_evidence: bool,
    pub diagnostic_sources: bool,
    pub request_values: bool,
    pub override_bytes: bool,
    pub backing_locators: bool,
    pub adapter_detail: bool,
}

impl CompilationReportDisclosure {
    /// The disclosure that discloses nothing beyond identities.
    pub fn identity() -> (r: Self)
        ensures
            !r.canonical_diagnostics,
            !r.canonical_evidence,
            !r.diagnostic_sources,
            !r.request_values,
            !r.override_bytes,
            !r.backing_locators,
            !r.adapter_detail,
    {
        CompilationReportDisclosure { canonical_diagnostics: false, canonical_evidence: false, diagnostic_sources: false, request_values: false, override_bytes: false, backing_locators: false, adapter_detail: false }
    }

    /// This disclosure, with the canonical diagnostics channel granted too.
    pub fn with_canonical_diagnostics(self, _capability: CanonicalDiagnosticsDisclosureCapability) -> (r: Self)
        ensures
            r.canonical_diagnostics,
            r.canonical_evidence == self.canonical_evidence,
            r.diagnostic_sources == self.diagnostic_sources,
            r.request_values == self.request_values,
            r.override_bytes == self.override_bytes,
            r.backing_locators == self.backing_locators,
            r.adapter_detail == self.adapter_detail,
    {
        CompilationReportDisclosure { canonical_diagnostics: true, ..self }
    }

    /// This disclosure, with the canonical evidence channel granted too.
    pub fn with_canonical_evidence(self, _capability: CanonicalEvidenceDisclosureCapability) -> (r: Self)
        ensures
            r.canonical_evidence,
            r.canonical_diagnostics == self.canonical_diagnostics,
            r.diagnostic_sources == self.diagnostic_sources,
            r.request_values == self.request_values,
            r.override_bytes == self.override_bytes,
            r.backing_locators == self.backing_locators,
            r.adapter_detail == self.adapter_detail,
    {
        CompilationReportDisclosure { canonical_evidence: true, ..self }
    }

    /// This disclosure, with the diagnostic sources channel granted too.
    pub fn with_diagnostic_sources(self, _capability: DiagnosticSourcesDisclosureCapability) -> (r: Self)
        ensures
            r.diagnostic_sources,
            r.canonical_diagnostics == self.canonical_diagnostics,
            r.canonical_evidence == self.canonical_evidence,
            r.request_values == self.request_values,
            r.override_bytes == self.override_bytes,
            r.backing_locators == self.backing_locators,
            r.adapter_detail == self.adapter_detail,
    {
        CompilationReportDisclosure { diagnostic_sources: true, ..self }
    }

    /// This disclosure, with the request values channel granted too.
    pub fn with_request_values(self, _capability: RequestValuesDisclosureCapability) -> (r: Self)
        ensures
            r.request_values,
            r.canonical_diagnostics == self.canonical_diagnostics,
            r.canonical_evidence == self.canonical_evidence,
            r.diagnostic_sources == self.diagnostic_sources,
            r.override_bytes == self.override_bytes,
            r.backing_locators == self.backing_locators,
            r.adapter_detail == self.adapter_detail,
    {
        CompilationReportDisclosure { request_values: true, ..self }
    }

    /// This disclosure, with the override bytes channel granted too.
    pub fn with_override_bytes(self, _capability: OverrideBytesDisclosureCapability) -> (r: Self)
        ensures
            r.override_bytes,
            r.canonical_diagnostics == self.canonical_diagnostics,
            r.canonical_evidence == self.canonical_evidence,
            r.diagnostic_sources == self.diagnostic_sources,
            r.request_values == self.request_values,
            r.backing_locators == self.backing_locators,
            r.adapter_detail == self.adapter_detail,
    {
        CompilationReportDisclosure { override_bytes: true, ..self }
    }

    /// This disclosure, with the backing locators channel granted too.
    pub fn with_backing_locators(self, _capability: BackingLocatorsDisclosureCapability) -> (r: Self)
        ensures
            r.backing_locators,
            r.canonical_diagnostics == self.canonical_diagnostics,
            r.canonical_evidence == self.canonical_evidence,
            r.diagnostic_sources == self.diagnostic_sources,
            r.request_values == self.request_values,
            r.override_bytes == self.override_bytes,
            r.adapter_detail == self.adapter_detail,
    {
        CompilationReportDisclosure { backing_locators: true, ..self }
    }

    /// This disclosure, with the adapter detail channel granted too.
    pub fn with_adapter_detail(self, _capability: AdapterDetailDisclosureCapability) -> (r: Self)
        ensures
            r.adapter_detail,
            r.canonical_diagnostics == self.canonical_diagnostics,
            r.canonical_evidence == self.canonical_evidence,
            r.diagnostic_sources == self.diagnostic_sources,
            r.request_values == self.request_values,
            r.override_bytes == self.override_bytes,
            r.backing_locators == self.backing_locators,
    {
        CompilationReportDisclosure { adapter_detail: true, ..self }
    }
}

/// What a report discloses under one disclosure.
pub struct CompilationReportProjection {
    terminal: CompilationProjectionTerminalView,
    compilation_identity: CompilationIdentity,
    result_identity: Option<CompilationResultIdentity>,
    artifact_identities: Vec<CompilationArtifactDisclosureView>,
    diagnostic_summary: DiagnosticDisclosureSummary,
    canonical_diagnostic_policy: CanonicalDiagnosticPolicy,
    canonical_diagnostics_status: CompilationDisclosureChannelStatus,
    canonical_diagnostics: Vec<DiagnosticProjectionEntry>,
    canonical_evidence_status: CompilationDisclosureChannelStatus,
    canonical_evidence: Option<CanonicalEvidenceDisclosureView>,
    diagnostic_sources_status: CompilationDisclosureChannelStatus,
    diagnostic_sources: Vec<DisclosedSourceView>,
    request_values_status: CompilationDisclosureChannelStatus,
    request_values: Vec<DisclosedRequestValueView>,
    override_bytes_status: CompilationDisclosureChannelStatus,
    override_bytes: Vec<DisclosedOverrideView>,
    backing_locators_status: CompilationDisclosureChannelStatus,
    backing_locators: Vec<DisclosedBackingLocatorView>,
    adapter_detail_status: CompilationDisclosureChannelStatus,
    adapter_detail: Vec<Vec<u8>>,
}

impl CompilationReportProjection {
    pub closed spec fn spec_terminal(&self) -> CompilationProjectionTerminalView {
        self.terminal
    }

    pub closed spec fn spec_compilation_identity(&self) -> CompilationIdentity {
        self.compilation_identity
    }

    pub closed spec fn spec_result_identity(&self) -> Option<CompilationResultIdentity> {
        self.result_identity
    }

    pub closed spec fn spec_artifact_identities(&self) -> Vec<CompilationArtifactDisclosureView> {
        self.artifact_identities
    }

    pub closed spec fn spec_diagnostic_summary(&self) -> DiagnosticDisclosureSummary {
        self.diagnostic_summary
    }

    pub closed spec fn spec_canonical_diagnostic_policy(&self) -> CanonicalDiagnosticPolicy {
        self.canonical_diagnostic_policy
    }

    pub closed spec fn spec_canonical_diagnostics_status(&self) -> CompilationDisclosureChannelStatus {
        self.canonical_diagnostics_status
    }

    pub closed spec fn spec_canonical_diagnostics(&self) -> Vec<DiagnosticProjectionEntry> {
        self.canonical_diagnostics
    }

    pub closed spec fn spec_canonical_evidence_status(&self) -> CompilationDisclosureChannelStatus {
        self.canonical_evidence_status
    }

    pub closed spec fn spec_canonical_evidence(&self) -> Option<CanonicalEvidenceDisclosureView> {
        self.canonical_evidence
    }

    pub closed spec fn spec_diagnostic_sources_status(&self) -> CompilationDisclosureChannelStatus {
        self.diagnostic_sources_status
    }

    pub closed spec fn spec_diagnostic_sources(&self) -> Vec<DisclosedSourceView> {
        self.diagnostic_sources
    }

    pub closed spec fn spec_request_values_status(&self) -> CompilationDisclosureChannelStatus {
        self.request_values_status
    }

    pub closed spec fn spec_request_values(&self) -> Vec<DisclosedRequestValueView> {
        self.request_values
    }

    pub closed spec fn spec_override_bytes_status(&self) -> CompilationDisclosureChannelStatus {
        self.override_bytes_status
    }

    pub closed spec fn spec_override_bytes(&self) -> Vec<DisclosedOverrideView> {
        self.override_bytes
    }

    pub closed spec fn spec_backing_locators_status(&self) -> CompilationDisclosureChannelStatus {
        self.backing_locators_status
    }

    pub closed spec fn spec_backing_locators(&self) -> Vec<DisclosedBackingLocatorView> {
        self.backing_locators
    }

    pub closed spec fn spec_adapter_detail_status(&self) -> CompilationDisclosureChannelStatus {
        self.adapter_detail_status
    }

    pub closed spec fn spec_adapter_detail(&self) -> Vec<Vec<u8>> {
        self.adapter_detail
    }

    pub(crate) fn new(terminal: CompilationProjectionTerminalView, compilation_identity: CompilationIdentity, result_identity: Option<CompilationResultIdentity>, artifact_identities: Vec<CompilationArtifactDisclosureView>, diagnostic_summary: DiagnosticDisclosureSummary, canonical_diagnostic_policy: CanonicalDiagnosticPolicy, canonical_diagnostics_status: CompilationDisclosureChannelStatus, canonical_diagnostics: Vec<DiagnosticProjectionEntry>, canonical_evidence_status: CompilationDisclosureChannelStatus, canonical_evidence: Option<CanonicalEvidenceDisclosureView>, diagnostic_sources_status: CompilationDisclosureChannelStatus, diagnostic_sources: Vec<DisclosedSourceView>, request_values_status: CompilationDisclosureChannelStatus, request_values: Vec<DisclosedRequestValueView>, override_bytes_status: CompilationDisclosureChannelStatus, override_bytes: Vec<DisclosedOverrideView>, backing_locators_status: CompilationDisclosureChannelStatus, backing_locators: Vec<DisclosedBackingLocatorView>, adapter_detail_status: CompilationDisclosureChannelStatus, adapter_detail: Vec<Vec<u8>>) -> (r: Self)
        ensures
            r.spec_terminal() == terminal,
            r.spec_compilation_identity() == compilation_identity,
            r.spec_result_identity() == result_identity,
            r.spec_artifact_identities() == artifact_identities,
            r.spec_diagnostic_summary() == diagnostic_summary,
            r.spec_canonical_diagnostic_policy() == canonical_diagnostic_policy,
            r.spec_canonical_diagnostics_status() == canonical_diagnostics_status,
            r.spec_canonical_diagnostics() == canonical_diagnostics,
            r.spec_canonical_evidence_status() == canonical_evidence_status,
            r.spec_canonical_evidence() == canonical_evidence,
            r.spec_diagnostic_sources_status() == diagnostic_sources_status,
            r.spec_diagnostic_sources() == diagnostic_sources,
            r.spec_request_values_status() == request_values_status,
            r.spec_request_values() == request_values,
            r.spec_override_bytes_status() == override_bytes_status,
            r.spec_override_bytes() == override_bytes,
            r.spec_backing_locators_status() == backing_locators_status,
            r.spec_backing_locators() == backing_locators,
            r.spec_adapter_detail_status() == adapter_detail_status,
            r.spec_adapter_detail() == adapter_detail,
    {
        CompilationReportProjection { terminal, compilation_identity, result_identity, artifact_identities, diagnostic_summary, canonical_diagnostic_policy, canonical_diagnostics_status, canonical_diagnostics, canonical_evidence_status, canonical_evidence, diagnostic_sources_status, diagnostic_sources, request_values_status, request_values, override_bytes_status, override_bytes, backing_locators_status, backing_locators, adapter_detail_status, adapter_detail }
    }

    pub fn terminal(&self) -> (r: &CompilationProjectionTerminalView)
        ensures
            *r == self.spec_terminal(),
    {
        &self.terminal
    }

    pub fn compilation_identity(&self) -> (r: &CompilationIdentity)
        ensures
            *r == self.spec_compilation_identity(),
    {
        &self.compilation_identity
    }

    pub fn result_identity(&self) -> (r: Option<&CompilationResultIdentity>)
        ensures
            match r {
                Some(x) => self.spec_result_identity() == Some(*x),
                None => self.spec_result_identity() is None,
            },
    {
        self.result_identity.as_ref()
    }

    pub fn artifact_identities(&self) -> (r: &[CompilationArtifactDisclosureView])
        ensures
            r@ == self.spec_artifact_identities()@,
    {
        self.artifact_identities.as_slice()
    }

    pub fn diagnostic_summary(&self) -> (r: &DiagnosticDisclosureSummary)
        ensures
            *r == self.spec_diagnostic_summary(),
    {
        &self.diagnostic_summary
    }

    pub fn canonical_diagnostic_policy(&self) -> (r: &CanonicalDiagnosticPolicy)
        ensures
            *r == self.spec_canonical_diagnostic_policy(),
    {
        &self.canonical_diagnostic_policy
    }

    pub fn canonical_diagnostics_status(&self) -> (r: CompilationDisclosureChannelStatus)
        ensures
            r == self.spec_canonical_diagnostics_status(),
    {
        self.canonical_diagnostics_status
    }

    pub fn canonical_diagnostics(&self) -> (r: &[DiagnosticProjectionEntry])
        ensures
            r@ == self.spec_canonical_diagnostics()@,
    {
        self.canonical_diagnostics.as_slice()
    }

    pub fn canonical_evidence_status(&self) -> (r: CompilationDisclosureChannelStatus)
        ensures
            r == self.spec_canonical_evidence_status(),
    {
        self.canonical_evidence_status
    }

    pub fn canonical_evidence(&self) -> (r: Option<&CanonicalEvidenceDisclosureView>)
        ensures
            match r {
                Some(x) => self.spec_canonical_evidence() == Some(*x),
                None => self.spec_canonical_evidence() is None,
            },
    {
        self.canonical_evidence.as_ref()
    }

    pub fn diagnostic_sources_status(&self) -> (r: CompilationDisclosureChannelStatus)
        ensures
            r == self.spec_diagnostic_sources_status(),
    {
        self.diagnostic_sources_status
    }

    pub fn diagnostic_sources(&self) -> (r: &[DisclosedSourceView])
        ensures
            r@ == self.spec_diagnostic_sources()@,
    {
        self.diagnostic_sources.as_slice()
    }

    pub fn request_values_status(&self) -> (r: CompilationDisclosureChannelStatus)
        ensures
            r == self.spec_request_values_status(),
    {
        self.request_values_status
    }

    pub fn request_values(&self) -> (r: &[DisclosedRequestValueView])
        ensures
            r@ == self.spec_request_values()@,
    {
        self.request_values.as_slice()
    }

    pub fn override_bytes_status(&self) -> (r: CompilationDisclosureChannelStatus)
        ensures
            r == self.spec_override_bytes_status(),
    {
        self.override_bytes_status
    }

    pub fn override_bytes(&self) -> (r: &[DisclosedOverrideView])
        ensures
            r@ == self.spec_override_bytes()@,
    {
        self.override_bytes.as_slice()
    }

    pub fn backing_locators_status(&self) -> (r: CompilationDisclosureChannelStatus)
        ensures
            r == self.spec_backing_locators_status(),
    {
        self.backing_locators_status
    }

    pub fn backing_locators(&self) -> (r: &[DisclosedBackingLocatorView])
        ensures
            r@ == self.spec_backing_locators()@,
    {
        self.backing_locators.as_slice()
    }

    pub fn adapter_detail_status(&self) -> (r: CompilationDisclosureChannelStatus)
        ensures
            r == self.spec_adapter_detail_status(),
    {
        self.adapter_detail_status
    }

    pub fn adapter_detail(&self) -> (r: &[Vec<u8>])
        ensures
            r@ == self.spec_adapter_detail()@,
    {
        self.adapter_detail.as_slice()
    }
}

/// What a refused request discloses.
pub struct CompilationRequestRejectionProjection {
    request_inventory: CompilationRequestInventoryView,
    issues: Vec<CompilationRequestIssueView>,
}

impl CompilationRequestRejectionProjection {
    pub closed spec fn spec_request_inventory(&self) -> CompilationRequestInventoryView {
        self.request_inventory
    }

    pub closed spec fn spec_issues(&self) -> Vec<CompilationRequestIssueView> {
        self.issues
    }

    pub(crate) fn new(request_inventory: CompilationRequestInventoryView, issues: Vec<CompilationRequestIssueView>) -> (r: Self)
        ensures
            r.spec_request_inventory() == request_inventory,
            r.spec_issues() == issues,
    {
        CompilationRequestRejectionProjection { request_inventory, issues }
    }

    pub fn request_inventory(&self) -> (r: &CompilationRequestInventoryView)
        ensures
            *r == self.spec_request_inventory(),
    {
        &self.request_inventory
    }

    pub fn issues(&self) -> (r: &[CompilationRequestIssueView])
        ensures
            r@ == self.spec_issues()@,
    {
        self.issues.as_slice()
    }
}

/// The projection of a report and the artifacts to deliver with it.
pub struct CompilationDeliveryPlan {
    projection: CompilationReportProjection,
    artifacts: Vec<CompilationArtifactView>,
}

impl CompilationDeliveryPlan {
    pub closed spec fn spec_projection(&self) -> CompilationReportProjection {
        self.projection
    }

    pub closed spec fn spec_artifacts(&self) -> Vec<CompilationArtifactView> {
        self.artifacts
    }

    pub(crate) fn new(projection: CompilationReportProjection, artifacts: Vec<CompilationArtifactView>) -> (r: Self)
        ensures
            r.spec_projection() == projection,
            r.spec_artifacts() == artifacts,
    {
        CompilationDeliveryPlan { projection, artifacts }
    }

    pub fn projection(&self) -> (r: &CompilationReportProjection)
        ensures
            *r == self.spec_projection(),
    {
        &self.projection
    }

    pub fn artifacts(&self) -> (r: &[CompilationArtifactView])
        ensures
            r@ == self.spec_artifacts()@,
    {
        self.artifacts.as_slice()
    }

    pub(crate) fn transfer(&self) -> (r: CompilationDeliveryTransfer<'_>)
        ensures
            *r.spec_plan() == *self,
    {
        CompilationDeliveryTransfer { plan: self }
    }
}

/// A delivery plan as it is handed to a delivery adapter.
pub struct CompilationDeliveryTransfer<'a> {
    plan: &'a CompilationDeliveryPlan,
}

impl<'a> CompilationDeliveryTransfer<'a> {
    pub closed spec fn spec_plan(&self) -> &'a CompilationDeliveryPlan {
        self.plan
    }

    pub fn projection(&self) -> (r: &CompilationReportProjection)
        ensures
            *r == self.spec_plan().spec_projection(),
    {
        self.plan.projection()
    }

    pub fn artifacts(&self) -> (r: &[CompilationArtifactView])
        ensures
            r@ == self.spec_plan().spec_artifacts()@,
    {
        self.plan.artifacts()
    }
}

} // verus!
