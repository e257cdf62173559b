//! The issues that refuse a compilation request before any work begins.

use vstd::prelude::*;
use vstd::string::StringExecFns;
use crate::NonZeroUsize;
use crate::artifact_publication::{append_decimal, decimal};

verus! {

/// The official PDF standards validator's refusal: its message and its hints
/// in their original order.
#[derive(Clone, Debug, PartialEq, Eq)]
pub struct PdfStandardsValidationError {
    message: String,
    hints: Vec<String>,
}

impl PdfStandardsValidationError {
    pub closed spec fn spec_message(&self) -> Seq<char> {
        self.message@
    }

    pub closed spec fn spec_hints(&self) -> Seq<String> {
        self.hints@
    }

    pub fn new(message: String, hints: Vec<String>) -> (r: Self)
        ensures
            r.spec_message() == message@,
            r.spec_hints() == hints@,
    {
        PdfStandardsValidationError { message, hints }
    }

    /// The official validation message.
    pub fn message(&self) -> (r: &str)
        ensures
            r@ == self.spec_message(),
    {
        self.message.as_str()
    }

    /// The official validation hints in their original order.
    pub fn hints(&self) -> (r: &[String])
        ensures
            r@ == self.spec_hints(),
    {
        self.hints.as_slice()
    }

    /// The message and the hints.
    pub fn into_parts(self) -> (r: (String, Vec<String>))
        ensures
            r.0@ == self.spec_message(),
            r.1@ == self.spec_hints(),
    {
        (self.message, self.hints)
    }

    /// `invalid PDF standards: ` and the message.
    pub fn describe(&self) -> (r: String)
        ensures
            r@ == "invalid PDF standards: "@ + self.spec_message(),
    {
        let mut r = String::from_str("invalid PDF standards: ");
        r.append(self.message.as_str());
        r
    }
}

/// One independently detectable issue in a refused compilation request.
#[derive(Clone, Debug, PartialEq, Eq)]
pub enum CompilationRequestIssue {
    /// A page range ends before it starts.
    InvalidPageRange { start: NonZeroUsize, end: NonZeroUsize },
    /// Pack compilation does not take the Typst bundle feature.
    UnsupportedBundleFeature,
    /// PNG resolution must be finite and greater than zero.
    InvalidPpi,
    /// The official PDF standards validator refused the requested set.
    InvalidPdfStandards(PdfStandardsValidationError),
    /// The override set was prepared against a different pack.
    OverrideSetPackMismatch,
    /// The document-time UNIX timestamp cannot be represented.
    InvalidDocumentTimestamp,
}

/// The text that describes an issue.
pub open spec fn issue_message(issue: CompilationRequestIssue) -> Seq<char> {
    match issue {
        CompilationRequestIssue::InvalidPageRange { start, end } => "page selection range "@ + decimal(
            start.spec_get() as nat,
        ) + "-"@ + decimal(end.spec_get() as nat) + " ends before it starts"@,
        CompilationRequestIssue::UnsupportedBundleFeature =>
            "the Typst Bundle feature is not supported for Pack compilation"@,
        CompilationRequestIssue::InvalidPpi => "PNG pixels per inch must be finite and greater than zero"@,
        CompilationRequestIssue::InvalidPdfStandards(e) => "invalid PDF standards: "@ + e.spec_message(),
        CompilationRequestIssue::OverrideSetPackMismatch => "the Pack Override Set is bound to a different Pack"@,
        CompilationRequestIssue::InvalidDocumentTimestamp => "the document-time UNIX timestamp is out of range"@,
    }
}

impl CompilationRequestIssue {
    /// The text that describes this issue.
    pub fn describe(&self) -> (r: String)
        ensures
            r@ == issue_message(*self),
    {
        match self {
            CompilationRequestIssue::InvalidPageRange { start, end } => {
                let mut r = String::from_str("page selection range ");
                append_decimal(&mut r, start.get());
                r.append("-");
                append_decimal(&mut r, end.get());
                r.append(" ends before it starts");
                r
            },
            CompilationRequestIssue::UnsupportedBundleFeature => String::from_str(
                "the Typst Bundle feature is not supported for Pack compilation",
            ),
            CompilationRequestIssue::InvalidPpi => String::from_str(
                "PNG pixels per inch must be finite and greater than zero",
            ),
            CompilationRequestIssue::InvalidPdfStandards(e) => e.describe(),
            CompilationRequestIssue::OverrideSetPackMismatch => String::from_str(
                "the Pack Override Set is bound to a different Pack",
            ),
            CompilationRequestIssue::InvalidDocumentTimestamp => String::from_str(
                "the document-time UNIX timestamp is out of range",
            ),
        }
    }
}

/// A refused compilation request: its issues in stable order, at least one.
#[derive(Clone, Debug)]
pub struct CompilationRequestRejection {
    issues: Vec<CompilationRequestIssue>,
}

impl CompilationRequestRejection {
    pub closed spec fn spec_issues(&self) -> Seq<CompilationRequestIssue> {
        self.issues@
    }

    pub fn new(issues: Vec<CompilationRequestIssue>) -> (r: Self)
        requires
            issues@.len() > 0,
        ensures
            r.spec_issues() == issues@,
    {
        CompilationRequestRejection { issues }
    }

    /// The independently detectable issues in stable order.
    pub fn issues(&self) -> (r: &[CompilationRequestIssue])
        ensures
            r@ == self.spec_issues(),
    {
        self.issues.as_slice()
    }

    /// The single issue's text, or a summary when there are several.
    pub fn describe(&self) -> (r: String)
        ensures
            self.spec_issues().len() == 1 ==> r@ == issue_message(self.spec_issues()[0]),
            self.spec_issues().len() != 1 ==> r@ == "the compilation request contains multiple invalid values"@,
    {
        if self.issues.len() == 1 {
            self.issues[0].describe()
        } else {
            String::from_str("the compilation request contains multiple invalid values")
        }
    }
}


/// What the checks of a compilation request found, in the order in which
/// the request is checked: the page selection, the resolution of a PNG or
/// the standards of a PDF, the override set, the features and the document
/// time.
pub struct CompilationRequestFindings {
    /// The issues found while putting the page selection in canonical form.
    pub page_issues: Vec<CompilationRequestIssue>,
    /// A PNG resolution that is not finite and greater than zero.
    pub invalid_ppi: bool,
    /// The refusal of the requested PDF standards.
    pub standards_error: Option<PdfStandardsValidationError>,
    /// The override set was prepared against another pack.
    pub override_pack_mismatch: bool,
    /// The Typst bundle feature was requested.
    pub bundle_requested: bool,
    /// The document-time timestamp cannot be represented.
    pub invalid_document_time: bool,
}

/// The issue `issue` when `found`, else nothing.
pub open spec fn issue_if(found: bool, issue: CompilationRequestIssue) -> Seq<CompilationRequestIssue> {
    if found {
        seq![issue]
    } else {
        Seq::empty()
    }
}

/// The issues of a request, in the order in which they are found.
pub open spec fn findings_issues(f: CompilationRequestFindings) -> Seq<CompilationRequestIssue> {
    f.page_issues@ + issue_if(f.invalid_ppi, CompilationRequestIssue::InvalidPpi) + match f.standards_error {
        Some(e) => seq![CompilationRequestIssue::InvalidPdfStandards(e)],
        None => Seq::empty(),
    } + issue_if(f.override_pack_mismatch, CompilationRequestIssue::OverrideSetPackMismatch) + issue_if(
        f.bundle_requested,
        CompilationRequestIssue::UnsupportedBundleFeature,
    ) + issue_if(f.invalid_document_time, CompilationRequestIssue::InvalidDocumentTimestamp)
}

/// A request's issues begin with its page-selection issues, in order, and
/// hold one issue more for each other check that failed; so a request is
/// refused exactly when its page selection has an issue or another check
/// failed, and each failed check is reported.
pub proof fn lemma_request_issues(f: CompilationRequestFindings)
    ensures
        findings_issues(f).len() == f.page_issues@.len() + (if f.invalid_ppi { 1int } else { 0int }) + (if f.standards_error
            is Some { 1int } else { 0int }) + (if f.override_pack_mismatch { 1int } else { 0int }) + (if f.bundle_requested {
            1int
        } else {
            0int
        }) + (if f.invalid_document_time { 1int } else { 0int }),
        findings_issues(f).subrange(0, f.page_issues@.len() as int) == f.page_issues@,
        f.page_issues@.len() > 0 ==> findings_issues(f).len() > 0,
        f.invalid_ppi ==> findings_issues(f).contains(CompilationRequestIssue::InvalidPpi),
        f.standards_error matches Some(e) ==> findings_issues(f).contains(CompilationRequestIssue::InvalidPdfStandards(e)),
        f.override_pack_mismatch ==> findings_issues(f).contains(CompilationRequestIssue::OverrideSetPackMismatch),
        f.bundle_requested ==> findings_issues(f).contains(CompilationRequestIssue::UnsupportedBundleFeature),
        f.invalid_document_time ==> findings_issues(f).contains(CompilationRequestIssue::InvalidDocumentTimestamp),
{
    let pages = f.page_issues@;
    let a = issue_if(f.invalid_ppi, CompilationRequestIssue::InvalidPpi);
    let b: Seq<CompilationRequestIssue> = match f.standards_error {
        Some(e) => seq![CompilationRequestIssue::InvalidPdfStandards(e)],
        None => Seq::empty(),
    };
    let c = issue_if(f.override_pack_mismatch, CompilationRequestIssue::OverrideSetPackMismatch);
    let d = issue_if(f.bundle_requested, CompilationRequestIssue::UnsupportedBundleFeature);
    let t = issue_if(f.invalid_document_time, CompilationRequestIssue::InvalidDocumentTimestamp);
    let all = findings_issues(f);
    assert(all == pages + a + b + c + d + t);
    assert(all.subrange(0, pages.len() as int) =~= pages);
    let pa = pages.len() as int;
    let pb = pa + a.len();
    let pc = pb + b.len();
    let pd = pc + c.len();
    let pt = pd + d.len();
    if f.invalid_ppi {
        assert(all[pa] == CompilationRequestIssue::InvalidPpi);
    }
    if let Some(e) = f.standards_error {
        assert(all[pb] == CompilationRequestIssue::InvalidPdfStandards(e));
    }
    if f.override_pack_mismatch {
        assert(all[pc] == CompilationRequestIssue::OverrideSetPackMismatch);
    }
    if f.bundle_requested {
        assert(all[pd] == CompilationRequestIssue::UnsupportedBundleFeature);
    }
    if f.invalid_document_time {
        assert(all[pt] == CompilationRequestIssue::InvalidDocumentTimestamp);
    }
}

fn push_if(issues: &mut Vec<CompilationRequestIssue>, found: bool, issue: CompilationRequestIssue)
    ensures
        final(issues)@ == old(issues)@ + issue_if(found, issue),
{
    if found {
        issues.push(issue);
        proof {
            assert(issues@ =~= old(issues)@ + issue_if(found, issue));
        }
    } else {
        proof {
            assert(issues@ =~= old(issues)@ + issue_if(found, issue));
        }
    }
}

/// Refuses a request exactly when its checks found an issue, with every
/// issue in the order in which it was found.
pub fn request_rejection(findings: CompilationRequestFindings) -> (r: Option<CompilationRequestRejection>)
    ensures
        match r {
            Some(rejection) => findings_issues(findings).len() > 0 && rejection.spec_issues() == findings_issues(
                findings,
            ),
            None => findings_issues(findings).len() == 0,
        },
{
    let ghost all = findings_issues(findings);
    let CompilationRequestFindings {
        page_issues,
        invalid_ppi,
        standards_error,
        override_pack_mismatch,
        bundle_requested,
        invalid_document_time,
    } = findings;
    let mut issues = page_issues;
    push_if(&mut issues, invalid_ppi, CompilationRequestIssue::InvalidPpi);
    match standards_error {
        Some(e) => {
            let ghost before = issues@;
            issues.push(CompilationRequestIssue::InvalidPdfStandards(e));
            proof {
                assert(issues@ =~= before + seq![CompilationRequestIssue::InvalidPdfStandards(e)]);
            }
        },
        None => {
            proof {
                assert(issues@ =~= issues@ + Seq::<CompilationRequestIssue>::empty());
            }
        },
    }
    push_if(&mut issues, override_pack_mismatch, CompilationRequestIssue::OverrideSetPackMismatch);
    push_if(&mut issues, bundle_requested, CompilationRequestIssue::UnsupportedBundleFeature);
    push_if(&mut issues, invalid_document_time, CompilationRequestIssue::InvalidDocumentTimestamp);
    proof {
        assert(issues@ =~= all);
    }
    if issues.len() == 0 {
        None
    } else {
        Some(CompilationRequestRejection::new(issues))
    }
}

/// A Typst feature that a compilation request may ask for.
#[derive(Clone, Copy, Debug, Eq, PartialEq, Structural)]
pub enum TypstFeature {
    Html,
    Bundle,
    A11yExtras,
}

/// The feature `feature` when `on`, else nothing.
pub open spec fn feature_if(on: bool, feature: TypstFeature) -> Seq<TypstFeature> {
    if on {
        seq![feature]
    } else {
        Seq::empty()
    }
}

/// The features a compilation runs with, in their fixed order: those
/// requested, and HTML also where the output is HTML.
pub open spec fn effective_features_of(requested: Seq<TypstFeature>, html_output: bool) -> Seq<TypstFeature> {
    feature_if(requested.contains(TypstFeature::Html) || html_output, TypstFeature::Html) + feature_if(
        requested.contains(TypstFeature::Bundle),
        TypstFeature::Bundle,
    ) + feature_if(requested.contains(TypstFeature::A11yExtras), TypstFeature::A11yExtras)
}

fn requests(requested: &[TypstFeature], feature: TypstFeature) -> (r: bool)
    ensures
        r == requested@.contains(feature),
{
    let mut i: usize = 0;
    while i < requested.len()
        invariant
            i <= requested@.len(),
            forall|j: int| 0 <= j < i ==> requested@[j] != feature,
        decreases requested.len() - i,
    {
        if requested[i] == feature {
            proof {
                assert(requested@[i as int] == feature);
            }
            return true;
        }
        i = i + 1;
    }
    false
}

/// The features a compilation runs with; see `effective_features_of`.
pub fn effective_features(requested: &[TypstFeature], html_output: bool) -> (r: Vec<TypstFeature>)
    ensures
        r@ == effective_features_of(requested@, html_output),
{
    let mut r: Vec<TypstFeature> = Vec::new();
    let html = requests(requested, TypstFeature::Html) || html_output;
    let bundle = requests(requested, TypstFeature::Bundle);
    let extras = requests(requested, TypstFeature::A11yExtras);
    if html {
        r.push(TypstFeature::Html);
    }
    if bundle {
        r.push(TypstFeature::Bundle);
    }
    if extras {
        r.push(TypstFeature::A11yExtras);
    }
    proof {
        assert(r@ =~= effective_features_of(requested@, html_output));
    }
    r
}

/// Resolves automatic PDF tagging: a PDF is tagged by default, but not
/// when only some pages are selected. Also says whether the page selection
/// is what turned tagging off.
pub fn resolve_pdf_tagging(tagging: crate::compilation::PdfTagging, pages_selected: bool) -> (r: (
    crate::compilation::PdfTagging,
    bool,
))
    ensures
        r.1 == (pages_selected && tagging == crate::compilation::PdfTagging::Automatic),
        r.0 == if tagging == crate::compilation::PdfTagging::Automatic {
            if pages_selected {
                crate::compilation::PdfTagging::Disabled
            } else {
                crate::compilation::PdfTagging::Enabled
            }
        } else {
            tagging
        },
{
    match tagging {
        crate::compilation::PdfTagging::Automatic => if pages_selected {
            (crate::compilation::PdfTagging::Disabled, true)
        } else {
            (crate::compilation::PdfTagging::Enabled, false)
        },
        _ => (tagging, false),
    }
}

} // verus!
