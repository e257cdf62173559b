//! The decisions of preparing a compilation, in the order the original
//! makes them: a request with an issue is refused before anything else;
//! otherwise the fulfillments are reported, and the compilation proceeds only
//! when they are exactly what the pack requires.

use vstd::prelude::*;
use crate::CanonicalIdentity;
use crate::exactness::{
    fulfillment_exact, is_deviation, issues_ascending, reports, verify_compilation_fulfillment_set,
    CompilationFulfillmentIssue, FontFulfillmentSummary, FulfillmentDeviation, PackageRequirementSummary,
};
use crate::fulfillment::FontRequirementSummary;
use crate::fulfillment_report::{
    compilation_fulfillment_report, font_reports_exact, package_reports_exact, CompilationFulfillmentReport,
};
use crate::fulfillment_set::{CompilationFulfillmentSet, KeyedFulfillment};
use crate::order::{lemma_text_lt_irreflexive, text_lt};
use crate::request::{findings_issues, request_rejection, CompilationRequestFindings, CompilationRequestRejection};

verus! {

/// What preparing a compilation decides.
pub enum CompilationPreparation {
    /// The request has issues; nothing else was looked at.
    Rejected(CompilationRequestRejection),
    /// The fulfillments deviate from what the pack requires.
    InvalidFulfillmentSet { report: CompilationFulfillmentReport, issues: Vec<CompilationFulfillmentIssue> },
    /// The compilation may run, with this report of its fulfillments.
    Ready { report: CompilationFulfillmentReport },
}

/// Whether `report` reports exactly the requirements and the fulfillments.
pub open spec fn report_exact(
    report: CompilationFulfillmentReport,
    pr: Seq<PackageRequirementSummary>,
    fr: Seq<FontRequirementSummary>,
    fulfillments: CompilationFulfillmentSet,
    container_identities: Seq<CanonicalIdentity>,
) -> bool {
    &&& package_reports_exact(report.spec_packages(), pr, fulfillments.spec_packages())
    &&& font_reports_exact(report.spec_fonts(), fr, fulfillments.spec_fonts(), container_identities)
}

/// Prepares a compilation: refuses a request whose checks found issues,
/// with every issue; otherwise reports the fulfillments and refuses them
/// with every deviation, in canonical order, unless they are exactly what
/// the pack requires. The summaries of the supplied fonts are given in the
/// order of the fulfillment set.
pub fn prepare_compilation(
    findings: CompilationRequestFindings,
    package_requirements: &[PackageRequirementSummary],
    font_requirements: &[FontRequirementSummary],
    fulfillments: &CompilationFulfillmentSet,
    container_identities: &[CanonicalIdentity],
    font_summaries: &[FontFulfillmentSummary],
) -> (r: CompilationPreparation)
    requires
        forall|a: int, b: int|
            0 <= a < b < package_requirements@.len() ==> package_requirements@[a].spec@ != package_requirements@[b].spec@,
        forall|a: int, b: int|
            0 <= a < b < font_requirements@.len() ==> font_requirements@[a].container_identity@
                != font_requirements@[b].container_identity@,
        container_identities@.len() == fulfillments.spec_fonts().len(),
        font_summaries@.len() == fulfillments.spec_fonts().len(),
        forall|i: int|
            0 <= i < font_summaries@.len() ==> #[trigger] font_summaries@[i].expected_identity@
                == fulfillments.spec_fonts()[i].spec_expected_identity(),
    ensures
        findings_issues(findings).len() > 0 ==> (r matches CompilationPreparation::Rejected(rejection)
            && rejection.spec_issues() == findings_issues(findings)),
        findings_issues(findings).len() == 0 ==> match r {
            CompilationPreparation::Rejected(_) => false,
            CompilationPreparation::InvalidFulfillmentSet { report, issues } => report_exact(
                report,
                package_requirements@,
                font_requirements@,
                *fulfillments,
                container_identities@,
            ) && !fulfillment_exact(
                package_requirements@,
                fulfillments.spec_packages(),
                font_requirements@,
                font_summaries@,
            ) && issues_ascending(issues@) && forall|d: FulfillmentDeviation|
                #[trigger] reports(issues@, d) <==> is_deviation(
                    package_requirements@,
                    fulfillments.spec_packages(),
                    font_requirements@,
                    font_summaries@,
                    d,
                ),
            CompilationPreparation::Ready { report } => report_exact(
                report,
                package_requirements@,
                font_requirements@,
                *fulfillments,
                container_identities@,
            ) && fulfillment_exact(
                package_requirements@,
                fulfillments.spec_packages(),
                font_requirements@,
                font_summaries@,
            ),
        },
{
    if let Some(rejection) = request_rejection(findings) {
        return CompilationPreparation::Rejected(rejection);
    }
    let report = compilation_fulfillment_report(package_requirements, font_requirements, fulfillments, container_identities);
    let packages = fulfillments.packages();
    let fonts = fulfillments.fonts();
    proof {
        assert forall|a: int, b: int| 0 <= a < b < packages@.len() implies packages@[a].spec@ != packages@[b].spec@ by {
            assert(packages@[a].spec_key() == packages@[a].spec@);
            assert(packages@[b].spec_key() == packages@[b].spec@);
            assert(text_lt(packages@[a].spec_key(), packages@[b].spec_key()));
            lemma_text_lt_irreflexive(packages@[a].spec@, 0);
        }
        assert forall|a: int, b: int|
            0 <= a < b < font_summaries@.len() implies font_summaries@[a].expected_identity@
                != font_summaries@[b].expected_identity@ by {
            assert(font_summaries@[a].expected_identity@ == fonts@[a].spec_key());
            assert(font_summaries@[b].expected_identity@ == fonts@[b].spec_key());
            assert(text_lt(fonts@[a].spec_key(), fonts@[b].spec_key()));
            lemma_text_lt_irreflexive(fonts@[a].spec_key(), 0);
        }
    }
    let issues = verify_compilation_fulfillment_set(package_requirements, packages, font_requirements, font_summaries);
    if issues.len() == 0 {
        CompilationPreparation::Ready { report }
    } else {
        CompilationPreparation::InvalidFulfillmentSet { report, issues }
    }
}

} // verus!
