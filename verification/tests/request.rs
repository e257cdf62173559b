use typst_pack::compilation::PdfTagging;
use typst_pack::request::{
    effective_features, request_rejection, resolve_pdf_tagging, CompilationRequestFindings,
    CompilationRequestIssue, PdfStandardsValidationError, TypstFeature,
};

fn clean() -> CompilationRequestFindings {
    CompilationRequestFindings {
        page_issues: Vec::new(),
        invalid_ppi: false,
        standards_error: None,
        override_pack_mismatch: false,
        bundle_requested: false,
        invalid_document_time: false,
    }
}

#[test]
fn a_request_without_findings_is_accepted() {
    assert!(request_rejection(clean()).is_none());
}

#[test]
fn a_rejection_lists_every_finding_in_check_order() {
    let findings = CompilationRequestFindings {
        invalid_document_time: true,
        bundle_requested: true,
        override_pack_mismatch: true,
        standards_error: Some(PdfStandardsValidationError::new("bad".to_string(), Vec::new())),
        ..clean()
    };
    let rejection = request_rejection(findings).unwrap();
    let issues = rejection.issues();
    assert_eq!(issues.len(), 4);
    assert!(matches!(issues[0], CompilationRequestIssue::InvalidPdfStandards(_)));
    assert_eq!(issues[1], CompilationRequestIssue::OverrideSetPackMismatch);
    assert_eq!(issues[2], CompilationRequestIssue::UnsupportedBundleFeature);
    assert_eq!(issues[3], CompilationRequestIssue::InvalidDocumentTimestamp);

    let png = CompilationRequestFindings { invalid_ppi: true, ..clean() };
    assert_eq!(request_rejection(png).unwrap().issues(), &[CompilationRequestIssue::InvalidPpi]);
}

#[test]
fn features_come_in_fixed_order_and_html_output_implies_html() {
    assert_eq!(
        effective_features(&[TypstFeature::A11yExtras, TypstFeature::Html], false),
        vec![TypstFeature::Html, TypstFeature::A11yExtras]
    );
    assert_eq!(effective_features(&[], true), vec![TypstFeature::Html]);
    assert!(effective_features(&[], false).is_empty());
}

#[test]
fn automatic_pdf_tagging_is_off_only_for_a_page_selection() {
    assert_eq!(resolve_pdf_tagging(PdfTagging::Automatic, true), (PdfTagging::Disabled, true));
    assert_eq!(resolve_pdf_tagging(PdfTagging::Automatic, false), (PdfTagging::Enabled, false));
    assert_eq!(resolve_pdf_tagging(PdfTagging::Disabled, true), (PdfTagging::Disabled, false));
    assert_eq!(resolve_pdf_tagging(PdfTagging::Enabled, true), (PdfTagging::Enabled, false));
}
