use typst_pack::artifact_publication::{
    plan_compilation_artifact_publication, ArtifactPublicationPlanIssue, CompilationArtifact,
    CompilationStatus, OutputFormat, PublishableCompilationResult,
};
use typst_pack::{CanonicalIdentity, DeploymentTrustProfile, NonZeroUsize, OrdinaryAdmission};

fn identity() -> CanonicalIdentity {
    let admission = OrdinaryAdmission::try_new(DeploymentTrustProfile::Trusted).unwrap();
    CanonicalIdentity::parse(&admission, "sha256:0123abcd").unwrap()
}

fn artifact(format: OutputFormat, page: Option<usize>, bytes: &[u8]) -> CompilationArtifact {
    CompilationArtifact {
        format,
        bytes: bytes.to_vec(),
        source_page_number: page.map(|page| NonZeroUsize::new(page).unwrap()),
    }
}

fn result(
    status: CompilationStatus,
    page_count: Option<usize>,
    artifacts: Vec<CompilationArtifact>,
) -> PublishableCompilationResult {
    PublishableCompilationResult {
        status,
        source_page_count: page_count,
        artifacts,
        result_identity: identity(),
    }
}

fn names(result: &PublishableCompilationResult) -> Vec<String> {
    let plan = plan_compilation_artifact_publication(result).unwrap();
    plan.entries()
        .iter()
        .map(|entry| entry.relative_path().to_string())
        .collect()
}

#[test]
fn document_formats_have_fixed_names() {
    let compiled = result(
        CompilationStatus::Succeeded,
        Some(3),
        vec![artifact(OutputFormat::Pdf, None, b"%PDF"), artifact(OutputFormat::Html, None, b"<html>")],
    );
    assert_eq!(names(&compiled), vec!["output.pdf", "output.html"]);
}

#[test]
fn page_names_are_padded_to_the_digits_of_the_page_count() {
    let compiled = result(
        CompilationStatus::Succeeded,
        Some(12),
        vec![
            artifact(OutputFormat::Png, Some(1), b"one"),
            artifact(OutputFormat::Png, Some(10), b"ten"),
            artifact(OutputFormat::Svg, Some(12), b"twelve"),
        ],
    );
    assert_eq!(names(&compiled), vec!["page-01.png", "page-10.png", "page-12.svg"]);

    let single = result(
        CompilationStatus::Succeeded,
        Some(1),
        vec![artifact(OutputFormat::Svg, Some(1), b"<svg")],
    );
    assert_eq!(names(&single), vec!["page-1.svg"]);

    let many = result(
        CompilationStatus::Succeeded,
        Some(1000),
        vec![artifact(OutputFormat::Png, Some(7), b"seven")],
    );
    assert_eq!(names(&many), vec!["page-0007.png"]);
}

#[test]
fn page_names_sort_in_page_order() {
    let compiled = result(
        CompilationStatus::Succeeded,
        Some(100),
        (1..=100)
            .map(|page| artifact(OutputFormat::Png, Some(page), b"p"))
            .collect(),
    );
    let planned = names(&compiled);
    let mut sorted = planned.clone();
    sorted.sort();
    assert_eq!(planned, sorted);
}

#[test]
fn entries_keep_the_artifacts_in_order() {
    let compiled = result(
        CompilationStatus::Succeeded,
        Some(2),
        vec![
            artifact(OutputFormat::Svg, Some(2), b"second"),
            artifact(OutputFormat::Svg, Some(1), b"first"),
        ],
    );
    let plan = plan_compilation_artifact_publication(&compiled).unwrap();
    assert_eq!(plan.result_identity().as_str(), "sha256:0123abcd");
    let entries = plan.entries();
    assert_eq!(entries.len(), 2);
    assert_eq!(entries[0].relative_path(), "page-2.svg");
    assert_eq!(entries[0].bytes(), b"second");
    assert_eq!(entries[0].len(), 6);
    assert_eq!(entries[0].format(), OutputFormat::Svg);
    assert_eq!(entries[0].source_page_number().map(|n| n.get()), Some(2));
    assert_eq!(entries[1].relative_path(), "page-1.svg");
}

#[test]
fn a_rejected_result_cannot_be_published() {
    let rejected = result(
        CompilationStatus::Rejected,
        None,
        vec![artifact(OutputFormat::Pdf, None, b"%PDF")],
    );
    let error = plan_compilation_artifact_publication(&rejected).unwrap_err();
    assert_eq!(error.issues().len(), 1);
    assert!(matches!(
        error.issues()[0],
        ArtifactPublicationPlanIssue::RejectedCompilationResult
    ));
    assert_eq!(
        error.describe(),
        "a rejected Compilation Result cannot produce an artifact publication plan"
    );
}

#[test]
fn colliding_names_are_reported_once_each_in_order() {
    let colliding = result(
        CompilationStatus::Succeeded,
        Some(2),
        vec![
            artifact(OutputFormat::Svg, Some(2), b"a"),
            artifact(OutputFormat::Pdf, None, b"b"),
            artifact(OutputFormat::Svg, Some(2), b"c"),
            artifact(OutputFormat::Pdf, None, b"d"),
            artifact(OutputFormat::Svg, Some(2), b"e"),
            artifact(OutputFormat::Svg, Some(1), b"f"),
        ],
    );
    let error = plan_compilation_artifact_publication(&colliding).unwrap_err();
    let paths: Vec<&str> = error
        .issues()
        .iter()
        .map(|issue| match issue {
            ArtifactPublicationPlanIssue::NamingCollision { relative_path } => relative_path.as_str(),
            ArtifactPublicationPlanIssue::RejectedCompilationResult => panic!("not rejected"),
        })
        .collect();
    assert_eq!(paths, vec!["output.pdf", "page-2.svg"]);
    assert_eq!(
        error.describe(),
        "artifact publication planning failed with 2 issue(s): multiple Compilation Output Artifacts resolve to \"output.pdf\": multiple Compilation Output Artifacts resolve to \"page-2.svg\""
    );
}

#[test]
fn extensions_of_each_format() {
    assert_eq!(OutputFormat::Pdf.extension(), "pdf");
    assert_eq!(OutputFormat::Png.extension(), "png");
    assert_eq!(OutputFormat::Svg.extension(), "svg");
    assert_eq!(OutputFormat::Html.extension(), "html");
}
