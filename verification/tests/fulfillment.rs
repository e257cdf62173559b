use typst_pack::exactness::{
    verify_compilation_fulfillment_set, CompilationFulfillmentIssue, FontFulfillmentSummary,
    InvalidCompilationFulfillmentSet, PackageFulfillmentSummary, PackageRequirementSummary,
};
use typst_pack::fulfillment::{
    resolve_external_font_requirements, FontContainer, FontContainerFulfillment,
    FontContainerSource, FontFulfillmentReport, FontRequirementSummary,
};
use typst_pack::{CanonicalIdentity, DeploymentTrustProfile, OrdinaryAdmission};

fn id(value: &str) -> CanonicalIdentity {
    let admission = OrdinaryAdmission::try_new(DeploymentTrustProfile::Trusted).unwrap();
    CanonicalIdentity::parse(&admission, value).unwrap()
}

fn font_requirement(identity: &str, embedded: bool, length: u64, faces: &[u32]) -> FontRequirementSummary {
    FontRequirementSummary {
        container_identity: id(identity),
        embedded,
        container_length: length,
        face_indices: faces.to_vec(),
    }
}

fn source(identity: &str, bytes: &[u8]) -> FontContainerSource {
    FontContainerSource { identity: id(identity), bytes: bytes.to_vec() }
}

#[test]
fn resolution_takes_the_first_source_of_each_external_requirement_in_identity_order() {
    let requirements = vec![
        font_requirement("font:bb", false, 3, &[0]),
        font_requirement("font:aa", false, 3, &[0]),
        font_requirement("font:cc", true, 3, &[0]),
        font_requirement("font:dd", false, 3, &[0]),
    ];
    let sources = vec![
        source("font:ff", b"unrelated"),
        source("font:bb", b"first b"),
        source("font:cc", b"embedded"),
        source("font:bb", b"second b"),
        source("font:aa", b"only a"),
    ];
    let fulfillments = resolve_external_font_requirements(&requirements, &sources);
    let resolved: Vec<(String, Vec<u8>)> = fulfillments
        .iter()
        .map(|f| (f.expected_identity().as_str().to_string(), f.container().data().to_vec()))
        .collect();
    assert_eq!(
        resolved,
        vec![
            ("font:aa".to_string(), b"only a".to_vec()),
            ("font:bb".to_string(), b"first b".to_vec()),
        ]
    );
}

#[test]
fn resolution_without_sources_fulfills_nothing() {
    let requirements = vec![font_requirement("font:aa", false, 3, &[0])];
    assert!(resolve_external_font_requirements(&requirements, &[]).is_empty());
}

#[test]
fn fulfillment_notes_are_reported() {
    let fulfillment = FontContainerFulfillment::new(id("font:aa"), FontContainer::new(b"abc".to_vec()))
        .provenance("vendor".to_string())
        .licensing("OFL".to_string());
    let report = FontFulfillmentReport::for_fulfillment(id("font:aa"), true, false, Some((&fulfillment, id("font:ab"))));
    assert_eq!(report.container_identity().as_str(), "font:aa");
    assert_eq!(report.supplied_container_identity().unwrap().as_str(), "font:ab");
    assert!(report.declared());
    assert!(!report.embedded());
    assert_eq!(report.provenance(), Some("vendor"));
    assert_eq!(report.licensing(), Some("OFL"));
    let missing = FontFulfillmentReport::for_fulfillment(id("font:bb"), true, false, None);
    assert!(missing.supplied_container_identity().is_none());
    assert_eq!(missing.provenance(), None);
}

fn package_requirement(spec: &str, tree: &str, files: u64, bytes: u64, embedded: bool) -> PackageRequirementSummary {
    PackageRequirementSummary {
        spec: spec.to_string(),
        tree_identity: id(tree),
        file_count: files,
        byte_length: bytes,
        embedded,
    }
}

fn package_fulfillment(spec: &str, tree: &str, files: u64, bytes: u64) -> PackageFulfillmentSummary {
    PackageFulfillmentSummary {
        spec: spec.to_string(),
        tree_identity: id(tree),
        file_count: files,
        byte_length: bytes,
        provenance: None,
        cache_hit: false,
    }
}

fn font_fulfillment(expected: &str, actual: &str, length: u64, faces: &[u32]) -> FontFulfillmentSummary {
    FontFulfillmentSummary {
        expected_identity: id(expected),
        actual_identity: id(actual),
        actual_length: length,
        face_indices: faces.to_vec(),
    }
}

fn describe(issue: &CompilationFulfillmentIssue) -> String {
    match issue {
        CompilationFulfillmentIssue::MissingExternalPackage { spec } => format!("missing package {spec}"),
        CompilationFulfillmentIssue::UndeclaredPackage { spec, actual } => {
            format!("undeclared package {spec} {}", actual.as_str())
        }
        CompilationFulfillmentIssue::UnexpectedEmbeddedPackage { spec } => format!("embedded package {spec}"),
        CompilationFulfillmentIssue::MismatchedPackageTree { spec, expected, actual, expected_file_count, actual_file_count, expected_byte_length, actual_byte_length } => format!(
            "mismatched package {spec} {} {} {expected_file_count} {actual_file_count} {expected_byte_length} {actual_byte_length}",
            expected.as_str(),
            actual.as_str()
        ),
        CompilationFulfillmentIssue::MissingExternalFont { identity } => format!("missing font {}", identity.as_str()),
        CompilationFulfillmentIssue::UndeclaredFont { identity, actual } => {
            format!("undeclared font {} {}", identity.as_str(), actual.as_str())
        }
        CompilationFulfillmentIssue::UnexpectedEmbeddedFont { identity } => format!("embedded font {}", identity.as_str()),
        CompilationFulfillmentIssue::MismatchedFontContainer { expected, actual, expected_length, actual_length } => format!(
            "mismatched font {} {} {expected_length} {actual_length}",
            expected.as_str(),
            actual.as_str()
        ),
        CompilationFulfillmentIssue::MissingFontFace { identity, index } => format!("missing face {} {index}", identity.as_str()),
    }
}

#[test]
fn an_exact_fulfillment_set_has_no_issue() {
    let packages = vec![
        package_requirement("@preview/a:1.0.0", "tree:01", 2, 20, false),
        package_requirement("@preview/b:1.0.0", "tree:02", 1, 10, true),
    ];
    let supplied = vec![package_fulfillment("@preview/a:1.0.0", "tree:01", 2, 20)];
    let fonts = vec![font_requirement("font:aa", false, 3, &[0, 2]), font_requirement("font:bb", true, 5, &[0])];
    let supplied_fonts = vec![font_fulfillment("font:aa", "font:aa", 3, &[0, 1, 2])];
    assert!(verify_compilation_fulfillment_set(&packages, &supplied, &fonts, &supplied_fonts).is_empty());
    assert!(InvalidCompilationFulfillmentSet::check(&packages, &supplied, &fonts, &supplied_fonts).is_none());
}

#[test]
fn every_deviation_is_reported_once_in_canonical_order() {
    let packages = vec![
        package_requirement("@preview/missing:1.0.0", "tree:01", 1, 1, false),
        package_requirement("@preview/embedded:1.0.0", "tree:02", 1, 1, true),
        package_requirement("@preview/changed:1.0.0", "tree:03", 2, 20, false),
    ];
    let supplied = vec![
        package_fulfillment("@preview/changed:1.0.0", "tree:33", 2, 21),
        package_fulfillment("@preview/embedded:1.0.0", "tree:02", 1, 1),
        package_fulfillment("@preview/extra:1.0.0", "tree:04", 1, 1),
    ];
    let fonts = vec![
        font_requirement("font:dd", false, 4, &[3, 1, 3]),
        font_requirement("font:aa", false, 3, &[0]),
        font_requirement("font:bb", true, 5, &[0]),
    ];
    let supplied_fonts = vec![
        font_fulfillment("font:dd", "font:de", 9, &[0]),
        font_fulfillment("font:bb", "font:bb", 5, &[0]),
        font_fulfillment("font:cc", "font:c1", 1, &[0]),
    ];
    let issues = verify_compilation_fulfillment_set(&packages, &supplied, &fonts, &supplied_fonts);
    let described: Vec<String> = issues.iter().map(describe).collect();
    assert_eq!(
        described,
        vec![
            "mismatched package @preview/changed:1.0.0 tree:03 tree:33 2 2 20 21",
            "embedded package @preview/embedded:1.0.0",
            "undeclared package @preview/extra:1.0.0 tree:04",
            "missing package @preview/missing:1.0.0",
            "missing font font:aa",
            "embedded font font:bb",
            "undeclared font font:cc font:c1",
            "mismatched font font:dd font:de 4 9",
            "missing face font:dd 1",
            "missing face font:dd 3",
        ]
    );
    let invalid = InvalidCompilationFulfillmentSet::check(&packages, &supplied, &fonts, &supplied_fonts).unwrap();
    assert_eq!(invalid.issues().len(), described.len());
    assert_eq!(invalid.describe(), "Compilation Fulfillment Set has 10 deviation(s)");
}

use typst_pack::fulfillment_set::{CompilationFulfillmentSet, CompilationFulfillmentSetIssue};

fn font_fulfillment_of(identity: &str) -> FontContainerFulfillment {
    FontContainerFulfillment::new(id(identity), FontContainer::new(identity.as_bytes().to_vec()))
}

#[test]
fn fulfillment_sets_keep_each_key_once_in_order() {
    let set = CompilationFulfillmentSet::new(
        vec![
            package_fulfillment("@preview/b:1.0.0", "tree:02", 1, 1),
            package_fulfillment("@preview/a:1.0.0", "tree:01", 1, 1),
        ],
        vec![font_fulfillment_of("font:bb"), font_fulfillment_of("font:aa")],
    )
    .unwrap();
    let specs: Vec<&str> = set.packages().iter().map(|p| p.spec.as_str()).collect();
    assert_eq!(specs, vec!["@preview/a:1.0.0", "@preview/b:1.0.0"]);
    let fonts: Vec<String> = set.fonts().iter().map(|f| f.expected_identity().as_str().to_string()).collect();
    assert_eq!(fonts, vec!["font:aa", "font:bb"]);
    let empty = CompilationFulfillmentSet::empty();
    assert!(empty.packages().is_empty() && empty.fonts().is_empty());
}

#[test]
fn fulfillment_sets_refuse_every_repeated_key() {
    let error = CompilationFulfillmentSet::new(
        vec![
            package_fulfillment("@preview/z:1.0.0", "tree:01", 1, 1),
            package_fulfillment("@preview/a:1.0.0", "tree:02", 1, 1),
            package_fulfillment("@preview/z:1.0.0", "tree:03", 1, 1),
            package_fulfillment("@preview/a:1.0.0", "tree:04", 1, 1),
            package_fulfillment("@preview/z:1.0.0", "tree:05", 1, 1),
        ],
        vec![font_fulfillment_of("font:cc"), font_fulfillment_of("font:cc")],
    )
    .unwrap_err();
    let issues: Vec<String> = error
        .issues()
        .iter()
        .map(|issue| match issue {
            CompilationFulfillmentSetIssue::DuplicatePackageSpecification { spec } => format!("package {spec}"),
            CompilationFulfillmentSetIssue::DuplicateFontContainerIdentity { identity } => {
                format!("font {}", identity.as_str())
            }
        })
        .collect();
    assert_eq!(issues, vec!["package @preview/a:1.0.0", "package @preview/z:1.0.0", "font font:cc"]);
    assert_eq!(error.describe(), "Compilation Fulfillment Set construction failed with 3 issue(s)");
}

use typst_pack::fulfillment_report::compilation_fulfillment_report;

#[test]
fn the_fulfillment_report_lists_every_required_or_supplied_dependency_once() {
    let requirements = vec![
        package_requirement("@preview/c:1.0.0", "tree:03", 1, 1, true),
        package_requirement("@preview/a:1.0.0", "tree:01", 1, 1, false),
    ];
    let mut cached = package_fulfillment("@preview/a:1.0.0", "tree:01", 1, 1);
    cached.provenance = Some("registry".to_string());
    cached.cache_hit = true;
    let set = CompilationFulfillmentSet::new(
        vec![package_fulfillment("@preview/b:2.0.0", "tree:02", 1, 1), cached],
        vec![font_fulfillment_of("font:aa").provenance("vendor".to_string())],
    )
    .unwrap();
    let font_requirements = vec![
        font_requirement("font:bb", true, 3, &[0]),
        font_requirement("font:aa", false, 3, &[0]),
    ];
    let report = compilation_fulfillment_report(&requirements, &font_requirements, &set, &[id("font:ab")]);

    let packages: Vec<(String, Option<String>, Option<String>, bool, bool, Option<String>, bool)> = report
        .packages()
        .iter()
        .map(|p| {
            (
                p.spec().to_string(),
                p.required_tree_identity().map(|i| i.as_str().to_string()),
                p.supplied_tree_identity().map(|i| i.as_str().to_string()),
                p.declared(),
                p.embedded(),
                p.provenance().map(str::to_string),
                p.cache_hit(),
            )
        })
        .collect();
    assert_eq!(
        packages,
        vec![
            (
                "@preview/a:1.0.0".to_string(),
                Some("tree:01".to_string()),
                Some("tree:01".to_string()),
                true,
                false,
                Some("registry".to_string()),
                true
            ),
            ("@preview/b:2.0.0".to_string(), None, Some("tree:02".to_string()), false, false, None, false),
            ("@preview/c:1.0.0".to_string(), Some("tree:03".to_string()), None, true, true, None, false),
        ]
    );

    let fonts: Vec<(String, Option<String>, bool, bool, Option<String>)> = report
        .fonts()
        .iter()
        .map(|f| {
            (
                f.container_identity().as_str().to_string(),
                f.supplied_container_identity().map(|i| i.as_str().to_string()),
                f.declared(),
                f.embedded(),
                f.provenance().map(str::to_string),
            )
        })
        .collect();
    assert_eq!(
        fonts,
        vec![
            ("font:aa".to_string(), Some("font:ab".to_string()), true, false, Some("vendor".to_string())),
            ("font:bb".to_string(), None, true, true, None),
        ]
    );
}

use typst_pack::preparation::{prepare_compilation, CompilationPreparation};
use typst_pack::request::CompilationRequestFindings;

fn findings(bundle_requested: bool) -> CompilationRequestFindings {
    CompilationRequestFindings {
        page_issues: Vec::new(),
        invalid_ppi: false,
        standards_error: None,
        override_pack_mismatch: false,
        bundle_requested,
        invalid_document_time: false,
    }
}

#[test]
fn preparation_refuses_the_request_then_the_fulfillments_then_proceeds() {
    let packages = vec![package_requirement("@preview/a:1.0.0", "tree:01", 2, 20, false)];
    let fonts = vec![font_requirement("font:aa", false, 3, &[0])];
    let exact = CompilationFulfillmentSet::new(
        vec![package_fulfillment("@preview/a:1.0.0", "tree:01", 2, 20)],
        vec![font_fulfillment_of("font:aa")],
    )
    .unwrap();
    let summaries = vec![font_fulfillment("font:aa", "font:aa", 3, &[0])];
    let rejected = prepare_compilation(findings(true), &packages, &fonts, &exact, &[id("font:aa")], &summaries);
    assert!(matches!(rejected, CompilationPreparation::Rejected(ref r) if r.issues().len() == 1));
    let ready = prepare_compilation(findings(false), &packages, &fonts, &exact, &[id("font:aa")], &summaries);
    assert!(matches!(ready, CompilationPreparation::Ready { ref report } if report.packages().len() == 1));

    let missing = CompilationFulfillmentSet::new(Vec::new(), vec![font_fulfillment_of("font:aa")]).unwrap();
    match prepare_compilation(findings(false), &packages, &fonts, &missing, &[id("font:aa")], &summaries) {
        CompilationPreparation::InvalidFulfillmentSet { report, issues } => {
            assert_eq!(report.packages().len(), 1);
            let described: Vec<String> = issues.iter().map(describe).collect();
            assert_eq!(described, vec!["missing package @preview/a:1.0.0"]);
        }
        _ => panic!("a missing package must refuse the fulfillments"),
    }
}
