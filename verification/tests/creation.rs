use typst_pack::creation::{
    CreationRequestIssueCode, CreationRequestRole, CreationResourceLimitSpec, CreationResourceLimits,
    EmbeddingDisposition, FontEmbeddingPolicy, PackageEmbeddingPolicy, ProjectSnapshot,
};
use typst_pack::transport::StableByteValue;
use typst_pack::{
    AdmittedOperationResourceLimits, ContentIdentity, DeploymentTrustProfile, OrdinaryAdmission,
    PackageSpecification, ProjectPath,
};

fn admission() -> OrdinaryAdmission {
    OrdinaryAdmission::try_new(DeploymentTrustProfile::Trusted).unwrap()
}

fn limits(project_files: u64, aggregate: u64, largest: u64, packages: u64) -> AdmittedOperationResourceLimits<CreationResourceLimits> {
    let spec = CreationResourceLimitSpec {
        project_files,
        aggregate_project_bytes: aggregate,
        largest_project_file_bytes: largest,
        packages,
        package_files: 100,
        largest_package_file_bytes: 100,
        package_tree_bytes: 1000,
        font_containers: 1,
        font_candidates: 10,
        font_faces: 10,
        font_bytes: 1000,
        discovery_variants: 4,
        discovery_restarts: 4,
        override_count: 4,
        largest_override_bytes: 10,
        aggregate_override_bytes: 100,
        stable_spool_bytes: 1000,
        retained_memory_bytes: 1000,
    };
    AdmittedOperationResourceLimits::try_caller_selected(CreationResourceLimits::try_new(spec).unwrap()).unwrap()
}

fn file(path: &str, bytes: &[u8]) -> (ProjectPath, StableByteValue) {
    let admission = admission();
    (
        ProjectPath::parse(&admission, path).unwrap(),
        StableByteValue::copy_from_slice(&admission, bytes).unwrap(),
    )
}

fn path(value: &str) -> ProjectPath {
    ProjectPath::parse(&admission(), value).unwrap()
}

fn codes(rejection: &typst_pack::creation::CreationRequestRejection) -> Vec<(CreationRequestIssueCode, Option<u64>)> {
    rejection
        .issues()
        .iter()
        .map(|issue| {
            assert_eq!(issue.role, CreationRequestRole::ProjectSnapshot);
            (issue.code, issue.declaration_ordinal)
        })
        .collect()
}

#[test]
fn a_valid_snapshot_keeps_its_files() {
    let files = vec![file("main.typ", b"= Title"), file("data.txt", b"payload")];
    let snapshot = ProjectSnapshot::try_from_files(&admission(), &limits(4, 100, 10, 4), path("main.typ"), files).unwrap();
    assert_eq!(snapshot.entrypoint().as_str(), "main.typ");
    assert_eq!(snapshot.files().len(), 2);
    assert_eq!(snapshot.files()[1].0.as_str(), "data.txt");
}

#[test]
fn an_empty_snapshot_is_refused() {
    let rejection =
        ProjectSnapshot::try_from_files(&admission(), &limits(4, 100, 10, 4), path("main.typ"), Vec::new()).unwrap_err();
    assert_eq!(codes(&rejection), vec![(CreationRequestIssueCode::EmptyCollection, None)]);
}

#[test]
fn a_refused_snapshot_lists_every_issue_in_order() {
    let files = vec![
        file("a.typ", b"0123456789AB"),
        file("b.typ", b"x"),
        file("a.typ", b"y"),
        file("c.typ", b"0123456789ABC"),
    ];
    let rejection =
        ProjectSnapshot::try_from_files(&admission(), &limits(3, 20, 10, 4), path("main.typ"), files).unwrap_err();
    assert_eq!(
        codes(&rejection),
        vec![
            (CreationRequestIssueCode::LargestMemberLimitExceeded, Some(0)),
            (CreationRequestIssueCode::DuplicateLogicalKey, Some(2)),
            (CreationRequestIssueCode::LargestMemberLimitExceeded, Some(3)),
            (CreationRequestIssueCode::MemberLimitExceeded, None),
            (CreationRequestIssueCode::AggregateLimitExceeded, None),
            (CreationRequestIssueCode::InvalidValue, None),
        ]
    );
    assert!(rejection.resource_profile().is_none());
    assert_eq!(rejection.admitted_limits().spec().project_files, 3);
}

#[test]
fn embedding_policies_choose_per_key_or_by_default() {
    let admission = admission();
    let a = PackageSpecification::parse(&admission, "@preview/a:1.0.0").unwrap();
    let b = PackageSpecification::parse(&admission, "@preview/b:1.0.0").unwrap();
    let policy = PackageEmbeddingPolicy::try_by_specification(
        &limits(4, 100, 10, 4),
        EmbeddingDisposition::Embedded,
        vec![(a.clone(), EmbeddingDisposition::ExternallyFulfilled)],
    )
    .unwrap();
    assert_eq!(policy.disposition(&a), EmbeddingDisposition::ExternallyFulfilled);
    assert_eq!(policy.disposition(&b), EmbeddingDisposition::Embedded);
    assert_eq!(PackageEmbeddingPolicy::externally_fulfill_all().disposition(&b), EmbeddingDisposition::ExternallyFulfilled);
    assert_eq!(PackageEmbeddingPolicy::embed_all().disposition(&a), EmbeddingDisposition::Embedded);
}

#[test]
fn embedding_policies_refuse_repeated_keys_and_too_many_choices() {
    let admission = admission();
    let a = PackageSpecification::parse(&admission, "@preview/a:1.0.0").unwrap();
    let rejection = PackageEmbeddingPolicy::try_by_specification(
        &limits(4, 100, 10, 1),
        EmbeddingDisposition::Embedded,
        vec![
            (a.clone(), EmbeddingDisposition::Embedded),
            (a.clone(), EmbeddingDisposition::ExternallyFulfilled),
        ],
    )
    .unwrap_err();
    let issues: Vec<(CreationRequestIssueCode, CreationRequestRole, Option<u64>)> = rejection
        .issues()
        .iter()
        .map(|issue| (issue.code, issue.role, issue.declaration_ordinal))
        .collect();
    assert_eq!(
        issues,
        vec![
            (CreationRequestIssueCode::DuplicateLogicalKey, CreationRequestRole::PackageEmbeddingPolicy, Some(1)),
            (CreationRequestIssueCode::MemberLimitExceeded, CreationRequestRole::PackageEmbeddingPolicy, None),
        ]
    );
    let font = ContentIdentity::parse(&admission, "sha256:00aa").unwrap();
    let other = ContentIdentity::parse(&admission, "sha256:00bb").unwrap();
    let fonts = FontEmbeddingPolicy::try_by_container(
        &limits(4, 100, 10, 1),
        EmbeddingDisposition::ExternallyFulfilled,
        vec![(font.clone(), EmbeddingDisposition::Embedded)],
    )
    .unwrap();
    assert_eq!(fonts.disposition(&font), EmbeddingDisposition::Embedded);
    assert_eq!(fonts.disposition(&other), EmbeddingDisposition::ExternallyFulfilled);
}
