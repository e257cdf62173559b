use typst_pack::session::{
    EvidenceScope, RequestSourceEvidenceBinding, SessionAdapterValueRejection, SessionAffectedScopes,
    SessionFenceFailure, SessionInputRejection, SessionRequestEvidence, SessionWatchCoverage,
};
use typst_pack::AuthorityInstanceIdentity;

fn scope(value: &str) -> EvidenceScope {
    EvidenceScope::try_new(value).unwrap()
}

#[test]
fn evidence_scopes_are_namespaced() {
    assert_eq!(scope("file:main.typ").as_str(), "file:main.typ");
    assert!(matches!(EvidenceScope::try_new(""), Err(SessionAdapterValueRejection::Empty)));
    assert!(matches!(EvidenceScope::try_new("main.typ"), Err(SessionAdapterValueRejection::InvalidNamespace)));
}

#[test]
fn affected_scopes_name_at_least_one_scope() {
    assert!(matches!(
        SessionAffectedScopes::try_new(Vec::new(), Vec::new()),
        Err(SessionAdapterValueRejection::Empty)
    ));
    let scopes = SessionAffectedScopes::try_new(vec![scope("file:a")], vec![scope("pkg:b"), scope("pkg:c")]).unwrap();
    assert_eq!(scopes.request_sources().len(), 1);
    assert_eq!(scopes.dependencies()[1].as_str(), "pkg:c");
    let failure = SessionFenceFailure::try_new(scopes.clone(), "io:timeout").unwrap();
    assert_eq!(failure.safe_code(), "io:timeout");
    assert!(SessionFenceFailure::try_new(scopes.clone(), "timeout").is_err());
    assert!(!SessionWatchCoverage::incomplete(scopes).is_complete());
    assert!(SessionWatchCoverage::complete_push().is_complete());
    assert!(SessionWatchCoverage::complete_poll().is_complete());
}

#[test]
fn revalidatable_evidence_needs_distinct_sources() {
    let provider = AuthorityInstanceIdentity::try_new("fs:local").unwrap();
    assert!(matches!(
        SessionRequestEvidence::revalidatable(Vec::new()),
        Err(SessionInputRejection::MissingEvidence)
    ));
    let a = RequestSourceEvidenceBinding::try_new(scope("file:a"), provider.clone());
    let b = RequestSourceEvidenceBinding::try_new(scope("file:b"), provider.clone());
    let again = RequestSourceEvidenceBinding::try_new(scope("file:a"), provider);
    assert_eq!(a.scope().as_str(), "file:a");
    assert_eq!(a.provider().as_str(), "fs:local");
    assert!(SessionRequestEvidence::revalidatable(vec![a.clone(), b.clone()]).is_ok());
    assert!(matches!(
        SessionRequestEvidence::revalidatable(vec![a, b, again]),
        Err(SessionInputRejection::DuplicateScope)
    ));
    assert!(matches!(
        SessionRequestEvidence::caller_owned_immutable(),
        SessionRequestEvidence::CallerOwnedImmutable
    ));
}
