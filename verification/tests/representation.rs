use typst_pack::representation::{
    ArchiveEncodingIdentity, PackArchiveReadExpectations, PackIdentityVerificationMode,
    PackIngressResourceLimitSpec, PackIngressResourceLimits, RepresentationResourceLimits,
};
use typst_pack::{AdmissionRefusal, ContentIdentity, DeploymentTrustProfile, DomainValueRejection, OrdinaryAdmission};

fn ingress(files: u64, entries: u64, ratio: u64) -> PackIngressResourceLimitSpec {
    PackIngressResourceLimitSpec {
        archive_bytes: 1000,
        control_record_bytes: 100,
        decoded_closure_bytes: 5000,
        largest_file_bytes: 500,
        archive_entries: entries,
        files,
        maximum_expansion_ratio: ratio,
        stable_spool_bytes: 1000,
        retained_memory_bytes: 1000,
    }
}

#[test]
fn ingress_limits_must_be_coherent() {
    let limits = PackIngressResourceLimits::try_new(ingress(10, 20, 5)).unwrap();
    assert_eq!(limits.spec().files, 10);
    assert!(matches!(
        PackIngressResourceLimits::try_new(ingress(30, 20, 5)),
        Err(AdmissionRefusal::InvalidResourceLimits)
    ));
    assert!(matches!(
        PackIngressResourceLimits::try_new(ingress(10, 20, 0)),
        Err(AdmissionRefusal::InvalidResourceLimits)
    ));
}

#[test]
fn representation_limits_fit_their_spool() {
    let limits = RepresentationResourceLimits::try_new(100, 3, 200, 50).unwrap();
    assert_eq!(limits.output_bytes(), 100);
    assert_eq!(limits.files(), 3);
    assert!(RepresentationResourceLimits::try_new(300, 3, 200, 50).is_err());
    assert!(RepresentationResourceLimits::try_new(100, 0, 200, 50).is_err());
}

#[test]
fn read_expectations_accumulate() {
    let admission = OrdinaryAdmission::try_new(DeploymentTrustProfile::Trusted).unwrap();
    let identity = ContentIdentity::parse(&admission, "sha256:00ab").unwrap();
    let expectations = PackArchiveReadExpectations::new(PackIdentityVerificationMode::Derive);
    assert!(expectations.expected_archive_content_identity().is_none());
    let expectations = expectations
        .with_expected_archive_content_identity(identity)
        .with_asserted_archive_encoding_identity(ArchiveEncodingIdentity::epoch_2_all_stored_v1());
    assert_eq!(expectations.expected_archive_content_identity().unwrap().as_str(), "sha256:00ab");
    assert_eq!(
        expectations.asserted_archive_encoding_identity().unwrap().as_str(),
        "typst-pack:epoch-2-all-stored-v1"
    );
    assert!(matches!(expectations.pack_identity(), PackIdentityVerificationMode::Derive));
    assert_eq!(
        ArchiveEncodingIdentity::parse(&admission, "stored").unwrap_err(),
        DomainValueRejection::InvalidNamespace
    );
}
