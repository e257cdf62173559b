use typst_pack::authority::{
    FontAxis, FontAxisValue, FontCatalogRejection, FontSelectionFlags, FontStretch, FontWeight,
    OpenTypeAxisTag, UnicodeCodepointRange,
};
use typst_pack::identity::{DiagnosticProducer, ImplementationIdentity, ImplementationRole};
use typst_pack::transport::{SpoolResourceLimits, StableByteValue, StableReadError};
use typst_pack::{
    check_deadline_domain, AdmissionRefusal, AdmittedOperationResourceLimits, CanonicalIdentity,
    DeploymentTrustProfile, DomainValueRejection, MonotonicInstant, MonotonicTimeDomain,
    NonZeroUsize, OperationDeadline, OrdinaryAdmission, ProjectPath, ResourceProfileIdentity,
};

fn admission() -> OrdinaryAdmission {
    OrdinaryAdmission::try_new(DeploymentTrustProfile::PartiallyTrusted).unwrap()
}

#[test]
fn hostile_deployments_are_refused_before_any_input() {
    assert!(matches!(
        OrdinaryAdmission::try_new(DeploymentTrustProfile::Hostile),
        Err(AdmissionRefusal::HostileUnavailableInFirstRelease)
    ));
    let admitted = OrdinaryAdmission::try_new(DeploymentTrustProfile::Trusted).unwrap();
    assert_eq!(admitted.requested(), DeploymentTrustProfile::Trusted);
    assert_eq!(admitted.admitted(), DeploymentTrustProfile::Trusted);
}

#[test]
fn canonical_identities_are_parsed_strictly() {
    let admission = admission();
    assert_eq!(CanonicalIdentity::parse(&admission, "sha256:00ff").unwrap().as_str(), "sha256:00ff");
    assert_eq!(CanonicalIdentity::parse(&admission, "").unwrap_err(), DomainValueRejection::Empty);
    assert_eq!(CanonicalIdentity::parse(&admission, "00ff").unwrap_err(), DomainValueRejection::InvalidSyntax);
    assert_eq!(CanonicalIdentity::parse(&admission, ":00ff").unwrap_err(), DomainValueRejection::InvalidNamespace);
    assert_eq!(CanonicalIdentity::parse(&admission, "Sha:00ff").unwrap_err(), DomainValueRejection::InvalidNamespace);
    assert_eq!(CanonicalIdentity::parse(&admission, "sha256:").unwrap_err(), DomainValueRejection::InvalidSyntax);
    assert_eq!(CanonicalIdentity::parse(&admission, "sha256:00zz").unwrap_err(), DomainValueRejection::InvalidSyntax);
    assert_eq!(CanonicalIdentity::parse(&admission, "sha256:00FF").unwrap_err(), DomainValueRejection::NonCanonical);
}

#[test]
fn project_paths_are_canonical_and_relative() {
    let admission = admission();
    assert_eq!(ProjectPath::parse(&admission, "src/main.typ").unwrap().as_str(), "src/main.typ");
    for invalid in ["", "/abs.typ", "a//b", "a/", "./a", "a/../b", "..", "a\\b"] {
        assert!(ProjectPath::parse(&admission, invalid).is_err(), "{invalid:?} must be refused");
    }
}

#[test]
fn non_zero_counts() {
    assert!(NonZeroUsize::new(0).is_none());
    assert_eq!(NonZeroUsize::new(7).unwrap().get(), 7);
}

#[test]
fn instants_add_ticks_without_overflow() {
    let domain = MonotonicTimeDomain::try_new("clock:boot").unwrap();
    let instant = MonotonicInstant::try_new(domain.clone_domain(), 10);
    let later = instant.checked_add_ticks(5).unwrap();
    assert_eq!(later.ticks(), 15);
    assert_eq!(later.domain().as_str(), "clock:boot");
    assert!(MonotonicInstant::try_new(domain, u64::MAX).checked_add_ticks(1).is_none());
}

#[test]
fn deadlines_must_lie_in_the_clock_domain() {
    let boot = MonotonicTimeDomain::try_new("clock:boot").unwrap();
    let wall = MonotonicTimeDomain::try_new("clock:wall").unwrap();
    assert!(check_deadline_domain(&OperationDeadline::NoDeadline, &boot).is_ok());
    let deadline = OperationDeadline::At(MonotonicInstant::try_new(boot.clone_domain(), 3));
    assert!(check_deadline_domain(&deadline, &boot).is_ok());
    assert_eq!(
        check_deadline_domain(&deadline, &wall),
        Err(AdmissionRefusal::MissingEnforcementCapability)
    );
}

#[test]
fn resource_profiles_are_namespaced() {
    let profile = ResourceProfileIdentity::try_new("vendor:small", 2).unwrap();
    assert_eq!(profile.name(), "vendor:small");
    assert_eq!(profile.version(), 2);
    assert_eq!(
        ResourceProfileIdentity::try_new("small", 2).unwrap_err(),
        DomainValueRejection::InvalidNamespace
    );
    assert_eq!(ResourceProfileIdentity::caller_selected_format_receipt_v1().version(), 1);
}

#[test]
fn admitted_limits_never_exceed_the_request() {
    let requested = SpoolResourceLimits::try_new(100, 50, 10, 20).unwrap();
    let tighter = SpoolResourceLimits::try_new(90, 50, 10, 20).unwrap();
    let looser = SpoolResourceLimits::try_new(200, 50, 10, 20).unwrap();
    let profile = ResourceProfileIdentity::try_new("vendor:small", 1).unwrap();
    let admitted =
        AdmittedOperationResourceLimits::try_from_adapter_profile(profile.clone(), requested, tighter).unwrap();
    assert_eq!(admitted.profile().unwrap().name(), "vendor:small");
    assert_eq!(admitted.admitted().source_bytes(), 90);
    assert!(matches!(
        AdmittedOperationResourceLimits::try_from_adapter_profile(profile, requested, looser),
        Err(AdmissionRefusal::InvalidResourceLimits)
    ));
    let caller = AdmittedOperationResourceLimits::try_caller_selected(requested).unwrap();
    assert!(caller.profile().is_none());
    assert_eq!(caller.requested().in_flight_bytes(), 10);
}

#[test]
fn incoherent_spool_limits_are_refused() {
    assert!(matches!(
        SpoolResourceLimits::try_new(100, 10, 50, 20),
        Err(AdmissionRefusal::InvalidResourceLimits)
    ));
}

#[test]
fn stable_bytes_read_exactly_in_bounds() {
    let admission = admission();
    let value = StableByteValue::from_chunks(&admission, vec![b"hel".to_vec(), Vec::new(), b"lo".to_vec()]).unwrap();
    assert_eq!(value.len(), 5);
    assert!(!value.is_empty());
    let mut window = [0u8; 3];
    value.read_exact_at(1, &mut window).unwrap();
    assert_eq!(&window, b"ell");
    let mut too_far = [9u8; 3];
    assert_eq!(value.read_exact_at(3, &mut too_far), Err(StableReadError::OutOfBounds));
    assert_eq!(too_far, [9u8; 3]);
    let mut nothing = [0u8; 0];
    assert!(value.read_exact_at(5, &mut nothing).is_ok());
    assert!(StableByteValue::from_vec(&admission, Vec::new()).unwrap().is_empty());
}

#[test]
fn font_values_are_range_checked() {
    assert_eq!(FontWeight::try_new(400).unwrap().get(), 400);
    assert_eq!(FontWeight::try_new(99), Err(FontCatalogRejection::WeightOutOfRange));
    assert_eq!(FontWeight::try_new(901), Err(FontCatalogRejection::WeightOutOfRange));
    assert_eq!(FontStretch::try_from_thousandths(1000).unwrap().thousandths(), 1000);
    assert_eq!(FontStretch::try_from_thousandths(2001), Err(FontCatalogRejection::StretchOutOfRange));
    assert_eq!(FontSelectionFlags::try_from_bits(0b1010).unwrap().bits(), 0b1010);
    assert_eq!(FontSelectionFlags::try_from_bits(0x10), Err(FontCatalogRejection::UnknownFlagBits));
    assert!(UnicodeCodepointRange::try_new(0x41, 0x5a).is_ok());
    assert_eq!(UnicodeCodepointRange::try_new(0x5a, 0x41), Err(FontCatalogRejection::InvalidCodepointRange));
    assert_eq!(UnicodeCodepointRange::try_new(0xd000, 0xe000), Err(FontCatalogRejection::InvalidCodepointRange));
    assert_eq!(UnicodeCodepointRange::try_new(0, 0x110000), Err(FontCatalogRejection::InvalidCodepointRange));
}

#[test]
fn axis_values_are_finite_and_axes_ordered() {
    let one = FontAxisValue::try_from_be_bytes(1.0f32.to_be_bytes()).unwrap();
    let two = FontAxisValue::try_from_be_bytes(2.0f32.to_be_bytes()).unwrap();
    let minus = FontAxisValue::try_from_be_bytes((-3.5f32).to_be_bytes()).unwrap();
    assert_eq!(one.to_be_bytes(), 1.0f32.to_be_bytes());
    assert_eq!(
        FontAxisValue::try_from_be_bytes(f32::NAN.to_be_bytes()),
        Err(FontCatalogRejection::InvalidAxisValue)
    );
    assert_eq!(
        FontAxisValue::try_from_be_bytes(f32::INFINITY.to_be_bytes()),
        Err(FontCatalogRejection::InvalidAxisValue)
    );
    let tag = OpenTypeAxisTag::from_bytes(*b"wght");
    let axis = FontAxis::try_new(tag, minus, one, two).unwrap();
    assert_eq!(axis.default(), one);
    assert_eq!(FontAxis::try_new(tag, two, one, two), Err(FontCatalogRejection::InvalidAxisBounds));
}

#[test]
fn diagnostic_producers_keep_their_implementation_identity() {
    let identity = ImplementationIdentity::new(
        ImplementationRole::Exporter,
        "typst-pdf",
        "0.13.1",
        "abc123",
        "x86_64-unknown-linux-gnu",
        "sse2",
        "default",
        false,
    );
    let producer = DiagnosticProducer::new(identity);
    let back = producer.implementation_identity();
    assert_eq!(back.role(), ImplementationRole::Exporter);
    assert_eq!(back.implementation(), "typst-pdf");
    assert_eq!(back.version(), "0.13.1");
    assert_eq!(back.source_checksum(), "abc123");
    assert_eq!(back.target(), "x86_64-unknown-linux-gnu");
    assert_eq!(back.target_features(), "sse2");
    assert!(!back.debug_assertions());
    assert_eq!(back.identity_feature_set("default", "published"), "published");
    assert_eq!(back.identity_feature_set("other", "published"), "default");
}

#[test]
fn small_values_compare_as_what_they_hold() {
    let light = FontWeight::try_new(300).unwrap();
    let bold = FontWeight::try_new(700).unwrap();
    assert!(light < bold);
    assert_eq!(light, FontWeight::try_new(300).unwrap());
    let condensed = FontStretch::try_from_thousandths(750).unwrap();
    let expanded = FontStretch::try_from_thousandths(1250).unwrap();
    assert!(expanded > condensed);
    assert!(OpenTypeAxisTag::from_bytes(*b"slnt") < OpenTypeAxisTag::from_bytes(*b"wght"));
    assert_eq!(OpenTypeAxisTag::from_bytes(*b"wdth"), OpenTypeAxisTag::from_bytes(*b"wdth"));
    assert_ne!(OpenTypeAxisTag::from_bytes(*b"wdth"), OpenTypeAxisTag::from_bytes(*b"wght"));
    let early = typst_pack::compilation::SignedUnixSeconds::try_new(-5).unwrap();
    let late = typst_pack::compilation::SignedUnixSeconds::try_new(5).unwrap();
    assert!(early < late);
    let a = typst_pack::OperationalCapabilityClass::try_new("typst-pack:memory-spool@1").unwrap();
    let b = typst_pack::OperationalCapabilityClass::try_new("typst-pack:memory-spool@2").unwrap();
    assert!(a < b);
    assert_eq!(a, typst_pack::OperationalCapabilityClass::try_new("typst-pack:memory-spool@1").unwrap());
}

#[test]
fn identities_are_equal_exactly_when_their_values_are() {
    let v1 = ResourceProfileIdentity::try_new("vendor:small", 1).unwrap();
    let v2 = ResourceProfileIdentity::try_new("vendor:small", 2).unwrap();
    assert_ne!(v1, v2);
    assert_eq!(v1, ResourceProfileIdentity::try_new("vendor:small", 1).unwrap());
    assert_ne!(v1, ResourceProfileIdentity::try_new("vendor:large", 1).unwrap());
    let admission = admission();
    let a = typst_pack::CompletePackageTreeIdentity::parse(&admission, "tree:0a1b").unwrap();
    let b = typst_pack::CompletePackageTreeIdentity::parse(&admission, "tree:0a1b").unwrap();
    let c = typst_pack::CompletePackageTreeIdentity::parse(&admission, "tree:0a1c").unwrap();
    assert_eq!(a, b);
    assert_ne!(a, c);
    assert_eq!(a.as_str(), "tree:0a1b");
}
