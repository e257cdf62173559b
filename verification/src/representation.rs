//! The representation operations' values: ingress and representation
//! limits and controls, read and import expectations, archive encoding
//! identities, and what format receipts and terminals report.

use vstd::prelude::*;
use crate::{
    check_deadline_domain, deadline_matches_clock, AdmissionRefusal, AdmittedOperationResourceLimits,
    ClosureExportPath, ContentIdentity, DomainValueRejection, InterruptionSource, MonotonicClock,
    OperationDeadline, OperationLimitSet, OrdinaryAdmission,
};
use crate::pack::PackIdentity;
use crate::transport::{PublicationCommitStrength, TransportCleanupOutcome, TransportCleanupRequirement};

verus! {

/// The bounds of one pack ingress: the archive, its control record, what
/// it decodes to, its entries and files, and the memory and spool it may
/// use.
#[derive(Clone, Copy, Debug, PartialEq, Eq, Structural)]
pub struct PackIngressResourceLimitSpec {
    pub archive_bytes: u64,
    pub control_record_bytes: u64,
    pub decoded_closure_bytes: u64,
    pub largest_file_bytes: u64,
    pub archive_entries: u64,
    pub files: u64,
    pub maximum_expansion_ratio: u64,
    pub stable_spool_bytes: u64,
    pub retained_memory_bytes: u64,
}

/// Whether ingress bounds are coherent: no member bound exceeds its
/// aggregate, and decoding may at least keep the archive's size.
pub open spec fn ingress_spec_coherent(s: PackIngressResourceLimitSpec) -> bool {
    &&& s.control_record_bytes <= s.archive_bytes
    &&& s.largest_file_bytes <= s.decoded_closure_bytes
    &&& s.files <= s.archive_entries
    &&& s.maximum_expansion_ratio >= 1
}

/// Validated bounds of one pack ingress.
#[derive(Clone, Copy, Debug)]
pub struct PackIngressResourceLimits {
    spec: PackIngressResourceLimitSpec,
}

impl PackIngressResourceLimits {
    pub closed spec fn spec_spec(&self) -> PackIngressResourceLimitSpec {
        self.spec
    }

    pub fn try_new(spec: PackIngressResourceLimitSpec) -> (r: Result<Self, AdmissionRefusal>)
        ensures
            match r {
                Ok(l) => ingress_spec_coherent(spec) && l.spec_spec() == spec,
                Err(e) => e == AdmissionRefusal::InvalidResourceLimits && !ingress_spec_coherent(spec),
            },
    {
        let limits = PackIngressResourceLimits { spec };
        limits.validate()?;
        Ok(limits)
    }

    pub fn spec(&self) -> (r: &PackIngressResourceLimitSpec)
        ensures
            *r == self.spec_spec(),
    {
        &self.spec
    }
}

impl OperationLimitSet for PackIngressResourceLimits {
    open spec fn spec_valid(&self) -> bool {
        ingress_spec_coherent(self.spec_spec())
    }

    open spec fn spec_no_looser_than(&self, requested: &Self) -> bool {
        let a = self.spec_spec();
        let b = requested.spec_spec();
        &&& a.archive_bytes <= b.archive_bytes
        &&& a.control_record_bytes <= b.control_record_bytes
        &&& a.decoded_closure_bytes <= b.decoded_closure_bytes
        &&& a.largest_file_bytes <= b.largest_file_bytes
        &&& a.archive_entries <= b.archive_entries
        &&& a.files <= b.files
        &&& a.maximum_expansion_ratio <= b.maximum_expansion_ratio
        &&& a.stable_spool_bytes <= b.stable_spool_bytes
        &&& a.retained_memory_bytes <= b.retained_memory_bytes
    }

    fn validate(&self) -> (r: Result<(), AdmissionRefusal>) {
        let s = &self.spec;
        if s.control_record_bytes <= s.archive_bytes && s.largest_file_bytes <= s.decoded_closure_bytes
            && s.files <= s.archive_entries && s.maximum_expansion_ratio >= 1 {
            Ok(())
        } else {
            Err(AdmissionRefusal::InvalidResourceLimits)
        }
    }

    fn no_looser_than(&self, requested: &Self) -> (r: bool) {
        let a = &self.spec;
        let b = &requested.spec;
        a.archive_bytes <= b.archive_bytes && a.control_record_bytes <= b.control_record_bytes
            && a.decoded_closure_bytes <= b.decoded_closure_bytes && a.largest_file_bytes <= b.largest_file_bytes
            && a.archive_entries <= b.archive_entries && a.files <= b.files && a.maximum_expansion_ratio
            <= b.maximum_expansion_ratio && a.stable_spool_bytes <= b.stable_spool_bytes
            && a.retained_memory_bytes <= b.retained_memory_bytes
    }

    proof fn lemma_no_looser_than_reflexive(limits: &Self) {
    }

    proof fn lemma_no_looser_than_transitive(a: &Self, b: &Self, c: &Self) {
    }
}

/// The bounds of one representation operation: the bytes and files it may
/// output, and the spool and memory it may use.
#[derive(Clone, Copy, Debug)]
pub struct RepresentationResourceLimits {
    output_bytes: u64,
    files: u64,
    stable_spool_bytes: u64,
    retained_memory_bytes: u64,
}

impl RepresentationResourceLimits {
    pub closed spec fn spec_output_bytes(&self) -> u64 {
        self.output_bytes
    }

    pub closed spec fn spec_files(&self) -> u64 {
        self.files
    }

    pub closed spec fn spec_stable_spool_bytes(&self) -> u64 {
        self.stable_spool_bytes
    }

    pub closed spec fn spec_retained_memory_bytes(&self) -> u64 {
        self.retained_memory_bytes
    }

    pub fn try_new(
        output_bytes: u64,
        files: u64,
        stable_spool_bytes: u64,
        retained_memory_bytes: u64,
    ) -> (r: Result<Self, AdmissionRefusal>)
        ensures
            match r {
                Ok(l) => l.spec_valid() && l.spec_output_bytes() == output_bytes && l.spec_files() == files
                    && l.spec_stable_spool_bytes() == stable_spool_bytes && l.spec_retained_memory_bytes()
                    == retained_memory_bytes,
                Err(e) => e == AdmissionRefusal::InvalidResourceLimits && !(files >= 1 && output_bytes
                    <= stable_spool_bytes),
            },
    {
        let limits = RepresentationResourceLimits { output_bytes, files, stable_spool_bytes, retained_memory_bytes };
        limits.validate()?;
        Ok(limits)
    }

    pub fn output_bytes(&self) -> (r: u64)
        ensures
            r == self.spec_output_bytes(),
    {
        self.output_bytes
    }

    pub fn files(&self) -> (r: u64)
        ensures
            r == self.spec_files(),
    {
        self.files
    }

    pub fn stable_spool_bytes(&self) -> (r: u64)
        ensures
            r == self.spec_stable_spool_bytes(),
    {
        self.stable_spool_bytes
    }

    pub fn retained_memory_bytes(&self) -> (r: u64)
        ensures
            r == self.spec_retained_memory_bytes(),
    {
        self.retained_memory_bytes
    }
}

impl OperationLimitSet for RepresentationResourceLimits {
    /// At least one file may be output, and the output fits the stable spool
    /// that holds it.
    open spec fn spec_valid(&self) -> bool {
        self.spec_files() >= 1 && self.spec_output_bytes() <= self.spec_stable_spool_bytes()
    }

    open spec fn spec_no_looser_than(&self, requested: &Self) -> bool {
        &&& self.spec_output_bytes() <= requested.spec_output_bytes()
        &&& self.spec_files() <= requested.spec_files()
        &&& self.spec_stable_spool_bytes() <= requested.spec_stable_spool_bytes()
        &&& self.spec_retained_memory_bytes() <= requested.spec_retained_memory_bytes()
    }

    fn validate(&self) -> (r: Result<(), AdmissionRefusal>) {
        if self.files >= 1 && self.output_bytes <= self.stable_spool_bytes {
            Ok(())
        } else {
            Err(AdmissionRefusal::InvalidResourceLimits)
        }
    }

    fn no_looser_than(&self, requested: &Self) -> (r: bool) {
        self.output_bytes <= requested.output_bytes && self.files <= requested.files && self.stable_spool_bytes
            <= requested.stable_spool_bytes && self.retained_memory_bytes <= requested.retained_memory_bytes
    }

    proof fn lemma_no_looser_than_reflexive(limits: &Self) {
    }

    proof fn lemma_no_looser_than_transitive(a: &Self, b: &Self, c: &Self) {
    }
}

/// What a caller asks of one representation operation.
#[derive(Clone, Debug)]
pub struct RepresentationOperationRequest {
    pub network: crate::OperationNetworkPolicy,
    pub interruption: crate::OperationInterruptionStrength,
    pub deadline: OperationDeadline,
    pub required_enforcement: Vec<crate::EnforcementClaim>,
    pub timing_requested: bool,
}

/// The controls of one pack ingress.
pub struct PackIngressControls<'a> {
    admission: OrdinaryAdmission,
    limits: AdmittedOperationResourceLimits<PackIngressResourceLimits>,
    request: RepresentationOperationRequest,
    clock: (&'a dyn MonotonicClock,),
    clock_domain: crate::MonotonicTimeDomain,
    interruption: (&'a dyn InterruptionSource,),
}

impl<'a> PackIngressControls<'a> {
    pub closed spec fn spec_admission(&self) -> OrdinaryAdmission {
        self.admission
    }

    pub closed spec fn spec_limits(&self) -> AdmittedOperationResourceLimits<PackIngressResourceLimits> {
        self.limits
    }

    pub closed spec fn spec_request(&self) -> RepresentationOperationRequest {
        self.request
    }

    /// The clock the operation runs against, as it was given.
    pub closed spec fn spec_clock(&self) -> (&'a dyn MonotonicClock,) {
        self.clock
    }

    /// The cancellation signal of the operation, as it was given.
    pub closed spec fn spec_interruption(&self) -> (&'a dyn InterruptionSource,) {
        self.interruption
    }

    /// The domain of the operation's clock, as it was when the controls were
    /// bound.
    pub closed spec fn spec_clock_domain(&self) -> crate::MonotonicTimeDomain {
        self.clock_domain
    }

    /// Binds the controls of one operation; a deadline must lie in the
    /// clock's domain.
    pub fn try_new(
        admission: OrdinaryAdmission,
        limits: AdmittedOperationResourceLimits<PackIngressResourceLimits>,
        request: RepresentationOperationRequest,
        clock: &'a dyn MonotonicClock,
        interruption: &'a dyn InterruptionSource,
    ) -> (r: Result<Self, AdmissionRefusal>)
        ensures
            match r {
                Ok(c) => deadline_matches_clock(request.deadline, clock.spec_domain())
                    && c.spec_admission() == admission && c.spec_limits() == limits && c.spec_request() == request
                    && c.spec_clock_domain()@ == clock.spec_domain() && c.spec_clock() == (clock,)
                    && c.spec_interruption() == (interruption,),
                Err(e) => e == AdmissionRefusal::MissingEnforcementCapability
                    && !deadline_matches_clock(request.deadline, clock.spec_domain()),
            },
    {
        if let Err(e) = check_deadline_domain(&request.deadline, clock.domain()) {
            return Err(e);
        }
        let clock_domain = clock.domain().clone_domain();
        let kept_clock = (clock,);
        let kept_interruption = (interruption,);
        Ok(PackIngressControls { admission, limits, request, clock: kept_clock, clock_domain, interruption: kept_interruption })
    }

    pub fn admission(&self) -> (r: &OrdinaryAdmission)
        ensures
            *r == self.spec_admission(),
    {
        &self.admission
    }

    pub fn limits(&self) -> (r: &AdmittedOperationResourceLimits<PackIngressResourceLimits>)
        ensures
            *r == self.spec_limits(),
    {
        &self.limits
    }

    pub fn request(&self) -> (r: &RepresentationOperationRequest)
        ensures
            *r == self.spec_request(),
    {
        &self.request
    }
}

/// The controls of one representation operation.
pub struct RepresentationControls<'a> {
    admission: OrdinaryAdmission,
    limits: AdmittedOperationResourceLimits<RepresentationResourceLimits>,
    request: RepresentationOperationRequest,
    clock: (&'a dyn MonotonicClock,),
    clock_domain: crate::MonotonicTimeDomain,
    interruption: (&'a dyn InterruptionSource,),
}

impl<'a> RepresentationControls<'a> {
    pub closed spec fn spec_admission(&self) -> OrdinaryAdmission {
        self.admission
    }

    pub closed spec fn spec_limits(&self) -> AdmittedOperationResourceLimits<RepresentationResourceLimits> {
        self.limits
    }

    pub closed spec fn spec_request(&self) -> RepresentationOperationRequest {
        self.request
    }

    /// The clock the operation runs against, as it was given.
    pub closed spec fn spec_clock(&self) -> (&'a dyn MonotonicClock,) {
        self.clock
    }

    /// The cancellation signal of the operation, as it was given.
    pub closed spec fn spec_interruption(&self) -> (&'a dyn InterruptionSource,) {
        self.interruption
    }

    /// The domain of the operation's clock, as it was when the controls were
    /// bound.
    pub closed spec fn spec_clock_domain(&self) -> crate::MonotonicTimeDomain {
        self.clock_domain
    }

    /// Binds the controls of one operation; a deadline must lie in the
    /// clock's domain.
    pub fn try_new(
        admission: OrdinaryAdmission,
        limits: AdmittedOperationResourceLimits<RepresentationResourceLimits>,
        request: RepresentationOperationRequest,
        clock: &'a dyn MonotonicClock,
        interruption: &'a dyn InterruptionSource,
    ) -> (r: Result<Self, AdmissionRefusal>)
        ensures
            match r {
                Ok(c) => deadline_matches_clock(request.deadline, clock.spec_domain())
                    && c.spec_admission() == admission && c.spec_limits() == limits && c.spec_request() == request
                    && c.spec_clock_domain()@ == clock.spec_domain() && c.spec_clock() == (clock,)
                    && c.spec_interruption() == (interruption,),
                Err(e) => e == AdmissionRefusal::MissingEnforcementCapability
                    && !deadline_matches_clock(request.deadline, clock.spec_domain()),
            },
    {
        if let Err(e) = check_deadline_domain(&request.deadline, clock.domain()) {
            return Err(e);
        }
        let clock_domain = clock.domain().clone_domain();
        let kept_clock = (clock,);
        let kept_interruption = (interruption,);
        Ok(RepresentationControls { admission, limits, request, clock: kept_clock, clock_domain, interruption: kept_interruption })
    }

    pub fn admission(&self) -> (r: &OrdinaryAdmission)
        ensures
            *r == self.spec_admission(),
    {
        &self.admission
    }

    pub fn limits(&self) -> (r: &AdmittedOperationResourceLimits<RepresentationResourceLimits>)
        ensures
            *r == self.spec_limits(),
    {
        &self.limits
    }

    pub fn request(&self) -> (r: &RepresentationOperationRequest)
        ensures
            *r == self.spec_request(),
    {
        &self.request
    }
}

/// Whether a read derives the pack identity or verifies an expected one.
#[derive(Clone, Debug)]
pub enum PackIdentityVerificationMode {
    Derive,
    Verify(PackIdentity),
}

/// What a caller expects of a pack archive that is read.
#[derive(Clone, Debug)]
pub struct PackArchiveReadExpectations {
    expected_archive_content_identity: Option<ContentIdentity>,
    pack_identity: PackIdentityVerificationMode,
    asserted_archive_encoding_identity: Option<ArchiveEncodingIdentity>,
}

impl PackArchiveReadExpectations {
    pub closed spec fn spec_expected_archive_content_identity(&self) -> Option<ContentIdentity> {
        self.expected_archive_content_identity
    }

    pub closed spec fn spec_pack_identity(&self) -> PackIdentityVerificationMode {
        self.pack_identity
    }

    pub closed spec fn spec_asserted_archive_encoding_identity(&self) -> Option<ArchiveEncodingIdentity> {
        self.asserted_archive_encoding_identity
    }

    /// Expectations with only a pack identity mode: no archive identity is
    /// expected and no encoding asserted.
    pub fn new(pack_identity: PackIdentityVerificationMode) -> (r: Self)
        ensures
            r.spec_pack_identity() == pack_identity,
            r.spec_expected_archive_content_identity() is None,
            r.spec_asserted_archive_encoding_identity() is None,
    {
        PackArchiveReadExpectations {
            expected_archive_content_identity: None,
            pack_identity,
            asserted_archive_encoding_identity: None,
        }
    }

    /// These expectations, also expecting the archive's content identity.
    pub fn with_expected_archive_content_identity(self, identity: ContentIdentity) -> (r: Self)
        ensures
            r.spec_expected_archive_content_identity() == Some(identity),
            r.spec_pack_identity() == self.spec_pack_identity(),
            r.spec_asserted_archive_encoding_identity() == self.spec_asserted_archive_encoding_identity(),
    {
        PackArchiveReadExpectations { expected_archive_content_identity: Some(identity), ..self }
    }

    /// These expectations, also asserting the archive's encoding.
    pub fn with_asserted_archive_encoding_identity(self, identity: ArchiveEncodingIdentity) -> (r: Self)
        ensures
            r.spec_asserted_archive_encoding_identity() == Some(identity),
            r.spec_pack_identity() == self.spec_pack_identity(),
            r.spec_expected_archive_content_identity() == self.spec_expected_archive_content_identity(),
    {
        PackArchiveReadExpectations { asserted_archive_encoding_identity: Some(identity), ..self }
    }

    pub fn pack_identity(&self) -> (r: &PackIdentityVerificationMode)
        ensures
            *r == self.spec_pack_identity(),
    {
        &self.pack_identity
    }

    pub fn expected_archive_content_identity(&self) -> (r: Option<&ContentIdentity>)
        ensures
            match r {
                Some(x) => self.spec_expected_archive_content_identity() == Some(*x),
                None => self.spec_expected_archive_content_identity() is None,
            },
    {
        self.expected_archive_content_identity.as_ref()
    }

    pub fn asserted_archive_encoding_identity(&self) -> (r: Option<&ArchiveEncodingIdentity>)
        ensures
            match r {
                Some(x) => self.spec_asserted_archive_encoding_identity() == Some(*x),
                None => self.spec_asserted_archive_encoding_identity() is None,
            },
    {
        self.asserted_archive_encoding_identity.as_ref()
    }
}

/// What a caller expects of an imported closure export.
#[derive(Clone, Debug)]
pub struct ClosureExportImportExpectations {
    pack_identity: PackIdentityVerificationMode,
}

impl ClosureExportImportExpectations {
    pub closed spec fn spec_pack_identity(&self) -> PackIdentityVerificationMode {
        self.pack_identity
    }

    pub fn new(pack_identity: PackIdentityVerificationMode) -> (r: Self)
        ensures
            r.spec_pack_identity() == pack_identity,
    {
        ClosureExportImportExpectations { pack_identity }
    }

    pub fn pack_identity(&self) -> (r: &PackIdentityVerificationMode)
        ensures
            *r == self.spec_pack_identity(),
    {
        &self.pack_identity
    }
}

#[derive(Clone, Copy, Debug, Eq, PartialEq, Structural)]
pub enum ClosureExportInputRejection {
    Empty,
    DuplicatePath,
    InvalidNamespace,
    AggregateLengthOverflow,
}

#[derive(Clone, Copy, Debug, Eq, PartialEq, Structural)]
pub enum RepresentationAdmissionRefusalReason {
    UnsupportedArchiveEncodingRecipe,
    DeploymentTrustProfileUnavailable,
    OperationNetworkPolicyUnavailable,
    OperationResourceLimitsUnavailable,
    InterruptionContractUnavailable,
    RequiredEnforcementUnavailable,
    ReportingUnavailable,
    CapacityUnavailable,
}

#[derive(Clone, Copy, Debug, Eq, PartialEq, Structural)]
pub enum FormatReceiptTerminal {
    Success,
    Invalid,
    Unsupported,
    ExpectedPackIdentityMismatch,
    ResourceOutcome,
    Cancelled,
    Deadline,
    AdmissionRefused,
    InternalIntegrity,
    TransportFailure,
    ArchiveEncodingAssertionMismatch,
    InputContentIdentityMismatch,
}

#[derive(Clone, Copy, Debug, Eq, PartialEq, Structural)]
pub enum FormatReceiptRole {
    PackArchiveEncode,
    PackArchiveRead,
    ClosureExportProject,
    ProjectMaterialization,
    ClosureExportImport,
    PackArchivePublish,
    ClosureExportPublish,
}

#[derive(Clone, Copy, Debug, Eq, PartialEq, Structural)]
pub enum FormatReceiptStage {
    Admission,
    ReferenceResolution,
    Acquisition,
    Spooling,
    RepresentationFraming,
    ControlRecord,
    ObjectVerification,
    Construction,
    EncodingOrProjection,
    Transfer,
    Commit,
    Cleanup,
    Complete,
}

#[derive(Clone, Copy, Debug, Eq, PartialEq, Structural)]
pub enum FormatVerificationMode {
    NotApplicable,
    Derive,
    Verify,
}

#[derive(Clone, Copy, Debug, Eq, PartialEq, Structural)]
pub enum ArchiveEncodingAssertionStatus {
    NotAsserted,
    SuppliedButUnevaluated,
    ExternallyAssertedAndByteVerified,
    ExternallyAssertedAndByteMismatched,
}

#[derive(Clone, Copy, Debug, Eq, PartialEq, Structural)]
pub enum FormatTimingStatus {
    NotRequested,
    Complete,
    Limited,
    Unavailable,
}

#[derive(Clone, Copy, Debug, Eq, PartialEq, Structural)]
pub enum FormatFailureClass {
    NotApplicable,
    ReferenceResolution,
    Acquisition,
    Spooling,
    Transfer,
    Commit,
    Cleanup,
    AdapterContract,
}

#[derive(Clone, Copy, Debug, Eq, PartialEq, Structural)]
pub enum ClosureExportEntryRole {
    ControlRecord,
    Blob,
}

/// Counts a format receipt reports, each where it was measured.
#[derive(Clone, Copy, Debug, Default, PartialEq, Eq, Structural)]
pub struct FormatReceiptCounters {
    pub input_bytes: Option<u64>,
    pub output_bytes: Option<u64>,
    pub control_record_bytes: Option<u64>,
    pub planned_objects: Option<u64>,
    pub verified_objects: Option<u64>,
    pub aggregate_decoded_bytes: Option<u64>,
    pub file_count: Option<u64>,
}

/// Whether a representation operation published, and with what strength.
#[derive(Clone, Copy, Debug, PartialEq, Eq, Structural)]
pub enum FormatPublicationStatus {
    NotApplicable,
    NotStarted { requested: PublicationCommitStrength, admitted: PublicationCommitStrength },
    Committed {
        requested: PublicationCommitStrength,
        admitted: PublicationCommitStrength,
        actual: PublicationCommitStrength,
    },
    Failed {
        requested: PublicationCommitStrength,
        admitted: PublicationCommitStrength,
        actual: Option<PublicationCommitStrength>,
    },
}

/// Whether a representation operation reached its cleanup, and how it went.
#[derive(Clone, Copy, Debug, PartialEq, Eq, Structural)]
pub enum FormatCleanupStatus {
    NotApplicable,
    NotReached { requested: TransportCleanupRequirement, admitted: TransportCleanupRequirement },
    Reached {
        requested: TransportCleanupRequirement,
        admitted: TransportCleanupRequirement,
        outcome: TransportCleanupOutcome,
    },
}

/// One file a format receipt reports.
#[derive(Clone, Debug)]
pub struct FormatReceiptFile {
    pub path: ClosureExportPath,
    pub exact_bytes: u64,
    pub content_identity: ContentIdentity,
}

/// The code of a validation rule that a representation broke.
#[derive(Clone, Debug)]
pub struct ValidationRuleCode {
    value: String,
}

impl ValidationRuleCode {
    pub closed spec fn spec_value(&self) -> Seq<char> {
        self.value@
    }

    pub fn new(value: String) -> (r: Self)
        ensures
            r.spec_value() == value@,
    {
        ValidationRuleCode { value }
    }

    pub fn as_str(&self) -> (r: &str)
        ensures
            r@ == self.spec_value(),
    {
        self.value.as_str()
    }
}

/// The identifier of an enforcement fact in a format receipt.
#[derive(Clone, Debug)]
pub struct FormatEnforcementFactIdentifier {
    value: String,
}

impl FormatEnforcementFactIdentifier {
    pub closed spec fn spec_value(&self) -> Seq<char> {
        self.value@
    }

    pub fn new(value: String) -> (r: Self)
        ensures
            r.spec_value() == value@,
    {
        FormatEnforcementFactIdentifier { value }
    }

    pub fn as_str(&self) -> (r: &str)
        ensures
            r@ == self.spec_value(),
    {
        self.value.as_str()
    }
}

/// The code of the cause of a representation failure.
#[derive(Clone, Debug)]
pub struct FormatFailureCauseCode {
    value: String,
}

impl FormatFailureCauseCode {
    pub closed spec fn spec_value(&self) -> Seq<char> {
        self.value@
    }

    pub fn new(value: String) -> (r: Self)
        ensures
            r.spec_value() == value@,
    {
        FormatFailureCauseCode { value }
    }

    pub fn as_str(&self) -> (r: &str)
        ensures
            r@ == self.spec_value(),
    {
        self.value.as_str()
    }
}

/// A representation that broke validation rules: the first one broken, and
/// all of them.
#[derive(Clone, Debug)]
pub struct InvalidRepresentation {
    pub first_rule: ValidationRuleCode,
    pub all_rules: Vec<ValidationRuleCode>,
}

/// A representation that needs a rule this implementation does not support.
#[derive(Clone, Debug)]
pub struct UnsupportedRepresentation {
    pub rule: ValidationRuleCode,
}

/// How a pack archive is encoded, as a namespaced identity.
#[derive(Clone, Debug)]
pub struct ArchiveEncodingIdentity {
    value: String,
}

impl ArchiveEncodingIdentity {
    pub closed spec fn spec_value(&self) -> Seq<char> {
        self.value@
    }

    pub fn parse(_admission: &OrdinaryAdmission, value: &str) -> (r: Result<Self, DomainValueRejection>)
        ensures
            match r {
                Ok(v) => crate::syntax::namespaced_rejection(value@) is None && v.spec_value() == value@,
                Err(e) => crate::syntax::namespaced_rejection(value@) == Some(e),
            },
    {
        match crate::syntax::check_namespaced(&crate::text::chars_of(value)) {
            Some(e) => Err(e),
            None => Ok(ArchiveEncodingIdentity { value: value.to_owned() }),
        }
    }

    /// The encoding of the second archive epoch, with every entry stored.
    pub fn epoch_2_all_stored_v1() -> (r: Self)
        ensures
            r.spec_value() == "typst-pack:epoch-2-all-stored-v1"@,
    {
        ArchiveEncodingIdentity { value: "typst-pack:epoch-2-all-stored-v1".to_owned() }
    }

    pub fn as_str(&self) -> (r: &str)
        ensures
            r@ == self.spec_value(),
    {
        self.value.as_str()
    }
}

/// A refused representation admission, with its reason.
#[derive(Clone, Copy, Debug, PartialEq, Eq, Structural)]
pub struct RepresentationAdmissionRefusal {
    reason: RepresentationAdmissionRefusalReason,
}

impl RepresentationAdmissionRefusal {
    pub closed spec fn spec_reason(&self) -> RepresentationAdmissionRefusalReason {
        self.reason
    }

    pub fn new(reason: RepresentationAdmissionRefusalReason) -> (r: Self)
        ensures
            r.spec_reason() == reason,
    {
        RepresentationAdmissionRefusal { reason }
    }

    pub fn reason(&self) -> (r: RepresentationAdmissionRefusalReason)
        ensures
            r == self.spec_reason(),
    {
        self.reason
    }
}

/// Why a representation operation failed.
#[derive(Clone, Copy, Debug, PartialEq, Eq, Structural)]
pub enum RepresentationFailure {
    Admission(RepresentationAdmissionRefusal),
    ResourceLimit,
    Encoding,
    Spooling,
    Cancelled,
    Deadline,
    InternalIntegrity,
}

} // verus!
