//! Packs: their identity, metadata and annotations, and the inspection of
//! what a pack holds.

use vstd::prelude::*;
use crate::{
    AdmittedOperationResourceLimits, ContentIdentity, DiscoveryCoverageIdentity, DiscoveryRequestCommitment,
    DiscoveryTraceIdentity, DiscoveryVariantIdentity, DomainValueRejection, FontRequirementIdentity, NonZeroU32,
    OrdinaryAdmission, PackageRequirementIdentity, ProjectPath, ProjectTreeIdentity,
};
use crate::creation::{CreationRequestIssueCode, CreationRequestRejection, CreationRequestRole, CreationResourceLimits};

verus! {

/// The canonical identity of a pack.
#[derive(Clone, Debug, Eq, Ord, PartialEq, PartialOrd)]
pub struct PackIdentity {
    value: String,
}

impl View for PackIdentity {
    type V = Seq<char>;

    closed spec fn view(&self) -> Seq<char> {
        self.value@
    }
}

impl PackIdentity {
    pub fn parse(_admission: &OrdinaryAdmission, value: &str) -> (r: Result<Self, DomainValueRejection>)
        ensures
            match r {
                Ok(v) => crate::syntax::identity_rejection(value@) is None && v@ == value@,
                Err(e) => crate::syntax::identity_rejection(value@) == Some(e),
            },
    {
        match crate::syntax::check_identity(&crate::text::chars_of(value)) {
            Some(e) => Err(e),
            None => Ok(PackIdentity { value: value.to_owned() }),
        }
    }

    pub fn as_str(&self) -> (r: &str)
        ensures
            r@ == self@,
    {
        self.value.as_str()
    }

    pub fn same_as(&self, other: &Self) -> (r: bool)
        ensures
            r == (self@ == other@),
    {
        self.value == other.value
    }

    pub fn duplicate(&self) -> (r: Self)
        ensures
            r@ == self@,
    {
        PackIdentity { value: self.value.clone() }
    }
}

/// Whether a text is empty.
pub open spec fn text_empty(s: String) -> bool {
    s@.len() == 0
}

/// Whether all texts are non-empty.
pub open spec fn all_non_empty(v: Seq<String>) -> bool {
    forall|i: int| 0 <= i < v.len() ==> !text_empty(#[trigger] v[i])
}

/// Whether no text occurs twice.
pub open spec fn texts_distinct(v: Seq<String>) -> bool {
    forall|i: int, j: int| 0 <= i < j < v.len() ==> v[i]@ != v[j]@
}

/// Why metadata cannot stand, if it cannot: a present text is empty (an
/// invalid value), or a keyword occurs twice.
pub open spec fn metadata_issue(
    title: Option<String>,
    description: Option<String>,
    authors: Seq<String>,
    keywords: Seq<String>,
) -> Option<CreationRequestIssueCode> {
    if (title matches Some(t) && text_empty(t)) || (description matches Some(d) && text_empty(d)) || !all_non_empty(
        authors,
    ) || !all_non_empty(keywords) {
        Some(CreationRequestIssueCode::InvalidValue)
    } else if !texts_distinct(keywords) {
        Some(CreationRequestIssueCode::DuplicateLogicalKey)
    } else {
        None
    }
}

fn check_all_non_empty(v: &[String]) -> (r: bool)
    ensures
        r == all_non_empty(v@),
{
    let mut i: usize = 0;
    while i < v.len()
        invariant
            i <= v@.len(),
            forall|k: int| 0 <= k < i ==> !text_empty(#[trigger] v@[k]),
        decreases v@.len() - i,
    {
        if v[i].as_str().is_empty() {
            assert(text_empty(v@[i as int]));
            return false;
        }
        i = i + 1;
    }
    true
}

fn check_texts_distinct(v: &[String]) -> (r: bool)
    ensures
        r == texts_distinct(v@),
{
    let n = v.len();
    let mut i: usize = 0;
    while i < n
        invariant
            n == v@.len(),
            i <= n,
            forall|a: int, b: int| 0 <= a < i && a < b < n ==> v@[a]@ != v@[b]@,
        decreases n - i,
    {
        let mut j: usize = i + 1;
        while j < n
            invariant
                n == v@.len(),
                i < n,
                i + 1 <= j <= n,
                forall|a: int, b: int| 0 <= a < i && a < b < n ==> v@[a]@ != v@[b]@,
                forall|b: int| i < b < j ==> v@[i as int]@ != v@[b]@,
            decreases n - j,
        {
            if v[i] == v[j] {
                return false;
            }
            j = j + 1;
        }
        i = i + 1;
    }
    true
}

fn opt_text_empty(t: &Option<String>) -> (r: bool)
    ensures
        r == (*t matches Some(s) && text_empty(s)),
{
    match t {
        Some(s) => s.as_str().is_empty(),
        None => false,
    }
}

/// Descriptive metadata of a pack.
#[derive(Clone, Debug, Eq, PartialEq)]
pub struct PackMetadata {
    title: Option<String>,
    description: Option<String>,
    authors: Vec<String>,
    keywords: Vec<String>,
}

impl PackMetadata {
    pub closed spec fn spec_title(&self) -> Option<String> {
        self.title
    }

    pub closed spec fn spec_description(&self) -> Option<String> {
        self.description
    }

    pub closed spec fn spec_authors(&self) -> Seq<String> {
        self.authors@
    }

    pub closed spec fn spec_keywords(&self) -> Seq<String> {
        self.keywords@
    }

    pub fn empty() -> (r: Self)
        ensures
            r.spec_title() is None,
            r.spec_description() is None,
            r.spec_authors().len() == 0,
            r.spec_keywords().len() == 0,
    {
        PackMetadata { title: None, description: None, authors: Vec::new(), keywords: Vec::new() }
    }

    pub fn try_new(
        _admission: &OrdinaryAdmission,
        limits: &AdmittedOperationResourceLimits<CreationResourceLimits>,
        title: Option<String>,
        description: Option<String>,
        authors: Vec<String>,
        keywords: Vec<String>,
    ) -> (r: Result<Self, CreationRequestRejection>)
        ensures
            match r {
                Ok(m) => metadata_issue(title, description, authors@, keywords@) is None && m.spec_title()
                    == title && m.spec_description() == description && m.spec_authors() == authors@
                    && m.spec_keywords() == keywords@,
                Err(e) => metadata_issue(title, description, authors@, keywords@) matches Some(code)
                    && e.spec_issues() == seq![
                    crate::creation::CreationRequestIssueView {
                        code,
                        role: CreationRequestRole::Metadata,
                        declaration_ordinal: None,
                    },
                ],
            },
    {
        if opt_text_empty(&title) || opt_text_empty(&description) || !check_all_non_empty(authors.as_slice())
            || !check_all_non_empty(keywords.as_slice()) {
            return Err(
                CreationRequestRejection::single(
                    limits,
                    CreationRequestIssueCode::InvalidValue,
                    CreationRequestRole::Metadata,
                    None,
                ),
            );
        }
        if !check_texts_distinct(keywords.as_slice()) {
            return Err(
                CreationRequestRejection::single(
                    limits,
                    CreationRequestIssueCode::DuplicateLogicalKey,
                    CreationRequestRole::Metadata,
                    None,
                ),
            );
        }
        Ok(PackMetadata { title, description, authors, keywords })
    }

    pub fn title(&self) -> (r: Option<&str>)
        ensures
            match r {
                Some(t) => self.spec_title() matches Some(s) && t@ == s@,
                None => self.spec_title() is None,
            },
    {
        match &self.title {
            Some(t) => Some(t.as_str()),
            None => None,
        }
    }

    pub fn description(&self) -> (r: Option<&str>)
        ensures
            match r {
                Some(t) => self.spec_description() matches Some(s) && t@ == s@,
                None => self.spec_description() is None,
            },
    {
        match &self.description {
            Some(t) => Some(t.as_str()),
            None => None,
        }
    }

    pub fn authors(&self) -> (r: &[String])
        ensures
            r@ == self.spec_authors(),
    {
        self.authors.as_slice()
    }

    pub fn keywords(&self) -> (r: &[String])
        ensures
            r@ == self.spec_keywords(),
    {
        self.keywords.as_slice()
    }
}

/// The namespaced identifier of a pack annotation.
#[derive(Clone, Debug, Eq, Ord, PartialEq, PartialOrd)]
pub struct PackAnnotationIdentifier {
    value: String,
}

impl View for PackAnnotationIdentifier {
    type V = Seq<char>;

    closed spec fn view(&self) -> Seq<char> {
        self.value@
    }
}

impl PackAnnotationIdentifier {
    pub fn parse(
        _admission: &OrdinaryAdmission,
        limits: &AdmittedOperationResourceLimits<CreationResourceLimits>,
        value: &str,
    ) -> (r: Result<Self, CreationRequestRejection>)
        ensures
            match r {
                Ok(i) => crate::syntax::namespaced_rejection(value@) is None && i@ == value@,
                Err(e) => crate::syntax::namespaced_rejection(value@) is Some && e.spec_issues() == seq![
                    crate::creation::CreationRequestIssueView {
                        code: CreationRequestIssueCode::InvalidValue,
                        role: CreationRequestRole::Annotation,
                        declaration_ordinal: None,
                    },
                ],
            },
    {
        match crate::syntax::check_namespaced(&crate::text::chars_of(value)) {
            Some(_) => Err(
                CreationRequestRejection::single(
                    limits,
                    CreationRequestIssueCode::InvalidValue,
                    CreationRequestRole::Annotation,
                    None,
                ),
            ),
            None => Ok(PackAnnotationIdentifier { value: value.to_owned() }),
        }
    }

    pub fn as_str(&self) -> (r: &str)
        ensures
            r@ == self@,
    {
        self.value.as_str()
    }
}

/// An annotation carried by a pack: an identified, versioned payload.
#[derive(Clone, Debug, Eq, PartialEq)]
pub struct PackAnnotation {
    declaration_ordinal: Option<u64>,
    identifier: PackAnnotationIdentifier,
    epoch: NonZeroU32,
    payload: Vec<u8>,
}

impl PackAnnotation {
    pub closed spec fn spec_declaration_ordinal(&self) -> Option<u64> {
        self.declaration_ordinal
    }

    pub closed spec fn spec_identifier(&self) -> PackAnnotationIdentifier {
        self.identifier
    }

    pub closed spec fn spec_epoch(&self) -> NonZeroU32 {
        self.epoch
    }

    pub closed spec fn spec_payload(&self) -> Seq<u8> {
        self.payload@
    }

    /// An annotation's payload is retained in memory, so it may be no larger
    /// than the admitted retained-memory bound.
    pub fn try_new(
        _admission: &OrdinaryAdmission,
        limits: &AdmittedOperationResourceLimits<CreationResourceLimits>,
        declaration_ordinal: Option<u64>,
        identifier: PackAnnotationIdentifier,
        epoch: NonZeroU32,
        payload: Vec<u8>,
    ) -> (r: Result<Self, CreationRequestRejection>)
        ensures
            match r {
                Ok(a) => payload@.len() <= limits.spec_admitted().spec_limits().retained_memory_bytes
                    && a.spec_declaration_ordinal() == declaration_ordinal && a.spec_identifier() == identifier
                    && a.spec_epoch() == epoch && a.spec_payload() == payload@,
                Err(e) => payload@.len() > limits.spec_admitted().spec_limits().retained_memory_bytes
                    && e.spec_issues() == seq![
                    crate::creation::CreationRequestIssueView {
                        code: CreationRequestIssueCode::LargestMemberLimitExceeded,
                        role: CreationRequestRole::Annotation,
                        declaration_ordinal,
                    },
                ],
            },
    {
        if payload.len() as u64 > limits.admitted().spec().retained_memory_bytes {
            return Err(
                CreationRequestRejection::single(
                    limits,
                    CreationRequestIssueCode::LargestMemberLimitExceeded,
                    CreationRequestRole::Annotation,
                    declaration_ordinal,
                ),
            );
        }
        Ok(PackAnnotation { declaration_ordinal, identifier, epoch, payload })
    }

    pub fn identifier(&self) -> (r: &PackAnnotationIdentifier)
        ensures
            *r == self.spec_identifier(),
    {
        &self.identifier
    }

    pub fn epoch(&self) -> (r: NonZeroU32)
        ensures
            r == self.spec_epoch(),
    {
        self.epoch
    }

    pub fn payload(&self) -> (r: &[u8])
        ensures
            r@ == self.spec_payload(),
    {
        self.payload.as_slice()
    }
}

/// Where acquired dependencies come from.
pub type AcquisitionSourceClass = crate::authority::AcquisitionSourceClass;

#[derive(Clone, Copy, Debug, Eq, Ord, PartialEq, PartialOrd, Structural)]
pub enum FileRequestKind {
    TypstSource,
    RawFile,
}

#[derive(Clone, Copy, Debug, Eq, PartialEq, Structural)]
pub enum DependencyDisposition {
    Embedded,
    ExternallyFulfilled,
}

#[derive(Clone, Copy, Debug, Eq, PartialEq, Structural)]
pub struct VersionInspection {
    pub major: u32,
    pub minor: u32,
    pub patch: u32,
}

/// The engine that discovered what a pack needs.
#[derive(Clone, Debug)]
pub struct DiscoveryEngineInspection {
    identity: crate::EngineIdentity,
    producer_id: String,
    implementation_name: String,
    implementation_version: VersionInspection,
    exact_build_fingerprint: Vec<u8>,
    target_profile: String,
    qualifiers: Vec<(String, String)>,
    unicode_xid_version: VersionInspection,
    package_metadata_profile_id: String,
    font_metadata_profile_id: String,
}

impl DiscoveryEngineInspection {
    pub closed spec fn spec_identity(&self) -> crate::EngineIdentity {
        self.identity
    }

    pub closed spec fn spec_producer_id(&self) -> String {
        self.producer_id
    }

    pub closed spec fn spec_implementation_name(&self) -> String {
        self.implementation_name
    }

    pub closed spec fn spec_implementation_version(&self) -> VersionInspection {
        self.implementation_version
    }

    pub closed spec fn spec_exact_build_fingerprint(&self) -> Vec<u8> {
        self.exact_build_fingerprint
    }

    pub closed spec fn spec_target_profile(&self) -> String {
        self.target_profile
    }

    pub closed spec fn spec_qualifiers(&self) -> Vec<(String, String)> {
        self.qualifiers
    }

    pub closed spec fn spec_unicode_xid_version(&self) -> VersionInspection {
        self.unicode_xid_version
    }

    pub closed spec fn spec_package_metadata_profile_id(&self) -> String {
        self.package_metadata_profile_id
    }

    pub closed spec fn spec_font_metadata_profile_id(&self) -> String {
        self.font_metadata_profile_id
    }

    pub(crate) fn new(identity: crate::EngineIdentity, producer_id: String, implementation_name: String, implementation_version: VersionInspection, exact_build_fingerprint: Vec<u8>, target_profile: String, qualifiers: Vec<(String, String)>, unicode_xid_version: VersionInspection, package_metadata_profile_id: String, font_metadata_profile_id: String) -> (r: Self)
        ensures
            r.spec_identity() == identity,
            r.spec_producer_id() == producer_id,
            r.spec_implementation_name() == implementation_name,
            r.spec_implementation_version() == implementation_version,
            r.spec_exact_build_fingerprint() == exact_build_fingerprint,
            r.spec_target_profile() == target_profile,
            r.spec_qualifiers() == qualifiers,
            r.spec_unicode_xid_version() == unicode_xid_version,
            r.spec_package_metadata_profile_id() == package_metadata_profile_id,
            r.spec_font_metadata_profile_id() == font_metadata_profile_id,
    {
        DiscoveryEngineInspection { identity, producer_id, implementation_name, implementation_version, exact_build_fingerprint, target_profile, qualifiers, unicode_xid_version, package_metadata_profile_id, font_metadata_profile_id }
    }

    pub fn identity(&self) -> (r: &crate::EngineIdentity)
        ensures
            *r == self.spec_identity(),
    {
        &self.identity
    }

    pub fn producer_id(&self) -> (r: &str)
        ensures
            r@ == self.spec_producer_id()@,
    {
        self.producer_id.as_str()
    }

    pub fn implementation_name(&self) -> (r: &str)
        ensures
            r@ == self.spec_implementation_name()@,
    {
        self.implementation_name.as_str()
    }

    pub fn implementation_version(&self) -> (r: VersionInspection)
        ensures
            r == self.spec_implementation_version(),
    {
        self.implementation_version
    }

    pub fn exact_build_fingerprint(&self) -> (r: &[u8])
        ensures
            r@ == self.spec_exact_build_fingerprint()@,
    {
        self.exact_build_fingerprint.as_slice()
    }

    pub fn target_profile(&self) -> (r: &str)
        ensures
            r@ == self.spec_target_profile()@,
    {
        self.target_profile.as_str()
    }

    pub fn qualifiers(&self) -> (r: &[(String, String)])
        ensures
            r@ == self.spec_qualifiers()@,
    {
        self.qualifiers.as_slice()
    }

    pub fn unicode_xid_version(&self) -> (r: VersionInspection)
        ensures
            r == self.spec_unicode_xid_version(),
    {
        self.unicode_xid_version
    }

    pub fn package_metadata_profile_id(&self) -> (r: &str)
        ensures
            r@ == self.spec_package_metadata_profile_id()@,
    {
        self.package_metadata_profile_id.as_str()
    }

    pub fn font_metadata_profile_id(&self) -> (r: &str)
        ensures
            r@ == self.spec_font_metadata_profile_id()@,
    {
        self.font_metadata_profile_id.as_str()
    }
}

#[derive(Clone, Debug)]
pub struct ProjectFileInspection {
    pub path: ProjectPath,
    pub content_identity: ContentIdentity,
    pub exact_bytes: u64,
}

/// The project files a pack holds.
#[derive(Clone, Debug)]
pub struct ProjectTreeInspection {
    identity: ProjectTreeIdentity,
    file_count: u32,
    aggregate_bytes: u64,
    files: Vec<ProjectFileInspection>,
}

impl ProjectTreeInspection {
    pub closed spec fn spec_identity(&self) -> ProjectTreeIdentity {
        self.identity
    }

    pub closed spec fn spec_file_count(&self) -> u32 {
        self.file_count
    }

    pub closed spec fn spec_aggregate_bytes(&self) -> u64 {
        self.aggregate_bytes
    }

    pub closed spec fn spec_files(&self) -> Vec<ProjectFileInspection> {
        self.files
    }

    pub(crate) fn new(identity: ProjectTreeIdentity, file_count: u32, aggregate_bytes: u64, files: Vec<ProjectFileInspection>) -> (r: Self)
        ensures
            r.spec_identity() == identity,
            r.spec_file_count() == file_count,
            r.spec_aggregate_bytes() == aggregate_bytes,
            r.spec_files() == files,
    {
        ProjectTreeInspection { identity, file_count, aggregate_bytes, files }
    }

    pub fn identity(&self) -> (r: &ProjectTreeIdentity)
        ensures
            *r == self.spec_identity(),
    {
        &self.identity
    }

    pub fn file_count(&self) -> (r: u32)
        ensures
            r == self.spec_file_count(),
    {
        self.file_count
    }

    pub fn aggregate_bytes(&self) -> (r: u64)
        ensures
            r == self.spec_aggregate_bytes(),
    {
        self.aggregate_bytes
    }

    pub fn files(&self) -> (r: &[ProjectFileInspection])
        ensures
            r@ == self.spec_files()@,
    {
        self.files.as_slice()
    }
}

/// A discovery input whose value is shown only as its length and commitment.
#[derive(Clone, Debug)]
pub struct DiscoverySensitiveValueInspection {
    exact_bytes: u64,
    commitment: DiscoveryRequestCommitment,
}

impl DiscoverySensitiveValueInspection {
    pub closed spec fn spec_exact_bytes(&self) -> u64 {
        self.exact_bytes
    }

    pub closed spec fn spec_commitment(&self) -> DiscoveryRequestCommitment {
        self.commitment
    }

    pub(crate) fn new(exact_bytes: u64, commitment: DiscoveryRequestCommitment) -> (r: Self)
        ensures
            r.spec_exact_bytes() == exact_bytes,
            r.spec_commitment() == commitment,
    {
        DiscoverySensitiveValueInspection { exact_bytes, commitment }
    }

    pub fn exact_bytes(&self) -> (r: u64)
        ensures
            r == self.spec_exact_bytes(),
    {
        self.exact_bytes
    }

    pub fn commitment(&self) -> (r: &DiscoveryRequestCommitment)
        ensures
            *r == self.spec_commitment(),
    {
        &self.commitment
    }
}

#[derive(Clone, Debug)]
pub struct DiscoveryInputInspection {
    pub key: crate::TypstInputKey,
    pub value: DiscoverySensitiveValueInspection,
}

#[derive(Clone, Debug)]
pub struct DiscoveryOverrideInspection {
    pub path: ProjectPath,
    pub value: DiscoverySensitiveValueInspection,
}

#[derive(Clone, Debug)]
pub struct IdentityObjectInspection {
    pub exact_bytes: u64,
    pub content_identity: ContentIdentity,
}

/// What one discovery variant asked the engine to cover.
#[derive(Clone, Debug)]
pub struct DiscoveryCoverageRequestInspection {
    target: crate::compilation::TypstTarget,
    inputs: Vec<DiscoveryInputInspection>,
    document_time: crate::compilation::CompilationDocumentTime,
    features: Vec<crate::compilation::EngineFeature>,
    overrides: Vec<DiscoveryOverrideInspection>,
}

impl DiscoveryCoverageRequestInspection {
    pub closed spec fn spec_target(&self) -> crate::compilation::TypstTarget {
        self.target
    }

    pub closed spec fn spec_inputs(&self) -> Vec<DiscoveryInputInspection> {
        self.inputs
    }

    pub closed spec fn spec_document_time(&self) -> crate::compilation::CompilationDocumentTime {
        self.document_time
    }

    pub closed spec fn spec_features(&self) -> Vec<crate::compilation::EngineFeature> {
        self.features
    }

    pub closed spec fn spec_overrides(&self) -> Vec<DiscoveryOverrideInspection> {
        self.overrides
    }

    pub(crate) fn new(target: crate::compilation::TypstTarget, inputs: Vec<DiscoveryInputInspection>, document_time: crate::compilation::CompilationDocumentTime, features: Vec<crate::compilation::EngineFeature>, overrides: Vec<DiscoveryOverrideInspection>) -> (r: Self)
        ensures
            r.spec_target() == target,
            r.spec_inputs() == inputs,
            r.spec_document_time() == document_time,
            r.spec_features() == features,
            r.spec_overrides() == overrides,
    {
        DiscoveryCoverageRequestInspection { target, inputs, document_time, features, overrides }
    }

    pub fn target(&self) -> (r: crate::compilation::TypstTarget)
        ensures
            r == self.spec_target(),
    {
        self.target
    }

    pub fn inputs(&self) -> (r: &[DiscoveryInputInspection])
        ensures
            r@ == self.spec_inputs()@,
    {
        self.inputs.as_slice()
    }

    pub fn document_time(&self) -> (r: crate::compilation::CompilationDocumentTime)
        ensures
            r == self.spec_document_time(),
    {
        self.document_time
    }

    pub fn features(&self) -> (r: &[crate::compilation::EngineFeature])
        ensures
            r@ == self.spec_features()@,
    {
        self.features.as_slice()
    }

    pub fn overrides(&self) -> (r: &[DiscoveryOverrideInspection])
        ensures
            r@ == self.spec_overrides()@,
    {
        self.overrides.as_slice()
    }
}

#[derive(Clone, Debug)]
pub enum DiscoveryProjectObservationInspection {
    BaselineRead { path: ProjectPath, request_kind: FileRequestKind, object: IdentityObjectInspection },
    OverrideRead { path: ProjectPath, request_kind: FileRequestKind, replacement: DiscoverySensitiveValueInspection },
    Missing { path: ProjectPath, request_kind: FileRequestKind },
}

#[derive(Clone, Debug)]
pub enum DiscoveryPackageObservationInspection {
    Read {
        requirement: PackageRequirementIdentity,
        path: crate::PackagePath,
        request_kind: FileRequestKind,
        object: IdentityObjectInspection,
    },
    Missing { requirement: PackageRequirementIdentity, path: crate::PackagePath, request_kind: FileRequestKind },
}

#[derive(Clone, Debug)]
pub struct FontFaceIdentityInspection {
    pub container_identity: ContentIdentity,
    pub face_index: u32,
}

/// What the engine observed while discovering one variant.
#[derive(Clone, Debug)]
pub struct DiscoveryTraceInspection {
    project_observations: Vec<DiscoveryProjectObservationInspection>,
    package_observations: Vec<DiscoveryPackageObservationInspection>,
    used_font_faces: Vec<FontFaceIdentityInspection>,
}

impl DiscoveryTraceInspection {
    pub closed spec fn spec_project_observations(&self) -> Vec<DiscoveryProjectObservationInspection> {
        self.project_observations
    }

    pub closed spec fn spec_package_observations(&self) -> Vec<DiscoveryPackageObservationInspection> {
        self.package_observations
    }

    pub closed spec fn spec_used_font_faces(&self) -> Vec<FontFaceIdentityInspection> {
        self.used_font_faces
    }

    pub(crate) fn new(project_observations: Vec<DiscoveryProjectObservationInspection>, package_observations: Vec<DiscoveryPackageObservationInspection>, used_font_faces: Vec<FontFaceIdentityInspection>) -> (r: Self)
        ensures
            r.spec_project_observations() == project_observations,
            r.spec_package_observations() == package_observations,
            r.spec_used_font_faces() == used_font_faces,
    {
        DiscoveryTraceInspection { project_observations, package_observations, used_font_faces }
    }

    pub fn project_observations(&self) -> (r: &[DiscoveryProjectObservationInspection])
        ensures
            r@ == self.spec_project_observations()@,
    {
        self.project_observations.as_slice()
    }

    pub fn package_observations(&self) -> (r: &[DiscoveryPackageObservationInspection])
        ensures
            r@ == self.spec_package_observations()@,
    {
        self.package_observations.as_slice()
    }

    pub fn used_font_faces(&self) -> (r: &[FontFaceIdentityInspection])
        ensures
            r@ == self.spec_used_font_faces()@,
    {
        self.used_font_faces.as_slice()
    }
}

/// One discovery variant of a pack.
#[derive(Clone, Debug)]
pub struct DiscoveryVariantInspection {
    declaration_ordinal: u32,
    label: Option<String>,
    identity: DiscoveryVariantIdentity,
    request: DiscoveryCoverageRequestInspection,
    trace: DiscoveryTraceInspection,
    trace_identity: DiscoveryTraceIdentity,
    coverage_identity: DiscoveryCoverageIdentity,
}

impl DiscoveryVariantInspection {
    pub closed spec fn spec_declaration_ordinal(&self) -> u32 {
        self.declaration_ordinal
    }

    pub closed spec fn spec_label(&self) -> Option<String> {
        self.label
    }

    pub closed spec fn spec_identity(&self) -> DiscoveryVariantIdentity {
        self.identity
    }

    pub closed spec fn spec_request(&self) -> DiscoveryCoverageRequestInspection {
        self.request
    }

    pub closed spec fn spec_trace(&self) -> DiscoveryTraceInspection {
        self.trace
    }

    pub closed spec fn spec_trace_identity(&self) -> DiscoveryTraceIdentity {
        self.trace_identity
    }

    pub closed spec fn spec_coverage_identity(&self) -> DiscoveryCoverageIdentity {
        self.coverage_identity
    }

    pub(crate) fn new(declaration_ordinal: u32, label: Option<String>, identity: DiscoveryVariantIdentity, request: DiscoveryCoverageRequestInspection, trace: DiscoveryTraceInspection, trace_identity: DiscoveryTraceIdentity, coverage_identity: DiscoveryCoverageIdentity) -> (r: Self)
        ensures
            r.spec_declaration_ordinal() == declaration_ordinal,
            r.spec_label() == label,
            r.spec_identity() == identity,
            r.spec_request() == request,
            r.spec_trace() == trace,
            r.spec_trace_identity() == trace_identity,
            r.spec_coverage_identity() == coverage_identity,
    {
        DiscoveryVariantInspection { declaration_ordinal, label, identity, request, trace, trace_identity, coverage_identity }
    }

    pub fn declaration_ordinal(&self) -> (r: u32)
        ensures
            r == self.spec_declaration_ordinal(),
    {
        self.declaration_ordinal
    }

    pub fn label(&self) -> (r: Option<&str>)
        ensures
            match r {
                Some(x) => self.spec_label() is Some && x@ == self.spec_label()->0@,
                None => self.spec_label() is None,
            },
    {
        match &self.label {
            Some(s) => Some(s.as_str()),
            None => None,
        }
    }

    pub fn identity(&self) -> (r: &DiscoveryVariantIdentity)
        ensures
            *r == self.spec_identity(),
    {
        &self.identity
    }

    pub fn request(&self) -> (r: &DiscoveryCoverageRequestInspection)
        ensures
            *r == self.spec_request(),
    {
        &self.request
    }

    pub fn trace(&self) -> (r: &DiscoveryTraceInspection)
        ensures
            *r == self.spec_trace(),
    {
        &self.trace
    }

    pub fn trace_identity(&self) -> (r: &DiscoveryTraceIdentity)
        ensures
            *r == self.spec_trace_identity(),
    {
        &self.trace_identity
    }

    pub fn coverage_identity(&self) -> (r: &DiscoveryCoverageIdentity)
        ensures
            *r == self.spec_coverage_identity(),
    {
        &self.coverage_identity
    }
}

#[derive(Clone, Debug)]
pub struct AcquisitionProvenanceInspection {
    pub authority_kind: String,
    pub source_class: crate::authority::AcquisitionSourceClass,
    pub logical_origin: Option<String>,
}

#[derive(Clone, Debug)]
pub struct PackageFileInspection {
    pub path: crate::PackagePath,
    pub content_identity: ContentIdentity,
    pub exact_bytes: u64,
}

#[derive(Clone, Debug)]
pub struct PackageManifestSummaryInspection {
    pub name: String,
    pub version: VersionInspection,
    pub entrypoint: crate::PackagePath,
    pub minimum_compiler_version: Option<VersionInspection>,
}

#[derive(Clone, Debug)]
pub struct PackageRequirementInspection {
    pub identity: PackageRequirementIdentity,
    pub specification: crate::PackageSpecification,
    pub tree_identity: crate::CompletePackageTreeIdentity,
    pub files: Vec<PackageFileInspection>,
    pub manifest: PackageManifestSummaryInspection,
    pub disposition: DependencyDisposition,
    pub provenance: AcquisitionProvenanceInspection,
}

#[derive(Clone, Debug)]
pub struct LicenseNameRecordInspection {
    pub name_id: u16,
    pub platform_id: u16,
    pub encoding_id: u16,
    pub language_id: u16,
    pub exact_bytes: Vec<u8>,
}

#[derive(Clone, Debug)]
pub struct FontLicensingMetadataInspection {
    pub fs_type: Option<u16>,
    pub name_records: Vec<LicenseNameRecordInspection>,
}

#[derive(Clone, Debug)]
pub struct FontSelectionMetadataInspection {
    pub family: String,
    pub style: crate::authority::FontStyle,
    pub weight: crate::authority::FontWeight,
    pub stretch: crate::authority::FontStretch,
    pub flags: crate::authority::FontSelectionFlags,
    pub axes: Vec<crate::authority::FontAxis>,
    pub codepoint_coverage: Vec<crate::authority::UnicodeCodepointRange>,
}

#[derive(Clone, Debug)]
pub struct FontFaceInspection {
    pub identity: FontFaceIdentityInspection,
    pub selection: FontSelectionMetadataInspection,
    pub licensing: FontLicensingMetadataInspection,
}

#[derive(Clone, Debug)]
pub struct FontRequirementInspection {
    pub identity: FontRequirementIdentity,
    pub container: IdentityObjectInspection,
    pub faces: Vec<FontFaceInspection>,
    pub disposition: DependencyDisposition,
    pub provenance: AcquisitionProvenanceInspection,
    pub observing_variants: Vec<DiscoveryVariantIdentity>,
}

/// The namespaced identifier of a semantic extension carried by a pack.
#[derive(Clone, Debug, Eq, Ord, PartialEq, PartialOrd)]
pub struct PackSemanticExtensionIdentifier {
    value: String,
}

impl View for PackSemanticExtensionIdentifier {
    type V = Seq<char>;

    closed spec fn view(&self) -> Seq<char> {
        self.value@
    }
}

impl PackSemanticExtensionIdentifier {
    pub fn parse(_admission: &OrdinaryAdmission, value: &str) -> (r: Result<Self, DomainValueRejection>)
        ensures
            match r {
                Ok(v) => crate::syntax::namespaced_rejection(value@) is None && v@ == value@,
                Err(e) => crate::syntax::namespaced_rejection(value@) == Some(e),
            },
    {
        match crate::syntax::check_namespaced(&crate::text::chars_of(value)) {
            Some(e) => Err(e),
            None => Ok(PackSemanticExtensionIdentifier { value: value.to_owned() }),
        }
    }

    pub fn as_str(&self) -> (r: &str)
        ensures
            r@ == self@,
    {
        self.value.as_str()
    }
}

#[derive(Clone, Debug)]
pub struct PackSemanticExtensionInspection {
    pub identifier: PackSemanticExtensionIdentifier,
    pub epoch: NonZeroU32,
    pub canonical_payload: Vec<u8>,
    pub required_objects: Vec<IdentityObjectInspection>,
}

#[derive(Clone, Copy, Debug, Eq, PartialEq, Structural)]
pub struct PackGuaranteesInspection {
    pub portable: bool,
    pub self_contained: bool,
}

/// Everything a pack holds, as it can be inspected.
#[derive(Clone, Debug)]
pub struct PackInspection {
    identity: PackIdentity,
    entrypoint: ProjectPath,
    discovery_engine: DiscoveryEngineInspection,
    project_tree: ProjectTreeInspection,
    explicit_conditional_inclusions: Vec<ProjectPath>,
    discovery_variants: Vec<DiscoveryVariantInspection>,
    package_requirements: Vec<PackageRequirementInspection>,
    font_requirements: Vec<FontRequirementInspection>,
    font_catalog: Vec<FontFaceIdentityInspection>,
    metadata: PackMetadata,
    semantic_extensions: Vec<PackSemanticExtensionInspection>,
    annotations: Vec<PackAnnotation>,
    guarantees: PackGuaranteesInspection,
}

impl PackInspection {
    pub closed spec fn spec_identity(&self) -> PackIdentity {
        self.identity
    }

    pub closed spec fn spec_entrypoint(&self) -> ProjectPath {
        self.entrypoint
    }

    pub closed spec fn spec_discovery_engine(&self) -> DiscoveryEngineInspection {
        self.discovery_engine
    }

    pub closed spec fn spec_project_tree(&self) -> ProjectTreeInspection {
        self.project_tree
    }

    pub closed spec fn spec_explicit_conditional_inclusions(&self) -> Vec<ProjectPath> {
        self.explicit_conditional_inclusions
    }

    pub closed spec fn spec_discovery_variants(&self) -> Vec<DiscoveryVariantInspection> {
        self.discovery_variants
    }

    pub closed spec fn spec_package_requirements(&self) -> Vec<PackageRequirementInspection> {
        self.package_requirements
    }

    pub closed spec fn spec_font_requirements(&self) -> Vec<FontRequirementInspection> {
        self.font_requirements
    }

    pub closed spec fn spec_font_catalog(&self) -> Vec<FontFaceIdentityInspection> {
        self.font_catalog
    }

    pub closed spec fn spec_metadata(&self) -> PackMetadata {
        self.metadata
    }

    pub closed spec fn spec_semantic_extensions(&self) -> Vec<PackSemanticExtensionInspection> {
        self.semantic_extensions
    }

    pub closed spec fn spec_annotations(&self) -> Vec<PackAnnotation> {
        self.annotations
    }

    pub closed spec fn spec_guarantees(&self) -> PackGuaranteesInspection {
        self.guarantees
    }

    pub(crate) fn new(identity: PackIdentity, entrypoint: ProjectPath, discovery_engine: DiscoveryEngineInspection, project_tree: ProjectTreeInspection, explicit_conditional_inclusions: Vec<ProjectPath>, discovery_variants: Vec<DiscoveryVariantInspection>, package_requirements: Vec<PackageRequirementInspection>, font_requirements: Vec<FontRequirementInspection>, font_catalog: Vec<FontFaceIdentityInspection>, metadata: PackMetadata, semantic_extensions: Vec<PackSemanticExtensionInspection>, annotations: Vec<PackAnnotation>, guarantees: PackGuaranteesInspection) -> (r: Self)
        ensures
            r.spec_identity() == identity,
            r.spec_entrypoint() == entrypoint,
            r.spec_discovery_engine() == discovery_engine,
            r.spec_project_tree() == project_tree,
            r.spec_explicit_conditional_inclusions() == explicit_conditional_inclusions,
            r.spec_discovery_variants() == discovery_variants,
            r.spec_package_requirements() == package_requirements,
            r.spec_font_requirements() == font_requirements,
            r.spec_font_catalog() == font_catalog,
            r.spec_metadata() == metadata,
            r.spec_semantic_extensions() == semantic_extensions,
            r.spec_annotations() == annotations,
            r.spec_guarantees() == guarantees,
    {
        PackInspection { identity, entrypoint, discovery_engine, project_tree, explicit_conditional_inclusions, discovery_variants, package_requirements, font_requirements, font_catalog, metadata, semantic_extensions, annotations, guarantees }
    }

    pub fn identity(&self) -> (r: &PackIdentity)
        ensures
            *r == self.spec_identity(),
    {
        &self.identity
    }

    pub fn entrypoint(&self) -> (r: &ProjectPath)
        ensures
            *r == self.spec_entrypoint(),
    {
        &self.entrypoint
    }

    pub fn discovery_engine(&self) -> (r: &DiscoveryEngineInspection)
        ensures
            *r == self.spec_discovery_engine(),
    {
        &self.discovery_engine
    }

    pub fn project_tree(&self) -> (r: &ProjectTreeInspection)
        ensures
            *r == self.spec_project_tree(),
    {
        &self.project_tree
    }

    pub fn explicit_conditional_inclusions(&self) -> (r: &[ProjectPath])
        ensures
            r@ == self.spec_explicit_conditional_inclusions()@,
    {
        self.explicit_conditional_inclusions.as_slice()
    }

    pub fn discovery_variants(&self) -> (r: &[DiscoveryVariantInspection])
        ensures
            r@ == self.spec_discovery_variants()@,
    {
        self.discovery_variants.as_slice()
    }

    pub fn package_requirements(&self) -> (r: &[PackageRequirementInspection])
        ensures
            r@ == self.spec_package_requirements()@,
    {
        self.package_requirements.as_slice()
    }

    pub fn font_requirements(&self) -> (r: &[FontRequirementInspection])
        ensures
            r@ == self.spec_font_requirements()@,
    {
        self.font_requirements.as_slice()
    }

    pub fn font_catalog(&self) -> (r: &[FontFaceIdentityInspection])
        ensures
            r@ == self.spec_font_catalog()@,
    {
        self.font_catalog.as_slice()
    }

    pub fn metadata(&self) -> (r: &PackMetadata)
        ensures
            *r == self.spec_metadata(),
    {
        &self.metadata
    }

    pub fn semantic_extensions(&self) -> (r: &[PackSemanticExtensionInspection])
        ensures
            r@ == self.spec_semantic_extensions()@,
    {
        self.semantic_extensions.as_slice()
    }

    pub fn annotations(&self) -> (r: &[PackAnnotation])
        ensures
            r@ == self.spec_annotations()@,
    {
        self.annotations.as_slice()
    }

    pub fn guarantees(&self) -> (r: PackGuaranteesInspection)
        ensures
            r == self.spec_guarantees(),
    {
        self.guarantees
    }
}

/// A validated pack.
#[derive(Clone, Debug)]
pub struct Pack {
    inspection: PackInspection,
}

impl Pack {
    pub closed spec fn spec_inspection(&self) -> PackInspection {
        self.inspection
    }

    pub(crate) fn from_inspection(inspection: PackInspection) -> (r: Self)
        ensures
            r.spec_inspection() == inspection,
    {
        Pack { inspection }
    }

    pub fn identity(&self) -> (r: &PackIdentity)
        ensures
            *r == self.spec_inspection().spec_identity(),
    {
        self.inspection.identity()
    }

    pub fn inspect(&self) -> (r: &PackInspection)
        ensures
            *r == self.spec_inspection(),
    {
        &self.inspection
    }
}

} // verus!
