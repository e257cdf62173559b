//! Creation requests and their validation, the evidence that pins a
//! creation's inputs, and the limits and reports of a creation.

use vstd::prelude::*;
use crate::{
    AdmissionRefusal, AdmittedOperationResourceLimits, AuthorityInstanceIdentity, OperationDeadline,
    OperationLimitSet, OrdinaryAdmission, ProjectPath, NonZeroUsize,
};
use crate::transport::StableByteValue;

verus! {

#[derive(Clone, Copy, Debug, Eq, PartialEq, Structural)]
pub struct CreationResourceLimitSpec {
    pub project_files: u64,
    pub aggregate_project_bytes: u64,
    pub largest_project_file_bytes: u64,
    pub packages: u64,
    pub package_files: u64,
    pub largest_package_file_bytes: u64,
    pub package_tree_bytes: u64,
    pub font_containers: u64,
    pub font_candidates: u64,
    pub font_faces: u64,
    pub font_bytes: u64,
    pub discovery_variants: u64,
    pub discovery_restarts: u64,
    pub override_count: u64,
    pub largest_override_bytes: u64,
    pub aggregate_override_bytes: u64,
    pub stable_spool_bytes: u64,
    pub retained_memory_bytes: u64,
}

/// The limits of one creation.
#[derive(Clone, Copy, Debug)]
pub struct CreationResourceLimits {
    spec: CreationResourceLimitSpec,
}

impl CreationResourceLimits {
    pub closed spec fn spec_limits(&self) -> CreationResourceLimitSpec {
        self.spec
    }

    /// Every largest-member bound lies within its aggregate bound.
    pub open spec fn spec_coherent(s: CreationResourceLimitSpec) -> bool {
        &&& s.largest_project_file_bytes <= s.aggregate_project_bytes
        &&& s.largest_package_file_bytes <= s.package_tree_bytes
        &&& s.largest_override_bytes <= s.aggregate_override_bytes
    }

    pub fn try_new(spec: CreationResourceLimitSpec) -> (r: Result<Self, AdmissionRefusal>)
        ensures
            match r {
                Ok(l) => Self::spec_coherent(spec) && l.spec_limits() == spec,
                Err(e) => !Self::spec_coherent(spec) && e == AdmissionRefusal::InvalidResourceLimits,
            },
    {
        let limits = CreationResourceLimits { spec };
        match limits.validate() {
            Ok(()) => Ok(limits),
            Err(e) => Err(e),
        }
    }

    pub fn spec(&self) -> (r: CreationResourceLimitSpec)
        ensures
            r == self.spec_limits(),
    {
        self.spec
    }
}

impl OperationLimitSet for CreationResourceLimits {
    open spec fn spec_valid(&self) -> bool {
        Self::spec_coherent(self.spec_limits())
    }

    open spec fn spec_no_looser_than(&self, requested: &Self) -> bool {
        &&& self.spec_limits().project_files <= requested.spec_limits().project_files
        &&& self.spec_limits().aggregate_project_bytes <= requested.spec_limits().aggregate_project_bytes
        &&& self.spec_limits().largest_project_file_bytes <= requested.spec_limits().largest_project_file_bytes
        &&& self.spec_limits().packages <= requested.spec_limits().packages
        &&& self.spec_limits().package_files <= requested.spec_limits().package_files
        &&& self.spec_limits().largest_package_file_bytes <= requested.spec_limits().largest_package_file_bytes
        &&& self.spec_limits().package_tree_bytes <= requested.spec_limits().package_tree_bytes
        &&& self.spec_limits().font_containers <= requested.spec_limits().font_containers
        &&& self.spec_limits().font_candidates <= requested.spec_limits().font_candidates
        &&& self.spec_limits().font_faces <= requested.spec_limits().font_faces
        &&& self.spec_limits().font_bytes <= requested.spec_limits().font_bytes
        &&& self.spec_limits().discovery_variants <= requested.spec_limits().discovery_variants
        &&& self.spec_limits().discovery_restarts <= requested.spec_limits().discovery_restarts
        &&& self.spec_limits().override_count <= requested.spec_limits().override_count
        &&& self.spec_limits().largest_override_bytes <= requested.spec_limits().largest_override_bytes
        &&& self.spec_limits().aggregate_override_bytes <= requested.spec_limits().aggregate_override_bytes
        &&& self.spec_limits().stable_spool_bytes <= requested.spec_limits().stable_spool_bytes
        &&& self.spec_limits().retained_memory_bytes <= requested.spec_limits().retained_memory_bytes
    }

    fn validate(&self) -> (r: Result<(), AdmissionRefusal>) {
        if self.spec.largest_project_file_bytes <= self.spec.aggregate_project_bytes
            && self.spec.largest_package_file_bytes <= self.spec.package_tree_bytes
            && self.spec.largest_override_bytes <= self.spec.aggregate_override_bytes {
            Ok(())
        } else {
            Err(AdmissionRefusal::InvalidResourceLimits)
        }
    }

    fn no_looser_than(&self, requested: &Self) -> (r: bool) {
        self.spec.project_files <= requested.spec.project_files
            && self.spec.aggregate_project_bytes <= requested.spec.aggregate_project_bytes
            && self.spec.largest_project_file_bytes <= requested.spec.largest_project_file_bytes
            && self.spec.packages <= requested.spec.packages
            && self.spec.package_files <= requested.spec.package_files
            && self.spec.largest_package_file_bytes <= requested.spec.largest_package_file_bytes
            && self.spec.package_tree_bytes <= requested.spec.package_tree_bytes
            && self.spec.font_containers <= requested.spec.font_containers
            && self.spec.font_candidates <= requested.spec.font_candidates
            && self.spec.font_faces <= requested.spec.font_faces
            && self.spec.font_bytes <= requested.spec.font_bytes
            && self.spec.discovery_variants <= requested.spec.discovery_variants
            && self.spec.discovery_restarts <= requested.spec.discovery_restarts
            && self.spec.override_count <= requested.spec.override_count
            && self.spec.largest_override_bytes <= requested.spec.largest_override_bytes
            && self.spec.aggregate_override_bytes <= requested.spec.aggregate_override_bytes
            && self.spec.stable_spool_bytes <= requested.spec.stable_spool_bytes
            && self.spec.retained_memory_bytes <= requested.spec.retained_memory_bytes
    }

    proof fn lemma_no_looser_than_reflexive(limits: &Self) {
    }

    proof fn lemma_no_looser_than_transitive(a: &Self, b: &Self, c: &Self) {
    }
}

#[derive(Clone, Copy, Debug, Eq, PartialEq, Structural)]
pub enum CreationRequestRole {
    ProjectSnapshot,
    DiscoveryVariant,
    ExplicitConditionalInclusion,
    DiscoveryOverride,
    PackageEmbeddingPolicy,
    FontEmbeddingPolicy,
    Metadata,
    Annotation,
}

#[derive(Clone, Copy, Debug, Eq, PartialEq, Structural)]
pub enum CreationRequestIssueCode {
    EmptyCollection,
    DuplicateLogicalKey,
    InvalidValue,
    MemberLimitExceeded,
    LargestMemberLimitExceeded,
    AggregateLimitExceeded,
    FormatCeilingExceeded,
}

#[derive(Clone, Copy, Debug, Eq, PartialEq, Structural)]
pub struct CreationRequestIssueView {
    pub code: CreationRequestIssueCode,
    pub role: CreationRequestRole,
    pub declaration_ordinal: Option<u64>,
}

/// A refused creation request: the limits it was checked against and the
/// issue that refused it.
#[derive(Clone, Debug)]
pub struct CreationRequestRejection {
    resource_profile: Option<crate::ResourceProfileIdentity>,
    requested_limits: CreationResourceLimits,
    admitted_limits: CreationResourceLimits,
    issues: Vec<CreationRequestIssueView>,
}

impl CreationRequestRejection {
    pub closed spec fn spec_resource_profile(&self) -> Option<crate::ResourceProfileIdentity> {
        self.resource_profile
    }

    pub closed spec fn spec_requested_limits(&self) -> CreationResourceLimits {
        self.requested_limits
    }

    pub closed spec fn spec_admitted_limits(&self) -> CreationResourceLimits {
        self.admitted_limits
    }

    pub closed spec fn spec_issues(&self) -> Seq<CreationRequestIssueView> {
        self.issues@
    }

    /// A rejection for one issue, found while checking against `limits`.
    pub(crate) fn single(
        limits: &AdmittedOperationResourceLimits<CreationResourceLimits>,
        code: CreationRequestIssueCode,
        role: CreationRequestRole,
        declaration_ordinal: Option<u64>,
    ) -> (r: Self)
        ensures
            r.spec_issues() == seq![CreationRequestIssueView { code, role, declaration_ordinal }],
            r.spec_resource_profile() == limits.spec_profile(),
            r.spec_requested_limits() == limits.spec_requested(),
            r.spec_admitted_limits() == limits.spec_admitted(),
    {
        let profile = match limits.profile() {
            Some(p) => Some(p.duplicate()),
            None => None,
        };
        let mut issues: Vec<CreationRequestIssueView> = Vec::new();
        issues.push(CreationRequestIssueView { code, role, declaration_ordinal });
        assert(issues@ =~= seq![CreationRequestIssueView { code, role, declaration_ordinal }]);
        CreationRequestRejection {
            resource_profile: profile,
            requested_limits: *limits.requested(),
            admitted_limits: *limits.admitted(),
            issues,
        }
    }

    pub fn resource_profile(&self) -> (r: Option<&crate::ResourceProfileIdentity>)
        ensures
            match r {
                Some(p) => self.spec_resource_profile() == Some(*p),
                None => self.spec_resource_profile() is None,
            },
    {
        self.resource_profile.as_ref()
    }

    pub fn requested_limits(&self) -> (r: &CreationResourceLimits)
        ensures
            *r == self.spec_requested_limits(),
    {
        &self.requested_limits
    }

    pub fn admitted_limits(&self) -> (r: &CreationResourceLimits)
        ensures
            *r == self.spec_admitted_limits(),
    {
        &self.admitted_limits
    }

    pub fn issues(&self) -> (r: &[CreationRequestIssueView])
        ensures
            r@ == self.spec_issues(),
    {
        self.issues.as_slice()
    }
}

/// A failure to construct a discovery specification.
#[derive(Clone, Copy, Debug, PartialEq, Eq, Structural)]
pub enum DiscoverySpecificationError {
    /// The discovery document time is out of the range of UNIX timestamps.
    InvalidDocumentTimestamp,
}

/// The issues of one project file, at declaration ordinal `i`: a path that
/// an earlier file already has, and a length over the largest-file limit.
pub open spec fn project_file_issues(files: Seq<(ProjectPath, StableByteValue)>, i: int, largest: u64) -> Seq<
    CreationRequestIssueView,
> {
    let dup = if exists|j: int| 0 <= j < i && #[trigger] files[j].0@ == files[i].0@ {
        seq![
            CreationRequestIssueView {
                code: CreationRequestIssueCode::DuplicateLogicalKey,
                role: CreationRequestRole::ProjectSnapshot,
                declaration_ordinal: Some(i as u64),
            },
        ]
    } else {
        Seq::empty()
    };
    let large = if files[i].1@.len() > largest {
        seq![
            CreationRequestIssueView {
                code: CreationRequestIssueCode::LargestMemberLimitExceeded,
                role: CreationRequestRole::ProjectSnapshot,
                declaration_ordinal: Some(i as u64),
            },
        ]
    } else {
        Seq::empty()
    };
    dup + large
}

/// The issues of the first `n` project files, file by file.
pub open spec fn project_files_issues(files: Seq<(ProjectPath, StableByteValue)>, n: int, largest: u64) -> Seq<
    CreationRequestIssueView,
>
    decreases n,
{
    if n <= 0 {
        Seq::empty()
    } else {
        project_files_issues(files, n - 1, largest) + project_file_issues(files, n - 1, largest)
    }
}

/// The total length of the project files.
pub open spec fn project_bytes(files: Seq<(ProjectPath, StableByteValue)>) -> int
    decreases files.len(),
{
    if files.len() == 0 {
        0
    } else {
        project_bytes(files.drop_last()) + files.last().1@.len()
    }
}

/// An issue of the whole snapshot, with no declaration ordinal.
pub open spec fn snapshot_issue(code: CreationRequestIssueCode) -> CreationRequestIssueView {
    CreationRequestIssueView { code, role: CreationRequestRole::ProjectSnapshot, declaration_ordinal: None }
}

/// Every issue of a project snapshot, in order: an empty snapshot; then,
/// file by file, repeated paths and files over the largest-file limit; then
/// too many files, too many bytes, and an entrypoint that is not one of the
/// files.
pub open spec fn project_snapshot_issues(
    entrypoint: Seq<char>,
    files: Seq<(ProjectPath, StableByteValue)>,
    limits: CreationResourceLimitSpec,
) -> Seq<CreationRequestIssueView> {
    let empty = if files.len() == 0 { seq![snapshot_issue(CreationRequestIssueCode::EmptyCollection)] } else { Seq::empty() };
    let members = if files.len() > limits.project_files {
        seq![snapshot_issue(CreationRequestIssueCode::MemberLimitExceeded)]
    } else {
        Seq::empty()
    };
    let aggregate = if project_bytes(files) > limits.aggregate_project_bytes {
        seq![snapshot_issue(CreationRequestIssueCode::AggregateLimitExceeded)]
    } else {
        Seq::empty()
    };
    let entry = if files.len() > 0 && !(exists|j: int| 0 <= j < files.len() && #[trigger] files[j].0@ == entrypoint) {
        seq![snapshot_issue(CreationRequestIssueCode::InvalidValue)]
    } else {
        Seq::empty()
    };
    empty + project_files_issues(files, files.len() as int, limits.largest_project_file_bytes) + members + aggregate + entry
}

/// The complete tree of a project and the entrypoint it is compiled from.
#[derive(Clone, Debug)]
pub struct ProjectSnapshot {
    entrypoint: ProjectPath,
    files: Vec<(ProjectPath, StableByteValue)>,
}

impl ProjectSnapshot {
    pub closed spec fn spec_entrypoint(&self) -> ProjectPath {
        self.entrypoint
    }

    pub closed spec fn spec_files(&self) -> Seq<(ProjectPath, StableByteValue)> {
        self.files@
    }

    /// A snapshot of the files, checked against the admitted creation
    /// limits; a refusal lists every issue found.
    pub fn try_from_files(
        _admission: &OrdinaryAdmission,
        limits: &AdmittedOperationResourceLimits<CreationResourceLimits>,
        entrypoint: ProjectPath,
        files: Vec<(ProjectPath, StableByteValue)>,
    ) -> (r: Result<Self, CreationRequestRejection>)
        ensures
            match r {
                Ok(snapshot) => project_snapshot_issues(entrypoint@, files@, limits.spec_admitted().spec_limits()).len() == 0
                    && snapshot.spec_entrypoint() == entrypoint && snapshot.spec_files() == files@,
                Err(rejection) => rejection.spec_issues() == project_snapshot_issues(
                    entrypoint@,
                    files@,
                    limits.spec_admitted().spec_limits(),
                ) && rejection.spec_issues().len() > 0 && rejection.spec_resource_profile() == limits.spec_profile()
                    && rejection.spec_requested_limits() == limits.spec_requested()
                    && rejection.spec_admitted_limits() == limits.spec_admitted(),
            },
    {
        let admitted = limits.admitted().spec();
        let largest = admitted.largest_project_file_bytes;
        let n = files.len();
        let mut issues: Vec<CreationRequestIssueView> = Vec::new();
        if n == 0 {
            issues.push(CreationRequestIssueView {
                code: CreationRequestIssueCode::EmptyCollection,
                role: CreationRequestRole::ProjectSnapshot,
                declaration_ordinal: None,
            });
        }
        let ghost head = issues@;
        let mut total: u64 = 0;
        let mut over_total = false;
        let mut entry_found = false;
        let mut i: usize = 0;
        while i < n
            invariant
                n == files@.len(),
                i <= n,
                largest == limits.spec_admitted().spec_limits().largest_project_file_bytes,
                admitted == limits.spec_admitted().spec_limits(),
                issues@ == head + project_files_issues(files@, i as int, largest),
                !over_total ==> total == project_bytes(files@.subrange(0, i as int)),
                over_total ==> project_bytes(files@.subrange(0, i as int)) > u64::MAX,
                entry_found == exists|j: int| 0 <= j < i && #[trigger] files@[j].0@ == entrypoint@,
            decreases n - i,
        {
            let ghost before = issues@;
            let mut seen = false;
            let mut j: usize = 0;
            while j < i
                invariant_except_break
                    !seen,
                invariant
                    j <= i,
                    i < n,
                    n == files@.len(),
                    forall|q: int| 0 <= q < j ==> #[trigger] files@[q].0@ != files@[i as int].0@,
                ensures
                    seen ==> j < i && files@[j as int].0@ == files@[i as int].0@,
                    !seen ==> forall|q: int| 0 <= q < i ==> #[trigger] files@[q].0@ != files@[i as int].0@,
                decreases i - j,
            {
                if files[j].0.same_as(&files[i].0) {
                    seen = true;
                    break;
                }
                j = j + 1;
            }
            if seen {
                issues.push(CreationRequestIssueView {
                    code: CreationRequestIssueCode::DuplicateLogicalKey,
                    role: CreationRequestRole::ProjectSnapshot,
                    declaration_ordinal: Some(i as u64),
                });
            }
            let len = files[i].1.len();
            if len > largest {
                issues.push(CreationRequestIssueView {
                    code: CreationRequestIssueCode::LargestMemberLimitExceeded,
                    role: CreationRequestRole::ProjectSnapshot,
                    declaration_ordinal: Some(i as u64),
                });
            }
            proof {
                assert(issues@ =~= before + project_file_issues(files@, i as int, largest));
                assert(files@.subrange(0, i + 1).drop_last() =~= files@.subrange(0, i as int));
            }
            if !over_total {
                if len > u64::MAX - total {
                    over_total = true;
                } else {
                    total = total + len;
                }
            }
            if files[i].0.same_as(&entrypoint) {
                entry_found = true;
            }
            i = i + 1;
        }
        proof {
            assert(files@.subrange(0, n as int) =~= files@);
        }
        if n as u64 > admitted.project_files {
            issues.push(CreationRequestIssueView {
                code: CreationRequestIssueCode::MemberLimitExceeded,
                role: CreationRequestRole::ProjectSnapshot,
                declaration_ordinal: None,
            });
        }
        if over_total || total > admitted.aggregate_project_bytes {
            issues.push(CreationRequestIssueView {
                code: CreationRequestIssueCode::AggregateLimitExceeded,
                role: CreationRequestRole::ProjectSnapshot,
                declaration_ordinal: None,
            });
        }
        if n > 0 && !entry_found {
            issues.push(CreationRequestIssueView {
                code: CreationRequestIssueCode::InvalidValue,
                role: CreationRequestRole::ProjectSnapshot,
                declaration_ordinal: None,
            });
        }
        proof {
            assert(issues@ =~= project_snapshot_issues(entrypoint@, files@, admitted));
        }
        if issues.len() > 0 {
            let profile = match limits.profile() {
                Some(p) => Some(p.duplicate()),
                None => None,
            };
            return Err(CreationRequestRejection {
                resource_profile: profile,
                requested_limits: *limits.requested(),
                admitted_limits: *limits.admitted(),
                issues,
            });
        }
        Ok(ProjectSnapshot { entrypoint, files })
    }

    pub fn entrypoint(&self) -> (r: &ProjectPath)
        ensures
            *r == self.spec_entrypoint(),
    {
        &self.entrypoint
    }

    pub fn files(&self) -> (r: &[(ProjectPath, StableByteValue)])
        ensures
            r@ == self.spec_files(),
    {
        self.files.as_slice()
    }
}

/// Whether a dependency is embedded in the pack or fulfilled from outside.
#[derive(Clone, Copy, Debug, PartialEq, Eq, Structural)]
pub enum EmbeddingDisposition {
    Embedded,
    ExternallyFulfilled,
}

/// Which packages a creation embeds: a default and a choice per package
/// specification.
#[derive(Clone, Debug)]
pub struct PackageEmbeddingPolicy {
    default: EmbeddingDisposition,
    choices: Vec<(crate::PackageSpecification, EmbeddingDisposition)>,
}

/// The issues of the choices of a package specification embedding policy, in order:
/// each choice whose key an earlier choice already has, then too many
/// choices.
pub open spec fn try_by_specification_issues(choices: Seq<(crate::PackageSpecification, EmbeddingDisposition)>, limit: u64) -> Seq<CreationRequestIssueView> {
    try_by_specification_duplicates(choices, choices.len() as int) + if choices.len() > limit {
        seq![CreationRequestIssueView { code: CreationRequestIssueCode::MemberLimitExceeded, role: CreationRequestRole::PackageEmbeddingPolicy, declaration_ordinal: None }]
    } else {
        Seq::empty()
    }
}

/// The repeated keys among the first `n` choices, as issues.
pub open spec fn try_by_specification_duplicates(choices: Seq<(crate::PackageSpecification, EmbeddingDisposition)>, n: int) -> Seq<CreationRequestIssueView>
    decreases n,
{
    if n <= 0 {
        Seq::empty()
    } else {
        try_by_specification_duplicates(choices, n - 1) + if exists|j: int| 0 <= j < n - 1 && #[trigger] choices[j].0@ == choices[n - 1].0@ {
            seq![CreationRequestIssueView { code: CreationRequestIssueCode::DuplicateLogicalKey, role: CreationRequestRole::PackageEmbeddingPolicy, declaration_ordinal: Some((n - 1) as u64) }]
        } else {
            Seq::empty()
        }
    }
}

impl PackageEmbeddingPolicy {
    pub closed spec fn spec_default(&self) -> EmbeddingDisposition {
        self.default
    }

    pub closed spec fn spec_choices(&self) -> Seq<(crate::PackageSpecification, EmbeddingDisposition)> {
        self.choices@
    }

    /// The disposition a key gets: its choice, or the default.
    pub open spec fn spec_disposition(&self, key: Seq<char>) -> EmbeddingDisposition {
        if exists|i: int| 0 <= i < self.spec_choices().len() && #[trigger] self.spec_choices()[i].0@ == key {
            self.spec_choices()[choose|i: int| 0 <= i < self.spec_choices().len() && #[trigger] self.spec_choices()[i].0@ == key].1
        } else {
            self.spec_default()
        }
    }

    /// Whether no key is chosen twice.
    pub open spec fn spec_keys_distinct(&self) -> bool {
        forall|a: int, b: int| 0 <= a < b < self.spec_choices().len() ==> self.spec_choices()[a].0@ != self.spec_choices()[b].0@
    }

    /// Embed everything.
    pub fn embed_all() -> (r: Self)
        ensures
            r.spec_default() == EmbeddingDisposition::Embedded,
            r.spec_choices().len() == 0,
    {
        PackageEmbeddingPolicy { default: EmbeddingDisposition::Embedded, choices: Vec::new() }
    }

    /// Fulfill everything from outside the pack.
    pub fn externally_fulfill_all() -> (r: Self)
        ensures
            r.spec_default() == EmbeddingDisposition::ExternallyFulfilled,
            r.spec_choices().len() == 0,
    {
        PackageEmbeddingPolicy { default: EmbeddingDisposition::ExternallyFulfilled, choices: Vec::new() }
    }

    /// A default and a choice per package specification; a refusal lists every repeated
    /// key and a choice count over the admitted limit.
    pub fn try_by_specification(
        limits: &AdmittedOperationResourceLimits<CreationResourceLimits>,
        default: EmbeddingDisposition,
        choices: Vec<(crate::PackageSpecification, EmbeddingDisposition)>,
    ) -> (r: Result<Self, CreationRequestRejection>)
        ensures
            match r {
                Ok(p) => try_by_specification_issues(choices@, limits.spec_admitted().spec_limits().packages).len() == 0
                    && p.spec_default() == default && p.spec_choices() == choices@ && p.spec_keys_distinct(),
                Err(rejection) => rejection.spec_issues() == try_by_specification_issues(choices@, limits.spec_admitted().spec_limits().packages)
                    && rejection.spec_issues().len() > 0 && rejection.spec_resource_profile() == limits.spec_profile()
                    && rejection.spec_requested_limits() == limits.spec_requested()
                    && rejection.spec_admitted_limits() == limits.spec_admitted(),
            },
    {
        let limit = limits.admitted().spec().packages;
        let n = choices.len();
        let mut issues: Vec<CreationRequestIssueView> = Vec::new();
        let mut i: usize = 0;
        while i < n
            invariant
                n == choices@.len(),
                i <= n,
                issues@ == try_by_specification_duplicates(choices@, i as int),
                issues@.len() == 0 ==> forall|a: int, b: int| 0 <= a < b < i ==> choices@[a].0@ != choices@[b].0@,
            decreases n - i,
        {
            let ghost before = issues@;
            let mut seen = false;
            let mut j: usize = 0;
            while j < i
                invariant_except_break
                    !seen,
                invariant
                    j <= i,
                    i < n,
                    n == choices@.len(),
                    forall|q: int| 0 <= q < j ==> #[trigger] choices@[q].0@ != choices@[i as int].0@,
                ensures
                    seen ==> j < i && choices@[j as int].0@ == choices@[i as int].0@,
                    !seen ==> forall|q: int| 0 <= q < i ==> #[trigger] choices@[q].0@ != choices@[i as int].0@,
                decreases i - j,
            {
                if choices[j].0.same_as(&choices[i].0) {
                    seen = true;
                    break;
                }
                j = j + 1;
            }
            if seen {
                issues.push(CreationRequestIssueView {
                    code: CreationRequestIssueCode::DuplicateLogicalKey,
                    role: CreationRequestRole::PackageEmbeddingPolicy,
                    declaration_ordinal: Some(i as u64),
                });
            }
            proof {
                assert(issues@ =~= try_by_specification_duplicates(choices@, i + 1));
            }
            i = i + 1;
        }
        if n as u64 > limit {
            issues.push(CreationRequestIssueView {
                code: CreationRequestIssueCode::MemberLimitExceeded,
                role: CreationRequestRole::PackageEmbeddingPolicy,
                declaration_ordinal: None,
            });
        }
        proof {
            assert(issues@ =~= try_by_specification_issues(choices@, limit));
        }
        if issues.len() > 0 {
            let profile = match limits.profile() {
                Some(p) => Some(p.duplicate()),
                None => None,
            };
            return Err(CreationRequestRejection {
                resource_profile: profile,
                requested_limits: *limits.requested(),
                admitted_limits: *limits.admitted(),
                issues,
            });
        }
        Ok(PackageEmbeddingPolicy { default, choices })
    }

    /// The disposition the policy gives a key: its choice, or the default.
    pub fn disposition(&self, key: &crate::PackageSpecification) -> (r: EmbeddingDisposition)
        requires
            self.spec_keys_distinct(),
        ensures
            r == self.spec_disposition(key@),
    {
        let mut i: usize = 0;
        while i < self.choices.len()
            invariant
                i <= self.spec_choices().len(),
                self.spec_keys_distinct(),
                forall|q: int| 0 <= q < i ==> #[trigger] self.spec_choices()[q].0@ != key@,
            decreases self.spec_choices().len() - i,
        {
            if self.choices[i].0.same_as(key) {
                proof {
                    let c = choose|c: int| 0 <= c < self.spec_choices().len() && #[trigger] self.spec_choices()[c].0@ == key@;
                    if c != i {
                        if c < i {
                            assert(self.spec_choices()[c].0@ != self.spec_choices()[i as int].0@);
                        } else {
                            assert(self.spec_choices()[i as int].0@ != self.spec_choices()[c].0@);
                        }
                    }
                }
                return self.choices[i].1;
            }
            i = i + 1;
        }
        self.default
    }
}

/// Which font containers a creation embeds: a default and a choice per
/// container identity.
#[derive(Clone, Debug)]
pub struct FontEmbeddingPolicy {
    default: EmbeddingDisposition,
    choices: Vec<(crate::ContentIdentity, EmbeddingDisposition)>,
}

/// The issues of the choices of a font container embedding policy, in order:
/// each choice whose key an earlier choice already has, then too many
/// choices.
pub open spec fn try_by_container_issues(choices: Seq<(crate::ContentIdentity, EmbeddingDisposition)>, limit: u64) -> Seq<CreationRequestIssueView> {
    try_by_container_duplicates(choices, choices.len() as int) + if choices.len() > limit {
        seq![CreationRequestIssueView { code: CreationRequestIssueCode::MemberLimitExceeded, role: CreationRequestRole::FontEmbeddingPolicy, declaration_ordinal: None }]
    } else {
        Seq::empty()
    }
}

/// The repeated keys among the first `n` choices, as issues.
pub open spec fn try_by_container_duplicates(choices: Seq<(crate::ContentIdentity, EmbeddingDisposition)>, n: int) -> Seq<CreationRequestIssueView>
    decreases n,
{
    if n <= 0 {
        Seq::empty()
    } else {
        try_by_container_duplicates(choices, n - 1) + if exists|j: int| 0 <= j < n - 1 && #[trigger] choices[j].0@ == choices[n - 1].0@ {
            seq![CreationRequestIssueView { code: CreationRequestIssueCode::DuplicateLogicalKey, role: CreationRequestRole::FontEmbeddingPolicy, declaration_ordinal: Some((n - 1) as u64) }]
        } else {
            Seq::empty()
        }
    }
}

impl FontEmbeddingPolicy {
    pub closed spec fn spec_default(&self) -> EmbeddingDisposition {
        self.default
    }

    pub closed spec fn spec_choices(&self) -> Seq<(crate::ContentIdentity, EmbeddingDisposition)> {
        self.choices@
    }

    /// The disposition a key gets: its choice, or the default.
    pub open spec fn spec_disposition(&self, key: Seq<char>) -> EmbeddingDisposition {
        if exists|i: int| 0 <= i < self.spec_choices().len() && #[trigger] self.spec_choices()[i].0@ == key {
            self.spec_choices()[choose|i: int| 0 <= i < self.spec_choices().len() && #[trigger] self.spec_choices()[i].0@ == key].1
        } else {
            self.spec_default()
        }
    }

    /// Whether no key is chosen twice.
    pub open spec fn spec_keys_distinct(&self) -> bool {
        forall|a: int, b: int| 0 <= a < b < self.spec_choices().len() ==> self.spec_choices()[a].0@ != self.spec_choices()[b].0@
    }

    /// Embed everything.
    pub fn embed_all() -> (r: Self)
        ensures
            r.spec_default() == EmbeddingDisposition::Embedded,
            r.spec_choices().len() == 0,
    {
        FontEmbeddingPolicy { default: EmbeddingDisposition::Embedded, choices: Vec::new() }
    }

    /// Fulfill everything from outside the pack.
    pub fn externally_fulfill_all() -> (r: Self)
        ensures
            r.spec_default() == EmbeddingDisposition::ExternallyFulfilled,
            r.spec_choices().len() == 0,
    {
        FontEmbeddingPolicy { default: EmbeddingDisposition::ExternallyFulfilled, choices: Vec::new() }
    }

    /// A default and a choice per font container; a refusal lists every repeated
    /// key and a choice count over the admitted limit.
    pub fn try_by_container(
        limits: &AdmittedOperationResourceLimits<CreationResourceLimits>,
        default: EmbeddingDisposition,
        choices: Vec<(crate::ContentIdentity, EmbeddingDisposition)>,
    ) -> (r: Result<Self, CreationRequestRejection>)
        ensures
            match r {
                Ok(p) => try_by_container_issues(choices@, limits.spec_admitted().spec_limits().font_containers).len() == 0
                    && p.spec_default() == default && p.spec_choices() == choices@ && p.spec_keys_distinct(),
                Err(rejection) => rejection.spec_issues() == try_by_container_issues(choices@, limits.spec_admitted().spec_limits().font_containers)
                    && rejection.spec_issues().len() > 0 && rejection.spec_resource_profile() == limits.spec_profile()
                    && rejection.spec_requested_limits() == limits.spec_requested()
                    && rejection.spec_admitted_limits() == limits.spec_admitted(),
            },
    {
        let limit = limits.admitted().spec().font_containers;
        let n = choices.len();
        let mut issues: Vec<CreationRequestIssueView> = Vec::new();
        let mut i: usize = 0;
        while i < n
            invariant
                n == choices@.len(),
                i <= n,
                issues@ == try_by_container_duplicates(choices@, i as int),
                issues@.len() == 0 ==> forall|a: int, b: int| 0 <= a < b < i ==> choices@[a].0@ != choices@[b].0@,
            decreases n - i,
        {
            let ghost before = issues@;
            let mut seen = false;
            let mut j: usize = 0;
            while j < i
                invariant_except_break
                    !seen,
                invariant
                    j <= i,
                    i < n,
                    n == choices@.len(),
                    forall|q: int| 0 <= q < j ==> #[trigger] choices@[q].0@ != choices@[i as int].0@,
                ensures
                    seen ==> j < i && choices@[j as int].0@ == choices@[i as int].0@,
                    !seen ==> forall|q: int| 0 <= q < i ==> #[trigger] choices@[q].0@ != choices@[i as int].0@,
                decreases i - j,
            {
                if choices[j].0.same_as(&choices[i].0) {
                    seen = true;
                    break;
                }
                j = j + 1;
            }
            if seen {
                issues.push(CreationRequestIssueView {
                    code: CreationRequestIssueCode::DuplicateLogicalKey,
                    role: CreationRequestRole::FontEmbeddingPolicy,
                    declaration_ordinal: Some(i as u64),
                });
            }
            proof {
                assert(issues@ =~= try_by_container_duplicates(choices@, i + 1));
            }
            i = i + 1;
        }
        if n as u64 > limit {
            issues.push(CreationRequestIssueView {
                code: CreationRequestIssueCode::MemberLimitExceeded,
                role: CreationRequestRole::FontEmbeddingPolicy,
                declaration_ordinal: None,
            });
        }
        proof {
            assert(issues@ =~= try_by_container_issues(choices@, limit));
        }
        if issues.len() > 0 {
            let profile = match limits.profile() {
                Some(p) => Some(p.duplicate()),
                None => None,
            };
            return Err(CreationRequestRejection {
                resource_profile: profile,
                requested_limits: *limits.requested(),
                admitted_limits: *limits.admitted(),
                issues,
            });
        }
        Ok(FontEmbeddingPolicy { default, choices })
    }

    /// The disposition the policy gives a key: its choice, or the default.
    pub fn disposition(&self, key: &crate::ContentIdentity) -> (r: EmbeddingDisposition)
        requires
            self.spec_keys_distinct(),
        ensures
            r == self.spec_disposition(key@),
    {
        let mut i: usize = 0;
        while i < self.choices.len()
            invariant
                i <= self.spec_choices().len(),
                self.spec_keys_distinct(),
                forall|q: int| 0 <= q < i ==> #[trigger] self.spec_choices()[q].0@ != key@,
            decreases self.spec_choices().len() - i,
        {
            if self.choices[i].0.same_as(key) {
                proof {
                    let c = choose|c: int| 0 <= c < self.spec_choices().len() && #[trigger] self.spec_choices()[c].0@ == key@;
                    if c != i {
                        if c < i {
                            assert(self.spec_choices()[c].0@ != self.spec_choices()[i as int].0@);
                        } else {
                            assert(self.spec_choices()[i as int].0@ != self.spec_choices()[c].0@);
                        }
                    }
                }
                return self.choices[i].1;
            }
            i = i + 1;
        }
        self.default
    }
}

/// Why evidence for a creation's inputs is refused.
#[derive(Clone, Copy, Debug, Eq, PartialEq, Structural)]
pub enum CreationEvidenceValueRejection {
    WrongRequest,
    DuplicateSubject,
    WrongProvider,
    MissingBinding,
    InvalidRole,
}

/// How a creation evidence provider keeps its sources stable.
#[derive(Clone, Copy, Debug, Eq, PartialEq, Structural)]
pub enum CreationEvidenceStability {
    Immutable,
    Versioned,
    Revalidated,
}

/// What a creation evidence provider can do to show sources unchanged.
#[derive(Clone, Copy, Debug, PartialEq, Eq, Structural)]
pub struct CreationEvidenceCapabilityProjection {
    pub stability: CreationEvidenceStability,
    pub race_closing_revalidation: bool,
    pub exact_key_revalidation: bool,
    pub opaque_scope_revalidation: bool,
    pub polling: bool,
    pub push_subscription: bool,
    pub cursor_replay: bool,
    pub network: crate::SelectedNetworkContract,
}

/// The evidence capability a creation required, beside what the provider
/// had.
#[derive(Clone, Copy, Debug)]
pub struct InsufficientCreationEvidenceCapability {
    required: CreationEvidenceCapabilityProjection,
    available: CreationEvidenceCapabilityProjection,
}

impl InsufficientCreationEvidenceCapability {
    pub closed spec fn spec_required(&self) -> CreationEvidenceCapabilityProjection {
        self.required
    }

    pub closed spec fn spec_available(&self) -> CreationEvidenceCapabilityProjection {
        self.available
    }

    pub fn new(required: CreationEvidenceCapabilityProjection, available: CreationEvidenceCapabilityProjection) -> (r: Self)
        ensures
            r.spec_required() == required,
            r.spec_available() == available,
    {
        InsufficientCreationEvidenceCapability { required, available }
    }

    pub fn required(&self) -> (r: CreationEvidenceCapabilityProjection)
        ensures
            r == self.spec_required(),
    {
        self.required
    }

    pub fn available(&self) -> (r: CreationEvidenceCapabilityProjection)
        ensures
            r == self.spec_available(),
    {
        self.available
    }
}

/// The phase of a creation.
#[derive(Clone, Copy, Debug, Eq, PartialEq, Structural)]
pub enum CreationPhase {
    Admission,
    Discovery,
    Acquisition,
    EvidenceFence,
    Assembly,
    Replay,
    Issuance,
}

/// How the execution of a creation failed.
#[derive(Clone, Copy, Debug, Eq, PartialEq, Structural)]
pub enum CreationExecutionFailure {
    Queue,
    Worker,
    Protocol,
    Isolation,
    InternalIntegrity,
}

/// What ended a creation first when several ends raced.
#[derive(Clone, Copy, Debug, Eq, PartialEq, Structural)]
pub enum CreationInterruptionWinner {
    TerminalCommitment,
    Cancellation,
    Deadline,
    ForcedTermination,
}

} // verus!
