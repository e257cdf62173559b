//! The values that a compilation session and its adapter exchange: session
//! policies and their preparation limits, evidence scopes and bindings,
//! watch coverage, fence failures, and the session's event and lifecycle
//! kinds.

use vstd::prelude::*;
use crate::{AdmissionRefusal, AdmittedOperationResourceLimits, AuthorityInstanceIdentity, ResourceProfileIdentity};
use crate::compilation::CompilationResourceLimits;
use crate::syntax::{check_namespaced, namespaced_rejection};

verus! {

/// Why a value handed to a session by its adapter is refused.
#[derive(Clone, Copy, Debug, Eq, PartialEq, Structural)]
pub enum SessionAdapterValueRejection {
    Empty,
    WrongPlan,
    DuplicateCursor,
    IncompleteCoverage,
    InvalidNamespace,
}

/// Why a session input is refused.
#[derive(Clone, Copy, Debug, Eq, PartialEq, Structural)]
pub enum SessionInputRejection {
    MissingEvidence,
    DuplicateScope,
    UnsupportedPolicy,
}

/// Which results a session publishes: only the latest, and either only
/// with complete watch coverage or also unverified.
#[derive(Clone, Copy, Debug, Eq, PartialEq, Structural)]
pub enum SessionPolicyMode {
    LatestOnlyCompleteCoverage,
    LatestOnlyAllowUnverified,
}

/// How a finished attempt's resources were released.
#[derive(Clone, Copy, Debug, Eq, PartialEq, Structural)]
pub enum SessionAttemptRelease {
    Reaped,
    AbandonedNoLiveResource,
}

/// Why a session ignored an event.
#[derive(Clone, Copy, Debug, Eq, PartialEq, Structural)]
pub enum SessionIgnoredEvent {
    PreviousSessionInstance,
    SupersededRevision,
    StaleAttempt,
    StaleFence,
    OldSubscription,
    DuplicateCompletion,
}

/// Why a session refused an event.
#[derive(Clone, Copy, Debug, Eq, PartialEq, Structural)]
pub enum SessionEventRejection {
    MalformedToken,
    ImpossibleTransition,
    AdapterContractViolation,
    Retiring,
    Retired,
}

/// Where a session is in its life.
#[derive(Clone, Copy, Debug, Eq, PartialEq, Structural)]
pub enum SessionLifecycle {
    Running,
    Retiring,
    Retired,
}

/// Whether an attempt still runs or drains.
#[derive(Clone, Copy, Debug, Eq, PartialEq, Structural)]
pub enum SessionActiveAttemptState {
    Active,
    Draining,
}

/// Which dependency or request source a piece of evidence covers, as a
/// namespaced value.
#[derive(Clone, Debug)]
pub struct EvidenceScope {
    value: String,
}

/// Why a scope is refused, or `None` when it is a namespaced value.
pub open spec fn scope_rejection(s: Seq<char>) -> Option<SessionAdapterValueRejection> {
    match namespaced_rejection(s) {
        None => None,
        Some(crate::DomainValueRejection::Empty) => Some(SessionAdapterValueRejection::Empty),
        Some(_) => Some(SessionAdapterValueRejection::InvalidNamespace),
    }
}

fn check_scope(s: &str) -> (r: Option<SessionAdapterValueRejection>)
    ensures
        r == scope_rejection(s@),
{
    match check_namespaced(&crate::text::chars_of(s)) {
        None => None,
        Some(crate::DomainValueRejection::Empty) => Some(SessionAdapterValueRejection::Empty),
        Some(_) => Some(SessionAdapterValueRejection::InvalidNamespace),
    }
}

impl EvidenceScope {
    pub closed spec fn spec_value(&self) -> Seq<char> {
        self.value@
    }

    pub fn try_new(namespaced_value: &str) -> (r: Result<Self, SessionAdapterValueRejection>)
        ensures
            match r {
                Ok(s) => scope_rejection(namespaced_value@) is None && s.spec_value() == namespaced_value@,
                Err(e) => scope_rejection(namespaced_value@) == Some(e),
            },
    {
        match check_scope(namespaced_value) {
            Some(e) => Err(e),
            None => Ok(EvidenceScope { value: namespaced_value.to_owned() }),
        }
    }

    pub fn as_str(&self) -> (r: &str)
        ensures
            r@ == self.spec_value(),
    {
        self.value.as_str()
    }

    pub fn same_as(&self, other: &Self) -> (r: bool)
        ensures
            r == (self.spec_value() == other.spec_value()),
    {
        self.value == other.value
    }
}

/// Where a session watches for change: a request source or a dependency.
#[derive(Clone, Debug)]
pub enum SessionWatchScope {
    RequestSource(EvidenceScope),
    Dependency(EvidenceScope),
}

/// The request sources and dependencies that a change or a gap affects.
#[derive(Clone, Debug)]
pub struct SessionAffectedScopes {
    request_sources: Vec<EvidenceScope>,
    dependencies: Vec<EvidenceScope>,
}

impl SessionAffectedScopes {
    pub closed spec fn spec_request_sources(&self) -> Seq<EvidenceScope> {
        self.request_sources@
    }

    pub closed spec fn spec_dependencies(&self) -> Seq<EvidenceScope> {
        self.dependencies@
    }

    /// Affected scopes; at least one scope must be named.
    pub fn try_new(request_sources: Vec<EvidenceScope>, dependencies: Vec<EvidenceScope>) -> (r: Result<
        Self,
        SessionAdapterValueRejection,
    >)
        ensures
            match r {
                Ok(s) => request_sources@.len() + dependencies@.len() > 0 && s.spec_request_sources()
                    == request_sources@ && s.spec_dependencies() == dependencies@,
                Err(e) => request_sources@.len() + dependencies@.len() == 0 && e == SessionAdapterValueRejection::Empty,
            },
    {
        if request_sources.len() == 0 && dependencies.len() == 0 {
            return Err(SessionAdapterValueRejection::Empty);
        }
        Ok(SessionAffectedScopes { request_sources, dependencies })
    }

    pub fn request_sources(&self) -> (r: &[EvidenceScope])
        ensures
            r@ == self.spec_request_sources(),
    {
        self.request_sources.as_slice()
    }

    pub fn dependencies(&self) -> (r: &[EvidenceScope])
        ensures
            r@ == self.spec_dependencies(),
    {
        self.dependencies.as_slice()
    }
}

/// How completely a session can watch for change.
#[derive(Clone, Debug)]
pub enum SessionWatchCoverage {
    /// Every scope is watched by change notifications.
    CompletePush,
    /// Every scope is watched by polling.
    CompletePoll,
    /// These scopes are not watched.
    Incomplete(SessionAffectedScopes),
}

impl SessionWatchCoverage {
    pub fn complete_push() -> (r: Self)
        ensures
            r is CompletePush,
    {
        SessionWatchCoverage::CompletePush
    }

    pub fn complete_poll() -> (r: Self)
        ensures
            r is CompletePoll,
    {
        SessionWatchCoverage::CompletePoll
    }

    pub fn incomplete(scopes: SessionAffectedScopes) -> (r: Self)
        ensures
            r == SessionWatchCoverage::Incomplete(scopes),
    {
        SessionWatchCoverage::Incomplete(scopes)
    }

    /// Whether every scope is watched.
    pub fn is_complete(&self) -> (r: bool)
        ensures
            r == !(self is Incomplete),
    {
        match self {
            SessionWatchCoverage::Incomplete(_) => false,
            _ => true,
        }
    }
}

/// A failure to read or confirm a currentness fence: the scopes it affects
/// and a safe code.
#[derive(Clone, Debug)]
pub struct SessionFenceFailure {
    scopes: SessionAffectedScopes,
    safe_code: String,
}

impl SessionFenceFailure {
    pub closed spec fn spec_scopes(&self) -> SessionAffectedScopes {
        self.scopes
    }

    pub closed spec fn spec_safe_code(&self) -> Seq<char> {
        self.safe_code@
    }

    pub fn try_new(scopes: SessionAffectedScopes, safe_code: &str) -> (r: Result<Self, SessionAdapterValueRejection>)
        ensures
            match r {
                Ok(f) => scope_rejection(safe_code@) is None && f.spec_scopes() == scopes && f.spec_safe_code()
                    == safe_code@,
                Err(e) => scope_rejection(safe_code@) == Some(e),
            },
    {
        match check_scope(safe_code) {
            Some(e) => Err(e),
            None => Ok(SessionFenceFailure { scopes, safe_code: safe_code.to_owned() }),
        }
    }

    pub fn scopes(&self) -> (r: &SessionAffectedScopes)
        ensures
            *r == self.spec_scopes(),
    {
        &self.scopes
    }

    pub fn safe_code(&self) -> (r: &str)
        ensures
            r@ == self.spec_safe_code(),
    {
        self.safe_code.as_str()
    }
}

/// The binding of a request source's evidence scope to the authority that
/// provides it.
#[derive(Clone, Debug)]
pub struct RequestSourceEvidenceBinding {
    scope: EvidenceScope,
    provider: AuthorityInstanceIdentity,
}

impl RequestSourceEvidenceBinding {
    pub closed spec fn spec_scope(&self) -> EvidenceScope {
        self.scope
    }

    pub closed spec fn spec_provider(&self) -> AuthorityInstanceIdentity {
        self.provider
    }

    pub fn try_new(scope: EvidenceScope, provider: AuthorityInstanceIdentity) -> (r: Self)
        ensures
            r.spec_scope() == scope,
            r.spec_provider() == provider,
    {
        RequestSourceEvidenceBinding { scope, provider }
    }

    pub fn scope(&self) -> (r: &EvidenceScope)
        ensures
            *r == self.spec_scope(),
    {
        &self.scope
    }

    pub fn provider(&self) -> (r: &AuthorityInstanceIdentity)
        ensures
            *r == self.spec_provider(),
    {
        &self.provider
    }
}

/// How the sources of a session's request can be shown unchanged: they are
/// immutable and owned by the caller, or each can be revalidated.
#[derive(Clone, Debug)]
pub enum SessionRequestEvidence {
    CallerOwnedImmutable,
    Revalidatable(Vec<RequestSourceEvidenceBinding>),
}

/// Whether no two bindings share a scope.
pub open spec fn binding_scopes_distinct(sources: Seq<RequestSourceEvidenceBinding>) -> bool {
    forall|a: int, b: int|
        0 <= a < b < sources.len() ==> sources[a].spec_scope().spec_value() != sources[b].spec_scope().spec_value()
}

impl SessionRequestEvidence {
    pub fn caller_owned_immutable() -> (r: Self)
        ensures
            r is CallerOwnedImmutable,
    {
        SessionRequestEvidence::CallerOwnedImmutable
    }

    /// Evidence from revalidatable sources: at least one, no two with one
    /// scope.
    pub fn revalidatable(sources: Vec<RequestSourceEvidenceBinding>) -> (r: Result<Self, SessionInputRejection>)
        ensures
            match r {
                Ok(e) => sources@.len() > 0 && binding_scopes_distinct(sources@) && e
                    == SessionRequestEvidence::Revalidatable(sources),
                Err(e) => (sources@.len() == 0 && e == SessionInputRejection::MissingEvidence) || (sources@.len() > 0
                    && !binding_scopes_distinct(sources@) && e == SessionInputRejection::DuplicateScope),
            },
    {
        let n = sources.len();
        if n == 0 {
            return Err(SessionInputRejection::MissingEvidence);
        }
        let mut i: usize = 0;
        while i < n
            invariant
                n == sources@.len(),
                i <= n,
                forall|a: int, b: int|
                    0 <= a < i && a < b < n ==> sources@[a].spec_scope().spec_value() != sources@[b].spec_scope().spec_value(),
            decreases n - i,
        {
            let mut j: usize = i + 1;
            while j < n
                invariant
                    n == sources@.len(),
                    i < n,
                    i + 1 <= j <= n,
                    forall|a: int, b: int|
                        0 <= a < i && a < b < n ==> sources@[a].spec_scope().spec_value() != sources@[b].spec_scope().spec_value(),
                    forall|b: int| i < b < j ==> sources@[i as int].spec_scope().spec_value() != sources@[b].spec_scope().spec_value(),
                decreases n - j,
            {
                if sources[i].scope.same_as(&sources[j].scope) {
                    return Err(SessionInputRejection::DuplicateScope);
                }
                j = j + 1;
            }
            i = i + 1;
        }
        Ok(SessionRequestEvidence::Revalidatable(sources))
    }
}

/// The compilation limits under which a session prepares its attempts.
#[derive(Clone, Debug)]
pub struct SessionPreparationLimits {
    limits: AdmittedOperationResourceLimits<CompilationResourceLimits>,
}

impl SessionPreparationLimits {
    pub closed spec fn spec_limits(&self) -> AdmittedOperationResourceLimits<CompilationResourceLimits> {
        self.limits
    }

    pub fn try_caller_selected(limits: CompilationResourceLimits) -> (r: Result<Self, AdmissionRefusal>)
        ensures
            match r {
                Ok(l) => crate::OperationLimitSet::spec_valid(&limits) && l.spec_limits().spec_profile() is None
                    && l.spec_limits().spec_requested() == limits && l.spec_limits().spec_admitted() == limits,
                Err(e) => e == AdmissionRefusal::InvalidResourceLimits && !crate::OperationLimitSet::spec_valid(&limits),
            },
    {
        let limits = AdmittedOperationResourceLimits::try_caller_selected(limits)?;
        Ok(SessionPreparationLimits { limits })
    }

    pub fn try_from_adapter_profile(
        profile: ResourceProfileIdentity,
        requested: CompilationResourceLimits,
        admitted: CompilationResourceLimits,
    ) -> (r: Result<Self, AdmissionRefusal>)
        ensures
            match r {
                Ok(l) => crate::OperationLimitSet::spec_valid(&requested) && crate::OperationLimitSet::spec_valid(&admitted)
                    && crate::OperationLimitSet::spec_no_looser_than(&admitted, &requested)
                    && l.spec_limits().spec_profile() == Some(profile) && l.spec_limits().spec_requested() == requested
                    && l.spec_limits().spec_admitted() == admitted,
                Err(e) => e == AdmissionRefusal::InvalidResourceLimits && !(crate::OperationLimitSet::spec_valid(&requested)
                    && crate::OperationLimitSet::spec_valid(&admitted) && crate::OperationLimitSet::spec_no_looser_than(
                    &admitted,
                    &requested,
                )),
            },
    {
        let limits = AdmittedOperationResourceLimits::try_from_adapter_profile(profile, requested, admitted)?;
        Ok(SessionPreparationLimits { limits })
    }

    pub fn resource_profile(&self) -> (r: Option<&ResourceProfileIdentity>)
        ensures
            match r {
                Some(p) => self.spec_limits().spec_profile() == Some(*p),
                None => self.spec_limits().spec_profile() is None,
            },
    {
        self.limits.profile()
    }

    pub fn requested(&self) -> (r: &CompilationResourceLimits)
        ensures
            *r == self.spec_limits().spec_requested(),
    {
        self.limits.requested()
    }

    pub fn admitted(&self) -> (r: &CompilationResourceLimits)
        ensures
            *r == self.spec_limits().spec_admitted(),
    {
        self.limits.admitted()
    }
}

/// What a session publishes and the limits it prepares attempts under.
#[derive(Clone, Debug)]
pub struct SessionPolicy {
    preparation: SessionPreparationLimits,
    mode: SessionPolicyMode,
}

impl SessionPolicy {
    pub closed spec fn spec_preparation(&self) -> SessionPreparationLimits {
        self.preparation
    }

    pub closed spec fn spec_mode(&self) -> SessionPolicyMode {
        self.mode
    }

    /// Publish only the latest result, and only with complete coverage.
    pub fn latest_only_complete_coverage(preparation: SessionPreparationLimits) -> (r: Self)
        ensures
            r.spec_preparation() == preparation,
            r.spec_mode() == SessionPolicyMode::LatestOnlyCompleteCoverage,
    {
        SessionPolicy { preparation, mode: SessionPolicyMode::LatestOnlyCompleteCoverage }
    }

    /// Publish only the latest result, also where it is unverified.
    pub fn latest_only_allow_unverified(preparation: SessionPreparationLimits) -> (r: Self)
        ensures
            r.spec_preparation() == preparation,
            r.spec_mode() == SessionPolicyMode::LatestOnlyAllowUnverified,
    {
        SessionPolicy { preparation, mode: SessionPolicyMode::LatestOnlyAllowUnverified }
    }

    pub fn preparation_limits(&self) -> (r: &SessionPreparationLimits)
        ensures
            *r == self.spec_preparation(),
    {
        &self.preparation
    }

    pub fn mode(&self) -> (r: SessionPolicyMode)
        ensures
            r == self.spec_mode(),
    {
        self.mode
    }
}

/// A failure to ingest a session input: a safe code, the request sources
/// that failed, and the policy in force.
#[derive(Clone, Debug)]
pub struct SessionIngestionFailure {
    safe_code: String,
    failed_request_sources: Vec<EvidenceScope>,
    policy: SessionPolicy,
}

impl SessionIngestionFailure {
    pub closed spec fn spec_safe_code(&self) -> Seq<char> {
        self.safe_code@
    }

    pub closed spec fn spec_failed_request_sources(&self) -> Seq<EvidenceScope> {
        self.failed_request_sources@
    }

    pub closed spec fn spec_policy(&self) -> SessionPolicy {
        self.policy
    }

    pub fn try_new(safe_code: &str, failed_request_sources: Vec<EvidenceScope>, policy: SessionPolicy) -> (r: Result<
        Self,
        SessionAdapterValueRejection,
    >)
        ensures
            match r {
                Ok(f) => scope_rejection(safe_code@) is None && f.spec_safe_code() == safe_code@
                    && f.spec_failed_request_sources() == failed_request_sources@ && f.spec_policy() == policy,
                Err(e) => scope_rejection(safe_code@) == Some(e),
            },
    {
        match check_scope(safe_code) {
            Some(e) => Err(e),
            None => Ok(SessionIngestionFailure { safe_code: safe_code.to_owned(), failed_request_sources, policy }),
        }
    }

    pub fn safe_code(&self) -> (r: &str)
        ensures
            r@ == self.spec_safe_code(),
    {
        self.safe_code.as_str()
    }

    pub fn failed_request_sources(&self) -> (r: &[EvidenceScope])
        ensures
            r@ == self.spec_failed_request_sources(),
    {
        self.failed_request_sources.as_slice()
    }

    pub fn policy(&self) -> (r: &SessionPolicy)
        ensures
            *r == self.spec_policy(),
    {
        &self.policy
    }
}

} // verus!
