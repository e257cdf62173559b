//! Byte values, spooling and the transport roles that move packs, plans and
//! compilation results between the core and its adapters.

use vstd::prelude::*;
use crate::{
    AdmissionRefusal, AdmittedOperationResourceLimits, ContentIdentity, InterruptionSource,
    MonotonicClock, NonZeroUsize, OperationDeadline, OperationLimitSet, OrdinaryAdmission,
    check_deadline_domain, deadline_matches_clock,
};

verus! {

/// The concatenation of a sequence of byte chunks.
pub open spec fn concat_chunks(chunks: Seq<Seq<u8>>) -> Seq<u8>
    decreases chunks.len(),
{
    if chunks.len() == 0 {
        Seq::empty()
    } else {
        concat_chunks(chunks.drop_last()) + chunks.last()
    }
}

/// An immutable byte value whose contents never change once constructed.
#[derive(Clone, Debug)]
pub struct StableByteValue {
    bytes: Vec<u8>,
}

impl View for StableByteValue {
    type V = Seq<u8>;

    closed spec fn view(&self) -> Seq<u8> {
        self.bytes@
    }
}

pub(crate) fn copy_bytes(bytes: &[u8]) -> (r: Vec<u8>)
    ensures
        r@ == bytes@,
{
    let mut r: Vec<u8> = Vec::new();
    let mut i: usize = 0;
    while i < bytes.len()
        invariant
            i <= bytes@.len(),
            r@ == bytes@.subrange(0, i as int),
        decreases bytes@.len() - i,
    {
        r.push(bytes[i]);
        i = i + 1;
    }
    assert(r@ =~= bytes@);
    r
}

impl StableByteValue {
    pub fn from_vec(_admission: &OrdinaryAdmission, bytes: Vec<u8>) -> (r: Result<
        Self,
        StableByteValueConstructionError,
    >)
        ensures
            r matches Ok(v) && v@ == bytes@,
    {
        Ok(StableByteValue { bytes })
    }

    pub fn copy_from_slice(_admission: &OrdinaryAdmission, bytes: &[u8]) -> (r: Result<
        Self,
        StableByteValueConstructionError,
    >)
        ensures
            r matches Ok(v) && v@ == bytes@,
    {
        Ok(StableByteValue { bytes: copy_bytes(bytes) })
    }

    pub fn from_static(_admission: &OrdinaryAdmission, bytes: &'static [u8]) -> (r: Result<
        Self,
        StableByteValueConstructionError,
    >)
        ensures
            r matches Ok(v) && v@ == bytes@,
    {
        Ok(StableByteValue { bytes: copy_bytes(bytes) })
    }

    /// Joins the chunks, in order, into one value.
    pub fn from_chunks(_admission: &OrdinaryAdmission, chunks: Vec<Vec<u8>>) -> (r: Result<
        Self,
        StableByteValueConstructionError,
    >)
        ensures
            match r {
                Ok(v) => v@ == concat_chunks(chunks@.map_values(|c: Vec<u8>| c@)),
                Err(e) => e == StableByteValueConstructionError::LengthOverflow && concat_chunks(
                    chunks@.map_values(|c: Vec<u8>| c@),
                ).len() > usize::MAX,
            },
    {
        let ghost views = chunks@.map_values(|c: Vec<u8>| c@);
        let mut bytes: Vec<u8> = Vec::new();
        let mut i: usize = 0;
        while i < chunks.len()
            invariant
                i <= chunks@.len(),
                views == chunks@.map_values(|c: Vec<u8>| c@),
                bytes@ == concat_chunks(views.subrange(0, i as int)),
            decreases chunks@.len() - i,
        {
            let chunk = &chunks[i];
            assert(views.subrange(0, i + 1).drop_last() =~= views.subrange(0, i as int));
            if chunk.len() > usize::MAX - bytes.len() {
                proof {
                    lemma_concat_chunks_prefix_len(views, i as int + 1);
                    lemma_concat_chunks_len_monotonic(views, i as int + 1);
                }
                return Err(StableByteValueConstructionError::LengthOverflow);
            }
            let mut j: usize = 0;
            let ghost before = bytes@;
            while j < chunk.len()
                invariant
                    j <= chunk@.len(),
                    bytes@ == before + chunk@.subrange(0, j as int),
                    before.len() + chunk@.len() <= usize::MAX,
                decreases chunk@.len() - j,
            {
                bytes.push(chunk[j]);
                j = j + 1;
            }
            assert(chunk@.subrange(0, j as int) =~= chunk@);
            i = i + 1;
        }
        assert(views.subrange(0, i as int) =~= views);
        Ok(StableByteValue { bytes })
    }

    pub fn len(&self) -> (r: u64)
        ensures
            r == self@.len(),
    {
        self.bytes.len() as u64
    }

    pub fn is_empty(&self) -> (r: bool)
        ensures
            r == (self@.len() == 0),
    {
        self.len() == 0
    }

    /// Copies `destination.len()` bytes starting at `offset` into `destination`.
    pub fn read_exact_at(&self, offset: u64, destination: &mut [u8]) -> (r: Result<(), StableReadError>)
        ensures
            r is Ok <==> offset + old(destination)@.len() <= self@.len(),
            r is Ok ==> final(destination)@ == self@.subrange(
                offset as int,
                offset + old(destination)@.len(),
            ),
            r matches Err(e) ==> e == StableReadError::OutOfBounds && final(destination)@ == old(
                destination,
            )@,
    {
        let total = self.bytes.len();
        let n = destination.len();
        if offset > total as u64 || (n as u64) > (total as u64) - offset {
            return Err(StableReadError::OutOfBounds);
        }
        let start = offset as usize;
        let mut i: usize = 0;
        while i < n
            invariant
                n == destination@.len(),
                start + n <= self@.len(),
                start + n <= self.bytes.len(),
                start == offset,
                i <= n,
                forall|k: int| 0 <= k < i ==> destination@[k] == self@[start + k],
            decreases n - i,
        {
            destination[i] = self.bytes[start + i];
            i = i + 1;
        }
        assert(destination@ =~= self@.subrange(offset as int, offset + n));
        Ok(())
    }
}

/// The concatenation of all chunks is at least as long as that of a prefix.
proof fn lemma_concat_chunks_len_monotonic(views: Seq<Seq<u8>>, k: int)
    requires
        0 <= k <= views.len(),
    ensures
        concat_chunks(views.subrange(0, k)).len() <= concat_chunks(views).len(),
    decreases views.len() - k,
{
    if k < views.len() {
        lemma_concat_chunks_len_monotonic(views, k + 1);
        lemma_concat_chunks_prefix_len(views, k + 1);
    } else {
        assert(views.subrange(0, k) =~= views);
    }
}

/// The length of a prefix of chunks is the sum of the lengths of the
/// concatenation of one fewer chunk and the last one.
proof fn lemma_concat_chunks_prefix_len(views: Seq<Seq<u8>>, i: int)
    requires
        0 < i <= views.len(),
    ensures
        concat_chunks(views.subrange(0, i)).len() == concat_chunks(views.subrange(0, i - 1)).len()
            + views[i - 1].len(),
{
    assert(views.subrange(0, i).drop_last() =~= views.subrange(0, i - 1));
}

#[derive(Clone, Copy, Debug, Eq, PartialEq, Structural)]
pub enum StableByteValueConstructionError {
    LengthOverflow,
    IdentityApplicabilityCeilingExceeded,
    TargetCapacityExceeded,
    BackingFinalizationFailed,
}

#[derive(Clone, Copy, Debug, Eq, PartialEq, Structural)]
pub enum StableReadError {
    OutOfBounds,
    BackingUnavailable,
    InternalIntegrity,
}

/// A synchronous byte source supplied by an adapter.
pub trait SyncByteSource {
    fn read(&mut self, destination: &mut [u8]) -> Result<usize, ByteSourceFailure>;
}

#[derive(Clone, Copy, Debug, Eq, PartialEq, Structural)]
pub enum ByteSourceFailure {
    Unavailable,
    ReadFailed,
    AdapterContractViolation,
}

#[derive(Clone, Copy, Debug)]
pub struct SpoolResourceLimits {
    source_bytes: u64,
    stable_spool_bytes: u64,
    in_flight_bytes: u64,
    retained_memory_bytes: u64,
}

impl SpoolResourceLimits {
    pub closed spec fn spec_source_bytes(&self) -> u64 {
        self.source_bytes
    }

    pub closed spec fn spec_stable_spool_bytes(&self) -> u64 {
        self.stable_spool_bytes
    }

    pub closed spec fn spec_in_flight_bytes(&self) -> u64 {
        self.in_flight_bytes
    }

    pub closed spec fn spec_retained_memory_bytes(&self) -> u64 {
        self.retained_memory_bytes
    }

    pub fn try_new(
        source_bytes: u64,
        stable_spool_bytes: u64,
        in_flight_bytes: u64,
        retained_memory_bytes: u64,
    ) -> (r: Result<Self, AdmissionRefusal>)
        ensures
            match r {
                Ok(l) => l.spec_valid() && l.spec_source_bytes() == source_bytes
                    && l.spec_stable_spool_bytes() == stable_spool_bytes && l.spec_in_flight_bytes()
                    == in_flight_bytes && l.spec_retained_memory_bytes() == retained_memory_bytes,
                Err(e) => e == AdmissionRefusal::InvalidResourceLimits && in_flight_bytes
                    > stable_spool_bytes,
            },
    {
        let limits = SpoolResourceLimits {
            source_bytes,
            stable_spool_bytes,
            in_flight_bytes,
            retained_memory_bytes,
        };
        limits.validate()?;
        Ok(limits)
    }

    pub fn source_bytes(&self) -> (r: u64)
        ensures
            r == self.spec_source_bytes(),
    {
        self.source_bytes
    }

    pub fn stable_spool_bytes(&self) -> (r: u64)
        ensures
            r == self.spec_stable_spool_bytes(),
    {
        self.stable_spool_bytes
    }

    pub fn in_flight_bytes(&self) -> (r: u64)
        ensures
            r == self.spec_in_flight_bytes(),
    {
        self.in_flight_bytes
    }

    pub fn retained_memory_bytes(&self) -> (r: u64)
        ensures
            r == self.spec_retained_memory_bytes(),
    {
        self.retained_memory_bytes
    }
}

impl OperationLimitSet for SpoolResourceLimits {
    /// Bytes in flight never exceed what the stable spool may hold.
    open spec fn spec_valid(&self) -> bool {
        self.spec_in_flight_bytes() <= self.spec_stable_spool_bytes()
    }

    open spec fn spec_no_looser_than(&self, requested: &Self) -> bool {
        &&& self.spec_source_bytes() <= requested.spec_source_bytes()
        &&& self.spec_stable_spool_bytes() <= requested.spec_stable_spool_bytes()
        &&& self.spec_in_flight_bytes() <= requested.spec_in_flight_bytes()
        &&& self.spec_retained_memory_bytes() <= requested.spec_retained_memory_bytes()
    }

    fn validate(&self) -> (r: Result<(), AdmissionRefusal>) {
        if self.in_flight_bytes <= self.stable_spool_bytes {
            Ok(())
        } else {
            Err(AdmissionRefusal::InvalidResourceLimits)
        }
    }

    fn no_looser_than(&self, requested: &Self) -> (r: bool) {
        self.source_bytes <= requested.source_bytes && self.stable_spool_bytes
            <= requested.stable_spool_bytes && self.in_flight_bytes <= requested.in_flight_bytes
            && self.retained_memory_bytes <= requested.retained_memory_bytes
    }

    proof fn lemma_no_looser_than_reflexive(limits: &Self) {
    }

    proof fn lemma_no_looser_than_transitive(a: &Self, b: &Self, c: &Self) {
    }
}

#[derive(Clone, Debug)]
pub struct SpoolOperationRequest {
    pub network: crate::OperationNetworkPolicy,
    pub transfer_concurrency: NonZeroUsize,
    pub interruption: crate::OperationInterruptionStrength,
    pub deadline: OperationDeadline,
    pub cleanup: TransportCleanupRequirement,
    pub required_enforcement: Vec<crate::EnforcementClaim>,
    pub timing_requested: bool,
}

#[derive(Clone, Debug)]
pub struct PackArchiveAcquisitionOperationRequest {
    pub network: crate::OperationNetworkPolicy,
    pub transfer_concurrency: NonZeroUsize,
    pub interruption: crate::OperationInterruptionStrength,
    pub deadline: OperationDeadline,
    pub cleanup: TransportCleanupRequirement,
    pub required_enforcement: Vec<crate::EnforcementClaim>,
    pub timing_requested: bool,
}

#[derive(Clone, Debug)]
pub struct PackArchivePublicationOperationRequest {
    pub network: crate::OperationNetworkPolicy,
    pub transfer_concurrency: NonZeroUsize,
    pub interruption: crate::OperationInterruptionStrength,
    pub deadline: OperationDeadline,
    pub commit: PublicationCommitStrength,
    pub cleanup: TransportCleanupRequirement,
    pub required_enforcement: Vec<crate::EnforcementClaim>,
    pub timing_requested: bool,
}

#[derive(Clone, Debug)]
pub struct ProjectMaterializationPublicationOperationRequest {
    pub network: crate::OperationNetworkPolicy,
    pub transfer_concurrency: NonZeroUsize,
    pub interruption: crate::OperationInterruptionStrength,
    pub deadline: OperationDeadline,
    pub commit: PublicationCommitStrength,
    pub cleanup: TransportCleanupRequirement,
    pub required_enforcement: Vec<crate::EnforcementClaim>,
    pub timing_requested: bool,
}

#[derive(Clone, Debug)]
pub struct ClosureExportPublicationOperationRequest {
    pub network: crate::OperationNetworkPolicy,
    pub transfer_concurrency: NonZeroUsize,
    pub interruption: crate::OperationInterruptionStrength,
    pub deadline: OperationDeadline,
    pub commit: PublicationCommitStrength,
    pub cleanup: TransportCleanupRequirement,
    pub required_enforcement: Vec<crate::EnforcementClaim>,
    pub timing_requested: bool,
}

#[derive(Clone, Debug)]
pub struct CompilationDeliveryOperationRequest {
    pub network: crate::OperationNetworkPolicy,
    pub transfer_concurrency: NonZeroUsize,
    pub interruption: crate::OperationInterruptionStrength,
    pub deadline: OperationDeadline,
    pub commit: PublicationCommitStrength,
    pub cleanup: TransportCleanupRequirement,
    pub required_enforcement: Vec<crate::EnforcementClaim>,
    pub timing_requested: bool,
}

#[derive(Clone, Copy, Debug)]
pub struct TransportResourceLimits {
    objects: u64,
    aggregate_bytes: u64,
    largest_object_bytes: u64,
    in_flight_bytes: u64,
    transfer_concurrency: u64,
}

impl TransportResourceLimits {
    pub closed spec fn spec_objects(&self) -> u64 {
        self.objects
    }

    pub closed spec fn spec_aggregate_bytes(&self) -> u64 {
        self.aggregate_bytes
    }

    pub closed spec fn spec_largest_object_bytes(&self) -> u64 {
        self.largest_object_bytes
    }

    pub closed spec fn spec_in_flight_bytes(&self) -> u64 {
        self.in_flight_bytes
    }

    pub closed spec fn spec_transfer_concurrency(&self) -> u64 {
        self.transfer_concurrency
    }

    pub fn try_new(
        objects: u64,
        aggregate_bytes: u64,
        largest_object_bytes: u64,
        in_flight_bytes: u64,
        transfer_concurrency: u64,
    ) -> (r: Result<Self, AdmissionRefusal>)
        ensures
            match r {
                Ok(l) => l.spec_valid() && l.spec_objects() == objects && l.spec_aggregate_bytes()
                    == aggregate_bytes && l.spec_largest_object_bytes() == largest_object_bytes
                    && l.spec_in_flight_bytes() == in_flight_bytes && l.spec_transfer_concurrency()
                    == transfer_concurrency,
                Err(e) => e == AdmissionRefusal::InvalidResourceLimits && !(largest_object_bytes
                    <= aggregate_bytes && transfer_concurrency >= 1),
            },
    {
        let limits = TransportResourceLimits {
            objects,
            aggregate_bytes,
            largest_object_bytes,
            in_flight_bytes,
            transfer_concurrency,
        };
        limits.validate()?;
        Ok(limits)
    }

    pub fn objects(&self) -> (r: u64)
        ensures
            r == self.spec_objects(),
    {
        self.objects
    }

    pub fn aggregate_bytes(&self) -> (r: u64)
        ensures
            r == self.spec_aggregate_bytes(),
    {
        self.aggregate_bytes
    }

    pub fn largest_object_bytes(&self) -> (r: u64)
        ensures
            r == self.spec_largest_object_bytes(),
    {
        self.largest_object_bytes
    }

    pub fn in_flight_bytes(&self) -> (r: u64)
        ensures
            r == self.spec_in_flight_bytes(),
    {
        self.in_flight_bytes
    }

    pub fn transfer_concurrency(&self) -> (r: u64)
        ensures
            r == self.spec_transfer_concurrency(),
    {
        self.transfer_concurrency
    }
}

impl OperationLimitSet for TransportResourceLimits {
    /// No single object may be larger than the aggregate, and at least one
    /// transfer runs at a time.
    open spec fn spec_valid(&self) -> bool {
        self.spec_largest_object_bytes() <= self.spec_aggregate_bytes() && self.spec_transfer_concurrency() >= 1
    }

    open spec fn spec_no_looser_than(&self, requested: &Self) -> bool {
        &&& self.spec_objects() <= requested.spec_objects()
        &&& self.spec_aggregate_bytes() <= requested.spec_aggregate_bytes()
        &&& self.spec_largest_object_bytes() <= requested.spec_largest_object_bytes()
        &&& self.spec_in_flight_bytes() <= requested.spec_in_flight_bytes()
        &&& self.spec_transfer_concurrency() <= requested.spec_transfer_concurrency()
    }

    fn validate(&self) -> (r: Result<(), AdmissionRefusal>) {
        if self.largest_object_bytes <= self.aggregate_bytes && self.transfer_concurrency >= 1 {
            Ok(())
        } else {
            Err(AdmissionRefusal::InvalidResourceLimits)
        }
    }

    fn no_looser_than(&self, requested: &Self) -> (r: bool) {
        self.objects <= requested.objects && self.aggregate_bytes <= requested.aggregate_bytes
            && self.largest_object_bytes <= requested.largest_object_bytes && self.in_flight_bytes
            <= requested.in_flight_bytes && self.transfer_concurrency <= requested.transfer_concurrency
    }

    proof fn lemma_no_looser_than_reflexive(limits: &Self) {
    }

    proof fn lemma_no_looser_than_transitive(a: &Self, b: &Self, c: &Self) {
    }
}

/// The controls of one transport operation of this role.
pub struct AcquisitionTransportControls<'a> {
    admission: OrdinaryAdmission,
    limits: AdmittedOperationResourceLimits<TransportResourceLimits>,
    expected_identity: Option<ContentIdentity>,
    request: PackArchiveAcquisitionOperationRequest,
    clock: (&'a dyn MonotonicClock,),
    clock_domain: crate::MonotonicTimeDomain,
    interruption: (&'a dyn InterruptionSource,),
}

impl<'a> AcquisitionTransportControls<'a> {
    pub closed spec fn spec_admission(&self) -> OrdinaryAdmission {
        self.admission
    }

    pub closed spec fn spec_limits(&self) -> AdmittedOperationResourceLimits<TransportResourceLimits> {
        self.limits
    }

    pub closed spec fn spec_expected_identity(&self) -> Option<ContentIdentity> {
        self.expected_identity
    }

    pub closed spec fn spec_request(&self) -> PackArchiveAcquisitionOperationRequest {
        self.request
    }

    /// The clock the operation runs against, as it was given.
    pub closed spec fn spec_clock(&self) -> (&'a dyn MonotonicClock,) {
        self.clock
    }

    /// The domain of the operation's clock, as it was when the controls were
    /// bound.
    pub closed spec fn spec_clock_domain(&self) -> crate::MonotonicTimeDomain {
        self.clock_domain
    }

    /// The cancellation signal of the operation, as it was given.
    pub closed spec fn spec_interruption(&self) -> (&'a dyn InterruptionSource,) {
        self.interruption
    }

    /// Binds the controls of one operation; a deadline must lie in the clock's
    /// domain.
    pub fn try_new(
        admission: OrdinaryAdmission,
        limits: AdmittedOperationResourceLimits<TransportResourceLimits>,
        expected_identity: Option<ContentIdentity>,
        request: PackArchiveAcquisitionOperationRequest,
        clock: &'a dyn MonotonicClock,
        interruption: &'a dyn InterruptionSource,
    ) -> (r: Result<Self, AdmissionRefusal>)
        ensures
            match r {
                Ok(c) => deadline_matches_clock(request.deadline, clock.spec_domain())
                    && c.spec_admission() == admission && c.spec_limits() == limits && c.spec_expected_identity() == expected_identity
                    && c.spec_request() == request && c.spec_clock_domain()@ == clock.spec_domain() && c.spec_clock() == (clock,)
                    && c.spec_interruption() == (interruption,)
                    ,
                Err(e) => e == AdmissionRefusal::MissingEnforcementCapability
                    && !deadline_matches_clock(request.deadline, clock.spec_domain()),
            },
    {
        if let Err(e) = check_deadline_domain(&request.deadline, clock.domain()) {
            return Err(e);
        }
        let clock_domain = clock.domain().clone_domain();
        let kept_clock = (clock,);
        let kept_interruption = (interruption,);
        let c = AcquisitionTransportControls { admission, limits, expected_identity, request, clock: kept_clock, clock_domain, interruption: kept_interruption };
        Ok(c)
    }

    pub fn admission(&self) -> (r: &OrdinaryAdmission)
        ensures
            *r == self.spec_admission(),
    {
        &self.admission
    }

    pub fn limits(&self) -> (r: &TransportResourceLimits)
        ensures
            *r == self.spec_limits().spec_admitted(),
    {
        self.limits.admitted()
    }

    pub fn expected_identity(&self) -> (r: Option<&ContentIdentity>)
        ensures
            match r {
                Some(i) => self.spec_expected_identity() == Some(*i),
                None => self.spec_expected_identity() is None,
            },
    {
        self.expected_identity.as_ref()
    }

    pub fn requested_cleanup(&self) -> (r: TransportCleanupRequirement)
        ensures
            r == self.spec_request().cleanup,
    {
        self.request.cleanup
    }

    pub fn deadline(&self) -> (r: &OperationDeadline)
        ensures
            *r == self.spec_request().deadline,
    {
        &self.request.deadline
    }

    /// The clock the operation runs against.
    pub fn clock(&self) -> &'a dyn MonotonicClock {
        self.clock.0
    }

    /// The cancellation signal of the operation.
    pub fn interruption(&self) -> &'a dyn InterruptionSource {
        self.interruption.0
    }

    pub fn request(&self) -> (r: &PackArchiveAcquisitionOperationRequest)
        ensures
            *r == self.spec_request(),
    {
        &self.request
    }
}

/// The controls of one transport operation of this role.
pub struct PackArchivePublicationControls<'a> {
    admission: OrdinaryAdmission,
    limits: AdmittedOperationResourceLimits<TransportResourceLimits>,
    request: PackArchivePublicationOperationRequest,
    clock: (&'a dyn MonotonicClock,),
    clock_domain: crate::MonotonicTimeDomain,
    interruption: (&'a dyn InterruptionSource,),
}

impl<'a> PackArchivePublicationControls<'a> {
    pub closed spec fn spec_admission(&self) -> OrdinaryAdmission {
        self.admission
    }

    pub closed spec fn spec_limits(&self) -> AdmittedOperationResourceLimits<TransportResourceLimits> {
        self.limits
    }

    pub closed spec fn spec_request(&self) -> PackArchivePublicationOperationRequest {
        self.request
    }

    /// The clock the operation runs against, as it was given.
    pub closed spec fn spec_clock(&self) -> (&'a dyn MonotonicClock,) {
        self.clock
    }

    /// The domain of the operation's clock, as it was when the controls were
    /// bound.
    pub closed spec fn spec_clock_domain(&self) -> crate::MonotonicTimeDomain {
        self.clock_domain
    }

    /// The cancellation signal of the operation, as it was given.
    pub closed spec fn spec_interruption(&self) -> (&'a dyn InterruptionSource,) {
        self.interruption
    }

    /// Binds the controls of one operation; a deadline must lie in the clock's
    /// domain.
    pub fn try_new(
        admission: OrdinaryAdmission,
        limits: AdmittedOperationResourceLimits<TransportResourceLimits>,
        request: PackArchivePublicationOperationRequest,
        clock: &'a dyn MonotonicClock,
        interruption: &'a dyn InterruptionSource,
    ) -> (r: Result<Self, AdmissionRefusal>)
        ensures
            match r {
                Ok(c) => deadline_matches_clock(request.deadline, clock.spec_domain())
                    && c.spec_admission() == admission && c.spec_limits() == limits
                    && c.spec_request() == request && c.spec_clock_domain()@ == clock.spec_domain() && c.spec_clock() == (clock,)
                    && c.spec_interruption() == (interruption,)
                    ,
                Err(e) => e == AdmissionRefusal::MissingEnforcementCapability
                    && !deadline_matches_clock(request.deadline, clock.spec_domain()),
            },
    {
        if let Err(e) = check_deadline_domain(&request.deadline, clock.domain()) {
            return Err(e);
        }
        let clock_domain = clock.domain().clone_domain();
        let kept_clock = (clock,);
        let kept_interruption = (interruption,);
        Ok(PackArchivePublicationControls { admission, limits, request, clock: kept_clock, clock_domain, interruption: kept_interruption })
    }

    pub fn admission(&self) -> (r: &OrdinaryAdmission)
        ensures
            *r == self.spec_admission(),
    {
        &self.admission
    }

    pub fn limits(&self) -> (r: &TransportResourceLimits)
        ensures
            *r == self.spec_limits().spec_admitted(),
    {
        self.limits.admitted()
    }

    pub fn requested_commit(&self) -> (r: PublicationCommitStrength)
        ensures
            r == self.spec_request().commit,
    {
        self.request.commit
    }

    pub fn requested_cleanup(&self) -> (r: TransportCleanupRequirement)
        ensures
            r == self.spec_request().cleanup,
    {
        self.request.cleanup
    }

    pub fn deadline(&self) -> (r: &OperationDeadline)
        ensures
            *r == self.spec_request().deadline,
    {
        &self.request.deadline
    }

    /// The clock the operation runs against.
    pub fn clock(&self) -> &'a dyn MonotonicClock {
        self.clock.0
    }

    /// The cancellation signal of the operation.
    pub fn interruption(&self) -> &'a dyn InterruptionSource {
        self.interruption.0
    }

    pub fn request(&self) -> (r: &PackArchivePublicationOperationRequest)
        ensures
            *r == self.spec_request(),
    {
        &self.request
    }
}

/// The controls of one transport operation of this role.
pub struct ProjectMaterializationPublicationControls<'a> {
    admission: OrdinaryAdmission,
    limits: AdmittedOperationResourceLimits<TransportResourceLimits>,
    request: ProjectMaterializationPublicationOperationRequest,
    clock: (&'a dyn MonotonicClock,),
    clock_domain: crate::MonotonicTimeDomain,
    interruption: (&'a dyn InterruptionSource,),
}

impl<'a> ProjectMaterializationPublicationControls<'a> {
    pub closed spec fn spec_admission(&self) -> OrdinaryAdmission {
        self.admission
    }

    pub closed spec fn spec_limits(&self) -> AdmittedOperationResourceLimits<TransportResourceLimits> {
        self.limits
    }

    pub closed spec fn spec_request(&self) -> ProjectMaterializationPublicationOperationRequest {
        self.request
    }

    /// The clock the operation runs against, as it was given.
    pub closed spec fn spec_clock(&self) -> (&'a dyn MonotonicClock,) {
        self.clock
    }

    /// The domain of the operation's clock, as it was when the controls were
    /// bound.
    pub closed spec fn spec_clock_domain(&self) -> crate::MonotonicTimeDomain {
        self.clock_domain
    }

    /// The cancellation signal of the operation, as it was given.
    pub closed spec fn spec_interruption(&self) -> (&'a dyn InterruptionSource,) {
        self.interruption
    }

    /// Binds the controls of one operation; a deadline must lie in the clock's
    /// domain.
    pub fn try_new(
        admission: OrdinaryAdmission,
        limits: AdmittedOperationResourceLimits<TransportResourceLimits>,
        request: ProjectMaterializationPublicationOperationRequest,
        clock: &'a dyn MonotonicClock,
        interruption: &'a dyn InterruptionSource,
    ) -> (r: Result<Self, AdmissionRefusal>)
        ensures
            match r {
                Ok(c) => deadline_matches_clock(request.deadline, clock.spec_domain())
                    && c.spec_admission() == admission && c.spec_limits() == limits
                    && c.spec_request() == request && c.spec_clock_domain()@ == clock.spec_domain() && c.spec_clock() == (clock,)
                    && c.spec_interruption() == (interruption,)
                    ,
                Err(e) => e == AdmissionRefusal::MissingEnforcementCapability
                    && !deadline_matches_clock(request.deadline, clock.spec_domain()),
            },
    {
        if let Err(e) = check_deadline_domain(&request.deadline, clock.domain()) {
            return Err(e);
        }
        let clock_domain = clock.domain().clone_domain();
        let kept_clock = (clock,);
        let kept_interruption = (interruption,);
        Ok(ProjectMaterializationPublicationControls { admission, limits, request, clock: kept_clock, clock_domain, interruption: kept_interruption })
    }

    pub fn admission(&self) -> (r: &OrdinaryAdmission)
        ensures
            *r == self.spec_admission(),
    {
        &self.admission
    }

    pub fn limits(&self) -> (r: &TransportResourceLimits)
        ensures
            *r == self.spec_limits().spec_admitted(),
    {
        self.limits.admitted()
    }

    pub fn requested_commit(&self) -> (r: PublicationCommitStrength)
        ensures
            r == self.spec_request().commit,
    {
        self.request.commit
    }

    pub fn requested_cleanup(&self) -> (r: TransportCleanupRequirement)
        ensures
            r == self.spec_request().cleanup,
    {
        self.request.cleanup
    }

    pub fn deadline(&self) -> (r: &OperationDeadline)
        ensures
            *r == self.spec_request().deadline,
    {
        &self.request.deadline
    }

    /// The clock the operation runs against.
    pub fn clock(&self) -> &'a dyn MonotonicClock {
        self.clock.0
    }

    /// The cancellation signal of the operation.
    pub fn interruption(&self) -> &'a dyn InterruptionSource {
        self.interruption.0
    }

    pub fn request(&self) -> (r: &ProjectMaterializationPublicationOperationRequest)
        ensures
            *r == self.spec_request(),
    {
        &self.request
    }
}

/// The controls of one transport operation of this role.
pub struct ClosureExportPublicationControls<'a> {
    admission: OrdinaryAdmission,
    limits: AdmittedOperationResourceLimits<TransportResourceLimits>,
    request: ClosureExportPublicationOperationRequest,
    clock: (&'a dyn MonotonicClock,),
    clock_domain: crate::MonotonicTimeDomain,
    interruption: (&'a dyn InterruptionSource,),
}

impl<'a> ClosureExportPublicationControls<'a> {
    pub closed spec fn spec_admission(&self) -> OrdinaryAdmission {
        self.admission
    }

    pub closed spec fn spec_limits(&self) -> AdmittedOperationResourceLimits<TransportResourceLimits> {
        self.limits
    }

    pub closed spec fn spec_request(&self) -> ClosureExportPublicationOperationRequest {
        self.request
    }

    /// The clock the operation runs against, as it was given.
    pub closed spec fn spec_clock(&self) -> (&'a dyn MonotonicClock,) {
        self.clock
    }

    /// The domain of the operation's clock, as it was when the controls were
    /// bound.
    pub closed spec fn spec_clock_domain(&self) -> crate::MonotonicTimeDomain {
        self.clock_domain
    }

    /// The cancellation signal of the operation, as it was given.
    pub closed spec fn spec_interruption(&self) -> (&'a dyn InterruptionSource,) {
        self.interruption
    }

    /// Binds the controls of one operation; a deadline must lie in the clock's
    /// domain.
    pub fn try_new(
        admission: OrdinaryAdmission,
        limits: AdmittedOperationResourceLimits<TransportResourceLimits>,
        request: ClosureExportPublicationOperationRequest,
        clock: &'a dyn MonotonicClock,
        interruption: &'a dyn InterruptionSource,
    ) -> (r: Result<Self, AdmissionRefusal>)
        ensures
            match r {
                Ok(c) => deadline_matches_clock(request.deadline, clock.spec_domain())
                    && c.spec_admission() == admission && c.spec_limits() == limits
                    && c.spec_request() == request && c.spec_clock_domain()@ == clock.spec_domain() && c.spec_clock() == (clock,)
                    && c.spec_interruption() == (interruption,)
                    ,
                Err(e) => e == AdmissionRefusal::MissingEnforcementCapability
                    && !deadline_matches_clock(request.deadline, clock.spec_domain()),
            },
    {
        if let Err(e) = check_deadline_domain(&request.deadline, clock.domain()) {
            return Err(e);
        }
        let clock_domain = clock.domain().clone_domain();
        let kept_clock = (clock,);
        let kept_interruption = (interruption,);
        Ok(ClosureExportPublicationControls { admission, limits, request, clock: kept_clock, clock_domain, interruption: kept_interruption })
    }

    pub fn admission(&self) -> (r: &OrdinaryAdmission)
        ensures
            *r == self.spec_admission(),
    {
        &self.admission
    }

    pub fn limits(&self) -> (r: &TransportResourceLimits)
        ensures
            *r == self.spec_limits().spec_admitted(),
    {
        self.limits.admitted()
    }

    pub fn requested_commit(&self) -> (r: PublicationCommitStrength)
        ensures
            r == self.spec_request().commit,
    {
        self.request.commit
    }

    pub fn requested_cleanup(&self) -> (r: TransportCleanupRequirement)
        ensures
            r == self.spec_request().cleanup,
    {
        self.request.cleanup
    }

    pub fn deadline(&self) -> (r: &OperationDeadline)
        ensures
            *r == self.spec_request().deadline,
    {
        &self.request.deadline
    }

    /// The clock the operation runs against.
    pub fn clock(&self) -> &'a dyn MonotonicClock {
        self.clock.0
    }

    /// The cancellation signal of the operation.
    pub fn interruption(&self) -> &'a dyn InterruptionSource {
        self.interruption.0
    }

    pub fn request(&self) -> (r: &ClosureExportPublicationOperationRequest)
        ensures
            *r == self.spec_request(),
    {
        &self.request
    }
}

/// The controls of one transport operation of this role.
pub struct CompilationDeliveryControls<'a> {
    admission: OrdinaryAdmission,
    limits: AdmittedOperationResourceLimits<TransportResourceLimits>,
    request: CompilationDeliveryOperationRequest,
    clock: (&'a dyn MonotonicClock,),
    clock_domain: crate::MonotonicTimeDomain,
    interruption: (&'a dyn InterruptionSource,),
}

impl<'a> CompilationDeliveryControls<'a> {
    pub closed spec fn spec_admission(&self) -> OrdinaryAdmission {
        self.admission
    }

    pub closed spec fn spec_limits(&self) -> AdmittedOperationResourceLimits<TransportResourceLimits> {
        self.limits
    }

    pub closed spec fn spec_request(&self) -> CompilationDeliveryOperationRequest {
        self.request
    }

    /// The clock the operation runs against, as it was given.
    pub closed spec fn spec_clock(&self) -> (&'a dyn MonotonicClock,) {
        self.clock
    }

    /// The domain of the operation's clock, as it was when the controls were
    /// bound.
    pub closed spec fn spec_clock_domain(&self) -> crate::MonotonicTimeDomain {
        self.clock_domain
    }

    /// The cancellation signal of the operation, as it was given.
    pub closed spec fn spec_interruption(&self) -> (&'a dyn InterruptionSource,) {
        self.interruption
    }

    /// Binds the controls of one operation; a deadline must lie in the clock's
    /// domain.
    pub fn try_new(
        admission: OrdinaryAdmission,
        limits: AdmittedOperationResourceLimits<TransportResourceLimits>,
        request: CompilationDeliveryOperationRequest,
        clock: &'a dyn MonotonicClock,
        interruption: &'a dyn InterruptionSource,
    ) -> (r: Result<Self, AdmissionRefusal>)
        ensures
            match r {
                Ok(c) => deadline_matches_clock(request.deadline, clock.spec_domain())
                    && c.spec_admission() == admission && c.spec_limits() == limits
                    && c.spec_request() == request && c.spec_clock_domain()@ == clock.spec_domain() && c.spec_clock() == (clock,)
                    && c.spec_interruption() == (interruption,)
                    ,
                Err(e) => e == AdmissionRefusal::MissingEnforcementCapability
                    && !deadline_matches_clock(request.deadline, clock.spec_domain()),
            },
    {
        if let Err(e) = check_deadline_domain(&request.deadline, clock.domain()) {
            return Err(e);
        }
        let clock_domain = clock.domain().clone_domain();
        let kept_clock = (clock,);
        let kept_interruption = (interruption,);
        Ok(CompilationDeliveryControls { admission, limits, request, clock: kept_clock, clock_domain, interruption: kept_interruption })
    }

    pub fn admission(&self) -> (r: &OrdinaryAdmission)
        ensures
            *r == self.spec_admission(),
    {
        &self.admission
    }

    pub fn limits(&self) -> (r: &TransportResourceLimits)
        ensures
            *r == self.spec_limits().spec_admitted(),
    {
        self.limits.admitted()
    }

    pub fn requested_commit(&self) -> (r: PublicationCommitStrength)
        ensures
            r == self.spec_request().commit,
    {
        self.request.commit
    }

    pub fn requested_cleanup(&self) -> (r: TransportCleanupRequirement)
        ensures
            r == self.spec_request().cleanup,
    {
        self.request.cleanup
    }

    pub fn deadline(&self) -> (r: &OperationDeadline)
        ensures
            *r == self.spec_request().deadline,
    {
        &self.request.deadline
    }

    /// The clock the operation runs against.
    pub fn clock(&self) -> &'a dyn MonotonicClock {
        self.clock.0
    }

    /// The cancellation signal of the operation.
    pub fn interruption(&self) -> &'a dyn InterruptionSource {
        self.interruption.0
    }

    pub fn request(&self) -> (r: &CompilationDeliveryOperationRequest)
        ensures
            *r == self.spec_request(),
    {
        &self.request
    }
}


pub struct SpoolControls<'a> {
    admission: OrdinaryAdmission,
    limits: AdmittedOperationResourceLimits<SpoolResourceLimits>,
    expected_identity: Option<ContentIdentity>,
    request: SpoolOperationRequest,
    clock: (&'a dyn MonotonicClock,),
    clock_domain: crate::MonotonicTimeDomain,
    interruption: (&'a dyn InterruptionSource,),
}

impl<'a> SpoolControls<'a> {
    pub closed spec fn spec_admission(&self) -> OrdinaryAdmission {
        self.admission
    }

    pub closed spec fn spec_limits(&self) -> AdmittedOperationResourceLimits<SpoolResourceLimits> {
        self.limits
    }

    pub closed spec fn spec_expected_identity(&self) -> Option<ContentIdentity> {
        self.expected_identity
    }

    pub closed spec fn spec_request(&self) -> SpoolOperationRequest {
        self.request
    }

    /// The clock the operation runs against, as it was given.
    pub closed spec fn spec_clock(&self) -> (&'a dyn MonotonicClock,) {
        self.clock
    }

    /// The domain of the operation's clock, as it was when the controls were
    /// bound.
    pub closed spec fn spec_clock_domain(&self) -> crate::MonotonicTimeDomain {
        self.clock_domain
    }

    /// The cancellation signal of the operation, as it was given.
    pub closed spec fn spec_interruption(&self) -> (&'a dyn InterruptionSource,) {
        self.interruption
    }

    /// Binds the controls of one spool operation; a deadline must lie in the
    /// clock's domain.
    pub fn try_new(
        admission: OrdinaryAdmission,
        limits: AdmittedOperationResourceLimits<SpoolResourceLimits>,
        expected_identity: Option<ContentIdentity>,
        request: SpoolOperationRequest,
        clock: &'a dyn MonotonicClock,
        interruption: &'a dyn InterruptionSource,
    ) -> (r: Result<Self, AdmissionRefusal>)
        ensures
            match r {
                Ok(c) => deadline_matches_clock(request.deadline, clock.spec_domain())
                    && c.spec_admission() == admission && c.spec_limits() == limits
                    && c.spec_expected_identity() == expected_identity && c.spec_request() == request
                    && c.spec_clock_domain()@ == clock.spec_domain() && c.spec_clock() == (clock,)
                    && c.spec_interruption() == (interruption,),
                Err(e) => e == AdmissionRefusal::MissingEnforcementCapability
                    && !deadline_matches_clock(request.deadline, clock.spec_domain()),
            },
    {
        if let Err(e) = check_deadline_domain(&request.deadline, clock.domain()) {
            return Err(e);
        }
        let clock_domain = clock.domain().clone_domain();
        let kept_clock = (clock,);
        let kept_interruption = (interruption,);
        Ok(SpoolControls { admission, limits, expected_identity, request, clock: kept_clock, clock_domain, interruption: kept_interruption })
    }

    pub fn admission(&self) -> (r: &OrdinaryAdmission)
        ensures
            *r == self.spec_admission(),
    {
        &self.admission
    }

    pub fn limits(&self) -> (r: &SpoolResourceLimits)
        ensures
            *r == self.spec_limits().spec_admitted(),
    {
        self.limits.admitted()
    }

    pub fn expected_identity(&self) -> (r: Option<&ContentIdentity>)
        ensures
            match r {
                Some(i) => self.spec_expected_identity() == Some(*i),
                None => self.spec_expected_identity() is None,
            },
    {
        self.expected_identity.as_ref()
    }

    pub fn requested_cleanup(&self) -> (r: TransportCleanupRequirement)
        ensures
            r == self.spec_request().cleanup,
    {
        self.request.cleanup
    }

    pub fn deadline(&self) -> (r: &OperationDeadline)
        ensures
            *r == self.spec_request().deadline,
    {
        &self.request.deadline
    }

    /// The clock the operation runs against.
    pub fn clock(&self) -> &'a dyn MonotonicClock {
        self.clock.0
    }

    /// The cancellation signal of the operation.
    pub fn interruption(&self) -> &'a dyn InterruptionSource {
        self.interruption.0
    }

    pub fn request(&self) -> (r: &SpoolOperationRequest)
        ensures
            *r == self.spec_request(),
    {
        &self.request
    }
}

#[derive(Clone, Copy, Debug, Eq, PartialEq, Structural)]
pub enum TransportCleanupRequirement {
    CompleteBeforeReturn,
    ResidualLocatorPermitted,
}

#[derive(Clone, Copy, Debug, Eq, PartialEq, Structural)]
pub enum NativeSpoolConfigurationError {
    RootUnavailable,
    RootNotPrivate,
    UnsupportedTarget,
}

#[derive(Clone, Copy, Debug, Eq, PartialEq, Structural)]
pub enum SpoolPrimaryFailure {
    Admission(TransportAdmissionRefusalReason),
    Source(ByteSourceFailure),
    ExpectedIdentityMismatch,
    ResourceLimit,
    Cancelled,
    Deadline,
    InternalIntegrity,
}

#[derive(Clone, Copy, Debug, Eq, PartialEq, Structural)]
pub struct SpoolFailure {
    pub primary: SpoolPrimaryFailure,
    pub cleanup: TransportCleanupOutcome,
}

#[derive(Clone, Copy, Debug, Eq, PartialEq, Structural)]
pub enum TransportFacilityRole {
    Spool,
    PackArchiveAcquisition,
    PackArchivePublication,
    ProjectMaterializationPublication,
    ClosureExportPublication,
    CompilationDelivery,
}

#[derive(Clone, Copy, Debug, Eq, PartialEq, Structural)]
pub enum TransportInterruptionWinner {
    TerminalCommitment,
    Cancellation,
    Deadline,
}

#[derive(Clone, Copy, Debug, Eq, PartialEq, Structural)]
pub enum TransportStage {
    Admission,
    PlanFreeze,
    ReferenceResolution,
    Acquisition,
    Spooling,
    Transfer,
    Verification,
    Commit,
    Cleanup,
    Complete,
}

#[derive(Clone, Copy, Debug, Eq, PartialEq, Structural)]
pub enum TransportRole {
    Spool,
    PackArchiveAcquisition,
    PackArchivePublication,
    ProjectMaterializationPublication,
    ClosureExportPublication,
    CompilationDelivery,
}

#[derive(Clone, Copy, Debug, Eq, PartialEq, Structural)]
pub enum TransportStatus {
    Refused,
    Transferred,
    Committed,
    Failed,
}

#[derive(Clone, Copy, Debug, Eq, PartialEq, Structural)]
pub enum TransportAdmissionRefusalReason {
    DeploymentTrustProfileUnavailable,
    OperationNetworkPolicyUnavailable,
    StructuralNetworkEnforcementUnavailable,
    OperationResourceLimitsUnavailable,
    TransportConcurrencyUnavailable,
    InterruptionContractUnavailable,
    PublicationCommitStrengthUnavailable,
    CleanupRequirementUnavailable,
    RequiredEnforcementUnavailable,
    ReportingUnavailable,
    CapacityUnavailable,
}

#[derive(Clone, Copy, Debug, Eq, PartialEq, Structural)]
pub enum TransportTimingStatus {
    NotRequested,
    Complete,
    Limited,
    Unavailable,
}

#[derive(Clone, Copy, Debug, Eq, PartialEq, Structural)]
pub struct TransportPhaseTiming {
    pub stage: TransportStage,
    pub elapsed_ticks: u64,
}

#[derive(Clone, Debug)]
pub enum TransportTimingInput {
    NotRequested,
    Complete(Vec<TransportPhaseTiming>),
    Limited(Vec<TransportPhaseTiming>),
    Unavailable,
}

pub struct TransportTimingView<'a> {
    pub status: TransportTimingStatus,
    pub phases: &'a [TransportPhaseTiming],
}

#[derive(Clone, Copy, Debug, Eq, PartialEq, Structural)]
pub enum TransportReceiptRejection {
    WrongRole,
    WrongSubject,
    IncoherentStage,
    IncoherentStatus,
    IncoherentIdentity,
    IncoherentObjectCount,
    IncoherentByteCount,
    IncoherentCommit,
    IncoherentCleanup,
}

#[derive(Clone, Copy, Debug, Eq, PartialEq, Structural)]
pub enum PublicationCommitStrength {
    CompleteCollectionAtomic,
    EachObjectAtomic,
    Streaming,
}

#[derive(Clone, Copy, Debug, Eq, PartialEq, Structural)]
pub enum TransportCleanupOutcome {
    NotRequired,
    Complete,
    ResidualReported,
    CleanupFailed,
}

#[derive(Clone, Copy, Debug, Eq, PartialEq, Structural)]
pub enum TransportAdapterStage {
    ReferenceResolution,
    Acquisition,
    Spooling,
    Transfer,
    Verification,
    Commit,
    Cleanup,
}

#[derive(Clone, Copy, Debug, Eq, PartialEq, Structural)]
pub struct TransportAdapterPhaseTiming {
    pub stage: TransportAdapterStage,
    pub elapsed_ticks: u64,
}

#[derive(Clone, Debug)]
pub enum TransportAdapterTimingInput {
    NotRequested,
    Complete(Vec<TransportAdapterPhaseTiming>),
    Limited(Vec<TransportAdapterPhaseTiming>),
    Unavailable,
}

#[derive(Clone, Copy, Debug, Eq, PartialEq, Structural)]
pub enum SpoolAdapterFailure {
    Source(ByteSourceFailure),
    ExpectedIdentityMismatch,
    ResourceLimit,
    Cancelled,
    Deadline,
    InternalIntegrity,
}

#[derive(Clone, Copy, Debug, Eq, PartialEq, Structural)]
pub enum PackArchiveAcquisitionAdapterFailure {
    Acquisition,
    Transfer,
    ExpectedIdentityMismatch,
    ResourceLimit,
    Cancelled,
    Deadline,
    AdapterContractViolation,
}

#[derive(Clone, Copy, Debug, Eq, PartialEq, Structural)]
pub enum PackArchivePublicationAdapterFailure {
    Transfer,
    ResourceLimit,
    Commit,
    Cancelled,
    Deadline,
    AdapterContractViolation,
}

#[derive(Clone, Copy, Debug, Eq, PartialEq, Structural)]
pub enum ProjectMaterializationPublicationAdapterFailure {
    Transfer,
    ResourceLimit,
    Commit,
    Cancelled,
    Deadline,
    AdapterContractViolation,
}

#[derive(Clone, Copy, Debug, Eq, PartialEq, Structural)]
pub enum ClosureExportPublicationAdapterFailure {
    Transfer,
    ResourceLimit,
    Commit,
    Cancelled,
    Deadline,
    AdapterContractViolation,
}

#[derive(Clone, Copy, Debug, Eq, PartialEq, Structural)]
pub enum CompilationDeliveryAdapterFailure {
    Transfer,
    ResourceLimit,
    Commit,
    Cancelled,
    Deadline,
    AdapterContractViolation,
}

#[derive(Clone, Copy, Debug, Eq, PartialEq, Structural)]
pub enum TransportOutcomeRejection {
    SuccessBeforeRequiredStage,
    FailureAfterCommit,
    IncoherentCleanup,
    WrongReport,
}

#[derive(Clone, Copy, Debug, Eq, PartialEq, Structural)]
pub enum TransportPrimaryFailure {
    Admission(TransportAdmissionRefusalReason),
    Acquisition,
    Transfer,
    ExpectedIdentityMismatch,
    ResourceLimit,
    Commit,
    Cancelled,
    Deadline,
    AdapterContractViolation,
}

#[derive(Clone, Copy, Debug, Eq, PartialEq, Structural)]
pub struct TransportFailure {
    pub primary: TransportPrimaryFailure,
    pub cleanup: TransportCleanupOutcome,
}

/// What a transport adapter declares that it can do.
#[derive(Clone, Debug)]
pub struct TransportCapabilityTerms {
    pub network: crate::SelectedNetworkContract,
    pub transfer_concurrency: NonZeroUsize,
    pub commit_strengths: Vec<PublicationCommitStrength>,
    pub cleanup_requirements: Vec<TransportCleanupRequirement>,
    pub interruption: crate::OperationInterruptionStrength,
    pub enforcement: Vec<crate::EnforcementClaim>,
    pub timing_reporting: bool,
}

/// The order of enforcement strengths: not claimed < best effort < verified hard.
pub open spec fn strength_rank(s: crate::EnforcementStrength) -> int {
    match s {
        crate::EnforcementStrength::NotClaimed => 0,
        crate::EnforcementStrength::BestEffort => 1,
        crate::EnforcementStrength::VerifiedHard => 2,
    }
}

fn strength_at_least(offered: crate::EnforcementStrength, required: crate::EnforcementStrength) -> (r: bool)
    ensures
        r == (strength_rank(offered) >= strength_rank(required)),
{
    match required {
        crate::EnforcementStrength::NotClaimed => true,
        crate::EnforcementStrength::BestEffort => match offered {
            crate::EnforcementStrength::NotClaimed => false,
            _ => true,
        },
        crate::EnforcementStrength::VerifiedHard => match offered {
            crate::EnforcementStrength::VerifiedHard => true,
            _ => false,
        },
    }
}

/// A required claim is covered when some offered claim of the same dimension
/// is at least as strong.
pub open spec fn claim_covered(claim: crate::EnforcementClaim, offered: Seq<crate::EnforcementClaim>) -> bool {
    exists|i: int|
        0 <= i < offered.len() && #[trigger] offered[i].dimension == claim.dimension && strength_rank(
            offered[i].strength,
        ) >= strength_rank(claim.strength)
}

/// Every required claim is covered by the offered claims.
pub open spec fn claims_covered(required: Seq<crate::EnforcementClaim>, offered: Seq<crate::EnforcementClaim>) -> bool {
    forall|i: int| 0 <= i < required.len() ==> claim_covered(#[trigger] required[i], offered)
}

fn check_claim_covered(claim: &crate::EnforcementClaim, offered: &[crate::EnforcementClaim]) -> (r: bool)
    ensures
        r == claim_covered(*claim, offered@),
{
    let mut i: usize = 0;
    while i < offered.len()
        invariant
            i <= offered@.len(),
            forall|k: int|
                0 <= k < i ==> !(offered@[k].dimension == claim.dimension && strength_rank(
                    offered@[k].strength,
                ) >= strength_rank(claim.strength)),
        decreases offered@.len() - i,
    {
        if offered[i].dimension == claim.dimension && strength_at_least(offered[i].strength, claim.strength) {
            return true;
        }
        i = i + 1;
    }
    false
}

fn check_claims_covered(required: &[crate::EnforcementClaim], offered: &[crate::EnforcementClaim]) -> (r: bool)
    ensures
        r == claims_covered(required@, offered@),
{
    let mut i: usize = 0;
    while i < required.len()
        invariant
            i <= required@.len(),
            forall|k: int| 0 <= k < i ==> claim_covered(#[trigger] required@[k], offered@),
        decreases required@.len() - i,
    {
        if !check_claim_covered(&required[i], offered) {
            return false;
        }
        i = i + 1;
    }
    true
}

fn contains_commit(v: &[PublicationCommitStrength], c: PublicationCommitStrength) -> (r: bool)
    ensures
        r == v@.contains(c),
{
    let mut i: usize = 0;
    while i < v.len()
        invariant
            i <= v@.len(),
            forall|k: int| 0 <= k < i ==> v@[k] != c,
        decreases v@.len() - i,
    {
        if v[i] == c {
            return true;
        }
        i = i + 1;
    }
    false
}

fn contains_cleanup(v: &[TransportCleanupRequirement], c: TransportCleanupRequirement) -> (r: bool)
    ensures
        r == v@.contains(c),
{
    let mut i: usize = 0;
    while i < v.len()
        invariant
            i <= v@.len(),
            forall|k: int| 0 <= k < i ==> v@[k] != c,
        decreases v@.len() - i,
    {
        if v[i] == c {
            return true;
        }
        i = i + 1;
    }
    false
}

/// Why an adapter with these terms cannot carry a request, if it cannot.
///
/// The checks run in a fixed order and the first that fails names the reason:
/// an offline request needs a no-network adapter, isolated interruption needs
/// an isolating adapter, a requested commit strength and cleanup requirement
/// must be offered, every required enforcement claim must be covered, and
/// requested timing must be reportable.
pub open spec fn transport_refusal(
    terms: TransportCapabilityTerms,
    network: crate::OperationNetworkPolicy,
    interruption: crate::OperationInterruptionStrength,
    commit: Option<PublicationCommitStrength>,
    cleanup: TransportCleanupRequirement,
    required_enforcement: Seq<crate::EnforcementClaim>,
    timing_requested: bool,
) -> Option<TransportAdmissionRefusalReason> {
    if network == crate::OperationNetworkPolicy::Offline && terms.network
        != crate::SelectedNetworkContract::NoNetwork {
        Some(TransportAdmissionRefusalReason::OperationNetworkPolicyUnavailable)
    } else if interruption == crate::OperationInterruptionStrength::Isolated && terms.interruption
        != crate::OperationInterruptionStrength::Isolated {
        Some(TransportAdmissionRefusalReason::InterruptionContractUnavailable)
    } else if commit matches Some(c) && !terms.commit_strengths@.contains(c) {
        Some(TransportAdmissionRefusalReason::PublicationCommitStrengthUnavailable)
    } else if !terms.cleanup_requirements@.contains(cleanup) {
        Some(TransportAdmissionRefusalReason::CleanupRequirementUnavailable)
    } else if !claims_covered(required_enforcement, terms.enforcement@) {
        Some(TransportAdmissionRefusalReason::RequiredEnforcementUnavailable)
    } else if timing_requested && !terms.timing_reporting {
        Some(TransportAdmissionRefusalReason::ReportingUnavailable)
    } else {
        None
    }
}

/// The concurrency an admitted transport runs with: the smaller of what was
/// requested and what the adapter offers.
pub open spec fn admitted_transfer_concurrency(terms: TransportCapabilityTerms, requested: NonZeroUsize) -> usize {
    if requested.spec_get() <= terms.transfer_concurrency.spec_get() {
        requested.spec_get()
    } else {
        terms.transfer_concurrency.spec_get()
    }
}

/// Decides whether an adapter with `terms` may carry a request, and with
/// which concurrency.
pub fn admit_transport(
    terms: &TransportCapabilityTerms,
    network: crate::OperationNetworkPolicy,
    transfer_concurrency: NonZeroUsize,
    interruption: crate::OperationInterruptionStrength,
    commit: Option<PublicationCommitStrength>,
    cleanup: TransportCleanupRequirement,
    required_enforcement: &[crate::EnforcementClaim],
    timing_requested: bool,
) -> (r: Result<NonZeroUsize, TransportAdmissionRefusalReason>)
    ensures
        match r {
            Ok(n) => transport_refusal(
                *terms,
                network,
                interruption,
                commit,
                cleanup,
                required_enforcement@,
                timing_requested,
            ) is None && n.spec_get() == admitted_transfer_concurrency(*terms, transfer_concurrency),
            Err(e) => transport_refusal(
                *terms,
                network,
                interruption,
                commit,
                cleanup,
                required_enforcement@,
                timing_requested,
            ) == Some(e),
        },
{
    if network == crate::OperationNetworkPolicy::Offline && terms.network
        != crate::SelectedNetworkContract::NoNetwork {
        return Err(TransportAdmissionRefusalReason::OperationNetworkPolicyUnavailable);
    }
    if interruption == crate::OperationInterruptionStrength::Isolated && terms.interruption
        != crate::OperationInterruptionStrength::Isolated {
        return Err(TransportAdmissionRefusalReason::InterruptionContractUnavailable);
    }
    if let Some(c) = commit {
        if !contains_commit(terms.commit_strengths.as_slice(), c) {
            return Err(TransportAdmissionRefusalReason::PublicationCommitStrengthUnavailable);
        }
    }
    if !contains_cleanup(terms.cleanup_requirements.as_slice(), cleanup) {
        return Err(TransportAdmissionRefusalReason::CleanupRequirementUnavailable);
    }
    if !check_claims_covered(required_enforcement, terms.enforcement.as_slice()) {
        return Err(TransportAdmissionRefusalReason::RequiredEnforcementUnavailable);
    }
    if timing_requested && !terms.timing_reporting {
        return Err(TransportAdmissionRefusalReason::ReportingUnavailable);
    }
    if transfer_concurrency.get() <= terms.transfer_concurrency.get() {
        Ok(transfer_concurrency)
    } else {
        Ok(terms.transfer_concurrency)
    }
}

#[derive(Clone, Debug)]
pub struct SpoolFacilityCapabilitySpec {
    pub class: crate::OperationalCapabilityClass,
    pub network: crate::SelectedNetworkContract,
    pub transfer_concurrency: NonZeroUsize,
    pub cleanup_requirements: Vec<TransportCleanupRequirement>,
    pub interruption: crate::OperationInterruptionStrength,
    pub enforcement: Vec<crate::EnforcementClaim>,
    pub timing_reporting: bool,
}

#[derive(Clone, Debug)]
pub struct PackArchiveAcquirerCapabilitySpec {
    pub class: crate::OperationalCapabilityClass,
    pub network: crate::SelectedNetworkContract,
    pub transfer_concurrency: NonZeroUsize,
    pub cleanup_requirements: Vec<TransportCleanupRequirement>,
    pub interruption: crate::OperationInterruptionStrength,
    pub enforcement: Vec<crate::EnforcementClaim>,
    pub timing_reporting: bool,
}

#[derive(Clone, Debug)]
pub struct PackArchivePublisherCapabilitySpec {
    pub class: crate::OperationalCapabilityClass,
    pub network: crate::SelectedNetworkContract,
    pub transfer_concurrency: NonZeroUsize,
    pub commit_strengths: Vec<PublicationCommitStrength>,
    pub cleanup_requirements: Vec<TransportCleanupRequirement>,
    pub interruption: crate::OperationInterruptionStrength,
    pub enforcement: Vec<crate::EnforcementClaim>,
    pub timing_reporting: bool,
}

#[derive(Clone, Debug)]
pub struct ProjectMaterializationPublisherCapabilitySpec {
    pub class: crate::OperationalCapabilityClass,
    pub network: crate::SelectedNetworkContract,
    pub transfer_concurrency: NonZeroUsize,
    pub commit_strengths: Vec<PublicationCommitStrength>,
    pub cleanup_requirements: Vec<TransportCleanupRequirement>,
    pub interruption: crate::OperationInterruptionStrength,
    pub enforcement: Vec<crate::EnforcementClaim>,
    pub timing_reporting: bool,
}

#[derive(Clone, Debug)]
pub struct ClosureExportPublisherCapabilitySpec {
    pub class: crate::OperationalCapabilityClass,
    pub network: crate::SelectedNetworkContract,
    pub transfer_concurrency: NonZeroUsize,
    pub commit_strengths: Vec<PublicationCommitStrength>,
    pub cleanup_requirements: Vec<TransportCleanupRequirement>,
    pub interruption: crate::OperationInterruptionStrength,
    pub enforcement: Vec<crate::EnforcementClaim>,
    pub timing_reporting: bool,
}

#[derive(Clone, Debug)]
pub struct CompilationDeliveryCapabilitySpec {
    pub class: crate::OperationalCapabilityClass,
    pub network: crate::SelectedNetworkContract,
    pub transfer_concurrency: NonZeroUsize,
    pub commit_strengths: Vec<PublicationCommitStrength>,
    pub cleanup_requirements: Vec<TransportCleanupRequirement>,
    pub interruption: crate::OperationInterruptionStrength,
    pub enforcement: Vec<crate::EnforcementClaim>,
    pub timing_reporting: bool,
}

/// The capabilities that one transport adapter declares.
#[derive(Clone, Debug)]
pub struct SpoolFacilityCapabilityDescriptor {
    class: crate::OperationalCapabilityClass,
    terms: TransportCapabilityTerms,
}

impl SpoolFacilityCapabilityDescriptor {
    pub closed spec fn spec_class(&self) -> crate::OperationalCapabilityClass {
        self.class
    }

    pub closed spec fn spec_terms(&self) -> TransportCapabilityTerms {
        self.terms
    }

    /// A descriptor offers at least one cleanup requirement (and, for a
    /// publisher, at least one commit strength).
    pub fn try_new(spec: SpoolFacilityCapabilitySpec) -> (r: Result<Self, TransportAdmissionRefusalReason>)
        ensures
            match r {
                Ok(d) => !(spec.cleanup_requirements@.len() == 0) && d.spec_class() == spec.class
                    && d.spec_terms().network == spec.network && d.spec_terms().transfer_concurrency
                    == spec.transfer_concurrency && d.spec_terms().cleanup_requirements@
                    == spec.cleanup_requirements@ && d.spec_terms().interruption == spec.interruption
                    && d.spec_terms().enforcement@ == spec.enforcement@
                    && d.spec_terms().timing_reporting == spec.timing_reporting && d.spec_terms().commit_strengths@.len() == 0,
                Err(e) => spec.cleanup_requirements@.len() == 0 && e
                    == TransportAdmissionRefusalReason::CleanupRequirementUnavailable,
            },
    {
        if spec.cleanup_requirements.len() == 0 {
            return Err(TransportAdmissionRefusalReason::CleanupRequirementUnavailable);
        }
        let terms = TransportCapabilityTerms {
            network: spec.network,
            transfer_concurrency: spec.transfer_concurrency,
            commit_strengths: Vec::new(),
            cleanup_requirements: spec.cleanup_requirements,
            interruption: spec.interruption,
            enforcement: spec.enforcement,
            timing_reporting: spec.timing_reporting,
        };
        Ok(SpoolFacilityCapabilityDescriptor { class: spec.class, terms })
    }

    pub fn descriptor_version(&self) -> (r: u32)
        ensures
            r == 1,
    {
        1
    }

    pub fn class(&self) -> (r: &crate::OperationalCapabilityClass)
        ensures
            *r == self.spec_class(),
    {
        &self.class
    }

    pub fn terms(&self) -> (r: &TransportCapabilityTerms)
        ensures
            *r == self.spec_terms(),
    {
        &self.terms
    }

    pub fn network(&self) -> (r: crate::SelectedNetworkContract)
        ensures
            r == self.spec_terms().network,
    {
        self.terms.network
    }

    pub fn transfer_concurrency(&self) -> (r: NonZeroUsize)
        ensures
            r == self.spec_terms().transfer_concurrency,
    {
        self.terms.transfer_concurrency
    }

    pub fn cleanup_requirements(&self) -> (r: &[TransportCleanupRequirement])
        ensures
            r@ == self.spec_terms().cleanup_requirements@,
    {
        self.terms.cleanup_requirements.as_slice()
    }

    pub fn interruption(&self) -> (r: crate::OperationInterruptionStrength)
        ensures
            r == self.spec_terms().interruption,
    {
        self.terms.interruption
    }

    pub fn enforcement(&self) -> (r: &[crate::EnforcementClaim])
        ensures
            r@ == self.spec_terms().enforcement@,
    {
        self.terms.enforcement.as_slice()
    }

    pub fn timing_reporting(&self) -> (r: bool)
        ensures
            r == self.spec_terms().timing_reporting,
    {
        self.terms.timing_reporting
    }
}

/// The capabilities that one transport adapter declares.
#[derive(Clone, Debug)]
pub struct PackArchiveAcquirerCapabilityDescriptor {
    class: crate::OperationalCapabilityClass,
    terms: TransportCapabilityTerms,
}

impl PackArchiveAcquirerCapabilityDescriptor {
    pub closed spec fn spec_class(&self) -> crate::OperationalCapabilityClass {
        self.class
    }

    pub closed spec fn spec_terms(&self) -> TransportCapabilityTerms {
        self.terms
    }

    /// A descriptor offers at least one cleanup requirement (and, for a
    /// publisher, at least one commit strength).
    pub fn try_new(spec: PackArchiveAcquirerCapabilitySpec) -> (r: Result<Self, TransportAdmissionRefusalReason>)
        ensures
            match r {
                Ok(d) => !(spec.cleanup_requirements@.len() == 0) && d.spec_class() == spec.class
                    && d.spec_terms().network == spec.network && d.spec_terms().transfer_concurrency
                    == spec.transfer_concurrency && d.spec_terms().cleanup_requirements@
                    == spec.cleanup_requirements@ && d.spec_terms().interruption == spec.interruption
                    && d.spec_terms().enforcement@ == spec.enforcement@
                    && d.spec_terms().timing_reporting == spec.timing_reporting && d.spec_terms().commit_strengths@.len() == 0,
                Err(e) => spec.cleanup_requirements@.len() == 0 && e
                    == TransportAdmissionRefusalReason::CleanupRequirementUnavailable,
            },
    {
        if spec.cleanup_requirements.len() == 0 {
            return Err(TransportAdmissionRefusalReason::CleanupRequirementUnavailable);
        }
        let terms = TransportCapabilityTerms {
            network: spec.network,
            transfer_concurrency: spec.transfer_concurrency,
            commit_strengths: Vec::new(),
            cleanup_requirements: spec.cleanup_requirements,
            interruption: spec.interruption,
            enforcement: spec.enforcement,
            timing_reporting: spec.timing_reporting,
        };
        Ok(PackArchiveAcquirerCapabilityDescriptor { class: spec.class, terms })
    }

    pub fn descriptor_version(&self) -> (r: u32)
        ensures
            r == 1,
    {
        1
    }

    pub fn class(&self) -> (r: &crate::OperationalCapabilityClass)
        ensures
            *r == self.spec_class(),
    {
        &self.class
    }

    pub fn terms(&self) -> (r: &TransportCapabilityTerms)
        ensures
            *r == self.spec_terms(),
    {
        &self.terms
    }

    pub fn network(&self) -> (r: crate::SelectedNetworkContract)
        ensures
            r == self.spec_terms().network,
    {
        self.terms.network
    }

    pub fn transfer_concurrency(&self) -> (r: NonZeroUsize)
        ensures
            r == self.spec_terms().transfer_concurrency,
    {
        self.terms.transfer_concurrency
    }

    pub fn cleanup_requirements(&self) -> (r: &[TransportCleanupRequirement])
        ensures
            r@ == self.spec_terms().cleanup_requirements@,
    {
        self.terms.cleanup_requirements.as_slice()
    }

    pub fn interruption(&self) -> (r: crate::OperationInterruptionStrength)
        ensures
            r == self.spec_terms().interruption,
    {
        self.terms.interruption
    }

    pub fn enforcement(&self) -> (r: &[crate::EnforcementClaim])
        ensures
            r@ == self.spec_terms().enforcement@,
    {
        self.terms.enforcement.as_slice()
    }

    pub fn timing_reporting(&self) -> (r: bool)
        ensures
            r == self.spec_terms().timing_reporting,
    {
        self.terms.timing_reporting
    }
}

/// The capabilities that one transport adapter declares.
#[derive(Clone, Debug)]
pub struct PackArchivePublisherCapabilityDescriptor {
    class: crate::OperationalCapabilityClass,
    terms: TransportCapabilityTerms,
}

impl PackArchivePublisherCapabilityDescriptor {
    pub closed spec fn spec_class(&self) -> crate::OperationalCapabilityClass {
        self.class
    }

    pub closed spec fn spec_terms(&self) -> TransportCapabilityTerms {
        self.terms
    }

    /// A descriptor offers at least one cleanup requirement (and, for a
    /// publisher, at least one commit strength).
    pub fn try_new(spec: PackArchivePublisherCapabilitySpec) -> (r: Result<Self, TransportAdmissionRefusalReason>)
        ensures
            match r {
                Ok(d) => !(spec.cleanup_requirements@.len() == 0 || spec.commit_strengths@.len() == 0) && d.spec_class() == spec.class
                    && d.spec_terms().network == spec.network && d.spec_terms().transfer_concurrency
                    == spec.transfer_concurrency && d.spec_terms().cleanup_requirements@
                    == spec.cleanup_requirements@ && d.spec_terms().interruption == spec.interruption
                    && d.spec_terms().enforcement@ == spec.enforcement@
                    && d.spec_terms().timing_reporting == spec.timing_reporting && d.spec_terms().commit_strengths@ == spec.commit_strengths@,
                Err(e) => (spec.cleanup_requirements@.len() == 0 && e
                    == TransportAdmissionRefusalReason::CleanupRequirementUnavailable) || (
                    spec.cleanup_requirements@.len() > 0 && spec.commit_strengths@.len() == 0 && e
                    == TransportAdmissionRefusalReason::PublicationCommitStrengthUnavailable),
            },
    {
        if spec.cleanup_requirements.len() == 0 {
            return Err(TransportAdmissionRefusalReason::CleanupRequirementUnavailable);
        }
        if spec.commit_strengths.len() == 0 {
            return Err(TransportAdmissionRefusalReason::PublicationCommitStrengthUnavailable);
        }
        let terms = TransportCapabilityTerms {
            network: spec.network,
            transfer_concurrency: spec.transfer_concurrency,
            commit_strengths: spec.commit_strengths,
            cleanup_requirements: spec.cleanup_requirements,
            interruption: spec.interruption,
            enforcement: spec.enforcement,
            timing_reporting: spec.timing_reporting,
        };
        Ok(PackArchivePublisherCapabilityDescriptor { class: spec.class, terms })
    }

    pub fn descriptor_version(&self) -> (r: u32)
        ensures
            r == 1,
    {
        1
    }

    pub fn class(&self) -> (r: &crate::OperationalCapabilityClass)
        ensures
            *r == self.spec_class(),
    {
        &self.class
    }

    pub fn terms(&self) -> (r: &TransportCapabilityTerms)
        ensures
            *r == self.spec_terms(),
    {
        &self.terms
    }

    pub fn network(&self) -> (r: crate::SelectedNetworkContract)
        ensures
            r == self.spec_terms().network,
    {
        self.terms.network
    }

    pub fn transfer_concurrency(&self) -> (r: NonZeroUsize)
        ensures
            r == self.spec_terms().transfer_concurrency,
    {
        self.terms.transfer_concurrency
    }

    pub fn cleanup_requirements(&self) -> (r: &[TransportCleanupRequirement])
        ensures
            r@ == self.spec_terms().cleanup_requirements@,
    {
        self.terms.cleanup_requirements.as_slice()
    }

    pub fn interruption(&self) -> (r: crate::OperationInterruptionStrength)
        ensures
            r == self.spec_terms().interruption,
    {
        self.terms.interruption
    }

    pub fn enforcement(&self) -> (r: &[crate::EnforcementClaim])
        ensures
            r@ == self.spec_terms().enforcement@,
    {
        self.terms.enforcement.as_slice()
    }

    pub fn timing_reporting(&self) -> (r: bool)
        ensures
            r == self.spec_terms().timing_reporting,
    {
        self.terms.timing_reporting
    }

    pub fn commit_strengths(&self) -> (r: &[PublicationCommitStrength])
        ensures
            r@ == self.spec_terms().commit_strengths@,
    {
        self.terms.commit_strengths.as_slice()
    }
}

/// The capabilities that one transport adapter declares.
#[derive(Clone, Debug)]
pub struct ProjectMaterializationPublisherCapabilityDescriptor {
    class: crate::OperationalCapabilityClass,
    terms: TransportCapabilityTerms,
}

impl ProjectMaterializationPublisherCapabilityDescriptor {
    pub closed spec fn spec_class(&self) -> crate::OperationalCapabilityClass {
        self.class
    }

    pub closed spec fn spec_terms(&self) -> TransportCapabilityTerms {
        self.terms
    }

    /// A descriptor offers at least one cleanup requirement (and, for a
    /// publisher, at least one commit strength).
    pub fn try_new(spec: ProjectMaterializationPublisherCapabilitySpec) -> (r: Result<Self, TransportAdmissionRefusalReason>)
        ensures
            match r {
                Ok(d) => !(spec.cleanup_requirements@.len() == 0 || spec.commit_strengths@.len() == 0) && d.spec_class() == spec.class
                    && d.spec_terms().network == spec.network && d.spec_terms().transfer_concurrency
                    == spec.transfer_concurrency && d.spec_terms().cleanup_requirements@
                    == spec.cleanup_requirements@ && d.spec_terms().interruption == spec.interruption
                    && d.spec_terms().enforcement@ == spec.enforcement@
                    && d.spec_terms().timing_reporting == spec.timing_reporting && d.spec_terms().commit_strengths@ == spec.commit_strengths@,
                Err(e) => (spec.cleanup_requirements@.len() == 0 && e
                    == TransportAdmissionRefusalReason::CleanupRequirementUnavailable) || (
                    spec.cleanup_requirements@.len() > 0 && spec.commit_strengths@.len() == 0 && e
                    == TransportAdmissionRefusalReason::PublicationCommitStrengthUnavailable),
            },
    {
        if spec.cleanup_requirements.len() == 0 {
            return Err(TransportAdmissionRefusalReason::CleanupRequirementUnavailable);
        }
        if spec.commit_strengths.len() == 0 {
            return Err(TransportAdmissionRefusalReason::PublicationCommitStrengthUnavailable);
        }
        let terms = TransportCapabilityTerms {
            network: spec.network,
            transfer_concurrency: spec.transfer_concurrency,
            commit_strengths: spec.commit_strengths,
            cleanup_requirements: spec.cleanup_requirements,
            interruption: spec.interruption,
            enforcement: spec.enforcement,
            timing_reporting: spec.timing_reporting,
        };
        Ok(ProjectMaterializationPublisherCapabilityDescriptor { class: spec.class, terms })
    }

    pub fn descriptor_version(&self) -> (r: u32)
        ensures
            r == 1,
    {
        1
    }

    pub fn class(&self) -> (r: &crate::OperationalCapabilityClass)
        ensures
            *r == self.spec_class(),
    {
        &self.class
    }

    pub fn terms(&self) -> (r: &TransportCapabilityTerms)
        ensures
            *r == self.spec_terms(),
    {
        &self.terms
    }

    pub fn network(&self) -> (r: crate::SelectedNetworkContract)
        ensures
            r == self.spec_terms().network,
    {
        self.terms.network
    }

    pub fn transfer_concurrency(&self) -> (r: NonZeroUsize)
        ensures
            r == self.spec_terms().transfer_concurrency,
    {
        self.terms.transfer_concurrency
    }

    pub fn cleanup_requirements(&self) -> (r: &[TransportCleanupRequirement])
        ensures
            r@ == self.spec_terms().cleanup_requirements@,
    {
        self.terms.cleanup_requirements.as_slice()
    }

    pub fn interruption(&self) -> (r: crate::OperationInterruptionStrength)
        ensures
            r == self.spec_terms().interruption,
    {
        self.terms.interruption
    }

    pub fn enforcement(&self) -> (r: &[crate::EnforcementClaim])
        ensures
            r@ == self.spec_terms().enforcement@,
    {
        self.terms.enforcement.as_slice()
    }

    pub fn timing_reporting(&self) -> (r: bool)
        ensures
            r == self.spec_terms().timing_reporting,
    {
        self.terms.timing_reporting
    }

    pub fn commit_strengths(&self) -> (r: &[PublicationCommitStrength])
        ensures
            r@ == self.spec_terms().commit_strengths@,
    {
        self.terms.commit_strengths.as_slice()
    }
}

/// The capabilities that one transport adapter declares.
#[derive(Clone, Debug)]
pub struct ClosureExportPublisherCapabilityDescriptor {
    class: crate::OperationalCapabilityClass,
    terms: TransportCapabilityTerms,
}

impl ClosureExportPublisherCapabilityDescriptor {
    pub closed spec fn spec_class(&self) -> crate::OperationalCapabilityClass {
        self.class
    }

    pub closed spec fn spec_terms(&self) -> TransportCapabilityTerms {
        self.terms
    }

    /// A descriptor offers at least one cleanup requirement (and, for a
    /// publisher, at least one commit strength).
    pub fn try_new(spec: ClosureExportPublisherCapabilitySpec) -> (r: Result<Self, TransportAdmissionRefusalReason>)
        ensures
            match r {
                Ok(d) => !(spec.cleanup_requirements@.len() == 0 || spec.commit_strengths@.len() == 0) && d.spec_class() == spec.class
                    && d.spec_terms().network == spec.network && d.spec_terms().transfer_concurrency
                    == spec.transfer_concurrency && d.spec_terms().cleanup_requirements@
                    == spec.cleanup_requirements@ && d.spec_terms().interruption == spec.interruption
                    && d.spec_terms().enforcement@ == spec.enforcement@
                    && d.spec_terms().timing_reporting == spec.timing_reporting && d.spec_terms().commit_strengths@ == spec.commit_strengths@,
                Err(e) => (spec.cleanup_requirements@.len() == 0 && e
                    == TransportAdmissionRefusalReason::CleanupRequirementUnavailable) || (
                    spec.cleanup_requirements@.len() > 0 && spec.commit_strengths@.len() == 0 && e
                    == TransportAdmissionRefusalReason::PublicationCommitStrengthUnavailable),
            },
    {
        if spec.cleanup_requirements.len() == 0 {
            return Err(TransportAdmissionRefusalReason::CleanupRequirementUnavailable);
        }
        if spec.commit_strengths.len() == 0 {
            return Err(TransportAdmissionRefusalReason::PublicationCommitStrengthUnavailable);
        }
        let terms = TransportCapabilityTerms {
            network: spec.network,
            transfer_concurrency: spec.transfer_concurrency,
            commit_strengths: spec.commit_strengths,
            cleanup_requirements: spec.cleanup_requirements,
            interruption: spec.interruption,
            enforcement: spec.enforcement,
            timing_reporting: spec.timing_reporting,
        };
        Ok(ClosureExportPublisherCapabilityDescriptor { class: spec.class, terms })
    }

    pub fn descriptor_version(&self) -> (r: u32)
        ensures
            r == 1,
    {
        1
    }

    pub fn class(&self) -> (r: &crate::OperationalCapabilityClass)
        ensures
            *r == self.spec_class(),
    {
        &self.class
    }

    pub fn terms(&self) -> (r: &TransportCapabilityTerms)
        ensures
            *r == self.spec_terms(),
    {
        &self.terms
    }

    pub fn network(&self) -> (r: crate::SelectedNetworkContract)
        ensures
            r == self.spec_terms().network,
    {
        self.terms.network
    }

    pub fn transfer_concurrency(&self) -> (r: NonZeroUsize)
        ensures
            r == self.spec_terms().transfer_concurrency,
    {
        self.terms.transfer_concurrency
    }

    pub fn cleanup_requirements(&self) -> (r: &[TransportCleanupRequirement])
        ensures
            r@ == self.spec_terms().cleanup_requirements@,
    {
        self.terms.cleanup_requirements.as_slice()
    }

    pub fn interruption(&self) -> (r: crate::OperationInterruptionStrength)
        ensures
            r == self.spec_terms().interruption,
    {
        self.terms.interruption
    }

    pub fn enforcement(&self) -> (r: &[crate::EnforcementClaim])
        ensures
            r@ == self.spec_terms().enforcement@,
    {
        self.terms.enforcement.as_slice()
    }

    pub fn timing_reporting(&self) -> (r: bool)
        ensures
            r == self.spec_terms().timing_reporting,
    {
        self.terms.timing_reporting
    }

    pub fn commit_strengths(&self) -> (r: &[PublicationCommitStrength])
        ensures
            r@ == self.spec_terms().commit_strengths@,
    {
        self.terms.commit_strengths.as_slice()
    }
}

/// The capabilities that one transport adapter declares.
#[derive(Clone, Debug)]
pub struct CompilationDeliveryCapabilityDescriptor {
    class: crate::OperationalCapabilityClass,
    terms: TransportCapabilityTerms,
}

impl CompilationDeliveryCapabilityDescriptor {
    pub closed spec fn spec_class(&self) -> crate::OperationalCapabilityClass {
        self.class
    }

    pub closed spec fn spec_terms(&self) -> TransportCapabilityTerms {
        self.terms
    }

    /// A descriptor offers at least one cleanup requirement (and, for a
    /// publisher, at least one commit strength).
    pub fn try_new(spec: CompilationDeliveryCapabilitySpec) -> (r: Result<Self, TransportAdmissionRefusalReason>)
        ensures
            match r {
                Ok(d) => !(spec.cleanup_requirements@.len() == 0 || spec.commit_strengths@.len() == 0) && d.spec_class() == spec.class
                    && d.spec_terms().network == spec.network && d.spec_terms().transfer_concurrency
                    == spec.transfer_concurrency && d.spec_terms().cleanup_requirements@
                    == spec.cleanup_requirements@ && d.spec_terms().interruption == spec.interruption
                    && d.spec_terms().enforcement@ == spec.enforcement@
                    && d.spec_terms().timing_reporting == spec.timing_reporting && d.spec_terms().commit_strengths@ == spec.commit_strengths@,
                Err(e) => (spec.cleanup_requirements@.len() == 0 && e
                    == TransportAdmissionRefusalReason::CleanupRequirementUnavailable) || (
                    spec.cleanup_requirements@.len() > 0 && spec.commit_strengths@.len() == 0 && e
                    == TransportAdmissionRefusalReason::PublicationCommitStrengthUnavailable),
            },
    {
        if spec.cleanup_requirements.len() == 0 {
            return Err(TransportAdmissionRefusalReason::CleanupRequirementUnavailable);
        }
        if spec.commit_strengths.len() == 0 {
            return Err(TransportAdmissionRefusalReason::PublicationCommitStrengthUnavailable);
        }
        let terms = TransportCapabilityTerms {
            network: spec.network,
            transfer_concurrency: spec.transfer_concurrency,
            commit_strengths: spec.commit_strengths,
            cleanup_requirements: spec.cleanup_requirements,
            interruption: spec.interruption,
            enforcement: spec.enforcement,
            timing_reporting: spec.timing_reporting,
        };
        Ok(CompilationDeliveryCapabilityDescriptor { class: spec.class, terms })
    }

    pub fn descriptor_version(&self) -> (r: u32)
        ensures
            r == 1,
    {
        1
    }

    pub fn class(&self) -> (r: &crate::OperationalCapabilityClass)
        ensures
            *r == self.spec_class(),
    {
        &self.class
    }

    pub fn terms(&self) -> (r: &TransportCapabilityTerms)
        ensures
            *r == self.spec_terms(),
    {
        &self.terms
    }

    pub fn network(&self) -> (r: crate::SelectedNetworkContract)
        ensures
            r == self.spec_terms().network,
    {
        self.terms.network
    }

    pub fn transfer_concurrency(&self) -> (r: NonZeroUsize)
        ensures
            r == self.spec_terms().transfer_concurrency,
    {
        self.terms.transfer_concurrency
    }

    pub fn cleanup_requirements(&self) -> (r: &[TransportCleanupRequirement])
        ensures
            r@ == self.spec_terms().cleanup_requirements@,
    {
        self.terms.cleanup_requirements.as_slice()
    }

    pub fn interruption(&self) -> (r: crate::OperationInterruptionStrength)
        ensures
            r == self.spec_terms().interruption,
    {
        self.terms.interruption
    }

    pub fn enforcement(&self) -> (r: &[crate::EnforcementClaim])
        ensures
            r@ == self.spec_terms().enforcement@,
    {
        self.terms.enforcement.as_slice()
    }

    pub fn timing_reporting(&self) -> (r: bool)
        ensures
            r == self.spec_terms().timing_reporting,
    {
        self.terms.timing_reporting
    }

    pub fn commit_strengths(&self) -> (r: &[PublicationCommitStrength])
        ensures
            r@ == self.spec_terms().commit_strengths@,
    {
        self.terms.commit_strengths.as_slice()
    }
}

/// Why an adapter's report of its own run cannot be believed, if it cannot.
///
/// A success must have reached the role's required stage; a failure must not
/// have reached or reported a commit; a residual locator is present exactly
/// when residue is reported; a publisher that succeeds reports its commit
/// strength; and no more bytes are exposed than were transferred.
pub open spec fn adapter_outcome_rejection(
    succeeded: bool,
    stages: Seq<TransportAdapterStage>,
    required: TransportAdapterStage,
    commit_expected: bool,
    commit_reported: bool,
    transferred_bytes: u64,
    cleanup: TransportCleanupOutcome,
    residual_present: bool,
    exposed_bytes: Option<u64>,
) -> Option<TransportOutcomeRejection> {
    if succeeded && !stages.contains(required) {
        Some(TransportOutcomeRejection::SuccessBeforeRequiredStage)
    } else if !succeeded && (stages.contains(TransportAdapterStage::Commit) || commit_reported) {
        Some(TransportOutcomeRejection::FailureAfterCommit)
    } else if (cleanup == TransportCleanupOutcome::ResidualReported) != residual_present {
        Some(TransportOutcomeRejection::IncoherentCleanup)
    } else if succeeded && commit_expected && !commit_reported {
        Some(TransportOutcomeRejection::WrongReport)
    } else if exposed_bytes matches Some(x) && x > transferred_bytes {
        Some(TransportOutcomeRejection::WrongReport)
    } else {
        None
    }
}

fn contains_adapter_stage(v: &[TransportAdapterStage], s: TransportAdapterStage) -> (r: bool)
    ensures
        r == v@.contains(s),
{
    let mut i: usize = 0;
    while i < v.len()
        invariant
            i <= v@.len(),
            forall|k: int| 0 <= k < i ==> v@[k] != s,
        decreases v@.len() - i,
    {
        if v[i] == s {
            return true;
        }
        i = i + 1;
    }
    false
}

/// Checks an adapter's report; see `adapter_outcome_rejection`.
pub fn check_adapter_outcome(
    succeeded: bool,
    stages: &[TransportAdapterStage],
    required: TransportAdapterStage,
    commit_expected: bool,
    commit_reported: bool,
    transferred_bytes: u64,
    cleanup: TransportCleanupOutcome,
    residual_present: bool,
    exposed_bytes: Option<u64>,
) -> (r: Option<TransportOutcomeRejection>)
    ensures
        r == adapter_outcome_rejection(
            succeeded,
            stages@,
            required,
            commit_expected,
            commit_reported,
            transferred_bytes,
            cleanup,
            residual_present,
            exposed_bytes,
        ),
{
    if succeeded && !contains_adapter_stage(stages, required) {
        return Some(TransportOutcomeRejection::SuccessBeforeRequiredStage);
    }
    if !succeeded && (contains_adapter_stage(stages, TransportAdapterStage::Commit) || commit_reported) {
        return Some(TransportOutcomeRejection::FailureAfterCommit);
    }
    let residue_reported = match cleanup {
        TransportCleanupOutcome::ResidualReported => true,
        _ => false,
    };
    if residue_reported != residual_present {
        return Some(TransportOutcomeRejection::IncoherentCleanup);
    }
    if succeeded && commit_expected && !commit_reported {
        return Some(TransportOutcomeRejection::WrongReport);
    }
    if let Some(x) = exposed_bytes {
        if x > transferred_bytes {
            return Some(TransportOutcomeRejection::WrongReport);
        }
    }
    None
}

/// What a Spool adapter reports of one run.
pub struct SpoolAdapterOutcome {
    terminal: Result<StableByteValue, SpoolAdapterFailure>,
    stages: Vec<TransportAdapterStage>,
    transferred_bytes: u64,
    cleanup: TransportCleanupOutcome,
    residual: Option<ResidualTransportLocator>,
    exposed_bytes: Option<u64>,
    timing: TransportAdapterTimingInput,
}

impl SpoolAdapterOutcome {
    pub closed spec fn spec_terminal(&self) -> Result<StableByteValue, SpoolAdapterFailure> {
        self.terminal
    }

    pub closed spec fn spec_stages(&self) -> Seq<TransportAdapterStage> {
        self.stages@
    }

    pub closed spec fn spec_transferred_bytes(&self) -> u64 {
        self.transferred_bytes
    }

    pub closed spec fn spec_cleanup(&self) -> TransportCleanupOutcome {
        self.cleanup
    }

    pub closed spec fn spec_residual(&self) -> Option<ResidualTransportLocator> {
        self.residual
    }

    pub closed spec fn spec_exposed_bytes(&self) -> Option<u64> {
        self.exposed_bytes
    }

    pub closed spec fn spec_timing(&self) -> TransportAdapterTimingInput {
        self.timing
    }

    /// Accepts a report only when it is coherent (see
    /// `adapter_outcome_rejection`); the required stage is
    /// `TransportAdapterStage::Spooling`.
    pub fn try_new(
        terminal: Result<StableByteValue, SpoolAdapterFailure>,
        stages: Vec<TransportAdapterStage>,
        transferred_bytes: u64,
        cleanup: TransportCleanupOutcome,
        residual: Option<ResidualTransportLocator>,
        exposed_bytes: Option<u64>,
        timing: TransportAdapterTimingInput,
    ) -> (r: Result<Self, TransportOutcomeRejection>)
        ensures
            match r {
                Ok(o) => adapter_outcome_rejection(
                    terminal is Ok,
                    stages@,
                    TransportAdapterStage::Spooling,
                    false,
                    false,
                    transferred_bytes,
                    cleanup,
                    residual is Some,
                    exposed_bytes,
                ) is None && o.spec_terminal() == terminal && o.spec_stages() == stages@
                    && o.spec_transferred_bytes() == transferred_bytes && o.spec_cleanup() == cleanup
                    && o.spec_residual() == residual && o.spec_exposed_bytes() == exposed_bytes
                    && o.spec_timing() == timing,
                Err(e) => adapter_outcome_rejection(
                    terminal is Ok,
                    stages@,
                    TransportAdapterStage::Spooling,
                    false,
                    false,
                    transferred_bytes,
                    cleanup,
                    residual is Some,
                    exposed_bytes,
                ) == Some(e),
            },
    {
        match check_adapter_outcome(
            terminal.is_ok(),
            stages.as_slice(),
            TransportAdapterStage::Spooling,
            false,
            false,
            transferred_bytes,
            cleanup,
            residual.is_some(),
            exposed_bytes,
        ) {
            Some(e) => Err(e),
            None => Ok(SpoolAdapterOutcome {
                terminal,
                stages,
                transferred_bytes,
                cleanup,
                residual,
                exposed_bytes,
                timing,
            }),
        }
    }
}

/// What a PackArchiveAcquisition adapter reports of one run.
pub struct PackArchiveAcquisitionAdapterOutcome {
    terminal: Result<StableByteValue, PackArchiveAcquisitionAdapterFailure>,
    stages: Vec<TransportAdapterStage>,
    transferred_bytes: u64,
    cleanup: TransportCleanupOutcome,
    residual: Option<ResidualTransportLocator>,
    exposed_bytes: Option<u64>,
    timing: TransportAdapterTimingInput,
}

impl PackArchiveAcquisitionAdapterOutcome {
    pub closed spec fn spec_terminal(&self) -> Result<StableByteValue, PackArchiveAcquisitionAdapterFailure> {
        self.terminal
    }

    pub closed spec fn spec_stages(&self) -> Seq<TransportAdapterStage> {
        self.stages@
    }

    pub closed spec fn spec_transferred_bytes(&self) -> u64 {
        self.transferred_bytes
    }

    pub closed spec fn spec_cleanup(&self) -> TransportCleanupOutcome {
        self.cleanup
    }

    pub closed spec fn spec_residual(&self) -> Option<ResidualTransportLocator> {
        self.residual
    }

    pub closed spec fn spec_exposed_bytes(&self) -> Option<u64> {
        self.exposed_bytes
    }

    /// Accepts a report only when it is coherent (see
    /// `adapter_outcome_rejection`); the required stage is
    /// `TransportAdapterStage::Acquisition`.
    pub fn try_new(
        terminal: Result<StableByteValue, PackArchiveAcquisitionAdapterFailure>,
        stages: Vec<TransportAdapterStage>,
        transferred_bytes: u64,
        cleanup: TransportCleanupOutcome,
        residual: Option<ResidualTransportLocator>,
        exposed_bytes: Option<u64>,
        timing: TransportAdapterTimingInput,
    ) -> (r: Result<Self, TransportOutcomeRejection>)
        ensures
            match r {
                Ok(o) => adapter_outcome_rejection(
                    terminal is Ok,
                    stages@,
                    TransportAdapterStage::Acquisition,
                    false,
                    false,
                    transferred_bytes,
                    cleanup,
                    residual is Some,
                    exposed_bytes,
                ) is None && o.spec_terminal() == terminal && o.spec_stages() == stages@
                    && o.spec_transferred_bytes() == transferred_bytes && o.spec_cleanup() == cleanup
                    && o.spec_residual() == residual && o.spec_exposed_bytes() == exposed_bytes,
                Err(e) => adapter_outcome_rejection(
                    terminal is Ok,
                    stages@,
                    TransportAdapterStage::Acquisition,
                    false,
                    false,
                    transferred_bytes,
                    cleanup,
                    residual is Some,
                    exposed_bytes,
                ) == Some(e),
            },
    {
        match check_adapter_outcome(
            terminal.is_ok(),
            stages.as_slice(),
            TransportAdapterStage::Acquisition,
            false,
            false,
            transferred_bytes,
            cleanup,
            residual.is_some(),
            exposed_bytes,
        ) {
            Some(e) => Err(e),
            None => Ok(PackArchiveAcquisitionAdapterOutcome {
                terminal,
                stages,
                transferred_bytes,
                cleanup,
                residual,
                exposed_bytes,
                timing,
            }),
        }
    }
}

/// What a PackArchivePublication adapter reports of one run.
pub struct PackArchivePublicationAdapterOutcome {
    terminal: Result<(), PackArchivePublicationAdapterFailure>,
    stages: Vec<TransportAdapterStage>,
    transferred_bytes: u64,
    actual_commit: Option<PublicationCommitStrength>,
    cleanup: TransportCleanupOutcome,
    residual: Option<ResidualTransportLocator>,
    exposed_bytes: Option<u64>,
    timing: TransportAdapterTimingInput,
}

impl PackArchivePublicationAdapterOutcome {
    pub closed spec fn spec_terminal(&self) -> Result<(), PackArchivePublicationAdapterFailure> {
        self.terminal
    }

    pub closed spec fn spec_actual_commit(&self) -> Option<PublicationCommitStrength> {
        self.actual_commit
    }

    pub closed spec fn spec_stages(&self) -> Seq<TransportAdapterStage> {
        self.stages@
    }

    pub closed spec fn spec_transferred_bytes(&self) -> u64 {
        self.transferred_bytes
    }

    pub closed spec fn spec_cleanup(&self) -> TransportCleanupOutcome {
        self.cleanup
    }

    pub closed spec fn spec_residual(&self) -> Option<ResidualTransportLocator> {
        self.residual
    }

    pub closed spec fn spec_exposed_bytes(&self) -> Option<u64> {
        self.exposed_bytes
    }

    /// Accepts a report only when it is coherent (see
    /// `adapter_outcome_rejection`); the required stage is
    /// `TransportAdapterStage::Commit`.
    pub fn try_new(
        terminal: Result<(), PackArchivePublicationAdapterFailure>,
        stages: Vec<TransportAdapterStage>,
        transferred_bytes: u64,
        actual_commit: Option<PublicationCommitStrength>,
        cleanup: TransportCleanupOutcome,
        residual: Option<ResidualTransportLocator>,
        exposed_bytes: Option<u64>,
        timing: TransportAdapterTimingInput,
    ) -> (r: Result<Self, TransportOutcomeRejection>)
        ensures
            match r {
                Ok(o) => adapter_outcome_rejection(
                    terminal is Ok,
                    stages@,
                    TransportAdapterStage::Commit,
                    true,
                    actual_commit is Some,
                    transferred_bytes,
                    cleanup,
                    residual is Some,
                    exposed_bytes,
                ) is None && o.spec_terminal() == terminal && o.spec_stages() == stages@
                    && o.spec_transferred_bytes() == transferred_bytes && o.spec_actual_commit()
                    == actual_commit && o.spec_cleanup() == cleanup && o.spec_residual() == residual
                    && o.spec_exposed_bytes() == exposed_bytes,
                Err(e) => adapter_outcome_rejection(
                    terminal is Ok,
                    stages@,
                    TransportAdapterStage::Commit,
                    true,
                    actual_commit is Some,
                    transferred_bytes,
                    cleanup,
                    residual is Some,
                    exposed_bytes,
                ) == Some(e),
            },
    {
        match check_adapter_outcome(
            terminal.is_ok(),
            stages.as_slice(),
            TransportAdapterStage::Commit,
            true,
            actual_commit.is_some(),
            transferred_bytes,
            cleanup,
            residual.is_some(),
            exposed_bytes,
        ) {
            Some(e) => Err(e),
            None => Ok(PackArchivePublicationAdapterOutcome {
                terminal,
                stages,
                transferred_bytes,
                actual_commit,
                cleanup,
                residual,
                exposed_bytes,
                timing,
            }),
        }
    }
}

/// What a ProjectMaterializationPublication adapter reports of one run.
pub struct ProjectMaterializationPublicationAdapterOutcome {
    terminal: Result<(), ProjectMaterializationPublicationAdapterFailure>,
    stages: Vec<TransportAdapterStage>,
    transferred_bytes: u64,
    actual_commit: Option<PublicationCommitStrength>,
    cleanup: TransportCleanupOutcome,
    residual: Option<ResidualTransportLocator>,
    exposed_bytes: Option<u64>,
    timing: TransportAdapterTimingInput,
}

impl ProjectMaterializationPublicationAdapterOutcome {
    pub closed spec fn spec_terminal(&self) -> Result<(), ProjectMaterializationPublicationAdapterFailure> {
        self.terminal
    }

    pub closed spec fn spec_actual_commit(&self) -> Option<PublicationCommitStrength> {
        self.actual_commit
    }

    pub closed spec fn spec_stages(&self) -> Seq<TransportAdapterStage> {
        self.stages@
    }

    pub closed spec fn spec_transferred_bytes(&self) -> u64 {
        self.transferred_bytes
    }

    pub closed spec fn spec_cleanup(&self) -> TransportCleanupOutcome {
        self.cleanup
    }

    pub closed spec fn spec_residual(&self) -> Option<ResidualTransportLocator> {
        self.residual
    }

    pub closed spec fn spec_exposed_bytes(&self) -> Option<u64> {
        self.exposed_bytes
    }

    /// Accepts a report only when it is coherent (see
    /// `adapter_outcome_rejection`); the required stage is
    /// `TransportAdapterStage::Commit`.
    pub fn try_new(
        terminal: Result<(), ProjectMaterializationPublicationAdapterFailure>,
        stages: Vec<TransportAdapterStage>,
        transferred_bytes: u64,
        actual_commit: Option<PublicationCommitStrength>,
        cleanup: TransportCleanupOutcome,
        residual: Option<ResidualTransportLocator>,
        exposed_bytes: Option<u64>,
        timing: TransportAdapterTimingInput,
    ) -> (r: Result<Self, TransportOutcomeRejection>)
        ensures
            match r {
                Ok(o) => adapter_outcome_rejection(
                    terminal is Ok,
                    stages@,
                    TransportAdapterStage::Commit,
                    true,
                    actual_commit is Some,
                    transferred_bytes,
                    cleanup,
                    residual is Some,
                    exposed_bytes,
                ) is None && o.spec_terminal() == terminal && o.spec_stages() == stages@
                    && o.spec_transferred_bytes() == transferred_bytes && o.spec_actual_commit()
                    == actual_commit && o.spec_cleanup() == cleanup && o.spec_residual() == residual
                    && o.spec_exposed_bytes() == exposed_bytes,
                Err(e) => adapter_outcome_rejection(
                    terminal is Ok,
                    stages@,
                    TransportAdapterStage::Commit,
                    true,
                    actual_commit is Some,
                    transferred_bytes,
                    cleanup,
                    residual is Some,
                    exposed_bytes,
                ) == Some(e),
            },
    {
        match check_adapter_outcome(
            terminal.is_ok(),
            stages.as_slice(),
            TransportAdapterStage::Commit,
            true,
            actual_commit.is_some(),
            transferred_bytes,
            cleanup,
            residual.is_some(),
            exposed_bytes,
        ) {
            Some(e) => Err(e),
            None => Ok(ProjectMaterializationPublicationAdapterOutcome {
                terminal,
                stages,
                transferred_bytes,
                actual_commit,
                cleanup,
                residual,
                exposed_bytes,
                timing,
            }),
        }
    }
}

/// What a ClosureExportPublication adapter reports of one run.
pub struct ClosureExportPublicationAdapterOutcome {
    terminal: Result<(), ClosureExportPublicationAdapterFailure>,
    stages: Vec<TransportAdapterStage>,
    transferred_bytes: u64,
    actual_commit: Option<PublicationCommitStrength>,
    cleanup: TransportCleanupOutcome,
    residual: Option<ResidualTransportLocator>,
    exposed_bytes: Option<u64>,
    timing: TransportAdapterTimingInput,
}

impl ClosureExportPublicationAdapterOutcome {
    pub closed spec fn spec_terminal(&self) -> Result<(), ClosureExportPublicationAdapterFailure> {
        self.terminal
    }

    pub closed spec fn spec_actual_commit(&self) -> Option<PublicationCommitStrength> {
        self.actual_commit
    }

    pub closed spec fn spec_stages(&self) -> Seq<TransportAdapterStage> {
        self.stages@
    }

    pub closed spec fn spec_transferred_bytes(&self) -> u64 {
        self.transferred_bytes
    }

    pub closed spec fn spec_cleanup(&self) -> TransportCleanupOutcome {
        self.cleanup
    }

    pub closed spec fn spec_residual(&self) -> Option<ResidualTransportLocator> {
        self.residual
    }

    pub closed spec fn spec_exposed_bytes(&self) -> Option<u64> {
        self.exposed_bytes
    }

    /// Accepts a report only when it is coherent (see
    /// `adapter_outcome_rejection`); the required stage is
    /// `TransportAdapterStage::Commit`.
    pub fn try_new(
        terminal: Result<(), ClosureExportPublicationAdapterFailure>,
        stages: Vec<TransportAdapterStage>,
        transferred_bytes: u64,
        actual_commit: Option<PublicationCommitStrength>,
        cleanup: TransportCleanupOutcome,
        residual: Option<ResidualTransportLocator>,
        exposed_bytes: Option<u64>,
        timing: TransportAdapterTimingInput,
    ) -> (r: Result<Self, TransportOutcomeRejection>)
        ensures
            match r {
                Ok(o) => adapter_outcome_rejection(
                    terminal is Ok,
                    stages@,
                    TransportAdapterStage::Commit,
                    true,
                    actual_commit is Some,
                    transferred_bytes,
                    cleanup,
                    residual is Some,
                    exposed_bytes,
                ) is None && o.spec_terminal() == terminal && o.spec_stages() == stages@
                    && o.spec_transferred_bytes() == transferred_bytes && o.spec_actual_commit()
                    == actual_commit && o.spec_cleanup() == cleanup && o.spec_residual() == residual
                    && o.spec_exposed_bytes() == exposed_bytes,
                Err(e) => adapter_outcome_rejection(
                    terminal is Ok,
                    stages@,
                    TransportAdapterStage::Commit,
                    true,
                    actual_commit is Some,
                    transferred_bytes,
                    cleanup,
                    residual is Some,
                    exposed_bytes,
                ) == Some(e),
            },
    {
        match check_adapter_outcome(
            terminal.is_ok(),
            stages.as_slice(),
            TransportAdapterStage::Commit,
            true,
            actual_commit.is_some(),
            transferred_bytes,
            cleanup,
            residual.is_some(),
            exposed_bytes,
        ) {
            Some(e) => Err(e),
            None => Ok(ClosureExportPublicationAdapterOutcome {
                terminal,
                stages,
                transferred_bytes,
                actual_commit,
                cleanup,
                residual,
                exposed_bytes,
                timing,
            }),
        }
    }
}

/// What a CompilationDelivery adapter reports of one run.
pub struct CompilationDeliveryAdapterOutcome {
    terminal: Result<(), CompilationDeliveryAdapterFailure>,
    stages: Vec<TransportAdapterStage>,
    transferred_bytes: u64,
    actual_commit: Option<PublicationCommitStrength>,
    cleanup: TransportCleanupOutcome,
    residual: Option<ResidualTransportLocator>,
    exposed_bytes: Option<u64>,
    timing: TransportAdapterTimingInput,
}

impl CompilationDeliveryAdapterOutcome {
    pub closed spec fn spec_terminal(&self) -> Result<(), CompilationDeliveryAdapterFailure> {
        self.terminal
    }

    pub closed spec fn spec_actual_commit(&self) -> Option<PublicationCommitStrength> {
        self.actual_commit
    }

    pub closed spec fn spec_stages(&self) -> Seq<TransportAdapterStage> {
        self.stages@
    }

    pub closed spec fn spec_transferred_bytes(&self) -> u64 {
        self.transferred_bytes
    }

    pub closed spec fn spec_cleanup(&self) -> TransportCleanupOutcome {
        self.cleanup
    }

    pub closed spec fn spec_residual(&self) -> Option<ResidualTransportLocator> {
        self.residual
    }

    pub closed spec fn spec_exposed_bytes(&self) -> Option<u64> {
        self.exposed_bytes
    }

    /// Accepts a report only when it is coherent (see
    /// `adapter_outcome_rejection`); the required stage is
    /// `TransportAdapterStage::Commit`.
    pub fn try_new(
        terminal: Result<(), CompilationDeliveryAdapterFailure>,
        stages: Vec<TransportAdapterStage>,
        transferred_bytes: u64,
        actual_commit: Option<PublicationCommitStrength>,
        cleanup: TransportCleanupOutcome,
        residual: Option<ResidualTransportLocator>,
        exposed_bytes: Option<u64>,
        timing: TransportAdapterTimingInput,
    ) -> (r: Result<Self, TransportOutcomeRejection>)
        ensures
            match r {
                Ok(o) => adapter_outcome_rejection(
                    terminal is Ok,
                    stages@,
                    TransportAdapterStage::Commit,
                    true,
                    actual_commit is Some,
                    transferred_bytes,
                    cleanup,
                    residual is Some,
                    exposed_bytes,
                ) is None && o.spec_terminal() == terminal && o.spec_stages() == stages@
                    && o.spec_transferred_bytes() == transferred_bytes && o.spec_actual_commit()
                    == actual_commit && o.spec_cleanup() == cleanup && o.spec_residual() == residual
                    && o.spec_exposed_bytes() == exposed_bytes,
                Err(e) => adapter_outcome_rejection(
                    terminal is Ok,
                    stages@,
                    TransportAdapterStage::Commit,
                    true,
                    actual_commit is Some,
                    transferred_bytes,
                    cleanup,
                    residual is Some,
                    exposed_bytes,
                ) == Some(e),
            },
    {
        match check_adapter_outcome(
            terminal.is_ok(),
            stages.as_slice(),
            TransportAdapterStage::Commit,
            true,
            actual_commit.is_some(),
            transferred_bytes,
            cleanup,
            residual.is_some(),
            exposed_bytes,
        ) {
            Some(e) => Err(e),
            None => Ok(CompilationDeliveryAdapterOutcome {
                terminal,
                stages,
                transferred_bytes,
                actual_commit,
                cleanup,
                residual,
                exposed_bytes,
                timing,
            }),
        }
    }
}

/// Where transport residue was left: a summary that is safe to show, and raw
/// bytes disclosed only to a caller that holds the disclosure capability.
#[derive(Clone, Debug)]
pub struct ResidualTransportLocator {
    safe_summary: String,
    raw: Vec<u8>,
}

impl ResidualTransportLocator {
    pub closed spec fn spec_safe_summary(&self) -> String {
        self.safe_summary
    }

    pub closed spec fn spec_raw(&self) -> Vec<u8> {
        self.raw
    }

    pub fn safe_summary(&self) -> (r: &str)
        ensures
            r@ == self.spec_safe_summary()@,
    {
        self.safe_summary.as_str()
    }

    /// A locator needs a non-empty safe summary.
    pub fn try_new(safe_summary: &str, capability_gated_raw: Vec<u8>) -> (r: Result<
        Self,
        TransportReceiptRejection,
    >)
        ensures
            match r {
                Ok(l) => safe_summary@.len() > 0 && l.spec_safe_summary()@ == safe_summary@
                    && l.spec_raw()@ == capability_gated_raw@,
                Err(e) => safe_summary@.len() == 0 && e == TransportReceiptRejection::IncoherentCleanup,
            },
    {
        if safe_summary.is_empty() {
            return Err(TransportReceiptRejection::IncoherentCleanup);
        }
        Ok(ResidualTransportLocator { safe_summary: safe_summary.to_owned(), raw: capability_gated_raw })
    }

    pub fn disclose_raw<'a>(&'a self, _capability: &'a ResidualLocatorDisclosureCapability) -> (r: &'a [u8])
        ensures
            r@ == self.spec_raw()@,
    {
        self.raw.as_slice()
    }
}

/// Proof that the caller chose to see raw residual locators.
pub struct ResidualLocatorDisclosureCapability {
    granted: bool,
}

impl ResidualLocatorDisclosureCapability {
    pub closed spec fn spec_granted(&self) -> bool {
        self.granted
    }

    pub fn explicitly_granted_by_caller() -> (r: Self)
        ensures
            r.spec_granted(),
    {
        ResidualLocatorDisclosureCapability { granted: true }
    }
}

/// The stages that an admitted transport went through, and what it left.
#[derive(Clone, Debug)]
pub struct TransportStageLedgerView {
    stages: Vec<TransportStage>,
    primary_terminal_stage: TransportStage,
    transferred_bytes: u64,
    actual_commit_strength: Option<PublicationCommitStrength>,
    cleanup_outcome: TransportCleanupOutcome,
    residual_locator: Option<ResidualTransportLocator>,
    exposed_bytes: Option<u64>,
    timing_status: TransportTimingStatus,
    timing_phases: Vec<TransportPhaseTiming>,
    structural_network_enforcement_reached: crate::EnforcementStrength,
    enforcement_reached: Vec<crate::EnforcementClaim>,
    interruption_winner: Option<TransportInterruptionWinner>,
}

impl TransportStageLedgerView {
    pub closed spec fn spec_stages(&self) -> Vec<TransportStage> {
        self.stages
    }

    pub closed spec fn spec_primary_terminal_stage(&self) -> TransportStage {
        self.primary_terminal_stage
    }

    pub closed spec fn spec_transferred_bytes(&self) -> u64 {
        self.transferred_bytes
    }

    pub closed spec fn spec_actual_commit_strength(&self) -> Option<PublicationCommitStrength> {
        self.actual_commit_strength
    }

    pub closed spec fn spec_cleanup_outcome(&self) -> TransportCleanupOutcome {
        self.cleanup_outcome
    }

    pub closed spec fn spec_residual_locator(&self) -> Option<ResidualTransportLocator> {
        self.residual_locator
    }

    pub closed spec fn spec_exposed_bytes(&self) -> Option<u64> {
        self.exposed_bytes
    }

    pub closed spec fn spec_timing_status(&self) -> TransportTimingStatus {
        self.timing_status
    }

    pub closed spec fn spec_timing_phases(&self) -> Vec<TransportPhaseTiming> {
        self.timing_phases
    }

    pub closed spec fn spec_structural_network_enforcement_reached(&self) -> crate::EnforcementStrength {
        self.structural_network_enforcement_reached
    }

    pub closed spec fn spec_enforcement_reached(&self) -> Vec<crate::EnforcementClaim> {
        self.enforcement_reached
    }

    pub closed spec fn spec_interruption_winner(&self) -> Option<TransportInterruptionWinner> {
        self.interruption_winner
    }

    pub fn stages(&self) -> (r: &[TransportStage])
        ensures
            r@ == self.spec_stages()@,
    {
        self.stages.as_slice()
    }

    pub fn primary_terminal_stage(&self) -> (r: TransportStage)
        ensures
            r == self.spec_primary_terminal_stage(),
    {
        self.primary_terminal_stage
    }

    pub fn transferred_bytes(&self) -> (r: u64)
        ensures
            r == self.spec_transferred_bytes(),
    {
        self.transferred_bytes
    }

    pub fn actual_commit_strength(&self) -> (r: Option<PublicationCommitStrength>)
        ensures
            r == self.spec_actual_commit_strength(),
    {
        self.actual_commit_strength
    }

    pub fn cleanup_outcome(&self) -> (r: TransportCleanupOutcome)
        ensures
            r == self.spec_cleanup_outcome(),
    {
        self.cleanup_outcome
    }

    pub fn residual_locator(&self) -> (r: Option<&ResidualTransportLocator>)
        ensures
            match r {
                Some(x) => self.spec_residual_locator() == Some(*x),
                None => self.spec_residual_locator() is None,
            },
    {
        self.residual_locator.as_ref()
    }

    pub fn exposed_bytes(&self) -> (r: Option<u64>)
        ensures
            r == self.spec_exposed_bytes(),
    {
        self.exposed_bytes
    }

    pub fn structural_network_enforcement_reached(&self) -> (r: crate::EnforcementStrength)
        ensures
            r == self.spec_structural_network_enforcement_reached(),
    {
        self.structural_network_enforcement_reached
    }

    pub fn enforcement_reached(&self) -> (r: &[crate::EnforcementClaim])
        ensures
            r@ == self.spec_enforcement_reached()@,
    {
        self.enforcement_reached.as_slice()
    }

    pub fn interruption_winner(&self) -> (r: Option<TransportInterruptionWinner>)
        ensures
            r == self.spec_interruption_winner(),
    {
        self.interruption_winner
    }

    pub fn timing(&self) -> (r: TransportTimingView<'_>)
        ensures
            r.status == self.spec_timing_status(),
            r.phases@ == self.spec_timing_phases()@,
    {
        TransportTimingView { status: self.timing_status, phases: self.timing_phases.as_slice() }
    }
}

/// What every transport receipt records, whichever role it belongs to.
#[derive(Clone, Debug)]
pub struct TransportReceipt {
    role: TransportRole,
    stage: TransportStage,
    status: TransportStatus,
    object_count: u64,
    transferred_bytes: u64,
    cleanup: TransportCleanupOutcome,
    content_identity: Option<ContentIdentity>,
    actual_commit: Option<PublicationCommitStrength>,
    requested_trust: crate::DeploymentTrustProfile,
    admitted_trust: crate::DeploymentTrustProfile,
    resource_profile: Option<crate::ResourceProfileIdentity>,
    adapter_class: String,
    timing_status: TransportTimingStatus,
    timing_phases: Vec<TransportPhaseTiming>,
}

impl TransportReceipt {
    pub closed spec fn spec_role(&self) -> TransportRole {
        self.role
    }

    pub closed spec fn spec_stage(&self) -> TransportStage {
        self.stage
    }

    pub closed spec fn spec_status(&self) -> TransportStatus {
        self.status
    }

    pub closed spec fn spec_object_count(&self) -> u64 {
        self.object_count
    }

    pub closed spec fn spec_transferred_bytes(&self) -> u64 {
        self.transferred_bytes
    }

    pub closed spec fn spec_cleanup(&self) -> TransportCleanupOutcome {
        self.cleanup
    }

    pub closed spec fn spec_content_identity(&self) -> Option<ContentIdentity> {
        self.content_identity
    }

    pub closed spec fn spec_actual_commit(&self) -> Option<PublicationCommitStrength> {
        self.actual_commit
    }

    pub closed spec fn spec_requested_trust(&self) -> crate::DeploymentTrustProfile {
        self.requested_trust
    }

    pub closed spec fn spec_admitted_trust(&self) -> crate::DeploymentTrustProfile {
        self.admitted_trust
    }

    pub closed spec fn spec_resource_profile(&self) -> Option<crate::ResourceProfileIdentity> {
        self.resource_profile
    }

    pub closed spec fn spec_adapter_class(&self) -> String {
        self.adapter_class
    }

    pub closed spec fn spec_timing_status(&self) -> TransportTimingStatus {
        self.timing_status
    }

    pub closed spec fn spec_timing_phases(&self) -> Vec<TransportPhaseTiming> {
        self.timing_phases
    }

    pub fn role(&self) -> (r: TransportRole)
        ensures
            r == self.spec_role(),
    {
        self.role
    }

    pub fn stage(&self) -> (r: TransportStage)
        ensures
            r == self.spec_stage(),
    {
        self.stage
    }

    pub fn status(&self) -> (r: TransportStatus)
        ensures
            r == self.spec_status(),
    {
        self.status
    }

    pub fn object_count(&self) -> (r: u64)
        ensures
            r == self.spec_object_count(),
    {
        self.object_count
    }

    pub fn transferred_bytes(&self) -> (r: u64)
        ensures
            r == self.spec_transferred_bytes(),
    {
        self.transferred_bytes
    }

    pub fn cleanup(&self) -> (r: &TransportCleanupOutcome)
        ensures
            *r == self.spec_cleanup(),
    {
        &self.cleanup
    }

    pub fn content_identity(&self) -> (r: Option<&ContentIdentity>)
        ensures
            match r {
                Some(x) => self.spec_content_identity() == Some(*x),
                None => self.spec_content_identity() is None,
            },
    {
        self.content_identity.as_ref()
    }

    pub fn actual_commit(&self) -> (r: Option<PublicationCommitStrength>)
        ensures
            r == self.spec_actual_commit(),
    {
        self.actual_commit
    }

    pub fn requested_trust(&self) -> (r: crate::DeploymentTrustProfile)
        ensures
            r == self.spec_requested_trust(),
    {
        self.requested_trust
    }

    pub fn admitted_trust(&self) -> (r: crate::DeploymentTrustProfile)
        ensures
            r == self.spec_admitted_trust(),
    {
        self.admitted_trust
    }

    pub fn resource_profile(&self) -> (r: Option<&crate::ResourceProfileIdentity>)
        ensures
            match r {
                Some(x) => self.spec_resource_profile() == Some(*x),
                None => self.spec_resource_profile() is None,
            },
    {
        self.resource_profile.as_ref()
    }

    pub fn adapter_class(&self) -> (r: &str)
        ensures
            r@ == self.spec_adapter_class()@,
    {
        self.adapter_class.as_str()
    }

    pub fn timing(&self) -> (r: TransportTimingView<'_>)
        ensures
            r.status == self.spec_timing_status(),
            r.phases@ == self.spec_timing_phases()@,
    {
        TransportTimingView { status: self.timing_status, phases: self.timing_phases.as_slice() }
    }
}

pub enum TransportOperationLimitsView<'a> {
    Spool(&'a SpoolResourceLimits),
    Transfer(&'a TransportResourceLimits),
}

pub struct TransportAdmissionRefusalView<'a> {
    pub requested_trust: crate::DeploymentTrustProfile,
    pub resource_profile: Option<&'a crate::ResourceProfileIdentity>,
    pub requested_limits: TransportOperationLimitsView<'a>,
    pub requested_network: crate::OperationNetworkPolicy,
    pub covered_roles: &'a [TransportFacilityRole],
    pub contractual_no_network: bool,
    pub requested_structural_network_enforcement: crate::EnforcementStrength,
    pub requested_concurrency: NonZeroUsize,
    pub requested_commit: Option<PublicationCommitStrength>,
    pub requested_cleanup: TransportCleanupRequirement,
    pub interruption: crate::OperationInterruptionStrength,
    pub cancellation_present: bool,
    pub monotonic_domain: &'a crate::MonotonicTimeDomain,
    pub required_enforcement: &'a [crate::EnforcementClaim],
    pub timing_requested: bool,
    pub deadline: &'a OperationDeadline,
    pub reason: TransportAdmissionRefusalReason,
}

pub struct TransportAdmissionRecordView<'a> {
    pub requested_trust: crate::DeploymentTrustProfile,
    pub admitted_trust: crate::DeploymentTrustProfile,
    pub resource_profile: Option<&'a crate::ResourceProfileIdentity>,
    pub requested_limits: TransportOperationLimitsView<'a>,
    pub admitted_limits: TransportOperationLimitsView<'a>,
    pub requested_network: crate::OperationNetworkPolicy,
    pub admitted_network: crate::OperationNetworkPolicy,
    pub covered_roles: &'a [TransportFacilityRole],
    pub contractual_no_network: bool,
    pub requested_structural_network_enforcement: crate::EnforcementStrength,
    pub admitted_structural_network_enforcement: crate::EnforcementStrength,
    pub requested_concurrency: NonZeroUsize,
    pub admitted_concurrency: NonZeroUsize,
    pub concurrency_constraints: &'a [crate::AdmissionConstraint],
    pub requested_commit: Option<PublicationCommitStrength>,
    pub admitted_commit: Option<PublicationCommitStrength>,
    pub requested_cleanup: TransportCleanupRequirement,
    pub admitted_cleanup: TransportCleanupRequirement,
    pub requested_interruption: crate::OperationInterruptionStrength,
    pub admitted_interruption: crate::OperationInterruptionStrength,
    pub cancellation_present: bool,
    pub monotonic_domain: &'a crate::MonotonicTimeDomain,
    pub enforcement: crate::EnforcementAdmissionView,
    pub timing_requested: bool,
    pub timing_reporting_admitted: bool,
    pub deadline: &'a OperationDeadline,
}

/// The receipt of one transport of this role: refused before any transfer,
/// or admitted with the ledger of what happened.
#[derive(Clone, Debug)]
pub struct SpoolTransportReceipt {
    common: TransportReceipt,
    refusal: Option<TransportAdmissionRefusalReason>,
    ledger: Option<TransportStageLedgerView>,
    expected_content_identity: Option<ContentIdentity>,
    actual_content_identity: Option<ContentIdentity>,
}

impl SpoolTransportReceipt {
    pub closed spec fn spec_common(&self) -> TransportReceipt {
        self.common
    }

    pub closed spec fn spec_refusal(&self) -> Option<TransportAdmissionRefusalReason> {
        self.refusal
    }

    pub closed spec fn spec_ledger(&self) -> Option<TransportStageLedgerView> {
        self.ledger
    }

    pub closed spec fn spec_expected_content_identity(&self) -> Option<ContentIdentity> {
        self.expected_content_identity
    }

    pub closed spec fn spec_actual_content_identity(&self) -> Option<ContentIdentity> {
        self.actual_content_identity
    }

    pub fn common(&self) -> (r: &TransportReceipt)
        ensures
            *r == self.spec_common(),
    {
        &self.common
    }

    pub fn refusal(&self) -> (r: Option<TransportAdmissionRefusalReason>)
        ensures
            r == self.spec_refusal(),
    {
        self.refusal
    }

    pub fn ledger(&self) -> (r: Option<&TransportStageLedgerView>)
        ensures
            match r {
                Some(x) => self.spec_ledger() == Some(*x),
                None => self.spec_ledger() is None,
            },
    {
        self.ledger.as_ref()
    }

    pub fn expected_content_identity(&self) -> (r: Option<&ContentIdentity>)
        ensures
            match r {
                Some(x) => self.spec_expected_content_identity() == Some(*x),
                None => self.spec_expected_content_identity() is None,
            },
    {
        self.expected_content_identity.as_ref()
    }

    pub fn actual_content_identity(&self) -> (r: Option<&ContentIdentity>)
        ensures
            match r {
                Some(x) => self.spec_actual_content_identity() == Some(*x),
                None => self.spec_actual_content_identity() is None,
            },
    {
        self.actual_content_identity.as_ref()
    }

    pub fn status(&self) -> (r: TransportStatus)
        ensures
            r == self.spec_common().spec_status(),
    {
        self.common.status()
    }
}

/// The receipt of one transport of this role: refused before any transfer,
/// or admitted with the ledger of what happened.
#[derive(Clone, Debug)]
pub struct PackArchiveAcquisitionTransportReceipt {
    common: TransportReceipt,
    refusal: Option<TransportAdmissionRefusalReason>,
    ledger: Option<TransportStageLedgerView>,
    expected_archive_identity: Option<ContentIdentity>,
    acquired_archive_identity: Option<ContentIdentity>,
}

impl PackArchiveAcquisitionTransportReceipt {
    pub closed spec fn spec_common(&self) -> TransportReceipt {
        self.common
    }

    pub closed spec fn spec_refusal(&self) -> Option<TransportAdmissionRefusalReason> {
        self.refusal
    }

    pub closed spec fn spec_ledger(&self) -> Option<TransportStageLedgerView> {
        self.ledger
    }

    pub closed spec fn spec_expected_archive_identity(&self) -> Option<ContentIdentity> {
        self.expected_archive_identity
    }

    pub closed spec fn spec_acquired_archive_identity(&self) -> Option<ContentIdentity> {
        self.acquired_archive_identity
    }

    pub fn common(&self) -> (r: &TransportReceipt)
        ensures
            *r == self.spec_common(),
    {
        &self.common
    }

    pub fn refusal(&self) -> (r: Option<TransportAdmissionRefusalReason>)
        ensures
            r == self.spec_refusal(),
    {
        self.refusal
    }

    pub fn ledger(&self) -> (r: Option<&TransportStageLedgerView>)
        ensures
            match r {
                Some(x) => self.spec_ledger() == Some(*x),
                None => self.spec_ledger() is None,
            },
    {
        self.ledger.as_ref()
    }

    pub fn expected_archive_identity(&self) -> (r: Option<&ContentIdentity>)
        ensures
            match r {
                Some(x) => self.spec_expected_archive_identity() == Some(*x),
                None => self.spec_expected_archive_identity() is None,
            },
    {
        self.expected_archive_identity.as_ref()
    }

    pub fn acquired_archive_identity(&self) -> (r: Option<&ContentIdentity>)
        ensures
            match r {
                Some(x) => self.spec_acquired_archive_identity() == Some(*x),
                None => self.spec_acquired_archive_identity() is None,
            },
    {
        self.acquired_archive_identity.as_ref()
    }

    pub fn status(&self) -> (r: TransportStatus)
        ensures
            r == self.spec_common().spec_status(),
    {
        self.common.status()
    }
}

/// The result of one spool operation and its receipt.
pub struct SpoolOutcome {
    terminal: Result<StableByteValue, SpoolFailure>,
    receipt: SpoolTransportReceipt,
}

impl SpoolOutcome {
    pub closed spec fn spec_terminal(&self) -> Result<StableByteValue, SpoolFailure> {
        self.terminal
    }

    pub closed spec fn spec_receipt(&self) -> SpoolTransportReceipt {
        self.receipt
    }

    pub fn terminal(&self) -> (r: &Result<StableByteValue, SpoolFailure>)
        ensures
            *r == self.spec_terminal(),
    {
        &self.terminal
    }

    pub fn receipt(&self) -> (r: &SpoolTransportReceipt)
        ensures
            *r == self.spec_receipt(),
    {
        &self.receipt
    }
}

/// The result of one pack archive acquisition and its receipt.
pub struct PackArchiveAcquisitionOutcome {
    terminal: Result<StableByteValue, TransportFailure>,
    receipt: PackArchiveAcquisitionTransportReceipt,
}

impl PackArchiveAcquisitionOutcome {
    pub closed spec fn spec_terminal(&self) -> Result<StableByteValue, TransportFailure> {
        self.terminal
    }

    pub closed spec fn spec_receipt(&self) -> PackArchiveAcquisitionTransportReceipt {
        self.receipt
    }

    pub fn terminal(&self) -> (r: &Result<StableByteValue, TransportFailure>)
        ensures
            *r == self.spec_terminal(),
    {
        &self.terminal
    }

    pub fn receipt(&self) -> (r: &PackArchiveAcquisitionTransportReceipt)
        ensures
            *r == self.spec_receipt(),
    {
        &self.receipt
    }
}

/// The result of one transport and the receipt that reports it.
pub struct TransportOutcome<T> {
    terminal: Result<T, TransportFailure>,
    receipt: TransportReceipt,
}

/// Why a terminal result and a receipt cannot stand together, if they cannot:
/// a success is reported as transferred or committed, a failure is never
/// reported as committed, and a failure's cleanup is the receipt's cleanup.
pub open spec fn transport_outcome_rejection<T>(terminal: Result<T, TransportFailure>, receipt: TransportReceipt) -> Option<
    TransportOutcomeRejection,
> {
    match terminal {
        Ok(_) => if receipt.spec_status() == TransportStatus::Transferred || receipt.spec_status()
            == TransportStatus::Committed {
            None
        } else {
            Some(TransportOutcomeRejection::WrongReport)
        },
        Err(f) => if receipt.spec_status() == TransportStatus::Committed {
            Some(TransportOutcomeRejection::FailureAfterCommit)
        } else if f.cleanup != receipt.spec_cleanup() {
            Some(TransportOutcomeRejection::IncoherentCleanup)
        } else {
            None
        },
    }
}

impl<T> TransportOutcome<T> {
    pub closed spec fn spec_terminal(&self) -> Result<T, TransportFailure> {
        self.terminal
    }

    pub closed spec fn spec_receipt(&self) -> TransportReceipt {
        self.receipt
    }

    pub fn try_new(terminal: Result<T, TransportFailure>, receipt: TransportReceipt) -> (r: Result<
        Self,
        TransportOutcomeRejection,
    >)
        ensures
            match r {
                Ok(o) => transport_outcome_rejection(terminal, receipt) is None && o.spec_terminal()
                    == terminal && o.spec_receipt() == receipt,
                Err(e) => transport_outcome_rejection(terminal, receipt) == Some(e),
            },
    {
        let status = receipt.status();
        match &terminal {
            Ok(_) => {
                match status {
                    TransportStatus::Transferred | TransportStatus::Committed => {},
                    _ => return Err(TransportOutcomeRejection::WrongReport),
                }
            },
            Err(f) => {
                if status == TransportStatus::Committed {
                    return Err(TransportOutcomeRejection::FailureAfterCommit);
                }
                if f.cleanup != *receipt.cleanup() {
                    return Err(TransportOutcomeRejection::IncoherentCleanup);
                }
            },
        }
        Ok(TransportOutcome { terminal, receipt })
    }

    pub fn terminal(&self) -> (r: &Result<T, TransportFailure>)
        ensures
            *r == self.spec_terminal(),
    {
        &self.terminal
    }

    pub fn receipt(&self) -> (r: &TransportReceipt)
        ensures
            *r == self.spec_receipt(),
    {
        &self.receipt
    }
}

/// A spool facility supplied by an adapter: it turns a byte source into a
/// stable byte value under the given controls.
pub trait SyncSpoolFacility {
    spec fn spec_descriptor(&self) -> SpoolFacilityCapabilityDescriptor;

    fn descriptor(&self) -> (r: &SpoolFacilityCapabilityDescriptor)
        ensures
            *r == self.spec_descriptor(),
    ;

    fn spool<B: SyncByteSource + ?Sized>(&mut self, source: &mut B, controls: SpoolControls<'_>) -> SpoolAdapterOutcome;
}

/// A pack archive acquirer supplied by an adapter.
pub trait SyncPackArchiveAcquirer {
    type Locator: ?Sized;

    spec fn spec_descriptor(&self) -> PackArchiveAcquirerCapabilityDescriptor;

    fn descriptor(&self) -> (r: &PackArchiveAcquirerCapabilityDescriptor)
        ensures
            *r == self.spec_descriptor(),
    ;

    fn acquire(&self, locator: &Self::Locator, controls: AcquisitionTransportControls<'_>) -> PackArchiveAcquisitionAdapterOutcome;
}

/// A spool facility that keeps the spooled bytes in memory.
pub struct MemorySpool {
    descriptor: SpoolFacilityCapabilityDescriptor,
}

impl MemorySpool {
    pub closed spec fn spec_terms(&self) -> TransportCapabilityTerms {
        self.descriptor.spec_terms()
    }

    /// An in-memory spool offers no network use, one transfer at a time,
    /// complete cleanup before return and cooperative interruption.
    pub fn new() -> (r: Self)
        ensures
            r.spec_terms().network == crate::SelectedNetworkContract::NoNetwork,
            r.spec_terms().transfer_concurrency.spec_get() == 1,
            r.spec_terms().cleanup_requirements@ == seq![TransportCleanupRequirement::CompleteBeforeReturn],
            r.spec_terms().interruption == crate::OperationInterruptionStrength::Cooperative,
            r.spec_terms().enforcement@.len() == 0,
            !r.spec_terms().timing_reporting,
    {
        let one = NonZeroUsize::new(1).unwrap();
        let mut cleanups: Vec<TransportCleanupRequirement> = Vec::new();
        cleanups.push(TransportCleanupRequirement::CompleteBeforeReturn);
        let terms = TransportCapabilityTerms {
            network: crate::SelectedNetworkContract::NoNetwork,
            transfer_concurrency: one,
            commit_strengths: Vec::new(),
            cleanup_requirements: cleanups,
            interruption: crate::OperationInterruptionStrength::Cooperative,
            enforcement: Vec::new(),
            timing_reporting: false,
        };
        let class = crate::OperationalCapabilityClass::from_trusted_literal("typst-pack:memory-spool@1");
        MemorySpool { descriptor: SpoolFacilityCapabilityDescriptor { class, terms } }
    }
}

/// Appends the first `n` bytes of `chunk` to `bytes`.
fn append_prefix(bytes: &mut Vec<u8>, chunk: &[u8], n: usize)
    requires
        n <= chunk@.len(),
    ensures
        final(bytes)@ == old(bytes)@ + chunk@.subrange(0, n as int),
{
    let ghost before = bytes@;
    let mut j: usize = 0;
    while j < n
        invariant
            j <= n,
            n <= chunk@.len(),
            bytes@ == before + chunk@.subrange(0, j as int),
        decreases n - j,
    {
        bytes.push(chunk[j]);
        j = j + 1;
    }
}

impl SyncSpoolFacility for MemorySpool {
    closed spec fn spec_descriptor(&self) -> SpoolFacilityCapabilityDescriptor {
        self.descriptor
    }

    fn descriptor(&self) -> (r: &SpoolFacilityCapabilityDescriptor) {
        &self.descriptor
    }

    /// Reads the source to its end into memory. Reading stops with a failure
    /// when the source fails, claims more bytes than it was given, the
    /// operation is interrupted, or the source exceeds the admitted limit.
    ///
    /// The report has the single stage `Spooling`, needs no cleanup, leaves
    /// no residue and reports no timing; the transferred count is the number
    /// of bytes kept, which never exceeds the admitted source limit, and a
    /// successful value holds exactly that many bytes.
    fn spool<B: SyncByteSource + ?Sized>(&mut self, source: &mut B, controls: SpoolControls<'_>) -> (r: SpoolAdapterOutcome)
        ensures
            r.spec_stages() == seq![TransportAdapterStage::Spooling],
            r.spec_transferred_bytes() <= controls.spec_limits().spec_admitted().spec_source_bytes(),
            r.spec_cleanup() == TransportCleanupOutcome::NotRequired,
            r.spec_residual() is None,
            r.spec_exposed_bytes() is None,
            r.spec_timing() == TransportAdapterTimingInput::NotRequested,
            match r.spec_terminal() {
                Ok(v) => v@.len() == r.spec_transferred_bytes(),
                Err(f) => f is Cancelled || f is Source || f is ResourceLimit,
            },
    {
        let limit = controls.limits().source_bytes();
        let mut bytes: Vec<u8> = Vec::new();
        let mut buffer: Vec<u8> = vec![0u8; 4096];
        let mut failure: Option<SpoolAdapterFailure> = None;
        loop
            invariant
                bytes@.len() <= limit,
                match failure {
                    Some(f) => f is Cancelled || f is Source || f is ResourceLimit,
                    None => true,
                },
            decreases limit - bytes@.len(),
        {
            if controls.interruption().interrupted() {
                failure = Some(SpoolAdapterFailure::Cancelled);
                break;
            }
            let read = source.read(buffer.as_mut_slice());
            match read {
                Err(f) => {
                    failure = Some(SpoolAdapterFailure::Source(f));
                    break;
                },
                Ok(n) => {
                    if n == 0 {
                        break;
                    }
                    if n > buffer.len() {
                        failure = Some(SpoolAdapterFailure::Source(ByteSourceFailure::AdapterContractViolation));
                        break;
                    }
                    if n as u64 > limit - bytes.len() as u64 {
                        failure = Some(SpoolAdapterFailure::ResourceLimit);
                        break;
                    }
                    append_prefix(&mut bytes, buffer.as_slice(), n);
                },
            }
        }
        let transferred = bytes.len() as u64;
        let mut stages: Vec<TransportAdapterStage> = Vec::new();
        stages.push(TransportAdapterStage::Spooling);
        assert(stages@[0] == TransportAdapterStage::Spooling);
        let terminal = match failure {
            Some(f) => Err(f),
            None => match StableByteValue::from_vec(controls.admission(), bytes) {
                Ok(v) => Ok(v),
                Err(_) => Err(SpoolAdapterFailure::InternalIntegrity),
            },
        };
        let outcome = SpoolAdapterOutcome::try_new(
            terminal,
            stages,
            transferred,
            TransportCleanupOutcome::NotRequired,
            None,
            None,
            TransportAdapterTimingInput::NotRequested,
        );
        match outcome {
            Ok(o) => o,
            Err(_) => {
                assert(false);
                SpoolAdapterOutcome {
                    terminal: Err(SpoolAdapterFailure::InternalIntegrity),
                    stages: Vec::new(),
                    transferred_bytes: 0,
                    cleanup: TransportCleanupOutcome::NotRequired,
                    residual: None,
                    exposed_bytes: None,
                    timing: TransportAdapterTimingInput::NotRequested,
                }
            },
        }
    }
}

/// The ledger stage that an adapter stage is recorded as.
pub open spec fn ledger_stage(s: TransportAdapterStage) -> TransportStage {
    match s {
        TransportAdapterStage::ReferenceResolution => TransportStage::ReferenceResolution,
        TransportAdapterStage::Acquisition => TransportStage::Acquisition,
        TransportAdapterStage::Spooling => TransportStage::Spooling,
        TransportAdapterStage::Transfer => TransportStage::Transfer,
        TransportAdapterStage::Verification => TransportStage::Verification,
        TransportAdapterStage::Commit => TransportStage::Commit,
        TransportAdapterStage::Cleanup => TransportStage::Cleanup,
    }
}

fn map_stage(s: TransportAdapterStage) -> (r: TransportStage)
    ensures
        r == ledger_stage(s),
{
    match s {
        TransportAdapterStage::ReferenceResolution => TransportStage::ReferenceResolution,
        TransportAdapterStage::Acquisition => TransportStage::Acquisition,
        TransportAdapterStage::Spooling => TransportStage::Spooling,
        TransportAdapterStage::Transfer => TransportStage::Transfer,
        TransportAdapterStage::Verification => TransportStage::Verification,
        TransportAdapterStage::Commit => TransportStage::Commit,
        TransportAdapterStage::Cleanup => TransportStage::Cleanup,
    }
}

/// The ledger records admission, then each adapter stage in order, then
/// completion when the transport succeeded.
fn ledger_stages(stages: &[TransportAdapterStage], succeeded: bool) -> (r: Vec<TransportStage>)
    ensures
        r@.len() == stages@.len() + 1 + (if succeeded { 1int } else { 0int }),
        r@[0] == TransportStage::Admission,
        forall|i: int| 0 <= i < stages@.len() ==> r@[i + 1] == ledger_stage(#[trigger] stages@[i]),
        succeeded ==> r@[r@.len() - 1] == TransportStage::Complete,
{
    let mut r: Vec<TransportStage> = Vec::new();
    r.push(TransportStage::Admission);
    let mut i: usize = 0;
    while i < stages.len()
        invariant
            i <= stages@.len(),
            r@.len() == i + 1,
            r@[0] == TransportStage::Admission,
            forall|k: int| 0 <= k < i ==> r@[k + 1] == ledger_stage(#[trigger] stages@[k]),
        decreases stages@.len() - i,
    {
        r.push(map_stage(stages[i]));
        i = i + 1;
    }
    if succeeded {
        r.push(TransportStage::Complete);
    }
    r
}

fn ledger_phases(phases: &[TransportAdapterPhaseTiming]) -> (r: Vec<TransportPhaseTiming>)
    ensures
        r@.len() == phases@.len(),
        forall|i: int|
            0 <= i < phases@.len() ==> r@[i].stage == ledger_stage(#[trigger] phases@[i].stage)
                && r@[i].elapsed_ticks == phases@[i].elapsed_ticks,
{
    let mut r: Vec<TransportPhaseTiming> = Vec::new();
    let mut i: usize = 0;
    while i < phases.len()
        invariant
            i <= phases@.len(),
            r@.len() == i,
            forall|k: int|
                0 <= k < i ==> r@[k].stage == ledger_stage(#[trigger] phases@[k].stage)
                    && r@[k].elapsed_ticks == phases@[k].elapsed_ticks,
        decreases phases@.len() - i,
    {
        r.push(TransportPhaseTiming { stage: map_stage(phases[i].stage), elapsed_ticks: phases[i].elapsed_ticks });
        i = i + 1;
    }
    r
}

/// The timing status reported for an adapter's timing input.
pub open spec fn ledger_timing_status(t: TransportAdapterTimingInput) -> TransportTimingStatus {
    match t {
        TransportAdapterTimingInput::NotRequested => TransportTimingStatus::NotRequested,
        TransportAdapterTimingInput::Complete(_) => TransportTimingStatus::Complete,
        TransportAdapterTimingInput::Limited(_) => TransportTimingStatus::Limited,
        TransportAdapterTimingInput::Unavailable => TransportTimingStatus::Unavailable,
    }
}

fn ledger_timing(t: &TransportAdapterTimingInput) -> (r: (TransportTimingStatus, Vec<TransportPhaseTiming>))
    ensures
        r.0 == ledger_timing_status(*t),
{
    match t {
        TransportAdapterTimingInput::NotRequested => (TransportTimingStatus::NotRequested, Vec::new()),
        TransportAdapterTimingInput::Complete(p) => (TransportTimingStatus::Complete, ledger_phases(p.as_slice())),
        TransportAdapterTimingInput::Limited(p) => (TransportTimingStatus::Limited, ledger_phases(p.as_slice())),
        TransportAdapterTimingInput::Unavailable => (TransportTimingStatus::Unavailable, Vec::new()),
    }
}

/// The receipt of a transport that was refused before any transfer.
fn refused_receipt(
    role: TransportRole,
    requested_trust: crate::DeploymentTrustProfile,
    admitted_trust: crate::DeploymentTrustProfile,
    adapter_class: String,
) -> (r: TransportReceipt)
    ensures
        r.spec_role() == role,
        r.spec_status() == TransportStatus::Refused,
        r.spec_stage() == TransportStage::Admission,
        r.spec_transferred_bytes() == 0,
        r.spec_cleanup() == TransportCleanupOutcome::NotRequired,
{
    TransportReceipt {
        role,
        stage: TransportStage::Admission,
        status: TransportStatus::Refused,
        object_count: 0,
        transferred_bytes: 0,
        cleanup: TransportCleanupOutcome::NotRequired,
        content_identity: None,
        actual_commit: None,
        requested_trust,
        admitted_trust,
        resource_profile: None,
        adapter_class,
        timing_status: TransportTimingStatus::NotRequested,
        timing_phases: Vec::new(),
    }
}

/// The ledger and the common receipt of an admitted transport.
fn settle_transport(
    role: TransportRole,
    status: TransportStatus,
    succeeded: bool,
    stages: &[TransportAdapterStage],
    transferred_bytes: u64,
    actual_commit: Option<PublicationCommitStrength>,
    cleanup: TransportCleanupOutcome,
    residual: Option<ResidualTransportLocator>,
    exposed_bytes: Option<u64>,
    timing: &TransportAdapterTimingInput,
    requested_trust: crate::DeploymentTrustProfile,
    admitted_trust: crate::DeploymentTrustProfile,
    adapter_class: String,
) -> (r: (TransportReceipt, TransportStageLedgerView))
    ensures
        r.0.spec_role() == role,
        r.0.spec_status() == status,
        r.0.spec_transferred_bytes() == transferred_bytes,
        r.0.spec_cleanup() == cleanup,
        r.0.spec_actual_commit() == actual_commit,
        r.1.spec_transferred_bytes() == transferred_bytes,
        r.1.spec_cleanup_outcome() == cleanup,
        r.1.spec_actual_commit_strength() == actual_commit,
        r.1.spec_residual_locator() == residual,
        r.1.spec_exposed_bytes() == exposed_bytes,
        r.1.spec_stages()@[0] == TransportStage::Admission,
{
    let ledger_stage_list = ledger_stages(stages, succeeded);
    let last = ledger_stage_list[ledger_stage_list.len() - 1];
    let (timing_status, phases) = ledger_timing(timing);
    let (timing_status2, phases2) = ledger_timing(timing);
    let ledger = TransportStageLedgerView {
        stages: ledger_stage_list,
        primary_terminal_stage: last,
        transferred_bytes,
        actual_commit_strength: actual_commit,
        cleanup_outcome: cleanup,
        residual_locator: residual,
        exposed_bytes,
        timing_status,
        timing_phases: phases,
        structural_network_enforcement_reached: crate::EnforcementStrength::NotClaimed,
        enforcement_reached: Vec::new(),
        interruption_winner: None,
    };
    let receipt = TransportReceipt {
        role,
        stage: last,
        status,
        object_count: if succeeded { 1 } else { 0 },
        transferred_bytes,
        cleanup,
        content_identity: None,
        actual_commit,
        requested_trust,
        admitted_trust,
        resource_profile: None,
        adapter_class,
        timing_status: timing_status2,
        timing_phases: phases2,
    };
    (receipt, ledger)
}

/// The primary failure that a spool adapter's failure is recorded as: each
/// adapter failure keeps its own kind.
pub open spec fn spool_primary_of(f: SpoolAdapterFailure) -> SpoolPrimaryFailure {
    match f {
        SpoolAdapterFailure::Source(s) => SpoolPrimaryFailure::Source(s),
        SpoolAdapterFailure::ExpectedIdentityMismatch => SpoolPrimaryFailure::ExpectedIdentityMismatch,
        SpoolAdapterFailure::ResourceLimit => SpoolPrimaryFailure::ResourceLimit,
        SpoolAdapterFailure::Cancelled => SpoolPrimaryFailure::Cancelled,
        SpoolAdapterFailure::Deadline => SpoolPrimaryFailure::Deadline,
        SpoolAdapterFailure::InternalIntegrity => SpoolPrimaryFailure::InternalIntegrity,
    }
}

fn spool_primary_failure(f: SpoolAdapterFailure) -> (r: SpoolPrimaryFailure)
    ensures
        r == spool_primary_of(f),
{
    match f {
        SpoolAdapterFailure::Source(s) => SpoolPrimaryFailure::Source(s),
        SpoolAdapterFailure::ExpectedIdentityMismatch => SpoolPrimaryFailure::ExpectedIdentityMismatch,
        SpoolAdapterFailure::ResourceLimit => SpoolPrimaryFailure::ResourceLimit,
        SpoolAdapterFailure::Cancelled => SpoolPrimaryFailure::Cancelled,
        SpoolAdapterFailure::Deadline => SpoolPrimaryFailure::Deadline,
        SpoolAdapterFailure::InternalIntegrity => SpoolPrimaryFailure::InternalIntegrity,
    }
}

/// Whether an adapter's cleanup meets what the operation required: residue
/// may only be reported where a residual locator was permitted.
pub open spec fn cleanup_meets(required: TransportCleanupRequirement, outcome: TransportCleanupOutcome) -> bool {
    !(required == TransportCleanupRequirement::CompleteBeforeReturn && outcome
        == TransportCleanupOutcome::ResidualReported)
}

fn check_cleanup_meets(required: TransportCleanupRequirement, outcome: TransportCleanupOutcome) -> (r: bool)
    ensures
        r == cleanup_meets(required, outcome),
{
    !(required == TransportCleanupRequirement::CompleteBeforeReturn && outcome
        == TransportCleanupOutcome::ResidualReported)
}

/// Spools `source` through `facility`.
///
/// The facility's declared terms are checked against the request first: a
/// refusal yields an admission failure and a refused receipt, and the facility
/// is not called. Otherwise the facility's report is recorded; the outcome
/// succeeds exactly when the receipt says the bytes were transferred, which
/// requires the facility to have succeeded with the cleanup the operation
/// required.
pub fn spool_sync<S: SyncSpoolFacility + ?Sized, B: SyncByteSource + ?Sized>(
    facility: &mut S,
    source: &mut B,
    controls: SpoolControls<'_>,
) -> (out: SpoolOutcome)
    ensures
        match transport_refusal(
            old(facility).spec_descriptor().spec_terms(),
            controls.spec_request().network,
            controls.spec_request().interruption,
            None,
            controls.spec_request().cleanup,
            controls.spec_request().required_enforcement@,
            controls.spec_request().timing_requested,
        ) {
            Some(reason) => out.spec_terminal() == Err::<StableByteValue, SpoolFailure>(
                SpoolFailure {
                    primary: SpoolPrimaryFailure::Admission(reason),
                    cleanup: TransportCleanupOutcome::NotRequired,
                },
            ) && out.spec_receipt().spec_common().spec_status() == TransportStatus::Refused
                && out.spec_receipt().spec_refusal() == Some(reason)
                && out.spec_receipt().spec_ledger() is None,
            None => out.spec_receipt().spec_refusal() is None && out.spec_receipt().spec_ledger() is Some
                && (out.spec_terminal() is Ok <==> out.spec_receipt().spec_common().spec_status()
                == TransportStatus::Transferred) && (out.spec_terminal() is Err
                ==> out.spec_receipt().spec_common().spec_status() == TransportStatus::Failed),
        },
{
    let requested_trust = controls.admission().requested();
    let admitted_trust = controls.admission().admitted();
    let cleanup_required = controls.requested_cleanup();
    let expected: Option<ContentIdentity> = match controls.expected_identity() {
        Some(i) => Some(i.clone()),
        None => None,
    };
    let admitted = admit_transport(
        facility.descriptor().terms(),
        controls.request().network,
        controls.request().transfer_concurrency,
        controls.request().interruption,
        None,
        controls.request().cleanup,
        controls.request().required_enforcement.as_slice(),
        controls.request().timing_requested,
    );
    let adapter_class = facility.descriptor().class().as_str().to_owned();
    if let Err(reason) = admitted {
        let common = refused_receipt(TransportRole::Spool, requested_trust, admitted_trust, adapter_class);
        return SpoolOutcome {
            terminal: Err(
                SpoolFailure {
                    primary: SpoolPrimaryFailure::Admission(reason),
                    cleanup: TransportCleanupOutcome::NotRequired,
                },
            ),
            receipt: SpoolTransportReceipt {
                common,
                refusal: Some(reason),
                ledger: None,
                expected_content_identity: expected,
                actual_content_identity: None,
            },
        };
    }
    let outcome = facility.spool(source, controls);
    let SpoolAdapterOutcome { terminal, stages, transferred_bytes, cleanup, residual, exposed_bytes, timing } =
        outcome;
    let cleanup_ok = check_cleanup_meets(cleanup_required, cleanup);
    let settled: Result<StableByteValue, SpoolFailure> = match terminal {
        Ok(v) => if cleanup_ok {
            Ok(v)
        } else {
            Err(SpoolFailure { primary: SpoolPrimaryFailure::InternalIntegrity, cleanup })
        },
        Err(f) => Err(SpoolFailure { primary: spool_primary_failure(f), cleanup }),
    };
    let succeeded = settled.is_ok();
    let status = if succeeded {
        TransportStatus::Transferred
    } else {
        TransportStatus::Failed
    };
    let (common, ledger) = settle_transport(
        TransportRole::Spool,
        status,
        succeeded,
        stages.as_slice(),
        transferred_bytes,
        None,
        cleanup,
        residual,
        exposed_bytes,
        &timing,
        requested_trust,
        admitted_trust,
        adapter_class,
    );
    SpoolOutcome {
        terminal: settled,
        receipt: SpoolTransportReceipt {
            common,
            refusal: None,
            ledger: Some(ledger),
            expected_content_identity: expected,
            actual_content_identity: None,
        },
    }
}

/// The primary failure that an acquisition adapter's failure is recorded as:
/// each adapter failure keeps its own kind, and none is an admission refusal.
pub open spec fn acquisition_primary_of(f: PackArchiveAcquisitionAdapterFailure) -> TransportPrimaryFailure {
    match f {
        PackArchiveAcquisitionAdapterFailure::Acquisition => TransportPrimaryFailure::Acquisition,
        PackArchiveAcquisitionAdapterFailure::Transfer => TransportPrimaryFailure::Transfer,
        PackArchiveAcquisitionAdapterFailure::ExpectedIdentityMismatch => TransportPrimaryFailure::ExpectedIdentityMismatch,
        PackArchiveAcquisitionAdapterFailure::ResourceLimit => TransportPrimaryFailure::ResourceLimit,
        PackArchiveAcquisitionAdapterFailure::Cancelled => TransportPrimaryFailure::Cancelled,
        PackArchiveAcquisitionAdapterFailure::Deadline => TransportPrimaryFailure::Deadline,
        PackArchiveAcquisitionAdapterFailure::AdapterContractViolation => TransportPrimaryFailure::AdapterContractViolation,
    }
}

fn acquisition_primary_failure(f: PackArchiveAcquisitionAdapterFailure) -> (r: TransportPrimaryFailure)
    ensures
        r == acquisition_primary_of(f),
        !(r is Admission),
{
    match f {
        PackArchiveAcquisitionAdapterFailure::Acquisition => TransportPrimaryFailure::Acquisition,
        PackArchiveAcquisitionAdapterFailure::Transfer => TransportPrimaryFailure::Transfer,
        PackArchiveAcquisitionAdapterFailure::ExpectedIdentityMismatch => TransportPrimaryFailure::ExpectedIdentityMismatch,
        PackArchiveAcquisitionAdapterFailure::ResourceLimit => TransportPrimaryFailure::ResourceLimit,
        PackArchiveAcquisitionAdapterFailure::Cancelled => TransportPrimaryFailure::Cancelled,
        PackArchiveAcquisitionAdapterFailure::Deadline => TransportPrimaryFailure::Deadline,
        PackArchiveAcquisitionAdapterFailure::AdapterContractViolation => TransportPrimaryFailure::AdapterContractViolation,
    }
}

/// Acquires a pack archive through `acquirer`, with the same admission and
/// settlement rules as `spool_sync`.
pub fn acquire_pack_archive_sync<A: SyncPackArchiveAcquirer + ?Sized>(
    acquirer: &A,
    locator: &A::Locator,
    controls: AcquisitionTransportControls<'_>,
) -> (out: PackArchiveAcquisitionOutcome)
    ensures
        match transport_refusal(
            acquirer.spec_descriptor().spec_terms(),
            controls.spec_request().network,
            controls.spec_request().interruption,
            None,
            controls.spec_request().cleanup,
            controls.spec_request().required_enforcement@,
            controls.spec_request().timing_requested,
        ) {
            Some(reason) => out.spec_terminal() == Err::<StableByteValue, TransportFailure>(
                TransportFailure {
                    primary: TransportPrimaryFailure::Admission(reason),
                    cleanup: TransportCleanupOutcome::NotRequired,
                },
            ) && out.spec_receipt().spec_common().spec_status() == TransportStatus::Refused
                && out.spec_receipt().spec_refusal() == Some(reason)
                && out.spec_receipt().spec_ledger() is None,
            None => out.spec_receipt().spec_refusal() is None && out.spec_receipt().spec_ledger() is Some
                && (out.spec_terminal() is Ok <==> out.spec_receipt().spec_common().spec_status()
                == TransportStatus::Transferred) && (out.spec_terminal() is Err
                ==> out.spec_receipt().spec_common().spec_status() == TransportStatus::Failed),
        },
{
    let requested_trust = controls.admission().requested();
    let admitted_trust = controls.admission().admitted();
    let cleanup_required = controls.requested_cleanup();
    let expected: Option<ContentIdentity> = match controls.expected_identity() {
        Some(i) => Some(i.clone()),
        None => None,
    };
    let admitted = admit_transport(
        acquirer.descriptor().terms(),
        controls.request().network,
        controls.request().transfer_concurrency,
        controls.request().interruption,
        None,
        controls.request().cleanup,
        controls.request().required_enforcement.as_slice(),
        controls.request().timing_requested,
    );
    let adapter_class = acquirer.descriptor().class().as_str().to_owned();
    if let Err(reason) = admitted {
        let common = refused_receipt(
            TransportRole::PackArchiveAcquisition,
            requested_trust,
            admitted_trust,
            adapter_class,
        );
        return PackArchiveAcquisitionOutcome {
            terminal: Err(
                TransportFailure {
                    primary: TransportPrimaryFailure::Admission(reason),
                    cleanup: TransportCleanupOutcome::NotRequired,
                },
            ),
            receipt: PackArchiveAcquisitionTransportReceipt {
                common,
                refusal: Some(reason),
                ledger: None,
                expected_archive_identity: expected,
                acquired_archive_identity: None,
            },
        };
    }
    let outcome = acquirer.acquire(locator, controls);
    let PackArchiveAcquisitionAdapterOutcome {
        terminal,
        stages,
        transferred_bytes,
        cleanup,
        residual,
        exposed_bytes,
        timing,
    } = outcome;
    let cleanup_ok = check_cleanup_meets(cleanup_required, cleanup);
    let settled: Result<StableByteValue, TransportFailure> = match terminal {
        Ok(v) => if cleanup_ok {
            Ok(v)
        } else {
            Err(TransportFailure { primary: TransportPrimaryFailure::AdapterContractViolation, cleanup })
        },
        Err(f) => Err(TransportFailure { primary: acquisition_primary_failure(f), cleanup }),
    };
    let succeeded = settled.is_ok();
    let status = if succeeded {
        TransportStatus::Transferred
    } else {
        TransportStatus::Failed
    };
    let (common, ledger) = settle_transport(
        TransportRole::PackArchiveAcquisition,
        status,
        succeeded,
        stages.as_slice(),
        transferred_bytes,
        None,
        cleanup,
        residual,
        exposed_bytes,
        &timing,
        requested_trust,
        admitted_trust,
        adapter_class,
    );
    PackArchiveAcquisitionOutcome {
        terminal: settled,
        receipt: PackArchiveAcquisitionTransportReceipt {
            common,
            refusal: None,
            ledger: Some(ledger),
            expected_archive_identity: expected,
            acquired_archive_identity: None,
        },
    }
}


} // verus!
