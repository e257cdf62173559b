//! Embedded implementation identities and diagnostic attribution.

use vstd::prelude::*;

verus! {

/// The role of an embedded implementation in compilation.
#[derive(Clone, Copy, Debug, Eq, PartialEq, Hash, Structural)]
pub enum ImplementationRole {
    Engine,
    Exporter,
}

/// The exact embedded implementation that participated in a result.
#[derive(Clone, Copy, Debug, Eq, PartialEq)]
pub struct ImplementationIdentity {
    role: ImplementationRole,
    implementation: &'static str,
    version: &'static str,
    source_checksum: &'static str,
    target: &'static str,
    target_features: &'static str,
    feature_set: &'static str,
    debug_assertions: bool,
}

impl ImplementationIdentity {
    pub closed spec fn spec_role(self) -> ImplementationRole {
        self.role
    }

    pub closed spec fn spec_implementation(self) -> Seq<char> {
        self.implementation@
    }

    pub closed spec fn spec_version(self) -> Seq<char> {
        self.version@
    }

    pub closed spec fn spec_source_checksum(self) -> Seq<char> {
        self.source_checksum@
    }

    pub closed spec fn spec_target(self) -> Seq<char> {
        self.target@
    }

    pub closed spec fn spec_target_features(self) -> Seq<char> {
        self.target_features@
    }

    pub closed spec fn spec_feature_set(self) -> Seq<char> {
        self.feature_set@
    }

    pub closed spec fn spec_debug_assertions(self) -> bool {
        self.debug_assertions
    }

    /// An identity from the values the build records for the running binary.
    pub fn new(
        role: ImplementationRole,
        implementation: &'static str,
        version: &'static str,
        source_checksum: &'static str,
        target: &'static str,
        target_features: &'static str,
        feature_set: &'static str,
        debug_assertions: bool,
    ) -> (r: Self)
        ensures
            r.spec_role() == role,
            r.spec_implementation() == implementation@,
            r.spec_version() == version@,
            r.spec_source_checksum() == source_checksum@,
            r.spec_target() == target@,
            r.spec_target_features() == target_features@,
            r.spec_feature_set() == feature_set@,
            r.spec_debug_assertions() == debug_assertions,
    {
        ImplementationIdentity {
            role,
            implementation,
            version,
            source_checksum,
            target,
            target_features,
            feature_set,
            debug_assertions,
        }
    }

    /// Whether this implementation is the engine or an exporter.
    pub fn role(self) -> (r: ImplementationRole)
        ensures
            r == self.spec_role(),
    {
        self.role
    }

    pub fn implementation(self) -> (r: &'static str)
        ensures
            r@ == self.spec_implementation(),
    {
        self.implementation
    }

    pub fn version(self) -> (r: &'static str)
        ensures
            r@ == self.spec_version(),
    {
        self.version
    }

    pub fn source_checksum(self) -> (r: &'static str)
        ensures
            r@ == self.spec_source_checksum(),
    {
        self.source_checksum
    }

    pub fn target(self) -> (r: &'static str)
        ensures
            r@ == self.spec_target(),
    {
        self.target
    }

    pub fn target_features(self) -> (r: &'static str)
        ensures
            r@ == self.spec_target_features(),
    {
        self.target_features
    }

    pub fn feature_set(self) -> (r: &'static str)
        ensures
            r@ == self.spec_feature_set(),
    {
        self.feature_set
    }

    pub fn debug_assertions(self) -> (r: bool)
        ensures
            r == self.spec_debug_assertions(),
    {
        self.debug_assertions
    }

    /// The feature set that identifies this implementation: the build's own
    /// feature set stands for its published identity feature set, any other
    /// is taken as it is.
    pub fn identity_feature_set(self, build_feature_set: &str, identity_feature_set: &'static str) -> (r: &'static str)
        ensures
            r@ == if self.spec_feature_set() == build_feature_set@ {
                identity_feature_set@
            } else {
                self.spec_feature_set()
            },
    {
        if str_equal(self.feature_set, build_feature_set) {
            identity_feature_set
        } else {
            self.feature_set
        }
    }
}

/// Whether two texts are equal.
pub fn str_equal(a: &str, b: &str) -> (r: bool)
    ensures
        r == (a@ == b@),
{
    let x = crate::text::chars_of(a);
    let y = crate::text::chars_of(b);
    crate::order::compare_text(x.as_slice(), y.as_slice()) == 0
}

/// Which kind of implementation emitted a diagnostic, and which one.
#[derive(Clone, Copy, Debug, Eq, PartialEq)]
pub enum DiagnosticProducerRole {
    Engine(ImplementationIdentity),
    Exporter(ImplementationIdentity),
}

/// The exact embedded implementation that emitted a diagnostic.
#[derive(Clone, Copy, Debug, Eq, PartialEq)]
pub struct DiagnosticProducer {
    role: DiagnosticProducerRole,
}

impl DiagnosticProducer {
    pub closed spec fn spec_role(self) -> DiagnosticProducerRole {
        self.role
    }

    /// Attributes a diagnostic to an implementation, by its role.
    pub fn new(identity: ImplementationIdentity) -> (r: Self)
        ensures
            r.spec_role() == match identity.spec_role() {
                ImplementationRole::Engine => DiagnosticProducerRole::Engine(identity),
                ImplementationRole::Exporter => DiagnosticProducerRole::Exporter(identity),
            },
    {
        match identity.role {
            ImplementationRole::Engine => DiagnosticProducer { role: DiagnosticProducerRole::Engine(identity) },
            ImplementationRole::Exporter => DiagnosticProducer { role: DiagnosticProducerRole::Exporter(identity) },
        }
    }

    /// The implementation that emitted the diagnostic.
    pub fn implementation_identity(self) -> (r: ImplementationIdentity)
        ensures
            r == match self.spec_role() {
                DiagnosticProducerRole::Engine(i) => i,
                DiagnosticProducerRole::Exporter(i) => i,
            },
    {
        match self.role {
            DiagnosticProducerRole::Engine(identity) => identity,
            DiagnosticProducerRole::Exporter(identity) => identity,
        }
    }
}

/// Attributing a diagnostic to an implementation and asking for the
/// implementation back gives the same implementation, under the role the
/// implementation has.
pub proof fn lemma_producer_round_trip(identity: ImplementationIdentity, producer: DiagnosticProducer)
    requires
        producer.spec_role() == match identity.spec_role() {
            ImplementationRole::Engine => DiagnosticProducerRole::Engine(identity),
            ImplementationRole::Exporter => DiagnosticProducerRole::Exporter(identity),
        },
    ensures
        (match producer.spec_role() {
            DiagnosticProducerRole::Engine(i) => i,
            DiagnosticProducerRole::Exporter(i) => i,
        }) == identity,
        producer.spec_role() is Engine <==> identity.spec_role() == ImplementationRole::Engine,
{
}

} // verus!
