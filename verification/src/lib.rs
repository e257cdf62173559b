//! Verified core of the typst-pack lifecycle interfaces: domain values,
//! admission, resource limits, transport, authorities, creation,
//! compilation, representation, sessions and filesystem plan publication.

use vstd::prelude::*;

pub mod text;
pub mod syntax;
pub mod order;
pub mod transport;
pub mod pack;
pub mod authority;
pub mod creation;
pub mod compilation;
pub mod representation;
pub mod session;
pub mod identity;
pub mod fulfillment;
pub mod exactness;
pub mod fulfillment_set;
pub mod fulfillment_report;
pub mod publication;
pub mod preflight;
pub mod extract;
pub mod artifact_publication;
pub mod pages;
pub mod request;
pub mod command_text;
pub mod value_order;
pub mod publication_steps;
pub mod preparation;
pub mod listing;


verus! {

/// A count that is never zero.
#[derive(Clone, Copy, Debug, PartialEq, Eq, PartialOrd, Ord)]
pub struct NonZeroUsize {
    value: usize,
}

impl NonZeroUsize {
    #[verifier::type_invariant]
    spec fn nonzero(self) -> bool {
        self.value > 0
    }

    pub closed spec fn spec_get(self) -> usize {
        self.value
    }

    pub fn new(value: usize) -> (r: Option<Self>)
        ensures
            r is Some <==> value > 0,
            r matches Some(n) ==> n.spec_get() == value,
    {
        if value > 0 {
            Some(NonZeroUsize { value })
        } else {
            None
        }
    }

    pub fn get(self) -> (r: usize)
        ensures
            r == self.spec_get(),
            r > 0,
    {
        proof {
            use_type_invariant(&self);
        }
        self.value
    }
}

/// A 32-bit count that is never zero.
#[derive(Clone, Copy, Debug, PartialEq, Eq, PartialOrd, Ord)]
pub struct NonZeroU32 {
    value: u32,
}

impl NonZeroU32 {
    #[verifier::type_invariant]
    spec fn nonzero(self) -> bool {
        self.value > 0
    }

    pub closed spec fn spec_get(self) -> u32 {
        self.value
    }

    pub fn new(value: u32) -> (r: Option<Self>)
        ensures
            r is Some <==> value > 0,
            r matches Some(n) ==> n.spec_get() == value,
    {
        if value > 0 {
            Some(NonZeroU32 { value })
        } else {
            None
        }
    }

    pub fn get(self) -> (r: u32)
        ensures
            r == self.spec_get(),
            r > 0,
    {
        proof {
            use_type_invariant(&self);
        }
        self.value
    }
}

#[derive(Clone, Debug, Eq, Ord, PartialEq, PartialOrd)]
pub struct CanonicalIdentity {
    value: String,
}

impl View for CanonicalIdentity {
    type V = Seq<char>;

    closed spec fn view(&self) -> Seq<char> {
        self.value@
    }
}

impl CanonicalIdentity {
    pub fn as_str(&self) -> (r: &str)
        ensures
            r@ == self@,
    {
        self.value.as_str()
    }

    pub fn parse(_admission: &OrdinaryAdmission, value: &str) -> (r: Result<Self, DomainValueRejection>)
        ensures
            match r {
                Ok(v) => syntax::identity_rejection(value@) is None && v@ == value@,
                Err(e) => syntax::identity_rejection(value@) == Some(e),
            },
    {
        match syntax::check_identity(&text::chars_of(value)) {
            Some(e) => Err(e),
            None => Ok(CanonicalIdentity { value: value.to_owned() }),
        }
    }

    pub fn same_as(&self, other: &Self) -> (r: bool)
        ensures
            r == (self@ == other@),
    {
        self.value == other.value
    }

    /// A value equal to this one.
    pub fn duplicate(&self) -> (r: Self)
        ensures
            r@ == self@,
    {
        CanonicalIdentity { value: self.value.clone() }
    }

    /// The identity whose text is `key`, a text taken from an identity.
    pub(crate) fn from_key(key: String) -> (r: Self)
        ensures
            r@ == key@,
    {
        CanonicalIdentity { value: key }
    }
}

#[derive(Clone, Debug, Eq, Ord, PartialEq, PartialOrd)]
pub struct ContentIdentity {
    value: String,
}

impl View for ContentIdentity {
    type V = Seq<char>;

    closed spec fn view(&self) -> Seq<char> {
        self.value@
    }
}

impl ContentIdentity {
    pub fn as_str(&self) -> (r: &str)
        ensures
            r@ == self@,
    {
        self.value.as_str()
    }

    pub fn parse(_admission: &OrdinaryAdmission, value: &str) -> (r: Result<Self, DomainValueRejection>)
        ensures
            match r {
                Ok(v) => syntax::identity_rejection(value@) is None && v@ == value@,
                Err(e) => syntax::identity_rejection(value@) == Some(e),
            },
    {
        match syntax::check_identity(&text::chars_of(value)) {
            Some(e) => Err(e),
            None => Ok(ContentIdentity { value: value.to_owned() }),
        }
    }

    pub fn same_as(&self, other: &Self) -> (r: bool)
        ensures
            r == (self@ == other@),
    {
        self.value == other.value
    }

    /// A value equal to this one.
    pub fn duplicate(&self) -> (r: Self)
        ensures
            r@ == self@,
    {
        ContentIdentity { value: self.value.clone() }
    }
}

#[derive(Clone, Debug, Eq, Ord, PartialEq, PartialOrd)]
pub struct ProjectPath {
    value: String,
}

impl View for ProjectPath {
    type V = Seq<char>;

    closed spec fn view(&self) -> Seq<char> {
        self.value@
    }
}

impl ProjectPath {
    pub fn as_str(&self) -> (r: &str)
        ensures
            r@ == self@,
    {
        self.value.as_str()
    }

    pub fn parse(_admission: &OrdinaryAdmission, value: &str) -> (r: Result<Self, DomainValueRejection>)
        ensures
            match r {
                Ok(v) => syntax::relative_path_rejection(value@) is None && v@ == value@,
                Err(e) => syntax::relative_path_rejection(value@) == Some(e),
            },
    {
        match syntax::check_relative_path(&text::chars_of(value)) {
            Some(e) => Err(e),
            None => Ok(ProjectPath { value: value.to_owned() }),
        }
    }

    pub fn same_as(&self, other: &Self) -> (r: bool)
        ensures
            r == (self@ == other@),
    {
        self.value == other.value
    }

    /// A value equal to this one.
    pub fn duplicate(&self) -> (r: Self)
        ensures
            r@ == self@,
    {
        ProjectPath { value: self.value.clone() }
    }
}

#[derive(Clone, Debug, Eq, Ord, PartialEq, PartialOrd)]
pub struct ClosureExportPath {
    value: String,
}

impl View for ClosureExportPath {
    type V = Seq<char>;

    closed spec fn view(&self) -> Seq<char> {
        self.value@
    }
}

impl ClosureExportPath {
    pub fn as_str(&self) -> (r: &str)
        ensures
            r@ == self@,
    {
        self.value.as_str()
    }

    pub fn parse(_admission: &OrdinaryAdmission, value: &str) -> (r: Result<Self, DomainValueRejection>)
        ensures
            match r {
                Ok(v) => syntax::relative_path_rejection(value@) is None && v@ == value@,
                Err(e) => syntax::relative_path_rejection(value@) == Some(e),
            },
    {
        match syntax::check_relative_path(&text::chars_of(value)) {
            Some(e) => Err(e),
            None => Ok(ClosureExportPath { value: value.to_owned() }),
        }
    }

    pub fn same_as(&self, other: &Self) -> (r: bool)
        ensures
            r == (self@ == other@),
    {
        self.value == other.value
    }

    /// A value equal to this one.
    pub fn duplicate(&self) -> (r: Self)
        ensures
            r@ == self@,
    {
        ClosureExportPath { value: self.value.clone() }
    }
}

#[derive(Clone, Debug, Eq, Ord, PartialEq, PartialOrd)]
pub struct PackageSpecification {
    value: String,
}

impl View for PackageSpecification {
    type V = Seq<char>;

    closed spec fn view(&self) -> Seq<char> {
        self.value@
    }
}

impl PackageSpecification {
    pub fn as_str(&self) -> (r: &str)
        ensures
            r@ == self@,
    {
        self.value.as_str()
    }

    pub fn parse(_admission: &OrdinaryAdmission, value: &str) -> (r: Result<Self, DomainValueRejection>)
        ensures
            match r {
                Ok(v) => syntax::package_specification_rejection(value@) is None && v@ == value@,
                Err(e) => syntax::package_specification_rejection(value@) == Some(e),
            },
    {
        match syntax::check_package_specification(&text::chars_of(value)) {
            Some(e) => Err(e),
            None => Ok(PackageSpecification { value: value.to_owned() }),
        }
    }

    pub fn same_as(&self, other: &Self) -> (r: bool)
        ensures
            r == (self@ == other@),
    {
        self.value == other.value
    }

    /// A value equal to this one.
    pub fn duplicate(&self) -> (r: Self)
        ensures
            r@ == self@,
    {
        PackageSpecification { value: self.value.clone() }
    }
}

#[derive(Clone, Debug, Eq, Ord, PartialEq, PartialOrd)]
pub struct PackagePath {
    value: String,
}

impl View for PackagePath {
    type V = Seq<char>;

    closed spec fn view(&self) -> Seq<char> {
        self.value@
    }
}

impl PackagePath {
    pub fn as_str(&self) -> (r: &str)
        ensures
            r@ == self@,
    {
        self.value.as_str()
    }

    pub fn parse(_admission: &OrdinaryAdmission, value: &str) -> (r: Result<Self, DomainValueRejection>)
        ensures
            match r {
                Ok(v) => syntax::relative_path_rejection(value@) is None && v@ == value@,
                Err(e) => syntax::relative_path_rejection(value@) == Some(e),
            },
    {
        match syntax::check_relative_path(&text::chars_of(value)) {
            Some(e) => Err(e),
            None => Ok(PackagePath { value: value.to_owned() }),
        }
    }

    pub fn same_as(&self, other: &Self) -> (r: bool)
        ensures
            r == (self@ == other@),
    {
        self.value == other.value
    }

    /// A value equal to this one.
    pub fn duplicate(&self) -> (r: Self)
        ensures
            r@ == self@,
    {
        PackagePath { value: self.value.clone() }
    }
}

#[derive(Clone, Debug, Eq, Ord, PartialEq, PartialOrd)]
pub struct TypstInputKey {
    value: String,
}

impl View for TypstInputKey {
    type V = Seq<char>;

    closed spec fn view(&self) -> Seq<char> {
        self.value@
    }
}

impl TypstInputKey {
    pub fn as_str(&self) -> (r: &str)
        ensures
            r@ == self@,
    {
        self.value.as_str()
    }

    pub fn parse(_admission: &OrdinaryAdmission, value: &str) -> (r: Result<Self, DomainValueRejection>)
        ensures
            match r {
                Ok(v) => syntax::input_key_rejection(value@) is None && v@ == value@,
                Err(e) => syntax::input_key_rejection(value@) == Some(e),
            },
    {
        match syntax::check_input_key(&text::chars_of(value)) {
            Some(e) => Err(e),
            None => Ok(TypstInputKey { value: value.to_owned() }),
        }
    }

    pub fn same_as(&self, other: &Self) -> (r: bool)
        ensures
            r == (self@ == other@),
    {
        self.value == other.value
    }

    /// A value equal to this one.
    pub fn duplicate(&self) -> (r: Self)
        ensures
            r@ == self@,
    {
        TypstInputKey { value: self.value.clone() }
    }
}

#[derive(Clone, Debug, Eq, Ord, PartialEq, PartialOrd)]
pub struct TypstInputValue {
    value: String,
}

impl View for TypstInputValue {
    type V = Seq<char>;

    closed spec fn view(&self) -> Seq<char> {
        self.value@
    }
}

impl TypstInputValue {
    pub fn as_str(&self) -> (r: &str)
        ensures
            r@ == self@,
    {
        self.value.as_str()
    }

    pub fn parse(_admission: &OrdinaryAdmission, value: &str) -> (r: Result<Self, DomainValueRejection>)
        ensures
            r matches Ok(v) && v@ == value@,
    {
        Ok(TypstInputValue { value: value.to_owned() })
    }

    pub fn same_as(&self, other: &Self) -> (r: bool)
        ensures
            r == (self@ == other@),
    {
        self.value == other.value
    }

    /// A value equal to this one.
    pub fn duplicate(&self) -> (r: Self)
        ensures
            r@ == self@,
    {
        TypstInputValue { value: self.value.clone() }
    }
}

#[derive(Clone, Debug, Eq, Ord, PartialEq, PartialOrd)]
pub struct ProjectTreeIdentity {
    value: String,
}

impl View for ProjectTreeIdentity {
    type V = Seq<char>;

    closed spec fn view(&self) -> Seq<char> {
        self.value@
    }
}

impl ProjectTreeIdentity {
    pub fn as_str(&self) -> (r: &str)
        ensures
            r@ == self@,
    {
        self.value.as_str()
    }

    pub fn same_as(&self, other: &Self) -> (r: bool)
        ensures
            r == (self@ == other@),
    {
        self.value == other.value
    }

    /// A value equal to this one.
    pub fn duplicate(&self) -> (r: Self)
        ensures
            r@ == self@,
    {
        ProjectTreeIdentity { value: self.value.clone() }
    }
}

#[derive(Clone, Debug, Eq, Ord, PartialEq, PartialOrd)]
pub struct PackageRequirementIdentity {
    value: String,
}

impl View for PackageRequirementIdentity {
    type V = Seq<char>;

    closed spec fn view(&self) -> Seq<char> {
        self.value@
    }
}

impl PackageRequirementIdentity {
    pub fn as_str(&self) -> (r: &str)
        ensures
            r@ == self@,
    {
        self.value.as_str()
    }

    pub fn same_as(&self, other: &Self) -> (r: bool)
        ensures
            r == (self@ == other@),
    {
        self.value == other.value
    }

    /// A value equal to this one.
    pub fn duplicate(&self) -> (r: Self)
        ensures
            r@ == self@,
    {
        PackageRequirementIdentity { value: self.value.clone() }
    }
}

#[derive(Clone, Debug, Eq, Ord, PartialEq, PartialOrd)]
pub struct FontRequirementIdentity {
    value: String,
}

impl View for FontRequirementIdentity {
    type V = Seq<char>;

    closed spec fn view(&self) -> Seq<char> {
        self.value@
    }
}

impl FontRequirementIdentity {
    pub fn as_str(&self) -> (r: &str)
        ensures
            r@ == self@,
    {
        self.value.as_str()
    }

    pub fn same_as(&self, other: &Self) -> (r: bool)
        ensures
            r == (self@ == other@),
    {
        self.value == other.value
    }

    /// A value equal to this one.
    pub fn duplicate(&self) -> (r: Self)
        ensures
            r@ == self@,
    {
        FontRequirementIdentity { value: self.value.clone() }
    }
}

#[derive(Clone, Debug, Eq, Ord, PartialEq, PartialOrd)]
pub struct DiscoveryRequestCommitment {
    value: String,
}

impl View for DiscoveryRequestCommitment {
    type V = Seq<char>;

    closed spec fn view(&self) -> Seq<char> {
        self.value@
    }
}

impl DiscoveryRequestCommitment {
    pub fn as_str(&self) -> (r: &str)
        ensures
            r@ == self@,
    {
        self.value.as_str()
    }

    pub fn same_as(&self, other: &Self) -> (r: bool)
        ensures
            r == (self@ == other@),
    {
        self.value == other.value
    }

    /// A value equal to this one.
    pub fn duplicate(&self) -> (r: Self)
        ensures
            r@ == self@,
    {
        DiscoveryRequestCommitment { value: self.value.clone() }
    }
}

#[derive(Clone, Debug, Eq, Ord, PartialEq, PartialOrd)]
pub struct DiscoveryVariantIdentity {
    value: String,
}

impl View for DiscoveryVariantIdentity {
    type V = Seq<char>;

    closed spec fn view(&self) -> Seq<char> {
        self.value@
    }
}

impl DiscoveryVariantIdentity {
    pub fn as_str(&self) -> (r: &str)
        ensures
            r@ == self@,
    {
        self.value.as_str()
    }

    pub fn same_as(&self, other: &Self) -> (r: bool)
        ensures
            r == (self@ == other@),
    {
        self.value == other.value
    }

    /// A value equal to this one.
    pub fn duplicate(&self) -> (r: Self)
        ensures
            r@ == self@,
    {
        DiscoveryVariantIdentity { value: self.value.clone() }
    }
}

#[derive(Clone, Debug, Eq, Ord, PartialEq, PartialOrd)]
pub struct DiscoveryTraceIdentity {
    value: String,
}

impl View for DiscoveryTraceIdentity {
    type V = Seq<char>;

    closed spec fn view(&self) -> Seq<char> {
        self.value@
    }
}

impl DiscoveryTraceIdentity {
    pub fn as_str(&self) -> (r: &str)
        ensures
            r@ == self@,
    {
        self.value.as_str()
    }

    pub fn same_as(&self, other: &Self) -> (r: bool)
        ensures
            r == (self@ == other@),
    {
        self.value == other.value
    }

    /// A value equal to this one.
    pub fn duplicate(&self) -> (r: Self)
        ensures
            r@ == self@,
    {
        DiscoveryTraceIdentity { value: self.value.clone() }
    }
}

#[derive(Clone, Debug, Eq, Ord, PartialEq, PartialOrd)]
pub struct DiscoveryCoverageIdentity {
    value: String,
}

impl View for DiscoveryCoverageIdentity {
    type V = Seq<char>;

    closed spec fn view(&self) -> Seq<char> {
        self.value@
    }
}

impl DiscoveryCoverageIdentity {
    pub fn as_str(&self) -> (r: &str)
        ensures
            r@ == self@,
    {
        self.value.as_str()
    }

    pub fn same_as(&self, other: &Self) -> (r: bool)
        ensures
            r == (self@ == other@),
    {
        self.value == other.value
    }

    /// A value equal to this one.
    pub fn duplicate(&self) -> (r: Self)
        ensures
            r@ == self@,
    {
        DiscoveryCoverageIdentity { value: self.value.clone() }
    }
}

#[derive(Clone, Debug, Eq, Ord, PartialEq, PartialOrd)]
pub struct EngineIdentity {
    value: String,
}

impl View for EngineIdentity {
    type V = Seq<char>;

    closed spec fn view(&self) -> Seq<char> {
        self.value@
    }
}

impl EngineIdentity {
    pub fn as_str(&self) -> (r: &str)
        ensures
            r@ == self@,
    {
        self.value.as_str()
    }

    pub fn same_as(&self, other: &Self) -> (r: bool)
        ensures
            r == (self@ == other@),
    {
        self.value == other.value
    }

    /// A value equal to this one.
    pub fn duplicate(&self) -> (r: Self)
        ensures
            r@ == self@,
    {
        EngineIdentity { value: self.value.clone() }
    }
}

#[derive(Clone, Debug, Eq, Ord, PartialEq, PartialOrd)]
pub struct ExporterIdentity {
    value: String,
}

impl View for ExporterIdentity {
    type V = Seq<char>;

    closed spec fn view(&self) -> Seq<char> {
        self.value@
    }
}

impl ExporterIdentity {
    pub fn as_str(&self) -> (r: &str)
        ensures
            r@ == self@,
    {
        self.value.as_str()
    }

    pub fn same_as(&self, other: &Self) -> (r: bool)
        ensures
            r == (self@ == other@),
    {
        self.value == other.value
    }

    /// A value equal to this one.
    pub fn duplicate(&self) -> (r: Self)
        ensures
            r@ == self@,
    {
        ExporterIdentity { value: self.value.clone() }
    }
}

#[derive(Clone, Debug, Eq, Ord, PartialEq, PartialOrd)]
pub struct CompilationRequestCommitment {
    value: String,
}

impl View for CompilationRequestCommitment {
    type V = Seq<char>;

    closed spec fn view(&self) -> Seq<char> {
        self.value@
    }
}

impl CompilationRequestCommitment {
    pub fn as_str(&self) -> (r: &str)
        ensures
            r@ == self@,
    {
        self.value.as_str()
    }

    pub fn same_as(&self, other: &Self) -> (r: bool)
        ensures
            r == (self@ == other@),
    {
        self.value == other.value
    }

    /// A value equal to this one.
    pub fn duplicate(&self) -> (r: Self)
        ensures
            r@ == self@,
    {
        CompilationRequestCommitment { value: self.value.clone() }
    }
}

#[derive(Clone, Debug, Eq, Ord, PartialEq, PartialOrd)]
pub struct EngineNeutralCompilationIntentIdentity {
    value: String,
}

impl View for EngineNeutralCompilationIntentIdentity {
    type V = Seq<char>;

    closed spec fn view(&self) -> Seq<char> {
        self.value@
    }
}

impl EngineNeutralCompilationIntentIdentity {
    pub fn as_str(&self) -> (r: &str)
        ensures
            r@ == self@,
    {
        self.value.as_str()
    }

    pub fn same_as(&self, other: &Self) -> (r: bool)
        ensures
            r == (self@ == other@),
    {
        self.value == other.value
    }

    /// A value equal to this one.
    pub fn duplicate(&self) -> (r: Self)
        ensures
            r@ == self@,
    {
        EngineNeutralCompilationIntentIdentity { value: self.value.clone() }
    }
}

#[derive(Clone, Debug, Eq, Ord, PartialEq, PartialOrd)]
pub struct CompilationIdentity {
    value: String,
}

impl View for CompilationIdentity {
    type V = Seq<char>;

    closed spec fn view(&self) -> Seq<char> {
        self.value@
    }
}

impl CompilationIdentity {
    pub fn as_str(&self) -> (r: &str)
        ensures
            r@ == self@,
    {
        self.value.as_str()
    }

    pub fn same_as(&self, other: &Self) -> (r: bool)
        ensures
            r == (self@ == other@),
    {
        self.value == other.value
    }

    /// A value equal to this one.
    pub fn duplicate(&self) -> (r: Self)
        ensures
            r@ == self@,
    {
        CompilationIdentity { value: self.value.clone() }
    }
}

#[derive(Clone, Debug, Eq, Ord, PartialEq, PartialOrd)]
pub struct CompilationArtifactIdentity {
    value: String,
}

impl View for CompilationArtifactIdentity {
    type V = Seq<char>;

    closed spec fn view(&self) -> Seq<char> {
        self.value@
    }
}

impl CompilationArtifactIdentity {
    pub fn as_str(&self) -> (r: &str)
        ensures
            r@ == self@,
    {
        self.value.as_str()
    }

    pub fn same_as(&self, other: &Self) -> (r: bool)
        ensures
            r == (self@ == other@),
    {
        self.value == other.value
    }

    /// A value equal to this one.
    pub fn duplicate(&self) -> (r: Self)
        ensures
            r@ == self@,
    {
        CompilationArtifactIdentity { value: self.value.clone() }
    }
}

#[derive(Clone, Debug, Eq, Ord, PartialEq, PartialOrd)]
pub struct CompilationResultIdentity {
    value: String,
}

impl View for CompilationResultIdentity {
    type V = Seq<char>;

    closed spec fn view(&self) -> Seq<char> {
        self.value@
    }
}

impl CompilationResultIdentity {
    pub fn as_str(&self) -> (r: &str)
        ensures
            r@ == self@,
    {
        self.value.as_str()
    }

    pub fn same_as(&self, other: &Self) -> (r: bool)
        ensures
            r == (self@ == other@),
    {
        self.value == other.value
    }

    /// A value equal to this one.
    pub fn duplicate(&self) -> (r: Self)
        ensures
            r@ == self@,
    {
        CompilationResultIdentity { value: self.value.clone() }
    }
}

#[derive(Clone, Debug, Eq, Ord, PartialEq, PartialOrd)]
pub struct ClosureExportTreeContentIdentity {
    value: String,
}

impl View for ClosureExportTreeContentIdentity {
    type V = Seq<char>;

    closed spec fn view(&self) -> Seq<char> {
        self.value@
    }
}

impl ClosureExportTreeContentIdentity {
    pub fn as_str(&self) -> (r: &str)
        ensures
            r@ == self@,
    {
        self.value.as_str()
    }

    pub fn parse(_admission: &OrdinaryAdmission, value: &str) -> (r: Result<Self, DomainValueRejection>)
        ensures
            match r {
                Ok(v) => syntax::identity_rejection(value@) is None && v@ == value@,
                Err(e) => syntax::identity_rejection(value@) == Some(e),
            },
    {
        match syntax::check_identity(&text::chars_of(value)) {
            Some(e) => Err(e),
            None => Ok(ClosureExportTreeContentIdentity { value: value.to_owned() }),
        }
    }

    pub fn same_as(&self, other: &Self) -> (r: bool)
        ensures
            r == (self@ == other@),
    {
        self.value == other.value
    }

    /// A value equal to this one.
    pub fn duplicate(&self) -> (r: Self)
        ensures
            r@ == self@,
    {
        ClosureExportTreeContentIdentity { value: self.value.clone() }
    }
}

#[derive(Clone, Debug, Eq, Ord, PartialEq, PartialOrd)]
pub struct CacheIsolationDomain {
    value: String,
}

impl View for CacheIsolationDomain {
    type V = Seq<char>;

    closed spec fn view(&self) -> Seq<char> {
        self.value@
    }
}

impl CacheIsolationDomain {
    pub fn as_str(&self) -> (r: &str)
        ensures
            r@ == self@,
    {
        self.value.as_str()
    }

    pub fn try_new(opaque_value: &str) -> (r: Result<Self, DomainValueRejection>)
        ensures
            match r {
                Ok(v) => opaque_value@.len() > 0 && v@ == opaque_value@,
                Err(e) => opaque_value@.len() == 0 && e == DomainValueRejection::Empty,
            },
    {
        if opaque_value.is_empty() {
            Err(DomainValueRejection::Empty)
        } else {
            Ok(CacheIsolationDomain { value: opaque_value.to_owned() })
        }
    }

    pub fn same_as(&self, other: &Self) -> (r: bool)
        ensures
            r == (self@ == other@),
    {
        self.value == other.value
    }

    /// A value equal to this one.
    pub fn duplicate(&self) -> (r: Self)
        ensures
            r@ == self@,
    {
        CacheIsolationDomain { value: self.value.clone() }
    }
}

#[derive(Clone, Debug, Eq, Ord, PartialEq, PartialOrd)]
pub struct AuthorityInstanceIdentity {
    value: String,
}

impl View for AuthorityInstanceIdentity {
    type V = Seq<char>;

    closed spec fn view(&self) -> Seq<char> {
        self.value@
    }
}

impl AuthorityInstanceIdentity {
    pub fn as_str(&self) -> (r: &str)
        ensures
            r@ == self@,
    {
        self.value.as_str()
    }

    pub fn try_new(namespaced_value: &str) -> (r: Result<Self, DomainValueRejection>)
        ensures
            match r {
                Ok(v) => syntax::namespaced_rejection(namespaced_value@) is None && v@ == namespaced_value@,
                Err(e) => syntax::namespaced_rejection(namespaced_value@) == Some(e),
            },
    {
        match syntax::check_namespaced(&text::chars_of(namespaced_value)) {
            Some(e) => Err(e),
            None => Ok(AuthorityInstanceIdentity { value: namespaced_value.to_owned() }),
        }
    }

    pub fn same_as(&self, other: &Self) -> (r: bool)
        ensures
            r == (self@ == other@),
    {
        self.value == other.value
    }

    /// A value equal to this one.
    pub fn duplicate(&self) -> (r: Self)
        ensures
            r@ == self@,
    {
        AuthorityInstanceIdentity { value: self.value.clone() }
    }
}

#[derive(Clone, Debug, Eq, Ord, PartialOrd)]
pub struct CompletePackageTreeIdentity {
    value: String,
}

impl View for CompletePackageTreeIdentity {
    type V = Seq<char>;

    closed spec fn view(&self) -> Seq<char> {
        self.value@
    }
}

impl CompletePackageTreeIdentity {
    pub fn as_str(&self) -> (r: &str)
        ensures
            r@ == self@,
    {
        self.value.as_str()
    }

    pub fn parse(_admission: &OrdinaryAdmission, value: &str) -> (r: Result<Self, DomainValueRejection>)
        ensures
            match r {
                Ok(v) => syntax::identity_rejection(value@) is None && v@ == value@,
                Err(e) => syntax::identity_rejection(value@) == Some(e),
            },
    {
        match syntax::check_identity(&text::chars_of(value)) {
            Some(e) => Err(e),
            None => Ok(CompletePackageTreeIdentity { value: value.to_owned() }),
        }
    }

    pub fn same_as(&self, other: &Self) -> (r: bool)
        ensures
            r == (self@ == other@),
    {
        self.value == other.value
    }

    /// A value equal to this one.
    pub fn duplicate(&self) -> (r: Self)
        ensures
            r@ == self@,
    {
        CompletePackageTreeIdentity { value: self.value.clone() }
    }
}

#[derive(Clone, Debug, Eq, Ord, PartialEq, PartialOrd)]
pub struct MonotonicTimeDomain {
    value: String,
}

impl View for MonotonicTimeDomain {
    type V = Seq<char>;

    closed spec fn view(&self) -> Seq<char> {
        self.value@
    }
}

impl MonotonicTimeDomain {
    pub fn as_str(&self) -> (r: &str)
        ensures
            r@ == self@,
    {
        self.value.as_str()
    }

    pub fn try_new(namespaced_value: &str) -> (r: Result<Self, DomainValueRejection>)
        ensures
            match r {
                Ok(v) => syntax::namespaced_rejection(namespaced_value@) is None && v@ == namespaced_value@,
                Err(e) => syntax::namespaced_rejection(namespaced_value@) == Some(e),
            },
    {
        match syntax::check_namespaced(&text::chars_of(namespaced_value)) {
            Some(e) => Err(e),
            None => Ok(MonotonicTimeDomain { value: namespaced_value.to_owned() }),
        }
    }

    pub fn same_as(&self, other: &Self) -> (r: bool)
        ensures
            r == (self@ == other@),
    {
        self.value == other.value
    }

    /// A value equal to this one.
    pub fn duplicate(&self) -> (r: Self)
        ensures
            r@ == self@,
    {
        MonotonicTimeDomain { value: self.value.clone() }
    }
}

#[derive(Clone, Debug, Eq, Ord)]
pub struct OperationalCapabilityClass {
    value: String,
}

impl View for OperationalCapabilityClass {
    type V = Seq<char>;

    closed spec fn view(&self) -> Seq<char> {
        self.value@
    }
}

impl OperationalCapabilityClass {
    /// A class that this library names for its own facilities.
    pub(crate) fn from_trusted_literal(value: &str) -> (r: Self)
        ensures
            r@ == value@,
    {
        OperationalCapabilityClass { value: value.to_owned() }
    }

    pub fn try_new(value: &str) -> (r: Result<Self, OperationalCapabilityClassRejection>)
        ensures
            match r {
                Ok(c) => syntax::capability_class_rejection(value@) is None && c@ == value@,
                Err(e) => syntax::capability_class_rejection(value@) == Some(e),
            },
    {
        match syntax::check_capability_class(&text::chars_of(value)) {
            Some(e) => Err(e),
            None => Ok(OperationalCapabilityClass { value: value.to_owned() }),
        }
    }

    pub fn as_str(&self) -> (r: &str)
        ensures
            r@ == self@,
    {
        self.value.as_str()
    }

    pub fn same_as(&self, other: &Self) -> (r: bool)
        ensures
            r == (self@ == other@),
    {
        self.value == other.value
    }

    /// A value equal to this one.
    pub fn duplicate(&self) -> (r: Self)
        ensures
            r@ == self@,
    {
        OperationalCapabilityClass { value: self.value.clone() }
    }
}

#[derive(Clone, Copy, Debug, Eq, PartialEq, Structural)]
pub enum OperationalCapabilityClassRejection {
    Empty,
    TooLong,
    NonAscii,
    InvalidNamespace,
    InvalidPath,
    InvalidMajor,
}

#[derive(Clone, Copy, Debug, Eq, PartialEq, Structural)]
pub enum OperationNetworkPolicy {
    NetworkPermitted,
    Offline,
}

#[derive(Clone, Copy, Debug, Eq, PartialEq, Structural)]
pub enum SelectedNetworkContract {
    NetworkPermitted,
    NoNetwork,
}

#[derive(Clone, Copy, Debug, Eq, PartialEq, Structural)]
pub enum PreCommitFacilityRole {
    CreationEvidence,
    PackageAuthority,
    FontAuthority,
    AuthorityPrivateCache,
    SemanticResultCache,
    Source,
    Spool,
    CreationExecution,
    CompilationExecution,
    WorkerControlTransport,
    ReportingSource,
}

#[derive(Clone, Copy, Debug, Eq, PartialEq, Structural)]
pub enum ExecutionPlacement {
    InProcess,
    Worker,
}

#[derive(Clone, Copy, Debug, Eq, PartialEq, Structural)]
pub enum OperationInterruptionStrength {
    Cooperative,
    Isolated,
}

#[derive(Clone, Copy, Debug, Eq, PartialEq, Structural)]
pub enum EnforcementStrength {
    NotClaimed,
    BestEffort,
    VerifiedHard,
}

#[derive(Clone, Copy, Debug, Eq, PartialEq, Structural)]
pub enum EnforcementDimension {
    Filesystem,
    Network,
    Cpu,
    Memory,
    ProcessTree,
    TemporaryStorage,
}

#[derive(Clone, Debug, Eq, PartialEq)]
pub struct EnforcementClaim {
    pub dimension: EnforcementDimension,
    pub strength: EnforcementStrength,
    pub covered_scope: String,
}

#[derive(Clone, Copy, Debug, Eq, PartialEq, Structural)]
pub enum OperationAdmissionRefusalReason {
    UnsupportedTrustProfile,
    IncoherentDescriptor,
    UnsatisfiedNetworkPolicy,
    ResourceLimit,
    Capacity,
    EngineWidth,
    ExecutionPlacement,
    InterruptionStrength,
    RequiredReportingUnavailable,
}

#[derive(Clone, Copy, Debug, Eq, PartialEq, Structural)]
pub enum AdmissionConstraint {
    DocumentedProfileCap,
    ConfiguredCapacity,
    VerifiedAvailableCapacity,
    AuthorityPerOperationCap,
    SharedCapacityScope,
}

#[derive(Clone, Copy, Debug, Eq, PartialEq)]
pub enum EngineWidthRequest {
    InheritedUnmanaged,
    Automatic,
    Exact(NonZeroUsize),
}

#[derive(Clone, Debug, Eq, PartialEq)]
pub enum EngineWidthAdmission {
    InheritedUnmanaged,
    Exact {
        requested: EngineWidthRequest,
        admitted: NonZeroUsize,
        constraints: Vec<AdmissionConstraint>,
    },
}

#[derive(Clone, Debug, Eq, PartialEq)]
pub struct DependencyConcurrencyAdmission {
    pub requested: NonZeroUsize,
    pub admitted: NonZeroUsize,
    pub constraints: Vec<AdmissionConstraint>,
}

pub struct EnforcementAdmissionView {
    pub requested: Vec<EnforcementClaim>,
    pub admitted: Vec<EnforcementClaim>,
    pub reached: Vec<EnforcementClaim>,
}

#[derive(Clone, Copy, Debug, Eq, PartialEq, Structural)]
pub enum DomainValueRejection {
    Empty,
    InvalidSyntax,
    InvalidNamespace,
    NonCanonical,
}

/// Which version of a resource profile a name designates.
#[derive(Clone, Debug, Eq, Ord, PartialOrd)]
pub struct ResourceProfileIdentity {
    name: String,
    version: u32,
}

impl ResourceProfileIdentity {
    pub closed spec fn spec_name(&self) -> Seq<char> {
        self.name@
    }

    pub closed spec fn spec_version(&self) -> u32 {
        self.version
    }

    pub fn try_new(name: &str, version: u32) -> (r: Result<Self, DomainValueRejection>)
        ensures
            match r {
                Ok(p) => syntax::namespaced_rejection(name@) is None && p.spec_name() == name@
                    && p.spec_version() == version,
                Err(e) => syntax::namespaced_rejection(name@) == Some(e),
            },
    {
        match syntax::check_namespaced(&text::chars_of(name)) {
            Some(e) => Err(e),
            None => Ok(ResourceProfileIdentity { name: name.to_owned(), version }),
        }
    }

    /// A profile equal to this one.
    pub fn duplicate(&self) -> (r: Self)
        ensures
            r.spec_name() == self.spec_name(),
            r.spec_version() == self.spec_version(),
            r == *self,
    {
        ResourceProfileIdentity { name: self.name.clone(), version: self.version }
    }

    /// The profile under which callers select their own format receipt limits.
    pub fn caller_selected_format_receipt_v1() -> (r: Self)
        ensures
            r.spec_version() == 1,
    {
        ResourceProfileIdentity { name: String::from_str("typst-pack:caller-selected-format-receipt"), version: 1 }
    }

    pub fn name(&self) -> (r: &str)
        ensures
            r@ == self.spec_name(),
    {
        self.name.as_str()
    }

    pub fn version(&self) -> (r: u32)
        ensures
            r == self.spec_version(),
    {
        self.version
    }
}

#[derive(Clone, Copy, Debug, Eq, PartialEq, Structural)]
pub enum DeploymentTrustProfile {
    Trusted,
    PartiallyTrusted,
    Hostile,
}

/// Admission to the ordinary in-process and ordinary isolated interfaces.
///
/// Construction refuses Hostile before an operation receives input bytes.
#[derive(Clone, Copy, Debug)]
pub struct OrdinaryAdmission {
    requested: DeploymentTrustProfile,
    admitted: DeploymentTrustProfile,
}

impl OrdinaryAdmission {
    pub closed spec fn spec_requested(self) -> DeploymentTrustProfile {
        self.requested
    }

    pub closed spec fn spec_admitted(self) -> DeploymentTrustProfile {
        self.admitted
    }

    pub fn try_new(requested: DeploymentTrustProfile) -> (r: Result<Self, AdmissionRefusal>)
        ensures
            match r {
                Ok(a) => requested != DeploymentTrustProfile::Hostile && a.spec_requested() == requested
                    && a.spec_admitted() == requested,
                Err(e) => requested == DeploymentTrustProfile::Hostile && e
                    == AdmissionRefusal::HostileUnavailableInFirstRelease,
            },
    {
        match requested {
            DeploymentTrustProfile::Trusted | DeploymentTrustProfile::PartiallyTrusted => {
                Ok(OrdinaryAdmission { requested, admitted: requested })
            },
            DeploymentTrustProfile::Hostile => Err(AdmissionRefusal::HostileUnavailableInFirstRelease),
        }
    }

    pub fn requested(&self) -> (r: DeploymentTrustProfile)
        ensures
            r == self.spec_requested(),
    {
        self.requested
    }

    pub fn admitted(&self) -> (r: DeploymentTrustProfile)
        ensures
            r == self.spec_admitted(),
    {
        self.admitted
    }
}

#[derive(Clone, Copy, Debug, Eq, PartialEq, Structural)]
pub enum AdmissionRefusal {
    HostileUnavailableInFirstRelease,
    MissingEnforcementCapability,
    InvalidResourceLimits,
    CapacityUnavailable,
}

/// A set of per-operation resource limits.
///
/// A set is valid when its bounds are mutually coherent (a largest-member
/// bound never exceeds its aggregate bound, concurrency is at least one), and
/// one set is no looser than another when none of its bounds is larger.
pub trait OperationLimitSet: Sized + Copy {
    spec fn spec_valid(&self) -> bool;

    spec fn spec_no_looser_than(&self, requested: &Self) -> bool;

    fn validate(&self) -> (r: Result<(), AdmissionRefusal>)
        ensures
            r is Ok <==> self.spec_valid(),
            r matches Err(e) ==> e == AdmissionRefusal::InvalidResourceLimits,
    ;

    fn no_looser_than(&self, requested: &Self) -> (r: bool)
        ensures
            r == self.spec_no_looser_than(requested),
    ;

    proof fn lemma_no_looser_than_reflexive(limits: &Self)
        ensures
            limits.spec_no_looser_than(limits),
    ;

    proof fn lemma_no_looser_than_transitive(a: &Self, b: &Self, c: &Self)
        requires
            a.spec_no_looser_than(b),
            b.spec_no_looser_than(c),
        ensures
            a.spec_no_looser_than(c),
    ;
}

/// Reusable immutable configuration. Consumption counters are newly allocated
/// by every operation and are never retained here.
#[derive(Clone, Debug)]
pub struct AdmittedOperationResourceLimits<L> {
    profile: Option<ResourceProfileIdentity>,
    requested: L,
    admitted: L,
}

impl<L: OperationLimitSet> AdmittedOperationResourceLimits<L> {
    pub closed spec fn spec_profile(&self) -> Option<ResourceProfileIdentity> {
        self.profile
    }

    pub closed spec fn spec_requested(&self) -> L {
        self.requested
    }

    pub closed spec fn spec_admitted(&self) -> L {
        self.admitted
    }

    pub fn try_from_adapter_profile(profile: ResourceProfileIdentity, requested: L, admitted: L) -> (r:
        Result<Self, AdmissionRefusal>)
        ensures
            match r {
                Ok(l) => requested.spec_valid() && admitted.spec_valid() && admitted.spec_no_looser_than(
                    &requested,
                ) && l.spec_profile() == Some(profile) && l.spec_requested() == requested
                    && l.spec_admitted() == admitted,
                Err(e) => e == AdmissionRefusal::InvalidResourceLimits && !(requested.spec_valid()
                    && admitted.spec_valid() && admitted.spec_no_looser_than(&requested)),
            },
    {
        requested.validate()?;
        admitted.validate()?;
        if !admitted.no_looser_than(&requested) {
            return Err(AdmissionRefusal::InvalidResourceLimits);
        }
        Ok(AdmittedOperationResourceLimits { profile: Some(profile), requested, admitted })
    }

    pub fn profile(&self) -> (r: Option<&ResourceProfileIdentity>)
        ensures
            match r {
                Some(p) => self.spec_profile() == Some(*p),
                None => self.spec_profile() is None,
            },
    {
        self.profile.as_ref()
    }

    pub fn requested(&self) -> (r: &L)
        ensures
            *r == self.spec_requested(),
    {
        &self.requested
    }

    pub fn admitted(&self) -> (r: &L)
        ensures
            *r == self.spec_admitted(),
    {
        &self.admitted
    }

    pub fn try_caller_selected(limits: L) -> (r: Result<Self, AdmissionRefusal>)
        ensures
            match r {
                Ok(l) => limits.spec_valid() && l.spec_profile() is None && l.spec_requested() == limits
                    && l.spec_admitted() == limits,
                Err(e) => e == AdmissionRefusal::InvalidResourceLimits && !limits.spec_valid(),
            },
    {
        limits.validate()?;
        Ok(AdmittedOperationResourceLimits { profile: None, requested: limits, admitted: limits })
    }
}

/// Whatever limits an admission carries, its admitted set is valid and no
/// looser than the set that was requested.
pub proof fn lemma_admitted_limits_are_coherent<L: OperationLimitSet>(
    profile: ResourceProfileIdentity,
    requested: L,
    admitted: L,
    limits: AdmittedOperationResourceLimits<L>,
)
    requires
        limits.spec_profile() == Some(profile),
        limits.spec_requested() == requested,
        limits.spec_admitted() == admitted,
        requested.spec_valid(),
        admitted.spec_valid(),
        admitted.spec_no_looser_than(&requested),
    ensures
        limits.spec_admitted().spec_valid(),
        limits.spec_admitted().spec_no_looser_than(&limits.spec_requested()),
{
}

impl MonotonicTimeDomain {
    pub closed spec fn spec_value(&self) -> Seq<char> {
        self.value@
    }
}

#[derive(Clone, Debug, Eq, PartialEq)]
pub struct MonotonicInstant {
    domain: MonotonicTimeDomain,
    ticks: u64,
}

impl MonotonicInstant {
    pub closed spec fn spec_domain(&self) -> MonotonicTimeDomain {
        self.domain
    }

    pub closed spec fn spec_ticks(&self) -> u64 {
        self.ticks
    }

    pub fn try_new(domain: MonotonicTimeDomain, ticks: u64) -> (r: Self)
        ensures
            r.spec_domain() == domain,
            r.spec_ticks() == ticks,
    {
        MonotonicInstant { domain, ticks }
    }

    pub fn domain(&self) -> (r: &MonotonicTimeDomain)
        ensures
            *r == self.spec_domain(),
    {
        &self.domain
    }

    pub fn ticks(&self) -> (r: u64)
        ensures
            r == self.spec_ticks(),
    {
        self.ticks
    }

    pub fn checked_add_ticks(&self, ticks: u64) -> (r: Option<Self>)
        ensures
            match r {
                Some(i) => self.spec_ticks() + ticks <= u64::MAX && i.spec_ticks() == self.spec_ticks()
                    + ticks && i.spec_domain()@ == self.spec_domain()@,
                None => self.spec_ticks() + ticks > u64::MAX,
            },
    {
        let sum = self.ticks.checked_add(ticks)?;
        Some(MonotonicInstant { domain: self.domain.clone_domain(), ticks: sum })
    }
}

impl MonotonicTimeDomain {
    pub fn clone_domain(&self) -> (r: Self)
        ensures
            r@ == self@,
    {
        MonotonicTimeDomain { value: self.value.clone() }
    }
}

/// A monotonic clock supplied by the embedding adapter.
pub trait MonotonicClock {
    /// The domain of the instants that this clock reports.
    spec fn spec_domain(&self) -> Seq<char>;

    fn domain(&self) -> (r: &MonotonicTimeDomain)
        ensures
            r@ == self.spec_domain(),
    ;

    fn now(&self) -> (r: MonotonicInstant)
        ensures
            r.spec_domain()@ == self.spec_domain(),
    ;
}

/// A cancellation signal supplied by the embedding adapter.
pub trait InterruptionSource {
    fn interrupted(&self) -> bool;
}

#[derive(Clone, Debug, Eq, PartialEq)]
pub enum OperationDeadline {
    NoDeadline,
    At(MonotonicInstant),
}

/// Whether a deadline can be enforced by a clock: either there is no deadline
/// or its instant lies in the clock's domain.
pub open spec fn deadline_matches_clock(deadline: OperationDeadline, clock_domain: Seq<char>) -> bool {
    match deadline {
        OperationDeadline::NoDeadline => true,
        OperationDeadline::At(instant) => instant.spec_domain()@ == clock_domain,
    }
}

/// Checks that a deadline lies in the domain of a clock.
pub fn check_deadline_domain(deadline: &OperationDeadline, clock_domain: &MonotonicTimeDomain) -> (r: Result<
    (),
    AdmissionRefusal,
>)
    ensures
        r is Ok <==> deadline_matches_clock(*deadline, clock_domain@),
        r matches Err(e) ==> e == AdmissionRefusal::MissingEnforcementCapability,
{
    if let OperationDeadline::At(instant) = deadline {
        if !instant.domain().same_as(clock_domain) {
            return Err(AdmissionRefusal::MissingEnforcementCapability);
        }
    }
    Ok(())
}

} // verus!
