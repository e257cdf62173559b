//! Equality and order of the small value types: each compares as the value
//! it holds, so that sorting and deduplicating them follows their models.

use vstd::prelude::*;
use core::cmp::Ordering;
use vstd::std_specs::cmp::PartialEqSpecImpl;
use vstd::std_specs::cmp::PartialOrdSpecImpl;
use crate::authority::{FontStretch, FontWeight, OpenTypeAxisTag};
use crate::compilation::SignedUnixSeconds;
use crate::order::text_lt;
use crate::{CompletePackageTreeIdentity, OperationalCapabilityClass, ResourceProfileIdentity};

verus! {

impl PartialOrd for FontWeight {
    fn partial_cmp(&self, other: &Self) -> (r: Option<Ordering>) {
        if self.get() < other.get() {
            Some(Ordering::Less)
        } else if self.get() == other.get() {
            Some(Ordering::Equal)
        } else {
            Some(Ordering::Greater)
        }
    }
}

impl PartialOrdSpecImpl for FontWeight {
    open spec fn obeys_partial_cmp_spec() -> bool {
        true
    }

    open spec fn partial_cmp_spec(&self, other: &Self) -> Option<Ordering> {
        if self.spec_get() < other.spec_get() {
            Some(Ordering::Less)
        } else if self.spec_get() == other.spec_get() {
            Some(Ordering::Equal)
        } else {
            Some(Ordering::Greater)
        }
    }
}

impl PartialOrd for FontStretch {
    fn partial_cmp(&self, other: &Self) -> (r: Option<Ordering>) {
        if self.thousandths() < other.thousandths() {
            Some(Ordering::Less)
        } else if self.thousandths() == other.thousandths() {
            Some(Ordering::Equal)
        } else {
            Some(Ordering::Greater)
        }
    }
}

impl PartialOrdSpecImpl for FontStretch {
    open spec fn obeys_partial_cmp_spec() -> bool {
        true
    }

    open spec fn partial_cmp_spec(&self, other: &Self) -> Option<Ordering> {
        if self.spec_thousandths() < other.spec_thousandths() {
            Some(Ordering::Less)
        } else if self.spec_thousandths() == other.spec_thousandths() {
            Some(Ordering::Equal)
        } else {
            Some(Ordering::Greater)
        }
    }
}

impl PartialEq for OpenTypeAxisTag {
    fn eq(&self, other: &Self) -> (r: bool) {
        let a = self.as_bytes();
        let b = other.as_bytes();
        let r = a[0] == b[0] && a[1] == b[1] && a[2] == b[2] && a[3] == b[3];
        proof {
            if r {
                assert(a@ =~= b@);
            }
        }
        r
    }
}

impl PartialEqSpecImpl for OpenTypeAxisTag {
    open spec fn obeys_eq_spec() -> bool {
        true
    }

    open spec fn eq_spec(&self, other: &Self) -> bool {
        self.spec_bytes() == other.spec_bytes()
    }
}

impl PartialOrd for OpenTypeAxisTag {
    fn partial_cmp(&self, other: &Self) -> (r: Option<Ordering>) {
        if self.key() < other.key() {
            Some(Ordering::Less)
        } else if self.key() == other.key() {
            Some(Ordering::Equal)
        } else {
            Some(Ordering::Greater)
        }
    }
}

impl PartialOrdSpecImpl for OpenTypeAxisTag {
    open spec fn obeys_partial_cmp_spec() -> bool {
        true
    }

    open spec fn partial_cmp_spec(&self, other: &Self) -> Option<Ordering> {
        if self.spec_key() < other.spec_key() {
            Some(Ordering::Less)
        } else if self.spec_key() == other.spec_key() {
            Some(Ordering::Equal)
        } else {
            Some(Ordering::Greater)
        }
    }
}

impl PartialOrd for SignedUnixSeconds {
    fn partial_cmp(&self, other: &Self) -> (r: Option<Ordering>) {
        if self.get() < other.get() {
            Some(Ordering::Less)
        } else if self.get() == other.get() {
            Some(Ordering::Equal)
        } else {
            Some(Ordering::Greater)
        }
    }
}

impl PartialOrdSpecImpl for SignedUnixSeconds {
    open spec fn obeys_partial_cmp_spec() -> bool {
        true
    }

    open spec fn partial_cmp_spec(&self, other: &Self) -> Option<Ordering> {
        if self.spec_get() < other.spec_get() {
            Some(Ordering::Less)
        } else if self.spec_get() == other.spec_get() {
            Some(Ordering::Equal)
        } else {
            Some(Ordering::Greater)
        }
    }
}

impl PartialEq for OperationalCapabilityClass {
    fn eq(&self, other: &Self) -> (r: bool) {
        self.same_as(other)
    }
}

impl PartialEqSpecImpl for OperationalCapabilityClass {
    open spec fn obeys_eq_spec() -> bool {
        true
    }

    open spec fn eq_spec(&self, other: &Self) -> bool {
        self@ == other@
    }
}

impl PartialOrd for OperationalCapabilityClass {
    fn partial_cmp(&self, other: &Self) -> (r: Option<Ordering>) {
        let a = crate::text::chars_of(self.as_str());
        let b = crate::text::chars_of(other.as_str());
        let c = crate::order::compare_text(a.as_slice(), b.as_slice());
        if c < 0 {
            Some(Ordering::Less)
        } else if c == 0 {
            Some(Ordering::Equal)
        } else {
            Some(Ordering::Greater)
        }
    }
}

impl PartialOrdSpecImpl for OperationalCapabilityClass {
    open spec fn obeys_partial_cmp_spec() -> bool {
        true
    }

    open spec fn partial_cmp_spec(&self, other: &Self) -> Option<Ordering> {
        if text_lt(self@, other@) {
            Some(Ordering::Less)
        } else if self@ == other@ {
            Some(Ordering::Equal)
        } else {
            Some(Ordering::Greater)
        }
    }
}

/// Two capability classes are equal exactly when their texts are, and one
/// comes before the other exactly when its text does.
pub proof fn lemma_capability_class_order(a: OperationalCapabilityClass, b: OperationalCapabilityClass)
    ensures
        vstd::std_specs::cmp::PartialEqSpec::eq_spec(&a, &b) <==> a@ == b@,
        (vstd::std_specs::cmp::PartialOrdSpec::partial_cmp_spec(&a, &b) == Some(Ordering::Less)) <==> text_lt(a@, b@),
        (vstd::std_specs::cmp::PartialOrdSpec::partial_cmp_spec(&a, &b) == Some(Ordering::Greater)) <==> text_lt(b@, a@),
{
    crate::order::lemma_text_lt_irreflexive(a@, 0);
    crate::order::lemma_text_lt_irreflexive(b@, 0);
    if text_lt(a@, b@) && text_lt(b@, a@) {
        crate::order::lemma_text_lt_transitive(a@, b@, a@, 0);
    }
    if a@ != b@ && !text_lt(a@, b@) && !text_lt(b@, a@) {
        assert(a@.subrange(0, 0) =~= b@.subrange(0, 0));
        crate::order::lemma_text_lt_total(a@, b@, 0);
    }
}


impl PartialEq for CompletePackageTreeIdentity {
    fn eq(&self, other: &Self) -> (r: bool) {
        self.same_as(other)
    }
}

impl PartialEqSpecImpl for CompletePackageTreeIdentity {
    open spec fn obeys_eq_spec() -> bool {
        true
    }

    open spec fn eq_spec(&self, other: &Self) -> bool {
        self@ == other@
    }
}

/// Two package tree identities are equal exactly when their texts are.
pub proof fn lemma_package_tree_identity_eq(a: CompletePackageTreeIdentity, b: CompletePackageTreeIdentity)
    ensures
        vstd::std_specs::cmp::PartialEqSpec::eq_spec(&a, &b) <==> a@ == b@,
{
}

impl PartialEq for ResourceProfileIdentity {
    fn eq(&self, other: &Self) -> (r: bool) {
        let a = crate::text::chars_of(self.name());
        let b = crate::text::chars_of(other.name());
        crate::order::compare_text(a.as_slice(), b.as_slice()) == 0 && self.version() == other.version()
    }
}

impl PartialEqSpecImpl for ResourceProfileIdentity {
    open spec fn obeys_eq_spec() -> bool {
        true
    }

    open spec fn eq_spec(&self, other: &Self) -> bool {
        self.spec_name() == other.spec_name() && self.spec_version() == other.spec_version()
    }
}

/// Two resource profiles are equal exactly when their names and their
/// versions are: the version is part of the identity, so profiles of one
/// name with different versions differ.
pub proof fn lemma_resource_profile_eq(a: ResourceProfileIdentity, b: ResourceProfileIdentity)
    ensures
        vstd::std_specs::cmp::PartialEqSpec::eq_spec(&a, &b) <==> (a.spec_name() == b.spec_name()
            && a.spec_version() == b.spec_version()),
        a.spec_name() == b.spec_name() ==> (vstd::std_specs::cmp::PartialEqSpec::eq_spec(&a, &b)
            <==> a.spec_version() == b.spec_version()),
{
}
} // verus!
