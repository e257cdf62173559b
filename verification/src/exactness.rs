//! Whether a compilation fulfillment set is exactly what a pack requires:
//! every external requirement fulfilled, nothing fulfilled that the pack
//! does not declare or already embeds, and every fulfillment matching its
//! requirement.

use vstd::prelude::*;
use vstd::string::StringExecFns;
use crate::CanonicalIdentity;
use crate::fulfillment::FontRequirementSummary;
use crate::order::text_lt;

verus! {

/// One package requirement of a pack, keyed by its specification text.
#[derive(Clone, Debug)]
pub struct PackageRequirementSummary {
    pub spec: String,
    pub tree_identity: CanonicalIdentity,
    pub file_count: u64,
    pub byte_length: u64,
    pub embedded: bool,
}

/// One supplied package tree, keyed by the specification it fulfills, with
/// where it came from and whether a cache supplied it.
#[derive(Clone, Debug)]
pub struct PackageFulfillmentSummary {
    pub spec: String,
    pub tree_identity: CanonicalIdentity,
    pub file_count: u64,
    pub byte_length: u64,
    pub provenance: Option<String>,
    pub cache_hit: bool,
}

/// One supplied font container: the identity it was supplied for, the
/// identity and length of the bytes supplied, and the faces they hold.
#[derive(Clone, Debug)]
pub struct FontFulfillmentSummary {
    pub expected_identity: CanonicalIdentity,
    pub actual_identity: CanonicalIdentity,
    pub actual_length: u64,
    pub face_indices: Vec<u32>,
}

/// One deviation of a fulfillment set from what a pack requires.
#[derive(Clone, Debug)]
pub enum CompilationFulfillmentIssue {
    MissingExternalPackage { spec: String },
    UndeclaredPackage { spec: String, actual: CanonicalIdentity },
    UnexpectedEmbeddedPackage { spec: String },
    MismatchedPackageTree {
        spec: String,
        expected: CanonicalIdentity,
        actual: CanonicalIdentity,
        expected_file_count: u64,
        actual_file_count: u64,
        expected_byte_length: u64,
        actual_byte_length: u64,
    },
    MissingExternalFont { identity: CanonicalIdentity },
    UndeclaredFont { identity: CanonicalIdentity, actual: CanonicalIdentity },
    UnexpectedEmbeddedFont { identity: CanonicalIdentity },
    MismatchedFontContainer { expected: CanonicalIdentity, actual: CanonicalIdentity, expected_length: u64, actual_length: u64 },
    MissingFontFace { identity: CanonicalIdentity, index: u32 },
}

/// The mathematical value of an issue: its texts as character sequences.
pub enum FulfillmentDeviation {
    MissingExternalPackage { spec: Seq<char> },
    UndeclaredPackage { spec: Seq<char>, actual: Seq<char> },
    UnexpectedEmbeddedPackage { spec: Seq<char> },
    MismatchedPackageTree {
        spec: Seq<char>,
        expected: Seq<char>,
        actual: Seq<char>,
        expected_file_count: u64,
        actual_file_count: u64,
        expected_byte_length: u64,
        actual_byte_length: u64,
    },
    MissingExternalFont { identity: Seq<char> },
    UndeclaredFont { identity: Seq<char>, actual: Seq<char> },
    UnexpectedEmbeddedFont { identity: Seq<char> },
    MismatchedFontContainer { expected: Seq<char>, actual: Seq<char>, expected_length: u64, actual_length: u64 },
    MissingFontFace { identity: Seq<char>, index: u32 },
}

impl CompilationFulfillmentIssue {
    pub open spec fn deviation(&self) -> FulfillmentDeviation {
        match self {
            CompilationFulfillmentIssue::MissingExternalPackage { spec } => FulfillmentDeviation::MissingExternalPackage { spec: spec@ },
            CompilationFulfillmentIssue::UndeclaredPackage { spec, actual } => FulfillmentDeviation::UndeclaredPackage {
                spec: spec@,
                actual: actual@,
            },
            CompilationFulfillmentIssue::UnexpectedEmbeddedPackage { spec } => FulfillmentDeviation::UnexpectedEmbeddedPackage {
                spec: spec@,
            },
            CompilationFulfillmentIssue::MismatchedPackageTree {
                spec,
                expected,
                actual,
                expected_file_count,
                actual_file_count,
                expected_byte_length,
                actual_byte_length,
            } => FulfillmentDeviation::MismatchedPackageTree {
                spec: spec@,
                expected: expected@,
                actual: actual@,
                expected_file_count: *expected_file_count,
                actual_file_count: *actual_file_count,
                expected_byte_length: *expected_byte_length,
                actual_byte_length: *actual_byte_length,
            },
            CompilationFulfillmentIssue::MissingExternalFont { identity } => FulfillmentDeviation::MissingExternalFont {
                identity: identity@,
            },
            CompilationFulfillmentIssue::UndeclaredFont { identity, actual } => FulfillmentDeviation::UndeclaredFont {
                identity: identity@,
                actual: actual@,
            },
            CompilationFulfillmentIssue::UnexpectedEmbeddedFont { identity } => FulfillmentDeviation::UnexpectedEmbeddedFont {
                identity: identity@,
            },
            CompilationFulfillmentIssue::MismatchedFontContainer { expected, actual, expected_length, actual_length } =>
                FulfillmentDeviation::MismatchedFontContainer {
                expected: expected@,
                actual: actual@,
                expected_length: *expected_length,
                actual_length: *actual_length,
            },
            CompilationFulfillmentIssue::MissingFontFace { identity, index } => FulfillmentDeviation::MissingFontFace {
                identity: identity@,
                index: *index,
            },
        }
    }
}

/// The canonical position of a deviation: packages before fonts, then the
/// specification or identity, then the kind, then the face index.
pub open spec fn deviation_key(d: FulfillmentDeviation) -> (u8, Seq<char>, u8, u32) {
    match d {
        FulfillmentDeviation::MissingExternalPackage { spec } => (0, spec, 0, 0),
        FulfillmentDeviation::UndeclaredPackage { spec, .. } => (0, spec, 0, 0),
        FulfillmentDeviation::UnexpectedEmbeddedPackage { spec } => (0, spec, 1, 0),
        FulfillmentDeviation::MismatchedPackageTree { spec, .. } => (0, spec, 2, 0),
        FulfillmentDeviation::MissingExternalFont { identity } => (1, identity, 0, 0),
        FulfillmentDeviation::UndeclaredFont { identity, .. } => (1, identity, 0, 0),
        FulfillmentDeviation::UnexpectedEmbeddedFont { identity } => (1, identity, 1, 0),
        FulfillmentDeviation::MismatchedFontContainer { expected, .. } => (1, expected, 2, 0),
        FulfillmentDeviation::MissingFontFace { identity, index } => (1, identity, 3, index),
    }
}

/// The strict lexicographic order of deviation keys.
pub open spec fn deviation_key_lt(a: (u8, Seq<char>, u8, u32), b: (u8, Seq<char>, u8, u32)) -> bool {
    ||| a.0 < b.0
    ||| a.0 == b.0 && text_lt(a.1, b.1)
    ||| a.0 == b.0 && a.1 == b.1 && a.2 < b.2
    ||| a.0 == b.0 && a.1 == b.1 && a.2 == b.2 && a.3 < b.3
}

pub open spec fn package_required(pr: Seq<PackageRequirementSummary>, spec: Seq<char>) -> bool {
    exists|i: int| 0 <= i < pr.len() && #[trigger] pr[i].spec@ == spec
}

pub open spec fn package_fulfilled(pf: Seq<PackageFulfillmentSummary>, spec: Seq<char>) -> bool {
    exists|j: int| 0 <= j < pf.len() && #[trigger] pf[j].spec@ == spec
}

pub open spec fn font_required(fr: Seq<FontRequirementSummary>, identity: Seq<char>) -> bool {
    exists|i: int| 0 <= i < fr.len() && #[trigger] fr[i].container_identity@ == identity
}

pub open spec fn font_fulfilled(ff: Seq<FontFulfillmentSummary>, identity: Seq<char>) -> bool {
    exists|j: int| 0 <= j < ff.len() && #[trigger] ff[j].expected_identity@ == identity
}

/// Whether a supplied package tree differs from its requirement.
pub open spec fn package_mismatch(r: PackageRequirementSummary, f: PackageFulfillmentSummary) -> bool {
    r.tree_identity@ != f.tree_identity@ || r.file_count != f.file_count || r.byte_length != f.byte_length
}

/// Whether a supplied font container differs from its requirement.
pub open spec fn font_mismatch(r: FontRequirementSummary, f: FontFulfillmentSummary) -> bool {
    f.actual_identity@ != r.container_identity@ || f.actual_length != r.container_length
}

/// The inputs of a fulfillment check, each keyed uniquely.
pub open spec fn keys_unique(
    pr: Seq<PackageRequirementSummary>,
    pf: Seq<PackageFulfillmentSummary>,
    fr: Seq<FontRequirementSummary>,
    ff: Seq<FontFulfillmentSummary>,
) -> bool {
    &&& forall|a: int, b: int| 0 <= a < b < pr.len() ==> pr[a].spec@ != pr[b].spec@
    &&& forall|a: int, b: int| 0 <= a < b < pf.len() ==> pf[a].spec@ != pf[b].spec@
    &&& forall|a: int, b: int| 0 <= a < b < fr.len() ==> fr[a].container_identity@ != fr[b].container_identity@
    &&& forall|a: int, b: int| 0 <= a < b < ff.len() ==> ff[a].expected_identity@ != ff[b].expected_identity@
}

/// Whether `d` is a deviation of the fulfillments `pf` and `ff` from the
/// requirements `pr` and `fr`.
pub open spec fn is_deviation(
    pr: Seq<PackageRequirementSummary>,
    pf: Seq<PackageFulfillmentSummary>,
    fr: Seq<FontRequirementSummary>,
    ff: Seq<FontFulfillmentSummary>,
    d: FulfillmentDeviation,
) -> bool {
    match d {
        FulfillmentDeviation::MissingExternalPackage { spec } => (exists|i: int|
            0 <= i < pr.len() && #[trigger] pr[i].spec@ == spec && !pr[i].embedded) && !package_fulfilled(pf, spec),
        FulfillmentDeviation::UndeclaredPackage { spec, actual } => (exists|j: int|
            0 <= j < pf.len() && #[trigger] pf[j].spec@ == spec && pf[j].tree_identity@ == actual) && !package_required(pr, spec),
        FulfillmentDeviation::UnexpectedEmbeddedPackage { spec } => (exists|i: int|
            0 <= i < pr.len() && #[trigger] pr[i].spec@ == spec && pr[i].embedded) && package_fulfilled(pf, spec),
        FulfillmentDeviation::MismatchedPackageTree {
            spec,
            expected,
            actual,
            expected_file_count,
            actual_file_count,
            expected_byte_length,
            actual_byte_length,
        } => exists|i: int, j: int|
            0 <= i < pr.len() && 0 <= j < pf.len() && #[trigger] pr[i].spec@ == spec && #[trigger] pf[j].spec@ == spec
                && package_mismatch(pr[i], pf[j]) && expected == pr[i].tree_identity@ && actual == pf[j].tree_identity@
                && expected_file_count == pr[i].file_count && actual_file_count == pf[j].file_count
                && expected_byte_length == pr[i].byte_length && actual_byte_length == pf[j].byte_length,
        FulfillmentDeviation::MissingExternalFont { identity } => (exists|i: int|
            0 <= i < fr.len() && #[trigger] fr[i].container_identity@ == identity && !fr[i].embedded) && !font_fulfilled(ff, identity),
        FulfillmentDeviation::UndeclaredFont { identity, actual } => (exists|j: int|
            0 <= j < ff.len() && #[trigger] ff[j].expected_identity@ == identity && ff[j].actual_identity@ == actual)
            && !font_required(fr, identity),
        FulfillmentDeviation::UnexpectedEmbeddedFont { identity } => (exists|i: int|
            0 <= i < fr.len() && #[trigger] fr[i].container_identity@ == identity && fr[i].embedded) && font_fulfilled(ff, identity),
        FulfillmentDeviation::MismatchedFontContainer { expected, actual, expected_length, actual_length } => exists|i: int, j: int|
            0 <= i < fr.len() && 0 <= j < ff.len() && #[trigger] fr[i].container_identity@ == expected
                && #[trigger] ff[j].expected_identity@ == expected && font_mismatch(fr[i], ff[j])
                && actual == ff[j].actual_identity@ && expected_length == fr[i].container_length
                && actual_length == ff[j].actual_length,
        FulfillmentDeviation::MissingFontFace { identity, index } => exists|i: int, j: int|
            0 <= i < fr.len() && 0 <= j < ff.len() && #[trigger] fr[i].container_identity@ == identity
                && #[trigger] ff[j].expected_identity@ == identity && fr[i].face_indices@.contains(index)
                && !ff[j].face_indices@.contains(index),
    }
}

/// Whether the fulfillments are exactly what the requirements ask for.
pub open spec fn fulfillment_exact(
    pr: Seq<PackageRequirementSummary>,
    pf: Seq<PackageFulfillmentSummary>,
    fr: Seq<FontRequirementSummary>,
    ff: Seq<FontFulfillmentSummary>,
) -> bool {
    &&& forall|i: int| 0 <= i < pr.len() ==> (#[trigger] package_fulfilled(pf, pr[i].spec@) <==> !pr[i].embedded)
    &&& forall|j: int| 0 <= j < pf.len() ==> #[trigger] package_required(pr, pf[j].spec@)
    &&& forall|i: int, j: int|
        0 <= i < pr.len() && 0 <= j < pf.len() && #[trigger] pr[i].spec@ == #[trigger] pf[j].spec@ ==> !package_mismatch(pr[i], pf[j])
    &&& forall|i: int| 0 <= i < fr.len() ==> (#[trigger] font_fulfilled(ff, fr[i].container_identity@) <==> !fr[i].embedded)
    &&& forall|j: int| 0 <= j < ff.len() ==> #[trigger] font_required(fr, ff[j].expected_identity@)
    &&& forall|i: int, j: int|
        0 <= i < fr.len() && 0 <= j < ff.len() && #[trigger] fr[i].container_identity@ == #[trigger] ff[j].expected_identity@
            ==> !font_mismatch(fr[i], ff[j]) && fr[i].face_indices@.to_set().subset_of(ff[j].face_indices@.to_set())
}

/// Whether some issue of `s` has the value `d`.
pub open spec fn reports(s: Seq<CompilationFulfillmentIssue>, d: FulfillmentDeviation) -> bool {
    exists|k: int| 0 <= k < s.len() && #[trigger] s[k].deviation() == d
}

/// Whether the issues are in strictly increasing canonical order.
pub open spec fn issues_ascending(s: Seq<CompilationFulfillmentIssue>) -> bool {
    forall|a: int, b: int| 0 <= a < b < s.len() ==> deviation_key_lt(deviation_key(s[a].deviation()), deviation_key(s[b].deviation()))
}

/// Two deviations in the same canonical position are the same deviation.
pub proof fn lemma_deviation_determined_by_key(
    pr: Seq<PackageRequirementSummary>,
    pf: Seq<PackageFulfillmentSummary>,
    fr: Seq<FontRequirementSummary>,
    ff: Seq<FontFulfillmentSummary>,
    a: FulfillmentDeviation,
    b: FulfillmentDeviation,
)
    requires
        keys_unique(pr, pf, fr, ff),
        is_deviation(pr, pf, fr, ff, a),
        is_deviation(pr, pf, fr, ff, b),
        deviation_key(a) == deviation_key(b),
    ensures
        a == b,
{
    match a {
        FulfillmentDeviation::UndeclaredPackage { spec, actual } => {
            if let FulfillmentDeviation::UndeclaredPackage { spec: spec2, actual: actual2 } = b {
                let j1 = choose|j: int| 0 <= j < pf.len() && #[trigger] pf[j].spec@ == spec && pf[j].tree_identity@ == actual;
                let j2 = choose|j: int| 0 <= j < pf.len() && #[trigger] pf[j].spec@ == spec2 && pf[j].tree_identity@ == actual2;
                if j1 < j2 {
                    assert(pf[j1].spec@ != pf[j2].spec@);
                } else if j2 < j1 {
                    assert(pf[j2].spec@ != pf[j1].spec@);
                }
            }
        },
        FulfillmentDeviation::MissingExternalPackage { spec } => {
            if let FulfillmentDeviation::UndeclaredPackage { spec: spec2, .. } = b {
                let i = choose|i: int| 0 <= i < pr.len() && #[trigger] pr[i].spec@ == spec && !pr[i].embedded;
                assert(package_required(pr, spec2));
            }
        },
        FulfillmentDeviation::MismatchedPackageTree { spec, .. } => {
            if let FulfillmentDeviation::MismatchedPackageTree { spec: spec2, .. } = b {
                let (i1, j1) = choose|i: int, j: int|
                    0 <= i < pr.len() && 0 <= j < pf.len() && #[trigger] pr[i].spec@ == spec && #[trigger] pf[j].spec@ == spec
                        && package_mismatch(pr[i], pf[j]) && a->MismatchedPackageTree_expected == pr[i].tree_identity@ && a->MismatchedPackageTree_actual
                        == pf[j].tree_identity@ && a->expected_file_count == pr[i].file_count && a->actual_file_count
                        == pf[j].file_count && a->expected_byte_length == pr[i].byte_length && a->actual_byte_length
                        == pf[j].byte_length;
                let (i2, j2) = choose|i: int, j: int|
                    0 <= i < pr.len() && 0 <= j < pf.len() && #[trigger] pr[i].spec@ == spec2 && #[trigger] pf[j].spec@ == spec2
                        && package_mismatch(pr[i], pf[j]) && b->MismatchedPackageTree_expected == pr[i].tree_identity@ && b->MismatchedPackageTree_actual
                        == pf[j].tree_identity@ && b->expected_file_count == pr[i].file_count && b->actual_file_count
                        == pf[j].file_count && b->expected_byte_length == pr[i].byte_length && b->actual_byte_length
                        == pf[j].byte_length;
                if i1 != i2 {
                    if i1 < i2 {
                        assert(pr[i1].spec@ != pr[i2].spec@);
                    } else {
                        assert(pr[i2].spec@ != pr[i1].spec@);
                    }
                }
                if j1 != j2 {
                    if j1 < j2 {
                        assert(pf[j1].spec@ != pf[j2].spec@);
                    } else {
                        assert(pf[j2].spec@ != pf[j1].spec@);
                    }
                }
            }
        },
        FulfillmentDeviation::UndeclaredFont { identity, actual } => {
            if let FulfillmentDeviation::UndeclaredFont { identity: identity2, actual: actual2 } = b {
                let j1 = choose|j: int| 0 <= j < ff.len() && #[trigger] ff[j].expected_identity@ == identity && ff[j].actual_identity@ == actual;
                let j2 = choose|j: int| 0 <= j < ff.len() && #[trigger] ff[j].expected_identity@ == identity2 && ff[j].actual_identity@ == actual2;
                if j1 < j2 {
                    assert(ff[j1].expected_identity@ != ff[j2].expected_identity@);
                } else if j2 < j1 {
                    assert(ff[j2].expected_identity@ != ff[j1].expected_identity@);
                }
            }
        },
        FulfillmentDeviation::MissingExternalFont { identity } => {
            if let FulfillmentDeviation::UndeclaredFont { identity: identity2, .. } = b {
                let i = choose|i: int| 0 <= i < fr.len() && #[trigger] fr[i].container_identity@ == identity && !fr[i].embedded;
                assert(font_required(fr, identity2));
            }
        },
        FulfillmentDeviation::MismatchedFontContainer { expected, .. } => {
            if let FulfillmentDeviation::MismatchedFontContainer { expected: expected2, .. } = b {
                let (i1, j1) = choose|i: int, j: int|
                    0 <= i < fr.len() && 0 <= j < ff.len() && #[trigger] fr[i].container_identity@ == expected
                        && #[trigger] ff[j].expected_identity@ == expected && font_mismatch(fr[i], ff[j])
                        && a->MismatchedFontContainer_actual == ff[j].actual_identity@ && a->expected_length
                        == fr[i].container_length && a->actual_length == ff[j].actual_length;
                let (i2, j2) = choose|i: int, j: int|
                    0 <= i < fr.len() && 0 <= j < ff.len() && #[trigger] fr[i].container_identity@ == expected2
                        && #[trigger] ff[j].expected_identity@ == expected2 && font_mismatch(fr[i], ff[j])
                        && b->MismatchedFontContainer_actual == ff[j].actual_identity@ && b->expected_length
                        == fr[i].container_length && b->actual_length == ff[j].actual_length;
                if i1 != i2 {
                    if i1 < i2 {
                        assert(fr[i1].container_identity@ != fr[i2].container_identity@);
                    } else {
                        assert(fr[i2].container_identity@ != fr[i1].container_identity@);
                    }
                }
                if j1 != j2 {
                    if j1 < j2 {
                        assert(ff[j1].expected_identity@ != ff[j2].expected_identity@);
                    } else {
                        assert(ff[j2].expected_identity@ != ff[j1].expected_identity@);
                    }
                }
            }
        },
        _ => {},
    }
    match b {
        FulfillmentDeviation::MissingExternalPackage { spec } => {
            if let FulfillmentDeviation::UndeclaredPackage { spec: spec2, .. } = a {
                let i = choose|i: int| 0 <= i < pr.len() && #[trigger] pr[i].spec@ == spec && !pr[i].embedded;
                assert(package_required(pr, spec2));
            }
        },
        FulfillmentDeviation::MissingExternalFont { identity } => {
            if let FulfillmentDeviation::UndeclaredFont { identity: identity2, .. } = a {
                let i = choose|i: int| 0 <= i < fr.len() && #[trigger] fr[i].container_identity@ == identity && !fr[i].embedded;
                assert(font_required(fr, identity2));
            }
        },
        _ => {},
    }
}

/// The deviation key order is a strict total order.
pub proof fn lemma_deviation_key_order(a: (u8, Seq<char>, u8, u32), b: (u8, Seq<char>, u8, u32), c: (u8, Seq<char>, u8, u32))
    ensures
        !deviation_key_lt(a, a),
        deviation_key_lt(a, b) && deviation_key_lt(b, c) ==> deviation_key_lt(a, c),
        a == b || deviation_key_lt(a, b) || deviation_key_lt(b, a),
        deviation_key_lt(a, b) ==> !deviation_key_lt(b, a),
{
    crate::order::lemma_text_lt_irreflexive(a.1, 0);
    crate::order::lemma_text_lt_irreflexive(b.1, 0);
    if text_lt(a.1, b.1) && text_lt(b.1, c.1) {
        crate::order::lemma_text_lt_transitive(a.1, b.1, c.1, 0);
    }
    if text_lt(a.1, b.1) && text_lt(b.1, a.1) {
        crate::order::lemma_text_lt_transitive(a.1, b.1, a.1, 0);
    }
    assert(a.1.subrange(0, 0) =~= b.1.subrange(0, 0));
    crate::order::lemma_text_lt_total(a.1, b.1, 0);
}

impl CompilationFulfillmentIssue {
    /// The canonical position of this issue, with its text as characters.
    fn key_chars(&self) -> (r: (u8, Vec<char>, u8, u32))
        ensures
            (r.0, r.1@, r.2, r.3) == deviation_key(self.deviation()),
    {
        match self {
            CompilationFulfillmentIssue::MissingExternalPackage { spec } => (0, crate::text::chars_of(spec.as_str()), 0, 0),
            CompilationFulfillmentIssue::UndeclaredPackage { spec, .. } => (0, crate::text::chars_of(spec.as_str()), 0, 0),
            CompilationFulfillmentIssue::UnexpectedEmbeddedPackage { spec } => (0, crate::text::chars_of(spec.as_str()), 1, 0),
            CompilationFulfillmentIssue::MismatchedPackageTree { spec, .. } => (0, crate::text::chars_of(spec.as_str()), 2, 0),
            CompilationFulfillmentIssue::MissingExternalFont { identity } => (1, crate::text::chars_of(identity.as_str()), 0, 0),
            CompilationFulfillmentIssue::UndeclaredFont { identity, .. } => (1, crate::text::chars_of(identity.as_str()), 0, 0),
            CompilationFulfillmentIssue::UnexpectedEmbeddedFont { identity } => (1, crate::text::chars_of(identity.as_str()), 1, 0),
            CompilationFulfillmentIssue::MismatchedFontContainer { expected, .. } => (1, crate::text::chars_of(expected.as_str()), 2, 0),
            CompilationFulfillmentIssue::MissingFontFace { identity, index } => (1, crate::text::chars_of(identity.as_str()), 3, *index),
        }
    }
}

fn compare_deviation_keys(a: &(u8, Vec<char>, u8, u32), b: &(u8, Vec<char>, u8, u32)) -> (r: i8)
    ensures
        r < 0 <==> deviation_key_lt((a.0, a.1@, a.2, a.3), (b.0, b.1@, b.2, b.3)),
        r == 0 <==> (a.0, a.1@, a.2, a.3) == (b.0, b.1@, b.2, b.3),
        r > 0 <==> deviation_key_lt((b.0, b.1@, b.2, b.3), (a.0, a.1@, a.2, a.3)),
{
    proof {
        lemma_deviation_key_order((a.0, a.1@, a.2, a.3), (b.0, b.1@, b.2, b.3), (a.0, a.1@, a.2, a.3));
    }
    if a.0 < b.0 {
        return -1;
    }
    if a.0 > b.0 {
        return 1;
    }
    let c = crate::order::compare_text(a.1.as_slice(), b.1.as_slice());
    if c != 0 {
        return c;
    }
    if a.2 < b.2 {
        return -1;
    }
    if a.2 > b.2 {
        return 1;
    }
    if a.3 < b.3 {
        -1
    } else if a.3 > b.3 {
        1
    } else {
        0
    }
}

/// Inserts an issue at its canonical position, unless an issue with the
/// same value is there.
fn insert_issue(out: &mut Vec<CompilationFulfillmentIssue>, x: CompilationFulfillmentIssue)
    requires
        issues_ascending(old(out)@),
        forall|k: int|
            0 <= k < old(out)@.len() && deviation_key(#[trigger] old(out)@[k].deviation()) == deviation_key(x.deviation())
                ==> old(out)@[k].deviation() == x.deviation(),
    ensures
        issues_ascending(final(out)@),
        forall|d: FulfillmentDeviation| #[trigger] reports(final(out)@, d) <==> (reports(old(out)@, d) || d == x.deviation()),
{
    let key = x.key_chars();
    let ghost kx = deviation_key(x.deviation());
    let mut p: usize = 0;
    let mut equal = false;
    while p < out.len()
        invariant_except_break
            !equal,
        invariant
            p <= out@.len(),
            (key.0, key.1@, key.2, key.3) == kx,
            out@ == old(out)@,
            forall|q: int| 0 <= q < p ==> deviation_key_lt(deviation_key(#[trigger] out@[q].deviation()), kx),
        ensures
            p <= out@.len(),
            out@ == old(out)@,
            forall|q: int| 0 <= q < p ==> deviation_key_lt(deviation_key(#[trigger] out@[q].deviation()), kx),
            equal ==> p < out@.len() && deviation_key(out@[p as int].deviation()) == kx,
            !equal ==> p == out@.len() || deviation_key_lt(kx, deviation_key(out@[p as int].deviation())),
        decreases out@.len() - p,
    {
        let other = out[p].key_chars();
        let c = compare_deviation_keys(&other, &key);
        if c == 0 {
            equal = true;
            break;
        }
        if c > 0 {
            break;
        }
        p = p + 1;
    }
    if equal {
        proof {
            assert(out@[p as int].deviation() == x.deviation());
            assert forall|d: FulfillmentDeviation| #[trigger] reports(out@, d) <==> (reports(old(out)@, d) || d == x.deviation()) by {
                if d == x.deviation() {
                    assert(out@[p as int].deviation() == d);
                }
            }
        }
        return;
    }
    let ghost s = out@;
    let ghost dx = x.deviation();
    assert(s == old(out)@);
    out.insert(p, x);
    proof {
        assert forall|a: int, b: int| 0 <= a < b < out@.len() implies deviation_key_lt(
            deviation_key(out@[a].deviation()),
            deviation_key(out@[b].deviation()),
        ) by {
            if b < p {
                assert(out@[a] == s[a] && out@[b] == s[b]);
            } else if b == p {
                assert(out@[a] == s[a]);
            } else if a == p {
                assert(out@[b] == s[b - 1]);
                if b - 1 > p {
                    assert(deviation_key_lt(deviation_key(s[p as int].deviation()), deviation_key(s[b - 1].deviation())));
                    lemma_deviation_key_order(kx, deviation_key(s[p as int].deviation()), deviation_key(s[b - 1].deviation()));
                }
            } else if a < p {
                assert(out@[a] == s[a] && out@[b] == s[b - 1]);
                if b - 1 > a {
                    assert(deviation_key_lt(deviation_key(s[a].deviation()), deviation_key(s[b - 1].deviation())));
                    lemma_deviation_key_order(deviation_key(s[a].deviation()), kx, deviation_key(s[b - 1].deviation()));
                } else {
                    lemma_deviation_key_order(deviation_key(s[a].deviation()), kx, deviation_key(s[b - 1].deviation()));
                }
            } else {
                assert(out@[a] == s[a - 1] && out@[b] == s[b - 1]);
                assert(deviation_key_lt(deviation_key(s[a - 1].deviation()), deviation_key(s[b - 1].deviation())));
            }
        }
        assert forall|d: FulfillmentDeviation| #[trigger] reports(out@, d) <==> (reports(s, d) || d == dx) by {
            if reports(out@, d) {
                let k = choose|k: int| 0 <= k < out@.len() && #[trigger] out@[k].deviation() == d;
                if k < p {
                    assert(out@[k] == s[k]);
                } else if k > p {
                    assert(out@[k] == s[k - 1]);
                }
            }
            if reports(s, d) {
                let k = choose|k: int| 0 <= k < s.len() && #[trigger] s[k].deviation() == d;
                if k < p {
                    assert(out@[k] == s[k]);
                } else {
                    assert(out@[k + 1] == s[k]);
                }
            }
            if d == dx {
                assert(out@[p as int].deviation() == d);
            }
        }
    }
}

/// Whether every issue of `out` is a deviation.
pub open spec fn only_deviations(
    pr: Seq<PackageRequirementSummary>,
    pf: Seq<PackageFulfillmentSummary>,
    fr: Seq<FontRequirementSummary>,
    ff: Seq<FontFulfillmentSummary>,
    out: Seq<CompilationFulfillmentIssue>,
) -> bool {
    forall|d: FulfillmentDeviation| #[trigger] reports(out, d) ==> is_deviation(pr, pf, fr, ff, d)
}

/// Records one deviation.
fn record_issue(
    pr: &[PackageRequirementSummary],
    pf: &[PackageFulfillmentSummary],
    fr: &[FontRequirementSummary],
    ff: &[FontFulfillmentSummary],
    out: &mut Vec<CompilationFulfillmentIssue>,
    x: CompilationFulfillmentIssue,
)
    requires
        keys_unique(pr@, pf@, fr@, ff@),
        issues_ascending(old(out)@),
        only_deviations(pr@, pf@, fr@, ff@, old(out)@),
        is_deviation(pr@, pf@, fr@, ff@, x.deviation()),
    ensures
        issues_ascending(final(out)@),
        only_deviations(pr@, pf@, fr@, ff@, final(out)@),
        forall|d: FulfillmentDeviation| #[trigger] reports(final(out)@, d) <==> (reports(old(out)@, d) || d == x.deviation()),
{
    proof {
        assert forall|k: int|
            0 <= k < out@.len() && deviation_key(#[trigger] out@[k].deviation()) == deviation_key(x.deviation())
                implies out@[k].deviation() == x.deviation() by {
            assert(reports(out@, out@[k].deviation()));
            lemma_deviation_determined_by_key(pr@, pf@, fr@, ff@, out@[k].deviation(), x.deviation());
        }
    }
    insert_issue(out, x);
}

pub(crate) fn find_package_fulfillment(pf: &[PackageFulfillmentSummary], spec: &String) -> (r: Option<usize>)
    ensures
        match r {
            Some(j) => j < pf@.len() && pf@[j as int].spec@ == spec@,
            None => !package_fulfilled(pf@, spec@),
        },
{
    let mut j: usize = 0;
    while j < pf.len()
        invariant
            j <= pf@.len(),
            forall|q: int| 0 <= q < j ==> #[trigger] pf@[q].spec@ != spec@,
        decreases pf@.len() - j,
    {
        if pf[j].spec == *spec {
            return Some(j);
        }
        j = j + 1;
    }
    None
}

pub(crate) fn find_package_requirement(pr: &[PackageRequirementSummary], spec: &String) -> (r: Option<usize>)
    ensures
        match r {
            Some(i) => i < pr@.len() && pr@[i as int].spec@ == spec@,
            None => !package_required(pr@, spec@),
        },
{
    let mut i: usize = 0;
    while i < pr.len()
        invariant
            i <= pr@.len(),
            forall|q: int| 0 <= q < i ==> #[trigger] pr@[q].spec@ != spec@,
        decreases pr@.len() - i,
    {
        if pr[i].spec == *spec {
            return Some(i);
        }
        i = i + 1;
    }
    None
}

fn find_font_fulfillment(ff: &[FontFulfillmentSummary], identity: &CanonicalIdentity) -> (r: Option<usize>)
    ensures
        match r {
            Some(j) => j < ff@.len() && ff@[j as int].expected_identity@ == identity@,
            None => !font_fulfilled(ff@, identity@),
        },
{
    let mut j: usize = 0;
    while j < ff.len()
        invariant
            j <= ff@.len(),
            forall|q: int| 0 <= q < j ==> #[trigger] ff@[q].expected_identity@ != identity@,
        decreases ff@.len() - j,
    {
        if ff[j].expected_identity.same_as(identity) {
            return Some(j);
        }
        j = j + 1;
    }
    None
}

pub(crate) fn find_font_requirement(fr: &[FontRequirementSummary], identity: &CanonicalIdentity) -> (r: Option<usize>)
    ensures
        match r {
            Some(i) => i < fr@.len() && fr@[i as int].container_identity@ == identity@,
            None => !font_required(fr@, identity@),
        },
{
    let mut i: usize = 0;
    while i < fr.len()
        invariant
            i <= fr@.len(),
            forall|q: int| 0 <= q < i ==> #[trigger] fr@[q].container_identity@ != identity@,
        decreases fr@.len() - i,
    {
        if fr[i].container_identity.same_as(identity) {
            return Some(i);
        }
        i = i + 1;
    }
    None
}

fn contains_index(indices: &[u32], index: u32) -> (r: bool)
    ensures
        r == indices@.contains(index),
{
    let mut k: usize = 0;
    while k < indices.len()
        invariant
            k <= indices@.len(),
            forall|q: int| 0 <= q < k ==> indices@[q] != index,
        decreases indices@.len() - k,
    {
        if indices[k] == index {
            assert(indices@[k as int] == index);
            return true;
        }
        k = k + 1;
    }
    false
}

/// Whether a deviation comes from a package requirement of the pack.
pub open spec fn from_package_requirement(d: FulfillmentDeviation) -> bool {
    d is MissingExternalPackage || d is UnexpectedEmbeddedPackage || d is MismatchedPackageTree
}

/// Whether a deviation comes from a font requirement of the pack.
pub open spec fn from_font_requirement(d: FulfillmentDeviation) -> bool {
    d is MissingExternalFont || d is UnexpectedEmbeddedFont || d is MismatchedFontContainer || d is MissingFontFace
}

/// Records the deviations of the package requirements.
#[verifier::rlimit(40)]
fn package_requirement_issues(
    pr: &[PackageRequirementSummary],
    pf: &[PackageFulfillmentSummary],
    fr: &[FontRequirementSummary],
    ff: &[FontFulfillmentSummary],
    out: &mut Vec<CompilationFulfillmentIssue>,
)
    requires
        keys_unique(pr@, pf@, fr@, ff@),
        issues_ascending(old(out)@),
        only_deviations(pr@, pf@, fr@, ff@, old(out)@),
    ensures
        issues_ascending(final(out)@),
        only_deviations(pr@, pf@, fr@, ff@, final(out)@),
        forall|d: FulfillmentDeviation| #[trigger] reports(old(out)@, d) ==> reports(final(out)@, d),
        forall|d: FulfillmentDeviation|
            is_deviation(pr@, pf@, fr@, ff@, d) && from_package_requirement(d) ==> #[trigger] reports(final(out)@, d),
{
    let mut i: usize = 0;
    while i < pr.len()
        invariant
            i <= pr@.len(),
            keys_unique(pr@, pf@, fr@, ff@),
            issues_ascending(out@),
            only_deviations(pr@, pf@, fr@, ff@, out@),
            forall|d: FulfillmentDeviation| #[trigger] reports(old(out)@, d) ==> reports(out@, d),
            forall|d: FulfillmentDeviation|
                is_deviation(pr@, pf@, fr@, ff@, d) && from_package_requirement(d) && (exists|q: int|
                    0 <= q < i && #[trigger] pr@[q].spec@ == deviation_key(d).1) ==> #[trigger] reports(out@, d),
        decreases pr@.len() - i,
    {
        let requirement = &pr[i];
        let ghost before = out@;
        let ghost spec = requirement.spec@;
        let found = find_package_fulfillment(pf, &requirement.spec);
        match found {
            None => {
                if !requirement.embedded {
                    let x = CompilationFulfillmentIssue::MissingExternalPackage { spec: requirement.spec.clone() };
                    assert(pr@[i as int].spec@ == spec && !pr@[i as int].embedded);
                    record_issue(pr, pf, fr, ff, out, x);
                }
            },
            Some(j) => {
                let fulfillment = &pf[j];
                if requirement.embedded {
                    let x = CompilationFulfillmentIssue::UnexpectedEmbeddedPackage { spec: requirement.spec.clone() };
                    assert(pr@[i as int].spec@ == spec && pr@[i as int].embedded);
                    assert(pf@[j as int].spec@ == spec);
                    record_issue(pr, pf, fr, ff, out, x);
                }
                if !requirement.tree_identity.same_as(&fulfillment.tree_identity)
                    || requirement.file_count != fulfillment.file_count
                    || requirement.byte_length != fulfillment.byte_length
                {
                    let x = CompilationFulfillmentIssue::MismatchedPackageTree {
                        spec: requirement.spec.clone(),
                        expected: requirement.tree_identity.duplicate(),
                        actual: fulfillment.tree_identity.duplicate(),
                        expected_file_count: requirement.file_count,
                        actual_file_count: fulfillment.file_count,
                        expected_byte_length: requirement.byte_length,
                        actual_byte_length: fulfillment.byte_length,
                    };
                    assert(pr@[i as int].spec@ == spec && pf@[j as int].spec@ == spec);
                    record_issue(pr, pf, fr, ff, out, x);
                }
            },
        }
        proof {
            assert forall|d: FulfillmentDeviation|
                is_deviation(pr@, pf@, fr@, ff@, d) && from_package_requirement(d) && (exists|q: int|
                    0 <= q < i + 1 && #[trigger] pr@[q].spec@ == deviation_key(d).1) implies #[trigger] reports(out@, d) by {
                let q = choose|q: int| 0 <= q < i + 1 && #[trigger] pr@[q].spec@ == deviation_key(d).1;
                if q < i {
                    assert(reports(before, d));
                } else {
                    match d {
                        FulfillmentDeviation::MissingExternalPackage { spec: s } => {
                            let i0 = choose|i0: int| 0 <= i0 < pr@.len() && #[trigger] pr@[i0].spec@ == s && !pr@[i0].embedded;
                            if i0 < i {
                                assert(pr@[i0].spec@ != pr@[i as int].spec@);
                            } else if i0 > i {
                                assert(pr@[i as int].spec@ != pr@[i0].spec@);
                            }
                            if let Some(j) = found {
                                assert(package_fulfilled(pf@, s));
                            }
                        },
                        FulfillmentDeviation::UnexpectedEmbeddedPackage { spec: s } => {
                            let i0 = choose|i0: int| 0 <= i0 < pr@.len() && #[trigger] pr@[i0].spec@ == s && pr@[i0].embedded;
                            if i0 < i {
                                assert(pr@[i0].spec@ != pr@[i as int].spec@);
                            } else if i0 > i {
                                assert(pr@[i as int].spec@ != pr@[i0].spec@);
                            }
                        },
                        FulfillmentDeviation::MismatchedPackageTree { spec: s, .. } => {
                            let (i0, j0) = choose|i0: int, j0: int|
                                0 <= i0 < pr@.len() && 0 <= j0 < pf@.len() && #[trigger] pr@[i0].spec@ == s
                                    && #[trigger] pf@[j0].spec@ == s && package_mismatch(pr@[i0], pf@[j0])
                                    && d->MismatchedPackageTree_expected == pr@[i0].tree_identity@
                                    && d->MismatchedPackageTree_actual == pf@[j0].tree_identity@
                                    && d->expected_file_count == pr@[i0].file_count
                                    && d->actual_file_count == pf@[j0].file_count
                                    && d->expected_byte_length == pr@[i0].byte_length
                                    && d->actual_byte_length == pf@[j0].byte_length;
                            if i0 < i {
                                assert(pr@[i0].spec@ != pr@[i as int].spec@);
                            } else if i0 > i {
                                assert(pr@[i as int].spec@ != pr@[i0].spec@);
                            }
                            if let Some(j) = found {
                                if j0 < j {
                                    assert(pf@[j0].spec@ != pf@[j as int].spec@);
                                } else if j0 > j {
                                    assert(pf@[j as int].spec@ != pf@[j0].spec@);
                                }
                            } else {
                                assert(package_fulfilled(pf@, s));
                            }
                        },
                        _ => {},
                    }
                }
            }
        }
        i = i + 1;
    }
}

/// Records the packages supplied that the pack does not declare.
fn package_fulfillment_issues(
    pr: &[PackageRequirementSummary],
    pf: &[PackageFulfillmentSummary],
    fr: &[FontRequirementSummary],
    ff: &[FontFulfillmentSummary],
    out: &mut Vec<CompilationFulfillmentIssue>,
)
    requires
        keys_unique(pr@, pf@, fr@, ff@),
        issues_ascending(old(out)@),
        only_deviations(pr@, pf@, fr@, ff@, old(out)@),
    ensures
        issues_ascending(final(out)@),
        only_deviations(pr@, pf@, fr@, ff@, final(out)@),
        forall|d: FulfillmentDeviation| #[trigger] reports(old(out)@, d) ==> reports(final(out)@, d),
        forall|d: FulfillmentDeviation|
            is_deviation(pr@, pf@, fr@, ff@, d) && d is UndeclaredPackage ==> #[trigger] reports(final(out)@, d),
{
    let mut j: usize = 0;
    while j < pf.len()
        invariant
            j <= pf@.len(),
            keys_unique(pr@, pf@, fr@, ff@),
            issues_ascending(out@),
            only_deviations(pr@, pf@, fr@, ff@, out@),
            forall|d: FulfillmentDeviation| #[trigger] reports(old(out)@, d) ==> reports(out@, d),
            forall|d: FulfillmentDeviation|
                is_deviation(pr@, pf@, fr@, ff@, d) && d is UndeclaredPackage && (exists|q: int|
                    0 <= q < j && #[trigger] pf@[q].spec@ == deviation_key(d).1) ==> #[trigger] reports(out@, d),
        decreases pf@.len() - j,
    {
        let fulfillment = &pf[j];
        let ghost before = out@;
        let found = find_package_requirement(pr, &fulfillment.spec);
        if found.is_none() {
            let x = CompilationFulfillmentIssue::UndeclaredPackage {
                spec: fulfillment.spec.clone(),
                actual: fulfillment.tree_identity.duplicate(),
            };
            assert(pf@[j as int].spec@ == fulfillment.spec@ && pf@[j as int].tree_identity@ == fulfillment.tree_identity@);
            record_issue(pr, pf, fr, ff, out, x);
        }
        proof {
            assert forall|d: FulfillmentDeviation|
                is_deviation(pr@, pf@, fr@, ff@, d) && d is UndeclaredPackage && (exists|q: int|
                    0 <= q < j + 1 && #[trigger] pf@[q].spec@ == deviation_key(d).1) implies #[trigger] reports(out@, d) by {
                let q = choose|q: int| 0 <= q < j + 1 && #[trigger] pf@[q].spec@ == deviation_key(d).1;
                if q < j {
                    assert(reports(before, d));
                } else if let FulfillmentDeviation::UndeclaredPackage { spec: s, actual } = d {
                    let j0 = choose|j0: int| 0 <= j0 < pf@.len() && #[trigger] pf@[j0].spec@ == s && pf@[j0].tree_identity@ == actual;
                    if j0 < j {
                        assert(pf@[j0].spec@ != pf@[j as int].spec@);
                    } else if j0 > j {
                        assert(pf@[j as int].spec@ != pf@[j0].spec@);
                    }
                    if let Some(i) = found {
                        assert(package_required(pr@, s));
                    }
                }
            }
        }
        j = j + 1;
    }
}

/// Records the faces a font requirement needs that the supplied container
/// lacks.
fn missing_face_issues(
    pr: &[PackageRequirementSummary],
    pf: &[PackageFulfillmentSummary],
    fr: &[FontRequirementSummary],
    ff: &[FontFulfillmentSummary],
    i: usize,
    j: usize,
    out: &mut Vec<CompilationFulfillmentIssue>,
)
    requires
        keys_unique(pr@, pf@, fr@, ff@),
        i < fr@.len(),
        j < ff@.len(),
        fr@[i as int].container_identity@ == ff@[j as int].expected_identity@,
        issues_ascending(old(out)@),
        only_deviations(pr@, pf@, fr@, ff@, old(out)@),
    ensures
        issues_ascending(final(out)@),
        only_deviations(pr@, pf@, fr@, ff@, final(out)@),
        forall|d: FulfillmentDeviation| #[trigger] reports(old(out)@, d) ==> reports(final(out)@, d),
        forall|index: u32|
            fr@[i as int].face_indices@.contains(index) && !ff@[j as int].face_indices@.contains(index) ==> #[trigger] reports(
                final(out)@,
                FulfillmentDeviation::MissingFontFace { identity: fr@[i as int].container_identity@, index },
            ),
{
    let requirement = &fr[i];
    let fulfillment = &ff[j];
    let mut k: usize = 0;
    while k < requirement.face_indices.len()
        invariant
            k <= fr@[i as int].face_indices@.len(),
            *requirement == fr@[i as int],
            *fulfillment == ff@[j as int],
            i < fr@.len(),
            j < ff@.len(),
            fr@[i as int].container_identity@ == ff@[j as int].expected_identity@,
            keys_unique(pr@, pf@, fr@, ff@),
            issues_ascending(out@),
            only_deviations(pr@, pf@, fr@, ff@, out@),
            forall|d: FulfillmentDeviation| #[trigger] reports(old(out)@, d) ==> reports(out@, d),
            forall|q: int|
                0 <= q < k && !ff@[j as int].face_indices@.contains(#[trigger] fr@[i as int].face_indices@[q]) ==> reports(
                    out@,
                    FulfillmentDeviation::MissingFontFace {
                        identity: fr@[i as int].container_identity@,
                        index: fr@[i as int].face_indices@[q],
                    },
                ),
        decreases fr@[i as int].face_indices@.len() - k,
    {
        let index = requirement.face_indices[k];
        let ghost before = out@;
        if !contains_index(fulfillment.face_indices.as_slice(), index) {
            let x = CompilationFulfillmentIssue::MissingFontFace { identity: requirement.container_identity.duplicate(), index };
            assert(fr@[i as int].face_indices@.contains(index));
            record_issue(pr, pf, fr, ff, out, x);
        }
        proof {
            assert forall|q: int|
                0 <= q < k + 1 && !ff@[j as int].face_indices@.contains(#[trigger] fr@[i as int].face_indices@[q]) implies reports(
                    out@,
                    FulfillmentDeviation::MissingFontFace {
                        identity: fr@[i as int].container_identity@,
                        index: fr@[i as int].face_indices@[q],
                    },
                ) by {
                if q < k {
                    assert(reports(
                        before,
                        FulfillmentDeviation::MissingFontFace {
                            identity: fr@[i as int].container_identity@,
                            index: fr@[i as int].face_indices@[q],
                        },
                    ));
                }
            }
        }
        k = k + 1;
    }
    proof {
        assert forall|index: u32|
            fr@[i as int].face_indices@.contains(index) && !ff@[j as int].face_indices@.contains(index) implies #[trigger] reports(
                out@,
                FulfillmentDeviation::MissingFontFace { identity: fr@[i as int].container_identity@, index },
            ) by {
            let q = choose|q: int| 0 <= q < fr@[i as int].face_indices@.len() && fr@[i as int].face_indices@[q] == index;
            assert(!ff@[j as int].face_indices@.contains(fr@[i as int].face_indices@[q]));
        }
    }
}

/// Records the deviations of the font requirements.
#[verifier::rlimit(40)]
fn font_requirement_issues(
    pr: &[PackageRequirementSummary],
    pf: &[PackageFulfillmentSummary],
    fr: &[FontRequirementSummary],
    ff: &[FontFulfillmentSummary],
    out: &mut Vec<CompilationFulfillmentIssue>,
)
    requires
        keys_unique(pr@, pf@, fr@, ff@),
        issues_ascending(old(out)@),
        only_deviations(pr@, pf@, fr@, ff@, old(out)@),
    ensures
        issues_ascending(final(out)@),
        only_deviations(pr@, pf@, fr@, ff@, final(out)@),
        forall|d: FulfillmentDeviation| #[trigger] reports(old(out)@, d) ==> reports(final(out)@, d),
        forall|d: FulfillmentDeviation|
            is_deviation(pr@, pf@, fr@, ff@, d) && from_font_requirement(d) ==> #[trigger] reports(final(out)@, d),
{
    let mut i: usize = 0;
    while i < fr.len()
        invariant
            i <= fr@.len(),
            keys_unique(pr@, pf@, fr@, ff@),
            issues_ascending(out@),
            only_deviations(pr@, pf@, fr@, ff@, out@),
            forall|d: FulfillmentDeviation| #[trigger] reports(old(out)@, d) ==> reports(out@, d),
            forall|d: FulfillmentDeviation|
                is_deviation(pr@, pf@, fr@, ff@, d) && from_font_requirement(d) && (exists|q: int|
                    0 <= q < i && #[trigger] fr@[q].container_identity@ == deviation_key(d).1) ==> #[trigger] reports(out@, d),
        decreases fr@.len() - i,
    {
        let requirement = &fr[i];
        let ghost before = out@;
        let ghost id = requirement.container_identity@;
        let found = find_font_fulfillment(ff, &requirement.container_identity);
        match found {
            None => {
                if !requirement.embedded {
                    let x = CompilationFulfillmentIssue::MissingExternalFont { identity: requirement.container_identity.duplicate() };
                    assert(fr@[i as int].container_identity@ == id && !fr@[i as int].embedded);
                    record_issue(pr, pf, fr, ff, out, x);
                }
            },
            Some(j) => {
                let fulfillment = &ff[j];
                if requirement.embedded {
                    let x = CompilationFulfillmentIssue::UnexpectedEmbeddedFont { identity: requirement.container_identity.duplicate() };
                    assert(fr@[i as int].container_identity@ == id && fr@[i as int].embedded);
                    assert(ff@[j as int].expected_identity@ == id);
                    record_issue(pr, pf, fr, ff, out, x);
                }
                let ghost m1 = out@;
                if !fulfillment.actual_identity.same_as(&requirement.container_identity)
                    || fulfillment.actual_length != requirement.container_length
                {
                    let x = CompilationFulfillmentIssue::MismatchedFontContainer {
                        expected: requirement.container_identity.duplicate(),
                        actual: fulfillment.actual_identity.duplicate(),
                        expected_length: requirement.container_length,
                        actual_length: fulfillment.actual_length,
                    };
                    assert(fr@[i as int].container_identity@ == id && ff@[j as int].expected_identity@ == id);
                    record_issue(pr, pf, fr, ff, out, x);
                }
                let ghost m2 = out@;
                missing_face_issues(pr, pf, fr, ff, i, j, out);
                proof {
                    if fr@[i as int].embedded {
                        assert(reports(m1, FulfillmentDeviation::UnexpectedEmbeddedFont { identity: id }));
                    }
                    if font_mismatch(fr@[i as int], ff@[j as int]) {
                        assert(reports(m2, FulfillmentDeviation::MismatchedFontContainer {
                            expected: id,
                            actual: ff@[j as int].actual_identity@,
                            expected_length: fr@[i as int].container_length,
                            actual_length: ff@[j as int].actual_length,
                        }));
                    }
                    assert forall|d: FulfillmentDeviation| #[trigger] reports(before, d) implies reports(out@, d) by {
                        assert(reports(m1, d));
                        assert(reports(m2, d));
                    }
                    assert forall|d: FulfillmentDeviation| #[trigger] reports(m1, d) implies reports(out@, d) by {
                        assert(reports(m2, d));
                    }
                }
            },
        }
        proof {
            assert forall|d: FulfillmentDeviation| #[trigger] reports(old(out)@, d) implies reports(out@, d) by {
                assert(reports(before, d));
            }
            assert forall|d: FulfillmentDeviation|
                is_deviation(pr@, pf@, fr@, ff@, d) && from_font_requirement(d) && (exists|q: int|
                    0 <= q < i + 1 && #[trigger] fr@[q].container_identity@ == deviation_key(d).1) implies #[trigger] reports(out@, d) by {
                let q = choose|q: int| 0 <= q < i + 1 && #[trigger] fr@[q].container_identity@ == deviation_key(d).1;
                if q < i {
                    assert(reports(before, d));
                } else {
                    match d {
                        FulfillmentDeviation::MissingExternalFont { identity: s } => {
                            let i0 = choose|i0: int| 0 <= i0 < fr@.len() && #[trigger] fr@[i0].container_identity@ == s && !fr@[i0].embedded;
                            if i0 < i {
                                assert(fr@[i0].container_identity@ != fr@[i as int].container_identity@);
                            } else if i0 > i {
                                assert(fr@[i as int].container_identity@ != fr@[i0].container_identity@);
                            }
                            if let Some(j) = found {
                                assert(font_fulfilled(ff@, s));
                            }
                        },
                        FulfillmentDeviation::UnexpectedEmbeddedFont { identity: s } => {
                            let i0 = choose|i0: int| 0 <= i0 < fr@.len() && #[trigger] fr@[i0].container_identity@ == s && fr@[i0].embedded;
                            if i0 < i {
                                assert(fr@[i0].container_identity@ != fr@[i as int].container_identity@);
                            } else if i0 > i {
                                assert(fr@[i as int].container_identity@ != fr@[i0].container_identity@);
                            }
                        },
                        FulfillmentDeviation::MismatchedFontContainer { expected: s, .. } => {
                            let (i0, j0) = choose|i0: int, j0: int|
                                0 <= i0 < fr@.len() && 0 <= j0 < ff@.len() && #[trigger] fr@[i0].container_identity@ == s
                                    && #[trigger] ff@[j0].expected_identity@ == s && font_mismatch(fr@[i0], ff@[j0])
                                    && d->MismatchedFontContainer_actual == ff@[j0].actual_identity@
                                    && d->expected_length == fr@[i0].container_length
                                    && d->actual_length == ff@[j0].actual_length;
                            if i0 < i {
                                assert(fr@[i0].container_identity@ != fr@[i as int].container_identity@);
                            } else if i0 > i {
                                assert(fr@[i as int].container_identity@ != fr@[i0].container_identity@);
                            }
                            if let Some(j) = found {
                                if j0 < j {
                                    assert(ff@[j0].expected_identity@ != ff@[j as int].expected_identity@);
                                } else if j0 > j {
                                    assert(ff@[j as int].expected_identity@ != ff@[j0].expected_identity@);
                                }
                            } else {
                                assert(font_fulfilled(ff@, s));
                            }
                        },
                        FulfillmentDeviation::MissingFontFace { identity: s, index } => {
                            let (i0, j0) = choose|i0: int, j0: int|
                                0 <= i0 < fr@.len() && 0 <= j0 < ff@.len() && #[trigger] fr@[i0].container_identity@ == s
                                    && #[trigger] ff@[j0].expected_identity@ == s && fr@[i0].face_indices@.contains(index)
                                    && !ff@[j0].face_indices@.contains(index);
                            if i0 < i {
                                assert(fr@[i0].container_identity@ != fr@[i as int].container_identity@);
                            } else if i0 > i {
                                assert(fr@[i as int].container_identity@ != fr@[i0].container_identity@);
                            }
                            if let Some(j) = found {
                                if j0 < j {
                                    assert(ff@[j0].expected_identity@ != ff@[j as int].expected_identity@);
                                } else if j0 > j {
                                    assert(ff@[j as int].expected_identity@ != ff@[j0].expected_identity@);
                                }
                                assert(reports(out@, FulfillmentDeviation::MissingFontFace { identity: fr@[i as int].container_identity@, index }));
                            } else {
                                assert(font_fulfilled(ff@, s));
                            }
                        },
                        _ => {},
                    }
                }
            }
        }
        i = i + 1;
    }
}

/// Records the font containers supplied that the pack does not declare.
fn font_fulfillment_issues(
    pr: &[PackageRequirementSummary],
    pf: &[PackageFulfillmentSummary],
    fr: &[FontRequirementSummary],
    ff: &[FontFulfillmentSummary],
    out: &mut Vec<CompilationFulfillmentIssue>,
)
    requires
        keys_unique(pr@, pf@, fr@, ff@),
        issues_ascending(old(out)@),
        only_deviations(pr@, pf@, fr@, ff@, old(out)@),
    ensures
        issues_ascending(final(out)@),
        only_deviations(pr@, pf@, fr@, ff@, final(out)@),
        forall|d: FulfillmentDeviation| #[trigger] reports(old(out)@, d) ==> reports(final(out)@, d),
        forall|d: FulfillmentDeviation|
            is_deviation(pr@, pf@, fr@, ff@, d) && d is UndeclaredFont ==> #[trigger] reports(final(out)@, d),
{
    let mut j: usize = 0;
    while j < ff.len()
        invariant
            j <= ff@.len(),
            keys_unique(pr@, pf@, fr@, ff@),
            issues_ascending(out@),
            only_deviations(pr@, pf@, fr@, ff@, out@),
            forall|d: FulfillmentDeviation| #[trigger] reports(old(out)@, d) ==> reports(out@, d),
            forall|d: FulfillmentDeviation|
                is_deviation(pr@, pf@, fr@, ff@, d) && d is UndeclaredFont && (exists|q: int|
                    0 <= q < j && #[trigger] ff@[q].expected_identity@ == deviation_key(d).1) ==> #[trigger] reports(out@, d),
        decreases ff@.len() - j,
    {
        let fulfillment = &ff[j];
        let ghost before = out@;
        let found = find_font_requirement(fr, &fulfillment.expected_identity);
        if found.is_none() {
            let x = CompilationFulfillmentIssue::UndeclaredFont {
                identity: fulfillment.expected_identity.duplicate(),
                actual: fulfillment.actual_identity.duplicate(),
            };
            assert(ff@[j as int].expected_identity@ == fulfillment.expected_identity@
                && ff@[j as int].actual_identity@ == fulfillment.actual_identity@);
            record_issue(pr, pf, fr, ff, out, x);
        }
        proof {
            assert forall|d: FulfillmentDeviation|
                is_deviation(pr@, pf@, fr@, ff@, d) && d is UndeclaredFont && (exists|q: int|
                    0 <= q < j + 1 && #[trigger] ff@[q].expected_identity@ == deviation_key(d).1) implies #[trigger] reports(out@, d) by {
                let q = choose|q: int| 0 <= q < j + 1 && #[trigger] ff@[q].expected_identity@ == deviation_key(d).1;
                if q < j {
                    assert(reports(before, d));
                } else if let FulfillmentDeviation::UndeclaredFont { identity: s, actual } = d {
                    let j0 = choose|j0: int| 0 <= j0 < ff@.len() && #[trigger] ff@[j0].expected_identity@ == s && ff@[j0].actual_identity@ == actual;
                    if j0 < j {
                        assert(ff@[j0].expected_identity@ != ff@[j as int].expected_identity@);
                    } else if j0 > j {
                        assert(ff@[j as int].expected_identity@ != ff@[j0].expected_identity@);
                    }
                    if let Some(i) = found {
                        assert(font_required(fr@, s));
                    }
                }
            }
        }
        j = j + 1;
    }
}

/// Compares a fulfillment set with what a pack requires, and reports every
/// deviation once, in canonical order: packages by specification before
/// fonts by identity, and for each the missing, undeclared, unexpectedly
/// embedded and mismatched cases before the missing faces by index.
pub fn verify_compilation_fulfillment_set(
    package_requirements: &[PackageRequirementSummary],
    package_fulfillments: &[PackageFulfillmentSummary],
    font_requirements: &[FontRequirementSummary],
    font_fulfillments: &[FontFulfillmentSummary],
) -> (r: Vec<CompilationFulfillmentIssue>)
    requires
        keys_unique(package_requirements@, package_fulfillments@, font_requirements@, font_fulfillments@),
    ensures
        issues_ascending(r@),
        forall|d: FulfillmentDeviation|
            #[trigger] reports(r@, d) <==> is_deviation(
                package_requirements@,
                package_fulfillments@,
                font_requirements@,
                font_fulfillments@,
                d,
            ),
        r@.len() == 0 <==> fulfillment_exact(package_requirements@, package_fulfillments@, font_requirements@, font_fulfillments@),
{
    let pr = package_requirements;
    let pf = package_fulfillments;
    let fr = font_requirements;
    let ff = font_fulfillments;
    let mut out: Vec<CompilationFulfillmentIssue> = Vec::new();
    package_requirement_issues(pr, pf, fr, ff, &mut out);
    let ghost o1 = out@;
    package_fulfillment_issues(pr, pf, fr, ff, &mut out);
    let ghost o2 = out@;
    font_requirement_issues(pr, pf, fr, ff, &mut out);
    let ghost o3 = out@;
    font_fulfillment_issues(pr, pf, fr, ff, &mut out);
    proof {
        assert forall|d: FulfillmentDeviation| #[trigger] reports(out@, d) <==> is_deviation(pr@, pf@, fr@, ff@, d) by {
            if is_deviation(pr@, pf@, fr@, ff@, d) {
                if from_package_requirement(d) {
                    assert(reports(o1, d));
                    assert(reports(o2, d));
                    assert(reports(o3, d));
                } else if d is UndeclaredPackage {
                    assert(reports(o2, d));
                    assert(reports(o3, d));
                } else if from_font_requirement(d) {
                    assert(reports(o3, d));
                } else {
                    assert(d is UndeclaredFont);
                }
            }
        }
        lemma_no_deviation_iff_exact(pr@, pf@, fr@, ff@);
        if out@.len() > 0 {
            assert(reports(out@, out@[0].deviation()));
        }
        if out@.len() == 0 {
            assert forall|d: FulfillmentDeviation| !#[trigger] is_deviation(pr@, pf@, fr@, ff@, d) by {
                if is_deviation(pr@, pf@, fr@, ff@, d) {
                    assert(reports(out@, d));
                }
            }
        }
    }
    out
}

/// A fulfillment set has no deviation exactly when it is exact: every
/// requirement the pack does not embed is fulfilled, nothing else is, and
/// every fulfillment matches its requirement and holds the faces it needs.
pub proof fn lemma_no_deviation_iff_exact(
    pr: Seq<PackageRequirementSummary>,
    pf: Seq<PackageFulfillmentSummary>,
    fr: Seq<FontRequirementSummary>,
    ff: Seq<FontFulfillmentSummary>,
)
    ensures
        (forall|d: FulfillmentDeviation| !#[trigger] is_deviation(pr, pf, fr, ff, d)) <==> fulfillment_exact(pr, pf, fr, ff),
{
    if forall|d: FulfillmentDeviation| !#[trigger] is_deviation(pr, pf, fr, ff, d) {
        assert forall|i: int| 0 <= i < pr.len() implies (#[trigger] package_fulfilled(pf, pr[i].spec@) <==> !pr[i].embedded) by {
            if package_fulfilled(pf, pr[i].spec@) && pr[i].embedded {
                assert(is_deviation(pr, pf, fr, ff, FulfillmentDeviation::UnexpectedEmbeddedPackage { spec: pr[i].spec@ }));
            }
            if !package_fulfilled(pf, pr[i].spec@) && !pr[i].embedded {
                assert(is_deviation(pr, pf, fr, ff, FulfillmentDeviation::MissingExternalPackage { spec: pr[i].spec@ }));
            }
        }
        assert forall|j: int| 0 <= j < pf.len() implies #[trigger] package_required(pr, pf[j].spec@) by {
            if !package_required(pr, pf[j].spec@) {
                assert(is_deviation(
                    pr,
                    pf,
                    fr,
                    ff,
                    FulfillmentDeviation::UndeclaredPackage { spec: pf[j].spec@, actual: pf[j].tree_identity@ },
                ));
            }
        }
        assert forall|i: int, j: int|
            0 <= i < pr.len() && 0 <= j < pf.len() && #[trigger] pr[i].spec@ == #[trigger] pf[j].spec@ implies !package_mismatch(
            pr[i],
            pf[j],
        ) by {
            if package_mismatch(pr[i], pf[j]) {
                let d = FulfillmentDeviation::MismatchedPackageTree {
                    spec: pr[i].spec@,
                    expected: pr[i].tree_identity@,
                    actual: pf[j].tree_identity@,
                    expected_file_count: pr[i].file_count,
                    actual_file_count: pf[j].file_count,
                    expected_byte_length: pr[i].byte_length,
                    actual_byte_length: pf[j].byte_length,
                };
                assert(is_deviation(pr, pf, fr, ff, d));
            }
        }
        assert forall|i: int| 0 <= i < fr.len() implies (#[trigger] font_fulfilled(ff, fr[i].container_identity@) <==> !fr[i].embedded) by {
            if font_fulfilled(ff, fr[i].container_identity@) && fr[i].embedded {
                assert(is_deviation(pr, pf, fr, ff, FulfillmentDeviation::UnexpectedEmbeddedFont { identity: fr[i].container_identity@ }));
            }
            if !font_fulfilled(ff, fr[i].container_identity@) && !fr[i].embedded {
                assert(is_deviation(pr, pf, fr, ff, FulfillmentDeviation::MissingExternalFont { identity: fr[i].container_identity@ }));
            }
        }
        assert forall|j: int| 0 <= j < ff.len() implies #[trigger] font_required(fr, ff[j].expected_identity@) by {
            if !font_required(fr, ff[j].expected_identity@) {
                assert(is_deviation(
                    pr,
                    pf,
                    fr,
                    ff,
                    FulfillmentDeviation::UndeclaredFont { identity: ff[j].expected_identity@, actual: ff[j].actual_identity@ },
                ));
            }
        }
        assert forall|i: int, j: int|
            0 <= i < fr.len() && 0 <= j < ff.len() && #[trigger] fr[i].container_identity@ == #[trigger] ff[j].expected_identity@
                implies !font_mismatch(fr[i], ff[j]) && fr[i].face_indices@.to_set().subset_of(ff[j].face_indices@.to_set()) by {
            if font_mismatch(fr[i], ff[j]) {
                let d = FulfillmentDeviation::MismatchedFontContainer {
                    expected: fr[i].container_identity@,
                    actual: ff[j].actual_identity@,
                    expected_length: fr[i].container_length,
                    actual_length: ff[j].actual_length,
                };
                assert(is_deviation(pr, pf, fr, ff, d));
            }
            assert forall|index: u32| fr[i].face_indices@.to_set().contains(index) implies ff[j].face_indices@.to_set().contains(index) by {
                if !ff[j].face_indices@.contains(index) {
                    let d = FulfillmentDeviation::MissingFontFace { identity: fr[i].container_identity@, index };
                    assert(is_deviation(pr, pf, fr, ff, d));
                }
            }
        }
    }
    if fulfillment_exact(pr, pf, fr, ff) {
        assert forall|d: FulfillmentDeviation| !#[trigger] is_deviation(pr, pf, fr, ff, d) by {
            match d {
                FulfillmentDeviation::MissingExternalPackage { spec } => {
                    if is_deviation(pr, pf, fr, ff, d) {
                        let i = choose|i: int| 0 <= i < pr.len() && #[trigger] pr[i].spec@ == spec && !pr[i].embedded;
                        assert(package_fulfilled(pf, pr[i].spec@));
                    }
                },
                FulfillmentDeviation::UndeclaredPackage { spec, actual } => {
                    if is_deviation(pr, pf, fr, ff, d) {
                        let j = choose|j: int| 0 <= j < pf.len() && #[trigger] pf[j].spec@ == spec && pf[j].tree_identity@ == actual;
                        assert(package_required(pr, pf[j].spec@));
                    }
                },
                FulfillmentDeviation::UnexpectedEmbeddedPackage { spec } => {
                    if is_deviation(pr, pf, fr, ff, d) {
                        let i = choose|i: int| 0 <= i < pr.len() && #[trigger] pr[i].spec@ == spec && pr[i].embedded;
                        assert(package_fulfilled(pf, pr[i].spec@));
                    }
                },
                FulfillmentDeviation::MissingExternalFont { identity } => {
                    if is_deviation(pr, pf, fr, ff, d) {
                        let i = choose|i: int| 0 <= i < fr.len() && #[trigger] fr[i].container_identity@ == identity && !fr[i].embedded;
                        assert(font_fulfilled(ff, fr[i].container_identity@));
                    }
                },
                FulfillmentDeviation::UndeclaredFont { identity, actual } => {
                    if is_deviation(pr, pf, fr, ff, d) {
                        let j = choose|j: int| 0 <= j < ff.len() && #[trigger] ff[j].expected_identity@ == identity && ff[j].actual_identity@ == actual;
                        assert(font_required(fr, ff[j].expected_identity@));
                    }
                },
                FulfillmentDeviation::UnexpectedEmbeddedFont { identity } => {
                    if is_deviation(pr, pf, fr, ff, d) {
                        let i = choose|i: int| 0 <= i < fr.len() && #[trigger] fr[i].container_identity@ == identity && fr[i].embedded;
                        assert(font_fulfilled(ff, fr[i].container_identity@));
                    }
                },
                FulfillmentDeviation::MissingFontFace { identity, index } => {
                    if is_deviation(pr, pf, fr, ff, d) {
                        let (i, j) = choose|i: int, j: int|
                            0 <= i < fr.len() && 0 <= j < ff.len() && #[trigger] fr[i].container_identity@ == identity
                                && #[trigger] ff[j].expected_identity@ == identity && fr[i].face_indices@.contains(index)
                                && !ff[j].face_indices@.contains(index);
                        assert(fr[i].face_indices@.to_set().contains(index));
                    }
                },
                _ => {},
            }
        }
    }
}

/// Complete canonical evidence that a fulfillment set is not exact.
#[derive(Clone, Debug)]
pub struct InvalidCompilationFulfillmentSet {
    issues: Vec<CompilationFulfillmentIssue>,
}

impl InvalidCompilationFulfillmentSet {
    pub closed spec fn spec_issues(&self) -> Seq<CompilationFulfillmentIssue> {
        self.issues@
    }

    /// Checks a fulfillment set against what a pack requires: `None` when it
    /// is exact, otherwise every deviation.
    pub fn check(
        package_requirements: &[PackageRequirementSummary],
        package_fulfillments: &[PackageFulfillmentSummary],
        font_requirements: &[FontRequirementSummary],
        font_fulfillments: &[FontFulfillmentSummary],
    ) -> (r: Option<Self>)
        requires
            keys_unique(package_requirements@, package_fulfillments@, font_requirements@, font_fulfillments@),
        ensures
            r is None <==> fulfillment_exact(package_requirements@, package_fulfillments@, font_requirements@, font_fulfillments@),
            r matches Some(e) ==> issues_ascending(e.spec_issues()) && forall|d: FulfillmentDeviation|
                #[trigger] reports(e.spec_issues(), d) <==> is_deviation(
                    package_requirements@,
                    package_fulfillments@,
                    font_requirements@,
                    font_fulfillments@,
                    d,
                ),
    {
        let issues = verify_compilation_fulfillment_set(package_requirements, package_fulfillments, font_requirements, font_fulfillments);
        if issues.len() == 0 {
            None
        } else {
            Some(InvalidCompilationFulfillmentSet { issues })
        }
    }

    /// Every deviation, in canonical order.
    /// `Compilation Fulfillment Set has <n> deviation(s)`.
    pub fn describe(&self) -> (r: String)
        ensures
            r@ == "Compilation Fulfillment Set has "@ + crate::artifact_publication::decimal(self.spec_issues().len())
                + " deviation(s)"@,
    {
        let mut m = String::from_str("Compilation Fulfillment Set has ");
        crate::artifact_publication::append_decimal(&mut m, self.issues.len());
        m.append(" deviation(s)");
        m
    }

    pub fn issues(&self) -> (r: &[CompilationFulfillmentIssue])
        ensures
            r@ == self.spec_issues(),
    {
        self.issues.as_slice()
    }
}

} // verus!
