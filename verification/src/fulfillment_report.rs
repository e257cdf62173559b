//! What a compilation reports of its dependencies: for every package and
//! font container that the pack requires or the caller supplied, once and in
//! key order, what was required and what was supplied.

use vstd::prelude::*;
use crate::CanonicalIdentity;
use crate::artifact_publication::{contains_text, insert_text_ascending, texts_ascending};
use crate::exactness::{
    find_font_requirement, find_package_fulfillment, find_package_requirement, font_required,
    package_fulfilled, package_required, PackageFulfillmentSummary, PackageRequirementSummary,
};
use crate::fulfillment::{FontContainerFulfillment, FontFulfillmentReport, FontRequirementSummary};
use crate::fulfillment_set::{keys_ascending, CompilationFulfillmentSet, KeyedFulfillment};
use crate::order::{lemma_text_lt_irreflexive, text_lt};

verus! {

/// The mathematical value of a package report.
pub struct PackageReportView {
    pub spec: Seq<char>,
    pub required_tree_identity: Option<Seq<char>>,
    pub supplied_tree_identity: Option<Seq<char>>,
    pub declared: bool,
    pub embedded: bool,
    pub provenance: Option<Seq<char>>,
    pub cache_hit: bool,
}

/// The mathematical value of a font report.
pub struct FontReportView {
    pub container_identity: Seq<char>,
    pub supplied_container_identity: Option<Seq<char>>,
    pub declared: bool,
    pub embedded: bool,
    pub provenance: Option<Seq<char>>,
    pub licensing: Option<Seq<char>>,
}

pub open spec fn identity_view(i: Option<CanonicalIdentity>) -> Option<Seq<char>> {
    match i {
        Some(x) => Some(x@),
        None => None,
    }
}

pub open spec fn text_view(t: Option<String>) -> Option<Seq<char>> {
    match t {
        Some(x) => Some(x@),
        None => None,
    }
}

/// Operational evidence retained for one package: what the pack requires of
/// it and what was supplied.
#[derive(Clone, Debug)]
pub struct PackageFulfillmentReport {
    spec: String,
    required_tree_identity: Option<CanonicalIdentity>,
    supplied_tree_identity: Option<CanonicalIdentity>,
    declared: bool,
    embedded: bool,
    provenance: Option<String>,
    cache_hit: bool,
}

impl View for PackageFulfillmentReport {
    type V = PackageReportView;

    closed spec fn view(&self) -> PackageReportView {
        PackageReportView {
            spec: self.spec@,
            required_tree_identity: identity_view(self.required_tree_identity),
            supplied_tree_identity: identity_view(self.supplied_tree_identity),
            declared: self.declared,
            embedded: self.embedded,
            provenance: text_view(self.provenance),
            cache_hit: self.cache_hit,
        }
    }
}

fn duplicate_identity(i: &Option<CanonicalIdentity>) -> (r: Option<CanonicalIdentity>)
    ensures
        identity_view(r) == identity_view(*i),
{
    match i {
        Some(x) => Some(x.duplicate()),
        None => None,
    }
}

fn borrow_text(t: &Option<String>) -> (r: Option<&str>)
    ensures
        match r {
            Some(s) => text_view(*t) == Some(s@),
            None => t is None,
        },
{
    match t {
        Some(s) => Some(s.as_str()),
        None => None,
    }
}

fn copy_text(t: &Option<String>) -> (r: Option<String>)
    ensures
        text_view(r) == text_view(*t),
{
    match t {
        Some(s) => Some(s.clone()),
        None => None,
    }
}

impl PackageFulfillmentReport {
    /// The package specification.
    pub fn spec(&self) -> (r: &str)
        ensures
            r@ == self@.spec,
    {
        self.spec.as_str()
    }

    /// The tree identity the pack requires, when it declares the package.
    pub fn required_tree_identity(&self) -> (r: Option<CanonicalIdentity>)
        ensures
            identity_view(r) == self@.required_tree_identity,
    {
        duplicate_identity(&self.required_tree_identity)
    }

    /// The identity of the supplied tree, when one was supplied.
    pub fn supplied_tree_identity(&self) -> (r: Option<CanonicalIdentity>)
        ensures
            identity_view(r) == self@.supplied_tree_identity,
    {
        duplicate_identity(&self.supplied_tree_identity)
    }

    /// Whether the pack declares the package.
    pub fn declared(&self) -> (r: bool)
        ensures
            r == self@.declared,
    {
        self.declared
    }

    /// Whether the pack embeds the package.
    pub fn embedded(&self) -> (r: bool)
        ensures
            r == self@.embedded,
    {
        self.embedded
    }

    /// Where the supplied tree came from, when the supplier said.
    pub fn provenance(&self) -> (r: Option<&str>)
        ensures
            match r {
                Some(s) => self@.provenance == Some(s@),
                None => self@.provenance is None,
            },
    {
        borrow_text(&self.provenance)
    }

    /// Whether a cache supplied the tree.
    pub fn cache_hit(&self) -> (r: bool)
        ensures
            r == self@.cache_hit,
    {
        self.cache_hit
    }
}

/// The value of a font report, read through its accessors.
pub open spec fn font_report_view(r: FontFulfillmentReport) -> FontReportView {
    FontReportView {
        container_identity: r.spec_container_identity(),
        supplied_container_identity: r.spec_supplied_container_identity(),
        declared: r.spec_declared(),
        embedded: r.spec_embedded(),
        provenance: r.spec_provenance(),
        licensing: r.spec_licensing(),
    }
}

/// The requirement that `reqs` makes of the package `k`, if any.
pub open spec fn package_requirement_for(reqs: Seq<PackageRequirementSummary>, k: Seq<char>) -> Option<
    PackageRequirementSummary,
> {
    if package_required(reqs, k) {
        Some(reqs[choose|i: int| 0 <= i < reqs.len() && #[trigger] reqs[i].spec@ == k])
    } else {
        None
    }
}

/// The tree supplied for the package `k`, if any.
pub open spec fn package_supply_for(supplied: Seq<PackageFulfillmentSummary>, k: Seq<char>) -> Option<
    PackageFulfillmentSummary,
> {
    if package_fulfilled(supplied, k) {
        Some(supplied[choose|j: int| 0 <= j < supplied.len() && #[trigger] supplied[j].spec@ == k])
    } else {
        None
    }
}

/// The report of the package `k`.
pub open spec fn package_report(
    reqs: Seq<PackageRequirementSummary>,
    supplied: Seq<PackageFulfillmentSummary>,
    k: Seq<char>,
) -> PackageReportView {
    let r = package_requirement_for(reqs, k);
    let s = package_supply_for(supplied, k);
    PackageReportView {
        spec: k,
        required_tree_identity: match r {
            Some(x) => Some(x.tree_identity@),
            None => None,
        },
        supplied_tree_identity: match s {
            Some(x) => Some(x.tree_identity@),
            None => None,
        },
        declared: r is Some,
        embedded: match r {
            Some(x) => x.embedded,
            None => false,
        },
        provenance: match s {
            Some(x) => text_view(x.provenance),
            None => None,
        },
        cache_hit: match s {
            Some(x) => x.cache_hit,
            None => false,
        },
    }
}

/// `out` reports every package that `reqs` requires or `supplied` supplies,
/// once each, in text order of the specification, with its report.
pub open spec fn package_reports_exact(
    out: Seq<PackageReportView>,
    reqs: Seq<PackageRequirementSummary>,
    supplied: Seq<PackageFulfillmentSummary>,
) -> bool {
    &&& forall|a: int, b: int| #![trigger out[a], out[b]] 0 <= a < b < out.len() ==> text_lt(out[a].spec, out[b].spec)
    &&& forall|k: Seq<char>|
        (exists|j: int| 0 <= j < out.len() && #[trigger] out[j].spec == k) <==> (package_required(reqs, k)
            || package_fulfilled(supplied, k))
    &&& forall|j: int| 0 <= j < out.len() ==> #[trigger] out[j] == package_report(reqs, supplied, out[j].spec)
}

/// The requirement that `reqs` makes of the font container `k`, if any.
pub open spec fn font_requirement_for(reqs: Seq<FontRequirementSummary>, k: Seq<char>) -> Option<FontRequirementSummary> {
    if font_required(reqs, k) {
        Some(reqs[choose|i: int| 0 <= i < reqs.len() && #[trigger] reqs[i].container_identity@ == k])
    } else {
        None
    }
}

/// Whether a container was supplied for the identity `k`.
pub open spec fn font_supplied(fonts: Seq<FontContainerFulfillment>, k: Seq<char>) -> bool {
    exists|j: int| 0 <= j < fonts.len() && #[trigger] fonts[j].spec_expected_identity() == k
}

/// The position of the container supplied for the identity `k`.
pub open spec fn font_supply_index(fonts: Seq<FontContainerFulfillment>, k: Seq<char>) -> int {
    choose|j: int| 0 <= j < fonts.len() && #[trigger] fonts[j].spec_expected_identity() == k
}

/// The report of the font container `k`, where `identities[j]` is the
/// identity of the bytes of the container `fonts[j]`.
pub open spec fn font_report(
    reqs: Seq<FontRequirementSummary>,
    fonts: Seq<FontContainerFulfillment>,
    identities: Seq<CanonicalIdentity>,
    k: Seq<char>,
) -> FontReportView {
    let r = font_requirement_for(reqs, k);
    let j = font_supply_index(fonts, k);
    let s = font_supplied(fonts, k);
    FontReportView {
        container_identity: k,
        supplied_container_identity: if s {
            Some(identities[j]@)
        } else {
            None
        },
        declared: r is Some,
        embedded: match r {
            Some(x) => x.embedded,
            None => false,
        },
        provenance: if s {
            fonts[j].spec_provenance()
        } else {
            None
        },
        licensing: if s {
            fonts[j].spec_licensing()
        } else {
            None
        },
    }
}

/// `out` reports every font container that `reqs` requires or `fonts`
/// supplies, once each, in text order of the identity, with its report.
pub open spec fn font_reports_exact(
    out: Seq<FontReportView>,
    reqs: Seq<FontRequirementSummary>,
    fonts: Seq<FontContainerFulfillment>,
    identities: Seq<CanonicalIdentity>,
) -> bool {
    &&& forall|a: int, b: int| #![trigger out[a], out[b]] 0 <= a < b < out.len() ==> text_lt(
        out[a].container_identity,
        out[b].container_identity,
    )
    &&& forall|k: Seq<char>|
        (exists|j: int| 0 <= j < out.len() && #[trigger] out[j].container_identity == k) <==> (font_required(reqs, k)
            || font_supplied(fonts, k))
    &&& forall|j: int| 0 <= j < out.len() ==> #[trigger] out[j] == font_report(reqs, fonts, identities, out[j].container_identity)
}

/// Operational dependency evidence of one compilation.
#[derive(Clone, Debug)]
pub struct CompilationFulfillmentReport {
    packages: Vec<PackageFulfillmentReport>,
    fonts: Vec<FontFulfillmentReport>,
}

impl CompilationFulfillmentReport {
    pub closed spec fn spec_packages(&self) -> Seq<PackageReportView> {
        self.packages@.map_values(|r: PackageFulfillmentReport| r@)
    }

    pub closed spec fn spec_fonts(&self) -> Seq<FontReportView> {
        self.fonts@.map_values(|r: FontFulfillmentReport| font_report_view(r))
    }

    /// The package reports, in specification order.
    pub fn packages(&self) -> (r: &[PackageFulfillmentReport])
        ensures
            r@.map_values(|x: PackageFulfillmentReport| x@) == self.spec_packages(),
    {
        self.packages.as_slice()
    }

    /// The font reports, in identity order.
    pub fn fonts(&self) -> (r: &[FontFulfillmentReport])
        ensures
            r@.map_values(|x: FontFulfillmentReport| font_report_view(x)) == self.spec_fonts(),
    {
        self.fonts.as_slice()
    }
}

/// The specifications that `reqs` requires or `supplied` supplies, each
/// once, in text order.
fn package_keys(reqs: &[PackageRequirementSummary], supplied: &[PackageFulfillmentSummary]) -> (r: Vec<String>)
    ensures
        texts_ascending(r@),
        forall|k: Seq<char>| contains_text(r@, k) <==> (package_required(reqs@, k) || package_fulfilled(supplied@, k)),
{
    let mut keys: Vec<String> = Vec::new();
    let mut i: usize = 0;
    while i < reqs.len()
        invariant
            i <= reqs@.len(),
            texts_ascending(keys@),
            forall|k: Seq<char>| contains_text(keys@, k) <==> exists|q: int| 0 <= q < i && #[trigger] reqs@[q].spec@ == k,
        decreases reqs@.len() - i,
    {
        let ghost before = keys@;
        insert_text_ascending(&mut keys, reqs[i].spec.clone());
        proof {
            assert forall|k: Seq<char>| contains_text(keys@, k) <==> exists|q: int| 0 <= q < i + 1 && #[trigger] reqs@[q].spec@ == k by {
                if exists|q: int| 0 <= q < i + 1 && #[trigger] reqs@[q].spec@ == k {
                    let q = choose|q: int| 0 <= q < i + 1 && #[trigger] reqs@[q].spec@ == k;
                    if q < i {
                        assert(contains_text(before, k));
                    }
                }
            }
        }
        i = i + 1;
    }
    let mut j: usize = 0;
    while j < supplied.len()
        invariant
            i == reqs@.len(),
            j <= supplied@.len(),
            texts_ascending(keys@),
            forall|k: Seq<char>| contains_text(keys@, k) <==> ((exists|q: int| 0 <= q < i && #[trigger] reqs@[q].spec@ == k)
                || exists|q: int| 0 <= q < j && #[trigger] supplied@[q].spec@ == k),
        decreases supplied@.len() - j,
    {
        let ghost before = keys@;
        insert_text_ascending(&mut keys, supplied[j].spec.clone());
        proof {
            assert forall|k: Seq<char>| contains_text(keys@, k) <==> ((exists|q: int| 0 <= q < i && #[trigger] reqs@[q].spec@ == k)
                || exists|q: int| 0 <= q < j + 1 && #[trigger] supplied@[q].spec@ == k) by {
                if exists|q: int| 0 <= q < j + 1 && #[trigger] supplied@[q].spec@ == k {
                    let q = choose|q: int| 0 <= q < j + 1 && #[trigger] supplied@[q].spec@ == k;
                    if q < j {
                        assert(contains_text(before, k));
                    }
                }
            }
        }
        j = j + 1;
    }
    keys
}

/// The report of the package `key`.
fn report_package(reqs: &[PackageRequirementSummary], supplied: &[PackageFulfillmentSummary], key: &String) -> (r:
    PackageFulfillmentReport)
    requires
        forall|a: int, b: int| 0 <= a < b < reqs@.len() ==> reqs@[a].spec@ != reqs@[b].spec@,
        keys_ascending(supplied@),
    ensures
        r@ == package_report(reqs@, supplied@, key@),
{
    let ri = find_package_requirement(reqs, key);
    let si = find_package_fulfillment(supplied, key);
    proof {
        if let Some(i) = ri {
            let c = choose|c: int| 0 <= c < reqs@.len() && #[trigger] reqs@[c].spec@ == key@;
            assert(package_required(reqs@, key@));
            if c != i {
                if c < i {
                    assert(reqs@[c].spec@ != reqs@[i as int].spec@);
                } else {
                    assert(reqs@[i as int].spec@ != reqs@[c].spec@);
                }
            }
            assert(package_requirement_for(reqs@, key@) == Some(reqs@[i as int]));
        }
        if let Some(j) = si {
            let c = choose|c: int| 0 <= c < supplied@.len() && #[trigger] supplied@[c].spec@ == key@;
            assert(package_fulfilled(supplied@, key@));
            if c != j {
                lemma_text_lt_irreflexive(key@, 0);
                if c < j {
                    assert(text_lt(supplied@[c].spec_key(), supplied@[j as int].spec_key()));
                } else {
                    assert(text_lt(supplied@[j as int].spec_key(), supplied@[c].spec_key()));
                }
            }
            assert(package_supply_for(supplied@, key@) == Some(supplied@[j as int]));
        }
    }
    PackageFulfillmentReport {
        spec: key.clone(),
        required_tree_identity: match ri {
            Some(i) => Some(reqs[i].tree_identity.duplicate()),
            None => None,
        },
        supplied_tree_identity: match si {
            Some(j) => Some(supplied[j].tree_identity.duplicate()),
            None => None,
        },
        declared: ri.is_some(),
        embedded: match ri {
            Some(i) => reqs[i].embedded,
            None => false,
        },
        provenance: match si {
            Some(j) => copy_text(&supplied[j].provenance),
            None => None,
        },
        cache_hit: match si {
            Some(j) => supplied[j].cache_hit,
            None => false,
        },
    }
}

/// The container identities that `reqs` requires or `fonts` supplies, each
/// once, in text order.
fn font_keys(reqs: &[FontRequirementSummary], fonts: &[FontContainerFulfillment]) -> (r: Vec<String>)
    ensures
        texts_ascending(r@),
        forall|k: Seq<char>| contains_text(r@, k) <==> (font_required(reqs@, k) || font_supplied(fonts@, k)),
{
    let mut keys: Vec<String> = Vec::new();
    let mut i: usize = 0;
    while i < reqs.len()
        invariant
            i <= reqs@.len(),
            texts_ascending(keys@),
            forall|k: Seq<char>| contains_text(keys@, k) <==> exists|q: int| 0 <= q < i && #[trigger] reqs@[q].container_identity@
                == k,
        decreases reqs@.len() - i,
    {
        let ghost before = keys@;
        insert_text_ascending(&mut keys, reqs[i].container_identity.as_str().to_owned());
        proof {
            assert forall|k: Seq<char>| contains_text(keys@, k) <==> exists|q: int| 0 <= q < i + 1
                && #[trigger] reqs@[q].container_identity@ == k by {
                if exists|q: int| 0 <= q < i + 1 && #[trigger] reqs@[q].container_identity@ == k {
                    let q = choose|q: int| 0 <= q < i + 1 && #[trigger] reqs@[q].container_identity@ == k;
                    if q < i {
                        assert(contains_text(before, k));
                    }
                }
            }
        }
        i = i + 1;
    }
    let mut j: usize = 0;
    while j < fonts.len()
        invariant
            i == reqs@.len(),
            j <= fonts@.len(),
            texts_ascending(keys@),
            forall|k: Seq<char>| contains_text(keys@, k) <==> ((exists|q: int| 0 <= q < i && #[trigger] reqs@[q].container_identity@
                == k) || exists|q: int| 0 <= q < j && #[trigger] fonts@[q].spec_expected_identity() == k),
        decreases fonts@.len() - j,
    {
        let ghost before = keys@;
        let identity = fonts[j].expected_identity();
        insert_text_ascending(&mut keys, identity.as_str().to_owned());
        proof {
            assert forall|k: Seq<char>| contains_text(keys@, k) <==> ((exists|q: int| 0 <= q < i
                && #[trigger] reqs@[q].container_identity@ == k) || exists|q: int| 0 <= q < j + 1
                && #[trigger] fonts@[q].spec_expected_identity() == k) by {
                if exists|q: int| 0 <= q < j + 1 && #[trigger] fonts@[q].spec_expected_identity() == k {
                    let q = choose|q: int| 0 <= q < j + 1 && #[trigger] fonts@[q].spec_expected_identity() == k;
                    if q < j {
                        assert(contains_text(before, k));
                    }
                }
            }
        }
        j = j + 1;
    }
    keys
}

fn find_font_supply(fonts: &[FontContainerFulfillment], identity: &CanonicalIdentity) -> (r: Option<usize>)
    ensures
        match r {
            Some(j) => j < fonts@.len() && fonts@[j as int].spec_expected_identity() == identity@,
            None => !font_supplied(fonts@, identity@),
        },
{
    let mut j: usize = 0;
    while j < fonts.len()
        invariant
            j <= fonts@.len(),
            forall|q: int| 0 <= q < j ==> #[trigger] fonts@[q].spec_expected_identity() != identity@,
        decreases fonts@.len() - j,
    {
        let e = fonts[j].expected_identity();
        if e.same_as(identity) {
            return Some(j);
        }
        j = j + 1;
    }
    None
}

/// The report of the font container `key`.
fn report_font(
    reqs: &[FontRequirementSummary],
    fonts: &[FontContainerFulfillment],
    identities: &[CanonicalIdentity],
    key: &String,
) -> (r: FontFulfillmentReport)
    requires
        forall|a: int, b: int| 0 <= a < b < reqs@.len() ==> reqs@[a].container_identity@ != reqs@[b].container_identity@,
        keys_ascending(fonts@),
        identities@.len() == fonts@.len(),
    ensures
        font_report_view(r) == font_report(reqs@, fonts@, identities@, key@),
{
    let identity = CanonicalIdentity::from_key(key.clone());
    let ri = find_font_requirement(reqs, &identity);
    let si = find_font_supply(fonts, &identity);
    proof {
        if let Some(i) = ri {
            let c = choose|c: int| 0 <= c < reqs@.len() && #[trigger] reqs@[c].container_identity@ == key@;
            assert(font_required(reqs@, key@));
            if c != i {
                if c < i {
                    assert(reqs@[c].container_identity@ != reqs@[i as int].container_identity@);
                } else {
                    assert(reqs@[i as int].container_identity@ != reqs@[c].container_identity@);
                }
            }
            assert(font_requirement_for(reqs@, key@) == Some(reqs@[i as int]));
        }
        if let Some(j) = si {
            let c = font_supply_index(fonts@, key@);
            assert(font_supplied(fonts@, key@));
            if c != j {
                lemma_text_lt_irreflexive(key@, 0);
                if c < j {
                    assert(text_lt(fonts@[c].spec_key(), fonts@[j as int].spec_key()));
                } else {
                    assert(text_lt(fonts@[j as int].spec_key(), fonts@[c].spec_key()));
                }
            }
            assert(font_supply_index(fonts@, key@) == j);
        }
    }
    let declared = ri.is_some();
    let embedded = match ri {
        Some(i) => reqs[i].embedded,
        None => false,
    };
    match si {
        Some(j) => FontFulfillmentReport::for_fulfillment(
            identity,
            declared,
            embedded,
            Some((&fonts[j], identities[j].duplicate())),
        ),
        None => FontFulfillmentReport::for_fulfillment(identity, declared, embedded, None),
    }
}

/// The report of every package and font container that the pack requires or
/// the caller supplied: once each, packages in specification order and
/// containers in identity order, with what was required and what was
/// supplied. `container_identities[j]` is the identity of the bytes of the
/// `j`-th supplied container.
pub fn compilation_fulfillment_report(
    package_requirements: &[PackageRequirementSummary],
    font_requirements: &[FontRequirementSummary],
    fulfillments: &CompilationFulfillmentSet,
    container_identities: &[CanonicalIdentity],
) -> (r: CompilationFulfillmentReport)
    requires
        forall|a: int, b: int|
            0 <= a < b < package_requirements@.len() ==> package_requirements@[a].spec@ != package_requirements@[b].spec@,
        forall|a: int, b: int|
            0 <= a < b < font_requirements@.len() ==> font_requirements@[a].container_identity@
                != font_requirements@[b].container_identity@,
        container_identities@.len() == fulfillments.spec_fonts().len(),
    ensures
        package_reports_exact(r.spec_packages(), package_requirements@, fulfillments.spec_packages()),
        font_reports_exact(r.spec_fonts(), font_requirements@, fulfillments.spec_fonts(), container_identities@),
{
    let supplied = fulfillments.packages();
    let fonts = fulfillments.fonts();
    let keys = package_keys(package_requirements, supplied);
    let mut packages: Vec<PackageFulfillmentReport> = Vec::new();
    let mut k: usize = 0;
    while k < keys.len()
        invariant
            k <= keys@.len(),
            supplied@ == fulfillments.spec_packages(),
            keys_ascending(supplied@),
            forall|a: int, b: int|
                0 <= a < b < package_requirements@.len() ==> package_requirements@[a].spec@ != package_requirements@[b].spec@,
            packages@.len() == k,
            forall|j: int| 0 <= j < k ==> (#[trigger] packages@[j])@ == package_report(
                package_requirements@,
                supplied@,
                keys@[j]@,
            ),
        decreases keys@.len() - k,
    {
        packages.push(report_package(package_requirements, supplied, &keys[k]));
        k = k + 1;
    }
    let font_key_list = font_keys(font_requirements, fonts);
    let mut font_reports: Vec<FontFulfillmentReport> = Vec::new();
    let mut m: usize = 0;
    while m < font_key_list.len()
        invariant
            m <= font_key_list@.len(),
            fonts@ == fulfillments.spec_fonts(),
            keys_ascending(fonts@),
            container_identities@.len() == fonts@.len(),
            forall|a: int, b: int|
                0 <= a < b < font_requirements@.len() ==> font_requirements@[a].container_identity@
                    != font_requirements@[b].container_identity@,
            font_reports@.len() == m,
            forall|j: int| 0 <= j < m ==> font_report_view(#[trigger] font_reports@[j]) == font_report(
                font_requirements@,
                fonts@,
                container_identities@,
                font_key_list@[j]@,
            ),
        decreases font_key_list@.len() - m,
    {
        font_reports.push(report_font(font_requirements, fonts, container_identities, &font_key_list[m]));
        m = m + 1;
    }
    let r = CompilationFulfillmentReport { packages, fonts: font_reports };
    proof {
        let ps = r.spec_packages();
        assert forall|j: int| 0 <= j < ps.len() implies #[trigger] ps[j] == package_report(
            package_requirements@,
            supplied@,
            ps[j].spec,
        ) by {
            assert(ps[j] == packages@[j]@);
        }
        assert forall|a: int, b: int| #![trigger ps[a], ps[b]] 0 <= a < b < ps.len() implies text_lt(ps[a].spec, ps[b].spec) by {
            assert(ps[a].spec == keys@[a]@);
            assert(ps[b].spec == keys@[b]@);
        }
        assert forall|key: Seq<char>| (exists|j: int| 0 <= j < ps.len() && #[trigger] ps[j].spec == key) <==> (
        package_required(package_requirements@, key) || package_fulfilled(supplied@, key)) by {
            if exists|j: int| 0 <= j < ps.len() && #[trigger] ps[j].spec == key {
                let j = choose|j: int| 0 <= j < ps.len() && #[trigger] ps[j].spec == key;
                assert(keys@[j]@ == key);
                assert(contains_text(keys@, key));
            }
            if package_required(package_requirements@, key) || package_fulfilled(supplied@, key) {
                assert(contains_text(keys@, key));
                let j = choose|j: int| 0 <= j < keys@.len() && #[trigger] keys@[j]@ == key;
                assert(ps[j].spec == key);
            }
        }
        let fs = r.spec_fonts();
        assert forall|j: int| 0 <= j < fs.len() implies #[trigger] fs[j] == font_report(
            font_requirements@,
            fonts@,
            container_identities@,
            fs[j].container_identity,
        ) by {
            assert(fs[j] == font_report_view(font_reports@[j]));
        }
        assert forall|a: int, b: int| #![trigger fs[a], fs[b]] 0 <= a < b < fs.len() implies text_lt(
            fs[a].container_identity,
            fs[b].container_identity,
        ) by {
            assert(fs[a].container_identity == font_key_list@[a]@);
            assert(fs[b].container_identity == font_key_list@[b]@);
        }
        assert forall|key: Seq<char>| (exists|j: int| 0 <= j < fs.len() && #[trigger] fs[j].container_identity == key) <==> (
        font_required(font_requirements@, key) || font_supplied(fonts@, key)) by {
            if exists|j: int| 0 <= j < fs.len() && #[trigger] fs[j].container_identity == key {
                let j = choose|j: int| 0 <= j < fs.len() && #[trigger] fs[j].container_identity == key;
                assert(font_key_list@[j]@ == key);
                assert(contains_text(font_key_list@, key));
            }
            if font_required(font_requirements@, key) || font_supplied(fonts@, key) {
                assert(contains_text(font_key_list@, key));
                let j = choose|j: int| 0 <= j < font_key_list@.len() && #[trigger] font_key_list@[j]@ == key;
                assert(fs[j].container_identity == key);
            }
        }
    }
    r
}

} // verus!
