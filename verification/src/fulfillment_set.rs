//! A compilation fulfillment set: the package trees and font containers
//! supplied for a compilation, each key at most once, kept in key order.

use vstd::prelude::*;
use vstd::string::StringExecFns;
use crate::artifact_publication::{contains_text, insert_text_ascending, texts_ascending};
use crate::exactness::PackageFulfillmentSummary;
use crate::fulfillment::FontContainerFulfillment;
use crate::order::text_lt;
use crate::CanonicalIdentity;

verus! {

/// A fulfillment with a text key: the specification it fulfills, or the
/// identity of the container it supplies.
pub trait KeyedFulfillment: Sized {
    spec fn spec_key(&self) -> Seq<char>;

    fn key_chars(&self) -> (r: Vec<char>)
        ensures
            r@ == self.spec_key(),
    ;

    fn key_string(&self) -> (r: String)
        ensures
            r@ == self.spec_key(),
    ;
}

impl KeyedFulfillment for PackageFulfillmentSummary {
    open spec fn spec_key(&self) -> Seq<char> {
        self.spec@
    }

    fn key_chars(&self) -> (r: Vec<char>) {
        crate::text::chars_of(self.spec.as_str())
    }

    fn key_string(&self) -> (r: String) {
        self.spec.clone()
    }
}

impl KeyedFulfillment for FontContainerFulfillment {
    open spec fn spec_key(&self) -> Seq<char> {
        self.spec_expected_identity()
    }

    fn key_chars(&self) -> (r: Vec<char>) {
        let identity = self.expected_identity();
        crate::text::chars_of(identity.as_str())
    }

    fn key_string(&self) -> (r: String) {
        let identity = self.expected_identity();
        identity.as_str().to_owned()
    }
}

/// Whether the items are in strictly increasing key order.
pub open spec fn keys_ascending<T: KeyedFulfillment>(s: Seq<T>) -> bool {
    forall|a: int, b: int| 0 <= a < b < s.len() ==> text_lt(s[a].spec_key(), s[b].spec_key())
}

/// Whether two of the first `n` items share the key `k`.
pub open spec fn key_repeated<T: KeyedFulfillment>(s: Seq<T>, n: int, k: Seq<char>) -> bool {
    exists|i: int, j: int| 0 <= i < j < n && #[trigger] s[i].spec_key() == k && #[trigger] s[j].spec_key() == k
}

/// Whether some item of `s` has the key `k`.
pub open spec fn has_key<T: KeyedFulfillment>(s: Seq<T>, k: Seq<char>) -> bool {
    exists|i: int| 0 <= i < s.len() && #[trigger] s[i].spec_key() == k
}

/// Whether `out` holds exactly the items of `input`, each once.
pub open spec fn same_items<T>(out: Seq<T>, input: Seq<T>) -> bool {
    &&& out.len() == input.len()
    &&& forall|i: int| 0 <= i < input.len() ==> out.contains(#[trigger] input[i])
    &&& forall|j: int| 0 <= j < out.len() ==> input.contains(#[trigger] out[j])
}

/// Puts the items in key order, and gives back every repeated key in text
/// order; where no key repeats, the sorted items are exactly the given ones.
fn sort_by_key<T: KeyedFulfillment>(items: Vec<T>) -> (r: (Vec<T>, Vec<String>))
    ensures
        keys_ascending(r.0@),
        texts_ascending(r.1@),
        forall|k: Seq<char>| #[trigger] contains_text(r.1@, k) <==> key_repeated(items@, items@.len() as int, k),
        r.1@.len() == 0 ==> same_items(r.0@, items@),
{
    let ghost input = items@;
    let mut rest = items;
    let mut out: Vec<T> = Vec::new();
    let mut repeated: Vec<String> = Vec::new();
    let ghost mut c: int = 0;
    while rest.len() > 0
        invariant
            0 <= c <= input.len(),
            rest@ == input.subrange(c, input.len() as int),
            keys_ascending(out@),
            texts_ascending(repeated@),
            forall|k: Seq<char>| has_key(out@, k) <==> exists|i: int| 0 <= i < c && #[trigger] input[i].spec_key() == k,
            forall|k: Seq<char>| #[trigger] contains_text(repeated@, k) <==> key_repeated(input, c, k),
            forall|j: int| 0 <= j < out@.len() ==> input.subrange(0, c).contains(#[trigger] out@[j]),
            repeated@.len() == 0 ==> out@.len() == c,
            repeated@.len() == 0 ==> forall|i: int| 0 <= i < c ==> out@.contains(#[trigger] input[i]),
        decreases rest@.len(),
    {
        let x = rest.remove(0);
        assert(x == input[c]);
        let ghost kx = x.spec_key();
        let key = x.key_chars();
        let mut p: usize = 0;
        let mut equal = false;
        while p < out.len()
            invariant_except_break
                !equal,
            invariant
                p <= out@.len(),
                key@ == kx,
                forall|q: int| 0 <= q < p ==> text_lt(#[trigger] out@[q].spec_key(), kx),
            ensures
                p <= out@.len(),
                forall|q: int| 0 <= q < p ==> text_lt(#[trigger] out@[q].spec_key(), kx),
                equal ==> p < out@.len() && out@[p as int].spec_key() == kx,
                !equal ==> p == out@.len() || text_lt(kx, out@[p as int].spec_key()),
            decreases out@.len() - p,
        {
            let other = out[p].key_chars();
            let relation = crate::order::compare_text(other.as_slice(), key.as_slice());
            if relation == 0 {
                equal = true;
                break;
            }
            if relation > 0 {
                break;
            }
            p = p + 1;
        }
        let ghost old_out = out@;
        let ghost old_repeated = repeated@;
        if equal {
            let name = x.key_string();
            insert_text_ascending(&mut repeated, name);
            proof {
                assert(has_key(old_out, kx));
                let i0 = choose|i: int| 0 <= i < c && #[trigger] input[i].spec_key() == kx;
                assert forall|k: Seq<char>| #[trigger] contains_text(repeated@, k) <==> key_repeated(input, c + 1, k) by {
                    if key_repeated(input, c + 1, k) && !key_repeated(input, c, k) {
                        let (a, b) = choose|a: int, b: int| 0 <= a < b < c + 1 && #[trigger] input[a].spec_key() == k && #[trigger] input[b].spec_key() == k;
                        assert(b == c);
                    }
                    if k == kx {
                        assert(input[i0].spec_key() == k && input[c].spec_key() == k);
                        assert(key_repeated(input, c + 1, k));
                    }
                    if key_repeated(input, c, k) {
                        let (a, b) = choose|a: int, b: int| 0 <= a < b < c && #[trigger] input[a].spec_key() == k && #[trigger] input[b].spec_key() == k;
                        assert(0 <= a < b < c + 1);
                    }
                }
            }
        } else {
            out.insert(p, x);
            proof {
                crate::order::lemma_text_lt_irreflexive(kx, 0);
                assert forall|a: int, b: int| 0 <= a < b < out@.len() implies text_lt(out@[a].spec_key(), out@[b].spec_key()) by {
                    if b < p {
                        assert(out@[a] == old_out[a] && out@[b] == old_out[b]);
                    } else if b == p {
                        assert(out@[a] == old_out[a]);
                    } else if a == p {
                        assert(out@[b] == old_out[b - 1]);
                        if b - 1 > p {
                            assert(text_lt(old_out[p as int].spec_key(), old_out[b - 1].spec_key()));
                            crate::order::lemma_text_lt_transitive(kx, old_out[p as int].spec_key(), old_out[b - 1].spec_key(), 0);
                        }
                    } else if a < p {
                        assert(out@[a] == old_out[a] && out@[b] == old_out[b - 1]);
                        if b - 1 > a {
                            assert(text_lt(old_out[a].spec_key(), old_out[b - 1].spec_key()));
                        }
                    } else {
                        assert(out@[a] == old_out[a - 1] && out@[b] == old_out[b - 1]);
                        assert(text_lt(old_out[a - 1].spec_key(), old_out[b - 1].spec_key()));
                    }
                }
                assert(!has_key(old_out, kx)) by {
                    if has_key(old_out, kx) {
                        let q = choose|q: int| 0 <= q < old_out.len() && #[trigger] old_out[q].spec_key() == kx;
                        if q < p {
                            assert(text_lt(old_out[q].spec_key(), kx));
                        } else {
                            if q > p {
                                assert(text_lt(old_out[p as int].spec_key(), old_out[q].spec_key()));
                                crate::order::lemma_text_lt_transitive(kx, old_out[p as int].spec_key(), kx, 0);
                            }
                        }
                    }
                }
                assert forall|k: Seq<char>| has_key(out@, k) <==> exists|i: int| 0 <= i < c + 1 && #[trigger] input[i].spec_key() == k by {
                    if has_key(out@, k) {
                        let q = choose|q: int| 0 <= q < out@.len() && #[trigger] out@[q].spec_key() == k;
                        if q < p {
                            assert(out@[q] == old_out[q]);
                            assert(has_key(old_out, k));
                        } else if q > p {
                            assert(out@[q] == old_out[q - 1]);
                            assert(has_key(old_out, k));
                        } else {
                            assert(input[c].spec_key() == k);
                        }
                    }
                    if exists|i: int| 0 <= i < c + 1 && #[trigger] input[i].spec_key() == k {
                        let i = choose|i: int| 0 <= i < c + 1 && #[trigger] input[i].spec_key() == k;
                        if i == c {
                            assert(out@[p as int].spec_key() == k);
                        } else {
                            assert(has_key(old_out, k));
                            let q = choose|q: int| 0 <= q < old_out.len() && #[trigger] old_out[q].spec_key() == k;
                            if q < p {
                                assert(out@[q] == old_out[q]);
                            } else {
                                assert(out@[q + 1] == old_out[q]);
                            }
                        }
                    }
                }
                assert forall|k: Seq<char>| #[trigger] contains_text(repeated@, k) <==> key_repeated(input, c + 1, k) by {
                    if key_repeated(input, c + 1, k) && !key_repeated(input, c, k) {
                        let (a, b) = choose|a: int, b: int| 0 <= a < b < c + 1 && #[trigger] input[a].spec_key() == k && #[trigger] input[b].spec_key() == k;
                        assert(b == c);
                        assert(exists|i: int| 0 <= i < c && #[trigger] input[i].spec_key() == kx);
                    }
                    if key_repeated(input, c, k) {
                        let (a, b) = choose|a: int, b: int| 0 <= a < b < c && #[trigger] input[a].spec_key() == k && #[trigger] input[b].spec_key() == k;
                        assert(0 <= a < b < c + 1);
                    }
                }
                assert forall|j: int| 0 <= j < out@.len() implies input.subrange(0, c + 1).contains(#[trigger] out@[j]) by {
                    if j == p {
                        assert(input.subrange(0, c + 1)[c] == input[c]);
                    } else {
                        let o = if j < p { j } else { j - 1 };
                        assert(out@[j] == old_out[o]);
                        assert(input.subrange(0, c).contains(old_out[o]));
                        let t = choose|t: int| 0 <= t < c && input.subrange(0, c)[t] == old_out[o];
                        assert(input.subrange(0, c + 1)[t] == old_out[o]);
                    }
                }
                if repeated@.len() == 0 {
                    assert forall|i: int| 0 <= i < c + 1 implies out@.contains(#[trigger] input[i]) by {
                        if i == c {
                            assert(out@[p as int] == input[c]);
                        } else {
                            assert(old_out.contains(input[i]));
                            let q = choose|q: int| 0 <= q < old_out.len() && old_out[q] == input[i];
                            if q < p {
                                assert(out@[q] == old_out[q]);
                            } else {
                                assert(out@[q + 1] == old_out[q]);
                            }
                        }
                    }
                }
            }
        }
        proof {
            if equal {
                assert(contains_text(repeated@, kx));
                assert forall|j: int| 0 <= j < out@.len() implies input.subrange(0, c + 1).contains(#[trigger] out@[j]) by {
                    assert(input.subrange(0, c).contains(out@[j]));
                    let t = choose|t: int| 0 <= t < c && input.subrange(0, c)[t] == out@[j];
                    assert(input.subrange(0, c + 1)[t] == out@[j]);
                }
                assert forall|k: Seq<char>| has_key(out@, k) <==> exists|i: int| 0 <= i < c + 1 && #[trigger] input[i].spec_key() == k by {
                    if exists|i: int| 0 <= i < c + 1 && #[trigger] input[i].spec_key() == k {
                        let i = choose|i: int| 0 <= i < c + 1 && #[trigger] input[i].spec_key() == k;
                        if i == c {
                            assert(out@[p as int].spec_key() == k);
                        }
                    }
                    if has_key(out@, k) {
                        assert(exists|i: int| 0 <= i < c && #[trigger] input[i].spec_key() == k);
                    }
                }
            }
            c = c + 1;
        }
    }
    proof {
        assert(input.subrange(0, c) =~= input);
    }
    (out, repeated)
}

/// A key fulfilled more than once in a fulfillment set.
#[derive(Clone, Debug)]
pub enum CompilationFulfillmentSetIssue {
    DuplicatePackageSpecification { spec: String },
    DuplicateFontContainerIdentity { identity: CanonicalIdentity },
}

/// The key an issue names.
pub open spec fn set_issue_key(issue: CompilationFulfillmentSetIssue) -> Seq<char> {
    match issue {
        CompilationFulfillmentSetIssue::DuplicatePackageSpecification { spec } => spec@,
        CompilationFulfillmentSetIssue::DuplicateFontContainerIdentity { identity } => identity@,
    }
}

/// Whether the issues are the repeated package keys, in text order, and
/// then the repeated font keys, in text order.
pub open spec fn set_issues_canonical(
    issues: Seq<CompilationFulfillmentSetIssue>,
    packages: Seq<PackageFulfillmentSummary>,
    fonts: Seq<FontContainerFulfillment>,
) -> bool {
    exists|split: int|
        #![trigger issues.subrange(0, split)]
        0 <= split <= issues.len() && (forall|i: int| 0 <= i < split ==> (#[trigger] issues[i]) is DuplicatePackageSpecification)
            && (forall|i: int| split <= i < issues.len() ==> (#[trigger] issues[i]) is DuplicateFontContainerIdentity)
            && (forall|a: int, b: int| 0 <= a < b < split ==> text_lt(set_issue_key(issues[a]), set_issue_key(issues[b])))
            && (forall|a: int, b: int|
            split <= a < b < issues.len() ==> text_lt(set_issue_key(issues[a]), set_issue_key(issues[b])))
            && (forall|k: Seq<char>|
            (exists|i: int| 0 <= i < split && #[trigger] set_issue_key(issues[i]) == k) <==> key_repeated(
                packages,
                packages.len() as int,
                k,
            ))
            && (forall|k: Seq<char>|
            (exists|i: int| split <= i < issues.len() && #[trigger] set_issue_key(issues[i]) == k) <==> key_repeated(
                fonts,
                fonts.len() as int,
                k,
            ))
}

/// Evidence that a fulfillment set fulfills some key more than once.
#[derive(Clone, Debug)]
pub struct CompilationFulfillmentSetError {
    issues: Vec<CompilationFulfillmentSetIssue>,
}

impl CompilationFulfillmentSetError {
    pub closed spec fn spec_issues(&self) -> Seq<CompilationFulfillmentSetIssue> {
        self.issues@
    }

    /// `Compilation Fulfillment Set construction failed with <n> issue(s)`.
    pub fn describe(&self) -> (r: String)
        ensures
            r@ == "Compilation Fulfillment Set construction failed with "@ + crate::artifact_publication::decimal(
                self.spec_issues().len(),
            ) + " issue(s)"@,
    {
        let mut m = String::from_str("Compilation Fulfillment Set construction failed with ");
        crate::artifact_publication::append_decimal(&mut m, self.issues.len());
        m.append(" issue(s)");
        m
    }

    /// Every repeated key, packages first, each part in text order.
    pub fn issues(&self) -> (r: &[CompilationFulfillmentSetIssue])
        ensures
            r@ == self.spec_issues(),
    {
        self.issues.as_slice()
    }
}

/// The package trees and font containers supplied for a compilation, each
/// key once, in key order.
#[derive(Debug)]
pub struct CompilationFulfillmentSet {
    packages: Vec<PackageFulfillmentSummary>,
    fonts: Vec<FontContainerFulfillment>,
}

impl CompilationFulfillmentSet {
    #[verifier::type_invariant]
    spec fn keys_in_order(self) -> bool {
        keys_ascending(self.packages@) && keys_ascending(self.fonts@)
    }

    pub closed spec fn spec_packages(&self) -> Seq<PackageFulfillmentSummary> {
        self.packages@
    }

    pub closed spec fn spec_fonts(&self) -> Seq<FontContainerFulfillment> {
        self.fonts@
    }

    /// A set of the given fulfillments; a key given twice refuses the set,
    /// and the refusal names every such key.
    pub fn new(packages: Vec<PackageFulfillmentSummary>, fonts: Vec<FontContainerFulfillment>) -> (r: Result<
        Self,
        CompilationFulfillmentSetError,
    >)
        ensures
            r is Ok <==> (forall|k: Seq<char>| !key_repeated(packages@, packages@.len() as int, k)) && (forall|k: Seq<char>|
                !key_repeated(fonts@, fonts@.len() as int, k)),
            r matches Ok(set) ==> keys_ascending(set.spec_packages()) && same_items(set.spec_packages(), packages@)
                && keys_ascending(set.spec_fonts()) && same_items(set.spec_fonts(), fonts@),
            r matches Err(e) ==> set_issues_canonical(e.spec_issues(), packages@, fonts@),
    {
        let ghost pv = packages@;
        let ghost fv = fonts@;
        let (sorted_packages, repeated_packages) = sort_by_key(packages);
        let (sorted_fonts, repeated_fonts) = sort_by_key(fonts);
        if repeated_packages.len() == 0 && repeated_fonts.len() == 0 {
            proof {
                assert forall|k: Seq<char>| !key_repeated(pv, pv.len() as int, k) by {
                    if key_repeated(pv, pv.len() as int, k) {
                        assert(contains_text(repeated_packages@, k));
                    }
                }
                assert forall|k: Seq<char>| !key_repeated(fv, fv.len() as int, k) by {
                    if key_repeated(fv, fv.len() as int, k) {
                        assert(contains_text(repeated_fonts@, k));
                    }
                }
            }
            return Ok(CompilationFulfillmentSet { packages: sorted_packages, fonts: sorted_fonts });
        }
        let mut issues: Vec<CompilationFulfillmentSetIssue> = Vec::new();
        let mut i: usize = 0;
        while i < repeated_packages.len()
            invariant
                i <= repeated_packages@.len(),
                issues@.len() == i,
                forall|q: int|
                    0 <= q < i ==> (#[trigger] issues@[q]) is DuplicatePackageSpecification && set_issue_key(issues@[q])
                        == repeated_packages@[q]@,
            decreases repeated_packages@.len() - i,
        {
            issues.push(CompilationFulfillmentSetIssue::DuplicatePackageSpecification { spec: repeated_packages[i].clone() });
            i = i + 1;
        }
        let split = issues.len();
        let mut j: usize = 0;
        while j < repeated_fonts.len()
            invariant
                j <= repeated_fonts@.len(),
                split == repeated_packages@.len(),
                issues@.len() == split + j,
                forall|q: int|
                    0 <= q < split ==> (#[trigger] issues@[q]) is DuplicatePackageSpecification && set_issue_key(issues@[q])
                        == repeated_packages@[q]@,
                forall|q: int|
                    split <= q < split + j ==> (#[trigger] issues@[q]) is DuplicateFontContainerIdentity && set_issue_key(
                        issues@[q],
                    ) == repeated_fonts@[q - split]@,
            decreases repeated_fonts@.len() - j,
        {
            let identity = CanonicalIdentity::from_key(repeated_fonts[j].clone());
            issues.push(CompilationFulfillmentSetIssue::DuplicateFontContainerIdentity { identity });
            j = j + 1;
        }
        proof {
            let s = issues@;
            let sp = split as int;
            assert forall|k: Seq<char>|
                (exists|q: int| 0 <= q < sp && #[trigger] set_issue_key(s[q]) == k) <==> key_repeated(pv, pv.len() as int, k) by {
                if exists|q: int| 0 <= q < sp && #[trigger] set_issue_key(s[q]) == k {
                    let q = choose|q: int| 0 <= q < sp && #[trigger] set_issue_key(s[q]) == k;
                    assert(contains_text(repeated_packages@, k));
                }
                if key_repeated(pv, pv.len() as int, k) {
                    assert(contains_text(repeated_packages@, k));
                    let q = choose|q: int| 0 <= q < repeated_packages@.len() && #[trigger] repeated_packages@[q]@ == k;
                    assert(set_issue_key(s[q]) == k);
                }
            }
            assert forall|k: Seq<char>|
                (exists|q: int| sp <= q < s.len() && #[trigger] set_issue_key(s[q]) == k) <==> key_repeated(fv, fv.len() as int, k) by {
                if exists|q: int| sp <= q < s.len() && #[trigger] set_issue_key(s[q]) == k {
                    let q = choose|q: int| sp <= q < s.len() && #[trigger] set_issue_key(s[q]) == k;
                    assert(repeated_fonts@[q - sp]@ == k);
                    assert(contains_text(repeated_fonts@, k));
                }
                if key_repeated(fv, fv.len() as int, k) {
                    assert(contains_text(repeated_fonts@, k));
                    let q = choose|q: int| 0 <= q < repeated_fonts@.len() && #[trigger] repeated_fonts@[q]@ == k;
                    assert(set_issue_key(s[q + sp]) == k);
                }
            }
            assert forall|a: int, b: int| 0 <= a < b < sp implies text_lt(set_issue_key(s[a]), set_issue_key(s[b])) by {
            }
            assert forall|a: int, b: int| sp <= a < b < s.len() implies text_lt(set_issue_key(s[a]), set_issue_key(s[b])) by {
                assert(set_issue_key(s[a]) == repeated_fonts@[a - sp]@);
                assert(set_issue_key(s[b]) == repeated_fonts@[b - sp]@);
            }
            assert(s.subrange(0, sp) == s.subrange(0, sp));
            if repeated_packages@.len() > 0 {
                assert(contains_text(repeated_packages@, repeated_packages@[0]@));
            } else {
                assert(contains_text(repeated_fonts@, repeated_fonts@[0]@));
            }
        }
        Err(CompilationFulfillmentSetError { issues })
    }

    /// A set with nothing in it.
    pub fn empty() -> (r: Self)
        ensures
            r.spec_packages().len() == 0,
            r.spec_fonts().len() == 0,
    {
        CompilationFulfillmentSet { packages: Vec::new(), fonts: Vec::new() }
    }

    /// The package fulfillments, in specification order.
    pub fn packages(&self) -> (r: &[PackageFulfillmentSummary])
        ensures
            r@ == self.spec_packages(),
            keys_ascending(r@),
    {
        proof {
            use_type_invariant(self);
        }
        self.packages.as_slice()
    }

    /// The font fulfillments, in identity order.
    pub fn fonts(&self) -> (r: &[FontContainerFulfillment])
        ensures
            r@ == self.spec_fonts(),
            keys_ascending(r@),
    {
        proof {
            use_type_invariant(self);
        }
        self.fonts.as_slice()
    }
}

} // verus!
