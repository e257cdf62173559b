//! External fulfillment of the font containers a pack needs but does not
//! embed, and the reports of what each fulfillment supplied.

use vstd::prelude::*;
use crate::CanonicalIdentity;
use crate::order::text_lt;

verus! {

/// The bytes of one font container.
#[derive(Clone, Debug)]
pub struct FontContainer {
    data: Vec<u8>,
}

impl FontContainer {
    pub closed spec fn spec_data(&self) -> Seq<u8> {
        self.data@
    }

    pub fn new(data: Vec<u8>) -> (r: Self)
        ensures
            r.spec_data() == data@,
    {
        FontContainer { data }
    }

    pub fn data(&self) -> (r: &[u8])
        ensures
            r@ == self.spec_data(),
    {
        self.data.as_slice()
    }
}

/// A font container supplied for a requirement, with optional notes on
/// where it came from and how it is licensed.
#[derive(Clone, Debug)]
pub struct FontContainerFulfillment {
    expected_identity: CanonicalIdentity,
    container: FontContainer,
    provenance: Option<String>,
    licensing: Option<String>,
}

impl FontContainerFulfillment {
    pub closed spec fn spec_expected_identity(&self) -> Seq<char> {
        self.expected_identity@
    }

    pub closed spec fn spec_container(&self) -> FontContainer {
        self.container
    }

    pub closed spec fn spec_provenance(&self) -> Option<Seq<char>> {
        match self.provenance {
            Some(p) => Some(p@),
            None => None,
        }
    }

    pub closed spec fn spec_licensing(&self) -> Option<Seq<char>> {
        match self.licensing {
            Some(l) => Some(l@),
            None => None,
        }
    }

    pub fn new(expected_identity: CanonicalIdentity, container: FontContainer) -> (r: Self)
        ensures
            r.spec_expected_identity() == expected_identity@,
            r.spec_container() == container,
            r.spec_provenance() is None,
            r.spec_licensing() is None,
    {
        FontContainerFulfillment { expected_identity, container, provenance: None, licensing: None }
    }

    pub fn expected_identity(&self) -> (r: CanonicalIdentity)
        ensures
            r@ == self.spec_expected_identity(),
    {
        self.expected_identity.duplicate()
    }

    pub fn container(&self) -> (r: &FontContainer)
        ensures
            *r == self.spec_container(),
    {
        &self.container
    }

    /// The same fulfillment, noting where the container came from.
    pub fn provenance(self, provenance: String) -> (r: Self)
        ensures
            r.spec_provenance() == Some(provenance@),
            r.spec_expected_identity() == self.spec_expected_identity(),
            r.spec_container() == self.spec_container(),
            r.spec_licensing() == self.spec_licensing(),
    {
        FontContainerFulfillment { provenance: Some(provenance), ..self }
    }

    /// The same fulfillment, noting how the container is licensed.
    pub fn licensing(self, licensing: String) -> (r: Self)
        ensures
            r.spec_licensing() == Some(licensing@),
            r.spec_expected_identity() == self.spec_expected_identity(),
            r.spec_container() == self.spec_container(),
            r.spec_provenance() == self.spec_provenance(),
    {
        FontContainerFulfillment { licensing: Some(licensing), ..self }
    }
}

/// Operational evidence retained for one exact font fulfillment.
#[derive(Clone, Debug)]
pub struct FontFulfillmentReport {
    container_identity: CanonicalIdentity,
    supplied_container_identity: Option<CanonicalIdentity>,
    declared: bool,
    embedded: bool,
    provenance: Option<String>,
    licensing: Option<String>,
}

impl FontFulfillmentReport {
    pub closed spec fn spec_container_identity(&self) -> Seq<char> {
        self.container_identity@
    }

    pub closed spec fn spec_supplied_container_identity(&self) -> Option<Seq<char>> {
        match self.supplied_container_identity {
            Some(i) => Some(i@),
            None => None,
        }
    }

    pub closed spec fn spec_declared(&self) -> bool {
        self.declared
    }

    pub closed spec fn spec_embedded(&self) -> bool {
        self.embedded
    }

    pub closed spec fn spec_provenance(&self) -> Option<Seq<char>> {
        match self.provenance {
            Some(p) => Some(p@),
            None => None,
        }
    }

    pub closed spec fn spec_licensing(&self) -> Option<Seq<char>> {
        match self.licensing {
            Some(l) => Some(l@),
            None => None,
        }
    }

    /// The report of a fulfillment: what was required, what was supplied
    /// (the fulfillment and the identity of the container bytes it holds) and
    /// with which notes.
    pub fn for_fulfillment(
        required: CanonicalIdentity,
        declared: bool,
        embedded: bool,
        supplied: Option<(&FontContainerFulfillment, CanonicalIdentity)>,
    ) -> (r: Self)
        ensures
            r.spec_container_identity() == required@,
            r.spec_declared() == declared,
            r.spec_embedded() == embedded,
            match supplied {
                Some((f, identity)) => r.spec_supplied_container_identity() == Some(identity@)
                    && r.spec_provenance() == f.spec_provenance() && r.spec_licensing() == f.spec_licensing(),
                None => r.spec_supplied_container_identity() is None && r.spec_provenance() is None
                    && r.spec_licensing() is None,
            },
    {
        match supplied {
            Some((f, identity)) => FontFulfillmentReport {
                container_identity: required,
                supplied_container_identity: Some(identity),
                declared,
                embedded,
                provenance: match &f.provenance {
                    Some(p) => Some(p.clone()),
                    None => None,
                },
                licensing: match &f.licensing {
                    Some(l) => Some(l.clone()),
                    None => None,
                },
            },
            None => FontFulfillmentReport {
                container_identity: required,
                supplied_container_identity: None,
                declared,
                embedded,
                provenance: None,
                licensing: None,
            },
        }
    }

    pub fn container_identity(&self) -> (r: CanonicalIdentity)
        ensures
            r@ == self.spec_container_identity(),
    {
        self.container_identity.duplicate()
    }

    pub fn supplied_container_identity(&self) -> (r: Option<CanonicalIdentity>)
        ensures
            match r {
                Some(i) => self.spec_supplied_container_identity() == Some(i@),
                None => self.spec_supplied_container_identity() is None,
            },
    {
        match &self.supplied_container_identity {
            Some(i) => Some(i.duplicate()),
            None => None,
        }
    }

    pub fn declared(&self) -> (r: bool)
        ensures
            r == self.spec_declared(),
    {
        self.declared
    }

    pub fn embedded(&self) -> (r: bool)
        ensures
            r == self.spec_embedded(),
    {
        self.embedded
    }

    pub fn provenance(&self) -> (r: Option<&str>)
        ensures
            match r {
                Some(p) => self.spec_provenance() == Some(p@),
                None => self.spec_provenance() is None,
            },
    {
        match &self.provenance {
            Some(p) => Some(p.as_str()),
            None => None,
        }
    }

    pub fn licensing(&self) -> (r: Option<&str>)
        ensures
            match r {
                Some(l) => self.spec_licensing() == Some(l@),
                None => self.spec_licensing() is None,
            },
    {
        match &self.licensing {
            Some(l) => Some(l.as_str()),
            None => None,
        }
    }
}

/// One font requirement of a pack: the identity and length of its
/// container, whether the pack embeds it, and the face indices it needs.
#[derive(Clone, Debug)]
pub struct FontRequirementSummary {
    pub container_identity: CanonicalIdentity,
    pub embedded: bool,
    pub container_length: u64,
    pub face_indices: Vec<u32>,
}

/// Candidate container bytes, with the identity of those bytes.
#[derive(Clone, Debug)]
pub struct FontContainerSource {
    pub identity: CanonicalIdentity,
    pub bytes: Vec<u8>,
}

/// Whether a container identity is required from outside the pack: some
/// requirement names it and is not embedded.
pub open spec fn externally_required(requirements: Seq<FontRequirementSummary>, identity: Seq<char>) -> bool {
    exists|i: int|
        0 <= i < requirements.len() && #[trigger] requirements[i].container_identity@ == identity
            && !requirements[i].embedded
}

/// Whether source `i` is the first of the sources with its identity.
pub open spec fn first_source_with(sources: Seq<FontContainerSource>, i: int, identity: Seq<char>) -> bool {
    &&& 0 <= i < sources.len()
    &&& sources[i].identity@ == identity
    &&& forall|j: int| 0 <= j < i ==> #[trigger] sources[j].identity@ != identity
}

fn is_externally_required(requirements: &[FontRequirementSummary], identity: &CanonicalIdentity) -> (r: bool)
    ensures
        r == externally_required(requirements@, identity@),
{
    let mut i: usize = 0;
    while i < requirements.len()
        invariant
            i <= requirements@.len(),
            forall|k: int|
                0 <= k < i ==> !(#[trigger] requirements@[k].container_identity@ == identity@
                    && !requirements@[k].embedded),
        decreases requirements@.len() - i,
    {
        if !requirements[i].embedded && requirements[i].container_identity.same_as(identity) {
            return true;
        }
        i = i + 1;
    }
    false
}

/// Whether the fulfillments come in strictly increasing identity order.
pub open spec fn identities_ascending(s: Seq<FontContainerFulfillment>) -> bool {
    forall|a: int, b: int|
        0 <= a < b < s.len() ==> text_lt(s[a].spec_expected_identity(), s[b].spec_expected_identity())
}

/// Whether a fulfillment answers an external requirement with the bytes of
/// the first source, among the first `bound`, that carries its identity.
pub open spec fn backed_by_source(
    requirements: Seq<FontRequirementSummary>,
    sources: Seq<FontContainerSource>,
    bound: int,
    f: FontContainerFulfillment,
) -> bool {
    &&& externally_required(requirements, f.spec_expected_identity())
    &&& exists|i: int|
        0 <= i < bound && #[trigger] first_source_with(sources, i, f.spec_expected_identity())
            && sources[i].bytes@ == f.spec_container().spec_data()
}

/// Whether every fulfillment is backed by one of the first `bound` sources.
pub open spec fn all_backed(
    requirements: Seq<FontRequirementSummary>,
    sources: Seq<FontContainerSource>,
    bound: int,
    s: Seq<FontContainerFulfillment>,
) -> bool {
    forall|a: int| 0 <= a < s.len() ==> #[trigger] backed_by_source(requirements, sources, bound, s[a])
}

/// Whether every externally required identity among the first `bound`
/// sources has a fulfillment.
pub open spec fn all_covered(
    requirements: Seq<FontRequirementSummary>,
    sources: Seq<FontContainerSource>,
    bound: int,
    s: Seq<FontContainerFulfillment>,
) -> bool {
    forall|i: int|
        0 <= i < bound && externally_required(requirements, #[trigger] sources[i].identity@) ==> exists|a: int|
            0 <= a < s.len() && #[trigger] s[a].spec_expected_identity() == sources[i].identity@
}

proof fn lemma_backed_grows(
    requirements: Seq<FontRequirementSummary>,
    sources: Seq<FontContainerSource>,
    bound: int,
    s: Seq<FontContainerFulfillment>,
)
    requires
        all_backed(requirements, sources, bound, s),
    ensures
        all_backed(requirements, sources, bound + 1, s),
{
    assert forall|a: int| 0 <= a < s.len() implies #[trigger] backed_by_source(requirements, sources, bound + 1, s[a]) by {
        assert(backed_by_source(requirements, sources, bound, s[a]));
        let i = choose|i: int|
            0 <= i < bound && #[trigger] first_source_with(sources, i, s[a].spec_expected_identity())
                && sources[i].bytes@ == s[a].spec_container().spec_data();
        assert(0 <= i < bound + 1 && first_source_with(sources, i, s[a].spec_expected_identity()));
    }
}

proof fn lemma_skip_source(
    requirements: Seq<FontRequirementSummary>,
    sources: Seq<FontContainerSource>,
    bound: int,
    s: Seq<FontContainerFulfillment>,
    p: int,
)
    requires
        0 <= bound < sources.len(),
        all_backed(requirements, sources, bound, s),
        all_covered(requirements, sources, bound, s),
        externally_required(requirements, sources[bound].identity@) ==> 0 <= p < s.len()
            && s[p].spec_expected_identity() == sources[bound].identity@,
    ensures
        all_backed(requirements, sources, bound + 1, s),
        all_covered(requirements, sources, bound + 1, s),
{
    lemma_backed_grows(requirements, sources, bound, s);
    assert forall|i: int|
        0 <= i < bound + 1 && externally_required(requirements, #[trigger] sources[i].identity@) implies exists|a: int|
        0 <= a < s.len() && #[trigger] s[a].spec_expected_identity() == sources[i].identity@ by {
        if i == bound {
            assert(s[p].spec_expected_identity() == sources[i].identity@);
        }
    }
}

proof fn lemma_first_of_identity(
    requirements: Seq<FontRequirementSummary>,
    sources: Seq<FontContainerSource>,
    bound: int,
    s: Seq<FontContainerFulfillment>,
    p: int,
)
    requires
        0 <= bound < sources.len(),
        identities_ascending(s),
        all_covered(requirements, sources, bound, s),
        externally_required(requirements, sources[bound].identity@),
        0 <= p <= s.len(),
        forall|q: int| 0 <= q < p ==> text_lt(#[trigger] s[q].spec_expected_identity(), sources[bound].identity@),
        p < s.len() ==> text_lt(sources[bound].identity@, s[p].spec_expected_identity()),
    ensures
        first_source_with(sources, bound, sources[bound].identity@),
{
    let id = sources[bound].identity@;
    assert forall|j: int| 0 <= j < bound implies #[trigger] sources[j].identity@ != id by {
        if sources[j].identity@ == id {
            let a = choose|a: int| 0 <= a < s.len() && #[trigger] s[a].spec_expected_identity() == sources[j].identity@;
            crate::order::lemma_text_lt_irreflexive(id, 0);
            if a > p {
                assert(text_lt(s[p].spec_expected_identity(), s[a].spec_expected_identity()));
                crate::order::lemma_text_lt_transitive(id, s[p].spec_expected_identity(), id, 0);
            }
        }
    }
}

proof fn lemma_insert_fulfillment(
    requirements: Seq<FontRequirementSummary>,
    sources: Seq<FontContainerSource>,
    bound: int,
    s: Seq<FontContainerFulfillment>,
    p: int,
    f: FontContainerFulfillment,
)
    requires
        0 <= bound < sources.len(),
        identities_ascending(s),
        all_backed(requirements, sources, bound, s),
        all_covered(requirements, sources, bound, s),
        externally_required(requirements, sources[bound].identity@),
        first_source_with(sources, bound, sources[bound].identity@),
        f.spec_expected_identity() == sources[bound].identity@,
        f.spec_container().spec_data() == sources[bound].bytes@,
        0 <= p <= s.len(),
        forall|q: int| 0 <= q < p ==> text_lt(#[trigger] s[q].spec_expected_identity(), sources[bound].identity@),
        p < s.len() ==> text_lt(sources[bound].identity@, s[p].spec_expected_identity()),
    ensures
        identities_ascending(s.insert(p, f)),
        all_backed(requirements, sources, bound + 1, s.insert(p, f)),
        all_covered(requirements, sources, bound + 1, s.insert(p, f)),
{
    let t = s.insert(p, f);
    let id = sources[bound].identity@;
    assert forall|a: int, b: int| 0 <= a < b < t.len() implies text_lt(
        t[a].spec_expected_identity(),
        t[b].spec_expected_identity(),
    ) by {
        if b < p {
            assert(t[a] == s[a] && t[b] == s[b]);
        } else if b == p {
            assert(t[a] == s[a]);
        } else if a == p {
            assert(t[b] == s[b - 1]);
            if b - 1 > p {
                assert(text_lt(s[p].spec_expected_identity(), s[b - 1].spec_expected_identity()));
                crate::order::lemma_text_lt_transitive(id, s[p].spec_expected_identity(), s[b - 1].spec_expected_identity(), 0);
            }
        } else if a < p {
            assert(t[a] == s[a] && t[b] == s[b - 1]);
            if b - 1 > a {
                assert(text_lt(s[a].spec_expected_identity(), s[b - 1].spec_expected_identity()));
            }
        } else {
            assert(t[a] == s[a - 1] && t[b] == s[b - 1]);
            assert(text_lt(s[a - 1].spec_expected_identity(), s[b - 1].spec_expected_identity()));
        }
    }
    lemma_backed_grows(requirements, sources, bound, s);
    assert forall|a: int| 0 <= a < t.len() implies #[trigger] backed_by_source(requirements, sources, bound + 1, t[a]) by {
        if a == p {
            assert(first_source_with(sources, bound, t[a].spec_expected_identity()));
        } else if a < p {
            assert(t[a] == s[a]);
            assert(backed_by_source(requirements, sources, bound + 1, s[a]));
        } else {
            assert(t[a] == s[a - 1]);
            assert(backed_by_source(requirements, sources, bound + 1, s[a - 1]));
        }
    }
    assert forall|i: int|
        0 <= i < bound + 1 && externally_required(requirements, #[trigger] sources[i].identity@) implies exists|a: int|
        0 <= a < t.len() && #[trigger] t[a].spec_expected_identity() == sources[i].identity@ by {
        if i == bound {
            assert(t[p].spec_expected_identity() == sources[i].identity@);
        } else {
            let a = choose|a: int| 0 <= a < s.len() && #[trigger] s[a].spec_expected_identity() == sources[i].identity@;
            if a < p {
                assert(t[a] == s[a]);
            } else {
                assert(t[a + 1] == s[a]);
            }
        }
    }
}

/// Resolves a pack's external font requirements from candidate containers.
///
/// Each required container is fulfilled at most once, by the first source
/// with its identity; unrelated and duplicate sources are ignored, and
/// requirements with no matching source stay absent. The fulfillments come
/// in increasing identity order.
pub fn resolve_external_font_requirements(
    requirements: &[FontRequirementSummary],
    sources: &[FontContainerSource],
) -> (r: Vec<FontContainerFulfillment>)
    ensures
        identities_ascending(r@),
        all_backed(requirements@, sources@, sources@.len() as int, r@),
        all_covered(requirements@, sources@, sources@.len() as int, r@),
{
    let ghost input = sources@;
    let mut out: Vec<FontContainerFulfillment> = Vec::new();
    let mut consumed: usize = 0;
    while consumed < sources.len()
        invariant
            0 <= consumed <= input.len(),
            input == sources@,
            identities_ascending(out@),
            all_backed(requirements@, input, consumed as int, out@),
            all_covered(requirements@, input, consumed as int, out@),
        decreases input.len() - consumed,
    {
        let source = &sources[consumed];
        assert(*source == input[consumed as int]);
        let ghost id = source.identity@;
        let required = is_externally_required(requirements, &source.identity);
        let key = crate::text::chars_of(source.identity.as_str());
        let mut p: usize = 0;
        let mut equal = false;
        while p < out.len()
            invariant_except_break
                !equal,
            invariant
                p <= out@.len(),
                key@ == id,
                forall|q: int| 0 <= q < p ==> text_lt(#[trigger] out@[q].spec_expected_identity(), id),
            ensures
                p <= out@.len(),
                forall|q: int| 0 <= q < p ==> text_lt(#[trigger] out@[q].spec_expected_identity(), id),
                equal ==> p < out@.len() && out@[p as int].spec_expected_identity() == id,
                !equal ==> p == out@.len() || text_lt(id, out@[p as int].spec_expected_identity()),
            decreases out@.len() - p,
        {
            let other = crate::text::chars_of(out[p].expected_identity.as_str());
            let c = crate::order::compare_text(other.as_slice(), key.as_slice());
            if c == 0 {
                equal = true;
                break;
            }
            if c > 0 {
                break;
            }
            p = p + 1;
        }
        if required && !equal {
            proof {
                lemma_first_of_identity(requirements@, input, consumed as int, out@, p as int);
            }
            let identity = source.identity.duplicate();
            let container = FontContainer::new(crate::transport::copy_bytes(source.bytes.as_slice()));
            let f = FontContainerFulfillment::new(identity, container);
            proof {
                lemma_insert_fulfillment(requirements@, input, consumed as int, out@, p as int, f);
            }
            out.insert(p, f);
        } else {
            proof {
                lemma_skip_source(requirements@, input, consumed as int, out@, p as int);
            }
        }
        consumed = consumed + 1;
    }
    out
}

/// Resolution fulfills each identity at most once: fulfillments in
/// ascending identity order never share an identity.
pub proof fn lemma_ascending_identities_distinct(s: Seq<FontContainerFulfillment>, a: int, b: int)
    requires
        identities_ascending(s),
        0 <= a < s.len(),
        0 <= b < s.len(),
        a != b,
    ensures
        s[a].spec_expected_identity() != s[b].spec_expected_identity(),
{
    crate::order::lemma_text_lt_irreflexive(s[a].spec_expected_identity(), 0);
    if a < b {
        assert(text_lt(s[a].spec_expected_identity(), s[b].spec_expected_identity()));
    } else {
        assert(text_lt(s[b].spec_expected_identity(), s[a].spec_expected_identity()));
    }
}

} // verus!
