//! The text that inspecting a pack prints: its name and entrypoint, its
//! project files, its vendored and unvendored packages and its embedded
//! fonts. Sizes come already written out, since they are written with a
//! fractional unit.

use vstd::prelude::*;
use vstd::string::StringExecFns;
use crate::artifact_publication::{append_decimal, decimal};

verus! {

/// What an inspection lists of one pack.
pub struct PackListing {
    /// The path the pack was read from.
    pub pack: String,
    pub format_version: u32,
    pub entrypoint: String,
    pub name: Option<String>,
    pub description: Option<String>,
    pub authors: Vec<String>,
    /// Each project file's path and written size.
    pub files: Vec<(String, String)>,
    /// Each vendored package's specification, file count and written size.
    pub vendored: Vec<(String, usize, String)>,
    /// The specifications of the packages that are required but not vendored.
    pub unvendored: Vec<String>,
    /// Each embedded font's container identity, face index, written size and
    /// family.
    pub fonts: Vec<(String, u32, String, String)>,
}

/// A printed line.
pub open spec fn line(t: Seq<char>) -> Seq<char> {
    t + "\n"@
}

/// A labelled line for a value that may be absent.
pub open spec fn optional_line(label: Seq<char>, value: Option<String>) -> Seq<char> {
    match value {
        Some(v) => line(label + v@),
        None => Seq::empty(),
    }
}

/// The texts joined by `, `.
pub open spec fn comma_joined(items: Seq<String>) -> Seq<char>
    decreases items.len(),
{
    if items.len() == 0 {
        Seq::empty()
    } else if items.len() == 1 {
        items[0]@
    } else {
        comma_joined(items.drop_last()) + ", "@ + items.last()@
    }
}

pub open spec fn file_line(f: (String, String)) -> Seq<char> {
    line("  "@ + f.0@ + " ("@ + f.1@ + ")"@)
}

pub open spec fn vendored_line(v: (String, usize, String)) -> Seq<char> {
    line("  "@ + v.0@ + " ("@ + decimal(v.1 as nat) + " files, "@ + v.2@ + ")"@)
}

pub open spec fn unvendored_line(spec: String) -> Seq<char> {
    line("  "@ + spec@)
}

pub open spec fn font_line(f: (String, u32, String, String)) -> Seq<char> {
    line("  "@ + f.0@ + " face "@ + decimal(f.1 as nat) + " ("@ + f.2@ + ") - "@ + f.3@)
}

pub open spec fn file_lines(s: Seq<(String, String)>) -> Seq<char>
    decreases s.len(),
{
    if s.len() == 0 {
        Seq::empty()
    } else {
        file_lines(s.drop_last()) + file_line(s.last())
    }
}

pub open spec fn vendored_lines(s: Seq<(String, usize, String)>) -> Seq<char>
    decreases s.len(),
{
    if s.len() == 0 {
        Seq::empty()
    } else {
        vendored_lines(s.drop_last()) + vendored_line(s.last())
    }
}

pub open spec fn unvendored_lines(s: Seq<String>) -> Seq<char>
    decreases s.len(),
{
    if s.len() == 0 {
        Seq::empty()
    } else {
        unvendored_lines(s.drop_last()) + unvendored_line(s.last())
    }
}

pub open spec fn font_lines(s: Seq<(String, u32, String, String)>) -> Seq<char>
    decreases s.len(),
{
    if s.len() == 0 {
        Seq::empty()
    } else {
        font_lines(s.drop_last()) + font_line(s.last())
    }
}

/// A titled section after a blank line, or nothing when it would be empty.
pub open spec fn section(title: Seq<char>, body: Seq<char>, present: bool) -> Seq<char> {
    if present {
        "\n"@ + line(title) + body
    } else {
        Seq::empty()
    }
}

/// The head of an inspection: the pack, its format version and
/// entrypoint, and the metadata it has.
pub open spec fn listing_head(l: PackListing) -> Seq<char> {
    line("pack: "@ + l.pack@) + line("format version: "@ + decimal(l.format_version as nat)) + line(
        "entrypoint: "@ + l.entrypoint@,
    ) + optional_line("name: "@, l.name) + optional_line("description: "@, l.description) + authors_line(l.authors@)
}

/// The authors' line, when there are authors.
pub open spec fn authors_line(authors: Seq<String>) -> Seq<char> {
    if authors.len() > 0 {
        line("authors: "@ + comma_joined(authors))
    } else {
        Seq::empty()
    }
}

/// The package and font sections of an inspection.
pub open spec fn listing_sections(l: PackListing) -> Seq<char> {
    section("vendored packages:"@, vendored_lines(l.vendored@), l.vendored@.len() > 0) + section(
        "unvendored packages:"@,
        unvendored_lines(l.unvendored@),
        l.unvendored@.len() > 0,
    ) + section("embedded fonts:"@, font_lines(l.fonts@), l.fonts@.len() > 0)
}

/// The text of an inspection.
pub open spec fn listing_text(l: PackListing) -> Seq<char> {
    listing_head(l) + "\n"@ + line("packed project files:"@) + file_lines(l.files@) + listing_sections(l)
}

fn append_comma_joined(out: &mut String, items: &Vec<String>)
    ensures
        final(out)@ == old(out)@ + comma_joined(items@),
{
    let ghost start = out@;
    let mut i: usize = 0;
    proof {
        assert(items@.subrange(0, 0) =~= Seq::<String>::empty());
        assert(out@ =~= start + comma_joined(items@.subrange(0, 0)));
    }
    while i < items.len()
        invariant
            i <= items@.len(),
            out@ == start + comma_joined(items@.subrange(0, i as int)),
        decreases items.len() - i,
    {
        proof {
            assert(items@.subrange(0, i + 1).drop_last() =~= items@.subrange(0, i as int));
        }
        if i > 0 {
            out.append(", ");
        }
        out.append(items[i].as_str());
        proof {
            if i == 0 {
                assert(items@.subrange(0, 1)[0] == items@[0]);
            }
        }
        i = i + 1;
    }
    proof {
        assert(items@.subrange(0, items@.len() as int) =~= items@);
    }
}

fn append_file_lines(out: &mut String, s: &Vec<(String, String)>)
    ensures
        final(out)@ == old(out)@ + file_lines(s@),
{
    let ghost start = out@;
    let mut i: usize = 0;
    proof {
        assert(s@.subrange(0, 0) =~= Seq::<(String, String)>::empty());
        assert(out@ =~= start + file_lines(s@.subrange(0, 0)));
    }
    while i < s.len()
        invariant
            i <= s@.len(),
            out@ == start + file_lines(s@.subrange(0, i as int)),
        decreases s.len() - i,
    {
        proof {
            assert(s@.subrange(0, i + 1).drop_last() =~= s@.subrange(0, i as int));
        }
        let ghost before = out@;
        out.append("  ");
        out.append(s[i].0.as_str());
        out.append(" (");
        out.append(s[i].1.as_str());
        out.append(")");
        out.append("\n");
        proof {
            assert(out@ =~= before + file_line(s@[i as int]));
        }
        i = i + 1;
    }
    proof {
        assert(s@.subrange(0, s@.len() as int) =~= s@);
    }
}

fn append_vendored_lines(out: &mut String, s: &Vec<(String, usize, String)>)
    ensures
        final(out)@ == old(out)@ + vendored_lines(s@),
{
    let ghost start = out@;
    let mut i: usize = 0;
    proof {
        assert(s@.subrange(0, 0) =~= Seq::<(String, usize, String)>::empty());
        assert(out@ =~= start + vendored_lines(s@.subrange(0, 0)));
    }
    while i < s.len()
        invariant
            i <= s@.len(),
            out@ == start + vendored_lines(s@.subrange(0, i as int)),
        decreases s.len() - i,
    {
        proof {
            assert(s@.subrange(0, i + 1).drop_last() =~= s@.subrange(0, i as int));
        }
        let ghost before = out@;
        out.append("  ");
        out.append(s[i].0.as_str());
        out.append(" (");
        append_decimal(out, s[i].1);
        out.append(" files, ");
        out.append(s[i].2.as_str());
        out.append(")");
        out.append("\n");
        proof {
            assert(out@ =~= before + vendored_line(s@[i as int]));
        }
        i = i + 1;
    }
    proof {
        assert(s@.subrange(0, s@.len() as int) =~= s@);
    }
}

fn append_unvendored_lines(out: &mut String, s: &Vec<String>)
    ensures
        final(out)@ == old(out)@ + unvendored_lines(s@),
{
    let ghost start = out@;
    let mut i: usize = 0;
    proof {
        assert(s@.subrange(0, 0) =~= Seq::<String>::empty());
        assert(out@ =~= start + unvendored_lines(s@.subrange(0, 0)));
    }
    while i < s.len()
        invariant
            i <= s@.len(),
            out@ == start + unvendored_lines(s@.subrange(0, i as int)),
        decreases s.len() - i,
    {
        proof {
            assert(s@.subrange(0, i + 1).drop_last() =~= s@.subrange(0, i as int));
        }
        let ghost before = out@;
        out.append("  ");
        out.append(s[i].as_str());
        out.append("\n");
        proof {
            assert(out@ =~= before + unvendored_line(s@[i as int]));
        }
        i = i + 1;
    }
    proof {
        assert(s@.subrange(0, s@.len() as int) =~= s@);
    }
}

fn append_font_lines(out: &mut String, s: &Vec<(String, u32, String, String)>)
    ensures
        final(out)@ == old(out)@ + font_lines(s@),
{
    let ghost start = out@;
    let mut i: usize = 0;
    proof {
        assert(s@.subrange(0, 0) =~= Seq::<(String, u32, String, String)>::empty());
        assert(out@ =~= start + font_lines(s@.subrange(0, 0)));
    }
    while i < s.len()
        invariant
            i <= s@.len(),
            out@ == start + font_lines(s@.subrange(0, i as int)),
        decreases s.len() - i,
    {
        proof {
            assert(s@.subrange(0, i + 1).drop_last() =~= s@.subrange(0, i as int));
        }
        let ghost before = out@;
        out.append("  ");
        out.append(s[i].0.as_str());
        out.append(" face ");
        append_decimal(out, s[i].1 as usize);
        out.append(" (");
        out.append(s[i].2.as_str());
        out.append(") - ");
        out.append(s[i].3.as_str());
        out.append("\n");
        proof {
            assert(out@ =~= before + font_line(s@[i as int]));
        }
        i = i + 1;
    }
    proof {
        assert(s@.subrange(0, s@.len() as int) =~= s@);
    }
}

fn append_optional_line(out: &mut String, label: &str, value: &Option<String>)
    ensures
        final(out)@ == old(out)@ + optional_line(label@, *value),
{
    match value {
        Some(v) => {
            out.append(label);
            out.append(v.as_str());
            out.append("\n");
        },
        None => {
            proof {
                assert(out@ =~= out@ + Seq::<char>::empty());
            }
        },
    }
}

fn append_head(out: &mut String, l: &PackListing)
    ensures
        final(out)@ == old(out)@ + listing_head(*l),
{
    let ghost start = out@;
    out.append("pack: ");
    out.append(l.pack.as_str());
    out.append("\n");
    out.append("format version: ");
    append_decimal(out, l.format_version as usize);
    out.append("\n");
    out.append("entrypoint: ");
    out.append(l.entrypoint.as_str());
    out.append("\n");
    let ghost fixed = out@;
    proof {
        assert(fixed =~= start + line("pack: "@ + l.pack@) + line("format version: "@ + decimal(l.format_version as nat))
            + line("entrypoint: "@ + l.entrypoint@));
    }
    append_optional_line(out, "name: ", &l.name);
    append_optional_line(out, "description: ", &l.description);
    let ghost before_authors = out@;
    if l.authors.len() > 0 {
        out.append("authors: ");
        append_comma_joined(out, &l.authors);
        out.append("\n");
    }
    proof {
        assert(out@ =~= before_authors + authors_line(l.authors@));
        assert(out@ =~= start + listing_head(*l));
    }
}

fn append_vendored_section(out: &mut String, l: &PackListing)
    ensures
        final(out)@ == old(out)@ + section("vendored packages:"@, vendored_lines(l.vendored@), l.vendored@.len() > 0),
{
    let ghost start = out@;
    if l.vendored.len() > 0 {
        out.append("\n");
        out.append("vendored packages:");
        out.append("\n");
        append_vendored_lines(out, &l.vendored);
        proof {
            assert(out@ =~= start + ("\n"@ + line("vendored packages:"@) + vendored_lines(l.vendored@)));
        }
    } else {
        proof {
            assert(out@ =~= start + Seq::<char>::empty());
        }
    }
}

fn append_unvendored_section(out: &mut String, l: &PackListing)
    ensures
        final(out)@ == old(out)@ + section(
            "unvendored packages:"@,
            unvendored_lines(l.unvendored@),
            l.unvendored@.len() > 0,
        ),
{
    let ghost start = out@;
    if l.unvendored.len() > 0 {
        out.append("\n");
        out.append("unvendored packages:");
        out.append("\n");
        append_unvendored_lines(out, &l.unvendored);
        proof {
            assert(out@ =~= start + ("\n"@ + line("unvendored packages:"@) + unvendored_lines(l.unvendored@)));
        }
    } else {
        proof {
            assert(out@ =~= start + Seq::<char>::empty());
        }
    }
}

fn append_font_section(out: &mut String, l: &PackListing)
    ensures
        final(out)@ == old(out)@ + section("embedded fonts:"@, font_lines(l.fonts@), l.fonts@.len() > 0),
{
    let ghost start = out@;
    if l.fonts.len() > 0 {
        out.append("\n");
        out.append("embedded fonts:");
        out.append("\n");
        append_font_lines(out, &l.fonts);
        proof {
            assert(out@ =~= start + ("\n"@ + line("embedded fonts:"@) + font_lines(l.fonts@)));
        }
    } else {
        proof {
            assert(out@ =~= start + Seq::<char>::empty());
        }
    }
}

fn append_sections(out: &mut String, l: &PackListing)
    ensures
        final(out)@ == old(out)@ + listing_sections(*l),
{
    let ghost start = out@;
    append_vendored_section(out, l);
    append_unvendored_section(out, l);
    append_font_section(out, l);
    proof {
        assert(out@ =~= start + listing_sections(*l));
    }
}

/// Writes the text of an inspection; see `listing_text`.
pub fn listing(l: &PackListing) -> (r: String)
    ensures
        r@ == listing_text(*l),
{
    let mut out = String::new();
    append_head(&mut out, l);
    let ghost head = out@;
    out.append("\n");
    out.append("packed project files:");
    out.append("\n");
    append_file_lines(&mut out, &l.files);
    append_sections(&mut out, l);
    proof {
        assert(head =~= listing_head(*l));
        assert(out@ =~= listing_text(*l));
    }
    out
}

/// Whether `pat` occurs in `s` at position `i`.
pub open spec fn holds_at(s: Seq<char>, pat: Seq<char>, i: int) -> bool {
    0 <= i && i + pat.len() <= s.len() && s.subrange(i, i + pat.len()) == pat
}

proof fn lemma_holds_in_middle(a: Seq<char>, b: Seq<char>, c: Seq<char>)
    ensures
        holds_at(a + b + c, b, a.len() as int),
{
    assert((a + b + c).subrange(a.len() as int, (a.len() + b.len()) as int) =~= b);
}

proof fn lemma_listing_parts(l: PackListing)
    ensures
        listing_text(l) == line("pack: "@ + l.pack@) + line("format version: "@ + decimal(l.format_version as nat))
            + line("entrypoint: "@ + l.entrypoint@) + optional_line("name: "@, l.name) + optional_line(
            "description: "@,
            l.description,
        ) + authors_line(l.authors@) + listing_rest(l),
{
    assert(listing_text(l) =~= line("pack: "@ + l.pack@) + line("format version: "@ + decimal(l.format_version as nat))
        + line("entrypoint: "@ + l.entrypoint@) + optional_line("name: "@, l.name) + optional_line(
        "description: "@,
        l.description,
    ) + authors_line(l.authors@) + listing_rest(l));
}

/// What follows the head of an inspection.
pub open spec fn listing_rest(l: PackListing) -> Seq<char> {
    "\n"@ + line("packed project files:"@) + file_lines(l.files@) + listing_sections(l)
}

proof fn lemma_six_parts(p: Seq<char>, v: Seq<char>, e: Seq<char>, n: Seq<char>, d: Seq<char>, a: Seq<char>, r: Seq<char>)
    ensures
        holds_at(p + v + e + n + d + a + r, p, 0),
        holds_at(p + v + e + n + d + a + r, v, p.len() as int),
        holds_at(p + v + e + n + d + a + r, e, (p + v).len() as int),
        holds_at(p + v + e + n + d + a + r, n, (p + v + e).len() as int),
        holds_at(p + v + e + n + d + a + r, d, (p + v + e + n).len() as int),
        holds_at(p + v + e + n + d + a + r, a, (p + v + e + n + d).len() as int),
{
    let t = p + v + e + n + d + a + r;
    assert(t.subrange(0, p.len() as int) =~= p);
    assert(t.subrange(p.len() as int, (p.len() + v.len()) as int) =~= v);
    assert(t.subrange((p + v).len() as int, ((p + v).len() + e.len()) as int) =~= e);
    assert(t.subrange((p + v + e).len() as int, ((p + v + e).len() + n.len()) as int) =~= n);
    assert(t.subrange((p + v + e + n).len() as int, ((p + v + e + n).len() + d.len()) as int) =~= d);
    assert(t.subrange((p + v + e + n + d).len() as int, ((p + v + e + n + d).len() + a.len()) as int) =~= a);
}

/// An inspection starts with the pack's line, its format version's line and
/// its entrypoint's line, in that order, and holds the line of each piece of
/// metadata that the pack has, each on its own: `name: <n>` when it has a
/// name, `description: <d>` when it has a description, whether or not it
/// has the other, and `authors: ...` when it has authors.
pub proof fn lemma_listing_shows_metadata(l: PackListing)
    ensures
        holds_at(listing_text(l), "pack: "@ + l.pack@ + "\n"@, 0),
        holds_at(
            listing_text(l),
            "format version: "@ + decimal(l.format_version as nat) + "\n"@,
            ("pack: "@ + l.pack@ + "\n"@).len() as int,
        ),
        holds_at(
            listing_text(l),
            "entrypoint: "@ + l.entrypoint@ + "\n"@,
            ("pack: "@ + l.pack@ + "\n"@ + "format version: "@ + decimal(l.format_version as nat) + "\n"@).len() as int,
        ),
        l.name matches Some(n) ==> exists|i: int| holds_at(listing_text(l), "name: "@ + n@ + "\n"@, i),
        l.description matches Some(d) ==> exists|i: int| holds_at(listing_text(l), "description: "@ + d@ + "\n"@, i),
        l.authors@.len() > 0 ==> exists|i: int|
            holds_at(listing_text(l), "authors: "@ + comma_joined(l.authors@) + "\n"@, i),
{
    let p = line("pack: "@ + l.pack@);
    let v = line("format version: "@ + decimal(l.format_version as nat));
    let e = line("entrypoint: "@ + l.entrypoint@);
    let nm = optional_line("name: "@, l.name);
    let ds = optional_line("description: "@, l.description);
    let au = authors_line(l.authors@);
    lemma_listing_parts(l);
    lemma_six_parts(p, v, e, nm, ds, au, listing_rest(l));
    let t = listing_text(l);
    assert(p =~= "pack: "@ + l.pack@ + "\n"@);
    assert(v =~= "format version: "@ + decimal(l.format_version as nat) + "\n"@);
    assert(e =~= "entrypoint: "@ + l.entrypoint@ + "\n"@);
    if let Some(n) = l.name {
        assert(nm =~= "name: "@ + n@ + "\n"@);
        assert(holds_at(t, "name: "@ + n@ + "\n"@, (p + v + e).len() as int));
    }
    if let Some(d) = l.description {
        assert(ds =~= "description: "@ + d@ + "\n"@);
        assert(holds_at(t, "description: "@ + d@ + "\n"@, (p + v + e + nm).len() as int));
    }
    if l.authors@.len() > 0 {
        assert(au =~= "authors: "@ + comma_joined(l.authors@) + "\n"@);
        assert(holds_at(t, "authors: "@ + comma_joined(l.authors@) + "\n"@, (p + v + e + nm + ds).len() as int));
    }
}

proof fn lemma_holds_before(s: Seq<char>, t: Seq<char>, pat: Seq<char>, i: int)
    requires
        holds_at(s, pat, i),
    ensures
        holds_at(s + t, pat, i),
{
    assert((s + t).subrange(i, i + pat.len()) =~= s.subrange(i, i + pat.len()));
}

proof fn lemma_holds_after(s: Seq<char>, t: Seq<char>, pat: Seq<char>, i: int)
    requires
        holds_at(t, pat, i),
    ensures
        holds_at(s + t, pat, s.len() + i),
{
    assert((s + t).subrange(s.len() + i, s.len() + i + pat.len()) =~= t.subrange(i, i + pat.len()));
}

proof fn lemma_file_line_held(s: Seq<(String, String)>, k: int) -> (i: int)
    requires
        0 <= k < s.len(),
    ensures
        holds_at(file_lines(s), "  "@ + s[k].0@ + " ("@ + s[k].1@ + ")"@ + "\n"@, i),
    decreases s.len(),
{
    let pat = "  "@ + s[k].0@ + " ("@ + s[k].1@ + ")"@ + "\n"@;
    assert(file_lines(s) == file_lines(s.drop_last()) + file_line(s.last()));
    if k == s.len() - 1 {
        assert(file_line(s.last()) =~= pat);
        assert(holds_at(file_line(s.last()), pat, 0)) by {
            assert(file_line(s.last()).subrange(0, pat.len() as int) =~= pat);
        }
        lemma_holds_after(file_lines(s.drop_last()), file_line(s.last()), pat, 0);
        file_lines(s.drop_last()).len() as int
    } else {
        assert(s.drop_last()[k] == s[k]);
        let j = lemma_file_line_held(s.drop_last(), k);
        lemma_holds_before(file_lines(s.drop_last()), file_line(s.last()), pat, j);
        j
    }
}

proof fn lemma_vendored_line_held(s: Seq<(String, usize, String)>, k: int) -> (i: int)
    requires
        0 <= k < s.len(),
    ensures
        holds_at(
            vendored_lines(s),
            "  "@ + s[k].0@ + " ("@ + decimal(s[k].1 as nat) + " files, "@ + s[k].2@ + ")"@ + "\n"@,
            i,
        ),
    decreases s.len(),
{
    let pat = "  "@ + s[k].0@ + " ("@ + decimal(s[k].1 as nat) + " files, "@ + s[k].2@ + ")"@ + "\n"@;
    assert(vendored_lines(s) == vendored_lines(s.drop_last()) + vendored_line(s.last()));
    if k == s.len() - 1 {
        assert(vendored_line(s.last()) =~= pat);
        assert(holds_at(vendored_line(s.last()), pat, 0)) by {
            assert(vendored_line(s.last()).subrange(0, pat.len() as int) =~= pat);
        }
        lemma_holds_after(vendored_lines(s.drop_last()), vendored_line(s.last()), pat, 0);
        vendored_lines(s.drop_last()).len() as int
    } else {
        assert(s.drop_last()[k] == s[k]);
        let j = lemma_vendored_line_held(s.drop_last(), k);
        lemma_holds_before(vendored_lines(s.drop_last()), vendored_line(s.last()), pat, j);
        j
    }
}

proof fn lemma_unvendored_line_held(s: Seq<String>, k: int) -> (i: int)
    requires
        0 <= k < s.len(),
    ensures
        holds_at(unvendored_lines(s), "  "@ + s[k]@ + "\n"@, i),
    decreases s.len(),
{
    let pat = "  "@ + s[k]@ + "\n"@;
    assert(unvendored_lines(s) == unvendored_lines(s.drop_last()) + unvendored_line(s.last()));
    if k == s.len() - 1 {
        assert(unvendored_line(s.last()) =~= pat);
        assert(holds_at(unvendored_line(s.last()), pat, 0)) by {
            assert(unvendored_line(s.last()).subrange(0, pat.len() as int) =~= pat);
        }
        lemma_holds_after(unvendored_lines(s.drop_last()), unvendored_line(s.last()), pat, 0);
        unvendored_lines(s.drop_last()).len() as int
    } else {
        assert(s.drop_last()[k] == s[k]);
        let j = lemma_unvendored_line_held(s.drop_last(), k);
        lemma_holds_before(unvendored_lines(s.drop_last()), unvendored_line(s.last()), pat, j);
        j
    }
}

proof fn lemma_font_line_held(s: Seq<(String, u32, String, String)>, k: int) -> (i: int)
    requires
        0 <= k < s.len(),
    ensures
        holds_at(
            font_lines(s),
            "  "@ + s[k].0@ + " face "@ + decimal(s[k].1 as nat) + " ("@ + s[k].2@ + ") - "@ + s[k].3@ + "\n"@,
            i,
        ),
    decreases s.len(),
{
    let pat = "  "@ + s[k].0@ + " face "@ + decimal(s[k].1 as nat) + " ("@ + s[k].2@ + ") - "@ + s[k].3@ + "\n"@;
    assert(font_lines(s) == font_lines(s.drop_last()) + font_line(s.last()));
    if k == s.len() - 1 {
        assert(font_line(s.last()) =~= pat);
        assert(holds_at(font_line(s.last()), pat, 0)) by {
            assert(font_line(s.last()).subrange(0, pat.len() as int) =~= pat);
        }
        lemma_holds_after(font_lines(s.drop_last()), font_line(s.last()), pat, 0);
        font_lines(s.drop_last()).len() as int
    } else {
        assert(s.drop_last()[k] == s[k]);
        let j = lemma_font_line_held(s.drop_last(), k);
        lemma_holds_before(font_lines(s.drop_last()), font_line(s.last()), pat, j);
        j
    }
}

proof fn lemma_listing_body(l: PackListing)
    ensures
        listing_text(l) == (listing_head(l) + "\n"@ + line("packed project files:"@)) + file_lines(l.files@) + (
        section("vendored packages:"@, vendored_lines(l.vendored@), l.vendored@.len() > 0) + section(
            "unvendored packages:"@,
            unvendored_lines(l.unvendored@),
            l.unvendored@.len() > 0,
        ) + section("embedded fonts:"@, font_lines(l.fonts@), l.fonts@.len() > 0)),
{
    assert(listing_text(l) =~= (listing_head(l) + "\n"@ + line("packed project files:"@)) + file_lines(l.files@) + (
    section("vendored packages:"@, vendored_lines(l.vendored@), l.vendored@.len() > 0) + section(
        "unvendored packages:"@,
        unvendored_lines(l.unvendored@),
        l.unvendored@.len() > 0,
    ) + section("embedded fonts:"@, font_lines(l.fonts@), l.fonts@.len() > 0)));
}

proof fn lemma_file_shown(l: PackListing, k: int) -> (i: int)
    requires
        0 <= k < l.files@.len(),
    ensures
        holds_at(listing_text(l), "  "@ + l.files@[k].0@ + " ("@ + l.files@[k].1@ + ")"@ + "\n"@, i),
{
    lemma_listing_body(l);
    let head = listing_head(l) + "\n"@ + line("packed project files:"@);
    let files = file_lines(l.files@);
    let rest = listing_sections(l);
    let t = listing_text(l);
    assert(t =~= (head + files) + rest);
    let pat = "  "@ + l.files@[k].0@ + " ("@ + l.files@[k].1@ + ")"@ + "\n"@;
    let j = lemma_file_line_held(l.files@, k);
    lemma_holds_after(head, files, pat, j);
    lemma_holds_before(head + files, rest, pat, head.len() + j);
    head.len() + j
}

proof fn lemma_vendored_shown(l: PackListing, k: int) -> (i: int)
    requires
        0 <= k < l.vendored@.len(),
    ensures
        holds_at(
            listing_text(l),
            "  "@ + l.vendored@[k].0@ + " ("@ + decimal(l.vendored@[k].1 as nat) + " files, "@ + l.vendored@[k].2@
                + ")"@ + "\n"@,
            i,
        ),
{
    lemma_listing_body(l);
    let head = listing_head(l) + "\n"@ + line("packed project files:"@);
    let files = file_lines(l.files@);
    let sv = section("vendored packages:"@, vendored_lines(l.vendored@), l.vendored@.len() > 0);
    let su = section("unvendored packages:"@, unvendored_lines(l.unvendored@), l.unvendored@.len() > 0);
    let sf = section("embedded fonts:"@, font_lines(l.fonts@), l.fonts@.len() > 0);
    let t = listing_text(l);
    assert(t =~= (head + files) + (sv + (su + sf)));
    let pat = "  "@ + l.vendored@[k].0@ + " ("@ + decimal(l.vendored@[k].1 as nat) + " files, "@
        + l.vendored@[k].2@ + ")"@ + "\n"@;
    let j = lemma_vendored_line_held(l.vendored@, k);
    let pre = "\n"@ + line("vendored packages:"@);
    assert(sv == pre + vendored_lines(l.vendored@));
    lemma_holds_after(pre, vendored_lines(l.vendored@), pat, j);
    lemma_holds_before(sv, su + sf, pat, pre.len() + j);
    lemma_holds_after(head + files, sv + (su + sf), pat, pre.len() + j);
    (head + files).len() + pre.len() + j
}

proof fn lemma_unvendored_shown(l: PackListing, k: int) -> (i: int)
    requires
        0 <= k < l.unvendored@.len(),
    ensures
        holds_at(listing_text(l), "  "@ + l.unvendored@[k]@ + "\n"@, i),
{
    lemma_listing_body(l);
    let head = listing_head(l) + "\n"@ + line("packed project files:"@);
    let files = file_lines(l.files@);
    let sv = section("vendored packages:"@, vendored_lines(l.vendored@), l.vendored@.len() > 0);
    let su = section("unvendored packages:"@, unvendored_lines(l.unvendored@), l.unvendored@.len() > 0);
    let sf = section("embedded fonts:"@, font_lines(l.fonts@), l.fonts@.len() > 0);
    let t = listing_text(l);
    assert(t =~= (head + files + sv) + (su + sf));
    let pat = "  "@ + l.unvendored@[k]@ + "\n"@;
    let j = lemma_unvendored_line_held(l.unvendored@, k);
    let pre = "\n"@ + line("unvendored packages:"@);
    assert(su == pre + unvendored_lines(l.unvendored@));
    lemma_holds_after(pre, unvendored_lines(l.unvendored@), pat, j);
    lemma_holds_before(su, sf, pat, pre.len() + j);
    lemma_holds_after(head + files + sv, su + sf, pat, pre.len() + j);
    (head + files + sv).len() + pre.len() + j
}

proof fn lemma_font_shown(l: PackListing, k: int) -> (i: int)
    requires
        0 <= k < l.fonts@.len(),
    ensures
        holds_at(
            listing_text(l),
            "  "@ + l.fonts@[k].0@ + " face "@ + decimal(l.fonts@[k].1 as nat) + " ("@ + l.fonts@[k].2@ + ") - "@
                + l.fonts@[k].3@ + "\n"@,
            i,
        ),
{
    lemma_listing_body(l);
    let head = listing_head(l) + "\n"@ + line("packed project files:"@);
    let files = file_lines(l.files@);
    let sv = section("vendored packages:"@, vendored_lines(l.vendored@), l.vendored@.len() > 0);
    let su = section("unvendored packages:"@, unvendored_lines(l.unvendored@), l.unvendored@.len() > 0);
    let sf = section("embedded fonts:"@, font_lines(l.fonts@), l.fonts@.len() > 0);
    let t = listing_text(l);
    assert(t =~= (head + files + sv + su) + sf);
    let pat = "  "@ + l.fonts@[k].0@ + " face "@ + decimal(l.fonts@[k].1 as nat) + " ("@ + l.fonts@[k].2@
        + ") - "@ + l.fonts@[k].3@ + "\n"@;
    let j = lemma_font_line_held(l.fonts@, k);
    let pre = "\n"@ + line("embedded fonts:"@);
    assert(sf == pre + font_lines(l.fonts@));
    lemma_holds_after(pre, font_lines(l.fonts@), pat, j);
    lemma_holds_after(head + files + sv + su, sf, pat, pre.len() + j);
    (head + files + sv + su).len() + pre.len() + j
}

/// Whether `text` stands in `t` as a whole line of its own making: `text`
/// followed by a line break, somewhere in `t`.
pub open spec fn shows_line(t: Seq<char>, text: Seq<char>) -> bool {
    exists|i: int| holds_at(t, text + "\n"@, i)
}

/// An inspection lists every project file as `  <path> (<size>)`, every
/// vendored package as `  <spec> (<count> files, <size>)`, every
/// unvendored package as `  <spec>` and every embedded font as
/// `  <identity> face <index> (<size>) - <family>`, each on its own line.
pub proof fn lemma_listing_shows_every_entry(l: PackListing)
    ensures
        forall|k: int|
            0 <= k < l.files@.len() ==> shows_line(
                listing_text(l),
                "  "@ + (#[trigger] l.files@[k]).0@ + " ("@ + l.files@[k].1@ + ")"@,
            ),
        forall|k: int|
            0 <= k < l.vendored@.len() ==> shows_line(
                listing_text(l),
                "  "@ + (#[trigger] l.vendored@[k]).0@ + " ("@ + decimal(l.vendored@[k].1 as nat) + " files, "@
                    + l.vendored@[k].2@ + ")"@,
            ),
        forall|k: int|
            0 <= k < l.unvendored@.len() ==> shows_line(listing_text(l), "  "@ + (#[trigger] l.unvendored@[k])@),
        forall|k: int|
            0 <= k < l.fonts@.len() ==> shows_line(
                listing_text(l),
                "  "@ + (#[trigger] l.fonts@[k]).0@ + " face "@ + decimal(l.fonts@[k].1 as nat) + " ("@
                    + l.fonts@[k].2@ + ") - "@ + l.fonts@[k].3@,
            ),
{
    assert forall|k: int| 0 <= k < l.files@.len() implies shows_line(
        listing_text(l),
        "  "@ + (#[trigger] l.files@[k]).0@ + " ("@ + l.files@[k].1@ + ")"@,
    ) by {
        let text = "  "@ + l.files@[k].0@ + " ("@ + l.files@[k].1@ + ")"@;
        let i = lemma_file_shown(l, k);
        assert(text + "\n"@ =~= "  "@ + l.files@[k].0@ + " ("@ + l.files@[k].1@ + ")"@ + "\n"@);
        assert(holds_at(listing_text(l), text + "\n"@, i));
    }
    assert forall|k: int| 0 <= k < l.vendored@.len() implies shows_line(
        listing_text(l),
        "  "@ + (#[trigger] l.vendored@[k]).0@ + " ("@ + decimal(l.vendored@[k].1 as nat) + " files, "@
            + l.vendored@[k].2@ + ")"@,
    ) by {
        let text = "  "@ + l.vendored@[k].0@ + " ("@ + decimal(l.vendored@[k].1 as nat) + " files, "@
            + l.vendored@[k].2@ + ")"@;
        let i = lemma_vendored_shown(l, k);
        assert(holds_at(listing_text(l), text + "\n"@, i));
    }
    assert forall|k: int| 0 <= k < l.unvendored@.len() implies shows_line(
        listing_text(l),
        "  "@ + (#[trigger] l.unvendored@[k])@,
    ) by {
        let text = "  "@ + l.unvendored@[k]@;
        let i = lemma_unvendored_shown(l, k);
        assert(holds_at(listing_text(l), text + "\n"@, i));
    }
    assert forall|k: int| 0 <= k < l.fonts@.len() implies shows_line(
        listing_text(l),
        "  "@ + (#[trigger] l.fonts@[k]).0@ + " face "@ + decimal(l.fonts@[k].1 as nat) + " ("@ + l.fonts@[k].2@
            + ") - "@ + l.fonts@[k].3@,
    ) by {
        let text = "  "@ + l.fonts@[k].0@ + " face "@ + decimal(l.fonts@[k].1 as nat) + " ("@ + l.fonts@[k].2@
            + ") - "@ + l.fonts@[k].3@;
        let i = lemma_font_shown(l, k);
        assert(holds_at(listing_text(l), text + "\n"@, i));
    }
}

} // verus!
