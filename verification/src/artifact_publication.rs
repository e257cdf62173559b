//! Destination-independent planning of how compilation output artifacts are
//! named: one name per artifact, fixed for document formats and numbered by
//! source page, zero-padded to the width of the page count, for page formats.

use vstd::prelude::*;
use vstd::string::StringExecFns;
use crate::{CanonicalIdentity, NonZeroUsize};
use crate::order::{text_lt, text_lt_from};
use crate::publication::{debug_form, debug_quoted};
use crate::extract::{error_list, format_error_list};

verus! {

/// The document formats and page formats a pack can be compiled to.
#[derive(Clone, Copy, Debug, PartialEq, Eq, Structural)]
pub enum OutputFormat {
    Pdf,
    Png,
    Svg,
    Html,
}

impl OutputFormat {
    pub open spec fn spec_extension(self) -> Seq<char> {
        match self {
            OutputFormat::Pdf => seq!['p', 'd', 'f'],
            OutputFormat::Png => seq!['p', 'n', 'g'],
            OutputFormat::Svg => seq!['s', 'v', 'g'],
            OutputFormat::Html => seq!['h', 't', 'm', 'l'],
        }
    }

    /// Whether artifacts of this format are one per source page.
    pub open spec fn is_page_format(self) -> bool {
        self is Png || self is Svg
    }

    /// The conventional file extension for this format.
    pub fn extension(self) -> (r: &'static str)
        ensures
            r@ == self.spec_extension(),
    {
        proof {
            reveal_strlit("pdf");
            reveal_strlit("png");
            reveal_strlit("svg");
            reveal_strlit("html");
        }
        match self {
            OutputFormat::Pdf => "pdf",
            OutputFormat::Png => "png",
            OutputFormat::Svg => "svg",
            OutputFormat::Html => "html",
        }
    }
}

/// Whether the compiler and exporter accepted the compilation.
#[derive(Clone, Copy, Debug, PartialEq, Eq, Structural)]
pub enum CompilationStatus {
    Succeeded,
    Rejected,
}

/// One produced artifact: its format, its bytes and, for a page format, the
/// one-based source page it renders.
#[derive(Clone, Debug)]
pub struct CompilationArtifact {
    pub format: OutputFormat,
    pub bytes: Vec<u8>,
    pub source_page_number: Option<NonZeroUsize>,
}

/// What artifact publication planning reads of a compilation result.
#[derive(Clone, Debug)]
pub struct PublishableCompilationResult {
    pub status: CompilationStatus,
    pub source_page_count: Option<usize>,
    pub artifacts: Vec<CompilationArtifact>,
    pub result_identity: CanonicalIdentity,
}

/// The character of one decimal digit.
pub open spec fn digit_char(d: int) -> char {
    if d == 0 {
        '0'
    } else if d == 1 {
        '1'
    } else if d == 2 {
        '2'
    } else if d == 3 {
        '3'
    } else if d == 4 {
        '4'
    } else if d == 5 {
        '5'
    } else if d == 6 {
        '6'
    } else if d == 7 {
        '7'
    } else if d == 8 {
        '8'
    } else {
        '9'
    }
}

/// The decimal digits of `n`, most significant first, without leading zeros.
pub open spec fn decimal(n: nat) -> Seq<char>
    decreases n,
{
    if n < 10 {
        seq![digit_char(n as int)]
    } else {
        decimal(n / 10).push(digit_char((n % 10) as int))
    }
}

/// `n` in decimal, padded with leading zeros to at least `width` characters.
pub open spec fn zero_padded(n: nat, width: nat) -> Seq<char> {
    let digits = decimal(n);
    if digits.len() < width {
        Seq::new((width - digits.len()) as nat, |i: int| '0') + digits
    } else {
        digits
    }
}

/// The destination-relative name of an artifact: fixed for document
/// formats, `page-<number>.<extension>` for page formats.
pub open spec fn artifact_name(format: OutputFormat, page: nat, width: nat) -> Seq<char> {
    match format {
        OutputFormat::Pdf => "output.pdf"@,
        OutputFormat::Html => "output.html"@,
        _ => "page-"@ + zero_padded(page, width) + "."@ + format.spec_extension(),
    }
}

/// The width that page numbers are padded to: the digits of the page count.
pub open spec fn page_width(result: PublishableCompilationResult) -> nat {
    match result.source_page_count {
        Some(count) => decimal(count as nat).len(),
        None => 0,
    }
}

pub open spec fn page_of(artifact: CompilationArtifact) -> nat {
    match artifact.source_page_number {
        Some(n) => n.spec_get() as nat,
        None => 0,
    }
}

/// The name planned for artifact `i` of `result`.
pub open spec fn planned_name(result: PublishableCompilationResult, i: int) -> Seq<char> {
    artifact_name(result.artifacts@[i].format, page_of(result.artifacts@[i]), page_width(result))
}

/// Whether every page-format artifact knows its source page and the result
/// knows its page count, as a succeeded result always does.
pub open spec fn pages_known(result: PublishableCompilationResult) -> bool {
    forall|i: int|
        0 <= i < result.artifacts@.len() && (#[trigger] result.artifacts@[i]).format.is_page_format()
            ==> result.artifacts@[i].source_page_number is Some && result.source_page_count is Some
}

/// Whether two of the first `k` artifacts are both named `name`.
pub open spec fn name_collides_before(result: PublishableCompilationResult, k: int, name: Seq<char>) -> bool {
    exists|i: int, j: int|
        0 <= i < j < k && #[trigger] planned_name(result, i) == name && #[trigger] planned_name(result, j) == name
}

/// Whether two artifacts of `result` share a name.
pub open spec fn has_name_collision(result: PublishableCompilationResult) -> bool {
    exists|i: int, j: int|
        0 <= i < j < result.artifacts@.len() && #[trigger] planned_name(result, i) == #[trigger] planned_name(result, j)
}

/// One destination-relative entry of an artifact publication plan.
#[derive(Clone, Debug)]
pub struct CompilationArtifactPublicationEntry {
    relative_path: String,
    format: OutputFormat,
    source_page_number: Option<NonZeroUsize>,
    bytes: Vec<u8>,
}

impl CompilationArtifactPublicationEntry {
    pub closed spec fn spec_relative_path(&self) -> Seq<char> {
        self.relative_path@
    }

    pub closed spec fn spec_format(&self) -> OutputFormat {
        self.format
    }

    pub closed spec fn spec_source_page_number(&self) -> Option<NonZeroUsize> {
        self.source_page_number
    }

    pub closed spec fn spec_bytes(&self) -> Seq<u8> {
        self.bytes@
    }

    /// The slash-separated path relative to a future destination.
    pub fn relative_path(&self) -> (r: &str)
        ensures
            r@ == self.spec_relative_path(),
    {
        self.relative_path.as_str()
    }

    pub fn format(&self) -> (r: OutputFormat)
        ensures
            r == self.spec_format(),
    {
        self.format
    }

    /// The one-based source page of a page-format artifact.
    pub fn source_page_number(&self) -> (r: Option<NonZeroUsize>)
        ensures
            r == self.spec_source_page_number(),
    {
        self.source_page_number
    }

    /// The exact payload length.
    pub fn len(&self) -> (r: u64)
        ensures
            r == self.spec_bytes().len(),
    {
        self.bytes.len() as u64
    }

    /// The payload bytes.
    pub fn bytes(&self) -> (r: &[u8])
        ensures
            r@ == self.spec_bytes(),
    {
        self.bytes.as_slice()
    }
}

/// An immutable, destination-independent artifact publication plan, with
/// entries in the order of the compilation result's artifacts.
#[derive(Clone, Debug)]
pub struct CompilationArtifactPublicationPlan {
    result_identity: CanonicalIdentity,
    entries: Vec<CompilationArtifactPublicationEntry>,
}

impl CompilationArtifactPublicationPlan {
    pub closed spec fn spec_result_identity(&self) -> Seq<char> {
        self.result_identity@
    }

    pub closed spec fn spec_entries(&self) -> Seq<CompilationArtifactPublicationEntry> {
        self.entries@
    }

    /// The identity of the succeeded result this plan projects.
    pub fn result_identity(&self) -> (r: &CanonicalIdentity)
        ensures
            r@ == self.spec_result_identity(),
    {
        &self.result_identity
    }

    /// The entries, in the order of the result's artifacts.
    pub fn entries(&self) -> (r: &[CompilationArtifactPublicationEntry])
        ensures
            r@ == self.spec_entries(),
    {
        self.entries.as_slice()
    }
}

/// One independently detectable issue of artifact publication planning.
#[derive(Clone, Debug)]
pub enum ArtifactPublicationPlanIssue {
    /// A rejected compilation produces nothing to publish.
    RejectedCompilationResult,
    /// Two artifacts resolve to the same destination-relative name.
    NamingCollision { relative_path: String },
}

/// A failure to plan artifact publication, with every issue found.
#[derive(Clone, Debug)]
pub struct ArtifactPublicationPlanError {
    issues: Vec<ArtifactPublicationPlanIssue>,
}

/// The text that describes a planning issue.
pub open spec fn plan_issue_message(issue: ArtifactPublicationPlanIssue) -> Seq<char> {
    match issue {
        ArtifactPublicationPlanIssue::RejectedCompilationResult =>
            "a rejected Compilation Result cannot produce an artifact publication plan"@,
        ArtifactPublicationPlanIssue::NamingCollision { relative_path } => "multiple Compilation Output Artifacts resolve to "@
            + debug_form(relative_path@),
    }
}

/// The text that describes a planning failure: its single issue, or a count
/// followed by every issue.
pub open spec fn plan_error_message(issues: Seq<ArtifactPublicationPlanIssue>) -> Seq<char> {
    if issues.len() == 1 {
        plan_issue_message(issues[0])
    } else {
        "artifact publication planning failed with "@ + decimal(issues.len()) + " issue(s)"@ + error_list(
            issues.map_values(|i: ArtifactPublicationPlanIssue| plan_issue_message(i)),
        )
    }
}

impl ArtifactPublicationPlanIssue {
    /// The text that describes this issue.
    pub fn describe(&self) -> (r: String)
        ensures
            r@ == plan_issue_message(*self),
    {
        match self {
            ArtifactPublicationPlanIssue::RejectedCompilationResult => String::from_str(
                "a rejected Compilation Result cannot produce an artifact publication plan",
            ),
            ArtifactPublicationPlanIssue::NamingCollision { relative_path } => {
                let mut m = String::from_str("multiple Compilation Output Artifacts resolve to ");
                m.append(debug_quoted(relative_path.as_str()).as_str());
                m
            },
        }
    }
}

impl ArtifactPublicationPlanError {
    pub closed spec fn spec_issues(&self) -> Seq<ArtifactPublicationPlanIssue> {
        self.issues@
    }

    /// The text that describes this failure.
    pub fn describe(&self) -> (r: String)
        ensures
            r@ == plan_error_message(self.spec_issues()),
    {
        if self.issues.len() == 1 {
            return self.issues[0].describe();
        }
        let mut texts: Vec<String> = Vec::new();
        let mut i: usize = 0;
        while i < self.issues.len()
            invariant
                i <= self.issues@.len(),
                texts@.len() == i,
                forall|j: int| 0 <= j < i ==> (#[trigger] texts@[j])@ == plan_issue_message(self.issues@[j]),
            decreases self.issues@.len() - i,
        {
            texts.push(self.issues[i].describe());
            i = i + 1;
        }
        let mut m = String::from_str("artifact publication planning failed with ");
        append_decimal(&mut m, self.issues.len());
        m.append(" issue(s)");
        let list = format_error_list(texts.as_slice());
        m.append(list.as_str());
        proof {
            assert(texts@.map_values(|s: String| s@) =~= self.issues@.map_values(
                |i: ArtifactPublicationPlanIssue| plan_issue_message(i),
            ));
        }
        m
    }

    /// Every issue, in canonical order.
    pub fn issues(&self) -> (r: &[ArtifactPublicationPlanIssue])
        ensures
            r@ == self.spec_issues(),
    {
        self.issues.as_slice()
    }
}

/// The path an issue names, empty for a rejected result.
pub open spec fn issue_path(issue: ArtifactPublicationPlanIssue) -> Seq<char> {
    match issue {
        ArtifactPublicationPlanIssue::RejectedCompilationResult => Seq::empty(),
        ArtifactPublicationPlanIssue::NamingCollision { relative_path } => relative_path@,
    }
}

/// Whether an entry publishes artifact `i` of `result` under its planned name.
pub open spec fn entry_publishes(entry: CompilationArtifactPublicationEntry, result: PublishableCompilationResult, i: int) -> bool {
    &&& entry.spec_relative_path() == planned_name(result, i)
    &&& entry.spec_format() == result.artifacts@[i].format
    &&& entry.spec_source_page_number() == result.artifacts@[i].source_page_number
    &&& entry.spec_bytes() == result.artifacts@[i].bytes@
}

fn digit_str(d: usize) -> (r: &'static str)
    requires
        d < 10,
    ensures
        r@ == seq![digit_char(d as int)],
{
    proof {
        reveal_strlit("0");
        reveal_strlit("1");
        reveal_strlit("2");
        reveal_strlit("3");
        reveal_strlit("4");
        reveal_strlit("5");
        reveal_strlit("6");
        reveal_strlit("7");
        reveal_strlit("8");
        reveal_strlit("9");
    }
    if d == 0 {
        "0"
    } else if d == 1 {
        "1"
    } else if d == 2 {
        "2"
    } else if d == 3 {
        "3"
    } else if d == 4 {
        "4"
    } else if d == 5 {
        "5"
    } else if d == 6 {
        "6"
    } else if d == 7 {
        "7"
    } else if d == 8 {
        "8"
    } else {
        "9"
    }
}

/// Appends the decimal digits of `n`.
pub(crate) fn append_decimal(s: &mut String, n: usize)
    ensures
        final(s)@ == old(s)@ + decimal(n as nat),
    decreases n,
{
    if n >= 10 {
        append_decimal(s, n / 10);
    }
    let ghost before = s@;
    s.append(digit_str(n % 10));
    proof {
        if n >= 10 {
            assert(before == old(s)@ + decimal((n / 10) as nat));
            assert(s@ =~= old(s)@ + decimal(n as nat));
        } else {
            assert(s@ =~= old(s)@ + decimal(n as nat));
        }
    }
}

proof fn lemma_decimal_len(n: nat)
    ensures
        1 <= decimal(n).len() <= n + 1,
    decreases n,
{
    if n >= 10 {
        lemma_decimal_len(n / 10);
    }
}

/// The number of decimal digits of `n`.
pub(crate) fn decimal_len(n: usize) -> (r: usize)
    ensures
        r == decimal(n as nat).len(),
    decreases n,
{
    if n < 10 {
        1
    } else {
        proof {
            lemma_decimal_len((n / 10) as nat);
        }
        decimal_len(n / 10) + 1
    }
}

/// The planned name of one artifact.
fn name_artifact(format: OutputFormat, page: usize, width: usize) -> (r: String)
    ensures
        r@ == artifact_name(format, page as nat, width as nat),
{
    proof {
        reveal_strlit("output.pdf");
        reveal_strlit("output.html");
        reveal_strlit("page-");
        reveal_strlit(".");
    }
    match format {
        OutputFormat::Pdf => String::from_str("output.pdf"),
        OutputFormat::Html => String::from_str("output.html"),
        _ => {
            let mut s = String::from_str("page-");
            append_zero_padded(&mut s, page, width);
            s.append(".");
            s.append(format.extension());
            proof {
                assert(s@ =~= "page-"@ + zero_padded(page as nat, width as nat) + "."@ + format.spec_extension());
            }
            s
        },
    }
}

/// Appends `n` in decimal, padded with leading zeros to `width` characters.
pub(crate) fn append_zero_padded(s: &mut String, n: usize, width: usize)
    ensures
        final(s)@ == old(s)@ + zero_padded(n as nat, width as nat),
{
    let ghost start = s@;
    let digits = decimal_len(n);
    let mut k: usize = digits;
    proof {
        assert(Seq::new(0nat, |i: int| '0') =~= Seq::<char>::empty());
        assert(s@ =~= start + Seq::new((k - digits) as nat, |i: int| '0'));
    }
    while k < width
        invariant
            digits <= k,
            k <= width || k == digits,
            digits == decimal(n as nat).len(),
            s@ == start + Seq::new((k - digits) as nat, |i: int| '0'),
        decreases width - k,
    {
        proof {
            reveal_strlit("0");
        }
        s.append("0");
        proof {
            assert(s@ =~= start + Seq::new((k + 1 - digits) as nat, |i: int| '0'));
        }
        k = k + 1;
    }
    append_decimal(s, n);
    proof {
        let zeros = Seq::new((k - digits) as nat, |i: int| '0');
        if digits < width {
            assert(k == width);
            assert(zero_padded(n as nat, width as nat) == zeros + decimal(n as nat));
        } else {
            assert(zeros =~= Seq::empty());
            assert(zero_padded(n as nat, width as nat) == decimal(n as nat));
        }
        assert(s@ =~= start + zero_padded(n as nat, width as nat));
    }
}

/// Whether a sequence of strings is in strictly increasing text order.
pub open spec fn texts_ascending(s: Seq<String>) -> bool {
    forall|a: int, b: int| 0 <= a < b < s.len() ==> text_lt(s[a]@, s[b]@)
}

/// Whether some string of `s` reads `t`.
pub open spec fn contains_text(s: Seq<String>, t: Seq<char>) -> bool {
    exists|k: int| 0 <= k < s.len() && #[trigger] s[k]@ == t
}

/// Inserts `x` into an ascending sequence of strings unless it is there.
pub(crate) fn insert_text_ascending(v: &mut Vec<String>, x: String)
    requires
        texts_ascending(old(v)@),
    ensures
        texts_ascending(final(v)@),
        forall|t: Seq<char>| contains_text(final(v)@, t) <==> (contains_text(old(v)@, t) || t == x@),
{
    let key = crate::text::chars_of(x.as_str());
    let mut p: usize = 0;
    let mut equal = false;
    while p < v.len()
        invariant_except_break
            !equal,
        invariant
            p <= v@.len(),
            key@ == x@,
            v@ == old(v)@,
            forall|q: int| 0 <= q < p ==> text_lt(#[trigger] v@[q]@, x@),
        ensures
            p <= v@.len(),
            v@ == old(v)@,
            forall|q: int| 0 <= q < p ==> text_lt(#[trigger] v@[q]@, x@),
            equal ==> p < v@.len() && v@[p as int]@ == x@,
            !equal ==> p == v@.len() || text_lt(x@, v@[p as int]@),
        decreases v@.len() - p,
    {
        let other = crate::text::chars_of(v[p].as_str());
        let c = crate::order::compare_text(other.as_slice(), key.as_slice());
        if c == 0 {
            equal = true;
            break;
        }
        if c > 0 {
            break;
        }
        p = p + 1;
    }
    if equal {
        proof {
            assert forall|t: Seq<char>| contains_text(v@, t) <==> (contains_text(old(v)@, t) || t == x@) by {
                if t == x@ {
                    assert(v@[p as int]@ == t);
                }
            }
        }
        return;
    }
    let ghost s = v@;
    let ghost id = x@;
    assert(s == old(v)@);
    v.insert(p, x);
    proof {
        assert forall|a: int, b: int| 0 <= a < b < v@.len() implies text_lt(v@[a]@, v@[b]@) by {
            if b < p {
                assert(v@[a] == s[a] && v@[b] == s[b]);
            } else if b == p {
                assert(v@[a] == s[a]);
            } else if a == p {
                assert(v@[b] == s[b - 1]);
                if b - 1 > p {
                    assert(text_lt(s[p as int]@, s[b - 1]@));
                    crate::order::lemma_text_lt_transitive(id, s[p as int]@, s[b - 1]@, 0);
                }
            } else if a < p {
                assert(v@[a] == s[a] && v@[b] == s[b - 1]);
                if b - 1 > a {
                    assert(text_lt(s[a]@, s[b - 1]@));
                }
            } else {
                assert(v@[a] == s[a - 1] && v@[b] == s[b - 1]);
                assert(text_lt(s[a - 1]@, s[b - 1]@));
            }
        }
        assert forall|t: Seq<char>| contains_text(v@, t) <==> (contains_text(s, t) || t == id) by {
            if contains_text(v@, t) {
                let k = choose|k: int| 0 <= k < v@.len() && #[trigger] v@[k]@ == t;
                if k < p {
                    assert(v@[k] == s[k]);
                } else if k > p {
                    assert(v@[k] == s[k - 1]);
                }
            }
            if contains_text(s, t) {
                let k = choose|k: int| 0 <= k < s.len() && #[trigger] s[k]@ == t;
                if k < p {
                    assert(v@[k] == s[k]);
                } else {
                    assert(v@[k + 1] == s[k]);
                }
            }
            if t == id {
                assert(v@[p as int]@ == t);
            }
        }
        assert(forall|t: Seq<char>| contains_text(v@, t) <==> (contains_text(old(v)@, t) || t == id));
    }
}

/// Plans the destination-relative names of a compilation result's artifacts
/// before any destination is touched.
///
/// A rejected result has nothing to publish. Otherwise each artifact is named
/// `output.pdf`, `output.html` or `page-<n>.<extension>`, with `n` padded by
/// zeros to the number of digits of the page count; names that two artifacts
/// share are reported, each once and in text order.
#[verifier::rlimit(50)]
pub fn plan_compilation_artifact_publication(
    result: &PublishableCompilationResult,
) -> (r: Result<CompilationArtifactPublicationPlan, ArtifactPublicationPlanError>)
    requires
        result.status == CompilationStatus::Succeeded ==> pages_known(*result),
    ensures
        result.status != CompilationStatus::Succeeded ==> (r matches Err(e) && e.spec_issues()
            =~= seq![ArtifactPublicationPlanIssue::RejectedCompilationResult]),
        result.status == CompilationStatus::Succeeded && !has_name_collision(*result) ==> (r matches Ok(plan)
            && plan.spec_result_identity() == result.result_identity@
            && plan.spec_entries().len() == result.artifacts@.len()
            && forall|i: int| 0 <= i < result.artifacts@.len() ==> #[trigger] entry_publishes(plan.spec_entries()[i], *result, i)),
        result.status == CompilationStatus::Succeeded && has_name_collision(*result) ==> (r matches Err(e)
            && e.spec_issues().len() > 0
            && (forall|k: int| 0 <= k < e.spec_issues().len() ==> (#[trigger] e.spec_issues()[k]) is NamingCollision)
            && (forall|a: int, b: int| 0 <= a < b < e.spec_issues().len() ==> text_lt(issue_path(e.spec_issues()[a]), issue_path(e.spec_issues()[b])))
            && (forall|t: Seq<char>| (exists|k: int| 0 <= k < e.spec_issues().len() && #[trigger] issue_path(e.spec_issues()[k]) == t)
                <==> name_collides_before(*result, result.artifacts@.len() as int, t))),
{
    if result.status != CompilationStatus::Succeeded {
        let mut issues = Vec::new();
        issues.push(ArtifactPublicationPlanIssue::RejectedCompilationResult);
        return Err(ArtifactPublicationPlanError { issues });
    }
    let width: usize = match result.source_page_count {
        Some(count) => decimal_len(count),
        None => 0,
    };
    let n = result.artifacts.len();
    let mut names: Vec<String> = Vec::new();
    let mut collisions: Vec<String> = Vec::new();
    let mut i: usize = 0;
    while i < n
        invariant
            i <= n,
            n == result.artifacts@.len(),
            width == page_width(*result),
            pages_known(*result),
            names@.len() == i,
            forall|k: int| 0 <= k < i ==> #[trigger] names@[k]@ == planned_name(*result, k),
            texts_ascending(collisions@),
            forall|t: Seq<char>| contains_text(collisions@, t) <==> name_collides_before(*result, i as int, t),
        decreases n - i,
    {
        let artifact = &result.artifacts[i];
        let page: usize = match artifact.source_page_number {
            Some(p) => p.get(),
            None => 0,
        };
        let name = name_artifact(artifact.format, page, width);
        assert(name@ == planned_name(*result, i as int));
        let mut j: usize = 0;
        let mut seen = false;
        while j < i
            invariant_except_break
                !seen,
            invariant
                j <= i,
                names@.len() == i,
                forall|q: int| 0 <= q < j ==> names@[q]@ != name@,
            ensures
                seen ==> j < i && names@[j as int]@ == name@,
                !seen ==> forall|q: int| 0 <= q < i ==> names@[q]@ != name@,
            decreases i - j,
        {
            if names[j] == name {
                seen = true;
                break;
            }
            j = j + 1;
        }
        let ghost before = collisions@;
        if seen {
            insert_text_ascending(&mut collisions, name.clone());
        }
        names.push(name);
        proof {
            assert forall|t: Seq<char>| contains_text(collisions@, t) <==> name_collides_before(*result, i + 1, t) by {
                if name_collides_before(*result, i + 1, t) {
                    let (a, b) = choose|a: int, b: int|
                        0 <= a < b < i + 1 && #[trigger] planned_name(*result, a) == t && #[trigger] planned_name(*result, b) == t;
                    if b < i {
                        assert(name_collides_before(*result, i as int, t));
                    } else {
                        assert(names@[a]@ == t);
                    }
                }
                if name_collides_before(*result, i as int, t) {
                    let (a, b) = choose|a: int, b: int|
                        0 <= a < b < i && #[trigger] planned_name(*result, a) == t && #[trigger] planned_name(*result, b) == t;
                    assert(0 <= a < b < i + 1);
                }
                if seen && t == name@ {
                    assert(planned_name(*result, j as int) == t && planned_name(*result, i as int) == t);
                }
            }
        }
        i = i + 1;
    }
    if collisions.len() > 0 {
        let mut issues: Vec<ArtifactPublicationPlanIssue> = Vec::new();
        let mut k: usize = 0;
        while k < collisions.len()
            invariant
                k <= collisions@.len(),
                issues@.len() == k,
                forall|q: int| 0 <= q < k ==> (#[trigger] issues@[q]) is NamingCollision && issue_path(issues@[q]) == collisions@[q]@,
            decreases collisions@.len() - k,
        {
            issues.push(ArtifactPublicationPlanIssue::NamingCollision { relative_path: collisions[k].clone() });
            k = k + 1;
        }
        proof {
            assert forall|t: Seq<char>| (exists|q: int| 0 <= q < issues@.len() && #[trigger] issue_path(issues@[q]) == t)
                <==> name_collides_before(*result, n as int, t) by {
                if exists|q: int| 0 <= q < issues@.len() && #[trigger] issue_path(issues@[q]) == t {
                    let q = choose|q: int| 0 <= q < issues@.len() && #[trigger] issue_path(issues@[q]) == t;
                    assert(collisions@[q]@ == t);
                }
                if name_collides_before(*result, n as int, t) {
                    let q = choose|q: int| 0 <= q < collisions@.len() && #[trigger] collisions@[q]@ == t;
                    assert(issue_path(issues@[q]) == t);
                }
            }
            assert(contains_text(collisions@, collisions@[0]@));
            let (a, b) = choose|a: int, b: int|
                0 <= a < b < n && #[trigger] planned_name(*result, a) == collisions@[0]@ && #[trigger] planned_name(*result, b) == collisions@[0]@;
            assert(has_name_collision(*result));
        }
        return Err(ArtifactPublicationPlanError { issues });
    }
    proof {
        assert forall|a: int, b: int| 0 <= a < b < n implies #[trigger] planned_name(*result, a) != #[trigger] planned_name(*result, b) by {
            if planned_name(*result, a) == planned_name(*result, b) {
                assert(name_collides_before(*result, n as int, planned_name(*result, a)));
                assert(contains_text(collisions@, planned_name(*result, a)));
            }
        }
    }
    let mut entries: Vec<CompilationArtifactPublicationEntry> = Vec::new();
    let mut k: usize = 0;
    while k < n
        invariant
            k <= n,
            n == result.artifacts@.len(),
            names@.len() == n,
            forall|q: int| 0 <= q < n ==> #[trigger] names@[q]@ == planned_name(*result, q),
            entries@.len() == k,
            forall|q: int| 0 <= q < k ==> #[trigger] entry_publishes(entries@[q], *result, q),
        decreases n - k,
    {
        let artifact = &result.artifacts[k];
        let entry = CompilationArtifactPublicationEntry {
            relative_path: names[k].clone(),
            format: artifact.format,
            source_page_number: artifact.source_page_number,
            bytes: crate::transport::copy_bytes(artifact.bytes.as_slice()),
        };
        entries.push(entry);
        k = k + 1;
    }
    Ok(CompilationArtifactPublicationPlan { result_identity: result.result_identity.duplicate(), entries })
}

/// The process-facing outcome of an embedded compilation.
#[derive(Clone, Debug)]
pub enum CliCompilationPresentation {
    Succeeded,
    Diagnostics,
    PngExport { error: String },
}

/// `n` in exactly `w` decimal digits: its last `w` digits, with leading
/// zeros.
pub open spec fn fixed_digits(n: nat, w: nat) -> Seq<char>
    decreases w,
{
    if w == 0 {
        Seq::empty()
    } else {
        fixed_digits(n / 10, (w - 1) as nat).push(digit_char((n % 10) as int))
    }
}

proof fn lemma_fixed_digits_len(n: nat, w: nat)
    ensures
        fixed_digits(n, w).len() == w,
    decreases w,
{
    if w > 0 {
        lemma_fixed_digits_len(n / 10, (w - 1) as nat);
    }
}

proof fn lemma_fixed_digits_zero(w: nat)
    ensures
        fixed_digits(0, w) == Seq::new(w, |i: int| '0'),
    decreases w,
{
    if w > 0 {
        lemma_fixed_digits_zero((w - 1) as nat);
        assert(fixed_digits(0, w) =~= Seq::new(w, |i: int| '0'));
    } else {
        assert(fixed_digits(0, w) =~= Seq::new(w, |i: int| '0'));
    }
}

proof fn lemma_decimal_len_monotone(p: nat, q: nat)
    requires
        p <= q,
    ensures
        decimal(p).len() <= decimal(q).len(),
    decreases q,
{
    if q >= 10 && p >= 10 {
        lemma_decimal_len_monotone(p / 10, q / 10);
    }
}

/// Zero padding to a width that holds every digit gives exactly that many
/// digits.
proof fn lemma_zero_padded_fixed(n: nat, w: nat)
    requires
        decimal(n).len() <= w,
    ensures
        zero_padded(n, w) == fixed_digits(n, w),
    decreases n,
{
    let len = decimal(n).len();
    assert(zero_padded(n, w) =~= Seq::new((w - len) as nat, |i: int| '0') + decimal(n));
    if n < 10 {
        lemma_fixed_digits_zero((w - 1) as nat);
        assert(fixed_digits(n, w) == fixed_digits(0, (w - 1) as nat).push(digit_char(n as int)));
        assert(zero_padded(n, w) =~= fixed_digits(n, w));
    } else {
        lemma_zero_padded_fixed(n / 10, (w - 1) as nat);
        let inner = decimal(n / 10).len();
        assert(zero_padded(n / 10, (w - 1) as nat) =~= Seq::new((w - 1 - inner) as nat, |i: int| '0') + decimal(n / 10));
        assert(zero_padded(n, w) =~= zero_padded(n / 10, (w - 1) as nat).push(digit_char((n % 10) as int)));
    }
}

proof fn lemma_text_lt_push(a: Seq<char>, b: Seq<char>, x: char, y: char, i: int)
    requires
        a.len() == b.len(),
        0 <= i <= a.len(),
        text_lt_from(a, b, i) || (a.subrange(i, a.len() as int) == b.subrange(i, b.len() as int) && x < y),
    ensures
        text_lt_from(a.push(x), b.push(y), i),
    decreases a.len() - i,
{
    if i < a.len() {
        if a[i] == b[i] {
            if a.subrange(i, a.len() as int) == b.subrange(i, b.len() as int) {
                assert(a.subrange(i + 1, a.len() as int) =~= a.subrange(i, a.len() as int).drop_first());
                assert(b.subrange(i + 1, b.len() as int) =~= b.subrange(i, b.len() as int).drop_first());
            }
            lemma_text_lt_push(a, b, x, y, i + 1);
        } else if a.subrange(i, a.len() as int) == b.subrange(i, b.len() as int) {
            assert(a.subrange(i, a.len() as int)[0] == b.subrange(i, b.len() as int)[0]);
        }
    }
}

proof fn lemma_fixed_digits_order(p: nat, q: nat, w: nat)
    requires
        p < q,
        decimal(q).len() <= w,
    ensures
        text_lt(fixed_digits(p, w), fixed_digits(q, w)),
    decreases w,
{
    lemma_fixed_digits_len(p / 10, (w - 1) as nat);
    lemma_fixed_digits_len(q / 10, (w - 1) as nat);
    let a = fixed_digits(p / 10, (w - 1) as nat);
    let b = fixed_digits(q / 10, (w - 1) as nat);
    if p / 10 < q / 10 {
        lemma_fixed_digits_order(p / 10, q / 10, (w - 1) as nat);
        lemma_text_lt_push(a, b, digit_char((p % 10) as int), digit_char((q % 10) as int), 0);
    } else {
        assert(p / 10 == q / 10);
        assert(p % 10 < q % 10);
        assert(a.subrange(0, a.len() as int) =~= b.subrange(0, b.len() as int));
        lemma_text_lt_push(a, b, digit_char((p % 10) as int), digit_char((q % 10) as int), 0);
    }
}

proof fn lemma_text_lt_embedded(pre: Seq<char>, x: Seq<char>, y: Seq<char>, post: Seq<char>, i: int)
    requires
        x.len() == y.len(),
        0 <= i <= x.len(),
        text_lt_from(x, y, i),
    ensures
        text_lt_from(pre + x + post, pre + y + post, pre.len() + i),
    decreases x.len() - i,
{
    let a = pre + x + post;
    let b = pre + y + post;
    if i < x.len() {
        assert(a[pre.len() + i] == x[i]);
        assert(b[pre.len() + i] == y[i]);
        if x[i] == y[i] {
            lemma_text_lt_embedded(pre, x, y, post, i + 1);
        }
    }
}

proof fn lemma_text_lt_shared_prefix(a: Seq<char>, b: Seq<char>, k: int, i: int)
    requires
        0 <= i <= k <= a.len(),
        k <= b.len(),
        a.subrange(0, k) == b.subrange(0, k),
        text_lt_from(a, b, k),
    ensures
        text_lt_from(a, b, i),
    decreases k - i,
{
    if i < k {
        assert(a.subrange(0, k)[i] == a[i]);
        assert(b.subrange(0, k)[i] == b[i]);
        assert(a[i] == b[i]);
        lemma_text_lt_shared_prefix(a, b, k, i + 1);
    }
}

/// Page artifacts are named so that text order is page order: for pages of
/// one result, a lower page number gives a name that sorts first.
pub proof fn lemma_page_names_follow_page_order(format: OutputFormat, p: nat, q: nat, page_count: nat)
    requires
        format.is_page_format(),
        p < q <= page_count,
    ensures
        text_lt(
            artifact_name(format, p, decimal(page_count).len()),
            artifact_name(format, q, decimal(page_count).len()),
        ),
{
    let w = decimal(page_count).len();
    lemma_decimal_len_monotone(p, page_count);
    lemma_decimal_len_monotone(q, page_count);
    lemma_zero_padded_fixed(p, w);
    lemma_zero_padded_fixed(q, w);
    lemma_fixed_digits_order(p, q, w);
    lemma_fixed_digits_len(p, w);
    lemma_fixed_digits_len(q, w);
    let pre = "page-"@;
    let post = "."@ + format.spec_extension();
    let x = zero_padded(p, w);
    let y = zero_padded(q, w);
    lemma_text_lt_embedded(pre, x, y, post, 0);
    let a = pre + x + post;
    let b = pre + y + post;
    assert(artifact_name(format, p, w) =~= a);
    assert(artifact_name(format, q, w) =~= b);
    assert(a.subrange(0, pre.len() as int) =~= b.subrange(0, pre.len() as int));
    lemma_text_lt_shared_prefix(a, b, pre.len() as int, 0);
}

} // verus!
