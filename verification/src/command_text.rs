//! The text that the command-line front end takes and gives: output path
//! templates, `key=value` inputs and Makefile dependency paths.

use vstd::prelude::*;
use vstd::string::StringExecFns;
use crate::text::{chars_of, find_char, first_index_of};
use crate::pages::{bounds_within, pieces, split_bounds, split_on, trim, trimmed};
use crate::artifact_publication::OutputFormat;
use crate::compilation::{first_tag_requiring, pdf_standard_requiring_tags, PdfStandard};
use crate::artifact_publication::{
    append_decimal, append_zero_padded, decimal, decimal_len, zero_padded, CompilationArtifact,
};
use crate::preflight::{ascii_upper, upper_reads};

verus! {

/// `pat` occurs in `s` at position `i`.
pub open spec fn occurs_at(s: Seq<char>, pat: Seq<char>, i: int) -> bool {
    0 <= i && i + pat.len() <= s.len() && s.subrange(i, i + pat.len()) == pat
}

/// `pat` occurs somewhere in `s`.
pub open spec fn contains_text(s: Seq<char>, pat: Seq<char>) -> bool {
    exists|i: int| occurs_at(s, pat, i)
}

/// `s` with every occurrence of the non-empty `pat` replaced by `rep`,
/// occurrences taken from the left and not overlapping.
pub open spec fn replace_all(s: Seq<char>, pat: Seq<char>, rep: Seq<char>) -> Seq<char>
    decreases s.len(),
{
    if s.len() == 0 {
        Seq::empty()
    } else if pat.len() > 0 && occurs_at(s, pat, 0) {
        rep + replace_all(s.subrange(pat.len() as int, s.len() as int), pat, rep)
    } else {
        seq![s[0]] + replace_all(s.subrange(1, s.len() as int), pat, rep)
    }
}

/// Whether `pat` occurs in `s` at position `i`.
fn occurs_in(s: &[char], pat: &[char], i: usize) -> (r: bool)
    requires
        i <= s@.len(),
    ensures
        r == occurs_at(s@, pat@, i as int),
{
    if pat.len() > s.len() - i {
        return false;
    }
    let mut k: usize = 0;
    while k < pat.len()
        invariant
            k <= pat@.len(),
            i + pat@.len() <= s@.len(),
            s@.len() == s.len(),
            forall|m: int| 0 <= m < k ==> s@[i + m] == pat@[m],
        decreases pat@.len() - k,
    {
        if s[i + k] != pat[k] {
            proof {
                if occurs_at(s@, pat@, i as int) {
                    assert(s@.subrange(i as int, i + pat@.len())[k as int] == s@[i + k]);
                }
            }
            return false;
        }
        k = k + 1;
    }
    proof {
        assert(s@.subrange(i as int, i + pat@.len()) =~= pat@);
    }
    true
}

/// Whether `pat` occurs in `text`.
pub fn text_contains(text: &str, pat: &str) -> (r: bool)
    ensures
        r == contains_text(text@, pat@),
{
    let s = chars_of(text);
    let p = chars_of(pat);
    let mut i: usize = 0;
    while i < s.len()
        invariant
            i <= s@.len(),
            s@ == text@,
            p@ == pat@,
            forall|j: int| 0 <= j < i ==> !occurs_at(text@, pat@, j),
        decreases s@.len() - i,
    {
        if occurs_in(s.as_slice(), p.as_slice(), i) {
            return true;
        }
        i = i + 1;
    }
    if occurs_in(s.as_slice(), p.as_slice(), i) {
        return true;
    }
    proof {
        assert forall|j: int| !occurs_at(text@, pat@, j) by {
            if 0 <= j <= i {
            }
        }
    }
    false
}

proof fn lemma_replace_unfold(s: Seq<char>, pat: Seq<char>, rep: Seq<char>, i: int)
    requires
        0 <= i < s.len(),
        pat.len() > 0,
    ensures
        occurs_at(s, pat, i) ==> replace_all(s.subrange(i, s.len() as int), pat, rep) == rep + replace_all(
            s.subrange(i + pat.len(), s.len() as int),
            pat,
            rep,
        ),
        !occurs_at(s, pat, i) ==> replace_all(s.subrange(i, s.len() as int), pat, rep) == seq![s[i]]
            + replace_all(s.subrange(i + 1, s.len() as int), pat, rep),
{
    let t = s.subrange(i, s.len() as int);
    if occurs_at(s, pat, i) {
        assert(t.subrange(0, pat.len() as int) =~= s.subrange(i, i + pat.len()));
        assert(occurs_at(t, pat, 0));
        assert(t.subrange(pat.len() as int, t.len() as int) =~= s.subrange(i + pat.len(), s.len() as int));
    } else {
        if occurs_at(t, pat, 0) {
            assert(t.subrange(0, pat.len() as int) =~= s.subrange(i, i + pat.len()));
        }
        assert(t.subrange(1, t.len() as int) =~= s.subrange(i + 1, s.len() as int));
    }
}

/// `text` with every occurrence of `pat` replaced by `rep`, as `str::replace`
/// does.
pub fn replace_text(text: &str, pat: &str, rep: &str) -> (r: String)
    requires
        pat@.len() > 0,
    ensures
        r@ == replace_all(text@, pat@, rep@),
{
    let s = chars_of(text);
    let p = chars_of(pat);
    let n = s.len();
    let m = p.len();
    let mut out = String::new();
    let mut last: usize = 0;
    let mut i: usize = 0;
    proof {
        assert(text@.subrange(0, n as int) =~= text@);
        assert(text@.subrange(0, 0) =~= Seq::<char>::empty());
        assert(out@ =~= Seq::<char>::empty());
    }
    while i < n
        invariant
            s@ == text@,
            p@ == pat@,
            n == text@.len(),
            m == pat@.len(),
            m > 0,
            last <= i <= n,
            replace_all(text@, pat@, rep@) == out@ + text@.subrange(last as int, i as int) + replace_all(
                text@.subrange(i as int, n as int),
                pat@,
                rep@,
            ),
        decreases n - i,
    {
        proof {
            lemma_replace_unfold(text@, pat@, rep@, i as int);
        }
        if occurs_in(s.as_slice(), p.as_slice(), i) {
            let ghost before = out@;
            out.append(text.substring_char(last, i));
            out.append(rep);
            proof {
                assert(text@.subrange((i + m) as int, (i + m) as int) =~= Seq::<char>::empty());
                assert(out@ + text@.subrange((i + m) as int, (i + m) as int) =~= before + text@.subrange(
                    last as int,
                    i as int,
                ) + rep@);
            }
            i = i + m;
            last = i;
        } else {
            proof {
                assert(text@.subrange(last as int, i + 1) =~= text@.subrange(last as int, i as int) + seq![
                    text@[i as int],
                ]);
            }
            i = i + 1;
        }
    }
    proof {
        assert(text@.subrange(n as int, n as int) =~= Seq::<char>::empty());
    }
    out.append(text.substring_char(last, n));
    proof {
        assert(out@ =~= replace_all(text@, pat@, rep@));
    }
    out
}

/// Whether an output path template names a page: it holds `{p}`, `{0p}` or
/// `{n}`.
pub open spec fn has_page_template(t: Seq<char>) -> bool {
    contains_text(t, "{p}"@) || contains_text(t, "{0p}"@) || contains_text(t, "{n}"@)
}

pub open spec fn missing_page_template_message() -> Seq<char> {
    "cannot export multiple images without a page number template ({p}, {0p}) in the output path"@
}

/// The path a template gives for one page: `{p}` becomes the page number,
/// `{0p}` and `{n}` the page number padded with zeros to as many digits as
/// the total has, and `{t}` the total number of source pages.
pub open spec fn expanded_path(t: Seq<char>, page: nat, total: nat) -> Seq<char> {
    let width = decimal(total).len();
    replace_all(
        replace_all(
            replace_all(replace_all(t, "{p}"@, decimal(page)), "{0p}"@, zero_padded(page, width)),
            "{n}"@,
            zero_padded(page, width),
        ),
        "{t}"@,
        decimal(total),
    )
}

/// The page an artifact stands for in a template: its source page, or its
/// one-based position.
pub open spec fn template_page(artifacts: Seq<CompilationArtifact>, i: int) -> nat {
    match artifacts[i].source_page_number {
        Some(n) => n.spec_get() as nat,
        None => (i + 1) as nat,
    }
}

/// Whether an output path template names a page.
pub fn has_indexable_page_template(output: &str) -> (r: bool)
    ensures
        r == has_page_template(output@),
{
    text_contains(output, "{p}") || text_contains(output, "{0p}") || text_contains(output, "{n}")
}

/// The refusal of a template without a page for several page artifacts.
pub fn missing_page_template_error() -> (r: String)
    ensures
        r@ == missing_page_template_message(),
{
    String::from_str("cannot export multiple images without a page number template ({p}, {0p}) in the output path")
}

/// The path that `template` gives for `page` of `total` source pages.
fn expand_page(template: &str, page: usize, total: usize) -> (r: String)
    ensures
        r@ == expanded_path(template@, page as nat, total as nat),
{
    proof {
        reveal_strlit("{p}");
        reveal_strlit("{0p}");
        reveal_strlit("{n}");
        reveal_strlit("{t}");
    }
    let width = decimal_len(total);
    let mut number = String::new();
    append_decimal(&mut number, page);
    let mut padded = String::new();
    append_zero_padded(&mut padded, page, width);
    let mut count = String::new();
    append_decimal(&mut count, total);
    proof {
        assert(number@ =~= decimal(page as nat));
        assert(padded@ =~= zero_padded(page as nat, width as nat));
        assert(count@ =~= decimal(total as nat));
    }
    let a = replace_text(template, "{p}", number.as_str());
    let b = replace_text(a.as_str(), "{0p}", padded.as_str());
    let c = replace_text(b.as_str(), "{n}", padded.as_str());
    replace_text(c.as_str(), "{t}", count.as_str())
}

/// Expands an output path template into one path per page artifact.
///
/// No artifacts give no paths. A template without a page gives itself for a
/// single artifact and is refused for several. Otherwise each artifact gets
/// the template with its page filled in.
pub fn expand_output_template(
    template: &str,
    artifacts: &[CompilationArtifact],
    total_source_pages: usize,
) -> (r: Result<Vec<String>, String>)
    ensures
        artifacts@.len() == 0 ==> (r matches Ok(v) && v@.len() == 0),
        artifacts@.len() > 1 && !has_page_template(template@) ==> (r matches Err(e) && e@
            == missing_page_template_message()),
        artifacts@.len() == 1 && !has_page_template(template@) ==> (r matches Ok(v) && v@.len() == 1 && v@[0]@
            == template@),
        artifacts@.len() >= 1 && has_page_template(template@) ==> (r matches Ok(v) && v@.len() == artifacts@.len()
            && forall|i: int| 0 <= i < v@.len() ==> (#[trigger] v@[i])@ == expanded_path(
                template@,
                template_page(artifacts@, i),
                total_source_pages as nat,
            )),
{
    if artifacts.len() == 0 {
        return Ok(Vec::new());
    }
    let has_page = has_indexable_page_template(template);
    if artifacts.len() > 1 && !has_page {
        return Err(missing_page_template_error());
    }
    if !has_page {
        let mut only = Vec::new();
        only.push(String::from_str(template));
        return Ok(only);
    }
    let mut paths: Vec<String> = Vec::new();
    let mut i: usize = 0;
    while i < artifacts.len()
        invariant
            i <= artifacts@.len(),
            paths@.len() == i,
            forall|j: int| 0 <= j < i ==> (#[trigger] paths@[j])@ == expanded_path(
                template@,
                template_page(artifacts@, j),
                total_source_pages as nat,
            ),
        decreases artifacts@.len() - i,
    {
        let page = match artifacts[i].source_page_number {
            Some(n) => n.get(),
            None => i + 1,
        };
        paths.push(expand_page(template, page, total_source_pages));
        i = i + 1;
    }
    Ok(paths)
}

pub open spec fn missing_equal_sign_message() -> Seq<char> {
    "input must be a key and a value separated by an equal sign"@
}

pub open spec fn missing_key_message() -> Seq<char> {
    "the key was missing or empty"@
}

/// A `key=value` input: split at the first `=`, both sides trimmed of white
/// space; the key must not be empty.
pub open spec fn input_pair(pair: Seq<char>) -> Result<(Seq<char>, Seq<char>), Seq<char>> {
    match first_index_of(pair, '=', 0) {
        None => Err(missing_equal_sign_message()),
        Some(i) => {
            let key = trim(pair.subrange(0, i));
            if key.len() == 0 {
                Err(missing_key_message())
            } else {
                Ok((key, trim(pair.subrange(i + 1, pair.len() as int))))
            }
        },
    }
}

/// Parses a `key=value` input.
pub fn parse_input(pair: &str) -> (r: Result<(String, String), String>)
    ensures
        match input_pair(pair@) {
            Ok((k, v)) => r matches Ok((key, value)) && key@ == k && value@ == v,
            Err(e) => r matches Err(m) && m@ == e,
        },
{
    let cs = chars_of(pair);
    let n = cs.len();
    match find_char(cs.as_slice(), '=', 0) {
        None => Err(String::from_str("input must be a key and a value separated by an equal sign")),
        Some(i) => {
            let (ka, kb) = trimmed(cs.as_slice(), 0, i);
            if ka == kb {
                return Err(String::from_str("the key was missing or empty"));
            }
            let (va, vb) = trimmed(cs.as_slice(), i + 1, n);
            Ok((String::from_str(pair.substring_char(ka, kb)), String::from_str(pair.substring_char(va, vb))))
        },
    }
}

/// The number of backslashes that `s` ends with.
pub open spec fn trailing_backslashes(s: Seq<char>) -> nat
    decreases s.len(),
{
    if s.len() > 0 && s.last() == '\\' {
        trailing_backslashes(s.drop_last()) + 1
    } else {
        0
    }
}

/// What goes before the character `c` of a Makefile path, after `k`
/// backslashes: `$` doubles, `:` and `#` take a backslash, and a space or a
/// tab takes one backslash more than precede it.
pub open spec fn make_escape(c: char, k: nat) -> Seq<char> {
    if c == '$' {
        seq!['$']
    } else if c == ':' || c == '#' {
        seq!['\\']
    } else if c == ' ' || c == '\t' {
        Seq::new(k + 1, |i: int| '\\')
    } else {
        Seq::empty()
    }
}

/// A path as a Makefile dependency list writes it.
pub open spec fn make_path(s: Seq<char>) -> Seq<char>
    decreases s.len(),
{
    if s.len() == 0 {
        Seq::empty()
    } else {
        make_path(s.drop_last()) + make_escape(s.last(), trailing_backslashes(s.drop_last())) + seq![s.last()]
    }
}

/// Writes a path for a Makefile dependency list.
pub fn munge_make_path(path: &str) -> (r: String)
    ensures
        r@ == make_path(path@),
{
    let cs = chars_of(path);
    let n = cs.len();
    let mut result = String::new();
    let mut slashes: usize = 0;
    let mut i: usize = 0;
    proof {
        assert(path@.subrange(0, 0) =~= Seq::<char>::empty());
        assert(result@ =~= Seq::<char>::empty());
    }
    while i < n
        invariant
            cs@ == path@,
            n == path@.len(),
            i <= n,
            slashes <= i,
            slashes == trailing_backslashes(path@.subrange(0, i as int)),
            result@ == make_path(path@.subrange(0, i as int)),
        decreases n - i,
    {
        let c = cs[i];
        let ghost before = result@;
        let ghost prefix = path@.subrange(0, i as int);
        let ghost next = path@.subrange(0, i + 1);
        let ghost k0 = slashes;
        proof {
            assert(next.drop_last() =~= prefix);
            assert(next.last() == c);
            assert(c == path@[i as int]);
        }
        if c == '\\' {
            slashes = slashes + 1;
        } else if c == '$' {
            result.append("$");
            slashes = 0;
        } else if c == ':' || c == '#' {
            result.append("\\");
            slashes = 0;
        } else if c == ' ' || c == '\t' {
            let mut k: usize = 0;
            while k <= slashes
                invariant
                    k <= slashes + 1,
                    slashes < n,
                    result@ == before + Seq::new(k as nat, |j: int| '\\'),
                decreases slashes + 1 - k,
            {
                result.append("\\");
                proof {
                    reveal_strlit("\\");
                    assert(result@ =~= before + Seq::new((k + 1) as nat, |j: int| '\\'));
                }
                k = k + 1;
            }
            slashes = 0;
        } else {
            slashes = 0;
        }
        proof {
            reveal_strlit("$");
            reveal_strlit("\\");
            if c == '\\' {
                assert(result@ =~= before + make_escape(c, trailing_backslashes(prefix)));
            } else if c == '$' || c == ':' || c == '#' {
                assert(result@ =~= before + make_escape(c, trailing_backslashes(prefix)));
            } else if c == ' ' || c == '\t' {
                assert(k0 == trailing_backslashes(prefix));
                assert(result@ =~= before + make_escape(c, trailing_backslashes(prefix)));
            } else {
                assert(result@ =~= before + make_escape(c, trailing_backslashes(prefix)));
            }
        }
        result.append(path.substring_char(i, i + 1));
        proof {
            assert(path@.subrange(i as int, i + 1) =~= seq![c]);
            assert(result@ =~= make_path(next));
        }
        i = i + 1;
    }
    proof {
        assert(path@.subrange(0, n as int) =~= path@);
    }
    result
}

/// The texts of paths given as text, with `None` for a path that is not.
pub open spec fn path_texts(paths: Seq<Option<String>>) -> Seq<Option<Seq<char>>> {
    paths.map_values(|p: Option<String>| match p {
        Some(s) => Some(s@),
        None => None::<Seq<char>>,
    })
}

/// Whether a path is `-`, the standard output.
pub open spec fn is_stdout_path(p: Option<Seq<char>>) -> bool {
    p == Some(seq!['-'])
}

/// The targets of a Makefile rule: each output that is text, escaped, with a
/// space before every output but the first given.
pub open spec fn make_targets(outputs: Seq<Option<Seq<char>>>) -> Seq<char>
    decreases outputs.len(),
{
    if outputs.len() == 0 {
        Seq::empty()
    } else {
        make_targets(outputs.drop_last()) + match outputs.last() {
            None => Seq::empty(),
            Some(o) => if outputs.len() == 1 {
                make_path(o)
            } else {
                seq![' '] + make_path(o)
            },
        }
    }
}

/// The prerequisites of a Makefile rule: each input that is text, escaped,
/// after a space.
pub open spec fn make_prerequisites(inputs: Seq<Option<Seq<char>>>) -> Seq<char>
    decreases inputs.len(),
{
    if inputs.len() == 0 {
        Seq::empty()
    } else {
        make_prerequisites(inputs.drop_last()) + match inputs.last() {
            None => Seq::empty(),
            Some(i) => seq![' '] + make_path(i),
        }
    }
}

/// A Makefile rule that makes the outputs depend on the inputs.
pub open spec fn make_dependencies(outputs: Seq<Option<Seq<char>>>, inputs: Seq<Option<Seq<char>>>) -> Seq<char> {
    make_targets(outputs) + seq![':'] + make_prerequisites(inputs) + seq!['\n']
}

/// The refusal of a Makefile rule whose output is the standard output.
pub open spec fn stdout_output_message() -> Seq<char> {
    "make dependencies contain the output path, but the output was stdout"@
}

/// The NUL-separated list of inputs: each input's bytes followed by a zero.
pub open spec fn zero_dependencies(inputs: Seq<Seq<u8>>) -> Seq<u8>
    decreases inputs.len(),
{
    if inputs.len() == 0 {
        Seq::empty()
    } else {
        zero_dependencies(inputs.drop_last()) + inputs.last() + seq![0u8]
    }
}

fn is_stdout_text(s: &str) -> (r: bool)
    ensures
        r == (s@ == seq!['-']),
{
    let cs = chars_of(s);
    let r = cs.len() == 1 && cs[0] == '-';
    proof {
        if r {
            assert(s@ =~= seq!['-']);
        }
        if s@ == seq!['-'] {
            assert(cs@[0] == '-');
        }
    }
    r
}

/// Writes the Makefile rule that makes the outputs depend on the inputs.
/// Paths that are not text are left out; an output that is the standard
/// output is refused.
pub fn make_dependency_text(outputs: &[Option<String>], inputs: &[Option<String>]) -> (r: Result<String, String>)
    ensures
        match r {
            Ok(t) => !(exists|k: int| 0 <= k < outputs@.len() && #[trigger] is_stdout_path(path_texts(outputs@)[k]))
                && t@ == make_dependencies(path_texts(outputs@), path_texts(inputs@)),
            Err(m) => (exists|k: int| 0 <= k < outputs@.len() && #[trigger] is_stdout_path(path_texts(outputs@)[k]))
                && m@ == stdout_output_message(),
        },
{
    let ghost outs = path_texts(outputs@);
    let ghost ins = path_texts(inputs@);
    let mut result = String::new();
    let mut i: usize = 0;
    proof {
        assert(outs.subrange(0, 0) =~= Seq::<Option<Seq<char>>>::empty());
        assert(result@ =~= Seq::<char>::empty());
    }
    while i < outputs.len()
        invariant
            i <= outputs@.len(),
            outs == path_texts(outputs@),
            outs.len() == outputs@.len(),
            forall|k: int| 0 <= k < i ==> !#[trigger] is_stdout_path(outs[k]),
            result@ == make_targets(outs.subrange(0, i as int)),
        decreases outputs.len() - i,
    {
        let ghost before = result@;
        proof {
            assert(outs.subrange(0, i + 1).drop_last() =~= outs.subrange(0, i as int));
            assert(outs.subrange(0, i + 1).last() == outs[i as int]);
        }
        match &outputs[i] {
            Some(o) => {
                if is_stdout_text(o.as_str()) {
                    proof {
                        assert(is_stdout_path(outs[i as int]));
                        reveal_strlit("make dependencies contain the output path, but the output was stdout");
                    }
                    return Err(String::from_str("make dependencies contain the output path, but the output was stdout"));
                }
                if i != 0 {
                    result.append(" ");
                }
                let escaped = munge_make_path(o.as_str());
                result.append(escaped.as_str());
                proof {
                    reveal_strlit(" ");
                    assert(outs[i as int] == Some(o@));
                    if i != 0 {
                        assert(result@ =~= before + (seq![' '] + make_path(o@)));
                    } else {
                        assert(result@ =~= before + make_path(o@));
                    }
                }
            },
            None => {
                proof {
                    assert(outs[i as int] is None);
                    assert(result@ =~= before + Seq::<char>::empty());
                }
            },
        }
        i = i + 1;
    }
    proof {
        assert(outs.subrange(0, outputs@.len() as int) =~= outs);
    }
    result.append(":");
    let ghost targets = result@;
    proof {
        reveal_strlit(":");
        assert(ins.subrange(0, 0) =~= Seq::<Option<Seq<char>>>::empty());
        assert(result@ =~= make_targets(outs) + seq![':'] + make_prerequisites(ins.subrange(0, 0)));
    }
    let mut j: usize = 0;
    while j < inputs.len()
        invariant
            j <= inputs@.len(),
            ins == path_texts(inputs@),
            ins.len() == inputs@.len(),
            targets == make_targets(outs) + seq![':'],
            result@ == targets + make_prerequisites(ins.subrange(0, j as int)),
        decreases inputs.len() - j,
    {
        let ghost before = result@;
        proof {
            assert(ins.subrange(0, j + 1).drop_last() =~= ins.subrange(0, j as int));
            assert(ins.subrange(0, j + 1).last() == ins[j as int]);
        }
        match &inputs[j] {
            Some(p) => {
                result.append(" ");
                let escaped = munge_make_path(p.as_str());
                result.append(escaped.as_str());
                proof {
                    reveal_strlit(" ");
                    assert(ins[j as int] == Some(p@));
                    assert(result@ =~= targets + (make_prerequisites(ins.subrange(0, j as int)) + (seq![' '] + make_path(p@))));
                }
            },
            None => {
                proof {
                    assert(ins[j as int] is None);
                }
            },
        }
        j = j + 1;
    }
    result.append("\n");
    proof {
        reveal_strlit("\n");
        assert(ins.subrange(0, inputs@.len() as int) =~= ins);
        assert(result@ =~= make_dependencies(outs, ins));
    }
    Ok(result)
}

/// Writes the NUL-separated list of inputs: each input's bytes followed by a
/// zero byte.
pub fn zero_dependency_bytes(inputs: &[Vec<u8>]) -> (r: Vec<u8>)
    ensures
        r@ == zero_dependencies(inputs@.map_values(|v: Vec<u8>| v@)),
{
    let ghost ins = inputs@.map_values(|v: Vec<u8>| v@);
    let mut out: Vec<u8> = Vec::new();
    let mut i: usize = 0;
    proof {
        assert(ins.subrange(0, 0) =~= Seq::<Seq<u8>>::empty());
    }
    while i < inputs.len()
        invariant
            i <= inputs@.len(),
            ins == inputs@.map_values(|v: Vec<u8>| v@),
            out@ == zero_dependencies(ins.subrange(0, i as int)),
        decreases inputs.len() - i,
    {
        let ghost before = out@;
        let item = &inputs[i];
        let mut k: usize = 0;
        while k < item.len()
            invariant
                k <= item@.len(),
                out@ == before + item@.subrange(0, k as int),
            decreases item.len() - k,
        {
            out.push(item[k]);
            proof {
                assert(item@.subrange(0, k + 1) =~= item@.subrange(0, k as int).push(item@[k as int]));
            }
            k = k + 1;
        }
        out.push(0u8);
        proof {
            assert(ins.subrange(0, i + 1).drop_last() =~= ins.subrange(0, i as int));
            assert(ins[i as int] == item@);
            assert(item@.subrange(0, item@.len() as int) =~= item@);
            assert(out@ =~= zero_dependencies(ins.subrange(0, i + 1)));
        }
        i = i + 1;
    }
    proof {
        assert(ins.subrange(0, inputs@.len() as int) =~= ins);
    }
    out
}

/// The last piece of a path that names something: not empty and not `.`.
pub open spec fn last_named_piece(pieces: Seq<Seq<char>>) -> Option<Seq<char>>
    decreases pieces.len(),
{
    if pieces.len() == 0 {
        None
    } else if pieces.last().len() == 0 || pieces.last() == seq!['.'] {
        last_named_piece(pieces.drop_last())
    } else {
        Some(pieces.last())
    }
}

/// The final component of a Unix path, as `Path::file_name` gives it: none
/// for a path that ends in `..` or names no component.
pub open spec fn path_file_name(p: Seq<char>) -> Option<Seq<char>> {
    match last_named_piece(split_on(p, '/')) {
        Some(q) => if q == seq!['.', '.'] {
            None
        } else {
            Some(q)
        },
        None => None,
    }
}

/// The extension of a file name, as `Path::extension` gives it: what follows
/// the last `.`, unless there is none or it is the first character.
pub open spec fn name_extension(name: Seq<char>) -> Option<Seq<char>> {
    match crate::text::last_index_of(name, '.') {
        Some(k) => if k == 0 {
            None
        } else {
            Some(name.subrange(k + 1, name.len() as int))
        },
        None => None,
    }
}

pub open spec fn unknown_extension_message(ext: Seq<char>) -> Seq<char> {
    "cannot infer output format from extension `"@ + ext + "`; pass --format"@
}

pub open spec fn no_extension_message() -> Seq<char> {
    "cannot infer output format; pass --format"@
}

/// The output format a compile command uses: the one asked for; else, for an
/// output file other than `-`, the one its extension names in any ASCII case;
/// else PDF.
pub open spec fn inferred_format(format: Option<OutputFormat>, output: Option<Seq<char>>) -> Result<OutputFormat, Seq<char>> {
    match format {
        Some(f) => Ok(f),
        None => match output {
            Some(path) => if path == seq!['-'] {
                Ok(OutputFormat::Pdf)
            } else {
                match path_file_name(path) {
                    Some(name) => match name_extension(name) {
                        Some(ext) => if upper_reads(ext, seq!['P', 'N', 'G']) {
                            Ok(OutputFormat::Png)
                        } else if upper_reads(ext, seq!['S', 'V', 'G']) {
                            Ok(OutputFormat::Svg)
                        } else if upper_reads(ext, seq!['P', 'D', 'F']) {
                            Ok(OutputFormat::Pdf)
                        } else if upper_reads(ext, seq!['H', 'T', 'M', 'L']) {
                            Ok(OutputFormat::Html)
                        } else {
                            Err(unknown_extension_message(ext))
                        },
                        None => Err(no_extension_message()),
                    },
                    None => Err(no_extension_message()),
                }
            },
            None => Ok(OutputFormat::Pdf),
        },
    }
}

/// Whether `s[a..b]` reads `word` when put in ASCII upper case.
fn reads_upper(s: &[char], a: usize, b: usize, word: &[char]) -> (r: bool)
    requires
        a <= b <= s@.len(),
    ensures
        r == upper_reads(s@.subrange(a as int, b as int), word@),
{
    if b - a != word.len() {
        return false;
    }
    let mut i: usize = 0;
    while i < word.len()
        invariant
            a <= b <= s@.len(),
            b - a == word@.len(),
            i <= word@.len(),
            forall|j: int| 0 <= j < i ==> ascii_upper(#[trigger] s@[a + j]) == word@[j],
        decreases word@.len() - i,
    {
        if crate::preflight::upper_char(s[a + i]) != word[i] {
            proof {
                let t = s@.subrange(a as int, b as int);
                assert(t[i as int] == s@[a + i]);
            }
            return false;
        }
        i = i + 1;
    }
    proof {
        let t = s@.subrange(a as int, b as int);
        assert forall|j: int| 0 <= j < t.len() implies ascii_upper(#[trigger] t[j]) == word@[j] by {
            assert(t[j] == s@[a + j]);
        }
    }
    true
}

proof fn lemma_last_named_step(ps: Seq<Seq<char>>, k: int)
    requires
        0 < k <= ps.len(),
    ensures
        ps.subrange(0, k).drop_last() == ps.subrange(0, k - 1),
        ps.subrange(0, k).last() == ps[k - 1],
{
    assert(ps.subrange(0, k).drop_last() =~= ps.subrange(0, k - 1));
}

/// The bounds in `cs` of the file name of the path `cs`.
#[verifier::spinoff_prover]
fn file_name_bounds(cs: &[char]) -> (r: Option<(usize, usize)>)
    ensures
        match path_file_name(cs@) {
            Some(name) => r matches Some((a, b)) && a <= b <= cs@.len() && cs@.subrange(a as int, b as int) == name,
            None => r is None,
        },
{
    let n = cs.len();
    let bounds = split_bounds(cs, 0, n, '/');
    let ghost ps = split_on(cs@, '/');
    proof {
        assert(cs@.subrange(0, n as int) =~= cs@);
        assert(pieces(cs@, bounds@) == ps);
        assert(pieces(cs@, bounds@).len() == bounds@.len());
        assert(ps.subrange(0, ps.len() as int) =~= ps);
    }
    let mut k = bounds.len();
    let mut found: Option<(usize, usize)> = None;
    while k > 0
        invariant_except_break
            found is None,
        invariant
            k <= bounds@.len(),
            ps.len() == bounds@.len(),
            pieces(cs@, bounds@) == ps,
            bounds_within(bounds@, 0, n as int),
            n == cs@.len(),
            last_named_piece(ps) == last_named_piece(ps.subrange(0, k as int)),
        ensures
            match found {
                Some((a, b)) => a <= b <= n && last_named_piece(ps) == Some(cs@.subrange(a as int, b as int)),
                None => last_named_piece(ps) is None,
            },
        decreases k,
    {
        let (a, b) = bounds[k - 1];
        proof {
            lemma_last_named_step(ps, k as int);
            assert(ps[k - 1] == cs@.subrange(a as int, b as int));
        }
        let dot = b - a == 1 && cs[a] == '.';
        proof {
            let q = cs@.subrange(a as int, b as int);
            if dot {
                assert(q =~= seq!['.']);
            }
            if q == seq!['.'] {
                assert(q.len() == 1 && q[0] == cs@[a as int]);
            }
        }
        if a < b && !dot {
            found = Some((a, b));
            break;
        }
        k = k - 1;
    }
    proof {
        if k == 0 && found is None {
            assert(ps.subrange(0, 0) =~= Seq::<Seq<char>>::empty());
        }
    }
    let (a, b) = match found {
        Some(x) => x,
        None => {
            return None;
        },
    };
    let ghost name = cs@.subrange(a as int, b as int);
    if b - a == 2 && cs[a] == '.' && cs[a + 1] == '.' {
        proof {
            assert(name =~= seq!['.', '.']);
        }
        return None;
    }
    proof {
        if name == seq!['.', '.'] {
            assert(name.len() == 2);
            assert(b - a == 2);
            assert(name[0] == cs@[a as int]);
            assert(name[1] == cs@[a + 1]);
        }
    }
    Some((a, b))
}

/// The start in `cs` of the extension of the file name `cs[a..b]`.
fn extension_start(cs: &[char], a: usize, b: usize) -> (r: Option<usize>)
    requires
        a <= b <= cs@.len(),
    ensures
        match name_extension(cs@.subrange(a as int, b as int)) {
            Some(ext) => r matches Some(d) && a <= d <= b && cs@.subrange(d as int, b as int) == ext,
            None => r is None,
        },
        r matches Some(d) ==> a + 1 < d && crate::text::last_index_of(cs@.subrange(a as int, b as int), '.')
            == Some(d - 1 - a),
{
    let ghost name = cs@.subrange(a as int, b as int);
    let mut d = b;
    while d > a && cs[d - 1] != '.'
        invariant
            a <= d <= b <= cs@.len(),
            name == cs@.subrange(a as int, b as int),
            forall|j: int| d <= j < b ==> cs@[j] != '.',
        decreases d - a,
    {
        d = d - 1;
    }
    proof {
        if d > a {
            let k = d - 1 - a;
            assert(name[k] == '.');
            assert forall|j: int| k < j < name.len() implies name[j] != '.' by {
                assert(name[j] == cs@[a + j]);
            }
            let w = choose|i: int| 0 <= i < name.len() && name[i] == '.' && (forall|j: int| i < j < name.len() ==> name[j] != '.');
            assert(0 <= w < name.len() && name[w] == '.' && (forall|j: int| w < j < name.len() ==> name[j] != '.'));
            if w < k {
                assert(name[k] != '.');
            }
            assert(crate::text::last_index_of(name, '.') == Some(k));
            assert(name.subrange(k + 1, name.len() as int) =~= cs@.subrange(d as int, b as int));
        } else {
            assert forall|j: int| 0 <= j < name.len() implies name[j] != '.' by {
                assert(name[j] == cs@[a + j]);
            }
            assert(crate::text::last_index_of(name, '.') is None);
        }
    }
    if d == a || d - 1 == a {
        None
    } else {
        Some(d)
    }
}

/// The output format a compile command uses; see `inferred_format`.
pub fn infer_output_format(format: Option<OutputFormat>, output: Option<&str>) -> (r: Result<OutputFormat, String>)
    ensures
        match inferred_format(
            format,
            match output {
                Some(p) => Some(p@),
                None => None,
            },
        ) {
            Ok(f) => r == Ok::<OutputFormat, String>(f),
            Err(m) => r matches Err(e) && e@ == m,
        },
{
    if let Some(f) = format {
        return Ok(f);
    }
    let path = match output {
        Some(p) => p,
        None => {
            return Ok(OutputFormat::Pdf);
        },
    };
    let cs = chars_of(path);
    if cs.len() == 1 && cs[0] == '-' {
        proof {
            assert(path@ =~= seq!['-']);
        }
        return Ok(OutputFormat::Pdf);
    }
    proof {
        if path@ == seq!['-'] {
            assert(path@.len() == 1 && path@[0] == '-');
        }
    }
    let (a, b) = match file_name_bounds(cs.as_slice()) {
        Some(x) => x,
        None => {
            return Err(String::from_str("cannot infer output format; pass --format"));
        },
    };
    let d = match extension_start(cs.as_slice(), a, b) {
        Some(d) => d,
        None => {
            return Err(String::from_str("cannot infer output format; pass --format"));
        },
    };
    let png: [char; 3] = ['P', 'N', 'G'];
    let svg: [char; 3] = ['S', 'V', 'G'];
    let pdf: [char; 3] = ['P', 'D', 'F'];
    let html: [char; 4] = ['H', 'T', 'M', 'L'];
    proof {
        assert(png@ =~= seq!['P', 'N', 'G']);
        assert(svg@ =~= seq!['S', 'V', 'G']);
        assert(pdf@ =~= seq!['P', 'D', 'F']);
        assert(html@ =~= seq!['H', 'T', 'M', 'L']);
    }
    if reads_upper(cs.as_slice(), d, b, png.as_slice()) {
        Ok(OutputFormat::Png)
    } else if reads_upper(cs.as_slice(), d, b, svg.as_slice()) {
        Ok(OutputFormat::Svg)
    } else if reads_upper(cs.as_slice(), d, b, pdf.as_slice()) {
        Ok(OutputFormat::Pdf)
    } else if reads_upper(cs.as_slice(), d, b, html.as_slice()) {
        Ok(OutputFormat::Html)
    } else {
        let mut m = String::from_str("cannot infer output format from extension `");
        m.append(path.substring_char(d, b));
        m.append("`; pass --format");
        Err(m)
    }
}

/// How a compile command refuses to disable PDF tags for a standard that
/// requires them: the message, and the hint that a page selection disables
/// tags when it was the page selection that did.
pub open spec fn pdf_tag_refusal(no_pdf_tags: bool, pages_selected: bool, standards: Seq<PdfStandard>) -> Option<
    (Seq<char>, Seq<Seq<char>>),
> {
    if no_pdf_tags || pages_selected {
        match first_tag_requiring(standards) {
            Some(name) => Some(
                (
                    "cannot disable PDF tags when exporting a "@ + name + " document"@,
                    if no_pdf_tags {
                        Seq::empty()
                    } else {
                        seq!["using --pages implies --no-pdf-tags"@]
                    },
                ),
            ),
            None => None,
        }
    } else {
        None
    }
}

/// Disabling tags, or selecting pages (which implies it), is refused exactly
/// when one of the standards is an accessible conformance level (PDF/A-1a,
/// PDF/A-2a, PDF/A-3a) or PDF/UA-1.
pub proof fn lemma_tag_conflict_standards(no_pdf_tags: bool, pages_selected: bool, standards: Seq<PdfStandard>)
    ensures
        pdf_tag_refusal(no_pdf_tags, pages_selected, standards) is Some <==> (no_pdf_tags || pages_selected) && exists|i: int|
            0 <= i < standards.len() && (#[trigger] standards[i] == PdfStandard::PdfA1A || standards[i]
                == PdfStandard::PdfA2A || standards[i] == PdfStandard::PdfA3A || standards[i] == PdfStandard::PdfUa1),
{
    crate::compilation::lemma_tagged_standards(standards);
}

/// Refuses a compile command that would disable PDF tags for a standard that
/// requires them; see `pdf_tag_refusal`.
pub fn pdf_tag_conflict(no_pdf_tags: bool, pages_selected: bool, standards: &[PdfStandard]) -> (r: Option<
    (String, Vec<String>),
>)
    ensures
        match pdf_tag_refusal(no_pdf_tags, pages_selected, standards@) {
            Some((m, hints)) => r matches Some((message, h)) && message@ == m && h@.map_values(|x: String| x@) == hints,
            None => r is None,
        },
{
    if !(no_pdf_tags || pages_selected) {
        return None;
    }
    let name = match pdf_standard_requiring_tags(standards) {
        Some(n) => n,
        None => {
            return None;
        },
    };
    let mut message = String::from_str("cannot disable PDF tags when exporting a ");
    message.append(name);
    message.append(" document");
    let mut hints: Vec<String> = Vec::new();
    if !no_pdf_tags {
        hints.push(String::from_str("using --pages implies --no-pdf-tags"));
    }
    proof {
        if no_pdf_tags {
            assert(hints@.map_values(|x: String| x@) =~= Seq::<Seq<char>>::empty());
        } else {
            assert(hints@.map_values(|x: String| x@) =~= seq!["using --pages implies --no-pdf-tags"@]);
        }
    }
    Some((message, hints))
}

/// The stem of a file name, as `Path::file_stem` gives it: what precedes the
/// last `.`, or the whole name when there is no `.` or only a leading one.
pub open spec fn name_stem(name: Seq<char>) -> Seq<char> {
    match crate::text::last_index_of(name, '.') {
        Some(k) => if k == 0 {
            name
        } else {
            name.subrange(0, k)
        },
        None => name,
    }
}

/// Where an extraction writes when no directory is given: the stem of the
/// pack's file name, or `extracted` when the path names no file.
pub open spec fn default_extraction_dir(pack: Seq<char>) -> Seq<char> {
    match path_file_name(pack) {
        Some(name) => name_stem(name),
        None => "extracted"@,
    }
}

/// Where an extraction writes when no directory is given; see
/// `default_extraction_dir`.
pub fn default_output_dir(pack: &str) -> (r: String)
    ensures
        r@ == default_extraction_dir(pack@),
{
    let cs = chars_of(pack);
    match file_name_bounds(cs.as_slice()) {
        None => String::from_str("extracted"),
        Some((a, b)) => {
            let ghost name = cs@.subrange(a as int, b as int);
            let end = match extension_start(cs.as_slice(), a, b) {
                Some(d) => d - 1,
                None => b,
            };
            proof {
                let li = crate::text::last_index_of(name, '.');
                if let Some(k) = li {
                    if k != 0 {
                        assert(name.subrange(0, k) =~= cs@.subrange(a as int, end as int));
                    }
                }
            }
            String::from_str(pack.substring_char(a, end))
        },
    }
}


/// The refusal of a pack read from the standard input without an output.
pub open spec fn stdin_pack_message() -> Seq<char> {
    "an explicit output is required when the Pack is read from stdin"@
}

/// Refuses a pack read from the standard input (`-`) when no output is
/// given, since no output name can be derived from it.
pub fn stdin_pack_error(pack: &str, output_given: bool) -> (r: Option<String>)
    ensures
        r is Some <==> (pack@ == seq!['-'] && !output_given),
        r matches Some(m) ==> m@ == stdin_pack_message(),
{
    if is_stdout_text(pack) && !output_given {
        proof {
            reveal_strlit("an explicit output is required when the Pack is read from stdin");
        }
        Some(String::from_str("an explicit output is required when the Pack is read from stdin"))
    } else {
        None
    }
}

/// The refusal of an output and a dependency list that both go to the
/// standard output.
pub open spec fn stdout_conflict_message() -> Seq<char> {
    "cannot write both output and dependencies to stdout"@
}

/// The text of a path given as text, if any.
pub open spec fn path_text(p: Option<&str>) -> Option<Seq<char>> {
    match p {
        Some(s) => Some(s@),
        None => None,
    }
}

/// Refuses writing both the output and the dependency list to the standard
/// output (`-`).
pub fn stdout_conflict_error(output: Option<&str>, deps: Option<&str>) -> (r: Option<String>)
    ensures
        r is Some <==> is_stdout_path(path_text(output)) && is_stdout_path(path_text(deps)),
        r matches Some(m) ==> m@ == stdout_conflict_message(),
{
    let to_stdout = match (output, deps) {
        (Some(o), Some(d)) => is_stdout_text(o) && is_stdout_text(d),
        _ => false,
    };
    if to_stdout {
        proof {
            reveal_strlit("cannot write both output and dependencies to stdout");
        }
        Some(String::from_str("cannot write both output and dependencies to stdout"))
    } else {
        None
    }
}

/// The refusal of several artifacts for the standard output.
pub open spec fn stdout_single_artifact_message() -> Seq<char> {
    "cannot write output to stdout unless exactly one file is emitted"@
}

/// Whether the output targets include the standard output (`-`), refusing
/// that unless exactly one artifact is emitted.
pub fn stdout_target(targets: &[String], artifact_count: usize) -> (r: Result<bool, String>)
    ensures
        match r {
            Ok(b) => b == (exists|k: int| 0 <= k < targets@.len() && #[trigger] targets@[k]@ == seq!['-'])
                && (b ==> artifact_count == 1),
            Err(m) => (exists|k: int| 0 <= k < targets@.len() && #[trigger] targets@[k]@ == seq!['-'])
                && artifact_count != 1 && m@ == stdout_single_artifact_message(),
        },
{
    let mut i: usize = 0;
    let mut found = false;
    while i < targets.len()
        invariant
            i <= targets@.len(),
            found == (exists|k: int| 0 <= k < i && #[trigger] targets@[k]@ == seq!['-']),
        decreases targets.len() - i,
    {
        if is_stdout_text(targets[i].as_str()) {
            found = true;
        }
        proof {
            if targets@[i as int]@ == seq!['-'] {
                assert(0 <= i < i + 1);
            }
            if found {
                let k = choose|k: int| 0 <= k < i + 1 && #[trigger] targets@[k]@ == seq!['-'];
                assert(0 <= k < i + 1);
            }
        }
        i = i + 1;
    }
    if found && artifact_count != 1 {
        proof {
            reveal_strlit("cannot write output to stdout unless exactly one file is emitted");
        }
        Err(String::from_str("cannot write output to stdout unless exactly one file is emitted"))
    } else {
        Ok(found)
    }
}

/// The most export workers the first-party compilation profile runs.
pub const REFERENCE_EXPORT_WORKERS: u64 = 4;

/// The export workers the command line asks for: the machine's count,
/// at least one and at most `REFERENCE_EXPORT_WORKERS`.
pub fn reference_export_workers(worker_count: usize) -> (r: u64)
    ensures
        r == if worker_count < 1 {
            1
        } else if worker_count > REFERENCE_EXPORT_WORKERS {
            REFERENCE_EXPORT_WORKERS as int
        } else {
            worker_count as int
        },
{
    if worker_count < 1 {
        1
    } else if worker_count as u64 > REFERENCE_EXPORT_WORKERS {
        REFERENCE_EXPORT_WORKERS
    } else {
        worker_count as u64
    }
}

/// The components of a path after adding component `c`, as output paths are
/// compared: empty and `.` components are dropped, and `..` removes the name
/// before it; a `..` with no name before it stays in a relative path and is
/// dropped at the root.
pub open spec fn push_component(acc: Seq<Seq<char>>, c: Seq<char>, root: bool) -> Seq<Seq<char>> {
    if c.len() == 0 || c == seq!['.'] {
        acc
    } else if c == seq!['.', '.'] {
        if acc.len() > 0 && acc.last() != seq!['.', '.'] {
            acc.drop_last()
        } else if !root {
            acc.push(c)
        } else {
            acc
        }
    } else {
        acc.push(c)
    }
}

/// The components of `p[a..]` added, one by one, to `acc`.
#[verifier::opaque]
pub open spec fn normalized_from(p: Seq<char>, a: int, acc: Seq<Seq<char>>, root: bool) -> Seq<Seq<char>>
    decreases p.len() - a,
{
    if a < 0 || a > p.len() {
        acc
    } else {
        match first_index_of(p, '/', a) {
            None => push_component(acc, p.subrange(a, p.len() as int), root),
            Some(k) => if a <= k < p.len() {
                normalized_from(p, k + 1, push_component(acc, p.subrange(a, k), root), root)
            } else {
                acc
            },
        }
    }
}

/// An output path as it is compared with the others: whether it starts at
/// the root, and its components after dropping `.` and resolving `..`.
pub open spec fn normalized_path(p: Seq<char>) -> (bool, Seq<Seq<char>>) {
    let root = p.len() > 0 && p[0] == '/';
    (root, normalized_from(p, 0, Seq::empty(), root))
}

proof fn lemma_normalized_step(p: Seq<char>, a: int, k: int, acc: Seq<Seq<char>>, root: bool)
    requires
        0 <= a <= k < p.len(),
        first_index_of(p, '/', a) == Some(k),
    ensures
        normalized_from(p, a, acc, root) == normalized_from(p, k + 1, push_component(acc, p.subrange(a, k), root), root),
{
    reveal(normalized_from);
}

proof fn lemma_normalized_last(p: Seq<char>, a: int, acc: Seq<Seq<char>>, root: bool)
    requires
        0 <= a <= p.len(),
        first_index_of(p, '/', a) is None,
    ensures
        normalized_from(p, a, acc, root) == push_component(acc, p.subrange(a, p.len() as int), root),
{
    reveal(normalized_from);
}

/// The views of a list of component vectors.
pub open spec fn component_views(v: Seq<Vec<char>>) -> Seq<Seq<char>> {
    v.map_values(|c: Vec<char>| c@)
}

fn chars_between(cs: &[char], a: usize, b: usize) -> (r: Vec<char>)
    requires
        a <= b <= cs@.len(),
    ensures
        r@ == cs@.subrange(a as int, b as int),
{
    let mut r: Vec<char> = Vec::new();
    let mut k = a;
    while k < b
        invariant
            a <= k <= b <= cs@.len(),
            r@ == cs@.subrange(a as int, k as int),
        decreases b - k,
    {
        r.push(cs[k]);
        proof {
            assert(cs@.subrange(a as int, k + 1) =~= cs@.subrange(a as int, k as int).push(cs@[k as int]));
        }
        k = k + 1;
    }
    r
}

fn is_dot_dot(c: &Vec<char>) -> (r: bool)
    ensures
        r == (c@ == seq!['.', '.']),
{
    let r = c.len() == 2 && c[0] == '.' && c[1] == '.';
    proof {
        if r {
            assert(c@ =~= seq!['.', '.']);
        }
    }
    r
}

fn push_component_exec(acc: &mut Vec<Vec<char>>, c: Vec<char>, root: bool)
    ensures
        component_views(final(acc)@) == push_component(component_views(old(acc)@), c@, root),
{
    let ghost before = component_views(acc@);
    let dot = c.len() == 1 && c[0] == '.';
    proof {
        if dot {
            assert(c@ =~= seq!['.']);
        }
        if c@ == seq!['.'] {
            assert(c@[0] == '.');
        }
    }
    if c.len() == 0 || dot {
        return;
    }
    if is_dot_dot(&c) {
        if acc.len() > 0 && !is_dot_dot(&acc[acc.len() - 1]) {
            acc.pop();
            proof {
                assert(component_views(acc@) =~= before.drop_last());
            }
        } else if !root {
            acc.push(c);
            proof {
                assert(component_views(acc@) =~= before.push(c@));
            }
        }
    } else {
        acc.push(c);
        proof {
            assert(component_views(acc@) =~= before.push(c@));
        }
    }
}

/// Normalizes an output path for comparison; see `normalized_path`.
fn normalize_path(p: &str) -> (r: (bool, Vec<Vec<char>>))
    ensures
        (r.0, component_views(r.1@)) == normalized_path(p@),
{
    let cs = chars_of(p);
    let n = cs.len();
    let root = n > 0 && cs[0] == '/';
    let mut acc: Vec<Vec<char>> = Vec::new();
    let mut a: usize = 0;
    proof {
        assert(component_views(acc@) =~= Seq::<Seq<char>>::empty());
    }
    loop
        invariant
            cs@ == p@,
            n == p@.len(),
            a <= n,
            root == (p@.len() > 0 && p@[0] == '/'),
            normalized_from(p@, a as int, component_views(acc@), root) == normalized_path(p@).1,
        decreases n - a,
    {
        match find_char(cs.as_slice(), '/', a) {
            None => {
                proof {
                    lemma_normalized_last(p@, a as int, component_views(acc@), root);
                    assert(cs@.subrange(a as int, n as int) == p@.subrange(a as int, p@.len() as int));
                }
                let c = chars_between(cs.as_slice(), a, n);
                push_component_exec(&mut acc, c, root);
                return (root, acc);
            },
            Some(k) => {
                proof {
                    lemma_normalized_step(p@, a as int, k as int, component_views(acc@), root);
                }
                let c = chars_between(cs.as_slice(), a, k);
                push_component_exec(&mut acc, c, root);
                a = k + 1;
            },
        }
    }
}

fn same_components(a: &Vec<Vec<char>>, b: &Vec<Vec<char>>) -> (r: bool)
    ensures
        r == (component_views(a@) == component_views(b@)),
{
    if a.len() != b.len() {
        proof {
            assert(component_views(a@).len() != component_views(b@).len());
        }
        return false;
    }
    let mut i: usize = 0;
    while i < a.len()
        invariant
            i <= a@.len(),
            a@.len() == b@.len(),
            forall|j: int| 0 <= j < i ==> a@[j]@ == b@[j]@,
        decreases a.len() - i,
    {
        if crate::order::compare_text(a[i].as_slice(), b[i].as_slice()) != 0 {
            proof {
                assert(component_views(a@)[i as int] != component_views(b@)[i as int]);
            }
            return false;
        }
        i = i + 1;
    }
    proof {
        assert(component_views(a@) =~= component_views(b@));
    }
    true
}

/// Whether output targets `i` and `j`, `i` before `j`, name the same path.
pub open spec fn targets_collide(targets: Seq<String>, i: int, j: int) -> bool {
    0 <= i < j < targets.len() && normalized_path(targets[i]@) == normalized_path(targets[j]@)
}

/// The first output target that names the same path as an earlier one, if
/// any.
pub fn duplicate_output_target(targets: &[String]) -> (r: Option<usize>)
    ensures
        match r {
            Some(j) => j < targets@.len() && (exists|i: int| #[trigger] targets_collide(targets@, i, j as int))
                && forall|i: int, j2: int| j2 < j ==> !#[trigger] targets_collide(targets@, i, j2),
            None => forall|i: int, j: int| !#[trigger] targets_collide(targets@, i, j),
        },
{
    let mut seen: Vec<(bool, Vec<Vec<char>>)> = Vec::new();
    let mut j: usize = 0;
    while j < targets.len()
        invariant
            j <= targets@.len(),
            seen@.len() == j,
            forall|k: int| 0 <= k < j ==> (#[trigger] seen@[k].0, component_views(seen@[k].1@)) == normalized_path(
                targets@[k]@,
            ),
            forall|i: int, j2: int| j2 < j ==> !#[trigger] targets_collide(targets@, i, j2),
        decreases targets.len() - j,
    {
        let key = normalize_path(targets[j].as_str());
        let mut i: usize = 0;
        while i < j
            invariant
                i <= j < targets@.len(),
                seen@.len() == j,
                forall|k: int| 0 <= k < j ==> (#[trigger] seen@[k].0, component_views(seen@[k].1@)) == normalized_path(
                    targets@[k]@,
                ),
                (key.0, component_views(key.1@)) == normalized_path(targets@[j as int]@),
                forall|i2: int| 0 <= i2 < i ==> !#[trigger] targets_collide(targets@, i2, j as int),
                forall|i2: int, j2: int| j2 < j ==> !#[trigger] targets_collide(targets@, i2, j2),
            decreases j - i,
        {
            if seen[i].0 == key.0 && same_components(&seen[i].1, &key.1) {
                proof {
                    assert(seen@[i as int].0 == seen[i as int].0);
                    assert(targets_collide(targets@, i as int, j as int));
                }
                return Some(j);
            }
            proof {
                assert(seen@[i as int].0 == seen[i as int].0);
                assert(!targets_collide(targets@, i as int, j as int));
            }
            i = i + 1;
        }
        seen.push(key);
        proof {
            assert forall|i2: int, j2: int| j2 < j + 1 implies !#[trigger] targets_collide(targets@, i2, j2) by {
                if j2 == j && targets_collide(targets@, i2, j2) {
                    assert(0 <= i2 < i);
                }
            }
        }
        j = j + 1;
    }
    None
}

/// The refusal of two artifacts for one output path.
pub fn duplicate_target_message(target: &str) -> (r: String)
    ensures
        r@ == "multiple artifacts expand to the same output path `"@ + target@ + "`"@,
{
    let mut m = String::from_str("multiple artifacts expand to the same output path `");
    m.append(target);
    m.append("`");
    m
}
} // verus!
