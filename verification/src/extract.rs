//! Options and reports of extracting a pack into a directory, and the list
//! form in which several issues are shown in one message.

use vstd::prelude::*;
use vstd::string::StringExecFns;
use crate::publication::{FilesystemMergePolicy, FilesystemPublicationPreflightIssue};

verus! {

/// What an extraction writes besides the project files, and whether it may
/// overwrite.
#[derive(Clone, Copy, Debug, Default, PartialEq, Eq, Structural)]
pub struct ExtractOptions {
    /// Also write vendored packages under `packages/`.
    pub packages: bool,
    /// Also write embedded fonts under `fonts/`.
    pub fonts: bool,
    /// Replace existing files.
    pub force: bool,
}

impl ExtractOptions {
    /// The merge policy an extraction publishes under: replacing existing
    /// files only when forced.
    pub fn merge_policy(&self) -> (r: FilesystemMergePolicy)
        ensures
            r == if self.force {
                FilesystemMergePolicy::MergeReplaceExactFiles
            } else {
                FilesystemMergePolicy::MergeCreateOnly
            },
    {
        if self.force {
            FilesystemMergePolicy::MergeReplaceExactFiles
        } else {
            FilesystemMergePolicy::MergeCreateOnly
        }
    }
}

/// What an extraction wrote, relative to the target directory.
#[derive(Clone, Debug, Default)]
pub struct ExtractReport {
    pub written: Vec<String>,
}

/// The issues, each after `": "`, one after another.
pub open spec fn error_list(issues: Seq<Seq<char>>) -> Seq<char>
    decreases issues.len(),
{
    if issues.len() == 0 {
        Seq::empty()
    } else {
        error_list(issues.drop_last()) + ": "@ + issues.last()
    }
}

/// Renders issues as a list to follow a summary: each issue after `": "`.
pub fn format_error_list(issues: &[String]) -> (r: String)
    ensures
        r@ == error_list(issues@.map_values(|s: String| s@)),
{
    let ghost views = issues@.map_values(|s: String| s@);
    let mut rendered = String::new();
    let mut i: usize = 0;
    proof {
        reveal_strlit(": ");
        assert(views.subrange(0, 0) =~= Seq::empty());
    }
    while i < issues.len()
        invariant
            i <= issues@.len(),
            views == issues@.map_values(|s: String| s@),
            rendered@ == error_list(views.subrange(0, i as int)),
        decreases issues@.len() - i,
    {
        rendered.append(": ");
        rendered.append(issues[i].as_str());
        proof {
            reveal_strlit(": ");
            assert(views.subrange(0, i + 1).drop_last() =~= views.subrange(0, i as int));
            assert(rendered@ =~= error_list(views.subrange(0, i + 1)));
        }
        i = i + 1;
    }
    proof {
        assert(views.subrange(0, i as int) =~= views);
    }
    rendered
}

/// `relative` placed under `destination` as `Path::join` writes it on Unix:
/// an absolute `relative` replaces the destination; otherwise a separator
/// goes between them unless the destination is empty or ends with one.
pub open spec fn joined_path(destination: Seq<char>, relative: Seq<char>) -> Seq<char> {
    if relative.len() > 0 && relative[0] == '/' {
        relative
    } else if destination.len() == 0 {
        relative
    } else if destination.last() == '/' {
        destination + relative
    } else {
        destination + seq!['/'] + relative
    }
}

/// What an extraction that stopped at preflight says of its first issue,
/// when that issue is an entry in the way.
pub open spec fn extraction_conflict_message(
    destination: Seq<char>,
    issue: FilesystemPublicationPreflightIssue,
) -> Option<Seq<char>> {
    match issue {
        FilesystemPublicationPreflightIssue::ExistingTarget { relative_path } => Some(
            "`"@ + joined_path(destination, relative_path@) + "` already exists (pass force to overwrite)"@,
        ),
        FilesystemPublicationPreflightIssue::ConflictingTarget { relative_path, .. } => Some(
            "existing destination entry `"@ + joined_path(destination, relative_path@) + "` conflicts with extraction"@,
        ),
        FilesystemPublicationPreflightIssue::ConflictingAncestor { ancestor, .. } => Some(
            "existing destination entry `"@ + ancestor@ + "` conflicts with extraction"@,
        ),
        FilesystemPublicationPreflightIssue::ConflictingDestinationRoot { path, .. } => Some(
            "existing destination entry `"@ + path@ + "` conflicts with extraction"@,
        ),
        _ => None,
    }
}

/// `relative` placed under `destination`; see `joined_path`.
pub fn join_path(destination: &str, relative: &str) -> (r: String)
    ensures
        r@ == joined_path(destination@, relative@),
{
    proof {
        reveal_strlit("/");
    }
    let rel = crate::text::chars_of(relative);
    if rel.len() > 0 && rel[0] == '/' {
        return String::from_str(relative);
    }
    let dest = crate::text::chars_of(destination);
    if dest.len() == 0 {
        return String::from_str(relative);
    }
    let mut r = String::from_str(destination);
    if dest[dest.len() - 1] != '/' {
        r.append("/");
    }
    r.append(relative);
    r
}

/// What an extraction that stopped at preflight says of its first issue, if
/// that issue is an entry in the way; otherwise the publication error speaks
/// for itself.
pub fn extraction_conflict(destination: &str, first_issue: &FilesystemPublicationPreflightIssue) -> (r: Option<String>)
    ensures
        match extraction_conflict_message(destination@, *first_issue) {
            Some(m) => r matches Some(t) && t@ == m,
            None => r is None,
        },
{
    match first_issue {
        FilesystemPublicationPreflightIssue::ExistingTarget { relative_path } => {
            let mut m = String::from_str("`");
            m.append(join_path(destination, relative_path.as_str()).as_str());
            m.append("` already exists (pass force to overwrite)");
            Some(m)
        },
        FilesystemPublicationPreflightIssue::ConflictingTarget { relative_path, .. } => {
            let mut m = String::from_str("existing destination entry `");
            m.append(join_path(destination, relative_path.as_str()).as_str());
            m.append("` conflicts with extraction");
            Some(m)
        },
        FilesystemPublicationPreflightIssue::ConflictingAncestor { ancestor, .. } => {
            let mut m = String::from_str("existing destination entry `");
            m.append(ancestor.as_str());
            m.append("` conflicts with extraction");
            Some(m)
        },
        FilesystemPublicationPreflightIssue::ConflictingDestinationRoot { path, .. } => {
            let mut m = String::from_str("existing destination entry `");
            m.append(path.as_str());
            m.append("` conflicts with extraction");
            Some(m)
        },
        _ => None,
    }
}

} // verus!
