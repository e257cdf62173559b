//! The destination-independent core of filesystem plan publication: merge
//! policies, phases, preflight issues and their canonical order, staging
//! writes against a sink, and scripted fault injection.

use vstd::prelude::*;
use vstd::string::StringExecFns;
use crate::order::key_lt;

verus! {

/// An explicit merge policy for publishing planned files into a directory.
#[derive(Clone, Copy, Debug, Eq, PartialEq, Structural)]
pub enum FilesystemMergePolicy {
    MergeCreateOnly,
    MergeReplaceExactFiles,
}

/// The filesystem phase reached by a plan publication attempt.
#[derive(Clone, Copy, Debug, Eq, PartialEq, Structural)]
pub enum FilesystemPlanPublicationPhase {
    Policy,
    Preflight,
    DirectoryCreate,
    StagingCreate,
    StagingWrite,
    StagingFlush,
    Commit,
    StagingCleanup,
    Complete,
}

/// A destination entry kind relevant to merge preflight.
#[derive(Clone, Copy, Debug, Eq, PartialEq, Structural)]
pub enum FilesystemDestinationEntryKind {
    File,
    Directory,
    Symlink,
    Other,
}

/// How certain it is that a file effect was committed.
#[derive(Clone, Copy, Debug, Eq, PartialEq, Structural)]
pub enum CommitCertainty {
    NotCommitted,
    Committed,
    Indeterminate,
}

/// The observed state of staging residue.
#[derive(Clone, Copy, Debug, Eq, PartialEq, Structural)]
pub enum StagingResidueStatus {
    Absent,
    Present,
    Indeterminate,
}

/// The words used for an entry kind in messages.
pub open spec fn entry_kind_text(kind: FilesystemDestinationEntryKind) -> Seq<char> {
    match kind {
        FilesystemDestinationEntryKind::File => "file"@,
        FilesystemDestinationEntryKind::Directory => "directory"@,
        FilesystemDestinationEntryKind::Symlink => "symbolic link"@,
        FilesystemDestinationEntryKind::Other => "unsupported entry"@,
    }
}

impl FilesystemDestinationEntryKind {
    /// The words used for the kind in messages.
    pub fn describe(self) -> (r: &'static str)
        ensures
            r@ == entry_kind_text(self),
    {
        match self {
            FilesystemDestinationEntryKind::File => "file",
            FilesystemDestinationEntryKind::Directory => "directory",
            FilesystemDestinationEntryKind::Symlink => "symbolic link",
            FilesystemDestinationEntryKind::Other => "unsupported entry",
        }
    }
}

/// The `Debug` form of a text: quoted, with `str`'s escapes.
pub uninterp spec fn debug_form(text: Seq<char>) -> Seq<char>;

/// The `Debug` form of a path: quoted, with `Path`'s escapes.
pub uninterp spec fn path_debug_form(text: Seq<char>) -> Seq<char>;

/// Formats `text` with `<str as Debug>::fmt`.
///
/// Trusted: the result is the `Debug` form of the text, a function of the
/// text alone.
#[verifier::external_body]
pub(crate) fn debug_quoted(text: &str) -> (r: String)
    ensures
        r@ == debug_form(text@),
{
    format!("{:?}", text)
}

/// Formats `text` as a path with `<Path as Debug>::fmt`.
///
/// Trusted: the result is the `Debug` form of the path, a function of the
/// text alone.
#[verifier::external_body]
fn path_debug_quoted(text: &str) -> (r: String)
    ensures
        r@ == path_debug_form(text@),
{
    format!("{:?}", std::path::Path::new(text))
}

/// One safely detectable issue found before filesystem writes begin.
#[derive(Clone, Debug)]
pub enum FilesystemPublicationPreflightIssue {
    InvalidRelativePath { relative_path: String },
    PathAlias { first_path: String, second_path: String },
    ReservedName { relative_path: String, component: String },
    ComponentTooLong { relative_path: String, component: String },
    PathTooLong { relative_path: String },
    ExistingTarget { relative_path: String },
    ConflictingTarget { relative_path: String, kind: FilesystemDestinationEntryKind },
    ConflictingAncestor { relative_path: String, ancestor: String, kind: FilesystemDestinationEntryKind },
    ConflictingDestinationRoot { path: String, kind: FilesystemDestinationEntryKind },
    InspectionFailed { path: String, detail: String },
}

/// The key by which preflight issues are ordered: the planned path, the rank
/// of the issue's kind, and a detail that tells apart issues of one kind.
pub open spec fn issue_key(issue: FilesystemPublicationPreflightIssue) -> (Seq<char>, u8, Seq<char>) {
    match issue {
        FilesystemPublicationPreflightIssue::InvalidRelativePath { relative_path } => (relative_path@, 0, Seq::empty()),
        FilesystemPublicationPreflightIssue::PathAlias { first_path, second_path } => (first_path@, 1, second_path@),
        FilesystemPublicationPreflightIssue::ReservedName { relative_path, component } => (relative_path@, 2, component@),
        FilesystemPublicationPreflightIssue::ComponentTooLong { relative_path, component } => (relative_path@, 3, component@),
        FilesystemPublicationPreflightIssue::PathTooLong { relative_path } => (relative_path@, 4, Seq::empty()),
        FilesystemPublicationPreflightIssue::ExistingTarget { relative_path } => (relative_path@, 5, Seq::empty()),
        FilesystemPublicationPreflightIssue::ConflictingTarget { relative_path, .. } => (relative_path@, 6, Seq::empty()),
        FilesystemPublicationPreflightIssue::ConflictingAncestor { relative_path, ancestor, .. } => (
            relative_path@,
            7,
            ancestor@,
        ),
        FilesystemPublicationPreflightIssue::ConflictingDestinationRoot { path, .. } => (Seq::empty(), 8, path@),
        FilesystemPublicationPreflightIssue::InspectionFailed { path, .. } => (Seq::empty(), 8, path@),
    }
}

/// The text that describes a preflight issue.
pub open spec fn preflight_issue_message(issue: FilesystemPublicationPreflightIssue) -> Seq<char> {
    match issue {
        FilesystemPublicationPreflightIssue::InvalidRelativePath { relative_path } => "planned path "@ + debug_form(
            relative_path@,
        ) + " is not a canonical relative filesystem path"@,
        FilesystemPublicationPreflightIssue::PathAlias { first_path, second_path } => "planned paths "@ + debug_form(
            first_path@,
        ) + " and "@ + debug_form(second_path@) + " alias on this platform"@,
        FilesystemPublicationPreflightIssue::ReservedName { relative_path, component } => "planned path "@
            + debug_form(relative_path@) + " contains reserved component "@ + debug_form(component@),
        FilesystemPublicationPreflightIssue::ComponentTooLong { relative_path, component } => "component "@
            + debug_form(component@) + " in planned path "@ + debug_form(relative_path@)
            + " exceeds the platform limit"@,
        FilesystemPublicationPreflightIssue::PathTooLong { relative_path } => "planned destination path "@
            + debug_form(relative_path@) + " exceeds the platform path limit"@,
        FilesystemPublicationPreflightIssue::ExistingTarget { relative_path } => "planned target "@ + debug_form(
            relative_path@,
        ) + " already exists"@,
        FilesystemPublicationPreflightIssue::ConflictingTarget { relative_path, kind } => "planned target "@
            + debug_form(relative_path@) + " is an existing "@ + entry_kind_text(kind) + ", not a regular file"@,
        FilesystemPublicationPreflightIssue::ConflictingAncestor { relative_path, ancestor, kind } => "ancestor "@
            + path_debug_form(ancestor@) + " of planned target "@ + debug_form(relative_path@) + " is a "@
            + entry_kind_text(kind),
        FilesystemPublicationPreflightIssue::ConflictingDestinationRoot { path, kind } => "destination root "@
            + path_debug_form(path@) + " is a "@ + entry_kind_text(kind),
        FilesystemPublicationPreflightIssue::InspectionFailed { path, detail } => "could not inspect destination path "@
            + path_debug_form(path@) + ": "@ + detail@,
    }
}

impl FilesystemPublicationPreflightIssue {
    /// The text that describes this issue.
    pub fn describe(&self) -> (r: String)
        ensures
            r@ == preflight_issue_message(*self),
    {
        match self {
            FilesystemPublicationPreflightIssue::InvalidRelativePath { relative_path } => {
                let mut m = String::from_str("planned path ");
                m.append(debug_quoted(relative_path.as_str()).as_str());
                m.append(" is not a canonical relative filesystem path");
                m
            },
            FilesystemPublicationPreflightIssue::PathAlias { first_path, second_path } => {
                let mut m = String::from_str("planned paths ");
                m.append(debug_quoted(first_path.as_str()).as_str());
                m.append(" and ");
                m.append(debug_quoted(second_path.as_str()).as_str());
                m.append(" alias on this platform");
                m
            },
            FilesystemPublicationPreflightIssue::ReservedName { relative_path, component } => {
                let mut m = String::from_str("planned path ");
                m.append(debug_quoted(relative_path.as_str()).as_str());
                m.append(" contains reserved component ");
                m.append(debug_quoted(component.as_str()).as_str());
                m
            },
            FilesystemPublicationPreflightIssue::ComponentTooLong { relative_path, component } => {
                let mut m = String::from_str("component ");
                m.append(debug_quoted(component.as_str()).as_str());
                m.append(" in planned path ");
                m.append(debug_quoted(relative_path.as_str()).as_str());
                m.append(" exceeds the platform limit");
                m
            },
            FilesystemPublicationPreflightIssue::PathTooLong { relative_path } => {
                let mut m = String::from_str("planned destination path ");
                m.append(debug_quoted(relative_path.as_str()).as_str());
                m.append(" exceeds the platform path limit");
                m
            },
            FilesystemPublicationPreflightIssue::ExistingTarget { relative_path } => {
                let mut m = String::from_str("planned target ");
                m.append(debug_quoted(relative_path.as_str()).as_str());
                m.append(" already exists");
                m
            },
            FilesystemPublicationPreflightIssue::ConflictingTarget { relative_path, kind } => {
                let mut m = String::from_str("planned target ");
                m.append(debug_quoted(relative_path.as_str()).as_str());
                m.append(" is an existing ");
                m.append(kind.describe());
                m.append(", not a regular file");
                m
            },
            FilesystemPublicationPreflightIssue::ConflictingAncestor { relative_path, ancestor, kind } => {
                let mut m = String::from_str("ancestor ");
                m.append(path_debug_quoted(ancestor.as_str()).as_str());
                m.append(" of planned target ");
                m.append(debug_quoted(relative_path.as_str()).as_str());
                m.append(" is a ");
                m.append(kind.describe());
                m
            },
            FilesystemPublicationPreflightIssue::ConflictingDestinationRoot { path, kind } => {
                let mut m = String::from_str("destination root ");
                m.append(path_debug_quoted(path.as_str()).as_str());
                m.append(" is a ");
                m.append(kind.describe());
                m
            },
            FilesystemPublicationPreflightIssue::InspectionFailed { path, detail } => {
                let mut m = String::from_str("could not inspect destination path ");
                m.append(path_debug_quoted(path.as_str()).as_str());
                m.append(": ");
                m.append(detail.as_str());
                m
            },
        }
    }

    /// The issue's ordering key; see `issue_key`.
    pub fn sort_key(&self) -> (r: (String, u8, String))
        ensures
            (r.0@, r.1, r.2@) == issue_key(*self),
    {
        let empty = String::new();
        match self {
            FilesystemPublicationPreflightIssue::InvalidRelativePath { relative_path } => (relative_path.clone(), 0, empty),
            FilesystemPublicationPreflightIssue::PathAlias { first_path, second_path } => (
                first_path.clone(),
                1,
                second_path.clone(),
            ),
            FilesystemPublicationPreflightIssue::ReservedName { relative_path, component } => (
                relative_path.clone(),
                2,
                component.clone(),
            ),
            FilesystemPublicationPreflightIssue::ComponentTooLong { relative_path, component } => (
                relative_path.clone(),
                3,
                component.clone(),
            ),
            FilesystemPublicationPreflightIssue::PathTooLong { relative_path } => (relative_path.clone(), 4, empty),
            FilesystemPublicationPreflightIssue::ExistingTarget { relative_path } => (relative_path.clone(), 5, empty),
            FilesystemPublicationPreflightIssue::ConflictingTarget { relative_path, .. } => (
                relative_path.clone(),
                6,
                empty,
            ),
            FilesystemPublicationPreflightIssue::ConflictingAncestor { relative_path, ancestor, .. } => (
                relative_path.clone(),
                7,
                ancestor.clone(),
            ),
            FilesystemPublicationPreflightIssue::ConflictingDestinationRoot { path, .. } => (empty, 8, path.clone()),
            FilesystemPublicationPreflightIssue::InspectionFailed { path, .. } => (empty, 8, path.clone()),
        }
    }
}

/// The concrete cause retained by a failed filesystem plan publication.
#[derive(Clone, Debug)]
pub enum FilesystemPlanPublicationErrorCause {
    Preflight,
    UnsupportedPolicy(FilesystemMergePolicy),
    Io(String),
}

/// The staging location retained for a retry: kept unless it is known to be
/// absent.
pub open spec fn spec_retained_residue(staging: Option<String>, status: StagingResidueStatus) -> Option<String> {
    if status != StagingResidueStatus::Absent {
        staging
    } else {
        None
    }
}

/// Keeps a staging location unless its residue is known to be absent.
pub fn retained_residue(staging: Option<String>, status: StagingResidueStatus) -> (r: Option<String>)
    ensures
        r == spec_retained_residue(staging, status),
{
    if status != StagingResidueStatus::Absent {
        staging
    } else {
        None
    }
}

/// Scripted faults for exercising publication failure paths.
#[derive(Clone, Copy, Debug, Eq, PartialEq, Structural)]
pub struct FilesystemPublicationFaultProbe {
    pub maximum_write: usize,
    pub write_fault_file: Option<usize>,
    pub write_fault_after: usize,
    pub flush_fault_file: Option<usize>,
    pub commit_fault_file: Option<usize>,
    pub ancestor_symlink_race_file: Option<usize>,
}

/// The faults a publication injects; by default none.
#[derive(Clone, Copy, Debug, Eq, PartialEq, Structural)]
pub struct PublicationFaults {
    pub maximum_write: usize,
    pub write_fault_file: Option<usize>,
    pub write_fault_after: usize,
    pub flush_fault_file: Option<usize>,
    pub commit_fault_file: Option<usize>,
    pub ancestor_symlink_race_file: Option<usize>,
}

impl PublicationFaults {
    /// No fault at all: unbounded writes and no scripted failure.
    pub fn none() -> (r: Self)
        ensures
            r.maximum_write == usize::MAX,
            r.write_fault_file is None,
            r.write_fault_after == usize::MAX,
            r.flush_fault_file is None,
            r.commit_fault_file is None,
            r.ancestor_symlink_race_file is None,
    {
        PublicationFaults {
            maximum_write: usize::MAX,
            write_fault_file: None,
            write_fault_after: usize::MAX,
            flush_fault_file: None,
            commit_fault_file: None,
            ancestor_symlink_race_file: None,
        }
    }

    /// The faults a probe scripts, field for field.
    pub fn from_probe(probe: FilesystemPublicationFaultProbe) -> (r: Self)
        ensures
            r.maximum_write == probe.maximum_write,
            r.write_fault_file == probe.write_fault_file,
            r.write_fault_after == probe.write_fault_after,
            r.flush_fault_file == probe.flush_fault_file,
            r.commit_fault_file == probe.commit_fault_file,
            r.ancestor_symlink_race_file == probe.ancestor_symlink_race_file,
    {
        PublicationFaults {
            maximum_write: probe.maximum_write,
            write_fault_file: probe.write_fault_file,
            write_fault_after: probe.write_fault_after,
            flush_fault_file: probe.flush_fault_file,
            commit_fault_file: probe.commit_fault_file,
            ancestor_symlink_race_file: probe.ancestor_symlink_race_file,
        }
    }
}

#[derive(Clone, Copy, Debug, Eq, PartialEq, Structural)]
pub enum StagingFaultKind {
    /// The sink accepted no byte of a non-empty write.
    WriteZero,
    /// Any other failure of the sink.
    Other,
}

/// Why a staging sink failed.
#[derive(Clone, Debug)]
pub struct StagingFault {
    pub kind: StagingFaultKind,
    pub detail: String,
}

impl StagingFault {
    pub fn other(detail: &str) -> (r: Self)
        ensures
            r.kind == StagingFaultKind::Other,
            r.detail@ == detail@,
    {
        StagingFault { kind: StagingFaultKind::Other, detail: detail.to_owned() }
    }
}

/// Where staged bytes go. An implementation retries interrupted writes
/// itself and reports how many bytes of `buffer` it accepted, never more
/// than the buffer holds.
pub trait StagingSink {
    fn write(&mut self, buffer: &[u8]) -> (r: Result<usize, StagingFault>)
        ensures
            r matches Ok(n) ==> n <= buffer@.len(),
    ;

    fn flush(&mut self) -> Result<(), StagingFault>;
}

/// A staging sink together with the record of what it has taken: the bytes
/// it reported accepting, in order, whether it was flushed after the last of
/// them, and what its last write and its last flush reported.
pub struct StagingRecorder<W> {
    sink: W,
    accepted: Ghost<Seq<u8>>,
    flushed: Ghost<bool>,
    last_write: Ghost<Option<Result<usize, StagingFault>>>,
    last_flush: Ghost<Option<Result<(), StagingFault>>>,
}

impl<W: StagingSink> StagingRecorder<W> {
    /// The bytes the sink has reported accepting, in order.
    pub closed spec fn spec_accepted(&self) -> Seq<u8> {
        self.accepted@
    }

    /// Whether the sink was flushed after the last byte it accepted.
    pub closed spec fn spec_flushed(&self) -> bool {
        self.flushed@
    }

    pub closed spec fn spec_sink(&self) -> W {
        self.sink
    }

    /// What the sink's last write reported, if it was written to.
    pub closed spec fn spec_last_write(&self) -> Option<Result<usize, StagingFault>> {
        self.last_write@
    }

    /// What the sink's last flush reported, if it was flushed.
    pub closed spec fn spec_last_flush(&self) -> Option<Result<(), StagingFault>> {
        self.last_flush@
    }

    pub fn new(sink: W) -> (r: Self)
        ensures
            r.spec_accepted() == Seq::<u8>::empty(),
            !r.spec_flushed(),
            r.spec_sink() == sink,
            r.spec_last_write() is None,
            r.spec_last_flush() is None,
    {
        StagingRecorder {
            sink,
            accepted: Ghost(Seq::empty()),
            flushed: Ghost(false),
            last_write: Ghost(None),
            last_flush: Ghost(None),
        }
    }

    pub fn into_inner(self) -> (r: W)
        ensures
            r == self.spec_sink(),
    {
        self.sink
    }

    /// Hands `buffer` to the sink. A write that accepts `n` bytes records the
    /// first `n` bytes of the buffer; a failed write records nothing. Either
    /// way the sink's answer is recorded as the last write.
    pub fn write(&mut self, buffer: &[u8]) -> (r: Result<usize, StagingFault>)
        ensures
            final(self).spec_last_write() == Some(r),
            final(self).spec_last_flush() == old(self).spec_last_flush(),
            match r {
                Ok(n) => n <= buffer@.len() && final(self).spec_accepted() == old(self).spec_accepted()
                    + buffer@.subrange(0, n as int) && final(self).spec_flushed() == (old(self).spec_flushed()
                    && n == 0),
                Err(_) => final(self).spec_accepted() == old(self).spec_accepted() && final(self).spec_flushed()
                    == old(self).spec_flushed(),
            },
    {
        match self.sink.write(buffer) {
            Ok(n) => {
                proof {
                    self.accepted@ = self.accepted@ + buffer@.subrange(0, n as int);
                    self.flushed@ = self.flushed@ && n == 0;
                    self.last_write@ = Some(Ok(n));
                }
                Ok(n)
            },
            Err(fault) => {
                proof {
                    self.last_write@ = Some(Err(fault));
                }
                Err(fault)
            },
        }
    }

    /// Flushes the sink; a successful flush is recorded, and the sink's
    /// answer is recorded as the last flush.
    pub fn flush(&mut self) -> (r: Result<(), StagingFault>)
        ensures
            final(self).spec_last_flush() == Some(r),
            final(self).spec_last_write() == old(self).spec_last_write(),
            final(self).spec_accepted() == old(self).spec_accepted(),
            r is Ok ==> final(self).spec_flushed(),
            r is Err ==> final(self).spec_flushed() == old(self).spec_flushed(),
    {
        match self.sink.flush() {
            Ok(()) => {
                proof {
                    self.flushed@ = true;
                    self.last_flush@ = Some(Ok(()));
                }
                Ok(())
            },
            Err(fault) => {
                proof {
                    self.last_flush@ = Some(Err(fault));
                }
                Err(fault)
            },
        }
    }
}

/// What staging does after one write.
pub enum StagingStep {
    /// Write the rest, from this many bytes in.
    Continue(usize),
    /// Every byte is written; flush.
    Flush,
    /// Stop with this phase and fault.
    Fail(FilesystemPlanPublicationPhase, StagingFault),
}

/// Decides the next staging step after a write of the bytes from `written`
/// to `len`: an accepted count of zero fails the write, a count that reaches
/// the end moves on to the flush, a shorter count continues after it, and a
/// failure of the sink fails the write.
pub fn next_staging_step(written: usize, len: usize, outcome: Result<usize, StagingFault>) -> (r: StagingStep)
    requires
        written < len,
    ensures
        match outcome {
            Ok(count) => if count == 0 {
                r matches StagingStep::Fail(phase, fault) && phase == FilesystemPlanPublicationPhase::StagingWrite
                    && fault.kind == StagingFaultKind::WriteZero
            } else if count >= len - written {
                r is Flush
            } else {
                r == StagingStep::Continue((written + count) as usize)
            },
            Err(f) => r == StagingStep::Fail(FilesystemPlanPublicationPhase::StagingWrite, f),
        },
{
    match outcome {
        Ok(count) => {
            if count == 0 {
                StagingStep::Fail(
                    FilesystemPlanPublicationPhase::StagingWrite,
                    StagingFault {
                        kind: StagingFaultKind::WriteZero,
                        detail: String::from_str("failed to write the complete staging file"),
                    },
                )
            } else if count >= len - written {
                StagingStep::Flush
            } else {
                StagingStep::Continue(written + count)
            }
        },
        Err(f) => StagingStep::Fail(FilesystemPlanPublicationPhase::StagingWrite, f),
    }
}

/// Writes all of `bytes` to the sink, retrying short writes, then flushes.
///
/// Each write hands the sink the bytes it has not yet accepted. A failed or
/// empty write stops with the staging-write phase, after the sink accepted a
/// proper prefix of `bytes`; a failed flush stops with the staging-flush phase,
/// after the sink accepted all of `bytes`. A short write is continued: the
/// staging-write phase comes only from a write that the sink failed, whose
/// fault is reported, or that accepted no byte. Success means the sink
/// accepted exactly `bytes` and was then flushed.
pub fn write_staging<W: StagingSink>(writer: &mut StagingRecorder<W>, bytes: &[u8]) -> (r: Result<
    (),
    (FilesystemPlanPublicationPhase, StagingFault),
>)
    ensures
        match r {
            Ok(()) => final(writer).spec_accepted() == old(writer).spec_accepted() + bytes@
                && final(writer).spec_flushed(),
            Err((phase, _)) => if phase == FilesystemPlanPublicationPhase::StagingFlush {
                final(writer).spec_accepted() == old(writer).spec_accepted() + bytes@
            } else {
                phase == FilesystemPlanPublicationPhase::StagingWrite && exists|k: int|
                    #![trigger bytes@.subrange(0, k)]
                    0 <= k < bytes@.len() && final(writer).spec_accepted() == old(writer).spec_accepted()
                        + bytes@.subrange(0, k)
            },
        },
        r matches Err((phase, f)) ==> (phase == FilesystemPlanPublicationPhase::StagingWrite ==> (final(writer).spec_last_write() == Some(Err::<usize, StagingFault>(f)) || (final(writer).spec_last_write() == Some(
            Ok::<usize, StagingFault>(0),
        ) && f.kind == StagingFaultKind::WriteZero))),
        r matches Err((phase, f)) ==> (phase == FilesystemPlanPublicationPhase::StagingFlush ==> final(writer).spec_last_flush() == Some(Err::<(), StagingFault>(f))),
        r is Ok ==> final(writer).spec_last_flush() == Some(Ok::<(), StagingFault>(())),
{
    let len = bytes.len();
    let mut written: usize = 0;
    let ghost start = writer.spec_accepted();
    while written < len
        invariant
            written <= len,
            len == bytes@.len(),
            writer.spec_accepted() == start + bytes@.subrange(0, written as int),
            start == old(writer).spec_accepted(),
        decreases len - written,
    {
        let rest = vstd::slice::slice_subrange(bytes, written, len);
        let outcome = writer.write(rest);
        proof {
            if let Ok(n) = outcome {
                if n <= len - written {
                    assert(bytes@.subrange(0, written as int) + rest@.subrange(0, n as int)
                        =~= bytes@.subrange(0, written + n));
                }
            }
        }
        match next_staging_step(written, len, outcome) {
            StagingStep::Continue(next) => {
                written = next;
            },
            StagingStep::Flush => {
                written = len;
            },
            StagingStep::Fail(phase, fault) => {
                return Err((phase, fault));
            },
        }
    }
    assert(bytes@.subrange(0, len as int) =~= bytes@);
    let flushed = writer.flush();
    match flushed {
        Ok(u) => {
            proof {
                assert(u == ());
                assert(flushed == Ok::<(), StagingFault>(()));
            }
            Ok(())
        },
        Err(fault) => Err((FilesystemPlanPublicationPhase::StagingFlush, fault)),
    }
}

/// How many bytes a fault-injecting writer lets through in one write: no
/// more than the buffer, the scripted maximum, or what is left before a
/// scripted write fault of this file.
pub open spec fn fault_write_limit(faults: PublicationFaults, file_index: usize, written: usize, len: usize) -> int {
    let before_fault: int = if faults.write_fault_file == Some(file_index) {
        if faults.write_fault_after >= written {
            faults.write_fault_after - written
        } else {
            0
        }
    } else {
        usize::MAX as int
    };
    let a: int = if (len as int) <= (faults.maximum_write as int) {
        len as int
    } else {
        faults.maximum_write as int
    };
    if a <= before_fault {
        a
    } else {
        before_fault
    }
}

/// A sink that injects scripted faults in front of another sink.
pub struct FaultInjectingWriter<W> {
    writer: W,
    file_index: usize,
    faults: PublicationFaults,
    written: usize,
}

impl<W: StagingSink> FaultInjectingWriter<W> {
    pub closed spec fn spec_written(&self) -> usize {
        self.written
    }

    pub closed spec fn spec_faults(&self) -> PublicationFaults {
        self.faults
    }

    pub closed spec fn spec_file_index(&self) -> usize {
        self.file_index
    }

    pub closed spec fn spec_writer(&self) -> W {
        self.writer
    }

    pub fn new(writer: W, file_index: usize, faults: PublicationFaults) -> (r: Self)
        ensures
            r.spec_writer() == writer,
            r.spec_written() == 0,
            r.spec_faults() == faults,
            r.spec_file_index() == file_index,
    {
        FaultInjectingWriter { writer, file_index, faults, written: 0 }
    }

    pub fn into_inner(self) -> (r: W)
        ensures
            r == self.spec_writer(),
    {
        self.writer
    }

    /// Whether the next write of this file is scripted to fail.
    pub open spec fn spec_write_faults(&self) -> bool {
        self.spec_faults().write_fault_file == Some(self.spec_file_index()) && self.spec_written()
            >= self.spec_faults().write_fault_after
    }

    /// Writes through to the inner sink, no more than `fault_write_limit`
    /// bytes, or fails when a write fault is scripted for this point.
    pub fn write_through(&mut self, buffer: &[u8]) -> (r: Result<usize, StagingFault>)
        ensures
            old(self).spec_write_faults() ==> r is Err && final(self).spec_written() == old(self).spec_written(),
            final(self).spec_faults() == old(self).spec_faults(),
            final(self).spec_file_index() == old(self).spec_file_index(),
            r matches Ok(n) ==> n <= fault_write_limit(
                old(self).spec_faults(),
                old(self).spec_file_index(),
                old(self).spec_written(),
                buffer@.len() as usize,
            ),
            r matches Ok(n) ==> final(self).spec_written() == if old(self).spec_written() + n <= usize::MAX {
                old(self).spec_written() + n
            } else {
                usize::MAX as int
            },
            r is Err ==> final(self).spec_written() == old(self).spec_written(),
    {
        let scripted = match self.faults.write_fault_file {
            Some(f) => f == self.file_index,
            None => false,
        };
        if scripted && self.written >= self.faults.write_fault_after {
            return Err(StagingFault::other("scripted staging write fault"));
        }
        let before_fault = if scripted {
            self.faults.write_fault_after.saturating_sub(self.written)
        } else {
            usize::MAX
        };
        let mut limit = buffer.len();
        if self.faults.maximum_write < limit {
            limit = self.faults.maximum_write;
        }
        if before_fault < limit {
            limit = before_fault;
        }
        let prefix = vstd::slice::slice_subrange(buffer, 0, limit);
        let n = self.writer.write(prefix)?;
        self.written = self.written.saturating_add(n);
        Ok(n)
    }

    /// Flushes the inner sink, or fails when a flush fault is scripted for
    /// this file.
    pub fn flush_through(&mut self) -> (r: Result<(), StagingFault>)
        ensures
            old(self).spec_faults().flush_fault_file == Some(old(self).spec_file_index()) ==> r is Err,
            final(self).spec_written() == old(self).spec_written(),
            final(self).spec_faults() == old(self).spec_faults(),
            final(self).spec_file_index() == old(self).spec_file_index(),
    {
        let scripted = match self.faults.flush_fault_file {
            Some(f) => f == self.file_index,
            None => false,
        };
        if scripted {
            Err(StagingFault::other("scripted staging flush fault"))
        } else {
            self.writer.flush()
        }
    }
}

impl<W: StagingSink> StagingSink for FaultInjectingWriter<W> {
    fn write(&mut self, buffer: &[u8]) -> (r: Result<usize, StagingFault>) {
        self.write_through(buffer)
    }

    fn flush(&mut self) -> Result<(), StagingFault> {
        self.flush_through()
    }
}

/// The key of an issue, as characters.
fn issue_key_chars(issue: &FilesystemPublicationPreflightIssue) -> (r: (Vec<char>, u8, Vec<char>))
    ensures
        (r.0@, r.1, r.2@) == issue_key(*issue),
{
    let (a, b, c) = issue.sort_key();
    (crate::text::chars_of(a.as_str()), b, crate::text::chars_of(c.as_str()))
}

/// Whether issues are in strictly increasing key order, so that no key
/// occurs twice.
pub open spec fn issues_canonical(issues: Seq<FilesystemPublicationPreflightIssue>) -> bool {
    forall|i: int, j: int| 0 <= i < j < issues.len() ==> key_lt(issue_key(issues[i]), issue_key(issues[j]))
}

/// Whether some issue of `issues` has key `k`.
pub open spec fn has_issue_key(issues: Seq<FilesystemPublicationPreflightIssue>, k: (Seq<char>, u8, Seq<char>)) -> bool {
    exists|j: int| 0 <= j < issues.len() && issue_key(#[trigger] issues[j]) == k
}

/// Whether `issues[i]` is the first issue given with its key.
pub open spec fn first_with_its_key(issues: Seq<FilesystemPublicationPreflightIssue>, i: int) -> bool {
    &&& 0 <= i < issues.len()
    &&& forall|h: int| 0 <= h < i ==> issue_key(#[trigger] issues[h]) != issue_key(issues[i])
}

/// Whether each issue of `out` is, among the first `n` of `input`, the
/// first one given with its key.
pub open spec fn kept_first_given(
    input: Seq<FilesystemPublicationPreflightIssue>,
    out: Seq<FilesystemPublicationPreflightIssue>,
    n: int,
) -> bool {
    forall|j: int|
        #![trigger out[j]]
        0 <= j < out.len() ==> exists|i: int| #[trigger] first_with_its_key(input, i) && i < n && input[i] == out[j]
}

/// Puts preflight issues in canonical order and keeps, of the issues that
/// share a key, the first one given.
///
/// The result is strictly increasing by key, holds an issue of every key that
/// was given, and each issue it holds is the first one given with its key.
pub fn canonical_preflight_issues(issues: Vec<FilesystemPublicationPreflightIssue>) -> (r: Vec<
    FilesystemPublicationPreflightIssue,
>)
    ensures
        issues_canonical(r@),
        forall|i: int| 0 <= i < issues@.len() ==> has_issue_key(r@, issue_key(#[trigger] issues@[i])),
        kept_first_given(issues@, r@, issues@.len() as int),
{
    let ghost input = issues@;
    let mut rest = issues;
    let mut out: Vec<FilesystemPublicationPreflightIssue> = Vec::new();
    let ghost mut consumed: int = 0;
    while rest.len() > 0
        invariant
            0 <= consumed <= input.len(),
            rest@ == input.subrange(consumed, input.len() as int),
            issues_canonical(out@),
            forall|i: int| 0 <= i < consumed ==> has_issue_key(out@, issue_key(#[trigger] input[i])),
            kept_first_given(input, out@, consumed),
        decreases rest@.len(),
    {
        let x = rest.remove(0);
        assert(x == input[consumed]);
        let ghost k = issue_key(x);
        let (k0, k1, k2) = issue_key_chars(&x);
        let mut p: usize = 0;
        let mut equal = false;
        while p < out.len()
            invariant_except_break
                !equal,
            invariant
                p <= out@.len(),
                (k0@, k1, k2@) == k,
                forall|q: int| 0 <= q < p ==> key_lt(issue_key(#[trigger] out@[q]), k),
            ensures
                p <= out@.len(),
                forall|q: int| 0 <= q < p ==> key_lt(issue_key(#[trigger] out@[q]), k),
                equal ==> p < out@.len() && issue_key(out@[p as int]) == k,
                !equal ==> p == out@.len() || key_lt(k, issue_key(out@[p as int])),
            decreases out@.len() - p,
        {
            let (o0, o1, o2) = issue_key_chars(&out[p]);
            let c = crate::order::compare_key((o0.as_slice(), o1, o2.as_slice()), (k0.as_slice(), k1, k2.as_slice()));
            if c == 0 {
                equal = true;
                break;
            }
            if c > 0 {
                break;
            }
            p = p + 1;
        }
        let ghost old_out = out@;
        if equal {
            assert(issue_key(out@[p as int]) == k);
        } else {
            proof {
                assert forall|q: int| 0 <= q < out@.len() implies issue_key(#[trigger] out@[q]) != k by {
                    crate::order::lemma_key_order(k, k, k);
                    if q > p {
                        assert(key_lt(issue_key(out@[p as int]), issue_key(out@[q])));
                        crate::order::lemma_key_order(k, issue_key(out@[p as int]), issue_key(out@[q]));
                    }
                }
                assert forall|h: int| 0 <= h < consumed implies issue_key(#[trigger] input[h]) != k by {
                    assert(has_issue_key(out@, issue_key(input[h])));
                    let j = choose|j: int| 0 <= j < out@.len() && issue_key(#[trigger] out@[j]) == issue_key(input[h]);
                    assert(issue_key(out@[j]) != k);
                }
                assert(first_with_its_key(input, consumed));
            }
            out.insert(p, x);
            proof {
                assert forall|i: int, j: int| 0 <= i < j < out@.len() implies key_lt(
                    issue_key(out@[i]),
                    issue_key(out@[j]),
                ) by {
                    if j < p {
                        assert(out@[i] == old_out[i] && out@[j] == old_out[j]);
                    } else if j == p {
                        assert(out@[i] == old_out[i]);
                    } else if i == p {
                        assert(out@[j] == old_out[j - 1]);
                        if j - 1 > p {
                            assert(key_lt(issue_key(old_out[p as int]), issue_key(old_out[j - 1])));
                            crate::order::lemma_key_order(k, issue_key(old_out[p as int]), issue_key(old_out[j - 1]));
                        }
                    } else if i < p {
                        assert(out@[i] == old_out[i] && out@[j] == old_out[j - 1]);
                        assert(key_lt(issue_key(old_out[i]), k));
                        if p < old_out.len() {
                            assert(key_lt(k, issue_key(old_out[p as int])));
                            crate::order::lemma_key_order(issue_key(old_out[i]), k, issue_key(old_out[p as int]));
                            if j - 1 > p {
                                crate::order::lemma_key_order(issue_key(old_out[i]), issue_key(old_out[p as int]), issue_key(old_out[j - 1]));
                            }
                        }
                    } else {
                        assert(out@[i] == old_out[i - 1] && out@[j] == old_out[j - 1]);
                    }
                }
                assert(issue_key(out@[p as int]) == k);
            }
        }
        proof {
            assert forall|i: int| 0 <= i < consumed + 1 implies has_issue_key(out@, issue_key(#[trigger] input[i])) by {
                if i == consumed {
                    assert(issue_key(out@[p as int]) == k);
                } else {
                    assert(has_issue_key(old_out, issue_key(input[i])));
                    let j = choose|j: int| 0 <= j < old_out.len() && issue_key(#[trigger] old_out[j]) == issue_key(input[i]);
                    if !equal {
                        if j < p {
                            assert(out@[j] == old_out[j]);
                        } else {
                            assert(out@[j + 1] == old_out[j]);
                        }
                    } else {
                        assert(out@[j] == old_out[j]);
                    }
                }
            }
            assert forall|j: int| #![trigger out@[j]] 0 <= j < out@.len() implies exists|i: int|
                #[trigger] first_with_its_key(input, i) && i < consumed + 1 && input[i] == out@[j] by {
                assert(kept_first_given(input, old_out, consumed));
                if !equal {
                    if j < p {
                        assert(out@[j] == old_out[j]);
                    } else if j == p {
                        assert(out@[j] == input[consumed]);
                        assert(first_with_its_key(input, consumed));
                    } else {
                        assert(out@[j] == old_out[j - 1]);
                    }
                } else {
                    assert(out@[j] == old_out[j]);
                }
            }
            consumed = consumed + 1;
        }
    }
    proof {
        assert(consumed == input.len());
    }
    out
}

/// A canonical issue list is determined by the keys it holds: two canonical
/// lists with the same keys hold them in the same positions, so putting a
/// canonical list in canonical order again changes no key's place.
pub proof fn lemma_canonical_issues_determined_by_keys(
    a: Seq<FilesystemPublicationPreflightIssue>,
    b: Seq<FilesystemPublicationPreflightIssue>,
)
    requires
        issues_canonical(a),
        issues_canonical(b),
        forall|k: (Seq<char>, u8, Seq<char>)| #[trigger] has_issue_key(a, k) <==> has_issue_key(b, k),
    ensures
        a.len() == b.len(),
        forall|i: int| 0 <= i < a.len() ==> #[trigger] issue_key(a[i]) == issue_key(b[i]),
    decreases a.len(),
{
    if a.len() == 0 {
        if b.len() > 0 {
            assert(has_issue_key(b, issue_key(b[0])));
            assert(!has_issue_key(a, issue_key(b[0])));
        }
    } else if b.len() == 0 {
        assert(has_issue_key(a, issue_key(a[0])));
    } else {
        let ka = issue_key(a[0]);
        let kb = issue_key(b[0]);
        assert(has_issue_key(a, ka));
        assert(has_issue_key(b, kb));
        assert(has_issue_key(b, ka));
        assert(has_issue_key(a, kb));
        let j = choose|j: int| 0 <= j < b.len() && issue_key(#[trigger] b[j]) == ka;
        let i = choose|i: int| 0 <= i < a.len() && issue_key(#[trigger] a[i]) == kb;
        crate::order::lemma_key_order(ka, kb, ka);
        if ka != kb {
            assert(j > 0 && i > 0);
            assert(key_lt(kb, ka));
            assert(key_lt(ka, kb));
        }
        let a2 = a.drop_first();
        let b2 = b.drop_first();
        assert forall|k: (Seq<char>, u8, Seq<char>)| #[trigger] has_issue_key(a2, k) <==> has_issue_key(b2, k) by {
            crate::order::lemma_key_order(ka, k, ka);
            if has_issue_key(a2, k) {
                let x = choose|x: int| 0 <= x < a2.len() && issue_key(#[trigger] a2[x]) == k;
                assert(a2[x] == a[x + 1]);
                assert(key_lt(ka, k));
                assert(has_issue_key(a, k));
                assert(has_issue_key(b, k));
                let y = choose|y: int| 0 <= y < b.len() && issue_key(#[trigger] b[y]) == k;
                if y == 0 {
                    assert(false);
                }
                assert(b2[y - 1] == b[y]);
            }
            if has_issue_key(b2, k) {
                let y = choose|y: int| 0 <= y < b2.len() && issue_key(#[trigger] b2[y]) == k;
                assert(b2[y] == b[y + 1]);
                assert(key_lt(kb, k));
                assert(has_issue_key(b, k));
                assert(has_issue_key(a, k));
                let x = choose|x: int| 0 <= x < a.len() && issue_key(#[trigger] a[x]) == k;
                if x == 0 {
                    assert(false);
                }
                assert(a2[x - 1] == a[x]);
            }
        }
        assert forall|p: int, q: int| 0 <= p < q < a2.len() implies key_lt(issue_key(a2[p]), issue_key(a2[q])) by {
            assert(a2[p] == a[p + 1] && a2[q] == a[q + 1]);
        }
        assert forall|p: int, q: int| 0 <= p < q < b2.len() implies key_lt(issue_key(b2[p]), issue_key(b2[q])) by {
            assert(b2[p] == b[p + 1] && b2[q] == b[q + 1]);
        }
        lemma_canonical_issues_determined_by_keys(a2, b2);
        assert forall|i: int| 0 <= i < a.len() implies #[trigger] issue_key(a[i]) == issue_key(b[i]) by {
            if i > 0 {
                assert(a2[i - 1] == a[i] && b2[i - 1] == b[i]);
            }
        }
    }
}

} // verus!
