use typst_pack::publication::{
    write_staging, FilesystemPlanPublicationPhase, StagingFault, StagingRecorder, StagingSink,
};

struct FaultWriter {
    bytes: Vec<u8>,
    maximum_write: usize,
    fail_after: Option<usize>,
    fail_flush: bool,
    flush_called: bool,
}

impl FaultWriter {
    fn new(maximum_write: usize, fail_after: Option<usize>, fail_flush: bool) -> Self {
        Self {
            bytes: Vec::new(),
            maximum_write,
            fail_after,
            fail_flush,
            flush_called: false,
        }
    }
}

impl StagingSink for FaultWriter {
    fn write(&mut self, buffer: &[u8]) -> Result<usize, StagingFault> {
        if self.fail_after == Some(self.bytes.len()) {
            return Err(StagingFault::other("scripted write fault"));
        }
        let before_failure = self
            .fail_after
            .map_or(usize::MAX, |limit| limit - self.bytes.len());
        let written = buffer.len().min(self.maximum_write).min(before_failure);
        self.bytes.extend_from_slice(&buffer[..written]);
        Ok(written)
    }

    fn flush(&mut self) -> Result<(), StagingFault> {
        self.flush_called = true;
        if self.fail_flush {
            Err(StagingFault::other("scripted flush fault"))
        } else {
            Ok(())
        }
    }
}

#[test]
fn staging_handles_short_writes_and_reports_write_and_flush_faults() {
    let mut short = StagingRecorder::new(FaultWriter::new(2, None, false));
    write_staging(&mut short, b"complete bytes").unwrap();
    let short = short.into_inner();
    assert_eq!(short.bytes, b"complete bytes");
    assert!(short.flush_called);

    let mut write_fault = StagingRecorder::new(FaultWriter::new(3, Some(6), false));
    let (phase, _) = write_staging(&mut write_fault, b"complete bytes").unwrap_err();
    let write_fault = write_fault.into_inner();
    assert_eq!(phase, FilesystemPlanPublicationPhase::StagingWrite);
    assert_eq!(write_fault.bytes, b"comple");

    let mut flush_fault = StagingRecorder::new(FaultWriter::new(usize::MAX, None, true));
    let (phase, _) = write_staging(&mut flush_fault, b"complete bytes").unwrap_err();
    let flush_fault = flush_fault.into_inner();
    assert_eq!(phase, FilesystemPlanPublicationPhase::StagingFlush);
    assert_eq!(flush_fault.bytes, b"complete bytes");
}

use typst_pack::preflight::{
    path_length_issue, platform_path_issues, preflight_planned_paths, reserved_name_issues,
    PathFolding, PathPlatform,
};
use typst_pack::publication::{
    canonical_preflight_issues, next_staging_step, retained_residue, FaultInjectingWriter,
    FilesystemDestinationEntryKind, FilesystemPublicationFaultProbe,
    FilesystemPublicationPreflightIssue, PublicationFaults, StagingFaultKind,
    StagingResidueStatus, StagingStep,
};

fn keys(issues: &[FilesystemPublicationPreflightIssue]) -> Vec<(String, u8, String)> {
    issues.iter().map(|issue| issue.sort_key()).collect()
}

fn other(case_insensitive: bool) -> PathFolding {
    PathFolding { platform: PathPlatform::Other, case_insensitive }
}

fn paths(values: &[&str]) -> Vec<String> {
    values.iter().map(|value| value.to_string()).collect()
}

#[test]
fn canonical_preflight_issues_sorts_by_path_then_kind_and_drops_repeated_keys() {
    let issues = vec![
        FilesystemPublicationPreflightIssue::ExistingTarget { relative_path: "b.txt".into() },
        FilesystemPublicationPreflightIssue::InvalidRelativePath { relative_path: "b.txt".into() },
        FilesystemPublicationPreflightIssue::ExistingTarget { relative_path: "a.txt".into() },
        FilesystemPublicationPreflightIssue::ExistingTarget { relative_path: "b.txt".into() },
        FilesystemPublicationPreflightIssue::ConflictingDestinationRoot {
            path: "/dest".into(),
            kind: FilesystemDestinationEntryKind::File,
        },
    ];
    let canonical = canonical_preflight_issues(issues);
    assert_eq!(
        keys(&canonical),
        vec![
            (String::new(), 8, "/dest".to_string()),
            ("a.txt".to_string(), 5, String::new()),
            ("b.txt".to_string(), 0, String::new()),
            ("b.txt".to_string(), 5, String::new()),
        ]
    );
}

#[test]
fn canonical_preflight_issues_is_idempotent() {
    let issues = vec![
        FilesystemPublicationPreflightIssue::PathTooLong { relative_path: "z".into() },
        FilesystemPublicationPreflightIssue::ReservedName {
            relative_path: "m".into(),
            component: "CON".into(),
        },
        FilesystemPublicationPreflightIssue::PathTooLong { relative_path: "a".into() },
    ];
    let once = canonical_preflight_issues(issues);
    let twice = canonical_preflight_issues(once.clone());
    assert_eq!(keys(&once), keys(&twice));
}

#[test]
fn staging_step_decisions() {
    assert!(matches!(next_staging_step(0, 10, Ok(4)), StagingStep::Continue(4)));
    assert!(matches!(next_staging_step(4, 10, Ok(6)), StagingStep::Flush));
    assert!(matches!(next_staging_step(4, 10, Ok(60)), StagingStep::Flush));
    match next_staging_step(4, 10, Ok(0)) {
        StagingStep::Fail(phase, fault) => {
            assert_eq!(phase, FilesystemPlanPublicationPhase::StagingWrite);
            assert_eq!(fault.kind, StagingFaultKind::WriteZero);
        }
        _ => panic!("an empty write must fail"),
    }
    match next_staging_step(4, 10, Err(StagingFault::other("disk full"))) {
        StagingStep::Fail(phase, fault) => {
            assert_eq!(phase, FilesystemPlanPublicationPhase::StagingWrite);
            assert_eq!(fault.kind, StagingFaultKind::Other);
            assert_eq!(fault.detail, "disk full");
        }
        _ => panic!("a failed write must fail"),
    }
}

#[test]
fn staging_reports_a_write_of_zero_bytes() {
    let mut stuck = StagingRecorder::new(FaultWriter::new(0, None, false));
    let (phase, fault) = write_staging(&mut stuck, b"bytes").unwrap_err();
    let stuck = stuck.into_inner();
    assert_eq!(phase, FilesystemPlanPublicationPhase::StagingWrite);
    assert_eq!(fault.kind, StagingFaultKind::WriteZero);
    assert!(!stuck.flush_called);
}

#[test]
fn staging_of_nothing_only_flushes() {
    let mut writer = StagingRecorder::new(FaultWriter::new(1, None, false));
    write_staging(&mut writer, b"").unwrap();
    let writer = writer.into_inner();
    assert!(writer.flush_called);
    assert!(writer.bytes.is_empty());
}

#[test]
fn residue_is_kept_unless_known_absent() {
    assert_eq!(retained_residue(Some("stage".into()), StagingResidueStatus::Absent), None);
    assert_eq!(
        retained_residue(Some("stage".into()), StagingResidueStatus::Present),
        Some("stage".to_string())
    );
    assert_eq!(
        retained_residue(Some("stage".into()), StagingResidueStatus::Indeterminate),
        Some("stage".to_string())
    );
    assert_eq!(retained_residue(None, StagingResidueStatus::Present), None);
}

#[test]
fn fault_injecting_writer_limits_writes_and_scripts_faults() {
    let probe = FilesystemPublicationFaultProbe {
        maximum_write: 4,
        write_fault_file: Some(0),
        write_fault_after: 6,
        flush_fault_file: Some(0),
        commit_fault_file: None,
        ancestor_symlink_race_file: None,
    };
    let faults = PublicationFaults::from_probe(probe);
    assert_eq!(faults.maximum_write, 4);
    let inner = FaultWriter::new(usize::MAX, None, false);
    let mut writer = StagingRecorder::new(FaultInjectingWriter::new(inner, 0, faults));
    let (phase, _) = write_staging(&mut writer, b"complete bytes").unwrap_err();
    assert_eq!(phase, FilesystemPlanPublicationPhase::StagingWrite);
    assert_eq!(writer.into_inner().into_inner().bytes, b"comple");

    let inner = FaultWriter::new(usize::MAX, None, false);
    let mut other_file = StagingRecorder::new(FaultInjectingWriter::new(inner, 1, faults));
    write_staging(&mut other_file, b"complete bytes").unwrap();
    assert_eq!(other_file.into_inner().into_inner().bytes, b"complete bytes");

    let none = PublicationFaults::none();
    assert_eq!(none.maximum_write, usize::MAX);
    assert_eq!(none.write_fault_file, None);
}

#[test]
fn preflight_reports_paths_that_are_not_plain_and_relative() {
    let planned = paths(&["", "/abs", "./a", "a/../b", "..", "a/./b", "a//b", "ok.txt"]);
    let issues = preflight_planned_paths(&planned, other(false), 255);
    assert_eq!(
        keys(&issues),
        vec![
            (String::new(), 0, String::new()),
            ("..".to_string(), 0, String::new()),
            ("./a".to_string(), 0, String::new()),
            ("/abs".to_string(), 0, String::new()),
            ("a/../b".to_string(), 0, String::new()),
        ]
    );
}

#[test]
fn preflight_reports_each_component_over_the_byte_limit_once() {
    let planned = paths(&["abcd/xy/abcd", "ok/é"]);
    let issues = preflight_planned_paths(&planned, other(false), 3);
    assert_eq!(
        keys(&issues),
        vec![("abcd/xy/abcd".to_string(), 3, "abcd".to_string())]
    );
    let issues = preflight_planned_paths(&planned, other(false), 1);
    assert_eq!(
        keys(&issues),
        vec![
            ("abcd/xy/abcd".to_string(), 3, "abcd".to_string()),
            ("abcd/xy/abcd".to_string(), 3, "xy".to_string()),
            ("ok/é".to_string(), 3, "ok".to_string()),
            ("ok/é".to_string(), 3, "é".to_string()),
        ]
    );
}

#[test]
fn preflight_reports_case_and_normalization_aliases_only_where_case_folds() {
    let planned = paths(&["Docs/Read.txt", "docs/read.txt", "other.txt", "DOCS/READ.TXT"]);
    let issues = preflight_planned_paths(&planned, other(true), 255);
    assert_eq!(
        keys(&issues),
        vec![
            ("Docs/Read.txt".to_string(), 1, "docs/read.txt".to_string()),
            ("docs/read.txt".to_string(), 1, "DOCS/READ.TXT".to_string()),
        ]
    );
    assert!(preflight_planned_paths(&planned, other(false), 255).is_empty());

    let composed = "caf\u{e9}.txt";
    let decomposed = "cafe\u{301}.txt";
    let issues = preflight_planned_paths(&paths(&[composed, decomposed]), other(true), 255);
    assert_eq!(
        keys(&issues),
        vec![(composed.to_string(), 1, decomposed.to_string())]
    );
}

#[test]
fn preflight_ignores_a_path_planned_twice() {
    let issues = preflight_planned_paths(&paths(&["a.txt", "a.txt"]), other(true), 255);
    assert!(issues.is_empty());
}


use typst_pack::extract::{format_error_list, ExtractOptions, ExtractReport};
use typst_pack::publication::FilesystemMergePolicy;

#[test]
fn extraction_replaces_existing_files_only_when_forced() {
    let options = ExtractOptions::default();
    assert!(!options.packages && !options.fonts && !options.force);
    assert_eq!(options.merge_policy(), FilesystemMergePolicy::MergeCreateOnly);
    let forced = ExtractOptions { force: true, ..ExtractOptions::default() };
    assert_eq!(forced.merge_policy(), FilesystemMergePolicy::MergeReplaceExactFiles);
    assert!(ExtractReport::default().written.is_empty());
}

#[test]
fn error_lists_put_each_issue_after_a_colon() {
    assert_eq!(format_error_list(&[]), "");
    assert_eq!(
        format_error_list(&["first".to_string(), "second".to_string()]),
        ": first: second"
    );
}

use typst_pack::preflight::is_reserved_windows_component;

#[test]
fn windows_reserves_device_names_trailing_dots_and_forbidden_characters() {
    for reserved in ["CON", "con.txt", "Aux", "nul.tar.gz", "COM1", "lpt9.log", "COM\u{b9}", "name.", "name ", "a:b", "q?", "tab\tname", "x|y"] {
        assert!(is_reserved_windows_component(reserved), "{reserved}");
    }
    for allowed in ["CONSOLE", "com0", "COM10", "LPT", "readme.md", "", "aux-data", ".hidden"] {
        assert!(!is_reserved_windows_component(allowed), "{allowed}");
    }
}

use typst_pack::extract::{extraction_conflict, join_path};

#[test]
fn preflight_issues_describe_themselves() {
    let existing = FilesystemPublicationPreflightIssue::ExistingTarget {
        relative_path: "main.typ".to_string(),
    };
    assert_eq!(existing.describe(), "planned target \"main.typ\" already exists");
    let conflicting = FilesystemPublicationPreflightIssue::ConflictingTarget {
        relative_path: "a/b".to_string(),
        kind: FilesystemDestinationEntryKind::Directory,
    };
    assert_eq!(
        conflicting.describe(),
        "planned target \"a/b\" is an existing directory, not a regular file"
    );
    let alias = FilesystemPublicationPreflightIssue::PathAlias {
        first_path: "A.txt".to_string(),
        second_path: "a.txt".to_string(),
    };
    assert_eq!(
        alias.describe(),
        "planned paths \"A.txt\" and \"a.txt\" alias on this platform"
    );
    let root = FilesystemPublicationPreflightIssue::ConflictingDestinationRoot {
        path: "out".to_string(),
        kind: FilesystemDestinationEntryKind::File,
    };
    assert_eq!(root.describe(), "destination root \"out\" is a file");
    let failed = FilesystemPublicationPreflightIssue::InspectionFailed {
        path: "out/x".to_string(),
        detail: "permission denied".to_string(),
    };
    assert_eq!(
        failed.describe(),
        "could not inspect destination path \"out/x\": permission denied"
    );
}

#[test]
fn extraction_names_the_entry_in_the_way() {
    assert_eq!(join_path("extracted", "main.typ"), "extracted/main.typ");
    assert_eq!(join_path("extracted/", "main.typ"), "extracted/main.typ");
    assert_eq!(join_path("", "main.typ"), "main.typ");
    assert_eq!(join_path("extracted", "/abs"), "/abs");
    let existing = FilesystemPublicationPreflightIssue::ExistingTarget {
        relative_path: "main.typ".to_string(),
    };
    assert_eq!(
        extraction_conflict("extracted", &existing).unwrap(),
        "`extracted/main.typ` already exists (pass force to overwrite)"
    );
    let ancestor = FilesystemPublicationPreflightIssue::ConflictingAncestor {
        relative_path: "a/b.txt".to_string(),
        ancestor: "extracted/a".to_string(),
        kind: FilesystemDestinationEntryKind::File,
    };
    assert_eq!(
        extraction_conflict("extracted", &ancestor).unwrap(),
        "existing destination entry `extracted/a` conflicts with extraction"
    );
    let alias = FilesystemPublicationPreflightIssue::PathAlias {
        first_path: "A".to_string(),
        second_path: "a".to_string(),
    };
    assert!(extraction_conflict("extracted", &alias).is_none());
}

#[test]
fn windows_paths_alias_without_trailing_dots_and_case() {
    let windows = PathFolding { platform: PathPlatform::Windows, case_insensitive: true };
    let issues = preflight_planned_paths(&paths(&["Dir/Name.txt", "dir. /name.TXT.."]), windows, 255);
    assert_eq!(keys(&issues), vec![("Dir/Name.txt".to_string(), 1, "dir. /name.TXT..".to_string())]);
    assert!(preflight_planned_paths(&paths(&["a/b.txt", "a/c.txt"]), windows, 255).is_empty());
}

#[test]
fn apple_paths_alias_in_decomposed_form() {
    let composed = "caf\u{e9}.txt";
    let decomposed = "cafe\u{301}.txt";
    let apple = PathFolding { platform: PathPlatform::Apple, case_insensitive: false };
    let issues = preflight_planned_paths(&paths(&[composed, decomposed]), apple, 255);
    assert_eq!(keys(&issues), vec![(composed.to_string(), 1, decomposed.to_string())]);
    let folded = PathFolding { platform: PathPlatform::Apple, case_insensitive: true };
    assert_eq!(preflight_planned_paths(&paths(&["A.txt", "a.txt"]), folded, 255).len(), 1);
    assert!(preflight_planned_paths(&paths(&["A.txt", "a.txt"]), apple, 255).is_empty());
}

#[test]
fn windows_reserves_device_names_in_every_component() {
    let windows = PathFolding { platform: PathPlatform::Windows, case_insensitive: true };
    let issues = reserved_name_issues(&"con/a/LPT1.txt/b".to_string(), windows);
    assert_eq!(
        keys(&issues),
        vec![
            ("con/a/LPT1.txt/b".to_string(), 2, "con".to_string()),
            ("con/a/LPT1.txt/b".to_string(), 2, "LPT1.txt".to_string()),
        ]
    );
    assert!(reserved_name_issues(&"con/a".to_string(), other(false)).is_empty());
    assert!(reserved_name_issues(&"docs/readme.md".to_string(), windows).is_empty());
}

#[test]
fn long_target_paths_are_reported() {
    let path = "a/b.txt".to_string();
    assert!(path_length_issue(&path, 10, 0, 10).is_none());
    match path_length_issue(&path, 11, 0, 10) {
        Some(FilesystemPublicationPreflightIssue::PathTooLong { relative_path }) => assert_eq!(relative_path, path),
        other => panic!("expected a path-length issue, got {other:?}"),
    }
    assert!(path_length_issue(&path, 14, 4, 10).is_none());
    assert!(path_length_issue(&path, 3, 4, 0).is_none());
}

#[test]
fn platform_checks_skip_invalid_paths_and_keep_path_order() {
    let windows = PathFolding { platform: PathPlatform::Windows, case_insensitive: true };
    let planned = paths(&["aux/a.txt", "../con", "b/c.txt"]);
    let issues = platform_path_issues(&planned, &[5, 5, 50], windows, 0, 10);
    assert_eq!(
        keys(&issues),
        vec![
            ("aux/a.txt".to_string(), 2, "aux".to_string()),
            ("b/c.txt".to_string(), 4, String::new()),
        ]
    );
    let elsewhere = platform_path_issues(&planned, &[5, 5, 50], other(false), 0, 10);
    assert_eq!(keys(&elsewhere), vec![("b/c.txt".to_string(), 4, String::new())]);
}
