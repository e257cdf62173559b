use typst_pack::artifact_publication::{CompilationArtifact, OutputFormat};
use typst_pack::command_text::{
    expand_output_template, has_indexable_page_template, missing_page_template_error,
    make_dependency_text, munge_make_path, parse_input, replace_text, text_contains,
    zero_dependency_bytes, duplicate_output_target, duplicate_target_message,
    reference_export_workers, stdin_pack_error, stdout_conflict_error, stdout_target,
};
use typst_pack::NonZeroUsize;

fn png(page: Option<usize>) -> CompilationArtifact {
    CompilationArtifact {
        format: OutputFormat::Png,
        bytes: vec![1, 2, 3],
        source_page_number: page.map(|page| NonZeroUsize::new(page).unwrap()),
    }
}

#[test]
fn templates_name_each_page() {
    let artifacts = vec![png(Some(1)), png(Some(2)), png(Some(10))];
    assert_eq!(
        expand_output_template("out-{p}.png", &artifacts, 12).unwrap(),
        vec!["out-1.png", "out-2.png", "out-10.png"]
    );
    assert_eq!(
        expand_output_template("out-{0p}.png", &artifacts, 12).unwrap(),
        vec!["out-01.png", "out-02.png", "out-10.png"]
    );
    assert_eq!(
        expand_output_template("{n}-of-{t}.png", &artifacts, 120).unwrap(),
        vec!["001-of-120.png", "002-of-120.png", "010-of-120.png"]
    );
}

#[test]
fn artifacts_without_a_source_page_count_by_position() {
    let artifacts = vec![png(None), png(None)];
    assert_eq!(
        expand_output_template("page-{p}.png", &artifacts, 2).unwrap(),
        vec!["page-1.png", "page-2.png"]
    );
}

#[test]
fn a_template_without_a_page_serves_a_single_artifact_only() {
    assert_eq!(
        expand_output_template("out.png", &[png(Some(3))], 5).unwrap(),
        vec!["out.png"]
    );
    assert_eq!(
        expand_output_template("out.png", &[png(Some(1)), png(Some(2))], 5),
        Err(missing_page_template_error())
    );
    assert_eq!(
        missing_page_template_error(),
        "cannot export multiple images without a page number template ({p}, {0p}) in the output path"
    );
    assert!(expand_output_template("out.png", &[], 5).unwrap().is_empty());
    assert!(expand_output_template("out-{t}.png", &[png(Some(1)), png(Some(2))], 5).is_err());
}

#[test]
fn page_placeholders_are_recognised() {
    assert!(has_indexable_page_template("a{p}"));
    assert!(has_indexable_page_template("{0p}b"));
    assert!(has_indexable_page_template("x{n}y"));
    assert!(!has_indexable_page_template("{t}{0}{P}"));
    assert!(text_contains("abc", ""));
    assert!(!text_contains("", "a"));
}

#[test]
fn replacement_takes_occurrences_from_the_left_without_overlap() {
    assert_eq!(replace_text("aaa", "aa", "b"), "ba");
    assert_eq!(replace_text("{p}-{p}", "{p}", "7"), "7-7");
    assert_eq!(replace_text("none", "{p}", "7"), "none");
}

#[test]
fn inputs_split_at_the_first_equal_sign() {
    assert_eq!(
        parse_input("key=value").unwrap(),
        ("key".to_owned(), "value".to_owned())
    );
    assert_eq!(
        parse_input(" k = v=w ").unwrap(),
        ("k".to_owned(), "v=w".to_owned())
    );
    assert_eq!(parse_input("k=").unwrap(), ("k".to_owned(), String::new()));
    assert_eq!(
        parse_input("novalue"),
        Err("input must be a key and a value separated by an equal sign".to_owned())
    );
    assert_eq!(
        parse_input(" =x"),
        Err("the key was missing or empty".to_owned())
    );
}

#[test]
fn makefile_paths_escape_special_characters() {
    assert_eq!(munge_make_path("a b"), "a\\ b");
    assert_eq!(munge_make_path("a\\ b"), "a\\\\\\ b");
    assert_eq!(munge_make_path("cost$1"), "cost$$1");
    assert_eq!(munge_make_path("c:#\tx"), "c\\:\\#\\\tx");
    assert_eq!(munge_make_path("plain/path.pdf"), "plain/path.pdf");
}

use typst_pack::command_text::{infer_output_format, pdf_tag_conflict};
use typst_pack::compilation::PdfStandard;

#[test]
fn the_output_format_follows_the_request_then_the_extension() {
    assert_eq!(infer_output_format(Some(OutputFormat::Svg), Some("x.pdf")), Ok(OutputFormat::Svg));
    assert_eq!(infer_output_format(None, None), Ok(OutputFormat::Pdf));
    assert_eq!(infer_output_format(None, Some("-")), Ok(OutputFormat::Pdf));
    assert_eq!(infer_output_format(None, Some("out.PNG")), Ok(OutputFormat::Png));
    assert_eq!(infer_output_format(None, Some("dir/page.Svg")), Ok(OutputFormat::Svg));
    assert_eq!(infer_output_format(None, Some("a.HtMl")), Ok(OutputFormat::Html));
    assert_eq!(infer_output_format(None, Some("x.pdf/")), Ok(OutputFormat::Pdf));
    assert_eq!(infer_output_format(None, Some("./y.tar.pdf/.")), Ok(OutputFormat::Pdf));
    assert_eq!(
        infer_output_format(None, Some("x.txt")),
        Err("cannot infer output format from extension `txt`; pass --format".to_owned())
    );
    assert_eq!(
        infer_output_format(None, Some("a.")),
        Err("cannot infer output format from extension ``; pass --format".to_owned())
    );
    for without in ["noext", ".pdf", "dir/..", "/", "."] {
        assert_eq!(
            infer_output_format(None, Some(without)),
            Err("cannot infer output format; pass --format".to_owned()),
            "{without}"
        );
    }
}

#[test]
fn disabling_tags_is_refused_for_standards_that_require_them() {
    assert_eq!(
        pdf_tag_conflict(true, false, &[PdfStandard::Pdf17, PdfStandard::PdfUa1]),
        Some((
            "cannot disable PDF tags when exporting a PDF/UA-1 document".to_owned(),
            Vec::new()
        ))
    );
    assert_eq!(
        pdf_tag_conflict(false, true, &[PdfStandard::PdfA1A]),
        Some((
            "cannot disable PDF tags when exporting a PDF/A-1a document".to_owned(),
            vec!["using --pages implies --no-pdf-tags".to_owned()]
        ))
    );
    assert_eq!(pdf_tag_conflict(false, false, &[PdfStandard::PdfUa1]), None);
    assert_eq!(pdf_tag_conflict(true, true, &[PdfStandard::Pdf17]), None);
}

use typst_pack::command_text::default_output_dir;

#[test]
fn extraction_defaults_to_the_stem_of_the_pack_name() {
    assert_eq!(default_output_dir("project.typk"), "project");
    assert_eq!(default_output_dir("dir/archive.tar.typk"), "archive.tar");
    assert_eq!(default_output_dir(".hidden"), ".hidden");
    assert_eq!(default_output_dir("plain"), "plain");
    assert_eq!(default_output_dir(".."), "extracted");
    assert_eq!(default_output_dir("/"), "extracted");
}

#[test]
fn make_dependencies_list_outputs_then_inputs() {
    let outputs = vec![Some("out put.pdf".to_string()), None, Some("b.png".to_string())];
    let inputs = vec![Some("main.typ".to_string()), None, Some("cost$1.typ".to_string())];
    assert_eq!(
        make_dependency_text(&outputs, &inputs).unwrap(),
        "out\\ put.pdf b.png: main.typ cost$$1.typ\n"
    );
    let skipped_first = vec![None, Some("a.pdf".to_string())];
    assert_eq!(make_dependency_text(&skipped_first, &[]).unwrap(), " a.pdf:\n");
    assert_eq!(make_dependency_text(&[], &[]).unwrap(), ":\n");
}

#[test]
fn make_dependencies_refuse_the_standard_output() {
    let outputs = vec![Some("a.pdf".to_string()), Some("-".to_string())];
    assert_eq!(
        make_dependency_text(&outputs, &[Some("main.typ".to_string())]).unwrap_err(),
        "make dependencies contain the output path, but the output was stdout"
    );
}

#[test]
fn zero_dependencies_end_each_input_with_a_nul() {
    let inputs = vec![b"main.typ".to_vec(), Vec::new(), b"x".to_vec()];
    assert_eq!(zero_dependency_bytes(&inputs), b"main.typ\0\0x\0".to_vec());
    assert!(zero_dependency_bytes(&[]).is_empty());
}

#[test]
fn a_pack_from_stdin_needs_an_output() {
    assert_eq!(
        stdin_pack_error("-", false).unwrap(),
        "an explicit output is required when the Pack is read from stdin"
    );
    assert!(stdin_pack_error("-", true).is_none());
    assert!(stdin_pack_error("doc.pack", false).is_none());
}

#[test]
fn output_and_dependencies_cannot_share_stdout() {
    assert_eq!(
        stdout_conflict_error(Some("-"), Some("-")).unwrap(),
        "cannot write both output and dependencies to stdout"
    );
    assert!(stdout_conflict_error(Some("-"), Some("deps.d")).is_none());
    assert!(stdout_conflict_error(None, Some("-")).is_none());
}

#[test]
fn stdout_takes_exactly_one_artifact() {
    let stdout = vec!["-".to_string()];
    assert_eq!(stdout_target(&stdout, 1), Ok(true));
    assert_eq!(
        stdout_target(&stdout, 2).unwrap_err(),
        "cannot write output to stdout unless exactly one file is emitted"
    );
    assert_eq!(stdout_target(&["a.png".to_string(), "b.png".to_string()], 2), Ok(false));
}

#[test]
fn output_targets_are_compared_after_normalization() {
    let distinct: Vec<String> = vec!["out/1.png".into(), "out/2.png".into()];
    assert_eq!(duplicate_output_target(&distinct), None);
    let same: Vec<String> = vec!["out/1.png".into(), "out/./x/../1.png".into()];
    assert_eq!(duplicate_output_target(&same), Some(1));
    let rooted: Vec<String> = vec!["/../a".into(), "/a".into(), "../a".into()];
    assert_eq!(duplicate_output_target(&rooted), Some(1));
    let relative: Vec<String> = vec!["../a".into(), "a".into()];
    assert_eq!(duplicate_output_target(&relative), None);
    assert_eq!(
        duplicate_target_message("out/1.png"),
        "multiple artifacts expand to the same output path `out/1.png`"
    );
}

#[test]
fn export_workers_are_capped_at_the_reference_profile() {
    assert_eq!(reference_export_workers(1), 1);
    assert_eq!(reference_export_workers(4), 4);
    assert_eq!(reference_export_workers(64), 4);
    assert_eq!(reference_export_workers(0), 1);
}
