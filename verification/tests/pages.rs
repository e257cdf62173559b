use typst_pack::pages::{
    canonical_page_selection, canonicalize_page_selection, parse_page_selection, selected_pages,
    PageRange, PageSelection,
};
use typst_pack::request::{
    CompilationRequestIssue, CompilationRequestRejection, PdfStandardsValidationError,
};
use typst_pack::NonZeroUsize;

fn page(n: usize) -> NonZeroUsize {
    NonZeroUsize::new(n).unwrap()
}

fn range(start: Option<usize>, end: Option<usize>) -> PageRange {
    PageRange {
        start: start.map(page),
        end: end.map(page),
    }
}

fn bounds(selection: &PageSelection) -> Vec<(Option<usize>, Option<usize>)> {
    selection
        .ranges()
        .iter()
        .map(|r| (r.start.map(|n| n.get()), r.end.map(|n| n.get())))
        .collect()
}

fn parse_error(text: &str) -> String {
    match parse_page_selection(text) {
        Ok(selection) => panic!("`{text}` parsed as {:?}", bounds(&selection)),
        Err(message) => message,
    }
}

#[test]
fn parses_pages_closed_ranges_and_open_ends() {
    let selection = parse_page_selection("1,3-5,9-").unwrap();
    assert_eq!(
        bounds(&selection),
        vec![(Some(1), Some(1)), (Some(3), Some(5)), (Some(9), None)]
    );
    let selection = parse_page_selection(" 2 - 4 , -3").unwrap();
    assert_eq!(bounds(&selection), vec![(Some(2), Some(4)), (None, Some(3))]);
    let selection = parse_page_selection("+4, 7 - ").unwrap();
    assert_eq!(bounds(&selection), vec![(Some(4), Some(4)), (Some(7), None)]);
    let selection = parse_page_selection("\u{a0}6\u{3000}").unwrap();
    assert_eq!(bounds(&selection), vec![(Some(6), Some(6))]);
    let selection = parse_page_selection("007").unwrap();
    assert_eq!(bounds(&selection), vec![(Some(7), Some(7))]);
}

#[test]
fn refuses_each_malformed_part_with_its_message() {
    assert_eq!(parse_error(""), "page export range must not be empty");
    assert_eq!(parse_error("1,,2"), "page export range must not be empty");
    assert_eq!(parse_error("0"), "page numbers start at one");
    assert_eq!(parse_error("2-0"), "page numbers start at one");
    assert_eq!(parse_error("1, x"), "`x` is not a valid page number");
    assert_eq!(parse_error("00"), "`00` is not a valid page number");
    assert_eq!(parse_error("+"), "`+` is not a valid page number");
    assert_eq!(
        parse_error("99999999999999999999999"),
        "`99999999999999999999999` is not a valid page number"
    );
    assert_eq!(parse_error(" - "), "page export range must have start or end");
    assert_eq!(
        parse_error("5-3"),
        "page export range must end at a page after the start"
    );
    assert_eq!(
        parse_error("1-2-3"),
        "page export range must have a single hyphen"
    );
}

#[test]
fn the_first_refused_part_decides_the_message() {
    assert_eq!(parse_error("x,0"), "`x` is not a valid page number");
    assert_eq!(parse_error("3,0,x"), "page numbers start at one");
}

#[test]
fn canonical_selection_merges_overlapping_and_adjacent_ranges() {
    let selection = PageSelection::new(vec![
        range(Some(5), Some(7)),
        range(Some(1), Some(2)),
        range(Some(3), Some(4)),
        range(Some(9), None),
        range(Some(12), Some(10)),
    ]);
    let (all, intervals) = canonical_page_selection(&selection);
    assert!(!all);
    assert_eq!(intervals, vec![(1, 7), (9, usize::MAX)]);

    let (all, intervals) = canonical_page_selection(&PageSelection::all());
    assert!(all);
    assert!(intervals.is_empty());

    let reversed = PageSelection::new(vec![range(Some(3), Some(1))]);
    let (all, intervals) = canonical_page_selection(&reversed);
    assert!(!all);
    assert!(intervals.is_empty());

    let open = PageSelection::new(vec![range(None, Some(4)), range(Some(2), Some(6))]);
    assert_eq!(canonical_page_selection(&open).1, vec![(1, 6)]);
}

#[test]
fn selections_of_the_same_pages_have_the_same_canonical_form() {
    let first = PageSelection::new(vec![range(Some(1), Some(3)), range(Some(4), Some(6))]);
    let second = PageSelection::new(vec![range(Some(2), Some(6)), range(None, Some(1))]);
    assert_eq!(
        canonical_page_selection(&first).1,
        canonical_page_selection(&second).1
    );
}

#[test]
fn canonicalization_reports_reversed_ranges_once_and_keeps_them() {
    let mut selection = PageSelection::new(vec![
        range(Some(5), Some(7)),
        range(Some(6), Some(3)),
        range(Some(1), Some(2)),
        range(Some(6), Some(3)),
        range(Some(9), None),
        range(Some(4), Some(2)),
    ]);
    let mut issues = vec![CompilationRequestIssue::InvalidPpi];
    canonicalize_page_selection(&mut selection, &mut issues);
    assert_eq!(
        issues,
        vec![
            CompilationRequestIssue::InvalidPpi,
            CompilationRequestIssue::InvalidPageRange {
                start: page(4),
                end: page(2)
            },
            CompilationRequestIssue::InvalidPageRange {
                start: page(6),
                end: page(3)
            },
        ]
    );
    assert_eq!(
        bounds(&selection),
        vec![
            (Some(1), Some(2)),
            (Some(4), Some(2)),
            (Some(5), Some(7)),
            (Some(6), Some(3)),
            (Some(9), None),
        ]
    );

    let mut again = selection.clone();
    let mut more = Vec::new();
    canonicalize_page_selection(&mut again, &mut more);
    assert_eq!(again, selection);
    assert_eq!(more.len(), 2);
}

#[test]
fn canonicalization_keeps_an_empty_selection() {
    let mut selection = PageSelection::all();
    let mut issues = Vec::new();
    canonicalize_page_selection(&mut selection, &mut issues);
    assert!(issues.is_empty());
    assert!(selection.ranges().is_empty());
}

#[test]
fn request_issues_describe_themselves() {
    let issue = CompilationRequestIssue::InvalidPageRange {
        start: page(12),
        end: page(3),
    };
    assert_eq!(
        issue.describe(),
        "page selection range 12-3 ends before it starts"
    );
    let standards = PdfStandardsValidationError::new(
        "PDF/A-1b requires version 1.4".to_owned(),
        vec!["choose one".to_owned()],
    );
    assert_eq!(
        CompilationRequestIssue::InvalidPdfStandards(standards.clone()).describe(),
        "invalid PDF standards: PDF/A-1b requires version 1.4"
    );
    assert_eq!(standards.hints(), ["choose one".to_owned()]);
    let single = CompilationRequestRejection::new(vec![issue.clone()]);
    assert_eq!(
        single.describe(),
        "page selection range 12-3 ends before it starts"
    );
    let several = CompilationRequestRejection::new(vec![
        issue,
        CompilationRequestIssue::UnsupportedBundleFeature,
    ]);
    assert_eq!(
        several.describe(),
        "the compilation request contains multiple invalid values"
    );
    assert_eq!(several.issues().len(), 2);
}

use typst_pack::compilation::{pdf_standard_identity, pdf_standard_requiring_tags, PdfStandard};

#[test]
fn pdf_standards_have_identities_and_some_require_tags() {
    assert_eq!(pdf_standard_identity(PdfStandard::Pdf17), "1.7");
    assert_eq!(pdf_standard_identity(PdfStandard::PdfA2U), "a-2u");
    assert_eq!(pdf_standard_identity(PdfStandard::PdfUa1), "ua-1");
    assert_eq!(
        pdf_standard_requiring_tags(&[PdfStandard::Pdf17, PdfStandard::PdfA2A, PdfStandard::PdfUa1]),
        Some("PDF/A-2a")
    );
    assert_eq!(
        pdf_standard_requiring_tags(&[PdfStandard::PdfA2B, PdfStandard::Pdf20]),
        None
    );
}

#[test]
fn a_selection_takes_the_pages_its_ranges_hold() {
    assert_eq!(selected_pages(&PageSelection::all(), 3), vec![1, 2, 3]);
    let selection = PageSelection::new(vec![range(Some(5), None), range(None, Some(2)), range(Some(4), Some(3))]);
    assert_eq!(selected_pages(&selection, 6), vec![1, 2, 5, 6]);
    let reversed = PageSelection::new(vec![range(Some(4), Some(3))]);
    assert!(selected_pages(&reversed, 6).is_empty());
    assert!(selected_pages(&selection, 0).is_empty());
}

use typst_pack::artifact_publication::OutputFormat;
use typst_pack::compilation::{
    CompilationOutputSpecification, HtmlOutputSpecification, SvgOutputSpecification, TypstTarget,
};

#[test]
fn output_specifications_name_their_format_and_target() {
    let html = CompilationOutputSpecification::Html(HtmlOutputSpecification::new(true));
    assert_eq!(html.format(), OutputFormat::Html);
    assert_eq!(html.target(), TypstTarget::Html);
    let svg = CompilationOutputSpecification::Svg(SvgOutputSpecification::new(
        typst_pack::compilation::PageSelection::all(),
        false,
        false,
    ));
    assert_eq!(svg.format(), OutputFormat::Svg);
    assert_eq!(svg.target(), TypstTarget::Paged);
}
