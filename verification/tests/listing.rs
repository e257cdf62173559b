use typst_pack::listing::{listing, PackListing};

#[test]
fn an_inspection_lists_files_packages_and_fonts() {
    let full = PackListing {
        pack: "doc.pack".to_string(),
        format_version: 1,
        entrypoint: "main.typ".to_string(),
        name: Some("Doc".to_string()),
        description: None,
        authors: vec!["Ann".to_string(), "Bo".to_string()],
        files: vec![("main.typ".to_string(), "12 B".to_string())],
        vendored: vec![("@preview/a:1.0.0".to_string(), 3, "1.5 KiB".to_string())],
        unvendored: vec!["@preview/b:2.0.0".to_string()],
        fonts: vec![("font:ttf:sha256:ab".to_string(), 0, "2.0 MiB".to_string(), "Serif".to_string())],
    };
    assert_eq!(
        listing(&full),
        "pack: doc.pack\nformat version: 1\nentrypoint: main.typ\nname: Doc\nauthors: Ann, Bo\n\n\
         packed project files:\n  main.typ (12 B)\n\nvendored packages:\n  @preview/a:1.0.0 (3 files, 1.5 KiB)\n\n\
         unvendored packages:\n  @preview/b:2.0.0\n\nembedded fonts:\n  font:ttf:sha256:ab face 0 (2.0 MiB) - Serif\n"
    );
    let bare = PackListing {
        pack: "-".to_string(),
        format_version: 2,
        entrypoint: "a.typ".to_string(),
        name: None,
        description: Some("d".to_string()),
        authors: Vec::new(),
        files: Vec::new(),
        vendored: Vec::new(),
        unvendored: Vec::new(),
        fonts: Vec::new(),
    };
    assert_eq!(listing(&bare), "pack: -\nformat version: 2\nentrypoint: a.typ\ndescription: d\n\npacked project files:\n");
}
