//! The output collector: pattern matching, ordering and page validation.

use sitro::NamePattern;
use sitro::RenderError;
use sitro::collect_plan;
use sitro::finalize_document;
use sitro::page_is_png;
use sitro::pattern::capture_page_number;
use sitro::validate_document;

fn png_page() -> Vec<u8> {
    vec![0x89, 0x50, 0x4E, 0x47, 0x0D, 0x0A, 0x1A, 0x0A, 1, 2, 3]
}

#[test]
fn capture_reads_the_page_number() {
    let pat = NamePattern::out_numbered();
    assert_eq!(capture_page_number(b"out-1.png", &pat), Some(1));
    assert_eq!(capture_page_number(b"out-12.png", &pat), Some(12));
    assert_eq!(capture_page_number(b"out-007.png", &pat), Some(7));
    assert_eq!(capture_page_number(b"notes.txt", &pat), None);
    assert_eq!(capture_page_number(b"out-.png", &pat), None);
    assert_eq!(capture_page_number(b"out-3.jpg", &pat), None);
    assert_eq!(capture_page_number(b"file.pdf", &pat), None);
}

#[test]
fn capture_finds_the_leftmost_match() {
    let pat = NamePattern::out_numbered();
    assert_eq!(capture_page_number(b"xout-3.png", &pat), Some(3));
    assert_eq!(capture_page_number(b"out-1.out-2.png", &pat), Some(2));
    let dash = NamePattern::dash_numbered();
    assert_eq!(capture_page_number(b"page-4.png", &dash), Some(4));
    assert_eq!(capture_page_number(b"file-10.png", &dash), Some(10));
    assert_eq!(capture_page_number(b"file.pdf", &dash), None);
}

#[test]
fn capture_rejects_oversized_numbers() {
    let pat = NamePattern::out_numbered();
    assert_eq!(capture_page_number(b"out-2147483647.png", &pat), Some(2147483647));
    assert_eq!(capture_page_number(b"out-2147483648.png", &pat), None);
    assert_eq!(capture_page_number(b"out-99999999999999999999.png", &pat), None);
}

#[test]
fn collect_orders_by_page_number_and_skips_strangers() {
    let names: Vec<Vec<u8>> = vec![
        b"out-1.png".to_vec(),
        b"out-2.png".to_vec(),
        b"out-10.png".to_vec(),
        b"notes.txt".to_vec(),
    ];
    let plan = collect_plan(&names, &NamePattern::out_numbered()).unwrap();
    assert_eq!(plan, vec![0, 1, 2]);
}

#[test]
fn collect_is_independent_of_listing_order() {
    let names: Vec<Vec<u8>> = vec![
        b"out-10.png".to_vec(),
        b"notes.txt".to_vec(),
        b"out-1.png".to_vec(),
        b"out-2.png".to_vec(),
    ];
    let plan = collect_plan(&names, &NamePattern::out_numbered()).unwrap();
    assert_eq!(plan, vec![2, 3, 0]);
}

#[test]
fn collect_breaks_number_ties_by_listing_position() {
    let names: Vec<Vec<u8>> = vec![b"xout-1.png".to_vec(), b"out-1.png".to_vec()];
    let plan = collect_plan(&names, &NamePattern::out_numbered()).unwrap();
    assert_eq!(plan, vec![0, 1]);
}

#[test]
fn collect_fails_loudly_when_nothing_matches() {
    let names: Vec<Vec<u8>> = vec![b"file.pdf".to_vec(), b"notes.txt".to_vec()];
    let e = collect_plan(&names, &NamePattern::out_numbered()).unwrap_err();
    assert!(matches!(e, RenderError::OutputContract(_)));
    assert_eq!(e.message(), "no output files matched the expected pattern");
    assert!(!e.is_fatal());

    let empty: Vec<Vec<u8>> = vec![];
    assert!(collect_plan(&empty, &NamePattern::out_numbered()).is_err());
}

#[test]
fn png_signature_check() {
    assert!(page_is_png(&png_page()));
    assert!(page_is_png(&[0x89, 0x50, 0x4E, 0x47]));
    assert!(!page_is_png(&[]));
    assert!(!page_is_png(&[0x89, 0x50, 0x4E]));
    assert!(!page_is_png(&[0x88, 0x50, 0x4E, 0x47, 0]));
    assert!(!page_is_png(b"GIF89a"));
}

#[test]
fn validate_document_checks_every_page() {
    assert!(validate_document(&vec![png_page(), png_page()]).is_ok());

    let e = validate_document(&vec![]).unwrap_err();
    assert!(matches!(e, RenderError::OutputContract(_)));
    assert_eq!(e.message(), "backend produced no pages");

    let e = validate_document(&vec![png_page(), vec![1, 2, 3, 4, 5]]).unwrap_err();
    assert_eq!(e.message(), "rendered page is not PNG-encoded");

    let e = validate_document(&vec![vec![]]).unwrap_err();
    assert!(matches!(e, RenderError::OutputContract(_)));
}

#[test]
fn finalize_checks_the_page_count() {
    let pages = vec![png_page(), png_page(), png_page()];
    let done = finalize_document(pages.clone(), 3).unwrap();
    assert_eq!(done, pages);

    let e = finalize_document(pages.clone(), 2).unwrap_err();
    assert_eq!(e.message(), "page count does not match the document");

    let e = finalize_document(vec![], 0).unwrap_err();
    assert!(matches!(e, RenderError::OutputContract(_)));

    assert!(finalize_document(vec![png_page(), vec![9, 9, 9, 9]], 2).is_err());
}
