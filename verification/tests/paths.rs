use oxide_reader::paths::{first_pdf_extension, first_pdf_path, is_pdf_extension, is_pdf_path};
use oxide_reader::text::decimal_string;

#[test]
fn pdf_extension_in_any_case() {
    assert!(is_pdf_extension(Some("pdf")));
    assert!(is_pdf_extension(Some("PDF")));
    assert!(is_pdf_extension(Some("pDf")));
    assert!(!is_pdf_extension(Some("pdfx")));
    assert!(!is_pdf_extension(Some("pd")));
    assert!(!is_pdf_extension(Some("txt")));
    assert!(!is_pdf_extension(Some("")));
    assert!(!is_pdf_extension(Some("ṗdf")));
    assert!(!is_pdf_extension(None));
}

#[test]
fn pdf_paths() {
    assert!(is_pdf_path("report.pdf"));
    assert!(is_pdf_path("/home/me/Report.PDF"));
    assert!(is_pdf_path("a.b.pdf"));
    assert!(!is_pdf_path("notes.txt"));
    assert!(!is_pdf_path("archive.pdf.zip"));
    assert!(!is_pdf_path(".pdf"));
    assert!(!is_pdf_path("pdf"));
    assert!(!is_pdf_path(""));
}

#[test]
fn first_dropped_pdf() {
    let paths = vec!["a.txt".to_string(), "b.PDF".to_string(), "c.pdf".to_string()];
    assert_eq!(first_pdf_path(&paths), Some(1));
    assert_eq!(first_pdf_path(&vec!["x.png".to_string()]), None);
    assert_eq!(first_pdf_path(&vec![]), None);
}

#[test]
fn first_pdf_among_extensions() {
    let exts = vec![None, Some("doc".to_string()), Some("Pdf".to_string())];
    assert_eq!(first_pdf_extension(&exts), Some(2));
    assert_eq!(first_pdf_extension(&vec![None]), None);
}

#[test]
fn decimal_text() {
    assert_eq!(decimal_string(0), "0");
    assert_eq!(decimal_string(7), "7");
    assert_eq!(decimal_string(10), "10");
    assert_eq!(decimal_string(65535), "65535");
    assert_eq!(decimal_string(usize::MAX), usize::MAX.to_string());
}

#[test]
fn windows_style_pdf_paths() {
    assert!(is_pdf_path("C:\\Users\\me\\Report.Pdf"));
    assert!(is_pdf_path("docs\\a.b.pdf"));
    assert!(!is_pdf_path("C:\\Users\\me\\notes.txt"));
    let paths = vec!["C:\\a.txt".to_string(), "C:\\b.pdf".to_string()];
    assert_eq!(first_pdf_path(&paths), Some(1));
}
