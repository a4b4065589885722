use oxide_reader::viewer::{shadow_alpha, Content, ErrorKind, Viewer, ViewerError};

fn open(pages: u16) -> Viewer {
    let mut v = Viewer::new();
    assert!(v.apply_load("docs/report.pdf".to_string(), vec![1, 2, 3], Ok(pages)));
    v
}

#[test]
fn starts_empty() {
    let v = Viewer::new();
    assert!(!v.has_document());
    assert_eq!(v.page_count(), 0);
    assert_eq!(v.current_page(), 0);
    assert_eq!(v.content(false), Content::Empty);
    assert_eq!(v.render_target(false), None);
    assert!(v.document_bytes().is_none());
    assert!(v.file_name().is_none());
    assert!(v.error_message().is_none());
}

#[test]
fn load_shows_first_page_and_asks_for_a_render() {
    let mut v = open(5);
    assert!(v.has_document());
    assert_eq!(v.page_count(), 5);
    assert_eq!(v.current_page(), 0);
    assert_eq!(v.document_bytes(), Some(&[1u8, 2, 3][..]));
    assert_eq!(v.render_target(true), Some(0));
    assert_eq!(v.content(false), Content::Blank);
    v.render_finished(Ok(()));
    assert_eq!(v.render_target(true), None);
    assert_eq!(v.content(true), Content::Page);
}

#[test]
fn go_to_page_clamps_to_the_last_page() {
    let mut v = open(3);
    v.go_to_page(10);
    assert_eq!(v.current_page(), 2);
    v.go_to_page(1);
    assert_eq!(v.current_page(), 1);
    v.go_to_page(usize::MAX);
    assert_eq!(v.current_page(), 2);
}

#[test]
fn go_to_page_without_pages_stays_on_first() {
    let mut v = open(0);
    v.go_to_page(4);
    assert_eq!(v.current_page(), 0);
    v.page_forward();
    assert_eq!(v.current_page(), 0);
    assert!(!v.can_go_forward());
    assert!(!v.can_go_back());
}

#[test]
fn back_and_forward_are_held_at_the_ends() {
    let mut v = open(2);
    v.page_back();
    assert_eq!(v.current_page(), 0);
    assert!(!v.can_go_back());
    assert!(v.can_go_forward());
    v.page_forward();
    assert_eq!(v.current_page(), 1);
    assert!(v.can_go_back());
    assert!(!v.can_go_forward());
    v.page_forward();
    assert_eq!(v.current_page(), 1);
}

#[test]
fn forward_then_back_returns() {
    let mut v = open(4);
    v.go_to_page(1);
    v.page_forward();
    assert_eq!(v.current_page(), 2);
    v.page_back();
    assert_eq!(v.current_page(), 1);
}

#[test]
fn go_to_page_twice_is_once() {
    let mut v = open(4);
    v.render_finished(Ok(()));
    v.go_to_page(3);
    assert_eq!(v.render_target(true), Some(3));
    v.render_finished(Ok(()));
    v.go_to_page(3);
    assert_eq!(v.current_page(), 3);
    assert_eq!(v.render_target(true), None);
}

#[test]
fn page_change_and_zoom_change_ask_for_a_render() {
    let mut v = open(4);
    v.render_finished(Ok(()));
    assert_eq!(v.render_target(true), None);
    assert_eq!(v.render_target(false), Some(0));
    v.zoom_changed();
    assert_eq!(v.render_target(true), Some(0));
    v.render_finished(Ok(()));
    v.page_forward();
    assert_eq!(v.render_target(true), Some(1));
}

#[test]
fn refused_document_keeps_the_open_one() {
    let mut v = open(4);
    v.go_to_page(2);
    assert!(!v.apply_load("b.pdf".to_string(), vec![9], Err("Unknown".to_string())));
    assert_eq!(v.page_count(), 4);
    assert_eq!(v.current_page(), 2);
    assert_eq!(v.document_bytes(), Some(&[1u8, 2, 3][..]));
    assert_eq!(v.content(true), Content::Error);
    assert_eq!(v.error_message(), Some("Invalid PDF: Unknown".to_string()));
}

#[test]
fn accepted_document_clears_the_error() {
    let mut v = Viewer::new();
    assert!(!v.apply_load("b.pdf".to_string(), vec![], Err("x".to_string())));
    assert_eq!(v.content(false), Content::Error);
    assert!(v.apply_load("c.pdf".to_string(), vec![7], Ok(1)));
    assert!(v.error_message().is_none());
    assert_eq!(v.content(false), Content::Blank);
}

#[test]
fn failed_render_is_shown_and_tried_again() {
    let mut v = open(2);
    v.render_finished(Err("PageIndexOutOfBounds".to_string()));
    assert_eq!(v.content(true), Content::Error);
    assert_eq!(v.error_message(), Some("PageIndexOutOfBounds".to_string()));
    assert_eq!(v.render_target(true), Some(0));
}

#[test]
fn error_texts() {
    let e = ViewerError { kind: ErrorKind::CannotRead, detail: "No such file".to_string() };
    assert_eq!(e.message(), "Cannot read file: No such file");
    let e = ViewerError { kind: ErrorKind::InvalidPdf, detail: "FormatError".to_string() };
    assert_eq!(e.message(), "Invalid PDF: FormatError");
    let e = ViewerError { kind: ErrorKind::Render, detail: "oops".to_string() };
    assert_eq!(e.message(), "oops");
}

#[test]
fn page_label_counts_from_one() {
    let mut v = open(12);
    assert_eq!(v.page_label(), "1  /  12");
    v.go_to_page(9);
    assert_eq!(v.page_label(), "10  /  12");
    let v = open(65535);
    assert_eq!(v.page_label(), "1  /  65535");
}

#[test]
fn file_name_of_the_open_document() {
    let v = open(1);
    assert_eq!(v.file_name(), Some("report.pdf".to_string()));
}

#[test]
fn shadow_rings_fade() {
    let alphas: Vec<u8> = (0..6u8).map(shadow_alpha).collect();
    assert_eq!(alphas, vec![55, 46, 37, 28, 19, 10]);
    assert_eq!(shadow_alpha(7), 0);
    assert_eq!(shadow_alpha(28), 0);
}

#[test]
fn file_name_of_bare_and_parent_paths() {
    let mut v = Viewer::new();
    v.apply_load("report.pdf".to_string(), vec![], Ok(1));
    assert_eq!(v.file_name(), Some("report.pdf".to_string()));
    v.apply_load("docs/..".to_string(), vec![], Ok(1));
    assert_eq!(v.file_name(), None);
}

#[test]
fn every_viewer_is_well_formed() {
    let mut v = open(3);
    v.go_to_page(7);
    v.prove_well_formed();
    assert_eq!(v.current_page(), 2);
}

#[test]
fn no_redraw_due_means_the_shown_page_is_drawn() {
    let mut v = open(4);
    v.render_finished(Ok(()));
    v.go_to_page(2);
    assert_eq!(v.render_target(true), Some(2));
    v.render_finished(Ok(()));
    assert_eq!(v.render_target(true), None);
    v.prove_well_formed();
}

#[test]
fn file_name_of_a_windows_style_path() {
    let mut v = Viewer::new();
    v.apply_load("C:\\docs\\a.pdf".to_string(), vec![], Ok(1));
    let name = v.file_name().unwrap();
    assert!(name == "a.pdf" || name == "C:\\docs\\a.pdf");
}
