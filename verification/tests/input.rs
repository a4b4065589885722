use oxide_reader::input::{commands, Commands, Key};

fn none() -> Commands {
    Commands { open: false, previous: false, next: false, zoom_in: false, zoom_out: false, zoom_reset: false }
}

#[test]
fn ctrl_o_opens() {
    assert_eq!(commands(true, &vec![Key::O]), Commands { open: true, ..none() });
    assert_eq!(commands(false, &vec![Key::O]), none());
}

#[test]
fn arrows_and_page_keys_move() {
    assert_eq!(commands(false, &vec![Key::ArrowRight]), Commands { next: true, ..none() });
    assert_eq!(commands(false, &vec![Key::PageDown]), Commands { next: true, ..none() });
    assert_eq!(commands(false, &vec![Key::ArrowLeft]), Commands { previous: true, ..none() });
    assert_eq!(commands(true, &vec![Key::PageUp]), Commands { previous: true, ..none() });
}

#[test]
fn ctrl_keys_zoom() {
    assert_eq!(commands(true, &vec![Key::Plus]), Commands { zoom_in: true, ..none() });
    assert_eq!(commands(true, &vec![Key::Equals]), Commands { zoom_in: true, ..none() });
    assert_eq!(commands(true, &vec![Key::Minus]), Commands { zoom_out: true, ..none() });
    assert_eq!(commands(true, &vec![Key::Num0]), Commands { zoom_reset: true, ..none() });
    assert_eq!(commands(false, &vec![Key::Plus, Key::Minus, Key::Num0]), none());
}

#[test]
fn several_keys_in_one_frame() {
    let c = commands(true, &vec![Key::Other, Key::ArrowLeft, Key::ArrowRight, Key::Minus]);
    assert_eq!(c, Commands { previous: true, next: true, zoom_out: true, ..none() });
    assert_eq!(commands(true, &vec![]), none());
}

#[test]
fn navigate_moves_back_then_forward() {
    let mut v = oxide_reader::viewer::Viewer::new();
    v.apply_load("a.pdf".to_string(), vec![], Ok(3));
    v.navigate(&commands(false, &vec![Key::ArrowRight]));
    assert_eq!(v.current_page(), 1);
    v.navigate(&commands(false, &vec![Key::PageDown, Key::PageDown]));
    assert_eq!(v.current_page(), 2);
    v.navigate(&commands(false, &vec![Key::ArrowLeft, Key::ArrowRight]));
    assert_eq!(v.current_page(), 2);
    v.navigate(&commands(false, &vec![Key::PageUp]));
    assert_eq!(v.current_page(), 1);
}
