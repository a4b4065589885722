use vstd::prelude::*;

verus! {

/// The keys that the reader listens to; every other key is `Other`.
#[derive(Clone, Copy, Debug, PartialEq, Eq, Structural)]
pub enum Key {
    O,
    ArrowLeft,
    ArrowRight,
    PageUp,
    PageDown,
    Plus,
    Equals,
    Minus,
    Num0,
    Other,
}

/// What the keys pressed in one frame ask the reader to do.
#[derive(Clone, Copy, Debug, PartialEq, Eq, Structural)]
pub struct Commands {
    pub open: bool,
    pub previous: bool,
    pub next: bool,
    pub zoom_in: bool,
    pub zoom_out: bool,
    pub zoom_reset: bool,
}

/// The commands that a frame's keys give: Ctrl+O opens a file; Left or
/// Page Up goes back a page; Right or Page Down goes forward; Ctrl with `+`
/// or `=` zooms in, Ctrl with `-` zooms out, Ctrl+0 resets the zoom.
pub open spec fn commands_for(ctrl: bool, pressed: Seq<Key>) -> Commands {
    Commands {
        open: ctrl && pressed.contains(Key::O),
        previous: pressed.contains(Key::ArrowLeft) || pressed.contains(Key::PageUp),
        next: pressed.contains(Key::ArrowRight) || pressed.contains(Key::PageDown),
        zoom_in: ctrl && (pressed.contains(Key::Plus) || pressed.contains(Key::Equals)),
        zoom_out: ctrl && pressed.contains(Key::Minus),
        zoom_reset: ctrl && pressed.contains(Key::Num0),
    }
}

/// Whether `key` was pressed in the frame.
pub fn key_pressed(pressed: &Vec<Key>, key: Key) -> (r: bool)
    ensures
        r == pressed@.contains(key),
{
    let mut i: usize = 0;
    while i < pressed.len()
        invariant
            i <= pressed.len(),
            forall|j: int| 0 <= j < i ==> pressed@[j] != key,
        decreases pressed.len() - i,
    {
        if pressed[i] == key {
            assert(pressed@[i as int] == key);
            return true;
        }
        i = i + 1;
    }
    false
}

/// The commands that the keys pressed in a frame give, with `ctrl` telling
/// whether Ctrl was held.
pub fn commands(ctrl: bool, pressed: &Vec<Key>) -> (c: Commands)
    ensures
        c == commands_for(ctrl, pressed@),
{
    let open = ctrl && key_pressed(pressed, Key::O);
    let previous = key_pressed(pressed, Key::ArrowLeft) || key_pressed(pressed, Key::PageUp);
    let next = key_pressed(pressed, Key::ArrowRight) || key_pressed(pressed, Key::PageDown);
    let zoom_in = ctrl && (key_pressed(pressed, Key::Plus) || key_pressed(pressed, Key::Equals));
    let zoom_out = ctrl && key_pressed(pressed, Key::Minus);
    let zoom_reset = ctrl && key_pressed(pressed, Key::Num0);
    Commands { open, previous, next, zoom_in, zoom_out, zoom_reset }
}

} // verus!
