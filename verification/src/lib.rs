//! The decisions of a small PDF reader: which page is shown, when a page
//! must be drawn again, what a load or a failed render leaves behind, which
//! keys ask for what, and the texts the toolbar and the error panel show.

pub mod text;
pub mod pdf;
pub mod paths;
pub mod input;
pub mod viewer;
pub mod laws;
