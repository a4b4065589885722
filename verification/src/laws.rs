use vstd::prelude::*;

use crate::input::Commands;
use crate::paths::{eq_ignore_ascii_case, first_pdf_at, names_pdf};
use crate::viewer::{min_nat, Content, ViewerModel};

verus! {

/// The reader starts well formed.
pub proof fn law_initial_wf()
    ensures
        ViewerModel::initial().wf(),
{
}

/// Every step of the reader keeps it well formed: the shown page never
/// leaves the document, whatever page is asked for, whatever the keys, and
/// whatever PDFium makes of a file.
pub proof fn law_steps_keep_wf(
    s: ViewerModel,
    p: nat,
    c: Commands,
    path: Seq<char>,
    bytes: Seq<u8>,
    parsed: Result<nat, Seq<char>>,
    detail: Seq<char>,
)
    requires
        s.wf(),
        parsed matches Ok(n) ==> n <= u16::MAX,
    ensures
        s.go_to(p).wf(),
        s.back().wf(),
        s.forward().wf(),
        s.navigate(c).wf(),
        s.zoom_changed().wf(),
        s.read_failed(detail).wf(),
        s.loaded(path, bytes, parsed).wf(),
        s.rendered().wf(),
        s.render_failed(detail).wf(),
{
    let s1 = if c.previous { s.back() } else { s };
    assert(s1.wf());
}

/// Going to a page shows that page, or the last page when it lies beyond.
pub proof fn law_go_to_clamps(s: ViewerModel, p: nat)
    ensures
        s.go_to(p).current_page == min_nat(p, s.last_page()),
        s.go_to(p).document == s.document,
{
}

/// Going to the same page twice is going there once.
pub proof fn law_go_to_idempotent(s: ViewerModel, p: nat)
    ensures
        s.go_to(p).go_to(p) == s.go_to(p),
{
}

/// A page forward, then a page back, returns to the page, unless the last
/// page was shown.
pub proof fn law_forward_then_back(s: ViewerModel)
    requires
        s.wf(),
        s.current_page + 1 < s.page_count(),
    ensures
        s.forward().back().current_page == s.current_page,
{
}

/// A page back, then a page forward, returns to the page, unless the first
/// page was shown.
pub proof fn law_back_then_forward(s: ViewerModel)
    requires
        s.wf(),
        s.current_page > 0,
    ensures
        s.back().forward().current_page == s.current_page,
{
}

/// Back on the first page and forward on the last page change nothing.
pub proof fn law_ends_hold(s: ViewerModel)
    requires
        s.wf(),
    ensures
        s.current_page == 0 ==> s.back() == s,
        s.current_page == s.last_page() ==> s.forward() == s,
{
}

/// The buttons are enabled exactly when they move the page.
pub proof fn law_buttons_match_moves(s: ViewerModel)
    requires
        s.wf(),
    ensures
        s.can_go_back() <==> s.back().current_page != s.current_page,
        s.can_go_forward() <==> s.forward().current_page != s.current_page,
{
}

/// A page that changes is drawn in the next frame, at any zoom.
pub proof fn law_new_page_is_drawn(s: ViewerModel, p: nat, zoom_matches: bool)
    requires
        s.document is Some,
        s.go_to(p).current_page != s.current_page,
    ensures
        s.go_to(p).render_target(zoom_matches) == Some(s.go_to(p).current_page),
{
}

/// A drawn page is not drawn again until the page or the zoom changes.
pub proof fn law_drawn_page_stays(s: ViewerModel, p: nat)
    requires
        s.document is Some,
    ensures
        s.rendered().render_target(true) is None,
        s.rendered().go_to(p).current_page == s.current_page ==> s.rendered().go_to(p).render_target(
            true,
        ) is None,
        s.rendered().render_target(false) == Some(s.current_page),
        s.rendered().zoom_changed().render_target(true) == Some(s.current_page),
{
}

/// A document that PDFium accepts is shown from its first page, which is
/// drawn in the next frame, and no error is shown.
pub proof fn law_load_shows_first_page(
    s: ViewerModel,
    path: Seq<char>,
    bytes: Seq<u8>,
    n: nat,
    zoom_matches: bool,
    has_texture: bool,
)
    ensures
        s.loaded(path, bytes, Ok(n)).current_page == 0,
        s.loaded(path, bytes, Ok(n)).page_count() == n,
        s.loaded(path, bytes, Ok(n)).render_target(zoom_matches) == Some(0nat),
        s.loaded(path, bytes, Ok(n)).content(has_texture) != Content::Error,
{
}

/// A file that cannot be read, or that PDFium refuses, leaves the open
/// document and its page as they were, and the error is shown.
pub proof fn law_failed_load_keeps_document(
    s: ViewerModel,
    path: Seq<char>,
    bytes: Seq<u8>,
    m: Seq<char>,
    has_texture: bool,
)
    ensures
        s.loaded(path, bytes, Err(m)).document == s.document,
        s.loaded(path, bytes, Err(m)).current_page == s.current_page,
        s.loaded(path, bytes, Err(m)).content(has_texture) == Content::Error,
        s.read_failed(m).document == s.document,
        s.read_failed(m).current_page == s.current_page,
        s.read_failed(m).content(has_texture) == Content::Error,
{
}

/// A failed render is shown as an error, and the page is tried again in
/// the next frame.
pub proof fn law_failed_render_is_shown(s: ViewerModel, m: Seq<char>, zoom_matches: bool, has_texture: bool)
    requires
        s.render_target(zoom_matches) is Some,
    ensures
        s.render_failed(m).content(has_texture) == Content::Error,
        s.render_failed(m).render_target(zoom_matches) == s.render_target(zoom_matches),
{
}

/// Whether an extension names a PDF file does not depend on the case of
/// its ASCII letters.
pub proof fn law_pdf_ignores_case(a: Seq<char>, b: Seq<char>)
    requires
        eq_ignore_ascii_case(a, b),
    ensures
        names_pdf(Some(a)) == names_pdf(Some(b)),
{
    if names_pdf(Some(a)) {
        assert forall|i: int| 0 <= i < b.len() implies #[trigger] crate::paths::ascii_lower(b[i])
            == crate::paths::ascii_lower(crate::paths::pdf_word()[i]) by {
            assert(crate::paths::ascii_lower(a[i]) == crate::paths::ascii_lower(b[i]));
        }
    }
    if names_pdf(Some(b)) {
        assert forall|i: int| 0 <= i < a.len() implies #[trigger] crate::paths::ascii_lower(a[i])
            == crate::paths::ascii_lower(crate::paths::pdf_word()[i]) by {
            assert(crate::paths::ascii_lower(a[i]) == crate::paths::ascii_lower(b[i]));
        }
    }
}

/// An error stays shown until the next file is loaded: moving between
/// pages, changing the zoom and drawing a page leave it as it is, and only
/// a document that PDFium accepts clears it.
pub proof fn law_error_stays_until_load(
    s: ViewerModel,
    p: nat,
    c: Commands,
    path: Seq<char>,
    bytes: Seq<u8>,
    n: nat,
)
    ensures
        s.go_to(p).error == s.error,
        s.back().error == s.error,
        s.forward().error == s.error,
        s.navigate(c).error == s.error,
        s.zoom_changed().error == s.error,
        s.rendered().error == s.error,
        s.loaded(path, bytes, Ok(n)).error is None,
{
}

/// With a document open and no redraw due, the drawn page is the shown
/// page, so nothing is drawn while the zoom is the one it was drawn at.
pub proof fn law_no_redraw_means_drawn(s: ViewerModel)
    requires
        s.wf(),
        s.document is Some,
        !s.needs_render,
    ensures
        s.rendered_page == Some(s.current_page),
        s.render_target(true) is None,
{
}

/// The page moves of a frame, by the keys pressed: none keeps the reader as
/// it is; Left or Page Up alone shows the page before, unless the first page
/// is shown; Right or Page Down alone shows the page after, unless the last
/// page is shown; both together show the page that back then forward
/// reaches. A move that changes the page asks for it to be drawn, and no
/// move touches the document or the error.
pub proof fn law_navigate_moves(s: ViewerModel, c: Commands)
    requires
        s.wf(),
    ensures
        !c.previous && !c.next ==> s.navigate(c) == s,
        c.previous && !c.next && s.current_page > 0 ==> s.navigate(c).current_page
            == s.current_page - 1,
        c.previous && !c.next && s.current_page == 0 ==> s.navigate(c) == s,
        !c.previous && c.next && s.current_page + 1 < s.page_count() ==> s.navigate(
            c,
        ).current_page == s.current_page + 1,
        !c.previous && c.next && s.current_page + 1 >= s.page_count() ==> s.navigate(c) == s,
        c.previous && c.next && s.current_page > 0 ==> s.navigate(c).current_page
            == s.current_page,
        c.previous && c.next && s.current_page == 0 && s.page_count() > 1 ==> s.navigate(
            c,
        ).current_page == 1,
        s.navigate(c).current_page != s.current_page ==> s.navigate(c).needs_render,
        s.navigate(c).document == s.document,
        s.navigate(c).error == s.error,
        s.navigate(c).rendered_page == s.rendered_page,
{
}

/// What the central panel shows, by the reader's state: the error whenever
/// there is one; with no error and no document, the invitation to open a
/// file; with no error and a document, the drawn page exactly when one is at
/// hand, and otherwise nothing.
pub proof fn law_content_by_state(s: ViewerModel, has_texture: bool)
    ensures
        s.error is Some ==> s.content(has_texture) == Content::Error,
        s.error is None && s.document is None ==> s.content(has_texture) == Content::Empty,
        s.error is None && s.document is Some ==> (s.content(has_texture) == Content::Page
            <==> has_texture),
        s.error is None && s.document is Some && !has_texture ==> s.content(has_texture)
            == Content::Blank,
{
}

/// What the central panel shows does not depend on which page is shown or
/// drawn: moving between pages, changing the zoom and drawing a page leave
/// it as it is.
pub proof fn law_content_ignores_page(s: ViewerModel, p: nat, c: Commands, has_texture: bool)
    ensures
        s.go_to(p).content(has_texture) == s.content(has_texture),
        s.navigate(c).content(has_texture) == s.content(has_texture),
        s.zoom_changed().content(has_texture) == s.content(has_texture),
        s.rendered().content(has_texture) == s.content(has_texture),
{
}

/// Among the extensions of dropped files, the chosen one names a PDF file,
/// and no extension before it does: whenever some extension names a PDF
/// file, one is chosen, at that place or before it.
pub proof fn law_first_pdf_is_first(exts: Seq<Option<Seq<char>>>, r: Option<nat>, i: int)
    requires
        first_pdf_at(exts, r),
    ensures
        r matches Some(k) ==> k < exts.len() && names_pdf(exts[k as int]),
        r matches Some(k) && 0 <= i < k ==> !names_pdf(exts[i]),
        0 <= i < exts.len() && names_pdf(exts[i]) ==> (r matches Some(k) && k <= i),
        r is None && 0 <= i < exts.len() ==> !names_pdf(exts[i]),
{
}

/// Only one choice meets the description of the first PDF among the
/// extensions.
pub proof fn law_first_pdf_unique(exts: Seq<Option<Seq<char>>>, r1: Option<nat>, r2: Option<nat>)
    requires
        first_pdf_at(exts, r1),
        first_pdf_at(exts, r2),
    ensures
        r1 == r2,
{
    match (r1, r2) {
        (Some(a), Some(b)) => {
            if a < b {
                assert(!names_pdf(exts[a as int]));
            } else if b < a {
                assert(!names_pdf(exts[b as int]));
            }
        },
        (Some(a), None) => {
            assert(!names_pdf(exts[a as int]));
        },
        (None, Some(b)) => {
            assert(!names_pdf(exts[b as int]));
        },
        (None, None) => {},
    }
}

/// A PDF dropped first is chosen; a file dropped first that is no PDF moves
/// the choice among the files after it by one place.
pub proof fn law_first_pdf_by_head(
    e: Option<Seq<char>>,
    rest: Seq<Option<Seq<char>>>,
    r: Option<nat>,
    r_rest: Option<nat>,
)
    requires
        first_pdf_at(seq![e] + rest, r),
        first_pdf_at(rest, r_rest),
    ensures
        names_pdf(e) ==> r == Some(0nat),
        !names_pdf(e) ==> r == match r_rest {
            Some(k) => Some(k + 1),
            None => None::<nat>,
        },
{
    let all = seq![e] + rest;
    assert(all[0] == e);
    assert forall|j: int| 0 <= j < rest.len() implies all[j + 1] == rest[j] by {}
    if !names_pdf(e) {
        let shifted = match r_rest {
            Some(k) => Some(k + 1),
            None => None::<nat>,
        };
        match r_rest {
            Some(k) => {
                assert(all[k + 1int] == rest[k as int]);
                assert forall|j: int| 0 <= j < k + 1 implies !names_pdf(#[trigger] all[j]) by {
                    if j > 0 {
                        assert(all[j] == rest[j - 1]);
                    }
                }
            },
            None => {
                assert forall|j: int| 0 <= j < all.len() implies !names_pdf(#[trigger] all[j]) by {
                    if j > 0 {
                        assert(all[j] == rest[j - 1]);
                    }
                }
            },
        }
        assert(first_pdf_at(all, shifted));
        law_first_pdf_unique(all, r, shifted);
    } else {
        assert(first_pdf_at(all, Some(0nat)));
        law_first_pdf_unique(all, r, Some(0nat));
    }
}

} // verus!
