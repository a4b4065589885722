use vstd::prelude::*;
use vstd::string::*;

use crate::input::Commands;
use crate::pdf::count_pages;
use crate::paths::{after_last_separator, after_last_slash, named_path, opt_view, path_file_name, plain_path, simple_name};
use crate::text::{decimal, push_decimal};

verus! {

/// Which step of opening or drawing a document failed.
#[derive(Clone, Copy, Debug, PartialEq, Eq, Structural)]
pub enum ErrorKind {
    /// The file could not be read.
    CannotRead,
    /// PDFium did not accept the bytes as a PDF document.
    InvalidPdf,
    /// PDFium could not draw the page.
    Render,
}

/// An error that the reader shows in place of the page.
pub struct ViewerError {
    pub kind: ErrorKind,
    /// What the failing step reported.
    pub detail: String,
}

/// The model of an error: its kind and the reported text.
pub struct ErrorModel {
    pub kind: ErrorKind,
    pub detail: Seq<char>,
}

impl View for ViewerError {
    type V = ErrorModel;

    open spec fn view(&self) -> ErrorModel {
        ErrorModel { kind: self.kind, detail: self.detail@ }
    }
}

/// The words that stand before the reported text in the error panel.
pub open spec fn error_prefix(kind: ErrorKind) -> Seq<char> {
    match kind {
        ErrorKind::CannotRead => "Cannot read file: "@,
        ErrorKind::InvalidPdf => "Invalid PDF: "@,
        ErrorKind::Render => Seq::empty(),
    }
}

/// The text of the error panel.
pub open spec fn error_text(e: ErrorModel) -> Seq<char> {
    error_prefix(e.kind) + e.detail
}

impl ViewerError {
    /// The text that the error panel shows: "Cannot read file: " or
    /// "Invalid PDF: " before the reported text, or the reported text alone
    /// for a failed render.
    pub fn message(&self) -> (m: String)
        ensures
            m@ == error_text(self@),
    {
        let mut m = match self.kind {
            ErrorKind::CannotRead => String::from_str("Cannot read file: "),
            ErrorKind::InvalidPdf => String::from_str("Invalid PDF: "),
            ErrorKind::Render => String::new(),
        };
        m.append(self.detail.as_str());
        m
    }
}

/// What the central panel shows.
#[derive(Clone, Copy, Debug, PartialEq, Eq, Structural)]
pub enum Content {
    /// The error panel.
    Error,
    /// The invitation to open a file.
    Empty,
    /// The drawn page.
    Page,
    /// Nothing yet: a document is open but no page has been drawn.
    Blank,
}

/// The model of an open document.
pub struct DocumentModel {
    pub path: Seq<char>,
    pub bytes: Seq<u8>,
    pub page_count: nat,
}

/// The model of the reader: the open document, the page shown, whether the
/// page must be drawn again, which page was drawn last, and the error shown.
pub struct ViewerModel {
    pub document: Option<DocumentModel>,
    pub current_page: nat,
    pub needs_render: bool,
    pub rendered_page: Option<nat>,
    pub error: Option<ErrorModel>,
}

/// The smaller of two naturals.
pub open spec fn min_nat(a: nat, b: nat) -> nat {
    if a <= b { a } else { b }
}

impl ViewerModel {
    /// The reader as it starts: no document, first page, nothing drawn.
    pub open spec fn initial() -> ViewerModel {
        ViewerModel {
            document: None,
            current_page: 0,
            needs_render: false,
            rendered_page: None,
            error: None,
        }
    }

    /// The number of pages of the open document; 0 with none open.
    pub open spec fn page_count(self) -> nat {
        match self.document {
            Some(d) => d.page_count,
            None => 0,
        }
    }

    /// The index of the last page; 0 when there are no pages.
    pub open spec fn last_page(self) -> nat {
        if self.page_count() == 0 { 0 } else { (self.page_count() - 1) as nat }
    }

    /// The shown page lies in the document, or is the first page when
    /// there are no pages; PDFium counts pages in a `u16`; and with a
    /// document open and no redraw due, the drawn page is the shown page.
    pub open spec fn wf(self) -> bool {
        &&& self.current_page <= self.last_page()
        &&& self.page_count() <= u16::MAX
        &&& self.document is Some && !self.needs_render ==> self.rendered_page == Some(
            self.current_page,
        )
    }

    /// Going to page `p`: the page is clamped to the last one, and a page
    /// that changes must be drawn again.
    pub open spec fn go_to(self, p: nat) -> ViewerModel {
        let q = min_nat(p, self.last_page());
        if q != self.current_page {
            ViewerModel { current_page: q, needs_render: true, ..self }
        } else {
            self
        }
    }

    /// One page back, unless the first page is shown.
    pub open spec fn back(self) -> ViewerModel {
        if self.current_page > 0 {
            self.go_to((self.current_page - 1) as nat)
        } else {
            self
        }
    }

    /// One page forward, held at the last page.
    pub open spec fn forward(self) -> ViewerModel {
        self.go_to(self.current_page + 1)
    }

    /// The page moves of a frame's commands: back first, then forward.
    pub open spec fn navigate(self, c: Commands) -> ViewerModel {
        let s = if c.previous { self.back() } else { self };
        if c.next { s.forward() } else { s }
    }

    /// The zoom changed: the page must be drawn again.
    pub open spec fn zoom_changed(self) -> ViewerModel {
        ViewerModel { needs_render: true, ..self }
    }

    /// The file could not be read: only the error changes.
    pub open spec fn read_failed(self, detail: Seq<char>) -> ViewerModel {
        ViewerModel {
            error: Some(ErrorModel { kind: ErrorKind::CannotRead, detail }),
            ..self
        }
    }

    /// The bytes read from `path` went to PDFium, which gave `parsed`: a
    /// page count, or the text of its error. A refused document changes only
    /// the error; an accepted one replaces the document, shows its first
    /// page, asks for it to be drawn and clears the error.
    pub open spec fn loaded(self, path: Seq<char>, bytes: Seq<u8>, parsed: Result<nat, Seq<char>>) -> ViewerModel {
        match parsed {
            Err(m) => ViewerModel {
                error: Some(ErrorModel { kind: ErrorKind::InvalidPdf, detail: m }),
                ..self
            },
            Ok(n) => ViewerModel {
                document: Some(DocumentModel { path, bytes, page_count: n }),
                current_page: 0,
                needs_render: true,
                error: None,
                ..self
            },
        }
    }

    /// The drawn page is the shown one at the shown zoom, and nothing asked
    /// for it to be drawn again; `zoom_matches` tells whether the zoom it was
    /// drawn at is the current one.
    pub open spec fn up_to_date(self, zoom_matches: bool) -> bool {
        &&& !self.needs_render
        &&& self.rendered_page == Some(self.current_page)
        &&& zoom_matches
    }

    /// The page to draw in this frame: the shown page, when a document is
    /// open and the drawn page is not up to date.
    pub open spec fn render_target(self, zoom_matches: bool) -> Option<nat> {
        if !self.up_to_date(zoom_matches) && self.document is Some {
            Some(self.current_page)
        } else {
            None
        }
    }

    /// The shown page was drawn.
    pub open spec fn rendered(self) -> ViewerModel {
        ViewerModel { rendered_page: Some(self.current_page), needs_render: false, ..self }
    }

    /// Drawing the page failed: only the error changes.
    pub open spec fn render_failed(self, detail: Seq<char>) -> ViewerModel {
        ViewerModel {
            error: Some(ErrorModel { kind: ErrorKind::Render, detail }),
            ..self
        }
    }

    /// What the central panel shows: an error first, then the invitation
    /// when no document is open, then the drawn page if there is one.
    pub open spec fn content(self, has_texture: bool) -> Content {
        if self.error is Some {
            Content::Error
        } else if self.document is None {
            Content::Empty
        } else if has_texture {
            Content::Page
        } else {
            Content::Blank
        }
    }

    /// The back button is enabled.
    pub open spec fn can_go_back(self) -> bool {
        self.current_page > 0
    }

    /// The forward button is enabled.
    pub open spec fn can_go_forward(self) -> bool {
        self.current_page + 1 < self.page_count()
    }

    /// The toolbar's page text, "3  /  12": the shown page counted from 1,
    /// then the number of pages.
    pub open spec fn page_label(self) -> Seq<char> {
        decimal(self.current_page + 1) + "  /  "@ + decimal(self.page_count())
    }
}

/// What PDFium made of a document, as the model takes it.
pub open spec fn parsed_view(parsed: Result<u16, String>) -> Result<nat, Seq<char>> {
    match parsed {
        Ok(n) => Ok(n as nat),
        Err(m) => Err(m@),
    }
}

/// An open document: where it was read from, its bytes and its page count.
pub struct Document {
    path: String,
    bytes: Vec<u8>,
    page_count: u16,
}

/// The reader's state.
pub struct Viewer {
    document: Option<Document>,
    current_page: usize,
    needs_render: bool,
    rendered_page: Option<usize>,
    error: Option<ViewerError>,
}

impl View for Viewer {
    type V = ViewerModel;

    closed spec fn view(&self) -> ViewerModel {
        ViewerModel {
            document: match self.document {
                Some(d) => Some(DocumentModel { path: d.path@, bytes: d.bytes@, page_count: d.page_count as nat }),
                None => None,
            },
            current_page: self.current_page as nat,
            needs_render: self.needs_render,
            rendered_page: match self.rendered_page {
                Some(p) => Some(p as nat),
                None => None,
            },
            error: match self.error {
                Some(e) => Some(e@),
                None => None,
            },
        }
    }
}

impl Viewer {
    #[verifier::type_invariant]
    closed spec fn well_formed(self) -> bool {
        self@.wf()
    }

    /// The reader as it starts.
    pub fn new() -> (v: Viewer)
        ensures
            v@ == ViewerModel::initial(),
    {
        Viewer { document: None, current_page: 0, needs_render: false, rendered_page: None, error: None }
    }

    /// Makes known to callers that the reader is well formed, so that the
    /// laws over well-formed models apply to it: the shown page lies in the
    /// document, and the page count fits in a `u16`.
    pub fn prove_well_formed(&self)
        ensures
            self@.wf(),
    {
        proof { use_type_invariant(self); }
    }

    /// The number of pages of the open document; 0 with none open.
    pub fn page_count(&self) -> (n: usize)
        ensures
            n == self@.page_count(),
    {
        match &self.document {
            Some(d) => d.page_count as usize,
            None => 0,
        }
    }

    /// The shown page, counted from 0.
    pub fn current_page(&self) -> (p: usize)
        ensures
            p == self@.current_page,
    {
        self.current_page
    }

    /// Whether a document is open.
    pub fn has_document(&self) -> (b: bool)
        ensures
            b == self@.document is Some,
    {
        self.document.is_some()
    }

    /// Goes to page `p`, clamped to the last page; a change of page asks for
    /// the page to be drawn.
    pub fn go_to_page(&mut self, p: usize)
        ensures
            final(self)@ == old(self)@.go_to(p as nat),
    {
        proof { use_type_invariant(&*self); }
        let count = self.page_count();
        let last = if count == 0 { 0 } else { count - 1 };
        let q = if p <= last { p } else { last };
        if q != self.current_page {
            self.needs_render = true;
            self.current_page = q;
        }
    }

    /// Goes one page back, unless the first page is shown (the ◀ button,
    /// Left and Page Up).
    pub fn page_back(&mut self)
        ensures
            final(self)@ == old(self)@.back(),
    {
        if self.current_page > 0 {
            self.go_to_page(self.current_page - 1);
        }
    }

    /// Goes one page forward, held at the last page (the ▶ button, Right and
    /// Page Down).
    pub fn page_forward(&mut self)
        ensures
            final(self)@ == old(self)@.forward(),
    {
        proof { use_type_invariant(&*self); }
        self.go_to_page(self.current_page + 1);
    }

    /// Carries out the page moves of a frame's commands.
    pub fn navigate(&mut self, commands: &Commands)
        ensures
            final(self)@ == old(self)@.navigate(*commands),
    {
        if commands.previous {
            self.page_back();
        }
        if commands.next {
            self.page_forward();
        }
    }

    /// Notes that the zoom changed, so the page must be drawn again.
    pub fn zoom_changed(&mut self)
        ensures
            final(self)@ == old(self)@.zoom_changed(),
    {
        proof { use_type_invariant(&*self); }
        self.needs_render = true;
    }

    /// Takes what PDFium made of the bytes read from `path`: the page count,
    /// or the text of its error. Returns whether the document was replaced,
    /// in which case the zoom goes back to 100% and the drawn page is
    /// dropped.
    pub fn apply_load(&mut self, path: String, bytes: Vec<u8>, parsed: Result<u16, String>) -> (loaded: bool)
        ensures
            final(self)@ == old(self)@.loaded(path@, bytes@, parsed_view(parsed)),
            loaded == parsed is Ok,
    {
        proof { use_type_invariant(&*self); }
        self.error = None;
        match parsed {
            Err(m) => {
                self.error = Some(ViewerError { kind: ErrorKind::InvalidPdf, detail: m });
                false
            },
            Ok(n) => {
                self.needs_render = true;
                self.current_page = 0;
                self.document = Some(Document { path, bytes, page_count: n });
                true
            },
        }
    }

    /// Loads a document: `read` is what reading the file at `path` gave,
    /// its bytes or the text of the read error. Read bytes go to PDFium;
    /// what PDFium makes of them is taken as `apply_load` takes it. Returns
    /// whether the document was replaced.
    pub fn load_pdf(
        &mut self,
        pdfium: &pdfium_render::prelude::Pdfium,
        path: String,
        read: Result<Vec<u8>, String>,
    ) -> (loaded: bool)
        ensures
            match read {
                Err(m) => final(self)@ == old(self)@.read_failed(m@) && !loaded,
                Ok(b) => exists|parsed: Result<nat, Seq<char>>|
                    #![trigger old(self)@.loaded(path@, b@, parsed)]
                    {
                        &&& parsed matches Ok(n) ==> n <= u16::MAX
                        &&& parsed matches Err(m) ==> m.len() > 0
                        &&& final(self)@ == old(self)@.loaded(path@, b@, parsed)
                        &&& loaded == parsed is Ok
                    },
            },
    {
        proof { use_type_invariant(&*self); }
        match read {
            Err(m) => {
                self.error = Some(ViewerError { kind: ErrorKind::CannotRead, detail: m });
                false
            },
            Ok(bytes) => {
                let parsed = count_pages(pdfium, bytes.as_slice());
                let ghost pv = parsed_view(parsed);
                let ghost pth = path@;
                let ghost bts = bytes@;
                let loaded = self.apply_load(path, bytes, parsed);
                assert(self@ == old(self)@.loaded(pth, bts, pv) && loaded == pv is Ok);
                loaded
            },
        }
    }

    /// The page to draw in this frame, if any; `zoom_matches` tells whether
    /// the zoom the last page was drawn at is the current one.
    pub fn render_target(&self, zoom_matches: bool) -> (r: Option<usize>)
        ensures
            match r {
                Some(p) => self@.render_target(zoom_matches) == Some(p as nat),
                None => self@.render_target(zoom_matches) is None,
            },
    {
        let up_to_date = !self.needs_render && match self.rendered_page {
            Some(p) => p == self.current_page,
            None => false,
        } && zoom_matches;
        if !up_to_date && self.document.is_some() {
            Some(self.current_page)
        } else {
            None
        }
    }

    /// The bytes of the open document, which PDFium draws pages from.
    pub fn document_bytes(&self) -> (b: Option<&[u8]>)
        ensures
            match b {
                Some(s) => self@.document matches Some(d) && s@ == d.bytes,
                None => self@.document is None,
            },
    {
        match &self.document {
            Some(d) => Some(d.bytes.as_slice()),
            None => None,
        }
    }

    /// Takes the outcome of drawing the page that `render_target` named:
    /// success, or the text of the failure, which becomes the error shown.
    pub fn render_finished(&mut self, outcome: Result<(), String>)
        ensures
            final(self)@ == match outcome {
                Ok(()) => old(self)@.rendered(),
                Err(m) => old(self)@.render_failed(m@),
            },
    {
        proof { use_type_invariant(&*self); }
        match outcome {
            Ok(()) => {
                self.rendered_page = Some(self.current_page);
                self.needs_render = false;
            },
            Err(m) => {
                self.error = Some(ViewerError { kind: ErrorKind::Render, detail: m });
            },
        }
    }

    /// What the central panel shows; `has_texture` tells whether a drawn
    /// page is at hand.
    pub fn content(&self, has_texture: bool) -> (c: Content)
        ensures
            c == self@.content(has_texture),
    {
        if self.error.is_some() {
            Content::Error
        } else if self.document.is_none() {
            Content::Empty
        } else if has_texture {
            Content::Page
        } else {
            Content::Blank
        }
    }

    /// The text of the error panel, if there is an error.
    pub fn error_message(&self) -> (m: Option<String>)
        ensures
            match m {
                Some(t) => self@.error matches Some(e) && t@ == error_text(e),
                None => self@.error is None,
            },
    {
        match &self.error {
            Some(e) => Some(e.message()),
            None => None,
        }
    }

    /// Whether the back button is enabled.
    pub fn can_go_back(&self) -> (b: bool)
        ensures
            b == self@.can_go_back(),
    {
        self.current_page > 0
    }

    /// Whether the forward button is enabled.
    pub fn can_go_forward(&self) -> (b: bool)
        ensures
            b == self@.can_go_forward(),
    {
        proof { use_type_invariant(self); }
        self.current_page + 1 < self.page_count()
    }

    /// The toolbar's page text.
    pub fn page_label(&self) -> (t: String)
        ensures
            t@ == self@.page_label(),
    {
        proof { use_type_invariant(self); }
        let mut t = String::new();
        push_decimal(&mut t, self.current_page + 1);
        t.append("  /  ");
        push_decimal(&mut t, self.page_count());
        t
    }

    /// The file name of the open document, which the toolbar shows; `None`
    /// with no document open, or when the path has no file name. The name is
    /// what `Path::file_name` gives for the document's path: the text after
    /// its last '/' where '/' is the only separator on every platform and
    /// that text is a normal name; where the path's last component is a
    /// normal name on every platform, the text after its last '/' or '\\'
    /// (Windows) or after its last '/' (elsewhere).
    pub fn file_name(&self) -> (name: Option<String>)
        ensures
            name matches Some(n) ==> n@.len() > 0,
            (match self@.document {
                Some(d) => {
                    &&& plain_path(d.path) ==> (name matches Some(n) ==> !n@.contains('/'))
                    &&& plain_path(d.path) && simple_name(after_last_slash(d.path))
                        ==> opt_view(name) == Some(after_last_slash(d.path))
                    &&& named_path(d.path) ==> opt_view(name) == Some(
                        after_last_separator(d.path),
                    ) || opt_view(name) == Some(after_last_slash(d.path))
                },
                None => name is None,
            }),
    {
        match &self.document {
            Some(d) => path_file_name(d.path.as_str()),
            None => None,
        }
    }
}

/// The opacity of the `layer`-th ring of the page's drop shadow, counted
/// from the page outwards: 55, falling by 9 a ring, never below 0.
pub fn shadow_alpha(layer: u8) -> (a: u8)
    requires
        layer <= 28,
    ensures
        a == if 9 * layer <= 55 { 55 - 9 * layer } else { 0 },
{
    55u8.saturating_sub(layer * 9)
}

} // verus!
