# oxide_reader

A small PDF reader whose decisions are verified with Verus.

- `src/viewer.rs`: the reader's state (open document, shown page, whether the
  page must be drawn again, last drawn page, error) with a model and the
  transitions of every step: going to a page, page back and forward, a zoom
  change, loading a file, finishing or failing a render, and what the central
  panel and the toolbar show.
- `src/input.rs`: which keys ask for which commands.
- `src/paths.rs`: which paths and extensions name a PDF file.
- `src/text.rs`: decimal text for the toolbar's page label.
- `src/pdf.rs`: the calls into PDFium (`pdfium-render`) that count a
  document's pages.
- `src/laws.rs`: the properties that hold across steps, proved over the model.
- `app/`: the egui window, file dialogs, file reading, the floating-point zoom
  and page layout, and page rendering through PDFium.
