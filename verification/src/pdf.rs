use vstd::prelude::*;

verus! {

/// A PDFium library that the program has bound to; the library's own
/// state is out of Verus's sight.
#[verifier::external_type_specification]
#[verifier::external_body]
pub struct ExPdfium(pdfium_render::prelude::Pdfium);

/// A document that PDFium has opened from a byte slice.
#[verifier::external_type_specification]
#[verifier::external_body]
pub struct ExPdfDocument<'a>(pdfium_render::prelude::PdfDocument<'a>);

/// An error that PDFium reported.
#[verifier::external_type_specification]
#[verifier::external_body]
pub struct ExPdfiumError(pdfium_render::prelude::PdfiumError);

/// Calls `Pdfium::load_pdf_from_byte_slice` with no password. Whether the
/// bytes open depends on the PDFium build that was bound at run time, so
/// nothing is claimed of the outcome.
#[verifier::external_body]
fn open_document<'a>(
    pdfium: &'a pdfium_render::prelude::Pdfium,
    bytes: &'a [u8],
) -> (r: Result<pdfium_render::prelude::PdfDocument<'a>, pdfium_render::prelude::PdfiumError>) {
    pdfium.load_pdf_from_byte_slice(bytes, None)
}

/// Calls `PdfDocument::pages` and then `PdfPages::len`, the number of pages
/// that PDFium counts in the document; it is a `u16` by its type and
/// nothing more is claimed.
#[verifier::external_body]
fn document_page_count(doc: &pdfium_render::prelude::PdfDocument) -> (n: u16) {
    doc.pages().len()
}

/// Calls `to_string` on a `PdfiumError`, whose `Display` writes the error's
/// pretty-printed derived `Debug` form, which starts with the variant's
/// name; so the text is never empty, and nothing more is claimed.
#[verifier::external_body]
fn error_text(e: &pdfium_render::prelude::PdfiumError) -> (t: String)
    ensures
        t@.len() > 0,
{
    e.to_string()
}

/// Opens `bytes` as a PDF document with the bound PDFium library and counts
/// its pages; when PDFium refuses the bytes, the error comes back as the
/// text of PDFium's error, which is never empty. Which of the two comes
/// back rests on PDFium.
pub fn count_pages(pdfium: &pdfium_render::prelude::Pdfium, bytes: &[u8]) -> (r: Result<u16, String>)
    ensures
        r matches Err(m) ==> m@.len() > 0,
{
    match open_document(pdfium, bytes) {
        Ok(doc) => Ok(document_page_count(&doc)),
        Err(e) => Err(error_text(&e)),
    }
}

} // verus!
