//! Validation of rendered pages.
//!
//! A rendered page is the raw PNG encoding of exactly one page, so it must
//! begin with the four-byte PNG signature; a zero-length page is always an
//! error, and so is an empty document.

use vstd::prelude::*;
use crate::error::RenderError;
use crate::error::spec_message;

verus! {

/// Whether `page` begins with the four-byte PNG signature `89 50 4E 47`.
/// An empty byte string in particular is not a PNG page.
pub open spec fn spec_is_png(page: Seq<u8>) -> bool {
    &&& page.len() >= 4
    &&& page[0] == 0x89u8
    &&& page[1] == 0x50u8
    &&& page[2] == 0x4eu8
    &&& page[3] == 0x47u8
}

/// A well-formed rendered document: at least one page, each of which is
/// PNG-encoded.
pub open spec fn spec_valid_document(pages: Seq<Vec<u8>>) -> bool {
    &&& pages.len() > 0
    &&& forall|i: int| 0 <= i < pages.len() ==> spec_is_png((#[trigger] pages[i])@)
}

/// Whether one rendered page begins with the PNG signature.
pub fn page_is_png(page: &[u8]) -> (r: bool)
    ensures
        r == spec_is_png(page@),
{
    page.len() >= 4 && page[0] == 0x89 && page[1] == 0x50 && page[2] == 0x4e && page[3] == 0x47
}

/// Check every page of a collected document against the output contract:
/// the document is non-empty and each page is PNG-encoded.
pub fn validate_document(pages: &Vec<Vec<u8>>) -> (r: Result<(), RenderError>)
    ensures
        r is Ok <==> spec_valid_document(pages@),
        r is Err ==> r->Err_0 is OutputContract,
        pages@.len() == 0 ==> r is Err && spec_message(r->Err_0)
            == "backend produced no pages"@,
        r is Err && pages@.len() > 0 ==> spec_message(r->Err_0)
            == "rendered page is not PNG-encoded"@,
{
    if pages.len() == 0 {
        return Err(RenderError::OutputContract("backend produced no pages".to_owned()));
    }
    let mut i: usize = 0;
    while i < pages.len()
        invariant
            0 <= i <= pages@.len(),
            forall|t: int| 0 <= t < i ==> spec_is_png((#[trigger] pages@[t])@),
        decreases pages@.len() - i,
    {
        if !page_is_png(pages[i].as_slice()) {
            return Err(
                RenderError::OutputContract("rendered page is not PNG-encoded".to_owned()),
            );
        }
        i += 1;
    }
    Ok(())
}

/// Finish a native adapter's render: the adapter decoded the document,
/// learned its true page count, and rendered one PNG per page in order.
/// Succeeds exactly when the rendered pages are as many as the document's
/// pages and each one is PNG-encoded — never an empty success — and then
/// returns the pages unchanged.
pub fn finalize_document(pages: Vec<Vec<u8>>, page_count: usize) -> (r: Result<
    Vec<Vec<u8>>,
    RenderError,
>)
    ensures
        match r {
            Ok(d) => d@ == pages@ && d@.len() == page_count && spec_valid_document(d@),
            Err(e) => e is OutputContract && (pages@.len() != page_count || !spec_valid_document(
                pages@,
            )),
        },
        r is Ok <==> pages@.len() == page_count && spec_valid_document(pages@),
        r is Err && pages@.len() != page_count ==> spec_message(r->Err_0)
            == "page count does not match the document"@,
{
    if pages.len() != page_count {
        return Err(
            RenderError::OutputContract("page count does not match the document".to_owned()),
        );
    }
    match validate_document(&pages) {
        Ok(_) => Ok(pages),
        Err(e) => Err(e),
    }
}

} // verus!
