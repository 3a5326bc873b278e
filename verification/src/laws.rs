//! What holds of every extraction, stated over [`concluded`] and proved.

use crate::engine::{EngineCause, FailureModel};
use crate::error::{ErrorKind, ExtractError};
use crate::extract::{concluded, result_view};
use crate::text::{
    lemma_leading_breaks_unique, lemma_stripped_text, page_texts, without_leading_breaks,
};
use vstd::prelude::*;

verus! {

/// One text per page, in page order. Whenever the engine makes out the pages
/// of a document, the extraction succeeds with exactly as many texts, and the
/// text at each place is that of the page at the same place.
pub proof fn lemma_one_text_per_page(pages: Seq<Seq<char>>)
    ensures
        concluded(Ok(pages)) is Ok,
        concluded(Ok(pages))->Ok_0.len() == pages.len(),
        forall|i: int|
            0 <= i < pages.len() ==> #[trigger] concluded(Ok(pages))->Ok_0[i]
                == without_leading_breaks(pages[i]),
{
}

/// An extraction fails as a whole or not at all. It is an error exactly when
/// the engine fails; the error then carries the engine's message unchanged,
/// and names unsupported encryption exactly when the engine's failure has to
/// do with protection.
pub proof fn lemma_failure_is_whole(outcome: Result<Seq<Seq<char>>, FailureModel>)
    ensures
        concluded(outcome) is Err <==> outcome is Err,
        outcome matches Err(failure) ==> {
            &&& concluded(outcome)->Err_0.description == failure.text
            &&& concluded(outcome)->Err_0.kind == ErrorKind::UnsupportedEncryption <==> {
                ||| failure.cause == EngineCause::Decryption
                ||| failure.cause == EngineCause::SecurityHandler
                ||| failure.cause == EngineCause::Password
            }
            &&& concluded(outcome)->Err_0.kind == ErrorKind::UnrecognizedFormat <==> {
                ||| failure.cause == EngineCause::Format
                ||| failure.cause == EngineCause::Io
                ||| failure.cause == EngineCause::Document
            }
        },
{
}

/// The same pages give the same result. Two results for engine pages that
/// agree in number and, page by page, in length and in every character are
/// equal: in the number of texts and in every text.
pub proof fn lemma_same_pages_same_result(
    first: Seq<Seq<char>>,
    second: Seq<Seq<char>>,
    first_result: Result<Vec<String>, ExtractError>,
    second_result: Result<Vec<String>, ExtractError>,
)
    requires
        first.len() == second.len(),
        forall|i: int| 0 <= i < first.len() ==> first[i].len() == second[i].len(),
        forall|i: int, j: int|
            0 <= i < first.len() && 0 <= j < first[i].len() ==> first[i][j] == second[i][j],
        result_view(first_result) == concluded(Ok(first)),
        result_view(second_result) == concluded(Ok(second)),
    ensures
        result_view(first_result) == result_view(second_result),
{
    assert forall|i: int| 0 <= i < first.len() implies first[i] == second[i] by {
        assert(first[i] =~= second[i]);
    }
    assert(first =~= second);
}

/// A page without text gives an empty text, not an error: where the engine
/// wrote nothing for a page, or nothing but line breaks, the text of that
/// page is empty.
pub proof fn lemma_blank_page_is_empty(pages: Seq<Seq<char>>, i: int)
    requires
        0 <= i < pages.len(),
        forall|j: int| 0 <= j < pages[i].len() ==> pages[i][j] == '\n',
    ensures
        page_texts(pages).len() == pages.len(),
        page_texts(pages)[i].len() == 0,
{
    lemma_leading_breaks_unique(pages[i], pages[i].len());
}

/// What happens to one page touches no other. Two documents whose engine
/// pages agree at a place get the same text at that place, whatever their
/// other pages hold.
pub proof fn lemma_pages_are_independent(first: Seq<Seq<char>>, second: Seq<Seq<char>>, i: int)
    requires
        0 <= i < first.len(),
        0 <= i < second.len(),
        first[i] == second[i],
    ensures
        page_texts(first)[i] == page_texts(second)[i],
{
}

/// A page whose first character is no line break is handed on exactly as the
/// engine wrote it.
pub proof fn lemma_plain_page_is_kept(pages: Seq<Seq<char>>, i: int)
    requires
        0 <= i < pages.len(),
        pages[i].len() > 0,
        pages[i][0] != '\n',
    ensures
        page_texts(pages)[i] == pages[i],
{
    lemma_stripped_text(pages[i]);
}

} // verus!
