use crate::engine::{outcome_view, EngineCause, EngineFailure, FailureModel};
use crate::error::{ErrorKind, ErrorModel, ExtractError};
use crate::text::{page_texts, strip_pages};
use vstd::prelude::*;

verus! {

/// The kind of fatal failure that an engine failure of family `cause` is:
/// whatever has to do with protection is unsupported encryption, everything
/// else means the bytes were not recognised as a document.
pub open spec fn kind_of(cause: EngineCause) -> ErrorKind {
    match cause {
        EngineCause::Decryption | EngineCause::SecurityHandler | EngineCause::Password =>
            ErrorKind::UnsupportedEncryption,
        EngineCause::Format | EngineCause::Io | EngineCause::Document =>
            ErrorKind::UnrecognizedFormat,
    }
}

/// What the caller gets for an engine outcome: one text per page, each the
/// engine's page without its leading line breaks, or the failure under its
/// kind with the engine's message.
pub open spec fn concluded(outcome: Result<Seq<Seq<char>>, FailureModel>) -> Result<
    Seq<Seq<char>>,
    ErrorModel,
> {
    match outcome {
        Ok(pages) => Ok(page_texts(pages)),
        Err(failure) => Err(ErrorModel { kind: kind_of(failure.cause), description: failure.text }),
    }
}

/// The mathematical value of an extraction result held in memory.
pub open spec fn result_view(result: Result<Vec<String>, ExtractError>) -> Result<
    Seq<Seq<char>>,
    ErrorModel,
> {
    match result {
        Ok(pages) => Ok(pages.deep_view()),
        Err(error) => Err(error@),
    }
}

/// Decides the kind of fatal failure for an engine failure of family `cause`.
pub fn error_kind(cause: EngineCause) -> (kind: ErrorKind)
    ensures
        kind == kind_of(cause),
{
    match cause {
        EngineCause::Decryption => ErrorKind::UnsupportedEncryption,
        EngineCause::SecurityHandler => ErrorKind::UnsupportedEncryption,
        EngineCause::Password => ErrorKind::UnsupportedEncryption,
        EngineCause::Format => ErrorKind::UnrecognizedFormat,
        EngineCause::Io => ErrorKind::UnrecognizedFormat,
        EngineCause::Document => ErrorKind::UnrecognizedFormat,
    }
}

/// Gives the text of a PDF document, one string per page, first page first,
/// from what the engine made of the document.
///
/// `outcome` is what `pdf_extract::extract_text_from_mem_by_pages` returned
/// for the document's bytes, its error told apart by variant and put into
/// words by its `Display`. No page is added, dropped or moved; each loses
/// only the line breaks it begins with, which the engine writes for the jump
/// from the top of the page to the first character and which stand for no
/// text. A failure of the engine fails the whole call, with no pages at all:
/// it becomes an [`ExtractError`] of the kind [`kind_of`] gives, carrying the
/// engine's message word for word.
pub fn extract_pdf_text_by_pages(outcome: Result<Vec<String>, EngineFailure>) -> (result: Result<
    Vec<String>,
    ExtractError,
>)
    ensures
        result_view(result) == concluded(outcome_view(outcome)),
{
    match outcome {
        Ok(pages) => Ok(strip_pages(&pages)),
        Err(failure) => {
            let kind = error_kind(failure.cause);
            Err(ExtractError { kind, description: failure.text })
        },
    }
}

} // verus!
