use vstd::prelude::*;

verus! {

/// Why a whole extraction failed. Anything short of these two is absorbed by
/// the engine page by page and never reaches the caller as an error.
#[derive(Clone, Copy, Debug, PartialEq, Eq, Structural)]
pub enum ErrorKind {
    /// No document structure could be made out of the bytes.
    UnrecognizedFormat,
    /// The document is protected in a way the engine cannot undo.
    UnsupportedEncryption,
}

/// A fatal failure: its kind, and the engine's own words for it.
#[derive(Debug, PartialEq, Eq)]
pub struct ExtractError {
    pub kind: ErrorKind,
    pub description: String,
}

/// What an [`ExtractError`] is, mathematically.
pub struct ErrorModel {
    pub kind: ErrorKind,
    pub description: Seq<char>,
}

impl View for ExtractError {
    type V = ErrorModel;

    open spec fn view(&self) -> ErrorModel {
        ErrorModel { kind: self.kind, description: self.description@ }
    }
}

} // verus!
