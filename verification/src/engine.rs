use vstd::prelude::*;

verus! {

/// The family an engine failure belongs to, as far as this library tells
/// failures apart.
#[derive(Clone, Copy, Debug, PartialEq, Eq, Structural)]
pub enum EngineCause {
    /// Text could not be written to the page buffer.
    Format,
    /// Reading the input failed.
    Io,
    /// The document is encrypted and could not be decrypted.
    Decryption,
    /// The document names a security handler the engine does not know.
    SecurityHandler,
    /// The document is encrypted under a password.
    Password,
    /// Any other complaint about the document's structure.
    Document,
}

/// An engine failure in plain values: its family and its message.
#[derive(Debug, PartialEq, Eq)]
pub struct EngineFailure {
    pub cause: EngineCause,
    pub text: String,
}

/// What an [`EngineFailure`] is, mathematically.
pub struct FailureModel {
    pub cause: EngineCause,
    pub text: Seq<char>,
}

impl View for EngineFailure {
    type V = FailureModel;

    open spec fn view(&self) -> FailureModel {
        FailureModel { cause: self.cause, text: self.text@ }
    }
}

/// The mathematical value of an engine outcome held in memory: the text of
/// each page in page order, or the failure.
pub open spec fn outcome_view(outcome: Result<Vec<String>, EngineFailure>) -> Result<
    Seq<Seq<char>>,
    FailureModel,
> {
    match outcome {
        Ok(pages) => Ok(pages.deep_view()),
        Err(failure) => Err(failure@),
    }
}

} // verus!
