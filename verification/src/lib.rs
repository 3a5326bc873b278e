//! Page-by-page plain text of a PDF document: what becomes of the outcome of
//! the PDF engine.
//!
//! The engine itself is the `pdf_extract` crate, and the caller runs it: it
//! gives up on some malformed documents by aborting, which a function of this
//! library must never do. The library takes the engine's outcome in plain
//! values and owns the rest: the shape of the result, the two kinds of fatal
//! failure, the rule that decides which kind an engine failure is, and the
//! removal of the line breaks that the engine puts in front of a page's first
//! character.

pub mod engine;
pub mod error;
pub mod extract;
pub mod laws;
pub mod text;

pub use crate::engine::{EngineCause, EngineFailure};
pub use crate::error::{ErrorKind, ExtractError};
pub use crate::extract::{error_kind, extract_pdf_text_by_pages};
pub use crate::text::{strip_leading_breaks, strip_pages};
