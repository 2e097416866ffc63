//! The failures that the application reports in its status line.

use vstd::prelude::*;

use crate::annotation::AnnotationError;
use crate::codex::CodexError;
use crate::editor::EditorError;
use crate::messages::{
    annotation_message, codex_message, codex_text, projection_message, storage_message, storage_text,
};
use crate::storage::StorageError;

verus! {

/// Operation failure surfaced in the TUI status line.
#[derive(Debug)]
pub enum AppError {
    /// Markdown projection failed.
    Editor(EditorError),
    /// Annotation request was invalid.
    Annotation(AnnotationError),
    /// Document persistence failed.
    Storage(StorageError),
    /// Codex authentication or execution failed.
    Codex(CodexError),
    /// A command required a visual selection.
    MissingSelection,
}

/// The message shown when a command needs a selection and there is none.
pub const MISSING_SELECTION: &'static str = "select a word or sentence first";

/// The message of an application failure, where the library fixes its text:
/// that of the failure it wraps.
pub open spec fn app_error_message(e: AppError) -> Option<Seq<char>> {
    match e {
        AppError::Editor(EditorError::Projection(p)) => Some(projection_message(p)),
        AppError::Annotation(a) => Some(annotation_message(a)),
        AppError::Storage(s) => storage_message(s),
        AppError::Codex(c) => codex_message(c),
        AppError::MissingSelection => Some(MISSING_SELECTION@),
    }
}

/// The message of an application failure: that of the failure it wraps.
pub open spec fn app_error_text(e: AppError, m: Seq<char>) -> bool {
    match e {
        AppError::Storage(s) => storage_text(s, m),
        AppError::Codex(c) => codex_text(c, m),
        _ => app_error_message(e) == Some(m),
    }
}

impl AppError {
    /// The user-visible message.
    pub fn message(&self) -> (m: String)
        ensures
            app_error_message(*self) matches Some(t) ==> m@ == t,
            app_error_text(*self, m@),
    {
        match self {
            AppError::Editor(e) => e.message(),
            AppError::Annotation(e) => e.message(),
            AppError::Storage(e) => e.message(),
            AppError::Codex(e) => e.message(),
            AppError::MissingSelection => MISSING_SELECTION.to_owned(),
        }
    }
}

} // verus!
