//! User-visible text of the library's errors.

use std::path::PathBuf;
use std::time::Duration;

use vstd::prelude::*;

use crate::annotation::AnnotationError;
use crate::codex::CodexError;
use crate::editor::EditorError;
use crate::markdown::ProjectionError;
use crate::storage::StorageError;
use crate::text::decimal_string;

verus! {

/// Renders a path for display (`Path::display`).
///
/// Nothing is claimed of the text: it depends on the platform's path encoding.
#[verifier::external_body]
fn path_text(path: &PathBuf) -> String {
    path.display().to_string()
}

/// Renders an I/O error category (`Display` of `std::io::ErrorKind`).
///
/// Nothing is claimed of the text beyond its type.
#[verifier::external_body]
fn error_kind_text(kind: &std::io::ErrorKind) -> String {
    kind.to_string()
}

/// Renders a duration in `Debug` form (as `{:?}` writes it, such as `120s`).
///
/// Nothing is claimed of the text beyond its type.
#[verifier::external_body]
fn duration_text(duration: &Duration) -> String {
    format!("{duration:?}")
}

/// An optional exit code as its `Debug` form writes it (`Some(-1)`, `None`).
pub open spec fn exit_code_spec(code: Option<i32>) -> Seq<char> {
    match code {
        None => "None"@,
        Some(c) => "Some("@ + (if c < 0 {
            "-"@ + crate::text::decimal((-c) as nat)
        } else {
            crate::text::decimal(c as nat)
        }) + ")"@,
    }
}

/// Renders an optional exit code in `Debug` form.
fn exit_code_text(code: &Option<i32>) -> (s: String)
    ensures
        s@ == exit_code_spec(*code),
{
    let mut s = String::new();
    match code {
        None => s.append("None"),
        Some(c) => {
            s.append("Some(");
            if *c < 0 {
                s.append("-");
                let magnitude: i64 = -(*c as i64);
                s.append(decimal_string(magnitude as usize).as_str());
            } else {
                s.append(decimal_string(*c as usize).as_str());
            }
            s.append(")");
        },
    }
    assert(s@ =~= exit_code_spec(*code));
    s
}

/// The message of an annotation failure.
pub open spec fn annotation_message(e: AnnotationError) -> Seq<char> {
    match e {
        AnnotationError::InvalidId(v) => "invalid annotation id: "@ + v@,
        AnnotationError::InvalidSelection => "selection is outside the Markdown source"@,
        AnnotationError::InvalidUtf8Boundary => "selection splits a UTF-8 code point"@,
        AnnotationError::MultilineSelection => "selection must stay within one Markdown block"@,
        AnnotationError::EmptyNote => "note cannot be empty"@,
        AnnotationError::ReservedSyntax => "content contains reserved MD RedPen syntax"@,
        AnnotationError::ExistingLinkOverlap => "selection cannot overlap an existing Markdown link"@,
        AnnotationError::ExistingAnnotationOverlap => "selection cannot overlap an existing MD RedPen annotation"@,
        AnnotationError::InlineCodeOverlap => "selection cannot overlap inline code"@,
        AnnotationError::ImageOverlap => "selection cannot overlap a Markdown image"@,
    }
}

impl AnnotationError {
    /// The user-visible message.
    pub fn message(&self) -> (m: String)
        ensures
            m@ == annotation_message(*self),
    {
        let mut m = String::new();
        match self {
            AnnotationError::InvalidId(v) => {
                m.append("invalid annotation id: ");
                m.append(v.as_str());
            },
            AnnotationError::InvalidSelection => m.append("selection is outside the Markdown source"),
            AnnotationError::InvalidUtf8Boundary => m.append("selection splits a UTF-8 code point"),
            AnnotationError::MultilineSelection => m.append("selection must stay within one Markdown block"),
            AnnotationError::EmptyNote => m.append("note cannot be empty"),
            AnnotationError::ReservedSyntax => m.append("content contains reserved MD RedPen syntax"),
            AnnotationError::ExistingLinkOverlap => m.append("selection cannot overlap an existing Markdown link"),
            AnnotationError::ExistingAnnotationOverlap => m.append("selection cannot overlap an existing MD RedPen annotation"),
            AnnotationError::InlineCodeOverlap => m.append("selection cannot overlap inline code"),
            AnnotationError::ImageOverlap => m.append("selection cannot overlap a Markdown image"),
        }
        assert(m@ =~= annotation_message(*self));
        m
    }
}

/// The message of a projection failure.
pub open spec fn projection_message(e: ProjectionError) -> Seq<char> {
    match e {
        ProjectionError::InvalidSourceRange { start, end } => "parser returned invalid source range "@
            + crate::text::decimal(start as nat) + ".."@ + crate::text::decimal(end as nat),
    }
}

impl ProjectionError {
    /// The user-visible message.
    pub fn message(&self) -> (m: String)
        ensures
            m@ == projection_message(*self),
    {
        let mut m = String::new();
        match self {
            ProjectionError::InvalidSourceRange { start, end } => {
                m.append("parser returned invalid source range ");
                m.append(decimal_string(*start).as_str());
                m.append("..");
                m.append(decimal_string(*end).as_str());
            },
        }
        assert(m@ =~= projection_message(*self));
        m
    }
}

impl EditorError {
    /// The user-visible message: that of the projection failure.
    pub fn message(&self) -> (m: String)
        ensures
            match self {
                EditorError::Projection(p) => m@ == projection_message(*p),
            },
    {
        match self {
            EditorError::Projection(p) => p.message(),
        }
    }
}

/// The message of the storage failures whose text is fixed.
pub open spec fn storage_message(e: StorageError) -> Option<Seq<char>> {
    match e {
        StorageError::ExternalChange => Some("document changed outside MD RedPen; reload before saving"@),
        _ => None,
    }
}

/// The text of an I/O failure: the operation, then the path and the I/O
/// category as the standard library renders them.
pub open spec fn io_text(operation: Seq<char>, m: Seq<char>) -> bool {
    exists|p: Seq<char>, k: Seq<char>| m == "cannot "@ + operation + " "@ + p + ": "@ + k
}

/// The message of a storage failure: fixed text, with the path and the I/O
/// category as the standard library renders them.
pub open spec fn storage_text(e: StorageError, m: Seq<char>) -> bool {
    match e {
        StorageError::Io { operation, .. } => io_text(operation@, m),
        StorageError::InvalidUtf8(_) => exists|p: Seq<char>| m == "Markdown document is not valid UTF-8: "@ + p,
        StorageError::ExternalChange => storage_message(e) == Some(m),
    }
}

impl StorageError {
    /// The user-visible message.
    pub fn message(&self) -> (m: String)
        ensures
            storage_message(*self) matches Some(text) ==> m@ == text,
            storage_text(*self, m@),
    {
        let mut m = String::new();
        match self {
            StorageError::Io { operation, path, kind } => {
                let p = path_text(path);
                let k = error_kind_text(kind);
                m.append("cannot ");
                m.append(operation);
                m.append(" ");
                m.append(p.as_str());
                m.append(": ");
                m.append(k.as_str());
                assert(m@ =~= "cannot "@ + operation@ + " "@ + p@ + ": "@ + k@);
            },
            StorageError::InvalidUtf8(path) => {
                let p = path_text(path);
                m.append("Markdown document is not valid UTF-8: ");
                m.append(p.as_str());
                assert(m@ =~= "Markdown document is not valid UTF-8: "@ + p@);
            },
            StorageError::ExternalChange => {
                m.append("document changed outside MD RedPen; reload before saving");
            },
        }
        m
    }
}

/// The message of the Codex failures whose text the library fixes (those
/// that show a path, an I/O category, an exit code or a duration are
/// rendered by the standard library).
pub open spec fn codex_message(e: CodexError) -> Option<Seq<char>> {
    match e {
        CodexError::NotChatGptLogin(t) => Some("Codex must be logged in using ChatGPT: "@ + t@),
        CodexError::MissingPipe(stream) => Some("Codex process did not expose piped "@ + stream@),
        CodexError::EmptyOutput => Some("Codex returned an empty note"@),
        CodexError::OutputTooLarge { stream, limit } => Some(
            "Codex "@ + stream@ + " exceeded "@ + crate::text::decimal(limit as nat) + " bytes"@,
        ),
        CodexError::InvalidUtf8(stream) => Some("Codex "@ + stream@ + " was not valid UTF-8"@),
        CodexError::ReaderThread(stream) => Some(
            "Codex "@ + stream@ + " reader thread terminated unexpectedly"@,
        ),
        CodexError::OperationAndCleanup { primary, cleanup } => Some(
            "Codex operation failed: "@ + primary@ + "; cleanup also failed: "@ + cleanup@,
        ),
        _ => None,
    }
}

/// The message of a Codex failure: fixed text, with a path, an I/O
/// category, an exit code or a duration as the standard library renders them.
pub open spec fn codex_text(e: CodexError, m: Seq<char>) -> bool {
    match e {
        CodexError::Io { operation, .. } => io_text(operation@, m),
        CodexError::Exit { code, stderr } => m == "Codex exited with code "@ + exit_code_spec(code) + ": "@ + stderr@,
        CodexError::Timeout(_) => exists|d: Seq<char>| m == "Codex exceeded the "@ + d + " timeout"@,
        _ => codex_message(e) == Some(m),
    }
}

impl CodexError {
    /// The user-visible message.
    pub fn message(&self) -> (m: String)
        ensures
            codex_message(*self) matches Some(t) ==> m@ == t,
            codex_text(*self, m@),
    {
        let mut m = String::new();
        match self {
            CodexError::Io { operation, path, kind } => {
                let p = path_text(path);
                let k = error_kind_text(kind);
                m.append("cannot ");
                m.append(operation);
                m.append(" ");
                m.append(p.as_str());
                m.append(": ");
                m.append(k.as_str());
                assert(m@ =~= "cannot "@ + operation@ + " "@ + p@ + ": "@ + k@);
            },
            CodexError::NotChatGptLogin(text) => {
                m.append("Codex must be logged in using ChatGPT: ");
                m.append(text.as_str());
            },
            CodexError::MissingPipe(stream) => {
                m.append("Codex process did not expose piped ");
                m.append(stream);
            },
            CodexError::Exit { code, stderr } => {
                let c = exit_code_text(code);
                m.append("Codex exited with code ");
                m.append(c.as_str());
                m.append(": ");
                m.append(stderr.as_str());
                assert(m@ =~= "Codex exited with code "@ + c@ + ": "@ + stderr@);
            },
            CodexError::EmptyOutput => m.append("Codex returned an empty note"),
            CodexError::OutputTooLarge { stream, limit } => {
                m.append("Codex ");
                m.append(stream);
                m.append(" exceeded ");
                m.append(decimal_string(*limit).as_str());
                m.append(" bytes");
            },
            CodexError::InvalidUtf8(stream) => {
                m.append("Codex ");
                m.append(stream);
                m.append(" was not valid UTF-8");
            },
            CodexError::Timeout(duration) => {
                let d = duration_text(duration);
                m.append("Codex exceeded the ");
                m.append(d.as_str());
                m.append(" timeout");
                assert(m@ =~= "Codex exceeded the "@ + d@ + " timeout"@);
            },
            CodexError::ReaderThread(stream) => {
                m.append("Codex ");
                m.append(stream);
                m.append(" reader thread terminated unexpectedly");
            },
            CodexError::OperationAndCleanup { primary, cleanup } => {
                m.append("Codex operation failed: ");
                m.append(primary.as_str());
                m.append("; cleanup also failed: ");
                m.append(cleanup.as_str());
            },
        }
        assert(codex_message(*self) matches Some(t) ==> m@ =~= t);
        m
    }
}

} // verus!
