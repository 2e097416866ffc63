//! How the terminal session reports its failures.

use vstd::prelude::*;

use crate::app_error::{app_error_message, app_error_text, AppError};

verus! {

/// Terminal application failure.
#[derive(Debug)]
pub enum TuiError {
    /// Application state failed before the event loop.
    App(AppError),
    /// Terminal I/O failed.
    Io(std::io::Error),
    /// Runtime and terminal cleanup both failed.
    RunAndCleanup {
        /// Runtime failure.
        run: String,
        /// Cleanup failure.
        cleanup: String,
    },
    /// One or more runtime and cleanup operations failed.
    CleanupFailures(String),
}

/// Messages joined by a separator.
pub open spec fn joined(parts: Seq<Seq<char>>, separator: Seq<char>) -> Seq<char>
    decreases parts.len(),
{
    if parts.len() == 0 {
        Seq::empty()
    } else if parts.len() == 1 {
        parts[0]
    } else {
        joined(parts.drop_last(), separator) + separator + parts.last()
    }
}

/// `parts.join(separator)`.
pub fn join_messages(parts: &Vec<String>, separator: &str) -> (s: String)
    ensures
        s@ == joined(parts@.map_values(|p: String| p@), separator@),
{
    let ghost views = parts@.map_values(|p: String| p@);
    let mut s = String::new();
    let mut i: usize = 0;
    while i < parts.len()
        invariant
            i <= parts@.len(),
            views == parts@.map_values(|p: String| p@),
            s@ == joined(views.take(i as int), separator@),
        decreases parts@.len() - i,
    {
        if i > 0 {
            s.append(separator);
        }
        s.append(parts[i].as_str());
        proof {
            assert(views.take(i + 1).drop_last() =~= views.take(i as int));
            assert(views.take(i + 1).last() == parts@[i as int]@);
            if i == 0 {
                assert(s@ =~= joined(views.take(1), separator@));
            }
        }
        i = i + 1;
    }
    assert(views.take(parts@.len() as int) =~= views);
    s
}

/// The outcome of a session from the failures collected while running it and
/// tearing it down: success when there were none, else all of them.
pub fn session_outcome(failures: &Vec<String>) -> (r: Result<(), TuiError>)
    ensures
        failures@.len() == 0 ==> r is Ok,
        failures@.len() > 0 ==> (r matches Err(TuiError::CleanupFailures(m))
            && m@ == joined(failures@.map_values(|p: String| p@), "; "@)),
{
    if failures.len() == 0 {
        Ok(())
    } else {
        Err(TuiError::CleanupFailures(join_messages(failures, "; ")))
    }
}

/// The failure of a terminal setup step, given what undoing the setup
/// reported: the step's own error when the cleanup succeeded, both otherwise.
pub fn setup_failure(primary: std::io::Error, primary_text: String, cleanup_failures: &Vec<String>) -> (e: TuiError)
    ensures
        cleanup_failures@.len() == 0 ==> e == TuiError::Io(primary),
        cleanup_failures@.len() > 0 ==> (e matches TuiError::RunAndCleanup { run, cleanup }
            && run@ == primary_text@ && cleanup@ == joined(cleanup_failures@.map_values(|p: String| p@), "; "@)),
{
    if cleanup_failures.len() == 0 {
        TuiError::Io(primary)
    } else {
        TuiError::RunAndCleanup { run: primary_text, cleanup: join_messages(cleanup_failures, "; ") }
    }
}

/// The message of a terminal failure, where the library fixes its text.
pub open spec fn tui_message(e: TuiError) -> Option<Seq<char>> {
    match e {
        TuiError::App(a) => app_error_message(a),
        TuiError::Io(_) => None,
        TuiError::RunAndCleanup { run, cleanup } => Some(
            "TUI failed: "@ + run@ + "; terminal cleanup also failed: "@ + cleanup@,
        ),
        TuiError::CleanupFailures(m) => Some("TUI shutdown failures: "@ + m@),
    }
}

/// Renders an I/O error with its `Display` impl.
///
/// Nothing is claimed of the text: the platform supplies it.
#[verifier::external_body]
fn io_error_text(error: &std::io::Error) -> String {
    error.to_string()
}

/// The message of a terminal failure: that of the application failure it
/// wraps, or fixed text around the failures it joins (an I/O failure is
/// rendered by the standard library).
pub open spec fn tui_text(e: TuiError, m: Seq<char>) -> bool {
    match e {
        TuiError::App(a) => app_error_text(a, m),
        TuiError::Io(_) => true,
        _ => tui_message(e) == Some(m),
    }
}

impl TuiError {
    /// The user-visible message.
    pub fn message(&self) -> (m: String)
        ensures
            tui_message(*self) matches Some(t) ==> m@ == t,
            tui_text(*self, m@),
    {
        match self {
            TuiError::App(e) => e.message(),
            TuiError::Io(e) => io_error_text(e),
            TuiError::RunAndCleanup { run, cleanup } => {
                let mut m = String::new();
                m.append("TUI failed: ");
                m.append(run.as_str());
                m.append("; terminal cleanup also failed: ");
                m.append(cleanup.as_str());
                m
            },
            TuiError::CleanupFailures(text) => {
                let mut m = String::new();
                m.append("TUI shutdown failures: ");
                m.append(text.as_str());
                m
            },
        }
    }
}

} // verus!
