use std::path::PathBuf;

use md_redpen::app_error::AppError;
use md_redpen::codex::{
    exec_arguments, job_outcome, job_step, login_arguments, login_verdict, removed_environment, stream_text,
    with_cleanup, CodexError, CodexRequest, JobStep, MAX_OUTPUT_BYTES,
};
use md_redpen::storage::{check_unchanged, snapshot_from_bytes, DocumentSnapshot, StorageError};
use md_redpen::terminal::{join_messages, session_outcome, TuiError};

#[test]
fn uses_noninteractive_read_only_exec_arguments() {
    let expected: Vec<String> = [
        "exec",
        "--ephemeral",
        "--ignore-user-config",
        "--ignore-rules",
        "--skip-git-repo-check",
        "--sandbox",
        "read-only",
        "--color",
        "never",
        "-",
    ]
    .iter()
    .map(|a| a.to_string())
    .collect();
    assert_eq!(exec_arguments(None), expected);
    let with_model = exec_arguments(Some("gpt-x"));
    assert_eq!(with_model[9], "--model");
    assert_eq!(with_model[10], "gpt-x");
    assert_eq!(with_model.last().map(String::as_str), Some("-"));
    assert_eq!(login_arguments(), vec!["login", "status"]);
    assert_eq!(removed_environment(), vec!["CODEX_API_KEY", "OPENAI_API_KEY"]);
}

#[test]
fn prompts_carry_selection_context_and_instruction() {
    let prompt = CodexRequest::explain("RDMA", "RDMA는 빠르다.").prompt();
    assert!(prompt.contains("<selection>\nRDMA\n</selection>"));
    assert!(prompt.contains("<context>\nRDMA는 빠르다.\n</context>"));
    assert!(!prompt.contains("<revision_instruction>"));

    let revision = CodexRequest::revise("느린 문장", "느린 문장을 정확하게 고칩니다.", "더 구체적으로 바꿔 줘").prompt();
    assert!(revision.contains("<revision_instruction>\n더 구체적으로 바꿔 줘"));
    assert!(revision.contains("<selection>\n느린 문장\n</selection>"));
    assert!(revision.contains("replacement"));
}

#[test]
fn login_needs_success_and_chatgpt_confirmation() {
    assert!(login_verdict(true, b"Logged in using ChatGPT\n", b"").is_ok());
    assert!(login_verdict(true, b"", b"Logged in using ChatGPT").is_ok());
    match login_verdict(false, b"Logged in using ChatGPT\n", b"") {
        Err(CodexError::NotChatGptLogin(text)) => assert_eq!(text, "Logged in using ChatGPT"),
        other => panic!("unexpected {other:?}"),
    }
    match login_verdict(true, b"  Logged in using API key\n", b"warn\n") {
        Err(CodexError::NotChatGptLogin(text)) => assert_eq!(text, "Logged in using API key\nwarn"),
        other => panic!("unexpected {other:?}"),
    }
}

#[test]
fn finished_jobs_yield_trimmed_notes_or_typed_errors() {
    assert_eq!(job_outcome(true, Some(0), "  가짜 설명\n", "").ok(), Some("가짜 설명".to_owned()));
    assert!(matches!(job_outcome(true, Some(0), " \n ", ""), Err(CodexError::EmptyOutput)));
    match job_outcome(false, Some(2), "ignored", " boom \n") {
        Err(CodexError::Exit { code, stderr }) => {
            assert_eq!(code, Some(2));
            assert_eq!(stderr, "boom");
        }
        other => panic!("unexpected {other:?}"),
    }
}

#[test]
fn streams_are_bounded_utf8() {
    assert_eq!(stream_text("설명".as_bytes().to_vec(), "stdout").ok(), Some("설명".to_owned()));
    assert!(matches!(stream_text(vec![0xff, 0xfe], "stdout"), Err(CodexError::InvalidUtf8("stdout"))));
    match stream_text(vec![b'a'; MAX_OUTPUT_BYTES + 1], "stderr") {
        Err(CodexError::OutputTooLarge { stream, limit }) => {
            assert_eq!(stream, "stderr");
            assert_eq!(limit, MAX_OUTPUT_BYTES);
        }
        other => panic!("unexpected {other:?}"),
    }
    assert!(stream_text(vec![b'a'; MAX_OUTPUT_BYTES], "stdout").is_ok());
}

#[test]
fn cleanup_failures_are_joined_to_the_primary_failure() {
    assert!(matches!(with_cleanup(CodexError::EmptyOutput, None), CodexError::EmptyOutput));
    let joined = with_cleanup(CodexError::EmptyOutput, Some("kill failed".to_owned()));
    assert_eq!(
        joined.message(),
        "Codex operation failed: Codex returned an empty note; cleanup also failed: kill failed"
    );
}

#[test]
fn external_change_is_detected_before_commit() {
    let snapshot = DocumentSnapshot::from_parts(PathBuf::from("document.md"), "원본\n".to_owned());
    assert_eq!(check_unchanged(&snapshot, "외부 변경\n"), Err(StorageError::ExternalChange));
    assert_eq!(check_unchanged(&snapshot, "원본\n"), Ok(()));
    assert_eq!(
        StorageError::ExternalChange.message(),
        "document changed outside MD RedPen; reload before saving"
    );
}

#[test]
fn snapshots_need_utf8() {
    let path = PathBuf::from("document.md");
    let snapshot = snapshot_from_bytes(path.clone(), "원본\n".as_bytes().to_vec());
    assert_eq!(snapshot.as_ref().map(|s| s.source().to_owned()).ok(), Some("원본\n".to_owned()));
    assert_eq!(snapshot_from_bytes(path.clone(), vec![0xc3]), Err(StorageError::InvalidUtf8(path)));
}

#[test]
fn session_failures_are_joined() {
    assert!(session_outcome(&Vec::new()).is_ok());
    let failures = vec!["draw failed".to_owned(), "cleanup failed".to_owned()];
    match session_outcome(&failures) {
        Err(TuiError::CleanupFailures(text)) => assert_eq!(text, "draw failed; cleanup failed"),
        other => panic!("unexpected {other:?}"),
    }
    assert_eq!(join_messages(&vec!["a".to_owned()], "; "), "a");
    let error = TuiError::RunAndCleanup { run: "x".to_owned(), cleanup: "y".to_owned() };
    assert_eq!(error.message(), "TUI failed: x; terminal cleanup also failed: y");
}

#[test]
fn app_errors_show_their_cause() {
    assert_eq!(AppError::MissingSelection.message(), "select a word or sentence first");
    assert_eq!(
        AppError::Codex(CodexError::NotChatGptLogin("nope".to_owned())).message(),
        "Codex must be logged in using ChatGPT: nope"
    );
}

#[test]
fn exit_failures_show_the_code_and_stderr() {
    let exited = CodexError::Exit { code: Some(2), stderr: "bad flag".to_owned() };
    assert_eq!(exited.message(), "Codex exited with code Some(2): bad flag");
    let negative = CodexError::Exit { code: Some(-1), stderr: String::new() };
    assert_eq!(negative.message(), "Codex exited with code Some(-1): ");
    let killed = CodexError::Exit { code: None, stderr: "signal".to_owned() };
    assert_eq!(killed.message(), "Codex exited with code None: signal");
}

#[test]
fn polling_waits_for_exit_and_both_streams() {
    assert_eq!(job_step(true, true, true), JobStep::TimedOut);
    assert_eq!(job_step(false, true, true), JobStep::Finish);
    assert_eq!(job_step(false, true, false), JobStep::Wait);
    assert_eq!(job_step(false, false, true), JobStep::Wait);
}
