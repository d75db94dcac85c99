use crev_util::editor::{
    collected, edit_text_iteractively, exited, get_editor_to_use, prepared, Exit, SessionStep,
    DEFAULT_EDITOR, EDITOR_VARIABLE, SCRATCH_FILE, SCRATCH_PREFIX, VISUAL_VARIABLE,
};
use crev_util::error::Error;

fn some(text: &str) -> Option<String> {
    Some(text.to_string())
}

#[test]
fn the_names_the_session_uses() {
    assert_eq!(VISUAL_VARIABLE, "VISUAL");
    assert_eq!(EDITOR_VARIABLE, "EDITOR");
    assert_eq!(DEFAULT_EDITOR, "vi");
    assert_eq!(SCRATCH_PREFIX, "crev");
    assert_eq!(SCRATCH_FILE, "crev.review");
}

#[test]
fn the_visual_editor_comes_first() {
    assert_eq!(get_editor_to_use(some("emacs"), some("nano")), "emacs");
    assert_eq!(get_editor_to_use(some("emacs"), None), "emacs");
}

#[test]
fn the_general_editor_comes_second() {
    assert_eq!(get_editor_to_use(None, some("nano")), "nano");
}

#[test]
fn the_default_editor_comes_last() {
    assert_eq!(get_editor_to_use(None, None), "vi");
}

#[test]
fn an_empty_value_still_counts_as_set() {
    assert_eq!(get_editor_to_use(some(""), some("nano")), "");
    assert_eq!(get_editor_to_use(None, some("")), "");
}

#[test]
fn a_session_begins_by_preparing_the_scratch_file() {
    let step: SessionStep<String> =
        edit_text_iteractively(None, some("nano"), "draft\n".to_string());
    assert_eq!(
        step,
        SessionStep::Prepare { command: "nano".to_string(), text: "draft\n".to_string() }
    );
}

#[test]
fn the_editor_runs_once_the_file_is_prepared() {
    let step: SessionStep<String> = prepared("nano".to_string(), Ok(()));
    assert_eq!(step, SessionStep::Launch { command: "nano".to_string() });
}

#[test]
fn a_file_that_cannot_be_prepared_ends_the_session() {
    let step: SessionStep<String> = prepared("nano".to_string(), Err("disk full".to_string()));
    assert_eq!(step, SessionStep::Finished { result: Err(Error::Io("disk full".to_string())) });
}

#[test]
fn the_file_is_read_back_after_a_successful_editor() {
    let exit = Exit { success: true, status: "exit status: 0".to_string() };
    let step: SessionStep<String> = exited(Ok(exit));
    assert_eq!(step, SessionStep::Collect);
}

#[test]
fn an_editor_that_fails_ends_the_session_with_its_status() {
    let exit = Exit { success: false, status: "exit status: 1".to_string() };
    let step: SessionStep<String> = exited(Ok(exit));
    let error = Error::EditorFailed { status: "exit status: 1".to_string() };
    assert_eq!(error.message(), Some("Editor returned exit status: 1".to_string()));
    assert_eq!(step, SessionStep::Finished { result: Err(error) });
}

#[test]
fn an_editor_that_cannot_be_started_ends_the_session() {
    let step: SessionStep<String> = exited(Err("not found".to_string()));
    assert_eq!(step, SessionStep::Finished { result: Err(Error::Io("not found".to_string())) });
}

#[test]
fn what_is_read_back_is_the_result() {
    let step: SessionStep<String> = collected(Ok("edited\n".to_string()));
    assert_eq!(step, SessionStep::Finished { result: Ok("edited\n".to_string()) });
    let step: SessionStep<String> = collected(Err("vanished".to_string()));
    assert_eq!(step, SessionStep::Finished { result: Err(Error::Io("vanished".to_string())) });
}

/// An editor that appends a line, run through a whole session in memory.
fn session(text: &str, exit_ok: bool) -> Result<String, Error<String>> {
    let mut scratch: Option<String> = None;
    let mut step: SessionStep<String> = edit_text_iteractively(None, None, text.to_string());
    loop {
        step = match step {
            SessionStep::Prepare { command, text } => {
                scratch = Some(text);
                prepared(command, Ok(()))
            }
            SessionStep::Launch { command } => {
                assert_eq!(command, "vi");
                if exit_ok {
                    scratch.as_mut().unwrap().push_str("added\n");
                    exited(Ok(Exit { success: true, status: "exit status: 0".to_string() }))
                } else {
                    exited(Ok(Exit { success: false, status: "signal: 9".to_string() }))
                }
            }
            SessionStep::Collect => collected(Ok(scratch.clone().unwrap())),
            SessionStep::Finished { result } => return result,
        }
    }
}

#[test]
fn a_whole_session_returns_what_the_editor_left() {
    assert_eq!(session("first\n", true), Ok("first\nadded\n".to_string()));
}

#[test]
fn a_whole_session_with_a_failing_editor_returns_no_text() {
    assert_eq!(
        session("first\n", false),
        Err(Error::EditorFailed { status: "signal: 9".to_string() })
    );
}
