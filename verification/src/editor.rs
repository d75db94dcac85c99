//! One session of the user's editor on a text.
//!
//! The caller reads the variables named [`VISUAL_VARIABLE`] and
//! [`EDITOR_VARIABLE`], hands their values and the text to
//! [`edit_text_iteractively`], and performs each [`SessionStep`] it is
//! given. The scratch directory lives for one session: it is removed when
//! the session is [`SessionStep::Finished`], whatever the result.

use vstd::prelude::*;
use vstd::string::StringExecFns;
use crate::error::Error;
use crate::error::ErrorView;

verus! {

/// The environment variable that names the editor of first choice.
pub const VISUAL_VARIABLE: &'static str = "VISUAL";

/// The environment variable that names the editor of second choice.
pub const EDITOR_VARIABLE: &'static str = "EDITOR";

/// The editor that is run when the environment names none.
pub const DEFAULT_EDITOR: &'static str = "vi";

/// The beginning of the scratch directory's name.
pub const SCRATCH_PREFIX: &'static str = "crev";

/// The name of the file in the scratch directory that the editor works on.
pub const SCRATCH_FILE: &'static str = "crev.review";

/// The value of an environment variable as a mathematical value.
pub open spec fn variable_view(value: Option<String>) -> Option<Seq<char>> {
    match value {
        Some(text) => Some(text@),
        None => None,
    }
}

/// The editor command: the first choice where it is set, else the second,
/// else [`DEFAULT_EDITOR`].
pub open spec fn editor_to_use(visual: Option<Seq<char>>, editor: Option<Seq<char>>) -> Seq<char> {
    match visual {
        Some(command) => command,
        None => match editor {
            Some(command) => command,
            None => DEFAULT_EDITOR@,
        },
    }
}

/// Picks the editor command from the values of [`VISUAL_VARIABLE`] and
/// [`EDITOR_VARIABLE`].
pub fn get_editor_to_use(visual: Option<String>, editor: Option<String>) -> (command: String)
    ensures
        command@ == editor_to_use(variable_view(visual), variable_view(editor)),
{
    match visual {
        Some(command) => command,
        None => match editor {
            Some(command) => command,
            None => String::from_str(DEFAULT_EDITOR),
        },
    }
}

/// How the editor process ended.
#[derive(Debug, PartialEq, Eq)]
pub struct Exit {
    /// Whether the process reported success.
    pub success: bool,
    /// The exit status as the platform describes it.
    pub status: String,
}

/// What the caller of an editor session has to do next.
#[derive(Debug, PartialEq, Eq)]
pub enum SessionStep<E> {
    /// Create a fresh directory whose name begins with [`SCRATCH_PREFIX`],
    /// and in it the file [`SCRATCH_FILE`] holding exactly `text`: created,
    /// written in full, flushed and released. Hand the outcome, with
    /// `command`, to [`prepared`].
    Prepare { command: String, text: String },
    /// Run `command` with the path of the scratch file as its only argument
    /// and with the standard streams of this process, wait until it exits,
    /// and hand the outcome to [`exited`].
    Launch { command: String },
    /// Read the scratch file in full and hand the outcome to [`collected`].
    Collect,
    /// The session is over. Remove the scratch directory if it was created.
    Finished { result: Result<String, Error<E>> },
}

/// The mathematical value of a [`SessionStep`].
pub enum SessionStepView<E> {
    Prepare { command: Seq<char>, text: Seq<char> },
    Launch { command: Seq<char> },
    Collect,
    Finished { result: Result<Seq<char>, ErrorView<E>> },
}

impl<E> View for SessionStep<E> {
    type V = SessionStepView<E>;

    open spec fn view(&self) -> SessionStepView<E> {
        match self {
            SessionStep::Prepare { command, text } => SessionStepView::Prepare {
                command: command@,
                text: text@,
            },
            SessionStep::Launch { command } => SessionStepView::Launch { command: command@ },
            SessionStep::Collect => SessionStepView::Collect,
            SessionStep::Finished { result } => SessionStepView::Finished {
                result: match result {
                    Ok(text) => Ok(text@),
                    Err(error) => Err(error@),
                },
            },
        }
    }
}

/// The first step of a session on `text`.
pub open spec fn first_step<E>(
    visual: Option<Seq<char>>,
    editor: Option<Seq<char>>,
    text: Seq<char>,
) -> SessionStepView<E> {
    SessionStepView::Prepare { command: editor_to_use(visual, editor), text }
}

/// The step after the scratch file was to be prepared: the editor is run
/// once the file holds the text, and not otherwise.
pub open spec fn step_after_prepare<E>(command: Seq<char>, outcome: Result<(), E>) -> SessionStepView<
    E,
> {
    match outcome {
        Ok(_) => SessionStepView::Launch { command },
        Err(error) => SessionStepView::Finished { result: Err(ErrorView::Io(error)) },
    }
}

/// The step after the editor was to be run: the file is read back only
/// after an editor that reported success.
pub open spec fn step_after_exit<E>(outcome: Result<(bool, Seq<char>), E>) -> SessionStepView<E> {
    match outcome {
        Err(error) => SessionStepView::Finished { result: Err(ErrorView::Io(error)) },
        Ok((success, status)) => if success {
            SessionStepView::Collect
        } else {
            SessionStepView::Finished { result: Err(ErrorView::EditorFailed { status }) }
        },
    }
}

/// The step after the scratch file was to be read back: what was read is
/// the edited text.
pub open spec fn step_after_collect<E>(outcome: Result<Seq<char>, E>) -> SessionStepView<E> {
    match outcome {
        Ok(text) => SessionStepView::Finished { result: Ok(text) },
        Err(error) => SessionStepView::Finished { result: Err(ErrorView::Io(error)) },
    }
}

/// How an attempt to run the editor ended, as a mathematical value.
pub open spec fn exit_view<E>(outcome: Result<Exit, E>) -> Result<(bool, Seq<char>), E> {
    match outcome {
        Ok(exit) => Ok((exit.success, exit.status@)),
        Err(error) => Err(error),
    }
}

/// What an attempt to read the scratch file gave, as a mathematical value.
pub open spec fn read_view<E>(outcome: Result<String, E>) -> Result<Seq<char>, E> {
    match outcome {
        Ok(text) => Ok(text@),
        Err(error) => Err(error),
    }
}

/// Starts an editor session on `text`. `visual` and `editor` are the values
/// of [`VISUAL_VARIABLE`] and [`EDITOR_VARIABLE`], where they are set.
pub fn edit_text_iteractively<E>(
    visual: Option<String>,
    editor: Option<String>,
    text: String,
) -> (step: SessionStep<E>)
    ensures
        step@ == first_step::<E>(variable_view(visual), variable_view(editor), text@),
{
    SessionStep::Prepare { command: get_editor_to_use(visual, editor), text }
}

/// Continues the session with the outcome of [`SessionStep::Prepare`].
pub fn prepared<E>(command: String, outcome: Result<(), E>) -> (step: SessionStep<E>)
    ensures
        step@ == step_after_prepare(command@, outcome),
{
    match outcome {
        Ok(_) => SessionStep::Launch { command },
        Err(error) => SessionStep::Finished { result: Err(Error::Io(error)) },
    }
}

/// Continues the session with the outcome of [`SessionStep::Launch`].
pub fn exited<E>(outcome: Result<Exit, E>) -> (step: SessionStep<E>)
    ensures
        step@ == step_after_exit(exit_view(outcome)),
{
    match outcome {
        Err(error) => SessionStep::Finished { result: Err(Error::Io(error)) },
        Ok(exit) => if exit.success {
            SessionStep::Collect
        } else {
            SessionStep::Finished { result: Err(Error::EditorFailed { status: exit.status }) }
        },
    }
}

/// Continues the session with the outcome of [`SessionStep::Collect`].
pub fn collected<E>(outcome: Result<String, E>) -> (step: SessionStep<E>)
    ensures
        step@ == step_after_collect(read_view(outcome)),
{
    match outcome {
        Ok(text) => SessionStep::Finished { result: Ok(text) },
        Err(error) => SessionStep::Finished { result: Err(Error::Io(error)) },
    }
}

} // verus!
