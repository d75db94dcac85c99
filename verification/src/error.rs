//! How a workflow can fail.

use vstd::prelude::*;
use vstd::string::StringExecFns;

verus! {

/// Why an editing workflow ended without a result.
///
/// `E` is the failure type of the caller's input and output. The library
/// never looks inside such a failure: it stops and hands it on.
#[derive(Debug, PartialEq, Eq)]
pub enum Error<E> {
    /// A read, write, create or rename of the caller's failed.
    Io(E),
    /// The editor ran and reported failure; `status` is its exit status as
    /// the platform describes it.
    EditorFailed { status: String },
    /// The user declined to correct a text that did not parse.
    UserCanceled,
}

/// The mathematical value of an [`Error`].
pub enum ErrorView<E> {
    Io(E),
    EditorFailed { status: Seq<char> },
    UserCanceled,
}

impl<E> View for Error<E> {
    type V = ErrorView<E>;

    open spec fn view(&self) -> ErrorView<E> {
        match self {
            Error::Io(e) => ErrorView::Io(*e),
            Error::EditorFailed { status } => ErrorView::EditorFailed { status: status@ },
            Error::UserCanceled => ErrorView::UserCanceled,
        }
    }
}

/// The text that precedes the exit status in the message of
/// [`Error::EditorFailed`].
pub const EDITOR_FAILED: &'static str = "Editor returned ";

/// The message of [`Error::UserCanceled`].
pub const USER_CANCELED: &'static str = "User canceled";

impl<E> ErrorView<E> {
    /// The message of a failure that the library itself raised; an
    /// input or output failure carries its own description.
    pub open spec fn message(self) -> Option<Seq<char>> {
        match self {
            ErrorView::Io(_) => None,
            ErrorView::EditorFailed { status } => Some(EDITOR_FAILED@ + status),
            ErrorView::UserCanceled => Some(USER_CANCELED@),
        }
    }
}

impl<E> Error<E> {
    /// The message of a failure that the library itself raised, and `None`
    /// for a failure of the caller's input or output.
    pub fn message(&self) -> (text: Option<String>)
        ensures
            text.is_some() == self@.message().is_some(),
            text matches Some(t) ==> self@.message() == Some(t@),
    {
        match self {
            Error::Io(_) => None,
            Error::EditorFailed { status } => {
                Some(String::from_str(EDITOR_FAILED).concat(status.as_str()))
            },
            Error::UserCanceled => Some(String::from_str(USER_CANCELED)),
        }
    }
}

} // verus!
