//! Verified core of an interactive authoring workflow: a person edits a text
//! in an external editor, the text is accepted once it parses, and the result
//! is stored so that a reader never sees a half-written file.
//!
//! The crate performs no input or output itself. Each workflow is a set of
//! decision functions: the caller performs the step a function asks for and
//! hands the outcome to the next one.

pub mod content;
pub mod durability;
pub mod editor;
pub mod error;
pub mod passphrase;
pub mod path;
pub mod prompt;
pub mod store;
