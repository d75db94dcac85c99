//! Storing a file so that its path never names a half-written file.
//!
//! The content is written to a sibling of the target, the temporary file,
//! and the temporary file is then renamed onto the target. The caller
//! performs each [`StoreStep`] it is given and hands the outcome to the
//! function that the step names.
//!
//! The temporary file is never the target itself, whatever the target is
//! called: see [`temp_for`]. What is left to the file system is that the
//! rename is atomic, which holds where the temporary file and the target
//! are on one file system.

use vstd::prelude::*;
use vstd::string::StrSliceExecFns;
use vstd::string::StringExecFns;
use crate::path::parent;
use crate::path::with_extension;

verus! {

/// The extension of the temporary file.
pub const TEMP_EXTENSION: &'static str = "tmp";

/// What stands between a file's name and an extension that is appended to
/// it.
pub const EXTENSION_MARK: &'static str = ".";

/// What is written to the temporary file.
#[derive(Debug, PartialEq, Eq)]
pub enum Payload {
    /// Exactly these bytes.
    Bytes(Vec<u8>),
    /// Whatever the caller's routine writes to the open file.
    Routine,
}

/// The mathematical value of a [`Payload`].
pub enum PayloadView {
    Bytes(Seq<u8>),
    Routine,
}

impl View for Payload {
    type V = PayloadView;

    open spec fn view(&self) -> PayloadView {
        match self {
            Payload::Bytes(bytes) => PayloadView::Bytes(bytes@),
            Payload::Routine => PayloadView::Routine,
        }
    }
}

/// One store of one file: the paths it works on and what it writes.
#[derive(Debug, PartialEq, Eq)]
pub struct StoreJob {
    /// The path that is to name the new content.
    pub target: String,
    /// The directory of `target`.
    pub dir: String,
    /// The temporary file.
    pub temp: String,
    /// What is written.
    pub payload: Payload,
}

/// The mathematical value of a [`StoreJob`].
pub struct StoreJobView {
    pub target: Seq<char>,
    pub dir: Seq<char>,
    pub temp: Seq<char>,
    pub payload: PayloadView,
}

impl View for StoreJob {
    type V = StoreJobView;

    open spec fn view(&self) -> StoreJobView {
        StoreJobView {
            target: self.target@,
            dir: self.dir@,
            temp: self.temp@,
            payload: self.payload@,
        }
    }
}

/// What the caller of a store has to do next.
#[derive(Debug, PartialEq, Eq)]
pub enum StoreStep<E> {
    /// Create `job.dir` and every ancestor of it that is missing, and hand
    /// the outcome, with `job`, to [`dirs_created`].
    CreateDirs { job: StoreJob },
    /// Create `job.temp`, or empty it if it exists; write `job.payload` to
    /// it in full, flush it and release it. Hand the outcome, with `job`, to
    /// [`temp_written`].
    WriteTemp { job: StoreJob },
    /// Rename `job.temp` onto `job.target`, and hand the outcome to
    /// [`replaced`].
    Replace { job: StoreJob },
    /// The store is over.
    Finished { result: Result<(), E> },
}

/// The mathematical value of a [`StoreStep`].
pub enum StoreStepView<E> {
    CreateDirs { job: StoreJobView },
    WriteTemp { job: StoreJobView },
    Replace { job: StoreJobView },
    Finished { result: Result<(), E> },
}

impl<E> View for StoreStep<E> {
    type V = StoreStepView<E>;

    open spec fn view(&self) -> StoreStepView<E> {
        match self {
            StoreStep::CreateDirs { job } => StoreStepView::CreateDirs { job: job@ },
            StoreStep::WriteTemp { job } => StoreStepView::WriteTemp { job: job@ },
            StoreStep::Replace { job } => StoreStepView::Replace { job: job@ },
            StoreStep::Finished { result } => StoreStepView::Finished { result: *result },
        }
    }
}

impl StoreJobView {
    /// Whether the temporary file is another path than the target, so that
    /// nothing is written to the target before the rename.
    pub open spec fn atomic(self) -> bool {
        self.temp != self.target
    }
}

/// The temporary file for `path`: `path` with [`TEMP_EXTENSION`] in place
/// of its extension. Where that is `path` itself, as it is for a target
/// that has this extension already, the extension is appended instead,
/// after an [`EXTENSION_MARK`].
pub open spec fn temp_for(path: Seq<char>) -> Seq<char> {
    let sibling = crate::path::path_with_extension(path, TEMP_EXTENSION@);
    if sibling == path {
        path + EXTENSION_MARK@ + TEMP_EXTENSION@
    } else {
        sibling
    }
}

/// The job that stores `payload` at `path`: the directory is the parent of
/// `path`, and the temporary file is [`temp_for`] `path`. A path without a
/// parent cannot be stored to.
pub open spec fn job_for(path: Seq<char>, payload: PayloadView) -> Option<StoreJobView> {
    match crate::path::path_parent(path) {
        Some(dir) => Some(StoreJobView { target: path, dir, temp: temp_for(path), payload }),
        None => None,
    }
}

/// The temporary file is never the target.
pub proof fn lemma_temp_is_not_the_target(path: Seq<char>)
    ensures
        temp_for(path) != path,
{
    reveal_strlit(".");
    assert((path + EXTENSION_MARK@ + TEMP_EXTENSION@).len() > path.len());
}

/// Every job that a store begins with keeps the temporary file apart from
/// the target.
pub proof fn lemma_jobs_are_atomic(path: Seq<char>, payload: PayloadView)
    ensures
        job_for(path, payload) matches Some(job) ==> job.atomic(),
{
    lemma_temp_is_not_the_target(path);
}

/// The first step of a store: the directories come first.
pub open spec fn first_step<E>(path: Seq<char>, payload: PayloadView) -> Option<StoreStepView<E>> {
    match job_for(path, payload) {
        Some(job) => Some(StoreStepView::CreateDirs { job }),
        None => None,
    }
}

/// The step after the directories were to be created. Whether they could be
/// created is not looked at: where the directory is missing, writing the
/// temporary file fails, and that failure is reported.
pub open spec fn step_after_dirs<E>(job: StoreJobView, outcome: Result<(), E>) -> StoreStepView<E> {
    StoreStepView::WriteTemp { job }
}

/// The step after the temporary file was to be written: the target is
/// replaced only by a temporary file that was written in full.
pub open spec fn step_after_write<E>(job: StoreJobView, outcome: Result<(), E>) -> StoreStepView<
    E,
> {
    match outcome {
        Ok(_) => StoreStepView::Replace { job },
        Err(error) => StoreStepView::Finished { result: Err(error) },
    }
}

/// The step after the target was to be replaced: the store ends as the
/// rename did.
pub open spec fn step_after_replace<E>(outcome: Result<(), E>) -> StoreStepView<E> {
    StoreStepView::Finished { result: outcome }
}

/// The first step of the job for `path` and `payload`.
fn begin<E>(path: &str, payload: Payload) -> (step: Option<StoreStep<E>>)
    ensures
        step matches Some(s) ==> first_step::<E>(path@, payload@) == Some(s@),
        step matches Some(StoreStep::CreateDirs { job }) ==> job@.atomic(),
        step is None ==> first_step::<E>(path@, payload@) is None,
{
    match parent(path) {
        None => None,
        Some(dir) => {
            proof {
                reveal_strlit("tmp");
                lemma_temp_is_not_the_target(path@);
            }
            let target = path.to_owned();
            let sibling = with_extension(path, TEMP_EXTENSION);
            let temp = if sibling == target {
                path.to_owned().concat(EXTENSION_MARK).concat(TEMP_EXTENSION)
            } else {
                sibling
            };
            let job = StoreJob { target, dir, temp, payload };
            Some(StoreStep::CreateDirs { job })
        },
    }
}

/// Starts a store of `text`, as its UTF-8 bytes, at `path`. The result is
/// `None` if and only if `path` has no parent. The temporary file of the
/// job is another path than `path`.
pub fn store_str_to_file<E>(path: &str, text: &str) -> (step: Option<StoreStep<E>>)
    ensures
        step matches Some(s) ==> first_step::<E>(
            path@,
            PayloadView::Bytes(vstd::utf8::encode_utf8(text@)),
        ) == Some(s@),
        step matches Some(StoreStep::CreateDirs { job }) ==> job@.atomic(),
        step is None ==> crate::path::path_parent(path@) is None,
{
    begin(path, Payload::Bytes(text.as_bytes_vec()))
}

/// Starts a store at `path` of what a routine of the caller's writes. The
/// result is `None` if and only if `path` has no parent. The temporary file
/// of the job, which is the file that the routine writes to, is another
/// path than `path`.
pub fn store_to_file_with<E>(path: &str) -> (step: Option<StoreStep<E>>)
    ensures
        step matches Some(s) ==> first_step::<E>(path@, PayloadView::Routine) == Some(s@),
        step matches Some(StoreStep::CreateDirs { job }) ==> job@.atomic(),
        step is None ==> crate::path::path_parent(path@) is None,
{
    begin(path, Payload::Routine)
}

/// Continues the store with the outcome of [`StoreStep::CreateDirs`].
pub fn dirs_created<E>(job: StoreJob, outcome: Result<(), E>) -> (step: StoreStep<E>)
    ensures
        step@ == step_after_dirs(job@, outcome),
{
    StoreStep::WriteTemp { job }
}

/// Continues the store with the outcome of [`StoreStep::WriteTemp`].
pub fn temp_written<E>(job: StoreJob, outcome: Result<(), E>) -> (step: StoreStep<E>)
    ensures
        step@ == step_after_write(job@, outcome),
{
    match outcome {
        Ok(_) => StoreStep::Replace { job },
        Err(error) => StoreStep::Finished { result: Err(error) },
    }
}

/// Continues the store with the outcome of [`StoreStep::Replace`].
pub fn replaced<E>(outcome: Result<(), E>) -> (step: StoreStep<E>)
    ensures
        step@ == step_after_replace(outcome),
{
    StoreStep::Finished { result: outcome }
}

} // verus!
