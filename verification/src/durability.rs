//! What a store guarantees of the files, stated over a model of them.
//!
//! The model holds the content of every path that names a file. It says
//! what each action of a store does to the files when the caller performs
//! it as its step describes it, and what the files can look like while the
//! action is under way or after it was cut short. The laws below are proved
//! of the model; they hold of a file system as far as it behaves like the
//! model, which asks that the rename is atomic.

use vstd::prelude::*;
use crate::store::PayloadView;
use crate::store::StoreJobView;
use crate::store::StoreStepView;

verus! {

/// The files of a file system: the content of each path that names one.
pub type Files = Map<Seq<char>, Seq<u8>>;

/// The file at `path`, if there is one.
pub open spec fn file_at(files: Files, path: Seq<char>) -> Option<Seq<u8>> {
    if files.contains_key(path) {
        Some(files[path])
    } else {
        None
    }
}

/// The actions of a store, in the order in which its steps ask for them.
pub enum Action {
    CreateDirs,
    WriteTemp,
    Replace,
}

/// The action that `step` asks for, if the store is not over.
pub open spec fn action_of<E>(step: StoreStepView<E>) -> Option<Action> {
    match step {
        StoreStepView::CreateDirs { .. } => Some(Action::CreateDirs),
        StoreStepView::WriteTemp { .. } => Some(Action::WriteTemp),
        StoreStepView::Replace { .. } => Some(Action::Replace),
        StoreStepView::Finished { .. } => None,
    }
}

impl StoreJobView {
    /// The bytes that the temporary file holds once it was written in
    /// full, where `routine` is what the caller's routine writes.
    pub open spec fn content(self, routine: Seq<u8>) -> Seq<u8> {
        match self.payload {
            PayloadView::Bytes(bytes) => bytes,
            PayloadView::Routine => routine,
        }
    }

    /// The files after `action` was performed to its end on `before`.
    /// Creating directories changes no file; the write leaves the content in
    /// the temporary file; the rename takes the temporary file away and
    /// leaves what it held at the target.
    pub open spec fn performed(self, action: Action, routine: Seq<u8>, before: Files) -> Files {
        match action {
            Action::CreateDirs => before,
            Action::WriteTemp => before.insert(self.temp, self.content(routine)),
            Action::Replace => before.remove(self.temp).insert(self.target, before[self.temp]),
        }
    }

    /// Whether `now` can be the files at an instant at which `action`, begun
    /// on `before`, is under way, has failed or was cut short. A write that
    /// did not end can leave anything in the temporary file and touches
    /// nothing else; a rename that did not end has changed nothing.
    pub open spec fn interrupted(self, action: Action, before: Files, now: Files) -> bool {
        match action {
            Action::CreateDirs => now == before,
            Action::WriteTemp => forall|path: Seq<char>|
                path != self.temp ==> #[trigger] file_at(now, path) == file_at(before, path),
            Action::Replace => now == before,
        }
    }

    /// The files after the whole store succeeded on `before`.
    pub open spec fn stored(self, routine: Seq<u8>, before: Files) -> Files {
        let with_dirs = self.performed(Action::CreateDirs, routine, before);
        let with_temp = self.performed(Action::WriteTemp, routine, with_dirs);
        self.performed(Action::Replace, routine, with_temp)
    }

    /// Whether `now` can be the files at an instant of a store begun on
    /// `before` at which the rename has not begun.
    pub open spec fn before_replace(self, routine: Seq<u8>, before: Files, now: Files) -> bool {
        let with_dirs = self.performed(Action::CreateDirs, routine, before);
        ||| self.interrupted(Action::CreateDirs, before, now)
        ||| now == with_dirs
        ||| self.interrupted(Action::WriteTemp, with_dirs, now)
        ||| now == self.performed(Action::WriteTemp, routine, with_dirs)
    }

    /// Whether `now` can be the files at any instant of a store begun on
    /// `before`, whether it goes on, has failed or has ended.
    pub open spec fn during(self, routine: Seq<u8>, before: Files, now: Files) -> bool {
        let with_dirs = self.performed(Action::CreateDirs, routine, before);
        let with_temp = self.performed(Action::WriteTemp, routine, with_dirs);
        ||| self.before_replace(routine, before, now)
        ||| self.interrupted(Action::Replace, with_temp, now)
        ||| now == self.stored(routine, before)
    }
}

/// A store asks for its actions in one order: directories, temporary file,
/// rename. It asks for the rename only after the temporary file was written
/// in full, and it ends with the failure of the write or with the outcome
/// of the rename.
pub proof fn lemma_actions_in_order<E>(
    path: Seq<char>,
    job: StoreJobView,
    outcome: Result<(), E>,
)
    ensures
        crate::store::first_step::<E>(path, job.payload) matches Some(step) ==> action_of(step)
            == Some(Action::CreateDirs),
        action_of(crate::store::step_after_dirs(job, outcome)) == Some(Action::WriteTemp),
        outcome is Ok ==> action_of(crate::store::step_after_write(job, outcome)) == Some(
            Action::Replace,
        ),
        outcome is Err ==> action_of(crate::store::step_after_write(job, outcome)).is_none(),
        outcome is Err ==> crate::store::step_after_write(job, outcome)
            == (StoreStepView::Finished { result: outcome }),
        crate::store::step_after_replace(outcome) == (StoreStepView::Finished { result: outcome }),
{
}

/// A store to any path that ends before its rename begins, by a failure
/// of the write, of the caller's routine or by a crash, leaves the target
/// as it was: the same content, or no file.
pub proof fn lemma_target_intact_before_replace(
    path: Seq<char>,
    payload: PayloadView,
    routine: Seq<u8>,
    before: Files,
    now: Files,
)
    ensures
        (crate::store::job_for(path, payload) matches Some(job) ==> (job.before_replace(
            routine,
            before,
            now,
        ) ==> file_at(now, path) == file_at(before, path))),
{
    crate::store::lemma_jobs_are_atomic(path, payload);
}

/// At every instant of a store to any path the target is either as it was
/// before the store or holds the whole new content: never a part of it.
pub proof fn lemma_target_never_partial(
    path: Seq<char>,
    payload: PayloadView,
    routine: Seq<u8>,
    before: Files,
    now: Files,
)
    ensures
        (crate::store::job_for(path, payload) matches Some(job) ==> (job.during(
            routine,
            before,
            now,
        ) ==> (file_at(now, path) == file_at(before, path) || file_at(now, path) == Some(
            job.content(routine),
        )))),
{
    crate::store::lemma_jobs_are_atomic(path, payload);
}

/// A store to any path that succeeded leaves the content at the target, no
/// temporary file, and every other file as it was.
pub proof fn lemma_stored(path: Seq<char>, payload: PayloadView, routine: Seq<u8>, before: Files)
    ensures
        (crate::store::job_for(path, payload) matches Some(job) ==> {
            let after = job.stored(routine, before);
            &&& file_at(after, path) == Some(job.content(routine))
            &&& file_at(after, job.temp).is_none()
            &&& forall|other: Seq<char>|
                other != path && other != job.temp ==> #[trigger] file_at(after, other) == file_at(
                    before,
                    other,
                )
        }),
{
    crate::store::lemma_jobs_are_atomic(path, payload);
}

/// Of two stores to one path that succeed one after the other, the second
/// decides what the target holds, and no temporary file is left.
pub proof fn lemma_last_store_wins(
    path: Seq<char>,
    first_payload: PayloadView,
    second_payload: PayloadView,
    first_routine: Seq<u8>,
    second_routine: Seq<u8>,
    before: Files,
)
    ensures
        (crate::store::job_for(path, first_payload) matches Some(first) ==> (
        crate::store::job_for(path, second_payload) matches Some(second) ==> {
            let after = second.stored(second_routine, first.stored(first_routine, before));
            &&& file_at(after, path) == Some(second.content(second_routine))
            &&& file_at(after, second.temp).is_none()
        })),
{
    crate::store::lemma_jobs_are_atomic(path, first_payload);
    crate::store::lemma_jobs_are_atomic(path, second_payload);
}

/// Storing the same content a second time changes nothing.
pub proof fn lemma_store_is_idempotent(job: StoreJobView, routine: Seq<u8>, before: Files)
    ensures
        job.stored(routine, job.stored(routine, before)) == job.stored(routine, before),
{
    assert(job.stored(routine, job.stored(routine, before)) =~= job.stored(routine, before));
}

} // verus!
