//! The course of one export, from the pattern of its path to the written file.

use std::path::PathBuf;
use std::sync::Arc;
use vstd::prelude::*;
use vstd::string::*;

use crate::document::{share, TypstDocument};
use crate::error::ExportError;
use crate::export::ExportTask;
use crate::path::{
    clean, cleaned_path, extend, extended_path, is_absolute_path, is_extension_spec, is_relative,
    join, joined_path,
};
use crate::produce::{
    answers_left, answers_render, is_begun, is_next_run, is_reached, is_render_result,
    lemma_render_advance, lemma_render_begin, lemma_render_result, RenderAnswer, RenderAnswers,
    RenderRun, RenderState,
};
use crate::task::ProjectTask;

verus! {

/// Why a file was not written.
#[derive(Debug, PartialEq, Eq)]
pub enum WriteError {
    /// The work was broken off.
    Interrupted(String),
    /// Writing failed.
    Failed(String),
}

/// What an export depends on besides what it asks for.
#[derive(Debug)]
pub struct ExportJob {
    pub task: Arc<ProjectTask>,
    /// The task in the form for messages.
    pub shown: String,
    /// Whether a lock file is to be kept.
    pub lock: bool,
    /// The compiled document, unless there were errors.
    pub document: Option<TypstDocument>,
}

impl ExportJob {
    /// The task.
    pub open spec fn task_spec(self) -> ProjectTask {
        *self.task
    }
}

/// What a lock file records of a task.
#[derive(Debug, PartialEq, Eq)]
pub struct ApplyProjectTask {
    /// The task, under the name of its document.
    pub id: String,
    /// The document that the task is applied to.
    pub document: String,
    pub task: Arc<ProjectTask>,
}

/// How far an export has come: what it waits for, or how it ended.
#[derive(Debug)]
pub enum ExportState {
    /// The variables in the pattern of the path are to be replaced.
    Substituting(Option<String>),
    /// The current directory is to be found, for a relative path.
    Anchoring(PathBuf),
    /// It is to be found out whether the path is a directory.
    Inspecting(PathBuf),
    /// The extension of the task is to be found.
    Extending(PathBuf),
    /// It is to be found out whether the directory of the file is missing.
    CheckingParent(PathBuf),
    /// The directory of the file is to be created.
    CreatingParent(PathBuf),
    /// The name of the document in the lock file is to be found.
    Identifying(PathBuf),
    /// The lock file is to be updated with a record.
    Recording { path: PathBuf, record: ApplyProjectTask },
    /// The data is being made.
    Rendering { path: PathBuf, run: RenderRun },
    /// The data is to be written.
    Writing { path: PathBuf, data: Vec<u8> },
    /// The export is over. It gives the path of the file, if there is one.
    Finished(Result<Option<PathBuf>, ExportError>),
}

/// An answer to what an export waits for.
#[derive(Debug)]
pub enum ExportAnswer {
    /// The path that the pattern stands for, if it stands for one.
    Substituted(Option<PathBuf>),
    /// The current directory.
    Anchored(Result<PathBuf, String>),
    /// Whether the path is a directory.
    Inspected { is_dir: bool },
    /// The extension of the task.
    Extended { extension: String },
    /// Whether the directory of the file is missing.
    ParentChecked { missing: bool },
    /// The directory was created or not.
    ParentCreated(Result<(), String>),
    /// The name of the document in the lock file, if it has one.
    Identified(Option<String>),
    /// The lock file was updated.
    Recorded,
    /// An answer to what the making of data waits for.
    Rendered(RenderAnswer),
    /// The making of data was broken off.
    Interrupted(String),
    /// The file was written or not.
    Written(Result<(), WriteError>),
}

/// Whether an answer is one to what an export waits for.
pub open spec fn answers_state(state: ExportState, answer: ExportAnswer) -> bool {
    match state {
        ExportState::Substituting(_) => answer is Substituted,
        ExportState::Anchoring(_) => answer is Anchored,
        ExportState::Inspecting(_) => answer is Inspected,
        ExportState::Extending(_) => {
            answer matches ExportAnswer::Extended { extension } && is_extension_spec(extension@)
        },
        ExportState::CheckingParent(_) => answer is ParentChecked,
        ExportState::CreatingParent(_) => answer is ParentCreated,
        ExportState::Identifying(_) => answer is Identified,
        ExportState::Recording { .. } => answer is Recorded,
        ExportState::Rendering { run, .. } => match answer {
            ExportAnswer::Rendered(answer) => answers_render(run.state, answer),
            _ => answer is Interrupted,
        },
        ExportState::Writing { .. } => answer is Written,
        ExportState::Finished(_) => false,
    }
}

/// An export that failed.
pub open spec fn failed(err: ExportError) -> ExportState {
    ExportState::Finished(Err(err))
}

/// A relative path inside the current directory.
pub open spec fn anchored_path(directory: PathBuf, path: PathBuf) -> PathBuf {
    cleaned_path(joined_path(directory, path))
}

/// An absolute path is looked at, a relative one ends the export.
pub open spec fn inspect_spec(job: ExportJob, path: PathBuf) -> ExportState {
    if is_absolute_path(path) {
        ExportState::Inspecting(path)
    } else {
        failed(ExportError::RelativeOutput { task: job.shown, path })
    }
}

/// Once the data is there, it is to be written. Where there is none, the export has failed.
pub open spec fn settled(path: PathBuf, run: RenderRun) -> ExportState {
    match run.state {
        RenderState::Finished(Ok(data)) => ExportState::Writing { path, data },
        RenderState::Finished(Err(err)) => failed(err),
        _ => ExportState::Rendering { path, run },
    }
}

/// The data of the task is made of the document, if there is one.
pub open spec fn begins_rendering(job: ExportJob, path: PathBuf, next: ExportState) -> bool {
    match job.document {
        Some(document) => exists|run: RenderRun|
            {
                &&& #[trigger] is_begun(job.task_spec(), document, run)
                &&& run.is_consistent()
                &&& next == settled(path, run)
            },
        None => next == failed(ExportError::CompilationErrors),
    }
}

/// The making of data goes on with an answer.
pub open spec fn goes_on_rendering(
    path: PathBuf,
    run: RenderRun,
    answer: RenderAnswer,
    next: ExportState,
) -> bool {
    exists|next_run: RenderRun| #[trigger]
        is_next_run(run, answer, next_run) && next == settled(path, next_run)
}

/// The lock file is updated if it is to be kept, before the data is made.
pub open spec fn follows_parent(job: ExportJob, path: PathBuf, next: ExportState) -> bool {
    if job.lock {
        next == ExportState::Identifying(path)
    } else {
        begins_rendering(job, path, next)
    }
}

/// The record of a task that is applied to a document.
pub open spec fn record_spec(job: ExportJob, id: String) -> ApplyProjectTask {
    ApplyProjectTask { id, document: id, task: job.task }
}

/// How an export goes on after an answer.
pub open spec fn advances(
    job: ExportJob,
    state: ExportState,
    answer: ExportAnswer,
    next: ExportState,
) -> bool {
    match (state, answer) {
        (ExportState::Substituting(_), ExportAnswer::Substituted(None)) => {
            next == ExportState::Finished(Ok(None))
        },
        (ExportState::Substituting(_), ExportAnswer::Substituted(Some(path))) => {
            next == if is_absolute_path(path) {
                ExportState::Inspecting(path)
            } else {
                ExportState::Anchoring(path)
            }
        },
        (ExportState::Anchoring(path), ExportAnswer::Anchored(Ok(directory))) => {
            next == inspect_spec(job, anchored_path(directory, path))
        },
        (ExportState::Anchoring(_), ExportAnswer::Anchored(Err(err))) => {
            next == failed(ExportError::CurrentDirectory(err))
        },
        (ExportState::Inspecting(path), ExportAnswer::Inspected { is_dir }) => {
            next == if is_dir {
                failed(ExportError::DirectoryOutput { task: job.shown, path })
            } else {
                ExportState::Extending(path)
            }
        },
        (ExportState::Extending(path), ExportAnswer::Extended { extension }) => {
            next == ExportState::CheckingParent(extended_path(path, extension@))
        },
        (ExportState::CheckingParent(path), ExportAnswer::ParentChecked { missing }) => {
            if missing {
                next == ExportState::CreatingParent(path)
            } else {
                follows_parent(job, path, next)
            }
        },
        (ExportState::CreatingParent(path), ExportAnswer::ParentCreated(Ok(_))) => {
            follows_parent(job, path, next)
        },
        (ExportState::CreatingParent(_), ExportAnswer::ParentCreated(Err(err))) => {
            next == failed(ExportError::CreateDirectory(err))
        },
        (ExportState::Identifying(path), ExportAnswer::Identified(Some(id))) => {
            next == (ExportState::Recording { path, record: record_spec(job, id) })
        },
        (ExportState::Identifying(path), ExportAnswer::Identified(None)) => {
            begins_rendering(job, path, next)
        },
        (ExportState::Recording { path, .. }, ExportAnswer::Recorded) => {
            begins_rendering(job, path, next)
        },
        (ExportState::Rendering { path, run }, ExportAnswer::Rendered(answer)) => {
            goes_on_rendering(path, run, answer, next)
        },
        (ExportState::Rendering { .. }, ExportAnswer::Interrupted(err)) => {
            next == failed(ExportError::Interrupted(err))
        },
        (ExportState::Writing { path, .. }, ExportAnswer::Written(Ok(_))) => {
            next == ExportState::Finished(Ok(Some(path)))
        },
        (ExportState::Writing { .. }, ExportAnswer::Written(Err(WriteError::Interrupted(err)))) => {
            next == failed(ExportError::Export(err))
        },
        (ExportState::Writing { .. }, ExportAnswer::Written(Err(WriteError::Failed(err)))) => {
            next == failed(ExportError::Write(err))
        },
        _ => next == state,
    }
}

/// Whether the path of a state is absolute, once it has to be, and the data that is being made is
/// made of a document of the kind that is needed by now.
pub open spec fn is_anchored(state: ExportState) -> bool {
    match state {
        ExportState::Substituting(_) | ExportState::Anchoring(_) => true,
        ExportState::Inspecting(path) => is_absolute_path(path),
        ExportState::Extending(path) => is_absolute_path(path),
        ExportState::CheckingParent(path) => is_absolute_path(path),
        ExportState::CreatingParent(path) => is_absolute_path(path),
        ExportState::Identifying(path) => is_absolute_path(path),
        ExportState::Recording { path, .. } => is_absolute_path(path),
        ExportState::Rendering { path, run } => is_absolute_path(path) && run.is_consistent(),
        ExportState::Writing { path, .. } => is_absolute_path(path),
        ExportState::Finished(outcome) => {
            outcome matches Ok(Some(path)) ==> is_absolute_path(path)
        },
    }
}

/// An export under way.
#[derive(Debug)]
pub struct ExportRun {
    pub job: ExportJob,
    pub state: ExportState,
}

impl ExportTask {
    /// Begins the export of a document.
    ///
    /// `shown` is the task in the form for messages. The task must be an export.
    pub fn do_export(
        task: Arc<ProjectTask>,
        shown: String,
        doc: Option<TypstDocument>,
        lock: bool,
    ) -> (run: ExportRun)
        requires
            task.export() is Some,
        ensures
            run.job == (ExportJob { task, shown, lock, document: doc }),
            run.state == ExportState::Substituting(task.export().unwrap().output),
            is_anchored(run.state),
    {
        let output = match task.as_export() {
            Some(export) => match &export.output {
                Some(output) => Some(output.clone()),
                None => None,
            },
            None => None,
        };
        ExportRun {
            job: ExportJob { task, shown, lock, document: doc },
            state: ExportState::Substituting(output),
        }
    }
}

/// Goes on to write the data once it is there.
fn settle(path: PathBuf, run: RenderRun) -> (state: ExportState)
    ensures
        state == settled(path, run),
{
    match run.state {
        RenderState::Finished(Ok(data)) => ExportState::Writing { path, data },
        RenderState::Finished(Err(err)) => ExportState::Finished(Err(err)),
        _ => ExportState::Rendering { path, run },
    }
}

impl ExportRun {
    /// Takes the answer to what the export waits for.
    ///
    /// From where the path has to be absolute on, it is, up to the path that the export gives.
    pub fn advance(&mut self, answer: ExportAnswer)
        requires
            is_anchored(old(self).state),
            answers_state(old(self).state, answer),
        ensures
            final(self).job == old(self).job,
            advances(old(self).job, old(self).state, answer, final(self).state),
            is_anchored(final(self).state),
    {
        let mut state = ExportState::Substituting(None);
        std::mem::swap(&mut self.state, &mut state);
        self.state = match (state, answer) {
            (ExportState::Substituting(_), ExportAnswer::Substituted(None)) => {
                ExportState::Finished(Ok(None))
            },
            (ExportState::Substituting(_), ExportAnswer::Substituted(Some(path))) => {
                if is_relative(&path) {
                    ExportState::Anchoring(path)
                } else {
                    ExportState::Inspecting(path)
                }
            },
            (ExportState::Anchoring(path), ExportAnswer::Anchored(Ok(directory))) => {
                let path = clean(&join(&directory, &path));
                if is_relative(&path) {
                    let task = self.job.shown.clone();
                    ExportState::Finished(Err(ExportError::RelativeOutput { task, path }))
                } else {
                    ExportState::Inspecting(path)
                }
            },
            (ExportState::Anchoring(_), ExportAnswer::Anchored(Err(err))) => {
                ExportState::Finished(Err(ExportError::CurrentDirectory(err)))
            },
            (ExportState::Inspecting(path), ExportAnswer::Inspected { is_dir }) => {
                if is_dir {
                    let task = self.job.shown.clone();
                    ExportState::Finished(Err(ExportError::DirectoryOutput { task, path }))
                } else {
                    ExportState::Extending(path)
                }
            },
            (ExportState::Extending(path), ExportAnswer::Extended { extension }) => {
                ExportState::CheckingParent(extend(&path, extension.as_str()))
            },
            (ExportState::CheckingParent(path), ExportAnswer::ParentChecked { missing }) => {
                if missing {
                    ExportState::CreatingParent(path)
                } else {
                    self.after_parent(path)
                }
            },
            (ExportState::CreatingParent(path), ExportAnswer::ParentCreated(Ok(_))) => {
                self.after_parent(path)
            },
            (ExportState::CreatingParent(_), ExportAnswer::ParentCreated(Err(err))) => {
                ExportState::Finished(Err(ExportError::CreateDirectory(err)))
            },
            (ExportState::Identifying(path), ExportAnswer::Identified(Some(id))) => {
                let task = share(&self.job.task);
                let record = ApplyProjectTask { id: id.clone(), document: id, task };
                ExportState::Recording { path, record }
            },
            (ExportState::Identifying(path), ExportAnswer::Identified(None)) => {
                self.after_lock(path)
            },
            (ExportState::Recording { path, .. }, ExportAnswer::Recorded) => self.after_lock(path),
            (ExportState::Rendering { path, run }, ExportAnswer::Rendered(answer)) => {
                let mut run = run;
                run.advance(answer);
                settle(path, run)
            },
            (ExportState::Rendering { .. }, ExportAnswer::Interrupted(err)) => {
                ExportState::Finished(Err(ExportError::Interrupted(err)))
            },
            (ExportState::Writing { path, .. }, ExportAnswer::Written(Ok(_))) => {
                ExportState::Finished(Ok(Some(path)))
            },
            (ExportState::Writing { .. }, ExportAnswer::Written(Err(WriteError::Interrupted(
                err,
            )))) => ExportState::Finished(Err(ExportError::Export(err))),
            (ExportState::Writing { .. }, ExportAnswer::Written(Err(WriteError::Failed(err)))) => {
                ExportState::Finished(Err(ExportError::Write(err)))
            },
            (state, _) => state,
        };
    }

    fn after_parent(&self, path: PathBuf) -> (state: ExportState)
        requires
            is_absolute_path(path),
        ensures
            follows_parent(self.job, path, state),
            is_anchored(state),
    {
        if self.job.lock {
            ExportState::Identifying(path)
        } else {
            self.after_lock(path)
        }
    }

    fn after_lock(&self, path: PathBuf) -> (state: ExportState)
        requires
            is_absolute_path(path),
        ensures
            begins_rendering(self.job, path, state),
            is_anchored(state),
    {
        match &self.job.document {
            Some(document) => settle(path, RenderRun::begin(&self.job.task, document.share())),
            None => ExportState::Finished(Err(ExportError::CompilationErrors)),
        }
    }
}

/// All that an export can come to ask for, with the answers.
pub struct ExportAnswers {
    pub substituted: Option<PathBuf>,
    pub directory: Result<PathBuf, String>,
    pub is_dir: bool,
    pub extension: String,
    pub parent_missing: bool,
    pub created: Result<(), String>,
    pub id: Option<String>,
    pub render: RenderAnswers,
    /// When so many answers are left at most, the making of data is broken off, for this reason.
    pub interruption: Option<(nat, String)>,
    pub written: Result<(), WriteError>,
}

impl ExportAnswers {
    /// The answer to what an export waits for.
    pub open spec fn answer(self, state: ExportState) -> ExportAnswer {
        match state {
            ExportState::Substituting(_) => ExportAnswer::Substituted(self.substituted),
            ExportState::Anchoring(_) => ExportAnswer::Anchored(self.directory),
            ExportState::Inspecting(_) => ExportAnswer::Inspected { is_dir: self.is_dir },
            ExportState::Extending(_) => ExportAnswer::Extended { extension: self.extension },
            ExportState::CheckingParent(_) => {
                ExportAnswer::ParentChecked { missing: self.parent_missing }
            },
            ExportState::CreatingParent(_) => ExportAnswer::ParentCreated(self.created),
            ExportState::Identifying(_) => ExportAnswer::Identified(self.id),
            ExportState::Recording { .. } => ExportAnswer::Recorded,
            ExportState::Rendering { run, .. } => match self.interruption {
                Some((left, err)) if left == answers_left(run.state) => {
                    ExportAnswer::Interrupted(err)
                },
                _ => ExportAnswer::Rendered(self.render.answer(run.state)),
            },
            ExportState::Writing { .. } => ExportAnswer::Written(self.written),
            ExportState::Finished(_) => ExportAnswer::Recorded,
        }
    }

    /// The path that the export looks at: the one that the pattern stands for, inside the current
    /// directory where it is relative.
    pub open spec fn located(self) -> Result<PathBuf, String> {
        let path = self.substituted.unwrap();
        if is_absolute_path(path) {
            Ok(path)
        } else {
            match self.directory {
                Ok(directory) => Ok(anchored_path(directory, path)),
                Err(err) => Err(err),
            }
        }
    }

    /// The path of the file: the one that the export looks at, with the extension of the task.
    pub open spec fn target(self) -> PathBuf {
        extended_path(self.located()->Ok_0, self.extension@)
    }

    /// Whether the export has found an absolute path that is no directory.
    pub open spec fn is_located(self) -> bool {
        &&& self.substituted is Some
        &&& self.located() matches Ok(path)
        &&& is_absolute_path(path)
        &&& !self.is_dir
    }

    /// Whether the file can be placed: its path is found, and its directory is there or could be
    /// created.
    pub open spec fn is_placed(self) -> bool {
        self.is_located() && (self.parent_missing ==> self.created is Ok)
    }

    /// Whether data is what the making of data gives for the task and the document of an export,
    /// or the error where it was broken off.
    pub open spec fn is_rendered(self, job: ExportJob, data: Result<Vec<u8>, ExportError>) -> bool {
        &&& job.document matches Some(document)
        &&& {
            ||| is_render_result(job.task_spec(), document, self.render, data)
            ||| self.interruption matches Some((_, err)) && data == Err::<Vec<u8>, ExportError>(
                ExportError::Interrupted(err),
            )
        }
    }

    /// Whether an export ends so after its data was made or not.
    pub open spec fn is_written(
        self,
        data: Result<Vec<u8>, ExportError>,
        outcome: Result<Option<PathBuf>, ExportError>,
    ) -> bool {
        match data {
            Err(err) => outcome == Err::<Option<PathBuf>, ExportError>(err),
            Ok(_) => outcome == match self.written {
                Err(WriteError::Interrupted(err)) => Err(ExportError::Export(err)),
                Err(WriteError::Failed(err)) => Err(ExportError::Write(err)),
                Ok(_) => Ok(Some(self.target())),
            },
        }
    }

    /// Whether an export ends so: with the path of the file, or with the first error.
    pub open spec fn is_outcome(
        self,
        job: ExportJob,
        outcome: Result<Option<PathBuf>, ExportError>,
    ) -> bool {
        if self.substituted is None {
            outcome == Ok::<Option<PathBuf>, ExportError>(None)
        } else {
            match self.located() {
                Err(err) => outcome == Err::<Option<PathBuf>, ExportError>(
                    ExportError::CurrentDirectory(err),
                ),
                Ok(path) => if !is_absolute_path(path) {
                    outcome == Err::<Option<PathBuf>, ExportError>(
                        ExportError::RelativeOutput { task: job.shown, path },
                    )
                } else if self.is_dir {
                    outcome == Err::<Option<PathBuf>, ExportError>(
                        ExportError::DirectoryOutput { task: job.shown, path },
                    )
                } else if self.parent_missing && self.created is Err {
                    outcome == Err::<Option<PathBuf>, ExportError>(
                        ExportError::CreateDirectory(self.created->Err_0),
                    )
                } else if job.document is None {
                    outcome == Err::<Option<PathBuf>, ExportError>(ExportError::CompilationErrors)
                } else {
                    exists|data: Result<Vec<u8>, ExportError>| #[trigger]
                        self.is_rendered(job, data) && self.is_written(data, outcome)
                },
            }
        }
    }

    /// What holds whenever an export has come so far.
    pub open spec fn holds_at(self, job: ExportJob, state: ExportState) -> bool {
        match state {
            ExportState::Substituting(_) => true,
            ExportState::Anchoring(path) => {
                self.substituted == Some(path) && !is_absolute_path(path)
            },
            ExportState::Inspecting(path) => {
                &&& self.substituted is Some
                &&& self.located() == Ok::<PathBuf, String>(path)
                &&& is_absolute_path(path)
            },
            ExportState::Extending(path) => {
                self.is_located() && self.located() == Ok::<PathBuf, String>(path)
            },
            ExportState::CheckingParent(path) => self.is_located() && path == self.target(),
            ExportState::CreatingParent(path) => {
                self.is_located() && path == self.target() && self.parent_missing
            },
            ExportState::Identifying(path) => {
                self.is_placed() && path == self.target() && job.lock
            },
            ExportState::Recording { path, record } => {
                &&& self.is_placed() && path == self.target() && job.lock
                &&& self.id matches Some(id)
                &&& record == record_spec(job, id)
            },
            ExportState::Rendering { path, run } => {
                &&& self.is_placed() && path == self.target()
                &&& job.document matches Some(document)
                &&& is_reached(job.task_spec(), document, self.render, run)
                &&& !(run.state is Finished)
            },
            ExportState::Writing { path, data } => {
                &&& self.is_placed() && path == self.target()
                &&& self.is_rendered(job, Ok(data))
            },
            ExportState::Finished(outcome) => self.is_outcome(job, outcome),
        }
    }
}

/// How many answers an export can still come to ask for.
pub open spec fn questions_left(state: ExportState) -> nat {
    match state {
        ExportState::Substituting(_) => 12,
        ExportState::Anchoring(_) => 11,
        ExportState::Inspecting(_) => 10,
        ExportState::Extending(_) => 9,
        ExportState::CheckingParent(_) => 8,
        ExportState::CreatingParent(_) => 7,
        ExportState::Identifying(_) => 6,
        ExportState::Recording { .. } => 5,
        ExportState::Rendering { run, .. } => 1 + answers_left(run.state),
        ExportState::Writing { .. } => 1,
        ExportState::Finished(_) => 0,
    }
}

/// What holds of the making of data holds of the export once the data is there.
proof fn lemma_settled(job: ExportJob, answers: ExportAnswers, run: RenderRun)
    requires
        answers.is_placed(),
        job.document matches Some(document) && is_reached(
            job.task_spec(),
            document,
            answers.render,
            run,
        ),
    ensures
        answers.holds_at(job, settled(answers.target(), run)),
        questions_left(settled(answers.target(), run)) <= 1 + answers_left(run.state),
{
    lemma_render_result(job.task_spec(), job.document.unwrap(), answers.render, run);
    match run.state {
        RenderState::Finished(data) => {
            assert(answers.is_rendered(job, data));
            if data is Err {
                assert(answers.is_written(data, Err(data->Err_0)));
            }
        },
        _ => {},
    }
}

/// What holds when the making of data begins, or cannot begin.
proof fn lemma_rendering(job: ExportJob, answers: ExportAnswers, next: ExportState)
    requires
        answers.is_placed(),
        begins_rendering(job, answers.target(), next),
    ensures
        answers.holds_at(job, next),
        questions_left(next) <= 4,
{
    match job.document {
        Some(document) => {
            let run = choose|run: RenderRun|
                {
                    &&& #[trigger] is_begun(job.task_spec(), document, run)
                    &&& run.is_consistent()
                    &&& next == settled(answers.target(), run)
                };
            lemma_render_begin(job.task_spec(), document, answers.render, run);
            lemma_settled(job, answers, run);
        },
        None => {},
    }
}

/// Every answer brings an export nearer to its end, and keeps what holds on the way.
///
/// Nothing is written but the data that the making of data gives for the task and the document of
/// the export, to the path with the extension of the task, in a directory that is there. Nothing is
/// made without a document, no directory is created for a path that cannot be exported to, and
/// nothing is recorded but the task under the name of its document.
pub proof fn lemma_advance(
    job: ExportJob,
    answers: ExportAnswers,
    state: ExportState,
    next: ExportState,
)
    requires
        !(state is Finished),
        answers.holds_at(job, state),
        advances(job, state, answers.answer(state), next),
    ensures
        answers.holds_at(job, next),
        questions_left(next) < questions_left(state),
{
    match state {
        ExportState::CheckingParent(_) => {
            if !answers.parent_missing && !job.lock {
                lemma_rendering(job, answers, next);
            }
        },
        ExportState::CreatingParent(_) => {
            if answers.created is Ok && !job.lock {
                lemma_rendering(job, answers, next);
            }
        },
        ExportState::Identifying(_) => {
            if answers.id is None {
                lemma_rendering(job, answers, next);
            }
        },
        ExportState::Recording { .. } => {
            lemma_rendering(job, answers, next);
        },
        ExportState::Rendering { path, run } => {
            match answers.answer(state) {
                ExportAnswer::Rendered(answer) => {
                    let next_run = choose|next_run: RenderRun| #[trigger]
                        is_next_run(run, answer, next_run) && next == settled(path, next_run);
                    let document = job.document.unwrap();
                    lemma_render_advance(job.task_spec(), document, answers.render, run, next_run);
                    lemma_settled(job, answers, next_run);
                },
                _ => {
                    let err = ExportError::Interrupted(answers.interruption.unwrap().1);
                    assert(answers.is_rendered(job, Err(err)));
                    assert(answers.is_written(Err(err), Err(err)));
                },
            }
        },
        ExportState::Writing { data, .. } => {
            assert(answers.is_rendered(job, Ok(data)));
            assert(answers.is_written(Ok(data), next->Finished_0));
        },
        _ => {},
    }
}

/// Whether an export goes from one of a series of states to the next.
pub open spec fn is_course(
    job: ExportJob,
    answers: ExportAnswers,
    states: Seq<ExportState>,
) -> bool {
    &&& states.len() > 0
    &&& states[0] is Substituting
    &&& forall|k: int|
        0 < k < states.len() ==> is_turn(job, answers, states[k - 1], #[trigger] states[k])
}

/// Whether an export that is not over goes on to a state.
pub open spec fn is_turn(
    job: ExportJob,
    answers: ExportAnswers,
    state: ExportState,
    next: ExportState,
) -> bool {
    !(state is Finished) && advances(job, state, answers.answer(state), next)
}

/// An export comes to its end after at most twelve answers, with the path of the file or with the
/// first error, and keeps what holds on the way.
pub proof fn lemma_course(job: ExportJob, answers: ExportAnswers, states: Seq<ExportState>)
    requires
        is_course(job, answers, states),
    ensures
        answers.holds_at(job, states.last()),
        states.last() matches ExportState::Finished(outcome) ==> answers.is_outcome(job, outcome),
        states.len() + questions_left(states.last()) <= 13,
    decreases states.len(),
{
    if states.len() > 1 {
        let before = states.drop_last();
        assert(is_course(job, answers, before)) by {
            assert forall|k: int| 0 < k < before.len() implies is_turn(
                job,
                answers,
                before[k - 1],
                #[trigger] before[k],
            ) by {
                assert(before[k] == states[k]);
            }
        }
        lemma_course(job, answers, before);
        assert(is_turn(job, answers, before.last(), states[states.len() - 1]));
        lemma_advance(job, answers, before.last(), states.last());
    }
}

/// An export gives a path only if it wrote the data to it, and the path is the located one with
/// the extension of the task. Where nothing fails, it gives that path.
pub proof fn lemma_success(
    job: ExportJob,
    answers: ExportAnswers,
    outcome: Result<Option<PathBuf>, ExportError>,
)
    requires
        answers.is_outcome(job, outcome),
    ensures
        outcome matches Ok(Some(path)) ==> {
            &&& answers.is_placed()
            &&& exists|data: Vec<u8>| #[trigger] answers.is_rendered(job, Ok(data))
            &&& answers.written is Ok
            &&& path == extended_path(answers.located()->Ok_0, answers.extension@)
            &&& is_absolute_path(answers.located()->Ok_0)
        },
        answers.is_placed() && answers.written is Ok && (forall|err: ExportError|
            !(#[trigger] answers.is_rendered(job, Err(err)))) && job.document is Some ==> outcome
            == Ok::<Option<PathBuf>, ExportError>(Some(answers.target())),
        outcome == Ok::<Option<PathBuf>, ExportError>(None) ==> answers.substituted is None,
{
    if answers.is_placed() && job.document is Some {
        let data = choose|data: Result<Vec<u8>, ExportError>| #[trigger]
            answers.is_rendered(job, data) && answers.is_written(data, outcome);
        match data {
            Ok(bytes) => {
                assert(answers.is_rendered(job, Ok(bytes)));
            },
            Err(err) => {
                assert(answers.is_rendered(job, Err(err)));
            },
        }
    }
}

/// Whether an export has not come to the lock file yet.
pub open spec fn is_before_lock(state: ExportState) -> bool {
    match state {
        ExportState::Substituting(_)
        | ExportState::Anchoring(_)
        | ExportState::Inspecting(_)
        | ExportState::Extending(_)
        | ExportState::CheckingParent(_)
        | ExportState::CreatingParent(_) => true,
        _ => false,
    }
}

/// The lock file is dealt with once the file can be placed, whether there is a document or not: the
/// task is recorded under the name of its document, or nothing is where it has no name.
pub proof fn lemma_lock(job: ExportJob, answers: ExportAnswers, states: Seq<ExportState>)
    requires
        is_course(job, answers, states),
        job.lock,
        answers.is_placed(),
        !is_before_lock(states.last()),
    ensures
        exists|k: int|
            #![trigger states[k]]
            {
                &&& 0 < k < states.len()
                &&& states[k] == ExportState::Identifying(answers.target())
                &&& k + 1 < states.len() ==> match answers.id {
                    Some(id) => states[k + 1] == (ExportState::Recording {
                        path: answers.target(),
                        record: record_spec(job, id),
                    }),
                    None => begins_rendering(job, answers.target(), states[k + 1]),
                }
            },
    decreases states.len(),
{
    let before = states.drop_last();
    assert(states.len() > 1);
    assert(is_course(job, answers, before)) by {
        assert forall|k: int| 0 < k < before.len() implies is_turn(
            job,
            answers,
            before[k - 1],
            #[trigger] before[k],
        ) by {
            assert(before[k] == states[k]);
        }
    }
    let last = states.len() - 1;
    assert(is_turn(job, answers, states[last - 1], states[last]));
    lemma_course(job, answers, before);
    if is_before_lock(before.last()) {
        assert(states[last] == ExportState::Identifying(answers.target()));
    } else {
        lemma_lock(job, answers, before);
        let k = choose|k: int|
            #![trigger before[k]]
            {
                &&& 0 < k < before.len()
                &&& before[k] == ExportState::Identifying(answers.target())
                &&& k + 1 < before.len() ==> match answers.id {
                    Some(id) => before[k + 1] == (ExportState::Recording {
                        path: answers.target(),
                        record: record_spec(job, id),
                    }),
                    None => begins_rendering(job, answers.target(), before[k + 1]),
                }
            };
        assert(states[k] == before[k]);
        assert(is_turn(job, answers, states[k], states[k + 1]));
    }
}

/// Without a document there is nothing to make data of. With one, the making of data for the task
/// and that document begins. Where it is over at once, its data is to be written, or its error is
/// that of the export.
pub proof fn lemma_rendering_begins(job: ExportJob, path: PathBuf, next: ExportState)
    requires
        begins_rendering(job, path, next),
    ensures
        job.document is None ==> next == ExportState::Finished(
            Err(ExportError::CompilationErrors),
        ),
        job.document matches Some(document) ==> exists|run: RenderRun|
            {
                &&& #[trigger] is_begun(*job.task, document, run)
                &&& next == match run.state {
                    RenderState::Finished(Ok(data)) => ExportState::Writing { path, data },
                    RenderState::Finished(Err(err)) => ExportState::Finished(Err(err)),
                    _ => ExportState::Rendering { path, run },
                }
            },
{
}

/// The making of data goes on with an answer to what it waits for. Once it is over, its data is to
/// be written to the same path, or its error is that of the export.
pub proof fn lemma_rendering_goes_on(
    job: ExportJob,
    path: PathBuf,
    run: RenderRun,
    answer: RenderAnswer,
    next: ExportState,
)
    requires
        advances(
            job,
            ExportState::Rendering { path, run },
            ExportAnswer::Rendered(answer),
            next,
        ),
    ensures
        exists|next_run: RenderRun|
            {
                &&& #[trigger] is_next_run(run, answer, next_run)
                &&& next == match next_run.state {
                    RenderState::Finished(Ok(data)) => ExportState::Writing { path, data },
                    RenderState::Finished(Err(err)) => ExportState::Finished(Err(err)),
                    _ => ExportState::Rendering { path, run: next_run },
                }
            },
{
}

/// How the path of the file is found. A pattern that stands for no path ends the export well. A
/// relative path is put into the current directory. The path must then be absolute and no
/// directory, and it gets the extension of the task.
pub proof fn lemma_path_turns(
    job: ExportJob,
    state: ExportState,
    path: PathBuf,
    directory: PathBuf,
    extension: String,
    err: String,
    next: ExportState,
)
    ensures
        state is Substituting ==> {
            &&& advances(job, state, ExportAnswer::Substituted(None), next) ==> next
                == ExportState::Finished(Ok(None))
            &&& advances(job, state, ExportAnswer::Substituted(Some(path)), next) ==> next
                == if is_absolute_path(path) {
                ExportState::Inspecting(path)
            } else {
                ExportState::Anchoring(path)
            }
        },
        state == ExportState::Anchoring(path) ==> {
            &&& advances(job, state, ExportAnswer::Anchored(Ok(directory)), next) ==> {
                let anchored = cleaned_path(joined_path(directory, path));
                next == if is_absolute_path(anchored) {
                    ExportState::Inspecting(anchored)
                } else {
                    ExportState::Finished(
                        Err(ExportError::RelativeOutput { task: job.shown, path: anchored }),
                    )
                }
            }
            &&& advances(job, state, ExportAnswer::Anchored(Err(err)), next) ==> next
                == ExportState::Finished(Err(ExportError::CurrentDirectory(err)))
        },
        state == ExportState::Inspecting(path) ==> {
            &&& advances(job, state, ExportAnswer::Inspected { is_dir: true }, next) ==> next
                == ExportState::Finished(
                Err(ExportError::DirectoryOutput { task: job.shown, path }),
            )
            &&& advances(job, state, ExportAnswer::Inspected { is_dir: false }, next) ==> next
                == ExportState::Extending(path)
        },
        state == ExportState::Extending(path) ==> (advances(
            job,
            state,
            ExportAnswer::Extended { extension },
            next,
        ) ==> next == ExportState::CheckingParent(extended_path(path, extension@))),
{
}

/// How the directory and the lock file are dealt with before the data is made. A missing directory
/// is created, and where that fails nothing follows. Then the lock file is dealt with if it is to
/// be kept, with a document or without one: the task is recorded under the name of its document if
/// it has one.
pub proof fn lemma_place_turns(
    job: ExportJob,
    state: ExportState,
    path: PathBuf,
    id: String,
    err: String,
    next: ExportState,
)
    ensures
        state == ExportState::CheckingParent(path) ==> {
            &&& advances(job, state, ExportAnswer::ParentChecked { missing: true }, next) ==> next
                == ExportState::CreatingParent(path)
            &&& advances(job, state, ExportAnswer::ParentChecked { missing: false }, next) ==> {
                &&& job.lock ==> next == ExportState::Identifying(path)
                &&& !job.lock ==> begins_rendering(job, path, next)
            }
        },
        state == ExportState::CreatingParent(path) ==> {
            &&& advances(job, state, ExportAnswer::ParentCreated(Ok(())), next) ==> {
                &&& job.lock ==> next == ExportState::Identifying(path)
                &&& !job.lock ==> begins_rendering(job, path, next)
            }
            &&& advances(job, state, ExportAnswer::ParentCreated(Err(err)), next) ==> next
                == ExportState::Finished(Err(ExportError::CreateDirectory(err)))
        },
        state == ExportState::Identifying(path) ==> {
            &&& advances(job, state, ExportAnswer::Identified(None), next) ==> begins_rendering(
                job,
                path,
                next,
            )
            &&& advances(job, state, ExportAnswer::Identified(Some(id)), next) ==> next
                == (ExportState::Recording {
                path,
                record: ApplyProjectTask { id, document: id, task: job.task },
            })
        },
        state matches ExportState::Recording { path: target, .. } ==> (advances(
            job,
            state,
            ExportAnswer::Recorded,
            next,
        ) ==> begins_rendering(job, target, next)),
{
}

/// How an export ends. Once the data is written, it gives the path of the file. Where the making of
/// data was broken off, or the file was not written, it gives the reason.
pub proof fn lemma_end_turns(
    job: ExportJob,
    path: PathBuf,
    run: RenderRun,
    data: Vec<u8>,
    err: String,
    next: ExportState,
)
    ensures
        advances(
            job,
            ExportState::Rendering { path, run },
            ExportAnswer::Interrupted(err),
            next,
        ) ==> next == ExportState::Finished(Err(ExportError::Interrupted(err))),
        advances(
            job,
            ExportState::Writing { path, data },
            ExportAnswer::Written(Ok(())),
            next,
        ) ==> next == ExportState::Finished(Ok(Some(path))),
        advances(
            job,
            ExportState::Writing { path, data },
            ExportAnswer::Written(Err(WriteError::Interrupted(err))),
            next,
        ) ==> next == ExportState::Finished(Err(ExportError::Export(err))),
        advances(
            job,
            ExportState::Writing { path, data },
            ExportAnswer::Written(Err(WriteError::Failed(err))),
            next,
        ) ==> next == ExportState::Finished(Err(ExportError::Write(err))),
{
}

/// How an export ends, by what it was told on the way. The path is the one that the pattern stands
/// for, inside the current directory where it is relative. Of all that can go wrong, what comes
/// first is told: the current directory, a path that is relative or a directory, the directory of
/// the file, a missing document, the making of data, and the writing. If nothing does, the export
/// gives the path with the extension of the task.
pub proof fn lemma_outcome(
    job: ExportJob,
    answers: ExportAnswers,
    states: Seq<ExportState>,
    outcome: Result<Option<PathBuf>, ExportError>,
    path: PathBuf,
    located: PathBuf,
)
    requires
        is_course(job, answers, states),
        states.last() == ExportState::Finished(outcome),
        ({
            ||| is_absolute_path(path) && located == path
            ||| !is_absolute_path(path) && (answers.directory matches Ok(directory) && located
                == cleaned_path(joined_path(directory, path)))
            ||| !is_absolute_path(path) && answers.directory is Err
        }),
    ensures
        answers.substituted is None <==> outcome == Ok::<Option<PathBuf>, ExportError>(None),
        answers.substituted == Some(path) ==> {
            if !is_absolute_path(path) && answers.directory is Err {
                outcome == Err::<Option<PathBuf>, ExportError>(
                    ExportError::CurrentDirectory(answers.directory->Err_0),
                )
            } else if !is_absolute_path(located) {
                outcome == Err::<Option<PathBuf>, ExportError>(
                    ExportError::RelativeOutput { task: job.shown, path: located },
                )
            } else if answers.is_dir {
                outcome == Err::<Option<PathBuf>, ExportError>(
                    ExportError::DirectoryOutput { task: job.shown, path: located },
                )
            } else if answers.parent_missing && answers.created is Err {
                outcome == Err::<Option<PathBuf>, ExportError>(
                    ExportError::CreateDirectory(answers.created->Err_0),
                )
            } else if job.document is None {
                outcome == Err::<Option<PathBuf>, ExportError>(ExportError::CompilationErrors)
            } else {
                let document = job.document.unwrap();
                match outcome {
                    Ok(target) => {
                        &&& target == Some(extended_path(located, answers.extension@))
                        &&& answers.written is Ok
                        &&& exists|data: Vec<u8>| #[trigger]
                            is_render_result(*job.task, document, answers.render, Ok(data))
                    },
                    Err(err) => {
                        ||| is_render_result(*job.task, document, answers.render, Err(err))
                        ||| answers.interruption matches Some((_, reason)) && err
                            == ExportError::Interrupted(reason)
                        ||| answers.written matches Err(WriteError::Interrupted(reason)) && err
                            == ExportError::Export(reason)
                        ||| answers.written matches Err(WriteError::Failed(reason)) && err
                            == ExportError::Write(reason)
                    },
                }
            }
        },
{
    lemma_course(job, answers, states);
    lemma_success(job, answers, outcome);
    if answers.substituted == Some(path) && answers.is_placed() && job.document is Some {
        let data = choose|data: Result<Vec<u8>, ExportError>| #[trigger]
            answers.is_rendered(job, data) && answers.is_written(data, outcome);
        let document = job.document.unwrap();
        match data {
            Ok(bytes) => {
                assert(is_render_result(job.task_spec(), document, answers.render, Ok(bytes)));
            },
            Err(err) => {},
        }
    }
}

/// From where an export looks at its path on, the path is absolute, up to the one that it gives.
pub proof fn lemma_absolute(state: ExportState)
    requires
        is_anchored(state),
    ensures
        state matches ExportState::Inspecting(path) ==> is_absolute_path(path),
        state matches ExportState::Extending(path) ==> is_absolute_path(path),
        state matches ExportState::CheckingParent(path) ==> is_absolute_path(path),
        state matches ExportState::CreatingParent(path) ==> is_absolute_path(path),
        state matches ExportState::Identifying(path) ==> is_absolute_path(path),
        state matches ExportState::Recording { path, .. } ==> is_absolute_path(path),
        state matches ExportState::Rendering { path, .. } ==> is_absolute_path(path),
        state matches ExportState::Writing { path, .. } ==> is_absolute_path(path),
        state matches ExportState::Finished(Ok(Some(path))) ==> is_absolute_path(path),
{
}

} // verus!
