//! The export task: what a finished compilation sets going.

use vstd::prelude::*;

use crate::task::{
    CompileSignal, ExportUserConfig, PreviewTask, ProjectExportTask, ProjectTask, TaskWhen,
};

verus! {

/// The kinds of documents.
#[derive(Debug, Clone, Copy, PartialEq, Eq, Structural)]
pub enum DocumentKind {
    /// A document of pages.
    Paged,
    /// A web page.
    Html,
}

/// A document that a compilation made.
#[derive(Debug, Clone, Copy, PartialEq, Eq, Structural)]
pub struct CompiledDocument {
    /// Its kind.
    pub kind: DocumentKind,
    /// Whether it has a title.
    pub has_title: bool,
}

/// The result of a compilation.
#[derive(Debug, Clone, PartialEq, Eq)]
pub struct CompiledArtifact {
    /// The project that was compiled.
    pub id: String,
    /// What made the compilation start.
    pub signal: CompileSignal,
    /// The revision of the sources.
    pub revision: usize,
    /// The document, unless there were errors.
    pub doc: Option<CompiledDocument>,
}

/// A report to developers about an export.
#[derive(Debug, Clone, PartialEq, Eq)]
pub struct DevExportEvent {
    /// The project that was compiled.
    pub id: String,
    /// When exports are to run.
    pub when: TaskWhen,
    /// Whether an export is due.
    pub need_export: bool,
    /// What made the compilation start.
    pub signal: CompileSignal,
    /// The pattern of the path to export to.
    pub path: Option<String>,
}

/// A report to developers.
#[derive(Debug, Clone, PartialEq, Eq)]
pub enum DevEvent {
    Export(DevExportEvent),
}

/// What a finished compilation means for exports.
#[derive(Debug, PartialEq, Eq)]
pub enum ExportSignal {
    /// There is no document.
    NoDocument,
    /// No export is due. The report goes out at once.
    Skip(Option<DevEvent>),
    /// An export of this revision is due. The report goes out after it.
    Export {
        revision: usize,
        event: Option<DevEvent>,
    },
}

/// What a finished compilation sets going.
#[derive(Debug, PartialEq, Eq)]
pub struct TaskSignal {
    /// What it means for exports.
    pub export: ExportSignal,
    /// The revision whose words are to be counted.
    pub count_words: Option<usize>,
}

/// Whether an export is due when a compilation made a document.
pub open spec fn need_export_spec(when: TaskWhen, signal: CompileSignal, has_title: bool) -> bool {
    match when {
        TaskWhen::Never => false,
        TaskWhen::Script => signal.by_entry_update,
        TaskWhen::OnType => signal.by_mem_events,
        TaskWhen::OnSave => signal.by_fs_events,
        TaskWhen::OnDocumentHasTitle => signal.by_fs_events && has_title,
    }
}

/// When the configured task is to run. A task that does not say so never does.
pub open spec fn configured_when(config: ExportUserConfig) -> TaskWhen {
    match config.task.schedule() {
        Some(when) => when,
        None => TaskWhen::Never,
    }
}

/// The pattern of the path to export to, if the task is an export that has one.
pub open spec fn configured_path(config: ExportUserConfig) -> Option<String> {
    match config.task.export() {
        Some(export) => export.output,
        None => None,
    }
}

/// What a finished compilation means for exports.
pub open spec fn signal_export_spec(
    artifact: CompiledArtifact,
    config: ExportUserConfig,
) -> ExportSignal {
    match artifact.doc {
        None => ExportSignal::NoDocument,
        Some(doc) => {
            let when = configured_when(config);
            let need_export = need_export_spec(when, artifact.signal, doc.has_title);
            let event = if config.development {
                Some(
                    DevEvent::Export(
                        DevExportEvent {
                            id: artifact.id,
                            when,
                            need_export,
                            signal: artifact.signal,
                            path: configured_path(config),
                        },
                    ),
                )
            } else {
                None
            };
            if need_export {
                ExportSignal::Export { revision: artifact.revision, event }
            } else {
                ExportSignal::Skip(event)
            }
        },
    }
}

/// The revision whose words are to be counted, if the user wants that and an editor listens.
pub open spec fn signal_count_word_spec(
    artifact: CompiledArtifact,
    config: ExportUserConfig,
    editor_attached: bool,
) -> Option<usize> {
    if config.count_words && editor_attached {
        Some(artifact.revision)
    } else {
        None
    }
}

/// Decides whether an export is due when a compilation made a document.
pub fn need_export(when: TaskWhen, signal: CompileSignal, has_title: bool) -> (due: bool)
    ensures
        due == need_export_spec(when, signal, has_title),
{
    match when {
        TaskWhen::Never => false,
        TaskWhen::Script => signal.by_entry_update,
        TaskWhen::OnType => signal.by_mem_events,
        TaskWhen::OnSave => signal.by_fs_events,
        TaskWhen::OnDocumentHasTitle => signal.by_fs_events && has_title,
    }
}

/// The exports of a project, and the counting of its words.
#[derive(Debug, PartialEq, Eq)]
pub struct ExportTask {
    /// Whether there is an editor to tell the number of words to.
    pub editor_attached: bool,
    /// What the user wants.
    pub config: ExportUserConfig,
}

impl ExportTask {
    pub fn new(editor_attached: bool, export_config: ExportUserConfig) -> (task: Self)
        ensures
            task.editor_attached == editor_attached,
            task.config == export_config,
    {
        ExportTask { editor_attached, config: export_config }
    }

    /// Replaces what the user wants, from the next compilation on.
    pub fn change_config(&mut self, config: ExportUserConfig)
        ensures
            final(self).config == config,
            final(self).editor_attached == old(self).editor_attached,
    {
        self.config = config;
    }

    /// Decides what a finished compilation sets going.
    pub fn signal(&self, snap: &CompiledArtifact) -> (signal: TaskSignal)
        ensures
            signal.export == signal_export_spec(*snap, self.config),
            signal.count_words == signal_count_word_spec(
                *snap,
                self.config,
                self.editor_attached,
            ),
    {
        TaskSignal { export: self.signal_export(snap), count_words: self.signal_count_word(snap) }
    }

    /// Decides what a finished compilation means for exports.
    pub fn signal_export(&self, artifact: &CompiledArtifact) -> (signal: ExportSignal)
        ensures
            signal == signal_export_spec(*artifact, self.config),
    {
        let doc = match artifact.doc {
            Some(doc) => doc,
            None => {
                return ExportSignal::NoDocument;
            },
        };
        let when = match self.config.task.when() {
            Some(when) => *when,
            None => TaskWhen::Never,
        };
        let due = need_export(when, artifact.signal, doc.has_title);
        let event = if self.config.development {
            let path = match self.config.task.as_export() {
                Some(export) => match &export.output {
                    Some(output) => Some(output.clone()),
                    None => None,
                },
                None => None,
            };
            Some(
                DevEvent::Export(
                    DevExportEvent {
                        id: artifact.id.clone(),
                        when,
                        need_export: due,
                        signal: artifact.signal,
                        path,
                    },
                ),
            )
        } else {
            None
        };
        if due {
            ExportSignal::Export { revision: artifact.revision, event }
        } else {
            ExportSignal::Skip(event)
        }
    }

    /// Decides whether the words of the document are to be counted.
    pub fn signal_count_word(&self, artifact: &CompiledArtifact) -> (revision: Option<usize>)
        ensures
            revision == signal_count_word_spec(*artifact, self.config, self.editor_attached),
    {
        if !self.config.count_words {
            return None;
        }
        if !self.editor_attached {
            return None;
        }
        Some(artifact.revision)
    }
}

/// A message to the editor.
#[derive(Debug, PartialEq, Eq)]
pub enum EditorRequest<W> {
    /// The number of words in the document of a project.
    WordCount(String, W),
}

/// The message that tells the editor the number of words, if they could be counted.
pub fn word_count_request<W>(id: String, count: Option<W>) -> (request: Option<EditorRequest<W>>)
    ensures
        request == (match count {
            Some(count) => Some(EditorRequest::WordCount(id, count)),
            None => None,
        }),
{
    match count {
        Some(count) => Some(EditorRequest::WordCount(id, count)),
        None => None,
    }
}

/// Keeps the value of what succeeded.
pub fn log_err<T, E>(artifact: Result<T, E>) -> (value: Option<T>)
    ensures
        value == (match artifact {
            Ok(v) => Some(v),
            Err(_) => None,
        }),
{
    match artifact {
        Ok(v) => Some(v),
        Err(_) => None,
    }
}

/// With the configuration of a user who has not chosen anything, no compilation sets anything
/// going.
pub proof fn lemma_default_never(
    config: ExportUserConfig,
    artifact: CompiledArtifact,
    editor_attached: bool,
)
    requires
        config.is_default(),
    ensures
        signal_export_spec(artifact, config) == (if artifact.doc is Some {
            ExportSignal::Skip(None)
        } else {
            ExportSignal::NoDocument
        }),
        signal_count_word_spec(artifact, config, editor_attached) is None,
{
}

/// A document is exported only if a compilation made one, by an event for which the user wants
/// exports, and then in the revision that was compiled.
pub proof fn lemma_export_due(config: ExportUserConfig, artifact: CompiledArtifact)
    ensures
        signal_export_spec(artifact, config) is Export <==> artifact.doc is Some
            && need_export_spec(
            configured_when(config),
            artifact.signal,
            artifact.doc.unwrap().has_title,
        ),
        signal_export_spec(artifact, config) matches ExportSignal::Export { revision, .. }
            ==> revision == artifact.revision,
        signal_export_spec(artifact, config) is Export ==> artifact.signal.by_entry_update
            || artifact.signal.by_fs_events || artifact.signal.by_mem_events,
{
}

/// In development mode, and only there, every document gives one report, whether an export follows
/// or not, and the report tells which.
pub proof fn lemma_dev_event(config: ExportUserConfig, artifact: CompiledArtifact)
    requires
        artifact.doc is Some,
    ensures
        ({
            let event = match signal_export_spec(artifact, config) {
                ExportSignal::Skip(event) => event,
                ExportSignal::Export { event, .. } => event,
                ExportSignal::NoDocument => None,
            };
            &&& event is Some <==> config.development
            &&& event matches Some(DevEvent::Export(event)) ==> {
                &&& event.need_export <==> signal_export_spec(artifact, config) is Export
                &&& event.id == artifact.id
                &&& event.signal == artifact.signal
            }
        }),
{
}

/// An export is due exactly when a file was saved and the user wants it then, or then if there is a
/// title, or when the text changed and the user wants it then, or when the entry changed and the
/// user wants it for scripts.
pub proof fn lemma_need_export(when: TaskWhen, signal: CompileSignal, has_title: bool)
    ensures
        need_export_spec(when, signal, has_title) <==> {
            ||| when == TaskWhen::Script && signal.by_entry_update
            ||| when == TaskWhen::OnType && signal.by_mem_events
            ||| when == TaskWhen::OnSave && signal.by_fs_events
            ||| when == TaskWhen::OnDocumentHasTitle && signal.by_fs_events && has_title
        },
{
}

/// Whatever a task exports to, a compilation sets the export going exactly if it made a document
/// and the export settings of the task itself ask for it. The export is that of the compiled
/// revision. In development mode the report tells the settings and whether the export follows.
pub proof fn lemma_signal_by_settings(
    config: ExportUserConfig,
    artifact: CompiledArtifact,
    settings: ProjectExportTask,
)
    requires
        ({
            ||| config.task matches ProjectTask::ExportPdf(task) && task.export == settings
            ||| config.task matches ProjectTask::ExportPng(task) && task.export == settings
            ||| config.task matches ProjectTask::ExportSvg(task) && task.export == settings
            ||| config.task matches ProjectTask::ExportHtml(task) && task.export == settings
            ||| config.task matches ProjectTask::ExportSvgHtml(task) && task.export == settings
            ||| config.task matches ProjectTask::ExportMd(task) && task.export == settings
            ||| config.task matches ProjectTask::ExportTeX(task) && task.export == settings
            ||| config.task matches ProjectTask::ExportText(task) && task.export == settings
            ||| config.task matches ProjectTask::Query(task) && task.export == settings
        }),
    ensures
        ({
            let signal = artifact.signal;
            let due = artifact.doc matches Some(doc) && {
                ||| settings.when == TaskWhen::Script && signal.by_entry_update
                ||| settings.when == TaskWhen::OnType && signal.by_mem_events
                ||| settings.when == TaskWhen::OnSave && signal.by_fs_events
                ||| settings.when == TaskWhen::OnDocumentHasTitle && signal.by_fs_events
                    && doc.has_title
            };
            let report = DevExportEvent {
                id: artifact.id,
                when: settings.when,
                need_export: due,
                signal,
                path: settings.output,
            };
            let event = if config.development {
                Some(DevEvent::Export(report))
            } else {
                None
            };
            signal_export_spec(artifact, config) == if artifact.doc is None {
                ExportSignal::NoDocument
            } else if due {
                ExportSignal::Export { revision: artifact.revision, event }
            } else {
                ExportSignal::Skip(event)
            }
        }),
{
}

/// A preview is set going by the compilations for which it is itself meant, and by none if it does
/// not tell. The report on it has no path.
pub proof fn lemma_signal_of_preview(
    config: ExportUserConfig,
    artifact: CompiledArtifact,
    preview: PreviewTask,
)
    requires
        config.task == ProjectTask::Preview(preview),
    ensures
        ({
            let signal = artifact.signal;
            let due = artifact.doc matches Some(doc) && {
                ||| preview.when == Some(TaskWhen::Script) && signal.by_entry_update
                ||| preview.when == Some(TaskWhen::OnType) && signal.by_mem_events
                ||| preview.when == Some(TaskWhen::OnSave) && signal.by_fs_events
                ||| preview.when == Some(TaskWhen::OnDocumentHasTitle) && signal.by_fs_events
                    && doc.has_title
            };
            let report = DevExportEvent {
                id: artifact.id,
                when: match preview.when {
                    Some(when) => when,
                    None => TaskWhen::Never,
                },
                need_export: due,
                signal,
                path: None,
            };
            let event = if config.development {
                Some(DevEvent::Export(report))
            } else {
                None
            };
            signal_export_spec(artifact, config) == if artifact.doc is None {
                ExportSignal::NoDocument
            } else if due {
                ExportSignal::Export { revision: artifact.revision, event }
            } else {
                ExportSignal::Skip(event)
            }
        }),
{
}

/// Words are counted exactly if the user wants it and an editor listens, with a document or without
/// one, and then those of the compiled revision.
pub proof fn lemma_count_words(
    artifact: CompiledArtifact,
    config: ExportUserConfig,
    editor_attached: bool,
)
    ensures
        signal_count_word_spec(artifact, config, editor_attached) is Some <==> config.count_words
            && editor_attached,
        signal_count_word_spec(artifact, config, editor_attached) matches Some(revision)
            ==> revision == artifact.revision,
{
}

} // verus!
