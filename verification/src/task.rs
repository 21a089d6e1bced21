//! Tasks of a project and the user's configuration of exports.

use vstd::prelude::*;

verus! {

/// When a task is to run.
#[derive(Debug, Clone, Copy, PartialEq, Eq, Structural)]
pub enum TaskWhen {
    /// Never.
    Never,
    /// When a script asks for it.
    Script,
    /// Whenever the text changes.
    OnType,
    /// Whenever a file is saved.
    OnSave,
    /// Whenever a file is saved, if the document has a title.
    OnDocumentHasTitle,
}

/// What made a compilation start.
#[derive(Debug, Clone, Copy, PartialEq, Eq, Structural)]
pub struct CompileSignal {
    /// The entry file was replaced by another.
    pub by_entry_update: bool,
    /// A file was saved.
    pub by_fs_events: bool,
    /// The text in an editor changed.
    pub by_mem_events: bool,
}

/// What all exports have in common.
#[derive(Debug, Clone, PartialEq, Eq)]
pub struct ProjectExportTask {
    /// When to export.
    pub when: TaskWhen,
    /// The pattern of the path to export to.
    pub output: Option<String>,
    /// How to transform the document first.
    pub transform: Vec<String>,
}

/// A preview.
#[derive(Debug, Clone, PartialEq, Eq)]
pub struct PreviewTask {
    /// When to preview, if that is known.
    pub when: Option<TaskWhen>,
}

/// An export to PDF.
#[derive(Debug, Clone, PartialEq, Eq)]
pub struct ExportPdfTask {
    pub export: ProjectExportTask,
    /// The standards to keep to.
    pub pdf_standards: Vec<String>,
    /// The time of creation to write down, in seconds since the beginning of 1970.
    pub creation_timestamp: Option<i64>,
}

/// An export to PNG.
#[derive(Debug, Clone, PartialEq, Eq)]
pub struct ExportPngTask {
    pub export: ProjectExportTask,
    /// The resolution.
    pub ppi: PixelsPerInch,
    /// The color of the background.
    pub fill: Option<String>,
}

/// A resolution in pixels per inch: the floating-point number as it is written, and how it
/// compares to the least resolution.
#[derive(Debug, Clone, PartialEq, Eq)]
pub struct PixelsPerInch {
    /// The number in decimal notation.
    pub text: String,
    /// Whether the number is at most one millionth.
    pub too_small: bool,
}

/// An export to SVG.
#[derive(Debug, Clone, PartialEq, Eq)]
pub struct ExportSvgTask {
    pub export: ProjectExportTask,
}

/// An export to HTML.
#[derive(Debug, Clone, PartialEq, Eq)]
pub struct ExportHtmlTask {
    pub export: ProjectExportTask,
}

/// An export to Markdown.
#[derive(Debug, Clone, PartialEq, Eq)]
pub struct ExportMarkdownTask {
    /// The file that processes the document.
    pub processor: Option<String>,
    /// Where to put images and other assets.
    pub assets_path: Option<String>,
    pub export: ProjectExportTask,
}

/// An export to TeX.
#[derive(Debug, Clone, PartialEq, Eq)]
pub struct ExportTeXTask {
    /// The file that processes the document.
    pub processor: Option<String>,
    /// Where to put images and other assets.
    pub assets_path: Option<String>,
    pub export: ProjectExportTask,
}

/// An export to plain text.
#[derive(Debug, Clone, PartialEq, Eq)]
pub struct ExportTextTask {
    pub export: ProjectExportTask,
}

/// An export of elements of the document as data.
#[derive(Debug, Clone, PartialEq, Eq)]
pub struct QueryTask {
    pub export: ProjectExportTask,
    /// The format of the data.
    pub format: String,
    /// The extension of the file, where it is not that of the format.
    pub output_extension: Option<String>,
    /// What elements to take.
    pub selector: String,
    /// What field of the elements to take, if not all of them.
    pub field: Option<String>,
    /// Whether there is to be exactly one element.
    pub one: bool,
}

/// A task of a project.
#[derive(Debug, Clone, PartialEq, Eq)]
pub enum ProjectTask {
    Preview(PreviewTask),
    ExportPdf(ExportPdfTask),
    ExportPng(ExportPngTask),
    ExportSvg(ExportSvgTask),
    ExportHtml(ExportHtmlTask),
    /// An export to a web page that shows vector graphics.
    ExportSvgHtml(ExportHtmlTask),
    ExportMd(ExportMarkdownTask),
    ExportTeX(ExportTeXTask),
    ExportText(ExportTextTask),
    Query(QueryTask),
}

impl ProjectTask {
    /// What the task has in common with all exports, if it is one.
    pub open spec fn export(self) -> Option<ProjectExportTask> {
        match self {
            ProjectTask::Preview(_) => None,
            ProjectTask::ExportPdf(task) => Some(task.export),
            ProjectTask::ExportPng(task) => Some(task.export),
            ProjectTask::ExportSvg(task) => Some(task.export),
            ProjectTask::ExportHtml(task) => Some(task.export),
            ProjectTask::ExportSvgHtml(task) => Some(task.export),
            ProjectTask::ExportMd(task) => Some(task.export),
            ProjectTask::ExportTeX(task) => Some(task.export),
            ProjectTask::ExportText(task) => Some(task.export),
            ProjectTask::Query(task) => Some(task.export),
        }
    }

    /// When the task is to run, if that is known.
    pub open spec fn schedule(self) -> Option<TaskWhen> {
        match self {
            ProjectTask::Preview(task) => task.when,
            _ => Some(self.export().unwrap().when),
        }
    }

    /// Gives what the task has in common with all exports, if it is one.
    pub fn as_export(&self) -> (export: Option<&ProjectExportTask>)
        ensures
            match export {
                Some(export) => self.export() == Some(*export),
                None => self.export() is None,
            },
    {
        match self {
            ProjectTask::Preview(_) => None,
            ProjectTask::ExportPdf(task) => Some(&task.export),
            ProjectTask::ExportPng(task) => Some(&task.export),
            ProjectTask::ExportSvg(task) => Some(&task.export),
            ProjectTask::ExportHtml(task) => Some(&task.export),
            ProjectTask::ExportSvgHtml(task) => Some(&task.export),
            ProjectTask::ExportMd(task) => Some(&task.export),
            ProjectTask::ExportTeX(task) => Some(&task.export),
            ProjectTask::ExportText(task) => Some(&task.export),
            ProjectTask::Query(task) => Some(&task.export),
        }
    }

    /// Gives when the task is to run, if that is known.
    pub fn when(&self) -> (when: Option<&TaskWhen>)
        ensures
            match when {
                Some(when) => self.schedule() == Some(*when),
                None => self.schedule() is None,
            },
    {
        match self {
            ProjectTask::Preview(task) => match &task.when {
                Some(when) => Some(when),
                None => None,
            },
            _ => match self.as_export() {
                Some(export) => Some(&export.when),
                None => None,
            },
        }
    }
}

/// What a document is made for.
#[derive(Debug, Clone, Copy, PartialEq, Eq, Structural)]
pub enum ExportTarget {
    /// Pages.
    Paged,
    /// A web page.
    Html,
}

impl Default for ExportTarget {
    /// Documents are made of pages unless something else is asked for.
    fn default() -> (target: Self)
        ensures
            target == ExportTarget::Paged,
    {
        ExportTarget::Paged
    }
}

/// User configuration for export.
#[derive(Debug, Clone, PartialEq, Eq)]
pub struct ExportUserConfig {
    /// The default export target.
    pub export_target: ExportTarget,
    /// The task to run.
    pub task: ProjectTask,
    /// Whether to count words.
    pub count_words: bool,
    /// Whether to run the server in development mode.
    pub development: bool,
}

impl ExportUserConfig {
    /// Whether the configuration is that of a user who has not chosen anything.
    pub open spec fn is_default(self) -> bool {
        &&& self.export_target == ExportTarget::Paged
        &&& self.task matches ProjectTask::ExportPdf(task)
        &&& task.export.when == TaskWhen::Never
        &&& task.export.output is None
        &&& task.export.transform@ == Seq::<String>::empty()
        &&& task.pdf_standards@ == Seq::<String>::empty()
        &&& task.creation_timestamp is None
        &&& !self.count_words
        &&& !self.development
    }
}

impl Default for ExportUserConfig {
    /// Exports to PDF, but never does so, and counts no words.
    fn default() -> (config: Self)
        ensures
            config.is_default(),
            config.export_target == ExportTarget::Paged,
            config.task matches ProjectTask::ExportPdf(task) && task.export.when == TaskWhen::Never
                && task.export.output is None && task.export.transform@.len() == 0
                && task.pdf_standards@.len() == 0 && task.creation_timestamp is None,
            !config.count_words,
            !config.development,
    {
        ExportUserConfig {
            export_target: ExportTarget::default(),
            task: ProjectTask::ExportPdf(
                ExportPdfTask {
                    export: ProjectExportTask {
                        when: TaskWhen::Never,
                        output: None,
                        transform: Vec::new(),
                    },
                    pdf_standards: Vec::new(),
                    creation_timestamp: None,
                },
            ),
            count_words: false,
            development: false,
        }
    }
}

/// A task that exports runs when its own export settings say so, whatever it makes. A preview has
/// no such settings, and runs when it says so itself.
pub proof fn lemma_own_settings(task: ProjectTask)
    ensures
        task matches ProjectTask::Preview(preview) ==> {
            &&& task.export() is None
            &&& task.schedule() == preview.when
        },
        task matches ProjectTask::ExportPdf(own) ==> {
            &&& task.export() == Some(own.export)
            &&& task.schedule() == Some(own.export.when)
        },
        task matches ProjectTask::ExportPng(own) ==> {
            &&& task.export() == Some(own.export)
            &&& task.schedule() == Some(own.export.when)
        },
        task matches ProjectTask::ExportSvg(own) ==> {
            &&& task.export() == Some(own.export)
            &&& task.schedule() == Some(own.export.when)
        },
        task matches ProjectTask::ExportHtml(own) ==> {
            &&& task.export() == Some(own.export)
            &&& task.schedule() == Some(own.export.when)
        },
        task matches ProjectTask::ExportSvgHtml(own) ==> {
            &&& task.export() == Some(own.export)
            &&& task.schedule() == Some(own.export.when)
        },
        task matches ProjectTask::ExportMd(own) ==> {
            &&& task.export() == Some(own.export)
            &&& task.schedule() == Some(own.export.when)
        },
        task matches ProjectTask::ExportTeX(own) ==> {
            &&& task.export() == Some(own.export)
            &&& task.schedule() == Some(own.export.when)
        },
        task matches ProjectTask::ExportText(own) ==> {
            &&& task.export() == Some(own.export)
            &&& task.schedule() == Some(own.export.when)
        },
        task matches ProjectTask::Query(own) ==> {
            &&& task.export() == Some(own.export)
            &&& task.schedule() == Some(own.export.when)
        },
{
}

} // verus!
