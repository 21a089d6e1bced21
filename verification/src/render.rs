//! How a task turns a document into data.

use vstd::prelude::*;

use crate::color::{parse_color, parse_color_spec, Color, ColorErrorView};
use crate::error::ExportError;
use crate::export::DocumentKind;
use crate::task::{ExportPngTask, ProjectTask};

verus! {

/// Where the document of a kind comes from.
#[derive(Debug, Clone, Copy, PartialEq, Eq, Structural)]
pub enum DocumentSource {
    /// The compilation made it.
    Compiled,
    /// It is compiled once more, for the other target.
    ExtraCompile,
}

/// How the data of an export is made.
#[derive(Debug, PartialEq, Eq)]
pub enum RenderPlan {
    /// There is no data.
    Nothing,
    /// PDF is made of pages.
    Pdf(DocumentSource),
    /// Elements are taken from the compiled document.
    Query,
    /// HTML is made of a web page.
    Html(DocumentSource),
    /// A web page with vector graphics is made of pages.
    SvgHtml(DocumentSource),
    /// Plain text is made of the compiled document.
    Text,
    /// Markdown is made of the sources.
    Markdown,
    /// TeX is made of the sources.
    TeX,
    /// SVG is made of pages.
    Svg(DocumentSource),
    /// PNG is made of pages, on a background.
    Png(DocumentSource, Color),
}

/// Where a document of a kind comes from when one of another kind is there.
pub open spec fn document_source_spec(
    wanted: DocumentKind,
    compiled: DocumentKind,
) -> DocumentSource {
    if wanted == compiled {
        DocumentSource::Compiled
    } else {
        DocumentSource::ExtraCompile
    }
}

/// The background of PNG: the color that is asked for, else white.
pub open spec fn fill_spec(fill: Option<String>) -> Result<Color, ColorErrorView> {
    match fill {
        Some(fill) => parse_color_spec(fill@),
        None => Ok(Color::White),
    }
}

/// How the data of an export is made.
pub open spec fn plan_spec(task: ProjectTask, compiled: DocumentKind) -> Option<RenderPlan> {
    let paged = document_source_spec(DocumentKind::Paged, compiled);
    let html = document_source_spec(DocumentKind::Html, compiled);
    match task {
        ProjectTask::Preview(_) => Some(RenderPlan::Nothing),
        ProjectTask::ExportPdf(_) => Some(RenderPlan::Pdf(paged)),
        ProjectTask::Query(_) => Some(RenderPlan::Query),
        ProjectTask::ExportHtml(_) => Some(RenderPlan::Html(html)),
        ProjectTask::ExportSvgHtml(_) => Some(RenderPlan::SvgHtml(paged)),
        ProjectTask::ExportText(_) => Some(RenderPlan::Text),
        ProjectTask::ExportMd(_) => Some(RenderPlan::Markdown),
        ProjectTask::ExportTeX(_) => Some(RenderPlan::TeX),
        ProjectTask::ExportSvg(_) => Some(RenderPlan::Svg(paged)),
        ProjectTask::ExportPng(task) => match fill_spec(task.fill) {
            Ok(fill) if !task.ppi.too_small => Some(RenderPlan::Png(paged, fill)),
            _ => None,
        },
    }
}

/// Whether an error is the one for a task to export PNG that cannot be carried out: a resolution
/// that is too small, or else a background that is no color.
pub open spec fn is_plan_error(task: ProjectTask, err: ExportError) -> bool {
    match task {
        ProjectTask::ExportPng(task) => if task.ppi.too_small {
            err == ExportError::InvalidPpi(task.ppi.text)
        } else {
            &&& err matches ExportError::InvalidFill(err)
            &&& fill_spec(task.fill) == Err::<Color, ColorErrorView>(err@)
        },
        _ => false,
    }
}

/// Decides where a document of a kind comes from when one of another kind is there.
pub fn document_source(wanted: DocumentKind, compiled: DocumentKind) -> (source: DocumentSource)
    ensures
        source == document_source_spec(wanted, compiled),
{
    if wanted == compiled {
        DocumentSource::Compiled
    } else {
        DocumentSource::ExtraCompile
    }
}

/// Finds the background of PNG.
fn png_fill(task: &ExportPngTask) -> (fill: Result<Color, ExportError>)
    ensures
        match fill {
            Ok(fill) => !task.ppi.too_small && fill_spec(task.fill) == Ok::<Color, ColorErrorView>(
                fill,
            ),
            Err(err) => is_plan_error(ProjectTask::ExportPng(*task), err),
        },
{
    if task.ppi.too_small {
        return Err(ExportError::InvalidPpi(task.ppi.text.clone()));
    }
    match &task.fill {
        Some(fill) => match parse_color(fill.clone()) {
            Ok(color) => Ok(color),
            Err(err) => Err(ExportError::InvalidFill(err)),
        },
        None => Ok(Color::White),
    }
}

/// Decides how the data of an export is made.
///
/// Only a task to export PNG can be impossible to carry out.
pub fn plan(task: &ProjectTask, compiled: DocumentKind) -> (plan: Result<RenderPlan, ExportError>)
    ensures
        match plan {
            Ok(plan) => plan_spec(*task, compiled) == Some(plan),
            Err(err) => plan_spec(*task, compiled) is None && is_plan_error(*task, err),
        },
{
    let paged = document_source(DocumentKind::Paged, compiled);
    Ok(
        match task {
            ProjectTask::Preview(_) => RenderPlan::Nothing,
            ProjectTask::ExportPdf(_) => RenderPlan::Pdf(paged),
            ProjectTask::Query(_) => RenderPlan::Query,
            ProjectTask::ExportHtml(_) => RenderPlan::Html(
                document_source(DocumentKind::Html, compiled),
            ),
            ProjectTask::ExportSvgHtml(_) => RenderPlan::SvgHtml(paged),
            ProjectTask::ExportText(_) => RenderPlan::Text,
            ProjectTask::ExportMd(_) => RenderPlan::Markdown,
            ProjectTask::ExportTeX(_) => RenderPlan::TeX,
            ProjectTask::ExportSvg(_) => RenderPlan::Svg(paged),
            ProjectTask::ExportPng(task) => match png_fill(task) {
                Ok(fill) => RenderPlan::Png(paged, fill),
                Err(err) => {
                    return Err(err);
                },
            },
        },
    )
}

/// What becomes of a document that was compiled once more: of several errors the first is told.
pub open spec fn extra_compile_spec<D>(output: Result<D, Vec<String>>) -> Result<D, ExportError> {
    match output {
        Ok(document) => Ok(document),
        Err(errors) => if errors@.len() == 0 {
            Err(ExportError::ExtraCompileInternal)
        } else {
            Err(ExportError::ExtraCompile(errors@[0]))
        },
    }
}

/// Takes a document that was compiled once more, or the messages of the errors.
pub fn extra_compile_for_export<D>(output: Result<D, Vec<String>>) -> (document: Result<
    D,
    ExportError,
>)
    ensures
        document == extra_compile_spec(output),
{
    match output {
        Ok(document) => Ok(document),
        Err(errors) => if errors.len() == 0 {
            Err(ExportError::ExtraCompileInternal)
        } else {
            Err(ExportError::ExtraCompile(errors[0].clone()))
        },
    }
}

/// Every task but one to export PNG can be carried out with any document.
pub proof fn lemma_plan_total(task: ProjectTask, compiled: DocumentKind)
    requires
        !(task is ExportPng),
    ensures
        plan_spec(task, compiled) is Some,
{
}

/// The data of a task is of the kind that the task names. It is made of the compiled document where
/// that is of the kind that the data needs, pages or a web page, and of one that is compiled once
/// more where it is not.
pub proof fn lemma_plan_by_task(task: ProjectTask, compiled: DocumentKind)
    ensures
        task is Preview ==> plan_spec(task, compiled) == Some(RenderPlan::Nothing),
        task is Query ==> plan_spec(task, compiled) == Some(RenderPlan::Query),
        task is ExportText ==> plan_spec(task, compiled) == Some(RenderPlan::Text),
        task is ExportMd ==> plan_spec(task, compiled) == Some(RenderPlan::Markdown),
        task is ExportTeX ==> plan_spec(task, compiled) == Some(RenderPlan::TeX),
        task is ExportPdf ==> plan_spec(task, compiled) == Some(
            RenderPlan::Pdf(
                if compiled is Paged {
                    DocumentSource::Compiled
                } else {
                    DocumentSource::ExtraCompile
                },
            ),
        ),
        task is ExportSvgHtml ==> plan_spec(task, compiled) == Some(
            RenderPlan::SvgHtml(
                if compiled is Paged {
                    DocumentSource::Compiled
                } else {
                    DocumentSource::ExtraCompile
                },
            ),
        ),
        task is ExportSvg ==> plan_spec(task, compiled) == Some(
            RenderPlan::Svg(
                if compiled is Paged {
                    DocumentSource::Compiled
                } else {
                    DocumentSource::ExtraCompile
                },
            ),
        ),
        task is ExportHtml ==> plan_spec(task, compiled) == Some(
            RenderPlan::Html(
                if compiled is Html {
                    DocumentSource::Compiled
                } else {
                    DocumentSource::ExtraCompile
                },
            ),
        ),
{
}

/// PNG is made if the resolution is large enough and the background, where one is asked for, is a
/// color. Where none is asked for, it is white. A resolution that is too small is told first.
pub proof fn lemma_plan_of_png(task: ExportPngTask, compiled: DocumentKind, err: ExportError)
    ensures
        ({
            let source = if compiled is Paged {
                DocumentSource::Compiled
            } else {
                DocumentSource::ExtraCompile
            };
            let png = ProjectTask::ExportPng(task);
            if task.ppi.too_small {
                &&& plan_spec(png, compiled) is None
                &&& is_plan_error(png, err) <==> err == ExportError::InvalidPpi(task.ppi.text)
            } else {
                match task.fill {
                    None => plan_spec(png, compiled) == Some(
                        RenderPlan::Png(source, Color::White),
                    ),
                    Some(fill) => match parse_color_spec(fill@) {
                        Ok(color) => plan_spec(png, compiled) == Some(
                            RenderPlan::Png(source, color),
                        ),
                        Err(reason) => {
                            &&& plan_spec(png, compiled) is None
                            &&& is_plan_error(png, err) <==> (err matches ExportError::InvalidFill(
                                inner,
                            ) && inner@ == reason)
                        },
                    },
                }
            }
        }),
{
}

/// A document that was compiled once more is taken as it is. Of its errors the first is told.
pub proof fn lemma_extra_compile<D>(output: Result<D, Vec<String>>)
    ensures
        output matches Ok(document) ==> extra_compile_spec(output) == Ok::<D, ExportError>(
            document,
        ),
        output matches Err(errors) ==> extra_compile_spec(output) == Err::<D, ExportError>(
            if errors@.len() > 0 {
                ExportError::ExtraCompile(errors@.first())
            } else {
                ExportError::ExtraCompileInternal
            },
        ),
{
}

/// A document is compiled once more exactly if the one that is there is of another kind.
pub proof fn lemma_document_source(wanted: DocumentKind, compiled: DocumentKind)
    ensures
        document_source_spec(wanted, compiled) == DocumentSource::Compiled <==> (wanted is Paged
            <==> compiled is Paged),
        document_source_spec(wanted, compiled) == DocumentSource::ExtraCompile <==> (wanted is Paged
            <==> compiled is Html),
{
}

} // verus!
