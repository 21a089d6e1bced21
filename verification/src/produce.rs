//! The course of making the data of an export, from the plan to the bytes.

use vstd::pervasive::unreached;
use vstd::prelude::*;
use vstd::string::*;
use vstd::utf8::encode_utf8;

use crate::color::{parse_color_spec, Color, ColorErrorView};
use crate::document::{
    check_selection, document_pages, export_html, export_svg, first_page, html_data, is_html_data,
    is_html_export, is_html_of, is_merged_svg_of, is_plain_selection, is_svg_export, is_svg_of,
    is_text_data, lemma_html_export, lemma_svg_export, TypstDocument,
};
use crate::drawing::{check_html, is_plain_html};
use crate::error::ExportError;
use crate::export::DocumentKind;
use crate::query::{
    element_values, field_value, field_view, lemma_present_filter, map_elements, select,
    select_spec, whole_value, QueryOutputView,
};
use crate::render::{
    extra_compile_for_export, extra_compile_spec, is_plan_error, plan, plan_spec, DocumentSource,
    RenderPlan,
};
use crate::serialize::{serialize, serialize_spec};
use crate::task::{ExportPngTask, ProjectTask};

verus! {

/// What is made of a document in one go.
#[derive(Debug, PartialEq, Eq)]
pub enum Production {
    Pdf,
    /// HTML of a web page whose drawings are not plain.
    Html,
    SvgHtml,
    Text,
    Markdown,
    TeX,
    /// The first page as SVG, where it is not plain.
    SvgFirst,
    /// All pages as SVG, with gaps between them, where they are not plain.
    SvgMerged(typst::layout::Abs),
    /// The first page as PNG.
    PngFirst,
    /// All pages as PNG, with gaps between them, on a background.
    PngMerged(typst::layout::Abs, Color),
}

/// What a query is to give.
#[derive(Debug, PartialEq, Eq)]
pub struct RenderJob {
    /// The format of the data.
    pub format: String,
    /// The field of the elements to take, if not all of them.
    pub field: Option<String>,
    /// Whether there is to be exactly one element.
    pub one: bool,
}

/// How far the making of data has come: what it waits for, or how it ended.
#[derive(Debug, PartialEq, Eq)]
pub enum RenderState {
    /// It is to be found out which pages are asked for.
    Selecting(RenderPlan),
    /// The document is to be compiled once more, for the other target.
    Compiling(RenderPlan, Option<(bool, typst::layout::Abs)>),
    /// Something is to be made of the document.
    Producing(Production),
    /// Elements are to be taken from the document.
    Retrieving,
    /// The data is there, or there will be none.
    Finished(Result<Vec<u8>, ExportError>),
}

/// An answer to what the making of data waits for.
#[derive(Debug)]
pub enum RenderAnswer {
    /// Whether only the first page is asked for, and the gap between pages.
    Selected(Result<(bool, typst::layout::Abs), String>),
    /// The document, or the errors.
    Compiled(Result<TypstDocument, Vec<String>>),
    /// The bytes, or why there are none.
    Produced(Result<Vec<u8>, String>),
    /// The elements, or why there are none.
    Retrieved(Result<Vec<typst::foundations::Content>, String>),
}

/// The kind of document that a plan needs, if any.
pub open spec fn wanted_spec(plan: RenderPlan) -> Option<DocumentKind> {
    match plan {
        RenderPlan::Html(_) => Some(DocumentKind::Html),
        RenderPlan::Pdf(_) | RenderPlan::SvgHtml(_) | RenderPlan::Svg(_) | RenderPlan::Png(_, _)
            => Some(DocumentKind::Paged),
        _ => None,
    }
}

/// Where the document of a plan comes from, if it needs one of a kind.
pub open spec fn source_spec(plan: RenderPlan) -> DocumentSource {
    match plan {
        RenderPlan::Pdf(source) => source,
        RenderPlan::Html(source) => source,
        RenderPlan::SvgHtml(source) => source,
        RenderPlan::Svg(source) => source,
        RenderPlan::Png(source, _) => source,
        _ => DocumentSource::Compiled,
    }
}

/// Whether a plan makes pictures of pages.
pub open spec fn is_picture(plan: RenderPlan) -> bool {
    plan is Svg || plan is Png
}

/// Whether a plan makes its data of a document as a whole.
pub open spec fn is_making(plan: RenderPlan) -> bool {
    !(plan is Nothing) && !(plan is Query)
}

/// Whether a document is of the kind that a plan needs.
pub open spec fn suits(document: TypstDocument, plan: RenderPlan) -> bool {
    wanted_spec(plan) matches Some(kind) ==> document.kind_spec() == kind
}

/// Whether something is made of pages.
pub open spec fn wants_pages(production: Production) -> bool {
    match production {
        Production::Html | Production::Text | Production::Markdown | Production::TeX => false,
        _ => true,
    }
}

/// Whether making something can fail.
pub open spec fn can_fail(production: Production) -> bool {
    !(production is SvgHtml) && !(production is SvgFirst) && !(production is SvgMerged)
}

/// The error when something other than HTML could not be made.
pub open spec fn production_error_spec(production: Production, err: String) -> ExportError {
    match production {
        Production::Pdf => ExportError::Pdf(err),
        Production::Text => ExportError::Text(err),
        Production::Markdown => ExportError::Markdown(err),
        Production::TeX => ExportError::Latex(err),
        _ => ExportError::EncodePng(err),
    }
}

/// Whether data is the error when something could not be made.
pub open spec fn is_failed_production(
    production: Production,
    err: String,
    data: Result<Vec<u8>, ExportError>,
) -> bool {
    if production is Html {
        is_html_data(Err(err@), data)
    } else {
        data == Err::<Vec<u8>, ExportError>(production_error_spec(production, err))
    }
}

/// The production of a plan that makes neither pictures nor HTML.
pub open spec fn production_spec(plan: RenderPlan) -> Production {
    match plan {
        RenderPlan::Pdf(_) => Production::Pdf,
        RenderPlan::SvgHtml(_) => Production::SvgHtml,
        RenderPlan::Markdown => Production::Markdown,
        RenderPlan::TeX => Production::TeX,
        _ => Production::Text,
    }
}

/// How it goes on with a document: HTML and SVG are made at once where the drawings are plain, and
/// the first page has to be there where it alone is asked for.
pub open spec fn follows_document(
    plan: RenderPlan,
    selection: Option<(bool, typst::layout::Abs)>,
    document: TypstDocument,
    next: RenderState,
) -> bool {
    match plan {
        RenderPlan::Html(_) => {
            &&& document matches TypstDocument::Html(html)
            &&& if is_plain_html(*html) {
                next matches RenderState::Finished(data) && is_html_export(*html, data)
            } else {
                next == RenderState::Producing(Production::Html)
            }
        },
        RenderPlan::Svg(_) => {
            &&& document matches TypstDocument::Paged(paged)
            &&& selection matches Some(pages)
            &&& if is_plain_selection(*paged, pages.0) {
                next matches RenderState::Finished(data) && is_svg_export(*paged, pages, data)
            } else if pages.0 {
                next == RenderState::Producing(Production::SvgFirst)
            } else {
                next == RenderState::Producing(Production::SvgMerged(pages.1))
            }
        },
        RenderPlan::Png(_, fill) => {
            &&& document matches TypstDocument::Paged(paged)
            &&& selection matches Some((is_first, gap))
            &&& next == if !is_first {
                RenderState::Producing(Production::PngMerged(gap, fill))
            } else if document_pages(*paged).len() == 0 {
                RenderState::Finished(Err(ExportError::NoFirstPage))
            } else {
                RenderState::Producing(Production::PngFirst)
            }
        },
        _ => next == RenderState::Producing(production_spec(plan)),
    }
}

/// How it goes on once it is known which pages are asked for.
pub open spec fn follows_selection(
    plan: RenderPlan,
    selection: Option<(bool, typst::layout::Abs)>,
    document: TypstDocument,
    next: RenderState,
) -> bool {
    if source_spec(plan) is ExtraCompile {
        next == RenderState::Compiling(plan, selection)
    } else {
        follows_document(plan, selection, document, next)
    }
}

/// How the making of data begins.
pub open spec fn begins(plan: RenderPlan, document: TypstDocument, first: RenderState) -> bool {
    match plan {
        RenderPlan::Nothing => {
            first matches RenderState::Finished(Ok(data)) && data@ == Seq::<u8>::empty()
        },
        RenderPlan::Query => first == RenderState::Retrieving,
        RenderPlan::Svg(_) | RenderPlan::Png(_, _) => first == RenderState::Selecting(plan),
        _ => follows_selection(plan, None, document, first),
    }
}

/// Whether a job is that of a task, where the task is a query.
pub open spec fn is_job_of(job: RenderJob, task: ProjectTask) -> bool {
    task matches ProjectTask::Query(query) ==> {
        &&& job.format == query.format
        &&& job.field == query.field
        &&& job.one == query.one
    }
}

/// Whether the making of data for a task and a document has just begun: as the plan says, or with
/// the error of a task that cannot be carried out.
pub open spec fn is_begun(task: ProjectTask, document: TypstDocument, run: RenderRun) -> bool {
    &&& is_job_of(run.job, task)
    &&& run.document == document
    &&& match plan_spec(task, document.kind_spec()) {
        Some(plan) => begins(plan, document, run.state),
        None => {
            &&& run.state matches RenderState::Finished(Err(err))
            &&& is_plan_error(task, err)
        },
    }
}

/// Whether data is what a query gives: the selected values of the elements, written in the format,
/// or the first error.
pub open spec fn is_query_data(
    job: RenderJob,
    elements: Seq<typst::foundations::Content>,
    data: Result<Vec<u8>, ExportError>,
) -> bool {
    match select_spec(element_values(elements, field_view(job.field)), job.one) {
        Err(err) => data == Err::<Vec<u8>, ExportError>(err),
        Ok(output) => match serialize_spec(output, job.format@, false) {
            Ok(text) => is_text_data(text, data),
            Err(err) => data matches Err(ExportError::Serialize(inner)) && inner@ == err,
        },
    }
}

/// Whether an answer is one to what the making of data waits for.
pub open spec fn answers_render(state: RenderState, answer: RenderAnswer) -> bool {
    match state {
        RenderState::Selecting(_) => answer is Selected,
        RenderState::Compiling(plan, _) => {
            &&& answer matches RenderAnswer::Compiled(output)
            &&& output matches Ok(document) ==> suits(document, plan)
        },
        RenderState::Producing(production) => {
            &&& answer matches RenderAnswer::Produced(produced)
            &&& produced is Err ==> can_fail(production)
        },
        RenderState::Retrieving => answer is Retrieved,
        RenderState::Finished(_) => false,
    }
}

/// How the making of data goes on after an answer, and with which document.
pub open spec fn advances(
    job: RenderJob,
    document: TypstDocument,
    state: RenderState,
    answer: RenderAnswer,
    next_document: TypstDocument,
    next: RenderState,
) -> bool {
    match (state, answer) {
        (RenderState::Selecting(plan), RenderAnswer::Selected(Ok(selection))) => {
            &&& next_document == document
            &&& follows_selection(plan, Some(selection), document, next)
        },
        (RenderState::Selecting(_), RenderAnswer::Selected(Err(err))) => {
            &&& next_document == document
            &&& next == RenderState::Finished(Err(ExportError::PageSelection(err)))
        },
        (RenderState::Compiling(plan, selection), RenderAnswer::Compiled(output)) => {
            match extra_compile_spec(output) {
                Ok(other) => {
                    next_document == other && follows_document(plan, selection, other, next)
                },
                Err(err) => {
                    next_document == document && next == RenderState::Finished(Err(err))
                },
            }
        },
        (RenderState::Producing(_), RenderAnswer::Produced(Ok(data))) => {
            next_document == document && next == RenderState::Finished(Ok(data))
        },
        (RenderState::Producing(production), RenderAnswer::Produced(Err(err))) => {
            &&& next_document == document
            &&& next matches RenderState::Finished(data)
            &&& is_failed_production(production, err, data)
        },
        (RenderState::Retrieving, RenderAnswer::Retrieved(Ok(elements))) => {
            &&& next_document == document
            &&& next matches RenderState::Finished(data)
            &&& is_query_data(job, elements@, data)
        },
        (RenderState::Retrieving, RenderAnswer::Retrieved(Err(err))) => {
            &&& next_document == document
            &&& next == RenderState::Finished(Err(ExportError::Retrieve(err)))
        },
        _ => next_document == document && next == state,
    }
}

/// Whether the making of data comes from one state to another by an answer.
pub open spec fn is_next_run(run: RenderRun, answer: RenderAnswer, next: RenderRun) -> bool {
    &&& next.is_consistent()
    &&& next.job == run.job
    &&& advances(run.job, run.document, run.state, answer, next.document, next.state)
}

/// The making of data under way.
#[derive(Debug)]
pub struct RenderRun {
    pub job: RenderJob,
    /// The document that the data is made of.
    pub document: TypstDocument,
    pub state: RenderState,
}

/// Gives the error when something could not be made.
fn failed_production(production: Production, err: String) -> (data: Result<Vec<u8>, ExportError>)
    ensures
        is_failed_production(production, err, data),
{
    match production {
        Production::Html => html_data(Err(err)),
        Production::Pdf => Err(ExportError::Pdf(err)),
        Production::Text => Err(ExportError::Text(err)),
        Production::Markdown => Err(ExportError::Markdown(err)),
        Production::TeX => Err(ExportError::Latex(err)),
        _ => Err(ExportError::EncodePng(err)),
    }
}

/// Finds where the document of a plan comes from.
fn source(plan: &RenderPlan) -> (source: DocumentSource)
    ensures
        source == source_spec(*plan),
{
    match plan {
        RenderPlan::Pdf(source) => *source,
        RenderPlan::Html(source) => *source,
        RenderPlan::SvgHtml(source) => *source,
        RenderPlan::Svg(source) => *source,
        RenderPlan::Png(source, _) => *source,
        _ => DocumentSource::Compiled,
    }
}

/// Goes on with a document.
fn with_document(
    plan: RenderPlan,
    selection: Option<(bool, typst::layout::Abs)>,
    document: &TypstDocument,
) -> (next: RenderState)
    requires
        is_making(plan),
        suits(*document, plan),
        is_picture(plan) ==> selection is Some,
    ensures
        follows_document(plan, selection, *document, next),
        next matches RenderState::Producing(production) ==> wants_pages(production) ==> document
            is Paged,
{
    match (plan, selection, document) {
        (RenderPlan::Html(_), _, TypstDocument::Html(html)) => {
            if check_html(html) {
                RenderState::Finished(export_html(html))
            } else {
                RenderState::Producing(Production::Html)
            }
        },
        (RenderPlan::Svg(_), Some(pages), TypstDocument::Paged(paged)) => {
            if check_selection(paged, pages.0) {
                RenderState::Finished(export_svg(paged, pages))
            } else if pages.0 {
                RenderState::Producing(Production::SvgFirst)
            } else {
                RenderState::Producing(Production::SvgMerged(pages.1))
            }
        },
        (RenderPlan::Png(_, fill), Some((is_first, gap)), TypstDocument::Paged(paged)) => {
            if !is_first {
                RenderState::Producing(Production::PngMerged(gap, fill))
            } else {
                match first_page(paged) {
                    Ok(_) => RenderState::Producing(Production::PngFirst),
                    Err(err) => RenderState::Finished(Err(err)),
                }
            }
        },
        (RenderPlan::Pdf(_), _, _) => RenderState::Producing(Production::Pdf),
        (RenderPlan::SvgHtml(_), _, _) => RenderState::Producing(Production::SvgHtml),
        (RenderPlan::Text, _, _) => RenderState::Producing(Production::Text),
        (RenderPlan::Markdown, _, _) => RenderState::Producing(Production::Markdown),
        (RenderPlan::TeX, _, _) => RenderState::Producing(Production::TeX),
        _ => unreached(),
    }
}

/// Goes on once it is known which pages are asked for.
fn with_selection(
    plan: RenderPlan,
    selection: Option<(bool, typst::layout::Abs)>,
    document: &TypstDocument,
) -> (next: RenderState)
    requires
        is_making(plan),
        source_spec(plan) is Compiled ==> suits(*document, plan),
        is_picture(plan) ==> selection is Some,
    ensures
        follows_selection(plan, selection, *document, next),
        next matches RenderState::Producing(production) ==> wants_pages(production) ==> document
            is Paged,
{
    match source(&plan) {
        DocumentSource::ExtraCompile => RenderState::Compiling(plan, selection),
        DocumentSource::Compiled => with_document(plan, selection, document),
    }
}

/// Makes the data of a query of the elements that were found.
pub fn query_data(job: &RenderJob, elements: Vec<typst::foundations::Content>) -> (data: Result<
    Vec<u8>,
    ExportError,
>)
    ensures
        is_query_data(*job, elements@, data),
{
    match select(map_elements(elements, &job.field), job.one) {
        Ok(output) => match serialize(&output, job.format.as_str(), false) {
            Ok(text) => Ok(text.as_str().as_bytes_vec()),
            Err(err) => Err(ExportError::Serialize(err)),
        },
        Err(err) => Err(err),
    }
}

impl RenderRun {
    /// Whether the document is of the kind that is needed by now.
    pub open spec fn is_consistent(self) -> bool {
        match self.state {
            RenderState::Selecting(plan) => {
                &&& is_picture(plan)
                &&& source_spec(plan) is Compiled ==> suits(self.document, plan)
            },
            RenderState::Compiling(plan, selection) => {
                &&& source_spec(plan) is ExtraCompile
                &&& is_picture(plan) ==> selection is Some
            },
            RenderState::Producing(production) => {
                wants_pages(production) ==> self.document is Paged
            },
            _ => true,
        }
    }

    /// Begins to make the data of an export of a compiled document.
    pub fn begin(task: &ProjectTask, document: TypstDocument) -> (run: Self)
        ensures
            run.is_consistent(),
            is_begun(*task, document, run),
    {
        let job = match task {
            ProjectTask::Query(query) => RenderJob {
                format: query.format.clone(),
                field: match &query.field {
                    Some(field) => Some(field.clone()),
                    None => None,
                },
                one: query.one,
            },
            _ => RenderJob { format: String::new(), field: None, one: false },
        };
        let state = match plan(task, document.kind()) {
            Ok(plan) => match plan {
                RenderPlan::Nothing => RenderState::Finished(Ok(Vec::new())),
                RenderPlan::Query => RenderState::Retrieving,
                RenderPlan::Svg(_) | RenderPlan::Png(_, _) => RenderState::Selecting(plan),
                _ => with_selection(plan, None, &document),
            },
            Err(err) => RenderState::Finished(Err(err)),
        };
        RenderRun { job, document, state }
    }

    /// Takes the answer to what the making of data waits for.
    pub fn advance(&mut self, answer: RenderAnswer)
        requires
            old(self).is_consistent(),
            answers_render(old(self).state, answer),
        ensures
            is_next_run(*old(self), answer, *final(self)),
    {
        let mut state = RenderState::Retrieving;
        std::mem::swap(&mut self.state, &mut state);
        self.state = match (state, answer) {
            (RenderState::Selecting(plan), RenderAnswer::Selected(Ok(selection))) => {
                with_selection(plan, Some(selection), &self.document)
            },
            (RenderState::Selecting(_), RenderAnswer::Selected(Err(err))) => {
                RenderState::Finished(Err(ExportError::PageSelection(err)))
            },
            (RenderState::Compiling(plan, selection), RenderAnswer::Compiled(output)) => {
                match extra_compile_for_export(output) {
                    Ok(document) => {
                        self.document = document;
                        with_document(plan, selection, &self.document)
                    },
                    Err(err) => RenderState::Finished(Err(err)),
                }
            },
            (RenderState::Producing(_), RenderAnswer::Produced(Ok(data))) => {
                RenderState::Finished(Ok(data))
            },
            (RenderState::Producing(production), RenderAnswer::Produced(Err(err))) => {
                RenderState::Finished(failed_production(production, err))
            },
            (RenderState::Retrieving, RenderAnswer::Retrieved(Ok(elements))) => {
                RenderState::Finished(query_data(&self.job, elements))
            },
            (RenderState::Retrieving, RenderAnswer::Retrieved(Err(err))) => {
                RenderState::Finished(Err(ExportError::Retrieve(err)))
            },
            (state, _) => state,
        };
    }
}

/// All that the making of data can come to ask for, with the answers.
pub struct RenderAnswers {
    pub selection: Result<(bool, typst::layout::Abs), String>,
    pub compiled: Result<TypstDocument, Vec<String>>,
    pub produced: Result<Vec<u8>, String>,
    pub elements: Result<Vec<typst::foundations::Content>, String>,
}

impl RenderAnswers {
    /// The answer to what the making of data waits for.
    pub open spec fn answer(self, state: RenderState) -> RenderAnswer {
        match state {
            RenderState::Selecting(_) => RenderAnswer::Selected(self.selection),
            RenderState::Compiling(..) => RenderAnswer::Compiled(self.compiled),
            RenderState::Retrieving => RenderAnswer::Retrieved(self.elements),
            _ => RenderAnswer::Produced(self.produced),
        }
    }

    /// The pages that are asked for, where pictures are made.
    pub open spec fn pages_asked(self, plan: RenderPlan) -> Option<(bool, typst::layout::Abs)> {
        if is_picture(plan) && self.selection is Ok {
            Some(self.selection->Ok_0)
        } else {
            None
        }
    }

    /// Whether the document is there in the kind that a plan needs.
    pub open spec fn has_document(self, plan: RenderPlan) -> bool {
        source_spec(plan) is ExtraCompile ==> self.compiled is Ok
    }

    /// The document that the data of a plan is made of.
    pub open spec fn used_document(
        self,
        plan: RenderPlan,
        compiled: TypstDocument,
    ) -> TypstDocument {
        if source_spec(plan) is ExtraCompile {
            self.compiled->Ok_0
        } else {
            compiled
        }
    }

    /// Whether data is what a plan gives, for a document that was compiled.
    pub open spec fn is_result(
        self,
        job: RenderJob,
        plan: RenderPlan,
        compiled: TypstDocument,
        data: Result<Vec<u8>, ExportError>,
    ) -> bool {
        let document = self.used_document(plan, compiled);
        if plan is Nothing {
            data matches Ok(bytes) && bytes@ == Seq::<u8>::empty()
        } else if plan is Query {
            match self.elements {
                Ok(elements) => is_query_data(job, elements@, data),
                Err(err) => data == Err::<Vec<u8>, ExportError>(ExportError::Retrieve(err)),
            }
        } else if is_picture(plan) && self.selection is Err {
            data == Err::<Vec<u8>, ExportError>(
                ExportError::PageSelection(self.selection->Err_0),
            )
        } else if !self.has_document(plan) {
            data == Err::<Vec<u8>, ExportError>(extra_compile_spec(self.compiled)->Err_0)
        } else if self.lacks_first_page(plan, document) {
            data == Err::<Vec<u8>, ExportError>(ExportError::NoFirstPage)
        } else if plan is Html && (document matches TypstDocument::Html(html) && is_plain_html(
            *html,
        )) {
            document matches TypstDocument::Html(html) && is_html_export(*html, data)
        } else if plan is Svg && (document matches TypstDocument::Paged(paged)
            && is_plain_selection(*paged, self.selection->Ok_0.0)) {
            &&& document matches TypstDocument::Paged(paged)
            &&& is_svg_export(*paged, self.selection->Ok_0, data)
        } else {
            match self.produced {
                Ok(bytes) => data == Ok::<Vec<u8>, ExportError>(bytes),
                Err(err) => is_failed_production(self.production(plan), err, data),
            }
        }
    }

    /// Whether the first page alone is asked for, and there is none.
    pub open spec fn lacks_first_page(self, plan: RenderPlan, document: TypstDocument) -> bool {
        &&& is_picture(plan)
        &&& self.selection->Ok_0.0
        &&& document matches TypstDocument::Paged(paged)
        &&& document_pages(*paged).len() == 0
    }

    /// What a plan has made of the document.
    pub open spec fn production(self, plan: RenderPlan) -> Production {
        match plan {
            RenderPlan::Html(_) => Production::Html,
            RenderPlan::Svg(_) => if self.selection->Ok_0.0 {
                Production::SvgFirst
            } else {
                Production::SvgMerged(self.selection->Ok_0.1)
            },
            RenderPlan::Png(_, fill) => if self.selection->Ok_0.0 {
                Production::PngFirst
            } else {
                Production::PngMerged(self.selection->Ok_0.1, fill)
            },
            _ => production_spec(plan),
        }
    }

    /// What holds whenever the making of data has come so far.
    pub open spec fn is_reached(
        self,
        job: RenderJob,
        plan: RenderPlan,
        compiled: TypstDocument,
        document: TypstDocument,
        state: RenderState,
    ) -> bool {
        match state {
            RenderState::Selecting(current) => {
                current == plan && is_picture(plan) && document == compiled
            },
            RenderState::Compiling(current, selection) => {
                &&& current == plan && is_making(plan) && document == compiled
                &&& is_picture(plan) ==> self.selection is Ok
                &&& selection == self.pages_asked(plan)
                &&& source_spec(plan) is ExtraCompile
            },
            RenderState::Producing(production) => {
                &&& is_making(plan)
                &&& plan is Html ==> !(document matches TypstDocument::Html(html)
                    && is_plain_html(*html))
                &&& plan is Svg ==> !(document matches TypstDocument::Paged(paged)
                    && is_plain_selection(*paged, self.selection->Ok_0.0))
                &&& is_picture(plan) ==> self.selection is Ok
                &&& self.has_document(plan)
                &&& document == self.used_document(plan, compiled)
                &&& production == self.production(plan)
                &&& production is PngFirst || production is SvgFirst ==> (
                document matches TypstDocument::Paged(paged) && document_pages(*paged).len() > 0)
            },
            RenderState::Retrieving => plan is Query && document == compiled,
            RenderState::Finished(data) => self.is_result(job, plan, compiled, data),
        }
    }
}

/// Whether data is what the making of data gives for a task and a document that was compiled.
pub open spec fn is_render_result(
    task: ProjectTask,
    compiled: TypstDocument,
    answers: RenderAnswers,
    data: Result<Vec<u8>, ExportError>,
) -> bool {
    match plan_spec(task, compiled.kind_spec()) {
        Some(plan) => forall|job: RenderJob| #[trigger]
            is_job_of(job, task) ==> answers.is_result(job, plan, compiled, data),
        None => data matches Err(err) && is_plan_error(task, err),
    }
}

/// How many answers are still to come, at most.
pub open spec fn answers_left(state: RenderState) -> nat {
    match state {
        RenderState::Selecting(_) => 3,
        RenderState::Compiling(..) => 2,
        RenderState::Retrieving => 1,
        RenderState::Producing(_) => 1,
        RenderState::Finished(_) => 0,
    }
}

/// What holds whenever the making of data for a task has come so far.
pub open spec fn is_reached(
    task: ProjectTask,
    compiled: TypstDocument,
    answers: RenderAnswers,
    run: RenderRun,
) -> bool {
    &&& is_job_of(run.job, task)
    &&& match plan_spec(task, compiled.kind_spec()) {
        Some(plan) => answers.is_reached(run.job, plan, compiled, run.document, run.state),
        None => {
            &&& run.state matches RenderState::Finished(Err(err))
            &&& is_plan_error(task, err)
        },
    }
}

/// Where the making of data for a task has come to its end, it has given its result.
pub proof fn lemma_render_result(
    task: ProjectTask,
    compiled: TypstDocument,
    answers: RenderAnswers,
    run: RenderRun,
)
    requires
        is_reached(task, compiled, answers, run),
    ensures
        run.state matches RenderState::Finished(data) ==> is_render_result(
            task,
            compiled,
            answers,
            data,
        ),
{
    if task is Query {
        assert(forall|job: RenderJob| #[trigger] is_job_of(job, task) ==> job == run.job);
    }
}

/// The making of data begins as its plan says.
pub proof fn lemma_render_begin(
    task: ProjectTask,
    compiled: TypstDocument,
    answers: RenderAnswers,
    run: RenderRun,
)
    requires
        is_begun(task, compiled, run),
    ensures
        is_reached(task, compiled, answers, run),
{
}

/// Every answer brings the making of data nearer to its end, and keeps what holds on the way: a
/// picture is made only of pages that are there, a document is used only in the kind that the plan
/// needs, and the result is that of the plan, or the error of the first thing that failed.
pub proof fn lemma_render_advance(
    task: ProjectTask,
    compiled: TypstDocument,
    answers: RenderAnswers,
    run: RenderRun,
    next: RenderRun,
)
    requires
        !(run.state is Finished),
        is_reached(task, compiled, answers, run),
        is_next_run(run, answers.answer(run.state), next),
    ensures
        is_reached(task, compiled, answers, next),
        answers_left(next.state) < answers_left(run.state),
{
}

/// A task to export SVG gives SVG of the first page, the error where there is none, or SVG of all
/// pages, as it is asked for. Where the pages are plain that depends on nobody, else on an answer
/// that is the SVG that was asked for.
pub proof fn lemma_svg_data(
    task: ProjectTask,
    compiled: TypstDocument,
    answers: RenderAnswers,
    document: TypstDocument,
    data: Result<Vec<u8>, ExportError>,
)
    requires
        task is ExportSvg,
        is_render_result(task, compiled, answers, data),
        answers.selection is Ok,
        document == if compiled is Paged {
            compiled
        } else {
            answers.compiled->Ok_0
        },
        compiled is Html ==> answers.compiled is Ok,
        document matches TypstDocument::Paged(paged) && (is_plain_selection(
            *paged,
            answers.selection->Ok_0.0,
        ) || (answers.produced matches Ok(bytes) && is_svg_export(
            *paged,
            answers.selection->Ok_0,
            Ok(bytes),
        ))),
    ensures
        document matches TypstDocument::Paged(paged) && is_svg_export(
            *paged,
            answers.selection->Ok_0,
            data,
        ),
{
    let job = RenderJob { format: arbitrary(), field: None, one: false };
    assert(is_job_of(job, task));
}

/// A task to export HTML gives HTML of the web page, or the error where it cannot be written. Where
/// the drawings are plain that depends on nobody, else on an answer that is what was asked for.
pub proof fn lemma_html_data(
    task: ProjectTask,
    compiled: TypstDocument,
    answers: RenderAnswers,
    document: TypstDocument,
    outcome: Result<Seq<char>, Seq<char>>,
    data: Result<Vec<u8>, ExportError>,
)
    requires
        task is ExportHtml,
        is_render_result(task, compiled, answers, data),
        document == if compiled is Html {
            compiled
        } else {
            answers.compiled->Ok_0
        },
        compiled is Paged ==> answers.compiled is Ok,
        document matches TypstDocument::Html(html) && (is_plain_html(*html) || (is_html_of(
            *html,
            outcome,
        ) && match answers.produced {
            Ok(bytes) => is_html_data(outcome, Ok(bytes)),
            Err(err) => outcome == Err::<Seq<char>, Seq<char>>(err@),
        })),
    ensures
        document matches TypstDocument::Html(html) && is_html_export(*html, data),
{
    let job = RenderJob { format: arbitrary(), field: None, one: false };
    assert(is_job_of(job, task));
}

/// Where a query asks for one element, its data is an error that tells the number of elements
/// unless there is exactly one, and else the value of that element by itself, in the format. Where
/// it does not, its data is the list of the values of the elements that have one, in the format.
/// What cannot be written in the format is an error.
pub proof fn lemma_query_data(
    job: RenderJob,
    elements: Seq<typst::foundations::Content>,
    data: Result<Vec<u8>, ExportError>,
)
    requires
        is_query_data(job, elements, data),
    ensures
        ({
            let value_of = |element: typst::foundations::Content|
                match job.field {
                    Some(name) => field_value(element, name@),
                    None => Some(whole_value(element)),
                };
            let there = |value: Option<typst::foundations::Value>| value is Some;
            let held = |value: Option<typst::foundations::Value>| value.unwrap();
            if job.one && elements.len() != 1 {
                data == Err::<Vec<u8>, ExportError>(
                    ExportError::NotExactlyOne(elements.len() as usize),
                )
            } else if job.one && value_of(elements[0]) is None {
                data == Err::<Vec<u8>, ExportError>(ExportError::NoSuchField)
            } else {
                let output = if job.one {
                    QueryOutputView::One(value_of(elements[0]).unwrap())
                } else {
                    QueryOutputView::Many(
                        elements.map_values(value_of).filter(there).map_values(held),
                    )
                };
                match serialize_spec(output, job.format@, false) {
                    Ok(text) => data matches Ok(bytes) && bytes@ == encode_utf8(text),
                    Err(err) => data matches Err(ExportError::Serialize(inner)) && inner@ == err,
                }
            }
        }),
{
    let value_of = |element: typst::foundations::Content|
        match job.field {
            Some(name) => field_value(element, name@),
            None => Some(whole_value(element)),
        };
    let values = element_values(elements, field_view(job.field));
    assert(values =~= elements.map_values(value_of));
    lemma_present_filter(values);
}

/// Whether the making of data for a task and a compiled document goes from one of a series of
/// states to the next.
pub open spec fn is_course(
    task: ProjectTask,
    compiled: TypstDocument,
    answers: RenderAnswers,
    runs: Seq<RenderRun>,
) -> bool {
    &&& runs.len() > 0
    &&& is_begun(task, compiled, runs[0])
    &&& forall|k: int| 0 < k < runs.len() ==> is_turn(answers, runs[k - 1], #[trigger] runs[k])
}

/// Whether the making of data that is not over goes on to a state.
pub open spec fn is_turn(answers: RenderAnswers, run: RenderRun, next: RenderRun) -> bool {
    !(run.state is Finished) && is_next_run(run, answers.answer(run.state), next)
}

/// The making of data keeps what holds on the way, and comes to its end after at most three
/// answers, with its result.
pub proof fn lemma_course(
    task: ProjectTask,
    compiled: TypstDocument,
    answers: RenderAnswers,
    runs: Seq<RenderRun>,
)
    requires
        is_course(task, compiled, answers, runs),
    ensures
        is_reached(task, compiled, answers, runs.last()),
        runs.len() + answers_left(runs.last().state) <= 4,
        runs.last().state matches RenderState::Finished(data) ==> is_render_result(
            task,
            compiled,
            answers,
            data,
        ),
    decreases runs.len(),
{
    if runs.len() == 1 {
        lemma_render_begin(task, compiled, answers, runs[0]);
    } else {
        let before = runs.drop_last();
        assert(is_course(task, compiled, answers, before)) by {
            assert forall|k: int| 0 < k < before.len() implies is_turn(
                answers,
                before[k - 1],
                #[trigger] before[k],
            ) by {
                assert(before[k] == runs[k]);
            }
        }
        lemma_course(task, compiled, answers, before);
        assert(is_turn(answers, before.last(), runs[runs.len() - 1]));
        lemma_render_advance(task, compiled, answers, before.last(), runs.last());
    }
    lemma_render_result(task, compiled, answers, runs.last());
}

/// What the making of data asks for is what the task names: data of that kind, in the pages that
/// were selected, with the gap that was selected, and on the background that the task gives. Only a
/// query asks for elements, and only pictures of pages ask which pages. The document is compiled
/// once more only if it is of the other kind than the data needs, and then for that kind.
pub proof fn lemma_asked(
    task: ProjectTask,
    compiled: TypstDocument,
    answers: RenderAnswers,
    runs: Seq<RenderRun>,
)
    requires
        is_course(task, compiled, answers, runs),
    ensures
        runs.last().state matches RenderState::Producing(production) ==> {
            &&& production is Pdf <==> task is ExportPdf
            &&& production is Html <==> task is ExportHtml
            &&& production is SvgHtml <==> task is ExportSvgHtml
            &&& production is Text <==> task is ExportText
            &&& production is Markdown <==> task is ExportMd
            &&& production is TeX <==> task is ExportTeX
            &&& production is SvgFirst || production is SvgMerged <==> task is ExportSvg
            &&& production is PngFirst || production is PngMerged <==> task is ExportPng
            &&& production is SvgFirst || production is PngFirst ==> (
            answers.selection matches Ok((first, _)) && first)
            &&& production matches Production::SvgMerged(gap) ==> answers.selection == Ok::<
                (bool, typst::layout::Abs),
                String,
            >((false, gap))
            &&& production matches Production::PngMerged(gap, fill) ==> {
                &&& answers.selection == Ok::<(bool, typst::layout::Abs), String>((false, gap))
                &&& task matches ProjectTask::ExportPng(png)
                &&& match png.fill {
                    Some(text) => parse_color_spec(text@) == Ok::<Color, ColorErrorView>(fill),
                    None => fill == Color::White,
                }
            }
        },
        runs.last().state is Retrieving <==> task is Query && runs.len() == 1,
        runs.last().state is Selecting ==> task is ExportSvg || task is ExportPng,
        task is ExportSvg ==> (runs.last().state is Selecting <==> runs.len() == 1),
        runs.last().state matches RenderState::Compiling(plan, _) ==> {
            ||| task is ExportHtml && compiled is Paged && plan is Html
            ||| task is ExportPdf && compiled is Html && plan is Pdf
            ||| task is ExportSvgHtml && compiled is Html && plan is SvgHtml
            ||| task is ExportSvg && compiled is Html && plan is Svg
            ||| task is ExportPng && compiled is Html && plan is Png
        },
{
    lemma_course(task, compiled, answers, runs);
    if runs.len() > 1 {
        let before = runs.drop_last();
        assert(is_turn(answers, runs[runs.len() - 2], runs[runs.len() - 1]));
    }
}

/// Everything is made of the compiled document where that is of the kind that the data needs, pages
/// for PDF, pictures and web pages of vector graphics, and a web page for HTML. Else it is made of
/// the one that was compiled once more. Text, Markdown, TeX and elements are always taken from the
/// compiled document.
pub proof fn lemma_made_of(
    task: ProjectTask,
    compiled: TypstDocument,
    answers: RenderAnswers,
    runs: Seq<RenderRun>,
)
    requires
        is_course(task, compiled, answers, runs),
        runs.last().state is Producing || runs.last().state is Retrieving,
    ensures
        ({
            let document = runs.last().document;
            &&& task is ExportPdf || task is ExportSvgHtml || task is ExportSvg || task is ExportPng
                ==> {
                &&& compiled is Paged ==> document == compiled
                &&& compiled is Html ==> (answers.compiled matches Ok(other) && document == other)
            }
            &&& task is ExportHtml ==> {
                &&& compiled is Html ==> document == compiled
                &&& compiled is Paged ==> (answers.compiled matches Ok(other) && document == other)
            }
            &&& task is ExportText || task is ExportMd || task is ExportTeX || task is Query
                ==> document == compiled
        }),
{
    lemma_course(task, compiled, answers, runs);
}

/// What is made of a document as a whole is the data, unchanged. Where it could not be made, the
/// error is that of the task. Where the document had to be compiled once more and could not be, the
/// error is the first of the compiler.
pub proof fn lemma_whole_data(
    task: ProjectTask,
    compiled: TypstDocument,
    answers: RenderAnswers,
    runs: Seq<RenderRun>,
    data: Result<Vec<u8>, ExportError>,
)
    requires
        is_course(task, compiled, answers, runs),
        runs.last().state == RenderState::Finished(data),
    ensures
        task is Preview ==> (data matches Ok(bytes) && bytes@.len() == 0),
        task is ExportPdf || task is ExportSvgHtml ==> {
            if compiled is Html && answers.compiled is Err {
                data == Err::<Vec<u8>, ExportError>(
                    if answers.compiled->Err_0@.len() > 0 {
                        ExportError::ExtraCompile(answers.compiled->Err_0@[0])
                    } else {
                        ExportError::ExtraCompileInternal
                    },
                )
            } else {
                match answers.produced {
                    Ok(bytes) => data == Ok::<Vec<u8>, ExportError>(bytes),
                    Err(err) => task is ExportPdf ==> data == Err::<Vec<u8>, ExportError>(
                        ExportError::Pdf(err),
                    ),
                }
            }
        },
        task is ExportText ==> data == match answers.produced {
            Ok(bytes) => Ok(bytes),
            Err(err) => Err(ExportError::Text(err)),
        },
        task is ExportMd ==> data == match answers.produced {
            Ok(bytes) => Ok(bytes),
            Err(err) => Err(ExportError::Markdown(err)),
        },
        task is ExportTeX ==> data == match answers.produced {
            Ok(bytes) => Ok(bytes),
            Err(err) => Err(ExportError::Latex(err)),
        },
        task is Query ==> match answers.elements {
            Ok(elements) => is_query_data(runs[0].job, elements@, data),
            Err(err) => data == Err::<Vec<u8>, ExportError>(ExportError::Retrieve(err)),
        },
        task matches ProjectTask::Query(query) ==> {
            &&& runs[0].job.format == query.format
            &&& runs[0].job.field == query.field
            &&& runs[0].job.one == query.one
        },
{
    lemma_course(task, compiled, answers, runs);
    assert(is_job_of(runs[0].job, task));
    assert(runs.last().job == runs[0].job) by {
        lemma_same_job(task, compiled, answers, runs);
    }
}

proof fn lemma_same_job(
    task: ProjectTask,
    compiled: TypstDocument,
    answers: RenderAnswers,
    runs: Seq<RenderRun>,
)
    requires
        is_course(task, compiled, answers, runs),
    ensures
        runs.last().job == runs[0].job,
    decreases runs.len(),
{
    if runs.len() > 1 {
        let before = runs.drop_last();
        assert forall|k: int| 0 < k < before.len() implies is_turn(
            answers,
            before[k - 1],
            #[trigger] before[k],
        ) by {
            assert(before[k] == runs[k]);
        }
        lemma_same_job(task, compiled, answers, before);
        assert(is_turn(answers, runs[runs.len() - 2], runs[runs.len() - 1]));
    }
}

/// The pages of a document that has them.
pub open spec fn pages_of(document: TypstDocument) -> typst::layout::PagedDocument {
    *document->Paged_0
}

/// PNG is refused at once, before anything is asked for, where the resolution is too small, or else
/// where the background that is asked for is no color, and for nothing else.
pub proof fn lemma_png_refused(
    png: ExportPngTask,
    compiled: TypstDocument,
    answers: RenderAnswers,
    runs: Seq<RenderRun>,
)
    requires
        is_course(ProjectTask::ExportPng(png), compiled, answers, runs),
    ensures
        runs[0].state is Selecting <==> !png.ppi.too_small && (png.fill matches Some(fill)
            ==> parse_color_spec(fill@) is Ok),
        runs[0].state is Selecting || runs[0].state matches RenderState::Finished(Err(_)),
        runs[0].state matches RenderState::Finished(Err(err)) ==> if png.ppi.too_small {
            err == ExportError::InvalidPpi(png.ppi.text)
        } else {
            &&& png.fill matches Some(fill)
            &&& err matches ExportError::InvalidFill(reason)
            &&& parse_color_spec(fill@) == Err::<Color, ColorErrorView>(reason@)
        },
{
}

/// Pictures of pages that are not refused fail with the first of these: pages that are not given as
/// they should be, a document that could not be compiled for pages, and a first page that is not
/// there. Else PNG is what was made of the pages, or tells why nothing could be made, and SVG is
/// that of the first page or of all of them.
pub proof fn lemma_picture_data(
    task: ProjectTask,
    compiled: TypstDocument,
    answers: RenderAnswers,
    runs: Seq<RenderRun>,
    data: Result<Vec<u8>, ExportError>,
    document: TypstDocument,
)
    requires
        is_course(task, compiled, answers, runs),
        runs[0].state is Selecting,
        runs.last().state == RenderState::Finished(data),
        document == if compiled is Paged {
            compiled
        } else {
            answers.compiled->Ok_0
        },
        compiled is Html && answers.compiled is Ok ==> document is Paged,
    ensures
        answers.selection matches Err(err) ==> data == Err::<Vec<u8>, ExportError>(
            ExportError::PageSelection(err),
        ),
        answers.selection is Ok && compiled is Html ==> (answers.compiled matches Err(errors)
            ==> data == Err::<Vec<u8>, ExportError>(
            if errors@.len() > 0 {
                ExportError::ExtraCompile(errors@[0])
            } else {
                ExportError::ExtraCompileInternal
            },
        )),
        compiled is Paged || answers.compiled is Ok ==> (answers.selection matches Ok((first, gap))
            ==> {
            let pages = document_pages(pages_of(document));
            if first && pages.len() == 0 {
                data == Err::<Vec<u8>, ExportError>(ExportError::NoFirstPage)
            } else if task is ExportPng {
                data == match answers.produced {
                    Ok(bytes) => Ok(bytes),
                    Err(err) => Err(ExportError::EncodePng(err)),
                }
            } else if !is_plain_selection(pages_of(document), first) {
                answers.produced matches Ok(bytes) ==> data == Ok::<Vec<u8>, ExportError>(bytes)
            } else if first {
                &&& data matches Ok(bytes)
                &&& exists|text: Seq<char>| #[trigger]
                    is_svg_of(pages[0], text) && bytes@ == encode_utf8(text)
            } else {
                &&& data matches Ok(bytes)
                &&& exists|text: Seq<char>| #[trigger]
                    is_merged_svg_of(pages_of(document), gap, text) && bytes@ == encode_utf8(text)
            }
        }),
{
    lemma_course(task, compiled, answers, runs);
    assert(is_job_of(runs.last().job, task));
    if is_svg_export(pages_of(document), answers.selection->Ok_0, data) {
        lemma_svg_export(pages_of(document), answers.selection->Ok_0, data);
    }
}

/// HTML fails where the document could not be compiled for a web page. Else it is that of the web
/// page, or the error with what went wrong.
pub proof fn lemma_html_course(
    task: ProjectTask,
    compiled: TypstDocument,
    answers: RenderAnswers,
    runs: Seq<RenderRun>,
    data: Result<Vec<u8>, ExportError>,
    document: TypstDocument,
)
    requires
        is_course(task, compiled, answers, runs),
        task is ExportHtml,
        runs.last().state == RenderState::Finished(data),
        document == if compiled is Html {
            compiled
        } else {
            answers.compiled->Ok_0
        },
        compiled is Paged && answers.compiled is Ok ==> document is Html,
    ensures
        compiled is Paged ==> (answers.compiled matches Err(errors) ==> data == Err::<
            Vec<u8>,
            ExportError,
        >(
            if errors@.len() > 0 {
                ExportError::ExtraCompile(errors@[0])
            } else {
                ExportError::ExtraCompileInternal
            },
        )),
        compiled is Html || answers.compiled is Ok ==> {
            let page = web_page_of(document);
            if is_plain_html(page) {
                match data {
                    Ok(bytes) => exists|text: Seq<char>| #[trigger]
                        is_html_of(page, Ok(text)) && bytes@ == encode_utf8(text),
                    Err(err) => {
                        &&& err matches ExportError::Html(inner)
                        &&& exists|reason: Seq<char>| #[trigger]
                            is_html_of(page, Err(reason)) && inner@ == "export error: "@ + reason
                    },
                }
            } else {
                match answers.produced {
                    Ok(bytes) => data == Ok::<Vec<u8>, ExportError>(bytes),
                    Err(reason) => {
                        &&& data matches Err(ExportError::Html(inner))
                        &&& inner@ == "export error: "@ + reason@
                    },
                }
            }
        },
{
    lemma_course(task, compiled, answers, runs);
    assert(is_job_of(runs.last().job, task));
    if is_html_export(web_page_of(document), data) {
        lemma_html_export(web_page_of(document), data);
    }
}

/// The web page of a document that is one.
pub open spec fn web_page_of(document: TypstDocument) -> typst::html::HtmlDocument {
    *document->Html_0
}

/// The making of data takes any answer to what it asks for. A document that is compiled once more
/// has to be of the kind that it was compiled for. Vector graphics can always be made, and
/// everything else may fail.
pub proof fn lemma_answered(
    plan: RenderPlan,
    pages: Option<(bool, typst::layout::Abs)>,
    production: Production,
    answers: RenderAnswers,
)
    ensures
        answers_render(
            RenderState::Selecting(plan),
            RenderAnswer::Selected(answers.selection),
        ),
        answers_render(RenderState::Retrieving, RenderAnswer::Retrieved(answers.elements)),
        answers_render(
            RenderState::Compiling(plan, pages),
            RenderAnswer::Compiled(answers.compiled),
        ) <==> (answers.compiled matches Ok(document) ==> {
            &&& plan is Html ==> document is Html
            &&& plan is Pdf || plan is SvgHtml || plan is Svg || plan is Png ==> document is Paged
        }),
        answers_render(
            RenderState::Producing(production),
            RenderAnswer::Produced(answers.produced),
        ) <==> answers.produced is Ok || !(production is SvgHtml || production is SvgFirst
            || production is SvgMerged),
{
}

} // verus!
