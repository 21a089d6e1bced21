use std::path::PathBuf;
use std::sync::Arc;

use tinymist::document::TypstDocument;
use tinymist::error::ExportError;
use tinymist::export::{CompiledDocument, DocumentKind, ExportTask};
use tinymist::path::is_extension;
use tinymist::produce::{Production, RenderAnswer, RenderState};
use tinymist::run::{ExportAnswer, ExportRun, ExportState, WriteError};
use tinymist::task::{
    ExportPdfTask, ExportSvgTask, ProjectExportTask, ProjectTask, QueryTask, TaskWhen,
};
use typst::foundations::{Content, Smart};
use typst::html::{tag, HtmlDocument, HtmlElement};
use typst::layout::{Abs, Frame, Page, PagedDocument, Size};
use typst::model::DocumentInfo;
use typst::text::TextElem;

fn export() -> ProjectExportTask {
    ProjectExportTask {
        when: TaskWhen::OnSave,
        output: Some("$name".to_owned()),
        transform: vec![],
    }
}

fn svg() -> Arc<ProjectTask> {
    Arc::new(ProjectTask::ExportSvg(ExportSvgTask { export: export() }))
}

fn pdf() -> Arc<ProjectTask> {
    Arc::new(ProjectTask::ExportPdf(ExportPdfTask {
        export: export(),
        pdf_standards: vec![],
        creation_timestamp: None,
    }))
}

fn query() -> Arc<ProjectTask> {
    Arc::new(ProjectTask::Query(QueryTask {
        export: export(),
        format: "json".to_owned(),
        output_extension: None,
        selector: "heading".to_owned(),
        field: Some("text".to_owned()),
        one: false,
    }))
}

fn pages(count: usize) -> TypstDocument {
    let page = Page {
        frame: Frame::soft(Size::new(Abs::pt(30.0), Abs::pt(10.0))),
        fill: Smart::Auto,
        numbering: None,
        supplement: Content::empty(),
        number: 1,
    };
    let pages = vec![page; count];
    TypstDocument::Paged(Arc::new(PagedDocument { pages, ..PagedDocument::default() }))
}

fn web_page(title: Option<&str>) -> TypstDocument {
    TypstDocument::Html(Arc::new(HtmlDocument {
        root: HtmlElement::new(tag::html),
        info: DocumentInfo { title: title.map(Into::into), ..DocumentInfo::default() },
        introspector: Default::default(),
    }))
}

fn start(task: Arc<ProjectTask>, doc: Option<TypstDocument>, lock: bool) -> ExportRun {
    let run = ExportTask::do_export(task, "Task".to_owned(), doc, lock);
    assert!(matches!(&run.state, ExportState::Substituting(Some(output)) if output == "$name"));
    run
}

fn path(path: &str) -> PathBuf {
    PathBuf::from(path)
}

fn placed(run: &mut ExportRun) {
    run.advance(ExportAnswer::Substituted(Some(path("/out/main"))));
    run.advance(ExportAnswer::Inspected { is_dir: false });
    run.advance(ExportAnswer::Extended { extension: "x".to_owned() });
    run.advance(ExportAnswer::ParentChecked { missing: false });
}

fn outcome(run: ExportRun) -> Result<Option<PathBuf>, ExportError> {
    match run.state {
        ExportState::Finished(outcome) => outcome,
        state => panic!("the export is not over: {state:?}"),
    }
}

fn render_state(run: &ExportRun) -> &RenderState {
    match &run.state {
        ExportState::Rendering { path, run } => {
            assert_eq!(path, &PathBuf::from("/out/main.x"));
            &run.state
        }
        state => panic!("no data is made: {state:?}"),
    }
}

fn written(run: &ExportRun) -> &[u8] {
    match &run.state {
        ExportState::Writing { path, data } => {
            assert_eq!(path, &PathBuf::from("/out/main.x"));
            data
        }
        state => panic!("nothing is written: {state:?}"),
    }
}

#[test]
fn a_document_is_exported() {
    let task = svg();
    let mut run = start(task.clone(), Some(pages(1)), true);
    run.advance(ExportAnswer::Substituted(Some(path("x/../main.old"))));
    assert!(matches!(&run.state, ExportState::Anchoring(p) if *p == path("x/../main.old")));
    run.advance(ExportAnswer::Anchored(Ok(path("/home/./out"))));
    assert!(matches!(&run.state, ExportState::Inspecting(p) if *p == path("/home/out/main.old")));
    run.advance(ExportAnswer::Inspected { is_dir: false });
    assert!(matches!(&run.state, ExportState::Extending(p) if *p == path("/home/out/main.old")));
    run.advance(ExportAnswer::Extended { extension: "svg".to_owned() });
    let target = path("/home/out/main.svg");
    assert!(matches!(&run.state, ExportState::CheckingParent(p) if *p == target));
    run.advance(ExportAnswer::ParentChecked { missing: true });
    assert!(matches!(&run.state, ExportState::CreatingParent(p) if *p == target));
    run.advance(ExportAnswer::ParentCreated(Ok(())));
    assert!(matches!(&run.state, ExportState::Identifying(p) if *p == target));
    run.advance(ExportAnswer::Identified(Some("file:main".to_owned())));
    match &run.state {
        ExportState::Recording { path, record } => {
            assert_eq!(*path, target);
            assert_eq!(record.id, "file:main");
            assert_eq!(record.document, "file:main");
            assert_eq!(record.task, task);
        }
        state => panic!("nothing is recorded: {state:?}"),
    }
    run.advance(ExportAnswer::Recorded);
    match &run.state {
        ExportState::Rendering { path, run } => {
            assert_eq!(*path, target);
            assert!(matches!(run.state, RenderState::Selecting(_)));
            assert_eq!(run.document.kind(), DocumentKind::Paged);
        }
        state => panic!("no data is made: {state:?}"),
    }
    run.advance(ExportAnswer::Rendered(RenderAnswer::Selected(Ok((true, Abs::zero())))));
    match &run.state {
        ExportState::Writing { path, data } => {
            assert_eq!(*path, target);
            assert!(data.starts_with(b"<svg class=\"typst-doc\" viewBox=\"0 0 30 10\""));
        }
        state => panic!("nothing is written: {state:?}"),
    }
    run.advance(ExportAnswer::Written(Ok(())));
    assert!(target.is_absolute());
    assert_eq!(outcome(run), Ok(Some(target)));
}

#[test]
fn a_pattern_without_a_path_ends_the_export() {
    let mut run = start(svg(), Some(pages(1)), true);
    run.advance(ExportAnswer::Substituted(None));
    assert_eq!(outcome(run), Ok(None));
}

#[test]
fn the_current_directory_may_be_unknown() {
    let mut run = start(svg(), Some(pages(1)), false);
    run.advance(ExportAnswer::Substituted(Some(path("main"))));
    run.advance(ExportAnswer::Anchored(Err("gone".to_owned())));
    assert_eq!(outcome(run), Err(ExportError::CurrentDirectory("gone".to_owned())));
}

#[test]
fn a_relative_path_is_refused() {
    let mut run = start(svg(), Some(pages(1)), false);
    run.advance(ExportAnswer::Substituted(Some(path("main"))));
    run.advance(ExportAnswer::Anchored(Ok(path("here"))));
    let err = ExportError::RelativeOutput { task: "Task".to_owned(), path: path("here/main") };
    assert_eq!(err.message(), "ExportTask(Task): output path is relative: \"here/main\"");
    assert_eq!(outcome(run), Err(err));
}

#[test]
fn a_directory_is_refused() {
    let mut run = start(svg(), Some(pages(1)), false);
    run.advance(ExportAnswer::Substituted(Some(path("/out"))));
    run.advance(ExportAnswer::Inspected { is_dir: true });
    let err = ExportError::DirectoryOutput { task: "Task".to_owned(), path: path("/out") };
    assert_eq!(err.message(), "ExportTask(Task): output path is a directory: \"/out\"");
    assert_eq!(outcome(run), Err(err));
}

#[test]
fn a_directory_may_not_be_created() {
    let mut run = start(svg(), Some(pages(1)), false);
    run.advance(ExportAnswer::Substituted(Some(path("/out/main"))));
    run.advance(ExportAnswer::Inspected { is_dir: false });
    run.advance(ExportAnswer::Extended { extension: "svg".to_owned() });
    run.advance(ExportAnswer::ParentChecked { missing: true });
    run.advance(ExportAnswer::ParentCreated(Err("denied".to_owned())));
    assert_eq!(outcome(run), Err(ExportError::CreateDirectory("denied".to_owned())));
}

#[test]
fn without_a_document_the_lock_is_kept_but_nothing_written() {
    let task = svg();
    let mut run = start(task.clone(), None, true);
    placed(&mut run);
    assert!(matches!(&run.state, ExportState::Identifying(p) if *p == path("/out/main.x")));
    run.advance(ExportAnswer::Identified(Some("id".to_owned())));
    assert!(matches!(
        &run.state,
        ExportState::Recording { record, .. } if record.id == "id" && record.task == task
    ));
    run.advance(ExportAnswer::Recorded);
    assert_eq!(outcome(run), Err(ExportError::CompilationErrors));

    let mut run = start(svg(), None, true);
    placed(&mut run);
    run.advance(ExportAnswer::Identified(None));
    assert_eq!(outcome(run), Err(ExportError::CompilationErrors));

    let mut run = start(svg(), None, false);
    placed(&mut run);
    assert_eq!(outcome(run), Err(ExportError::CompilationErrors));
}

#[test]
fn the_data_is_that_of_the_task_and_the_document() {
    let mut run = start(query(), Some(pages(1)), false);
    placed(&mut run);
    assert_eq!(render_state(&run), &RenderState::Retrieving);
    let elements = vec![TextElem::packed("a\"b"), Content::empty(), TextElem::packed("c")];
    run.advance(ExportAnswer::Rendered(RenderAnswer::Retrieved(Ok(elements))));
    assert_eq!(written(&run), b"[\"a\\\"b\",\"c\"]");

    let mut run = start(pdf(), Some(pages(1)), false);
    placed(&mut run);
    assert_eq!(render_state(&run), &RenderState::Producing(Production::Pdf));
    run.advance(ExportAnswer::Rendered(RenderAnswer::Produced(Ok(vec![1, 2]))));
    assert_eq!(written(&run), [1, 2]);
}

#[test]
fn the_document_may_be_compiled_once_more() {
    let mut run = start(pdf(), Some(web_page(None)), false);
    placed(&mut run);
    assert!(matches!(render_state(&run), RenderState::Compiling(..)));
    run.advance(ExportAnswer::Rendered(RenderAnswer::Compiled(Ok(pages(2)))));
    assert_eq!(render_state(&run), &RenderState::Producing(Production::Pdf));
    run.advance(ExportAnswer::Rendered(RenderAnswer::Produced(Err("no".to_owned()))));
    assert_eq!(outcome(run), Err(ExportError::Pdf("no".to_owned())));
}

#[test]
fn data_that_cannot_be_made_is_not_written() {
    let mut run = start(svg(), Some(pages(0)), false);
    placed(&mut run);
    run.advance(ExportAnswer::Rendered(RenderAnswer::Selected(Ok((true, Abs::zero())))));
    assert_eq!(outcome(run), Err(ExportError::NoFirstPage));

    let mut run = start(svg(), Some(pages(1)), false);
    placed(&mut run);
    run.advance(ExportAnswer::Rendered(RenderAnswer::Selected(Err("pages".to_owned()))));
    assert_eq!(outcome(run), Err(ExportError::PageSelection("pages".to_owned())));

    let mut run = start(svg(), Some(pages(1)), false);
    placed(&mut run);
    run.advance(ExportAnswer::Interrupted("panicked".to_owned()));
    assert_eq!(outcome(run), Err(ExportError::Interrupted("panicked".to_owned())));
}

#[test]
fn writing_may_fail() {
    let cases = [
        (
            WriteError::Interrupted("cancelled".to_owned()),
            ExportError::Export("cancelled".to_owned()),
        ),
        (WriteError::Failed("full".to_owned()), ExportError::Write("full".to_owned())),
    ];
    for (err, expected) in cases {
        let mut run = start(svg(), Some(pages(1)), false);
        placed(&mut run);
        run.advance(ExportAnswer::Rendered(RenderAnswer::Selected(Ok((false, Abs::zero())))));
        assert!(!written(&run).is_empty());
        run.advance(ExportAnswer::Written(Err(err)));
        assert_eq!(outcome(run), Err(expected));
    }
}

#[test]
fn titles_of_documents() {
    let info = DocumentInfo { title: Some("Paged".into()), ..DocumentInfo::default() };
    let document = PagedDocument { info, ..PagedDocument::default() };
    let titled = TypstDocument::Paged(Arc::new(document));
    assert_eq!(titled.title().as_deref(), Some("Paged"));
    let summary = CompiledDocument { kind: DocumentKind::Paged, has_title: true };
    assert_eq!(titled.summary(), summary);
    assert!(!pages(1).summary().has_title);

    assert_eq!(web_page(Some("Web")).title().as_deref(), Some("Web"));
    assert_eq!(web_page(None).title(), None);
    let summary = CompiledDocument { kind: DocumentKind::Html, has_title: false };
    assert_eq!(web_page(None).summary(), summary);
}

#[test]
fn extensions() {
    for extension in ["", "svg", "tar.gz"] {
        assert!(is_extension(extension));
    }
    for extension in ["/", "a/b", "a\\b"] {
        assert!(!is_extension(extension));
    }
}
