use std::sync::Arc;

use tinymist::color::{Color, ColorError};
use tinymist::document::{export_html, export_svg, first_page, html_data, TypstDocument};
use tinymist::error::ExportError;
use tinymist::export::DocumentKind;
use tinymist::produce::{Production, RenderAnswer, RenderRun, RenderState};
use tinymist::render::{
    document_source, extra_compile_for_export, plan, DocumentSource, RenderPlan,
};
use tinymist::serialize::SerializeError;
use tinymist::task::{
    ExportHtmlTask, ExportMarkdownTask, ExportPdfTask, ExportPngTask, ExportSvgTask, ExportTeXTask,
    ExportTextTask, PixelsPerInch, PreviewTask, ProjectExportTask, ProjectTask, QueryTask,
    TaskWhen,
};
use typst::foundations::{Content, Smart};
use typst::html::{tag, HtmlDocument, HtmlElement, HtmlNode};
use typst::layout::{Abs, Frame, Page, PagedDocument, Size};
use typst::syntax::Span;
use typst::text::TextElem;

fn export() -> ProjectExportTask {
    ProjectExportTask { when: TaskWhen::OnSave, output: None, transform: vec![] }
}

fn pdf() -> ProjectTask {
    ProjectTask::ExportPdf(ExportPdfTask {
        export: export(),
        pdf_standards: vec![],
        creation_timestamp: None,
    })
}

fn png(too_small: bool, fill: Option<&str>) -> ProjectTask {
    ProjectTask::ExportPng(ExportPngTask {
        export: export(),
        ppi: PixelsPerInch { text: "0".to_owned(), too_small },
        fill: fill.map(str::to_owned),
    })
}

fn svg() -> ProjectTask {
    ProjectTask::ExportSvg(ExportSvgTask { export: export() })
}

fn html() -> ProjectTask {
    ProjectTask::ExportHtml(ExportHtmlTask { export: export() })
}

fn query(format: &str, field: Option<&str>, one: bool) -> ProjectTask {
    ProjectTask::Query(QueryTask {
        export: export(),
        format: format.to_owned(),
        output_extension: None,
        selector: "heading".to_owned(),
        field: field.map(str::to_owned),
        one,
    })
}

fn page(width: f64) -> Page {
    Page {
        frame: Frame::soft(Size::new(Abs::pt(width), Abs::pt(10.0))),
        fill: Smart::Auto,
        numbering: None,
        supplement: Content::empty(),
        number: 1,
    }
}

fn pages(widths: &[f64]) -> PagedDocument {
    PagedDocument {
        pages: widths.iter().map(|width| page(*width)).collect(),
        ..PagedDocument::default()
    }
}

fn paged(widths: &[f64]) -> TypstDocument {
    TypstDocument::Paged(Arc::new(pages(widths)))
}

fn web_page(text: &str) -> HtmlDocument {
    let text = HtmlNode::Text(text.into(), Span::detached());
    HtmlDocument {
        root: HtmlElement::new(tag::html).with_children(vec![text]),
        info: Default::default(),
        introspector: Default::default(),
    }
}

fn web(text: &str) -> TypstDocument {
    TypstDocument::Html(Arc::new(web_page(text)))
}

fn failed(err: ExportError) -> RenderState {
    RenderState::Finished(Err(err))
}

fn finished(text: &str) -> RenderState {
    RenderState::Finished(Ok(text.as_bytes().to_vec()))
}

/// The text that the data is made of.
fn text_of(data: Result<Vec<u8>, ExportError>) -> String {
    String::from_utf8(data.unwrap()).unwrap()
}

fn data_of(run: RenderRun) -> String {
    match run.state {
        RenderState::Finished(data) => text_of(data),
        _ => panic!("not finished"),
    }
}

#[test]
fn kinds_of_documents() {
    assert_eq!(paged(&[]).kind(), DocumentKind::Paged);
    assert_eq!(web("").kind(), DocumentKind::Html);
}

#[test]
fn plans_for_pages() {
    let plan_of = |task: ProjectTask| plan(&task, DocumentKind::Paged).unwrap();
    let html = ExportHtmlTask { export: export() };
    let compiled = DocumentSource::Compiled;
    assert_eq!(
        plan_of(ProjectTask::Preview(PreviewTask { when: None })),
        RenderPlan::Nothing
    );
    assert_eq!(plan_of(pdf()), RenderPlan::Pdf(compiled));
    assert_eq!(plan_of(query("json", None, false)), RenderPlan::Query);
    assert_eq!(
        plan_of(ProjectTask::ExportHtml(html.clone())),
        RenderPlan::Html(DocumentSource::ExtraCompile)
    );
    assert_eq!(plan_of(ProjectTask::ExportSvgHtml(html)), RenderPlan::SvgHtml(compiled));
    assert_eq!(
        plan_of(ProjectTask::ExportText(ExportTextTask { export: export() })),
        RenderPlan::Text
    );
    assert_eq!(
        plan_of(ProjectTask::ExportMd(ExportMarkdownTask {
            processor: None,
            assets_path: None,
            export: export(),
        })),
        RenderPlan::Markdown
    );
    assert_eq!(
        plan_of(ProjectTask::ExportTeX(ExportTeXTask {
            processor: None,
            assets_path: None,
            export: export(),
        })),
        RenderPlan::TeX
    );
    assert_eq!(plan_of(svg()), RenderPlan::Svg(compiled));
    assert_eq!(plan_of(png(false, None)), RenderPlan::Png(compiled, Color::White));
    assert_eq!(plan_of(png(false, Some("red"))), RenderPlan::Png(compiled, Color::Red));
}

#[test]
fn plans_for_a_web_page() {
    let html = ProjectTask::ExportHtml(ExportHtmlTask { export: export() });
    assert_eq!(
        plan(&html, DocumentKind::Html),
        Ok(RenderPlan::Html(DocumentSource::Compiled))
    );
    assert_eq!(
        plan(&pdf(), DocumentKind::Html),
        Ok(RenderPlan::Pdf(DocumentSource::ExtraCompile))
    );
    assert_eq!(
        document_source(DocumentKind::Html, DocumentKind::Html),
        DocumentSource::Compiled
    );
}

#[test]
fn plans_for_png_may_fail() {
    let err = plan(&png(true, Some("nonsense")), DocumentKind::Paged).unwrap_err();
    assert_eq!(err, ExportError::InvalidPpi("0".to_owned()));
    assert_eq!(err.message(), "invalid ppi: 0");
    let err = plan(&png(false, Some("nonsense")), DocumentKind::Paged).unwrap_err();
    assert_eq!(
        err,
        ExportError::InvalidFill(ColorError::Invalid("nonsense".to_owned()))
    );
    assert_eq!(err.message(), "invalid fill (invalid color: nonsense)");
}

#[test]
fn extra_compilations() {
    let good: Result<u8, Vec<String>> = Ok(1);
    assert_eq!(extra_compile_for_export(good), Ok(1));
    let silent: Result<u8, Vec<String>> = Err(vec![]);
    let err = extra_compile_for_export(silent).unwrap_err();
    assert_eq!(err.message(), "failed to compile: internal error");
    let bad: Result<u8, Vec<String>> = Err(vec!["first".to_owned(), "second".to_owned()]);
    let err = extra_compile_for_export(bad).unwrap_err();
    assert_eq!(err.message(), "failed to compile: first");
}

#[test]
fn a_preview_gives_no_data() {
    let task = ProjectTask::Preview(PreviewTask { when: None });
    let run = RenderRun::begin(&task, paged(&[]));
    assert_eq!(run.state, RenderState::Finished(Ok(vec![])));
}

#[test]
fn pdf_of_a_web_page() {
    let mut run = RenderRun::begin(&pdf(), web("a"));
    let plan = RenderPlan::Pdf(DocumentSource::ExtraCompile);
    assert_eq!(run.state, RenderState::Compiling(plan, None));
    run.advance(RenderAnswer::Compiled(Ok(paged(&[1.0]))));
    assert_eq!(run.state, RenderState::Producing(Production::Pdf));
    assert_eq!(run.document.kind(), DocumentKind::Paged);
    run.advance(RenderAnswer::Produced(Ok(vec![1])));
    assert_eq!(run.state, RenderState::Finished(Ok(vec![1])));

    let mut run = RenderRun::begin(&pdf(), web("a"));
    run.advance(RenderAnswer::Compiled(Err(vec!["typo".to_owned()])));
    assert_eq!(run.state, failed(ExportError::ExtraCompile("typo".to_owned())));
}

#[test]
fn html_is_made_at_once() {
    let text = "<!DOCTYPE html>\n<html>a&lt;b</html>\n";
    assert_eq!(text_of(export_html(&web_page("a<b"))), text);
    let run = RenderRun::begin(&html(), web("a<b"));
    assert_eq!(run.state, finished(text));

    let mut run = RenderRun::begin(&html(), paged(&[]));
    let plan = RenderPlan::Html(DocumentSource::ExtraCompile);
    assert_eq!(run.state, RenderState::Compiling(plan, None));
    run.advance(RenderAnswer::Compiled(Ok(web("a<b"))));
    assert_eq!(run.state, finished(text));
}

#[test]
fn html_may_fail() {
    let run = RenderRun::begin(&html(), web("\u{1}"));
    match run.state {
        RenderState::Finished(Err(ExportError::Html(err))) => {
            assert!(err.starts_with("export error: "));
            assert!(err.contains("cannot be encoded in HTML"));
            assert_eq!(ExportError::Html(err).message(), "failed to export to html");
        }
        _ => panic!("no error"),
    }
    assert_eq!(html_data(Ok("t".to_owned())), Ok(vec![116]));
    assert_eq!(
        html_data(Err("e".to_owned())),
        Err(ExportError::Html("export error: e".to_owned()))
    );
}

#[test]
fn the_first_page_as_svg() {
    let document = pages(&[21.0, 42.0]);
    let text = text_of(export_svg(&document, (true, Abs::zero())));
    assert!(text.starts_with("<svg class=\"typst-doc\" viewBox=\"0 0 21 10\""));
    assert_eq!(first_page(&document).unwrap().frame.width(), Abs::pt(21.0));

    let mut run = RenderRun::begin(&svg(), paged(&[21.0, 42.0]));
    assert_eq!(
        run.state,
        RenderState::Selecting(RenderPlan::Svg(DocumentSource::Compiled))
    );
    run.advance(RenderAnswer::Selected(Ok((true, Abs::pt(5.0)))));
    assert_eq!(data_of(run), text);

    let mut run = RenderRun::begin(&svg(), paged(&[]));
    run.advance(RenderAnswer::Selected(Ok((true, Abs::pt(5.0)))));
    assert_eq!(run.state, failed(ExportError::NoFirstPage));
    assert_eq!(ExportError::NoFirstPage.message(), "no first page to export");
}

#[test]
fn all_pages_as_svg() {
    let mut run = RenderRun::begin(&svg(), web("a"));
    run.advance(RenderAnswer::Selected(Ok((false, Abs::pt(5.0)))));
    run.advance(RenderAnswer::Compiled(Ok(paged(&[21.0, 42.0]))));
    // The wider page and the gaps around it, both pages and the gaps around them.
    assert!(data_of(run).starts_with("<svg class=\"typst-doc\" viewBox=\"0 0 52 35\""));
}

#[test]
fn pages_as_png() {
    let mut run = RenderRun::begin(&png(false, Some("#000")), web("a"));
    run.advance(RenderAnswer::Selected(Ok((false, Abs::pt(7.0)))));
    run.advance(RenderAnswer::Compiled(Ok(paged(&[]))));
    assert_eq!(
        run.state,
        RenderState::Producing(Production::PngMerged(Abs::pt(7.0), Color::Rgba(0, 0, 0, 255)))
    );
    run.advance(RenderAnswer::Produced(Err("too large".to_owned())));
    assert_eq!(run.state, failed(ExportError::EncodePng("too large".to_owned())));

    let mut run = RenderRun::begin(&png(false, None), paged(&[1.0]));
    run.advance(RenderAnswer::Selected(Ok((true, Abs::zero()))));
    assert_eq!(run.state, RenderState::Producing(Production::PngFirst));

    let mut run = RenderRun::begin(&png(false, None), paged(&[]));
    run.advance(RenderAnswer::Selected(Ok((true, Abs::zero()))));
    assert_eq!(run.state, failed(ExportError::NoFirstPage));
}

#[test]
fn an_impossible_task_fails_at_once() {
    let run = RenderRun::begin(&png(true, None), paged(&[1.0]));
    assert_eq!(run.state, failed(ExportError::InvalidPpi("0".to_owned())));
}

#[test]
fn pictures_of_impossible_pages() {
    let mut run = RenderRun::begin(&svg(), web("a"));
    run.advance(RenderAnswer::Selected(Err("bad range".to_owned())));
    assert_eq!(run.state, failed(ExportError::PageSelection("bad range".to_owned())));
}

#[test]
fn what_could_not_be_made_has_its_own_error() {
    let text = ProjectTask::ExportText(ExportTextTask { export: export() });
    let md = ProjectTask::ExportMd(ExportMarkdownTask {
        processor: None,
        assets_path: None,
        export: export(),
    });
    let tex = ProjectTask::ExportTeX(ExportTeXTask {
        processor: None,
        assets_path: None,
        export: export(),
    });
    let e = || "e".to_owned();
    let cases = [
        (pdf(), ExportError::Pdf(e()), "e"),
        (text, ExportError::Text(e()), "e"),
        (md, ExportError::Markdown(e()), "failed to convert to markdown: e"),
        (tex, ExportError::Latex(e()), "failed to convert to latex: e"),
    ];
    for (task, err, message) in cases {
        let mut run = RenderRun::begin(&task, paged(&[]));
        run.advance(RenderAnswer::Produced(Err(e())));
        assert_eq!(err.message(), message);
        assert_eq!(run.state, failed(err));
    }
}

#[test]
fn a_query_writes_the_values_of_elements() {
    let mut run = RenderRun::begin(&query("json", None, false), web("a"));
    assert_eq!(run.state, RenderState::Retrieving);
    let elements = vec![TextElem::packed("a"), TextElem::packed("b")];
    run.advance(RenderAnswer::Retrieved(Ok(elements)));
    assert_eq!(
        run.state,
        finished("[{\"func\":\"text\",\"text\":\"a\"},{\"func\":\"text\",\"text\":\"b\"}]")
    );
}

#[test]
fn a_query_for_one_field() {
    let mut run = RenderRun::begin(&query("txt", Some("text"), true), paged(&[]));
    run.advance(RenderAnswer::Retrieved(Ok(vec![TextElem::packed("a")])));
    assert_eq!(run.state, finished("a"));

    let mut run = RenderRun::begin(&query("txt", None, true), paged(&[]));
    run.advance(RenderAnswer::Retrieved(Ok(vec![TextElem::packed("a")])));
    let err = SerializeError::ExpectedString {
        format: "txt".to_owned(),
        kind: "object".to_owned(),
    };
    assert_eq!(err.message(), "expected a string value for format: txt, got object");
    assert_eq!(run.state, failed(ExportError::Serialize(err)));
}

#[test]
fn a_query_may_fail_before_anything_is_written() {
    let mut run = RenderRun::begin(&query("json", None, false), paged(&[]));
    run.advance(RenderAnswer::Retrieved(Err("bad selector".to_owned())));
    assert_eq!(run.state, failed(ExportError::Retrieve("bad selector".to_owned())));

    let mut run = RenderRun::begin(&query("toml", None, false), paged(&[]));
    run.advance(RenderAnswer::Retrieved(Ok(vec![])));
    let err = SerializeError::Unsupported("toml".to_owned());
    assert_eq!(err.message(), "unsupported format for query: toml");
    assert_eq!(run.state, failed(ExportError::Serialize(err)));

    let mut run = RenderRun::begin(&query("toml", None, true), paged(&[]));
    run.advance(RenderAnswer::Retrieved(Ok(vec![])));
    assert_eq!(run.state, failed(ExportError::NotExactlyOne(0)));

    let mut run = RenderRun::begin(&query("toml", Some("depth"), true), paged(&[]));
    run.advance(RenderAnswer::Retrieved(Ok(vec![TextElem::packed("a")])));
    assert_eq!(run.state, failed(ExportError::NoSuchField));
}

#[test]
fn messages_of_other_errors() {
    let e = || "e".to_owned();
    let cases = [
        (ExportError::CurrentDirectory(e()), "failed to get current directory"),
        (ExportError::CreateDirectory(e()), "failed to create directory"),
        (ExportError::CompilationErrors, "cannot export with compilation errors"),
        (ExportError::PageSelection(e()), "e"),
        (ExportError::Retrieve(e()), "failed to retrieve: e"),
        (ExportError::Serialize(SerializeError::Json(e())), "serialize to json"),
        (ExportError::EncodePng(e()), "failed to encode PNG (e)"),
        (ExportError::Interrupted(e()), "e"),
        (ExportError::Export(e()), "failed to export"),
        (ExportError::Write(e()), "e"),
    ];
    for (err, message) in cases {
        assert_eq!(err.message(), message);
    }
}
