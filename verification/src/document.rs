//! Compiled documents, and the data that is made of them without asking anyone.

use std::sync::Arc;
use vstd::prelude::*;
use vstd::string::*;
use vstd::utf8::encode_utf8;

use crate::drawing::{
    are_plain_pages, check_page, check_pages, is_plain_html, is_plain_page,
};
use crate::error::ExportError;
use crate::export::{CompiledDocument, DocumentKind};
use crate::query::field_view;

verus! {

/// A document of pages.
#[verifier::external_type_specification]
#[verifier::external_body]
pub struct ExPagedDocument(typst::layout::PagedDocument);

/// A page.
#[verifier::external_type_specification]
#[verifier::external_body]
pub struct ExPage(typst::layout::Page);

/// An absolute length.
#[verifier::external_type_specification]
#[verifier::external_body]
pub struct ExAbs(typst::layout::Abs);

/// A web page.
#[verifier::external_type_specification]
#[verifier::external_body]
pub struct ExHtmlDocument(typst::html::HtmlDocument);

/// A compiled document.
#[derive(Debug, Clone)]
pub enum TypstDocument {
    /// A document of pages.
    Paged(Arc<typst::layout::PagedDocument>),
    /// A web page.
    Html(Arc<typst::html::HtmlDocument>),
}

/// Calls `Arc::clone`, which gives another pointer to the same value.
#[verifier::external_body]
pub(crate) fn share<T>(pointer: &Arc<T>) -> (copy: Arc<T>)
    ensures
        copy == *pointer,
{
    Arc::clone(pointer)
}

/// The title of a document of pages, if it has one.
pub uninterp spec fn paged_title(document: typst::layout::PagedDocument) -> Option<Seq<char>>;

/// Gives the field `info.title` of a `typst::layout::PagedDocument`: its title, if it has one.
#[verifier::external_body]
fn read_paged_title(document: &typst::layout::PagedDocument) -> (title: Option<String>)
    ensures
        field_view(title) == paged_title(*document),
{
    document.info.title.as_ref().map(|title| title.to_string())
}

/// The title of a web page, if it has one.
pub uninterp spec fn html_title(document: typst::html::HtmlDocument) -> Option<Seq<char>>;

/// Gives the field `info.title` of a `typst::html::HtmlDocument`: its title, if it has one.
#[verifier::external_body]
fn read_html_title(document: &typst::html::HtmlDocument) -> (title: Option<String>)
    ensures
        field_view(title) == html_title(*document),
{
    document.info.title.as_ref().map(|title| title.to_string())
}

impl TypstDocument {
    /// The kind of the document.
    pub open spec fn kind_spec(self) -> DocumentKind {
        match self {
            TypstDocument::Paged(_) => DocumentKind::Paged,
            TypstDocument::Html(_) => DocumentKind::Html,
        }
    }

    /// Tells the kind of the document.
    pub fn kind(&self) -> (kind: DocumentKind)
        ensures
            kind == self.kind_spec(),
    {
        match self {
            TypstDocument::Paged(_) => DocumentKind::Paged,
            TypstDocument::Html(_) => DocumentKind::Html,
        }
    }

    /// The title of the document, if it has one.
    pub open spec fn title_spec(self) -> Option<Seq<char>> {
        match self {
            TypstDocument::Paged(document) => paged_title(*document),
            TypstDocument::Html(document) => html_title(*document),
        }
    }

    /// Gives the title of the document, if it has one.
    pub fn title(&self) -> (title: Option<String>)
        ensures
            field_view(title) == self.title_spec(),
    {
        match self {
            TypstDocument::Paged(document) => read_paged_title(document),
            TypstDocument::Html(document) => read_html_title(document),
        }
    }

    /// Tells what the document means for exports.
    pub fn summary(&self) -> (summary: CompiledDocument)
        ensures
            summary == (CompiledDocument {
                kind: self.kind_spec(),
                has_title: self.title_spec() is Some,
            }),
    {
        CompiledDocument { kind: self.kind(), has_title: self.title().is_some() }
    }

    /// Gives the same document once more.
    pub(crate) fn share(&self) -> (copy: Self)
        ensures
            copy == *self,
    {
        match self {
            TypstDocument::Paged(document) => TypstDocument::Paged(share(document)),
            TypstDocument::Html(document) => TypstDocument::Html(share(document)),
        }
    }
}

/// The pages of a document.
pub uninterp spec fn document_pages(document: typst::layout::PagedDocument) -> Seq<
    typst::layout::Page,
>;

/// Gives the field `pages` of a `typst::layout::PagedDocument`: its finished pages.
#[verifier::external_body]
fn pages(document: &typst::layout::PagedDocument) -> (pages: &Vec<typst::layout::Page>)
    ensures
        pages@ == document_pages(*document),
{
    &document.pages
}

/// Whether `typst_svg::svg` can write a text for a page.
///
/// How it calls the definitions inside depends on the machine, so there may be several such texts.
pub uninterp spec fn is_svg_of(page: typst::layout::Page, text: Seq<char>) -> bool;

/// Calls `typst_svg::svg`.
///
/// The result is a text that this function can write for the page. On a plain page it does not
/// panic: it inverts transforms and samples stops for gradients and tilings only, reads markup for
/// image tables only, and makes image files for images without one only.
#[verifier::external_body]
fn write_svg(page: &typst::layout::Page) -> (text: String)
    requires
        is_plain_page(*page),
    ensures
        is_svg_of(*page, text@),
{
    typst_svg::svg(page)
}

/// Whether `typst_svg::svg_merged` can write a text for a document, with gaps between its pages.
///
/// How it calls the definitions inside depends on the machine, so there may be several such texts.
pub uninterp spec fn is_merged_svg_of(
    document: typst::layout::PagedDocument,
    gap: typst::layout::Abs,
    text: Seq<char>,
) -> bool;

/// Calls `typst_svg::svg_merged`.
///
/// The result is a text that this function can write for the document and the gap. On plain pages
/// it does not panic.
#[verifier::external_body]
fn write_merged_svg(document: &typst::layout::PagedDocument, gap: typst::layout::Abs) -> (text:
    String)
    requires
        are_plain_pages(document_pages(*document)),
    ensures
        is_merged_svg_of(*document, gap, text@),
{
    typst_svg::svg_merged(document, gap)
}

/// Whether `typst_html::html` can come out so for a web page: with a text, or with errors in the
/// form for developers.
///
/// Pictures inside the page are SVG, so there may be several texts.
pub uninterp spec fn is_html_of(
    document: typst::html::HtmlDocument,
    outcome: Result<Seq<char>, Seq<char>>,
) -> bool;

/// What a text or the text of an error says.
pub open spec fn outcome_view(outcome: Result<String, String>) -> Result<Seq<char>, Seq<char>> {
    match outcome {
        Ok(text) => Ok(text@),
        Err(err) => Err(err@),
    }
}

/// Calls `typst_html::html`.
///
/// The result is one in which this function can come out for the web page. Where the drawings in
/// it, which are written as SVG, are plain, it does not panic.
#[verifier::external_body]
fn write_html(document: &typst::html::HtmlDocument) -> (outcome: Result<String, String>)
    requires
        is_plain_html(*document),
    ensures
        is_html_of(*document, outcome_view(outcome)),
{
    typst_html::html(document).map_err(|err| format!("{err:?}"))
}

/// Whether data is a text in UTF-8.
pub open spec fn is_text_data(text: Seq<char>, data: Result<Vec<u8>, ExportError>) -> bool {
    data matches Ok(bytes) && bytes@ == encode_utf8(text)
}

/// Whether data is what comes of an attempt to write HTML: the text in UTF-8, or the error.
pub open spec fn is_html_data(
    outcome: Result<Seq<char>, Seq<char>>,
    data: Result<Vec<u8>, ExportError>,
) -> bool {
    match outcome {
        Ok(text) => is_text_data(text, data),
        Err(err) => data matches Err(ExportError::Html(inner)) && inner@ == "export error: "@ + err,
    }
}

/// Whether data is HTML of a web page, or the error for one that cannot be written.
pub open spec fn is_html_export(
    document: typst::html::HtmlDocument,
    data: Result<Vec<u8>, ExportError>,
) -> bool {
    exists|outcome: Result<Seq<char>, Seq<char>>| #[trigger]
        is_html_of(document, outcome) && is_html_data(outcome, data)
}

/// Whether data is SVG of the pages that are asked for: of the first, which has to be there, or of
/// all of them with gaps.
pub open spec fn is_svg_export(
    document: typst::layout::PagedDocument,
    selection: (bool, typst::layout::Abs),
    data: Result<Vec<u8>, ExportError>,
) -> bool {
    if !selection.0 {
        exists|text: Seq<char>| #[trigger]
            is_merged_svg_of(document, selection.1, text) && is_text_data(text, data)
    } else if document_pages(document).len() == 0 {
        data == Err::<Vec<u8>, ExportError>(ExportError::NoFirstPage)
    } else {
        exists|text: Seq<char>| #[trigger]
            is_svg_of(document_pages(document)[0], text) && is_text_data(text, data)
    }
}

/// Makes data of a text, or the error, when HTML was written or not.
pub fn html_data(outcome: Result<String, String>) -> (data: Result<Vec<u8>, ExportError>)
    ensures
        is_html_data(outcome_view(outcome), data),
{
    match outcome {
        Ok(text) => Ok(text.as_str().as_bytes_vec()),
        Err(err) => {
            let mut inner = "export error: ".to_owned();
            inner.append(err.as_str());
            Err(ExportError::Html(inner))
        },
    }
}

/// Makes HTML of a web page whose drawings are plain.
pub fn export_html(document: &typst::html::HtmlDocument) -> (data: Result<Vec<u8>, ExportError>)
    requires
        is_plain_html(*document),
    ensures
        is_html_export(*document, data),
{
    let outcome = write_html(document);
    html_data(outcome)
}

/// Gives the first page of a document, if it has pages.
pub fn first_page(document: &typst::layout::PagedDocument) -> (page: Result<
    &typst::layout::Page,
    ExportError,
>)
    ensures
        match page {
            Ok(page) => {
                &&& document_pages(*document).len() > 0
                &&& *page == document_pages(*document)[0]
            },
            Err(err) => document_pages(*document).len() == 0 && err == ExportError::NoFirstPage,
        },
{
    let list = pages(document);
    if list.len() == 0 {
        Err(ExportError::NoFirstPage)
    } else {
        Ok(&list[0])
    }
}

/// Whether the pages that are asked for are plain: the first, if there is one, or all of them.
pub open spec fn is_plain_selection(
    document: typst::layout::PagedDocument,
    is_first: bool,
) -> bool {
    if is_first {
        document_pages(document).len() > 0 ==> is_plain_page(document_pages(document)[0])
    } else {
        are_plain_pages(document_pages(document))
    }
}

/// Finds out whether the pages that are asked for are plain.
pub fn check_selection(document: &typst::layout::PagedDocument, is_first: bool) -> (yes: bool)
    ensures
        yes == is_plain_selection(*document, is_first),
{
    if is_first {
        match first_page(document) {
            Ok(page) => check_page(page),
            Err(_) => true,
        }
    } else {
        check_pages(pages(document))
    }
}

/// Makes SVG of the pages that are asked for, which must be plain.
pub fn export_svg(
    document: &typst::layout::PagedDocument,
    selection: (bool, typst::layout::Abs),
) -> (data: Result<Vec<u8>, ExportError>)
    requires
        is_plain_selection(*document, selection.0),
    ensures
        is_svg_export(*document, selection, data),
{
    let (is_first, gap) = selection;
    if is_first {
        match first_page(document) {
            Ok(page) => {
                let text = write_svg(page);
                Ok(text.as_str().as_bytes_vec())
            },
            Err(err) => Err(err),
        }
    } else {
        let text = write_merged_svg(document, gap);
        Ok(text.as_str().as_bytes_vec())
    }
}

/// Where all pages are asked for, SVG is made of the whole document with the gap, and it never
/// fails. Where the first page alone is asked for, SVG is made of that page, and where there is
/// none the error tells so. In either case the data is the text in UTF-8.
pub proof fn lemma_svg_export(
    document: typst::layout::PagedDocument,
    selection: (bool, typst::layout::Abs),
    data: Result<Vec<u8>, ExportError>,
)
    requires
        is_svg_export(document, selection, data),
    ensures
        !selection.0 ==> {
            &&& data matches Ok(bytes)
            &&& exists|text: Seq<char>| #[trigger]
                is_merged_svg_of(document, selection.1, text) && bytes@ == encode_utf8(text)
        },
        selection.0 && document_pages(document).len() > 0 ==> {
            &&& data matches Ok(bytes)
            &&& exists|text: Seq<char>| #[trigger]
                is_svg_of(document_pages(document)[0], text) && bytes@ == encode_utf8(text)
        },
        selection.0 && document_pages(document).len() == 0 ==> data == Err::<Vec<u8>, ExportError>(
            ExportError::NoFirstPage,
        ),
{
    if !selection.0 {
        let text = choose|text: Seq<char>| #[trigger]
            is_merged_svg_of(document, selection.1, text) && is_text_data(text, data);
        assert(is_merged_svg_of(document, selection.1, text));
    } else if document_pages(document).len() > 0 {
        let text = choose|text: Seq<char>| #[trigger]
            is_svg_of(document_pages(document)[0], text) && is_text_data(text, data);
        assert(is_svg_of(document_pages(document)[0], text));
    }
}

/// HTML is the text that was written for the web page, in UTF-8, or the error with what went wrong.
pub proof fn lemma_html_export(
    document: typst::html::HtmlDocument,
    data: Result<Vec<u8>, ExportError>,
)
    requires
        is_html_export(document, data),
    ensures
        data matches Ok(bytes) ==> exists|text: Seq<char>| #[trigger]
            is_html_of(document, Ok(text)) && bytes@ == encode_utf8(text),
        data matches Err(err) ==> {
            &&& err matches ExportError::Html(inner)
            &&& exists|reason: Seq<char>| #[trigger]
                is_html_of(document, Err(reason)) && inner@ == "export error: "@ + reason
        },
{
    let outcome = choose|outcome: Result<Seq<char>, Seq<char>>| #[trigger]
        is_html_of(document, outcome) && is_html_data(outcome, data);
    match outcome {
        Ok(text) => {
            assert(is_html_of(document, Ok(text)));
        },
        Err(reason) => {
            assert(is_html_of(document, Err(reason)));
        },
    }
}

/// A document of pages and a web page are told apart, and each has the title that it holds.
pub proof fn lemma_document(document: TypstDocument)
    ensures
        document matches TypstDocument::Paged(paged) ==> {
            &&& document.kind_spec() == DocumentKind::Paged
            &&& document.title_spec() == paged_title(*paged)
        },
        document matches TypstDocument::Html(html) ==> {
            &&& document.kind_spec() == DocumentKind::Html
            &&& document.title_spec() == html_title(*html)
        },
{
}

/// What comes of an attempt to write HTML is data in UTF-8, or the error with what went wrong.
pub proof fn lemma_html_data(outcome: Result<String, String>, data: Result<Vec<u8>, ExportError>)
    requires
        is_html_data(outcome_view(outcome), data),
    ensures
        outcome matches Ok(text) ==> (data matches Ok(bytes) && bytes@ == encode_utf8(text@)),
        outcome matches Err(reason) ==> {
            &&& data matches Err(ExportError::Html(inner))
            &&& inner@ == "export error: "@ + reason@
        },
{
}

/// The pages that are asked for are plain if the first is, or there is none, or if all are.
pub proof fn lemma_plain_selection(document: typst::layout::PagedDocument)
    ensures
        is_plain_selection(document, true) <==> document_pages(document).len() == 0
            || is_plain_page(document_pages(document)[0]),
        is_plain_selection(document, false) <==> forall|i: int|
            0 <= i < document_pages(document).len() ==> is_plain_page(
                #[trigger] document_pages(document)[i],
            ),
{
}

} // verus!
