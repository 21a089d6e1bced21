//! What can go wrong in an export.

use std::path::PathBuf;
use vstd::prelude::*;
use vstd::string::*;

use crate::color::ColorError;
use crate::path::{show, shown_path};
use crate::serialize::SerializeError;
use crate::text::{decimal, decimal_spec};

verus! {

/// Why an export failed.
///
/// Where something else failed first, its own message is kept.
#[derive(Debug, PartialEq, Eq)]
pub enum ExportError {
    /// The current directory is unknown.
    CurrentDirectory(String),
    /// The path to export to is relative even inside the current directory.
    RelativeOutput { task: String, path: PathBuf },
    /// The path to export to is a directory.
    DirectoryOutput { task: String, path: PathBuf },
    /// A directory could not be created.
    CreateDirectory(String),
    /// There is no document.
    CompilationErrors,
    /// The compiler failed without saying why.
    ExtraCompileInternal,
    /// The document could not be compiled for another target.
    ExtraCompile(String),
    /// The document has no pages.
    NoFirstPage,
    /// The pages to export are not given as they should be.
    PageSelection(String),
    /// Elements could not be taken from the document.
    Retrieve(String),
    /// So many elements were found where there should be one.
    NotExactlyOne(usize),
    /// The element does not have the field.
    NoSuchField,
    /// Elements could not be written.
    Serialize(SerializeError),
    /// PDF could not be made.
    Pdf(String),
    /// HTML could not be made.
    Html(String),
    /// Plain text could not be made.
    Text(String),
    /// Markdown could not be made.
    Markdown(String),
    /// TeX could not be made.
    Latex(String),
    /// The resolution is too small.
    InvalidPpi(String),
    /// The color of the background is none.
    InvalidFill(ColorError),
    /// PNG could not be made.
    EncodePng(String),
    /// The work was broken off.
    Interrupted(String),
    /// The file was not written because the work was broken off.
    Export(String),
    /// The file could not be written.
    Write(String),
}

impl ExportError {
    /// The message of the error.
    pub open spec fn message_spec(self) -> Seq<char> {
        match self {
            ExportError::CurrentDirectory(_) => "failed to get current directory"@,
            ExportError::RelativeOutput { task, path } => {
                "ExportTask("@ + task@ + "): output path is relative: "@ + shown_path(path)
            },
            ExportError::DirectoryOutput { task, path } => {
                "ExportTask("@ + task@ + "): output path is a directory: "@ + shown_path(path)
            },
            ExportError::CreateDirectory(_) => "failed to create directory"@,
            ExportError::CompilationErrors => "cannot export with compilation errors"@,
            ExportError::ExtraCompileInternal => "failed to compile: internal error"@,
            ExportError::ExtraCompile(message) => "failed to compile: "@ + message@,
            ExportError::NoFirstPage => "no first page to export"@,
            ExportError::PageSelection(err) => err@,
            ExportError::Retrieve(err) => "failed to retrieve: "@ + err@,
            ExportError::NotExactlyOne(found) => {
                "expected exactly one element, found "@ + decimal_spec(found as nat)
            },
            ExportError::NoSuchField => "no such field found for element"@,
            ExportError::Serialize(err) => err@.message(),
            ExportError::Pdf(err) => err@,
            ExportError::Html(_) => "failed to export to html"@,
            ExportError::Text(err) => err@,
            ExportError::Markdown(err) => "failed to convert to markdown: "@ + err@,
            ExportError::Latex(err) => "failed to convert to latex: "@ + err@,
            ExportError::InvalidPpi(ppi) => "invalid ppi: "@ + ppi@,
            ExportError::InvalidFill(err) => "invalid fill ("@ + err@.message() + ")"@,
            ExportError::EncodePng(err) => "failed to encode PNG ("@ + err@ + ")"@,
            ExportError::Interrupted(err) => err@,
            ExportError::Export(_) => "failed to export"@,
            ExportError::Write(err) => err@,
        }
    }

    /// Writes the message of the error.
    pub fn message(&self) -> (message: String)
        ensures
            message@ == self.message_spec(),
    {
        match self {
            ExportError::CurrentDirectory(_) => "failed to get current directory".to_owned(),
            ExportError::RelativeOutput { task, path } => sentence(
                "ExportTask(",
                task.as_str(),
                "): output path is relative: ",
                show(path).as_str(),
            ),
            ExportError::DirectoryOutput { task, path } => sentence(
                "ExportTask(",
                task.as_str(),
                "): output path is a directory: ",
                show(path).as_str(),
            ),
            ExportError::CreateDirectory(_) => "failed to create directory".to_owned(),
            ExportError::CompilationErrors => "cannot export with compilation errors".to_owned(),
            ExportError::ExtraCompileInternal => "failed to compile: internal error".to_owned(),
            ExportError::ExtraCompile(message) => phrase("failed to compile: ", message.as_str()),
            ExportError::NoFirstPage => "no first page to export".to_owned(),
            ExportError::PageSelection(err) => err.clone(),
            ExportError::Retrieve(err) => phrase("failed to retrieve: ", err.as_str()),
            ExportError::NotExactlyOne(found) => phrase(
                "expected exactly one element, found ",
                decimal(*found).as_str(),
            ),
            ExportError::NoSuchField => "no such field found for element".to_owned(),
            ExportError::Serialize(err) => err.message(),
            ExportError::Pdf(err) => err.clone(),
            ExportError::Html(_) => "failed to export to html".to_owned(),
            ExportError::Text(err) => err.clone(),
            ExportError::Markdown(err) => phrase("failed to convert to markdown: ", err.as_str()),
            ExportError::Latex(err) => phrase("failed to convert to latex: ", err.as_str()),
            ExportError::InvalidPpi(ppi) => phrase("invalid ppi: ", ppi.as_str()),
            ExportError::InvalidFill(err) => enclosed("invalid fill (", err.message().as_str()),
            ExportError::EncodePng(err) => enclosed("failed to encode PNG (", err.as_str()),
            ExportError::Interrupted(err) => err.clone(),
            ExportError::Export(_) => "failed to export".to_owned(),
            ExportError::Write(err) => err.clone(),
        }
    }
}

fn phrase(start: &str, end: &str) -> (text: String)
    ensures
        text@ == start@ + end@,
{
    let mut text = start.to_owned();
    text.append(end);
    text
}

fn enclosed(start: &str, inner: &str) -> (text: String)
    ensures
        text@ == start@ + inner@ + ")"@,
{
    let mut text = phrase(start, inner);
    text.append(")");
    text
}

fn sentence(first: &str, second: &str, third: &str, fourth: &str) -> (text: String)
    ensures
        text@ == first@ + second@ + third@ + fourth@,
{
    let mut text = phrase(first, second);
    text.append(third);
    text.append(fourth);
    text
}

/// What is told of every error. Where something outside gives the reason, the message is that
/// reason, or ends with it, or leaves it out.
pub proof fn lemma_messages(err: ExportError)
    ensures
        err is CompilationErrors ==> err.message_spec() == "cannot export with compilation errors"@,
        err is ExtraCompileInternal ==> err.message_spec() == "failed to compile: internal error"@,
        err is NoFirstPage ==> err.message_spec() == "no first page to export"@,
        err is NoSuchField ==> err.message_spec() == "no such field found for element"@,
        err is CurrentDirectory ==> err.message_spec() == "failed to get current directory"@,
        err is CreateDirectory ==> err.message_spec() == "failed to create directory"@,
        err is Html ==> err.message_spec() == "failed to export to html"@,
        err is Export ==> err.message_spec() == "failed to export"@,
        err matches ExportError::PageSelection(reason) ==> err.message_spec() == reason@,
        err matches ExportError::Pdf(reason) ==> err.message_spec() == reason@,
        err matches ExportError::Text(reason) ==> err.message_spec() == reason@,
        err matches ExportError::Interrupted(reason) ==> err.message_spec() == reason@,
        err matches ExportError::Write(reason) ==> err.message_spec() == reason@,
        err matches ExportError::ExtraCompile(reason) ==> err.message_spec()
            == "failed to compile: "@ + reason@,
        err matches ExportError::Retrieve(reason) ==> err.message_spec() == "failed to retrieve: "@
            + reason@,
        err matches ExportError::Markdown(reason) ==> err.message_spec()
            == "failed to convert to markdown: "@ + reason@,
        err matches ExportError::Latex(reason) ==> err.message_spec()
            == "failed to convert to latex: "@ + reason@,
        err matches ExportError::InvalidPpi(reason) ==> err.message_spec() == "invalid ppi: "@
            + reason@,
        err matches ExportError::EncodePng(reason) ==> err.message_spec()
            == "failed to encode PNG ("@ + reason@ + ")"@,
        err matches ExportError::InvalidFill(inner) ==> err.message_spec() == "invalid fill ("@
            + inner@.message() + ")"@,
        err matches ExportError::Serialize(inner) ==> err.message_spec() == inner@.message(),
        err matches ExportError::NotExactlyOne(found) ==> err.message_spec()
            == "expected exactly one element, found "@ + decimal_spec(found as nat),
        err matches ExportError::RelativeOutput { task, path } ==> err.message_spec()
            == "ExportTask("@ + task@ + "): output path is relative: "@ + shown_path(path),
        err matches ExportError::DirectoryOutput { task, path } ==> err.message_spec()
            == "ExportTask("@ + task@ + "): output path is a directory: "@ + shown_path(path),
{
}

} // verus!
