//! Paths of files.

use reflexo::path::PathClean;
use std::path::PathBuf;
use vstd::prelude::*;
use vstd::string::*;

verus! {

/// A path of the machine.
#[verifier::external_type_specification]
#[verifier::external_body]
pub struct ExPathBuf(PathBuf);

/// Whether a path is absolute.
pub uninterp spec fn is_absolute_path(path: PathBuf) -> bool;

/// Calls `is_relative` of a `std::path::Path`: a path is relative if it is not absolute.
#[verifier::external_body]
pub(crate) fn is_relative(path: &PathBuf) -> (yes: bool)
    ensures
        yes == !is_absolute_path(*path),
{
    path.is_relative()
}

/// A path inside a directory.
pub uninterp spec fn joined_path(directory: PathBuf, path: PathBuf) -> PathBuf;

/// Calls `join` of a `std::path::Path`.
///
/// The result is a function of the directory and the path.
#[verifier::external_body]
pub(crate) fn join(directory: &PathBuf, path: &PathBuf) -> (joined: PathBuf)
    ensures
        joined == joined_path(*directory, *path),
{
    directory.join(path)
}

/// A path without elements that lead nowhere.
pub uninterp spec fn cleaned_path(path: PathBuf) -> PathBuf;

/// Calls `clean` of `reflexo::path::PathClean`.
///
/// The result is a function of the path.
#[verifier::external_body]
pub(crate) fn clean(path: &PathBuf) -> (cleaned: PathBuf)
    ensures
        cleaned == cleaned_path(*path),
{
    path.clean()
}

/// Whether a text can be an extension on every machine: it holds no character that separates the
/// elements of a path.
pub open spec fn is_extension_spec(text: Seq<char>) -> bool {
    !text.contains('/') && !text.contains('\\')
}

/// Finds out whether a text can be an extension on every machine.
pub fn is_extension(text: &str) -> (yes: bool)
    ensures
        yes == is_extension_spec(text@),
{
    for c in it: text.chars()
        invariant
            it.seq() == text@,
            forall|k: int| 0 <= k < it.index() ==> #[trigger] text@[k] != '/' && text@[k] != '\\',
    {
        if c == '/' || c == '\\' {
            assert(text@.contains(c));
            return false;
        }
    }
    true
}

/// A path with another extension.
pub uninterp spec fn extended_path(path: PathBuf, extension: Seq<char>) -> PathBuf;

/// Calls `with_extension` of a `std::path::Path`.
///
/// The result is a function of the path and the extension. It is like the path but for the
/// extension, so it is absolute if the path is. The call panics on an extension that holds a
/// separator of path elements.
#[verifier::external_body]
pub(crate) fn extend(path: &PathBuf, extension: &str) -> (extended: PathBuf)
    requires
        is_extension_spec(extension@),
    ensures
        extended == extended_path(*path, extension@),
        is_absolute_path(extended) == is_absolute_path(*path),
{
    path.with_extension(extension)
}

/// A path in the form for messages.
pub uninterp spec fn shown_path(path: PathBuf) -> Seq<char>;

/// Formats a `std::path::PathBuf` with its `Debug`.
///
/// The result is a function of the path.
#[verifier::external_body]
pub(crate) fn show(path: &PathBuf) -> (shown: String)
    ensures
        shown@ == shown_path(*path),
{
    format!("{path:?}")
}

/// A path with slashes between its elements.
pub uninterp spec fn slashed_path(path: PathBuf) -> Seq<char>;

/// Calls `reflexo::path::unix_slash`.
///
/// The result is a function of the path.
#[verifier::external_body]
pub(crate) fn slashed(path: &PathBuf) -> (text: String)
    ensures
        text@ == slashed_path(*path),
{
    reflexo::path::unix_slash(path)
}

/// A text can be an extension exactly if no character of it is a slash or a backslash.
pub proof fn lemma_extension(text: Seq<char>)
    ensures
        is_extension_spec(text) <==> forall|i: int|
            0 <= i < text.len() ==> #[trigger] text[i] != '/' && text[i] != '\\',
{
    if is_extension_spec(text) {
        assert forall|i: int| 0 <= i < text.len() implies #[trigger] text[i] != '/' && text[i]
            != '\\' by {
            assert(text.contains(text[i]));
        }
    }
}

} // verus!
