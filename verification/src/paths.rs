//! Paths as tool calls give them: expanding a leading tilde, telling
//! absolute paths from relative ones, and naming a file by a URL.
//!
//! Paths are handled as text. What a path means is left to the standard
//! library and to the `url` and `shellexpand` crates.

use vstd::prelude::*;
use crate::content::ToolError;
use crate::content::ToolErrorView;
use crate::text::str_view;
use crate::text::text_view;

verus! {

/// Whether `Path::is_absolute` holds of the path written `path`.
pub uninterp spec fn path_is_absolute(path: Seq<char>) -> bool;

/// The path that `Path::join` makes of `base` and `path`.
pub uninterp spec fn path_joined(base: Seq<char>, path: Seq<char>) -> Seq<char>;

/// The extension that `Path::extension` finds in `path`, if any.
pub uninterp spec fn path_extension(path: Seq<char>) -> Option<Seq<char>>;

/// The `file:` URL that `Url::from_file_path` makes of `path`, if any.
pub uninterp spec fn file_url(path: Seq<char>) -> Option<Seq<char>>;

/// `input` with a leading tilde replaced by the home directory: a tilde
/// that stands alone or before a slash is replaced where the home directory
/// is known; anything else stays as it is.
pub open spec fn tilde_expanded(input: Seq<char>, home: Option<Seq<char>>) -> Seq<char> {
    if input.len() > 0 && input[0] == '~' && (input.len() == 1 || input[1] == '/') && home is Some {
        home->0 + input.skip(1)
    } else {
        input
    }
}

/// Whether `input` begins with a tilde and a backslash.
pub open spec fn has_tilde_backslash(input: Seq<char>) -> bool {
    input.len() >= 2 && input[0] == '~' && input[1] == '\\'
}

/// `Path::is_absolute` of the standard library, on a path that is text.
/// The answer depends on the path alone.
#[verifier::external_body]
fn is_absolute(path: &str) -> (r: bool)
    ensures
        r == path_is_absolute(path@),
{
    std::path::Path::new(path).is_absolute()
}

/// `Path::join` of the standard library, on paths that are text. The
/// joined path depends on the two paths alone.
#[verifier::external_body]
fn join(base: &str, path: &str) -> (r: String)
    ensures
        r@ == path_joined(base@, path@),
{
    std::path::Path::new(base).join(path).to_string_lossy().into_owned()
}

/// `Path::extension` of the standard library, on a path that is text. The
/// extension depends on the path alone.
#[verifier::external_body]
fn extension(path: &str) -> (r: Option<String>)
    ensures
        text_view(r) == path_extension(path@),
{
    std::path::Path::new(path).extension().and_then(|e| e.to_str()).map(String::from)
}

/// `Url::from_file_path` of the `url` crate, and the URL written out. Whether
/// there is a URL, and which, depends on the path alone.
#[verifier::external_body]
fn file_uri(path: &str) -> (r: Option<String>)
    ensures
        text_view(r) == file_url(path@),
{
    url::Url::from_file_path(path).ok().map(String::from)
}

/// `shellexpand::tilde_with_context` with `home` as the home directory: a
/// tilde at the start that stands alone or before a slash is replaced by
/// `home`, if there is one, and nothing else changes. On an input that
/// begins with a tilde and a backslash the crate's answer depends on the
/// target it was built for; such input is left out.
#[verifier::external_body]
fn expand_tilde(input: &str, home: Option<&str>) -> (r: String)
    requires
        !has_tilde_backslash(input@),
    ensures
        r@ == tilde_expanded(input@, str_view(home)),
{
    shellexpand::tilde_with_context(input, || home).into_owned()
}

/// `input` with a leading tilde replaced by the home directory `home`.
pub fn expand_home(input: &str, home: Option<&str>) -> (r: String)
    ensures
        r@ == tilde_expanded(input@, str_view(home)),
{
    let chars = crate::text::to_chars(input);
    if chars.len() >= 2 && chars[0] == '~' && chars[1] == '\\' {
        crate::text::from_chars(&chars)
    } else {
        expand_tilde(input, home)
    }
}

/// The language tag for the file at `path`: its extension, or nothing.
pub open spec fn extension_tag(path: Seq<char>) -> Seq<char> {
    match path_extension(path) {
        Some(e) => e,
        None => Seq::empty(),
    }
}

/// The language tag for the file at `path`: its extension, or nothing.
pub fn language_of(path: &str) -> (r: String)
    ensures
        r@ == extension_tag(path@),
{
    match extension(path) {
        Some(e) => e,
        None => String::new(),
    }
}

/// The extension of the file at `path`, if it has one.
pub fn extension_of(path: &str) -> (r: Option<String>)
    ensures
        text_view(r) == path_extension(path@),
{
    extension(path)
}

/// The URL of the file at `path`, if it has one.
pub fn uri_of(path: &str) -> (r: Option<String>)
    ensures
        text_view(r) == file_url(path@),
{
    file_uri(path)
}

/// What is said of a path that is not absolute.
pub open spec fn relative_path_message(path: Seq<char>, suggestion: Seq<char>) -> Seq<char> {
    "The path "@ + path + " is not an absolute path, did you possibly mean "@ + suggestion
        + "?"@
}

/// The path to work on, given a path as it was asked for, the path as it
/// is after expansion, whether that is absolute, and what to suggest if it
/// is not: the expanded path, or an error with the suggestion.
pub open spec fn resolution(
    path: Seq<char>,
    expanded: Seq<char>,
    absolute: bool,
    suggestion: Seq<char>,
) -> Result<Seq<char>, ToolErrorView> {
    if absolute {
        Ok(expanded)
    } else {
        Err(ToolErrorView::InvalidParameters(relative_path_message(path, suggestion)))
    }
}

/// The path to work on, given a path as it was asked for and as it is after
/// expansion: the expanded path if it is absolute; otherwise an error that
/// suggests the path joined to the working directory.
pub open spec fn resolved(path: Seq<char>, expanded: Seq<char>, cwd: Seq<char>) -> Result<
    Seq<char>,
    ToolErrorView,
> {
    resolution(path, expanded, path_is_absolute(expanded), path_joined(cwd, expanded))
}

/// The model of a path that was resolved or refused.
pub open spec fn path_outcome(r: Result<String, ToolError>) -> Result<Seq<char>, ToolErrorView> {
    match r {
        Ok(p) => Ok(p@),
        Err(e) => Err(e@),
    }
}

/// Decides on a path that has been expanded to `expanded`, given whether
/// that is absolute and what to suggest if it is not.
pub fn resolve_expanded(path_str: &str, expanded: String, absolute: bool, suggestion: &str) -> (r:
    Result<String, ToolError>)
    ensures
        path_outcome(r) == resolution(path_str@, expanded@, absolute, suggestion@),
{
    if absolute {
        Ok(expanded)
    } else {
        Err(
            ToolError::InvalidParameters(
                crate::text::concat5(
                    "The path ",
                    path_str,
                    " is not an absolute path, did you possibly mean ",
                    suggestion,
                    "?",
                ),
            ),
        )
    }
}

/// Resolves a path as it was asked for: a leading tilde is expanded with
/// `home`, and the result must be absolute. A relative path is refused, and
/// the error suggests the path joined to the working directory `cwd`.
pub fn resolve_path(path_str: &str, home: Option<&str>, cwd: &str) -> (r: Result<String, ToolError>)
    ensures
        path_outcome(r) == resolved(path_str@, tilde_expanded(path_str@, str_view(home)), cwd@),
{
    let expanded = expand_home(path_str, home);
    let suggestion = join(cwd, expanded.as_str());
    let absolute = is_absolute(expanded.as_str());
    resolve_expanded(path_str, expanded, absolute, suggestion.as_str())
}

} // verus!
