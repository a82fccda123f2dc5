//! The text editor tool: what to answer, and what to store, for `view`,
//! `write`, `str_replace` and `undo_edit`.
//!
//! The functions here decide; they touch no file. Whoever calls them reads
//! and writes the files and reports what came of it.

use vstd::prelude::*;
use crate::content::outcome_view;
use crate::content::Content;
use crate::content::ContentView;
use crate::content::Role;
use crate::content::ToolError;
use crate::content::ToolErrorView;
use crate::decimal::decimal;
use crate::decimal::kibibyte_hundredths;
use crate::decimal::two_places;
use crate::lines::joined;
use crate::lines::lines;
use crate::lines::newlines;
use crate::lines::window;
use crate::params::text_param;
use crate::params::ParamsView;
use crate::params::ToolParams;
use crate::paths::resolved;
use crate::paths::tilde_expanded;
use crate::policy::AccessPolicy;
use crate::search::first_match;
use crate::search::occurs;
use crate::search::occurs_twice;
use crate::search::spliced;
use crate::search::Occurrence;

verus! {

/// The most bytes a file may have to be viewed.
pub const MAX_FILE_SIZE: u64 = 400 * 1024;

/// The most characters a text may have to be handed back.
pub const MAX_CHAR_COUNT: usize = 400_000;

/// How many lines around an edit are shown on either side.
pub const SNIPPET_LINES: usize = 4;

/// The priority of a rendering that repeats what the agent has: the lowest.
pub const PRIORITY_SUPPLEMENTARY: u8 = 0;

/// The priority of a rendering that shows a change just made.
pub const PRIORITY_CHANGE: u8 = 20;

/// A result that is text, or the text of a failure that the host met.
pub open spec fn reported(r: Result<String, String>) -> Result<Seq<char>, Seq<char>> {
    match r {
        Ok(s) => Ok(s@),
        Err(e) => Err(e@),
    }
}

/// A size, or the text of a failure that the host met.
pub open spec fn reported_size(r: Result<u64, String>) -> Result<nat, Seq<char>> {
    match r {
        Ok(n) => Ok(n as nat),
        Err(e) => Err(e@),
    }
}

/// A success, or the text of a failure that the host met.
pub open spec fn reported_unit(r: Result<(), String>) -> Result<(), Seq<char>> {
    match r {
        Ok(_) => Ok(()),
        Err(e) => Err(e@),
    }
}

// ---------------------------------------------------------------------------
// What is said
// ---------------------------------------------------------------------------

/// What is said of a path that the policy hides.
pub open spec fn restricted_message(path: Seq<char>) -> Seq<char> {
    "Access to '"@ + path + "' is restricted by .gooseignore"@
}

/// What is said of a path to view that is no regular file.
pub open spec fn not_a_file_message(path: Seq<char>) -> Seq<char> {
    "The path '"@ + path + "' does not exist or is not a file."@
}

/// What is said where the size of a file cannot be found out.
pub open spec fn metadata_failure(cause: Seq<char>) -> Seq<char> {
    "Failed to get file metadata: "@ + cause
}

/// What is said where a file cannot be read.
pub open spec fn read_failure(cause: Seq<char>) -> Seq<char> {
    "Failed to read file: "@ + cause
}

/// What is said where a file cannot be written.
pub open spec fn write_failure(cause: Seq<char>) -> Seq<char> {
    "Failed to write file: "@ + cause
}

/// What is said of a file of too many bytes: its size in kibibytes, and the limit.
pub open spec fn too_large_message(path: Seq<char>, size: nat) -> Seq<char> {
    "File '"@ + path + "' is too large ("@ + two_places(kibibyte_hundredths(size))
        + "KB). Maximum size is 400KB to prevent memory issues."@
}

/// What is said of a file of too many characters: their number, and the limit.
pub open spec fn too_many_characters_message(path: Seq<char>, count: nat) -> Seq<char> {
    "File '"@ + path + "' has too many characters ("@ + decimal(count)
        + "). Maximum character count is "@ + decimal(MAX_CHAR_COUNT as nat) + "."@
}

/// What is said of an edit of a file that does not exist.
pub open spec fn missing_file_message(path: Seq<char>) -> Seq<char> {
    "File '"@ + path + "' does not exist, you can write a new file with the `write` command"@
}

/// What is said of an edit whose old text occurs more than once.
pub open spec fn ambiguous_message() -> Seq<char> {
    "'old_str' must appear exactly once in the file, but it appears multiple times"@
}

/// What is said of an edit whose old text does not occur.
pub open spec fn absent_message() -> Seq<char> {
    "'old_str' must appear exactly once in the file, but it does not appear in the file. Make sure the string exactly matches existing file content, including whitespace!"@
}

/// What is said of an undo without history.
pub open spec fn no_history_message() -> Seq<char> {
    "No edit history available to undo"@
}

/// What the agent is told of a file that was written.
pub open spec fn written_message(path: Seq<char>) -> Seq<char> {
    "Successfully wrote to "@ + path
}

/// A text shown under its path as a heading, fenced and tagged with its
/// language.
pub open spec fn fenced_file(path: Seq<char>, language: Seq<char>, content: Seq<char>) -> Seq<char> {
    "### "@ + path + "\n```"@ + language + "\n"@ + content + "\n```\n"@
}

/// An excerpt, fenced and tagged with its language.
pub open spec fn fenced_snippet(language: Seq<char>, snippet: Seq<char>) -> Seq<char> {
    "```"@ + language + "\n"@ + snippet + "\n```\n"@
}

/// What the agent is told of an edit.
pub open spec fn edit_report(path: Seq<char>, output: Seq<char>) -> Seq<char> {
    "The file "@ + path + " has been edited, and the section now reads:\n"@ + output
        + "\nReview the changes above for errors. Undo and edit the file again if necessary!\n"@
}

// ---------------------------------------------------------------------------
// The request
// ---------------------------------------------------------------------------

/// What a call of the text editor asks for, on which file.
#[derive(Debug)]
pub enum EditorRequest {
    /// Show the file.
    View { path: String },
    /// Make `file_text` the whole content of the file.
    Write { path: String, file_text: String },
    /// Replace the one occurrence of `old_str` in the file by `new_str`.
    StrReplace { path: String, old_str: String, new_str: String },
    /// Take back the last recorded edit of the file.
    UndoEdit { path: String },
}

/// The mathematical model of an `EditorRequest`.
pub enum EditorRequestView {
    View { path: Seq<char> },
    Write { path: Seq<char>, file_text: Seq<char> },
    StrReplace { path: Seq<char>, old_str: Seq<char>, new_str: Seq<char> },
    UndoEdit { path: Seq<char> },
}

impl View for EditorRequest {
    type V = EditorRequestView;

    open spec fn view(&self) -> EditorRequestView {
        match self {
            EditorRequest::View { path } => EditorRequestView::View { path: path@ },
            EditorRequest::Write { path, file_text } => EditorRequestView::Write {
                path: path@,
                file_text: file_text@,
            },
            EditorRequest::StrReplace { path, old_str, new_str } => EditorRequestView::StrReplace {
                path: path@,
                old_str: old_str@,
                new_str: new_str@,
            },
            EditorRequest::UndoEdit { path } => EditorRequestView::UndoEdit { path: path@ },
        }
    }
}

/// The path of the file that a request is about.
pub open spec fn request_path(request: EditorRequestView) -> Seq<char> {
    match request {
        EditorRequestView::View { path } => path,
        EditorRequestView::Write { path, file_text } => path,
        EditorRequestView::StrReplace { path, old_str, new_str } => path,
        EditorRequestView::UndoEdit { path } => path,
    }
}

/// The model of a request that was read or refused.
pub open spec fn request_outcome(r: Result<EditorRequest, ToolError>) -> Result<
    EditorRequestView,
    ToolErrorView,
> {
    match r {
        Ok(q) => Ok(q@),
        Err(e) => Err(e@),
    }
}

/// What is said of a call that lacks the parameter `name`.
pub open spec fn missing_parameter_message(name: Seq<char>) -> Seq<char> {
    "Missing '"@ + name + "' parameter"@
}

/// What is said of a command that the text editor does not know.
pub open spec fn unknown_command_message(command: Seq<char>) -> Seq<char> {
    "Unknown command '"@ + command + "'"@
}

/// The command and the path that a call of the text editor names.
pub open spec fn editor_target(params: ParamsView) -> Result<(Seq<char>, Seq<char>), ToolErrorView> {
    match text_param(params, "command"@) {
        None => Err(ToolErrorView::InvalidParameters(missing_parameter_message("command"@))),
        Some(command) => match text_param(params, "path"@) {
            None => Err(ToolErrorView::InvalidParameters(missing_parameter_message("path"@))),
            Some(path_str) => Ok((command, path_str)),
        },
    }
}

/// The operation that `command` names, on the file at `path`, with the
/// parameters it needs. A path that the policy hides (`restricted`) is
/// refused before the command counts.
pub open spec fn editor_operation(
    command: Seq<char>,
    path: Seq<char>,
    restricted: bool,
    params: ParamsView,
) -> Result<EditorRequestView, ToolErrorView> {
    if restricted {
        Err(ToolErrorView::ExecutionError(restricted_message(path)))
    } else if command == "view"@ {
        Ok(EditorRequestView::View { path })
    } else if command == "write"@ {
        match text_param(params, "file_text"@) {
            None => Err(ToolErrorView::InvalidParameters(missing_parameter_message("file_text"@))),
            Some(file_text) => Ok(EditorRequestView::Write { path, file_text }),
        }
    } else if command == "str_replace"@ {
        match text_param(params, "old_str"@) {
            None => Err(ToolErrorView::InvalidParameters(missing_parameter_message("old_str"@))),
            Some(old_str) => match text_param(params, "new_str"@) {
                None => Err(
                    ToolErrorView::InvalidParameters(missing_parameter_message("new_str"@)),
                ),
                Some(new_str) => Ok(EditorRequestView::StrReplace { path, old_str, new_str }),
            },
        }
    } else if command == "undo_edit"@ {
        Ok(EditorRequestView::UndoEdit { path })
    } else {
        Err(ToolErrorView::InvalidParameters(unknown_command_message(command)))
    }
}

/// What a call of the text editor asks for. The command and the path must
/// be there; the path must be absolute once a leading tilde is expanded;
/// the policy must not hide it; and only then does the command count.
pub open spec fn editor_request(
    policy: AccessPolicy,
    params: ParamsView,
    home: Option<Seq<char>>,
    cwd: Seq<char>,
) -> Result<EditorRequestView, ToolErrorView> {
    match editor_target(params) {
        Err(e) => Err(e),
        Ok((command, path_str)) => match resolved(path_str, tilde_expanded(path_str, home), cwd) {
            Err(e) => Err(e),
            Ok(path) => editor_operation(command, path, policy.restricts(path), params),
        },
    }
}

/// What a call of the text editor asks for where no path is hidden.
pub open spec fn editor_request_unhindered(
    params: ParamsView,
    home: Option<Seq<char>>,
    cwd: Seq<char>,
) -> Result<EditorRequestView, ToolErrorView> {
    match editor_target(params) {
        Err(e) => Err(e),
        Ok((command, path_str)) => match resolved(path_str, tilde_expanded(path_str, home), cwd) {
            Err(e) => Err(e),
            Ok(path) => editor_operation(command, path, false, params),
        },
    }
}

/// The refusal of a call that lacks the parameter `name`.
fn missing_parameter(name: &str) -> (e: ToolError)
    ensures
        e@ == ToolErrorView::InvalidParameters(missing_parameter_message(name@)),
{
    ToolError::InvalidParameters(crate::text::concat3("Missing '", name, "' parameter"))
}

/// The model of a command and a path that were read, or of the refusal.
pub open spec fn target_outcome(r: Result<(String, String), ToolError>) -> Result<
    (Seq<char>, Seq<char>),
    ToolErrorView,
> {
    match r {
        Ok((command, path_str)) => Ok((command@, path_str@)),
        Err(e) => Err(e@),
    }
}

/// Reads the command and the path that a call of the text editor names.
pub fn text_editor_target(params: &ToolParams) -> (r: Result<(String, String), ToolError>)
    ensures
        target_outcome(r) == editor_target(params@),
{
    match params.text("command") {
        None => Err(missing_parameter("command")),
        Some(command) => match params.text("path") {
            None => Err(missing_parameter("path")),
            Some(path_str) => Ok((command.to_owned(), path_str.to_owned())),
        },
    }
}

/// Reads the operation that `command` names, on the file at the resolved
/// path `path`, given whether the policy hides that path.
pub fn text_editor_operation(command: &str, path: String, restricted: bool, params: &ToolParams)
    -> (r: Result<EditorRequest, ToolError>)
    ensures
        request_outcome(r) == editor_operation(command@, path@, restricted, params@),
{
    if restricted {
        return Err(
            ToolError::ExecutionError(
                crate::text::concat3("Access to '", path.as_str(), "' is restricted by .gooseignore"),
            ),
        );
    }
    if crate::text::str_equal(command, "view") {
        Ok(EditorRequest::View { path })
    } else if crate::text::str_equal(command, "write") {
        match params.text("file_text") {
            None => Err(missing_parameter("file_text")),
            Some(file_text) => Ok(EditorRequest::Write { path, file_text: file_text.to_owned() }),
        }
    } else if crate::text::str_equal(command, "str_replace") {
        match params.text("old_str") {
            None => Err(missing_parameter("old_str")),
            Some(old_str) => match params.text("new_str") {
                None => Err(missing_parameter("new_str")),
                Some(new_str) => Ok(
                    EditorRequest::StrReplace {
                        path,
                        old_str: old_str.to_owned(),
                        new_str: new_str.to_owned(),
                    },
                ),
            },
        }
    } else if crate::text::str_equal(command, "undo_edit") {
        Ok(EditorRequest::UndoEdit { path })
    } else {
        Err(
            ToolError::InvalidParameters(crate::text::concat3("Unknown command '", command, "'")),
        )
    }
}

/// Reads what a call of the text editor asks for. `home` is the home
/// directory, if it is known, and `cwd` the working directory. Where the
/// policy has no glob, no path is refused as hidden.
pub fn text_editor(policy: &AccessPolicy, params: &ToolParams, home: Option<&str>, cwd: &str) -> (r:
    Result<EditorRequest, ToolError>)
    ensures
        request_outcome(r) == editor_request(*policy, params@, crate::text::str_view(home), cwd@),
        policy.is_idle() ==> request_outcome(r) == editor_request_unhindered(
            params@,
            crate::text::str_view(home),
            cwd@,
        ),
{
    match text_editor_target(params) {
        Err(e) => Err(e),
        Ok((command, path_str)) => match crate::paths::resolve_path(path_str.as_str(), home, cwd) {
            Err(e) => Err(e),
            Ok(path) => {
                let restricted = policy.is_restricted(path.as_str());
                text_editor_operation(command.as_str(), path, restricted, params)
            },
        },
    }
}

// ---------------------------------------------------------------------------
// view
// ---------------------------------------------------------------------------

/// Whether the file at `path` may be read for viewing, given whether it is
/// a regular file, what its size is and what its URL is: the URL under
/// which it will be shown, or why not.
pub open spec fn view_admission(
    path: Seq<char>,
    is_file: bool,
    size: Result<nat, Seq<char>>,
    uri: Option<Seq<char>>,
) -> Result<Seq<char>, ToolErrorView> {
    if !is_file {
        Err(ToolErrorView::ExecutionError(not_a_file_message(path)))
    } else {
        match size {
            Err(cause) => Err(ToolErrorView::ExecutionError(metadata_failure(cause))),
            Ok(n) => if n > MAX_FILE_SIZE {
                Err(ToolErrorView::ExecutionError(too_large_message(path, n)))
            } else {
                match uri {
                    None => Err(ToolErrorView::ExecutionError("Invalid file path"@)),
                    Some(uri) => Ok(uri),
                }
            },
        }
    }
}

/// The answer to `view`, given what reading the file gave: the content as a
/// resource for the agent, and its rendering for the operator.
pub open spec fn view_reply(
    path: Seq<char>,
    uri: Seq<char>,
    language: Seq<char>,
    content: Result<Seq<char>, Seq<char>>,
) -> Result<Seq<ContentView>, ToolErrorView> {
    match content {
        Err(cause) => Err(ToolErrorView::ExecutionError(read_failure(cause))),
        Ok(text) => if text.len() > MAX_CHAR_COUNT {
            Err(ToolErrorView::ExecutionError(too_many_characters_message(path, text.len())))
        } else {
            Ok(
                seq![
                    ContentView::resource(uri, text).only_for(Role::Assistant),
                    ContentView::text(fenced_file(path, language, text)).only_for(
                        Role::User,
                    ).ranked(PRIORITY_SUPPLEMENTARY as int),
                ],
            )
        },
    }
}

/// Decides whether the file at `path` may be read for viewing, given
/// whether it is a regular file, what its size is and what its URL is.
pub fn text_editor_view_check(
    path: &str,
    is_file: bool,
    size: &Result<u64, String>,
    uri: Option<String>,
) -> (r: Result<String, ToolError>)
    ensures
        crate::paths::path_outcome(r) == view_admission(
            path@,
            is_file,
            reported_size(*size),
            crate::text::text_view(uri),
        ),
{
    if !is_file {
        return Err(
            ToolError::ExecutionError(
                crate::text::concat3("The path '", path, "' does not exist or is not a file."),
            ),
        );
    }
    match size {
        Err(cause) => Err(
            ToolError::ExecutionError(
                crate::text::concat2("Failed to get file metadata: ", cause.as_str()),
            ),
        ),
        Ok(n) => {
            if *n > MAX_FILE_SIZE {
                let amount = crate::text::from_chars(&crate::decimal::kibibytes_chars(*n));
                Err(
                    ToolError::ExecutionError(
                        crate::text::concat5(
                            "File '",
                            path,
                            "' is too large (",
                            amount.as_str(),
                            "KB). Maximum size is 400KB to prevent memory issues.",
                        ),
                    ),
                )
            } else {
                match uri {
                    None => Err(ToolError::ExecutionError("Invalid file path".to_owned())),
                    Some(uri) => Ok(uri),
                }
            }
        },
    }
}

/// The number `n` written in decimal digits.
pub fn decimal_string(n: usize) -> (r: String)
    ensures
        r@ == decimal(n as nat),
{
    crate::text::from_chars(&crate::decimal::decimal_chars(n as u128))
}

/// `text` under its path as a heading, fenced and tagged with its language.
fn render_file(path: &str, language: &str, text: &str) -> (r: String)
    ensures
        r@ == fenced_file(path@, language@, text@),
{
    let mut out = crate::text::to_chars("### ");
    crate::text::append_str(&mut out, path);
    crate::text::append_str(&mut out, "\n```");
    crate::text::append_str(&mut out, language);
    crate::text::append_str(&mut out, "\n");
    crate::text::append_str(&mut out, text);
    crate::text::append_str(&mut out, "\n```\n");
    crate::text::from_chars(&out)
}

/// Answers `view` once the file has been read, or could not be.
pub fn text_editor_view(path: &str, uri: String, language: &str, content: Result<String, String>)
    -> (r: Result<Vec<Content>, ToolError>)
    ensures
        outcome_view(r) == view_reply(path@, uri@, language@, reported(content)),
{
    match content {
        Err(cause) => Err(
            ToolError::ExecutionError(crate::text::concat2("Failed to read file: ", cause.as_str())),
        ),
        Ok(text) => {
            let count = crate::text::char_count(text.as_str());
            if count > MAX_CHAR_COUNT {
                let mut message = crate::text::to_chars("File '");
                crate::text::append_str(&mut message, path);
                crate::text::append_str(&mut message, "' has too many characters (");
                crate::text::append_str(&mut message, decimal_string(count).as_str());
                crate::text::append_str(&mut message, "). Maximum character count is ");
                crate::text::append_str(&mut message, decimal_string(MAX_CHAR_COUNT).as_str());
                crate::text::append_str(&mut message, ".");
                Err(ToolError::ExecutionError(crate::text::from_chars(&message)))
            } else {
                let formatted = render_file(path, language, text.as_str());
                Ok(
                    crate::content::pair(
                        Content::embedded_text(uri, text).with_audience(Role::Assistant),
                        Content::text(formatted).with_audience(Role::User).with_priority(
                            PRIORITY_SUPPLEMENTARY,
                        ),
                    ),
                )
            }
        },
    }
}

// ---------------------------------------------------------------------------
// write
// ---------------------------------------------------------------------------

/// The answer to `write`, given what writing the file gave: a confirmation
/// for the agent, and the new content rendered for the operator.
pub open spec fn write_reply(
    path: Seq<char>,
    language: Seq<char>,
    file_text: Seq<char>,
    written: Result<(), Seq<char>>,
) -> Result<Seq<ContentView>, ToolErrorView> {
    match written {
        Err(cause) => Err(ToolErrorView::ExecutionError(write_failure(cause))),
        Ok(_) => Ok(
            seq![
                ContentView::text(written_message(path)).only_for(Role::Assistant),
                ContentView::text(fenced_file(path, language, file_text)).only_for(
                    Role::User,
                ).ranked(PRIORITY_CHANGE as int),
            ],
        ),
    }
}

/// Answers `write` once the file has been written, or could not be.
pub fn text_editor_write(path: &str, language: &str, file_text: &str, written: Result<(), String>)
    -> (r: Result<Vec<Content>, ToolError>)
    ensures
        outcome_view(r) == write_reply(path@, language@, file_text@, reported_unit(written)),
{
    match written {
        Err(cause) => Err(
            ToolError::ExecutionError(
                crate::text::concat2("Failed to write file: ", cause.as_str()),
            ),
        ),
        Ok(_) => {
            let formatted = render_file(path, language, file_text);
            Ok(
                crate::content::pair(
                    Content::text(crate::text::concat2("Successfully wrote to ", path)).with_audience(
                        Role::Assistant,
                    ),
                    Content::text(formatted).with_audience(Role::User).with_priority(
                        PRIORITY_CHANGE,
                    ),
                ),
            )
        },
    }
}

// ---------------------------------------------------------------------------
// str_replace
// ---------------------------------------------------------------------------

/// The lines of `new_content` around an edit at index `at` of `content`
/// that put `new` there: from `SNIPPET_LINES` lines before the line of the
/// edit to `SNIPPET_LINES` lines after the last line of `new`, joined by
/// line feeds. The line of the edit is the number of line feeds before
/// `at`.
pub open spec fn excerpt_at(content: Seq<char>, at: int, new: Seq<char>, new_content: Seq<char>)
    -> Seq<char> {
    let line = newlines(content.take(at));
    let start = if line >= SNIPPET_LINES {
        line - SNIPPET_LINES
    } else {
        0
    };
    let end = line + SNIPPET_LINES + newlines(new);
    joined(window(lines(new_content), start, end - start + 1), "\n"@)
}

/// The lines of `new_content` around an edit that replaced the one
/// occurrence of `old` in `content` by `new`.
pub open spec fn snippet(
    content: Seq<char>,
    old: Seq<char>,
    new: Seq<char>,
    new_content: Seq<char>,
) -> Seq<char> {
    excerpt_at(content, first_match(content, old)->0, new, new_content)
}

/// What an edit stores and what it answers.
pub struct Replacement {
    /// The new content of the file.
    pub new_content: String,
    /// The excerpt of the new content around the edit.
    pub snippet: String,
}

/// The mathematical model of a `Replacement`.
pub struct ReplacementView {
    pub new_content: Seq<char>,
    pub snippet: Seq<char>,
}

impl View for Replacement {
    type V = ReplacementView;

    open spec fn view(&self) -> ReplacementView {
        ReplacementView { new_content: self.new_content@, snippet: self.snippet@ }
    }
}

/// The edit that replaces `old` by `new` in `content`. It is refused where
/// `old` stands at two places or more, overlapping or not, and where it
/// stands nowhere. Where it stands at one place alone, the new content is
/// the text before that place, then `new`, then the text after it.
pub open spec fn replacement(content: Seq<char>, old: Seq<char>, new: Seq<char>) -> Result<
    ReplacementView,
    ToolErrorView,
> {
    if occurs_twice(content, old) {
        Err(ToolErrorView::InvalidParameters(ambiguous_message()))
    } else if !occurs(content, old) {
        Err(ToolErrorView::InvalidParameters(absent_message()))
    } else {
        let new_content = spliced(
            content,
            first_match(content, old)->0,
            old.len() as int,
            new,
        );
        Ok(ReplacementView { new_content, snippet: snippet(content, old, new, new_content) })
    }
}

/// The model of an edit that was planned or refused.
pub open spec fn replacement_outcome(r: Result<Replacement, ToolError>) -> Result<
    ReplacementView,
    ToolErrorView,
> {
    match r {
        Ok(p) => Ok(p@),
        Err(e) => Err(e@),
    }
}

/// The excerpt of `new_content` around an edit at index `at` of `content`.
fn excerpt(content: &Vec<char>, at: usize, new: &Vec<char>, new_content: &Vec<char>) -> (out: Vec<
    char,
>)
    requires
        at <= content.len(),
    ensures
        out@ == excerpt_at(content@, at as int, new@, new_content@),
{
    let line = crate::lines::count_char(content, at, '\n');
    let start: usize = if line >= SNIPPET_LINES {
        line - SNIPPET_LINES
    } else {
        0
    };
    let added = crate::lines::count_char(new, new.len(), '\n');
    assert(new@.take(new.len() as int) == new@);
    let all = crate::lines::split_lines(new_content);
    let total: usize = all.len();
    let lo: usize = if start < total {
        start
    } else {
        total
    };
    // One past the last line shown: `end + 1`, or the number of lines.
    let past: u128 = line as u128 + SNIPPET_LINES as u128 + added as u128 + 1;
    let hi: usize = if past < total as u128 {
        past as usize
    } else {
        total
    };
    let sep = crate::text::to_chars("\n");
    crate::lines::join_range(&all, lo, hi, &sep)
}

/// Plans the edit that replaces `old_str` by `new_str` in `content`. The
/// edit is refused unless `old_str` stands at exactly one place.
pub fn plan_replacement(content: &str, old_str: &str, new_str: &str) -> (r: Result<
    Replacement,
    ToolError,
>)
    ensures
        replacement_outcome(r) == replacement(content@, old_str@, new_str@),
{
    let hay = crate::text::to_chars(content);
    let old = crate::text::to_chars(old_str);
    let new = crate::text::to_chars(new_str);
    match crate::search::locate(&hay, &old) {
        Occurrence::Ambiguous => Err(
            ToolError::InvalidParameters(
                "'old_str' must appear exactly once in the file, but it appears multiple times".to_owned(),
            ),
        ),
        Occurrence::Absent => Err(
            ToolError::InvalidParameters(
                "'old_str' must appear exactly once in the file, but it does not appear in the file. Make sure the string exactly matches existing file content, including whitespace!".to_owned(),
            ),
        ),
        Occurrence::Unique(at) => {
            proof {
                crate::search::lemma_first_match_from(hay@, old@, 0);
            }
            let new_content = crate::search::splice(&hay, at, old.len(), &new);
            let snippet = excerpt(&hay, at, &new, &new_content);
            Ok(
                Replacement {
                    new_content: crate::text::from_chars(&new_content),
                    snippet: crate::text::from_chars(&snippet),
                },
            )
        },
    }
}

/// The answer to `str_replace`, given what writing the file gave: a report
/// with the excerpt for the agent, and the excerpt for the operator.
pub open spec fn replace_reply(
    path: Seq<char>,
    language: Seq<char>,
    snippet: Seq<char>,
    written: Result<(), Seq<char>>,
) -> Result<Seq<ContentView>, ToolErrorView> {
    match written {
        Err(cause) => Err(ToolErrorView::ExecutionError(write_failure(cause))),
        Ok(_) => {
            let output = fenced_snippet(language, snippet);
            Ok(
                seq![
                    ContentView::text(edit_report(path, output)).only_for(Role::Assistant),
                    ContentView::text(output).only_for(Role::User).ranked(PRIORITY_CHANGE as int),
                ],
            )
        },
    }
}

/// Answers `str_replace` once the file has been written, or could not be.
pub fn text_editor_replace(path: &str, language: &str, snippet: &str, written: Result<(), String>)
    -> (r: Result<Vec<Content>, ToolError>)
    ensures
        outcome_view(r) == replace_reply(path@, language@, snippet@, reported_unit(written)),
{
    match written {
        Err(cause) => Err(
            ToolError::ExecutionError(
                crate::text::concat2("Failed to write file: ", cause.as_str()),
            ),
        ),
        Ok(_) => {
            let output = crate::text::concat5("```", language, "\n", snippet, "\n```\n");
            let report = crate::text::concat5(
                "The file ",
                path,
                " has been edited, and the section now reads:\n",
                output.as_str(),
                "\nReview the changes above for errors. Undo and edit the file again if necessary!\n",
            );
            Ok(
                crate::content::pair(
                    Content::text(report).with_audience(Role::Assistant),
                    Content::text(output).with_audience(Role::User).with_priority(PRIORITY_CHANGE),
                ),
            )
        },
    }
}

/// The refusal of `str_replace` on a file that does not exist.
pub fn missing_file(path: &str) -> (e: ToolError)
    ensures
        e@ == ToolErrorView::InvalidParameters(missing_file_message(path@)),
{
    ToolError::InvalidParameters(
        crate::text::concat3(
            "File '",
            path,
            "' does not exist, you can write a new file with the `write` command",
        ),
    )
}

// ---------------------------------------------------------------------------
// undo_edit
// ---------------------------------------------------------------------------

/// The answer to `undo_edit`, given what writing the file gave.
pub open spec fn undo_reply(written: Result<(), Seq<char>>) -> Result<
    Seq<ContentView>,
    ToolErrorView,
> {
    match written {
        Err(cause) => Err(ToolErrorView::ExecutionError(write_failure(cause))),
        Ok(_) => Ok(seq![ContentView::text("Undid the last edit"@)]),
    }
}

/// Answers `undo_edit` once the file has been written, or could not be.
pub fn text_editor_undo(written: Result<(), String>) -> (r: Result<Vec<Content>, ToolError>)
    ensures
        outcome_view(r) == undo_reply(reported_unit(written)),
{
    match written {
        Err(cause) => Err(
            ToolError::ExecutionError(
                crate::text::concat2("Failed to write file: ", cause.as_str()),
            ),
        ),
        Ok(_) => Ok(crate::content::single(Content::text("Undid the last edit".to_owned()))),
    }
}

} // verus!
