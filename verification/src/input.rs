//! What a line typed at the prompt means: a message for the agent, or one
//! of the session's commands.
//!
//! Commands begin with a slash. A line that begins with a slash and is no
//! known command is a message like any other.

use vstd::prelude::*;
use crate::arguments::PromptArguments;
use crate::search::occurs_at;
use crate::text::trimmed;
use crate::text::views;
use crate::text::words;

verus! {

/// What is shown when help is asked for.
pub const HELP_TEXT: &'static str =
    "Available commands:
/exit or /quit - Exit the session
/t - Toggle Light/Dark/Ansi theme
/extension <command> - Add a stdio extension (format: ENV1=val1 command args...)
/builtin <names> - Add builtin extensions by name (comma-separated)
/prompts - List all available prompts by name
/prompt <name> [--info] [key=value...] - Get prompt info or execute a prompt
/? or /help - Display this help message

Navigation:
Ctrl+C - Interrupt goose (resets the interaction to before the interrupted user request)
Ctrl+J - Add a newline
Up/Down arrows - Navigate through command history";

/// What a line of input asks for.
#[derive(Debug)]
pub enum InputResult {
    /// Text for the agent.
    Message(String),
    /// End the session.
    Exit,
    /// Add an extension that is started by the given command line.
    AddExtension(String),
    /// Add the built-in extensions with the given names.
    AddBuiltin(String),
    /// Switch to the next colour theme.
    ToggleTheme,
    /// Nothing to do but ask again; help was asked for and is to be shown.
    Retry,
    /// List the prompts that are on offer.
    ListPrompts,
    /// Show or run a prompt.
    PromptCommand(PromptCommandOptions),
}

/// The prompt that a prompt command names, and what to do with it.
#[derive(Debug)]
pub struct PromptCommandOptions {
    /// The name of the prompt.
    pub name: String,
    /// Whether the prompt is to be described rather than run.
    pub info: bool,
    /// The arguments to run it with.
    pub arguments: PromptArguments,
}

/// The mathematical model of a `PromptCommandOptions`.
pub struct PromptView {
    pub name: Seq<char>,
    pub info: bool,
    pub arguments: Map<Seq<char>, Seq<char>>,
}

/// The mathematical model of an `InputResult`.
pub enum InputView {
    Message(Seq<char>),
    Exit,
    AddExtension(Seq<char>),
    AddBuiltin(Seq<char>),
    ToggleTheme,
    Retry,
    ListPrompts,
    PromptCommand(PromptView),
}

impl View for PromptCommandOptions {
    type V = PromptView;

    open spec fn view(&self) -> PromptView {
        PromptView { name: self.name@, info: self.info, arguments: self.arguments@ }
    }
}

impl View for InputResult {
    type V = InputView;

    open spec fn view(&self) -> InputView {
        match self {
            InputResult::Message(text) => InputView::Message(text@),
            InputResult::Exit => InputView::Exit,
            InputResult::AddExtension(command) => InputView::AddExtension(command@),
            InputResult::AddBuiltin(names) => InputView::AddBuiltin(names@),
            InputResult::ToggleTheme => InputView::ToggleTheme,
            InputResult::Retry => InputView::Retry,
            InputResult::ListPrompts => InputView::ListPrompts,
            InputResult::PromptCommand(options) => InputView::PromptCommand(options@),
        }
    }
}

/// The model of an input result that may be missing.
pub open spec fn input_view(r: Option<InputResult>) -> Option<InputView> {
    match r {
        Some(v) => Some(v@),
        None => None,
    }
}

/// The first index of `s` that holds `c`, or the length of `s` if none
/// does.
pub open spec fn first_index_of(s: Seq<char>, c: char) -> int
    decreases s.len(),
{
    if s.len() == 0 {
        0
    } else if s[0] == c {
        0
    } else {
        1 + first_index_of(s.skip(1), c)
    }
}

/// What the words after a prompt's name ask for: whether the prompt is to be
/// described, and the arguments, a later one replacing an earlier one of the
/// same name. The word `--info` asks for the description; a word with an
/// equals sign gives the name before the first equals sign the value after
/// it; any other word makes the whole command invalid.
pub open spec fn prompt_flags(parts: Seq<Seq<char>>) -> Option<(bool, Map<Seq<char>, Seq<char>>)>
    decreases parts.len(),
{
    if parts.len() == 0 {
        Some((false, Map::empty()))
    } else {
        match prompt_flags(parts.drop_last()) {
            None => None,
            Some((info, arguments)) => {
                let part = parts.last();
                let at = first_index_of(part, '=');
                if part == "--info"@ {
                    Some((true, arguments))
                } else if at < part.len() {
                    Some((info, arguments.insert(part.take(at), part.skip(at + 1))))
                } else {
                    None
                }
            },
        }
    }
}

/// What the text after `/prompt ` asks for: its first word names the
/// prompt, the others are read by `prompt_flags`. Without a first word, or
/// with an invalid word, there is no command.
pub open spec fn prompt_command(args: Seq<char>) -> Option<InputView> {
    let parts = words(args);
    if parts.len() == 0 {
        None
    } else {
        match prompt_flags(parts.skip(1)) {
            None => None,
            Some((info, arguments)) => Some(
                InputView::PromptCommand(PromptView { name: parts[0], info, arguments }),
            ),
        }
    }
}

/// The command that a line stands for, if it is one. White space around
/// the line does not count.
pub open spec fn slash_command(input: Seq<char>) -> Option<InputView> {
    let s = trimmed(input);
    if s == "/exit"@ || s == "/quit"@ {
        Some(InputView::Exit)
    } else if s == "/?"@ || s == "/help"@ {
        Some(InputView::Retry)
    } else if s == "/t"@ {
        Some(InputView::ToggleTheme)
    } else if s == "/prompts"@ {
        Some(InputView::ListPrompts)
    } else if occurs_at(s, "/prompt "@, 0) {
        prompt_command(s.skip("/prompt "@.len() as int))
    } else if occurs_at(s, "/extension "@, 0) {
        Some(InputView::AddExtension(s.skip("/extension "@.len() as int)))
    } else if occurs_at(s, "/builtin "@, 0) {
        Some(InputView::AddBuiltin(s.skip("/builtin "@.len() as int)))
    } else {
        None
    }
}

/// The lower-case form of an ASCII capital letter; any other character as
/// it is.
pub open spec fn ascii_lower(c: char) -> char {
    if 'A' <= c <= 'Z' {
        ((c as u8) + 32) as char
    } else {
        c
    }
}

/// Whether two texts are equal but for the case of their ASCII letters.
pub open spec fn same_ignoring_ascii_case(a: Seq<char>, b: Seq<char>) -> bool {
    a.len() == b.len() && forall|i: int| 0 <= i < a.len() ==> ascii_lower(a[i]) == ascii_lower(b[i])
}

/// What a line of input asks for. A line that does not begin with a slash
/// ends the session if it is `exit` or `quit` in any case, and is a message
/// otherwise; a line that begins with a slash is its command, or a message
/// if it is no command. A message is the line without the white space
/// around it.
pub open spec fn line_meaning(input: Seq<char>) -> InputView {
    if !(input.len() > 0 && input[0] == '/') {
        if same_ignoring_ascii_case(input, "exit"@) || same_ignoring_ascii_case(input, "quit"@) {
            InputView::Exit
        } else {
            InputView::Message(trimmed(input))
        }
    } else {
        match slash_command(input) {
            Some(v) => v,
            None => InputView::Message(trimmed(input)),
        }
    }
}

/// Once some words make a prompt command invalid, more words do not mend
/// it.
pub proof fn lemma_prompt_flags_stay_invalid(parts: Seq<Seq<char>>, upto: int)
    requires
        0 <= upto <= parts.len(),
        prompt_flags(parts.take(upto)) is None,
    ensures
        prompt_flags(parts) is None,
    decreases parts.len() - upto,
{
    if upto < parts.len() {
        assert(parts.take(upto + 1).drop_last() == parts.take(upto));
        lemma_prompt_flags_stay_invalid(parts, upto + 1);
    } else {
        assert(parts.take(upto) == parts);
    }
}

/// The first index of `s` that holds `c`.
fn find_char(s: &Vec<char>, c: char) -> (r: Option<usize>)
    ensures
        match r {
            Some(i) => i < s.len() && i == first_index_of(s@, c),
            None => first_index_of(s@, c) == s.len(),
        },
{
    let mut i: usize = 0;
    assert(s@.skip(0) == s@);
    while i < s.len()
        invariant
            i <= s.len(),
            first_index_of(s@, c) == i + first_index_of(s@.skip(i as int), c),
        decreases s.len() - i,
    {
        if s[i] == c {
            return Some(i);
        }
        assert(s@.skip(i as int).skip(1) == s@.skip(i + 1));
        i = i + 1;
    }
    None
}

/// Reads the text after `/prompt `: the name of a prompt, then `--info` or
/// arguments of the form `name=value`.
pub fn parse_prompt_command(args: &str) -> (r: Option<InputResult>)
    ensures
        input_view(r) == prompt_command(args@),
{
    let chars = crate::text::to_chars(args);
    let parts = crate::text::split_words(&chars);
    if parts.len() == 0 {
        return None;
    }
    let name = crate::text::from_chars(&parts[0]);
    let mut info = false;
    let mut arguments = PromptArguments::new();
    let ghost rest = words(args@).skip(1);
    let mut i: usize = 1;
    while i < parts.len()
        invariant
            1 <= i <= parts.len(),
            views(parts@) == words(args@),
            rest == words(args@).skip(1),
            prompt_flags(rest.take(i - 1)) == Some((info, arguments@)),
        decreases parts.len() - i,
    {
        let part = &parts[i];
        assert(rest.take(i as int).drop_last() == rest.take(i - 1));
        assert(rest.take(i as int).last() == part@);
        if crate::text::chars_equal_str(part, "--info") {
            info = true;
        } else {
            match find_char(part, '=') {
                Some(at) => {
                    let key = crate::text::copy_range(part, 0, at);
                    let value = crate::text::copy_range(part, at + 1, part.len());
                    arguments.insert(
                        crate::text::from_chars(&key),
                        crate::text::from_chars(&value),
                    );
                },
                None => {
                    proof {
                        lemma_prompt_flags_stay_invalid(rest, i as int);
                    }
                    return None;
                },
            }
        }
        i = i + 1;
    }
    assert(rest.take(parts.len() - 1) == rest);
    Some(InputResult::PromptCommand(PromptCommandOptions { name, info, arguments }))
}

/// The text of `s` after its first `skip` characters.
fn text_after(s: &Vec<char>, skip: usize) -> (out: String)
    requires
        skip <= s.len(),
    ensures
        out@ == s@.skip(skip as int),
{
    let rest = crate::text::copy_range(s, skip, s.len());
    crate::text::from_chars(&rest)
}

/// Reads a line as one of the session's commands. The result is `None`
/// where the line is no command; `Retry` where it asks for help.
pub fn handle_slash_command(input: &str) -> (r: Option<InputResult>)
    ensures
        input_view(r) == slash_command(input@),
{
    let chars = crate::text::to_chars(input);
    let s = crate::text::trim(&chars);
    let prompt = crate::text::to_chars("/prompt ");
    let extension = crate::text::to_chars("/extension ");
    let builtin = crate::text::to_chars("/builtin ");
    if crate::text::chars_equal_str(&s, "/exit") || crate::text::chars_equal_str(&s, "/quit") {
        Some(InputResult::Exit)
    } else if crate::text::chars_equal_str(&s, "/?") || crate::text::chars_equal_str(&s, "/help") {
        Some(InputResult::Retry)
    } else if crate::text::chars_equal_str(&s, "/t") {
        Some(InputResult::ToggleTheme)
    } else if crate::text::chars_equal_str(&s, "/prompts") {
        Some(InputResult::ListPrompts)
    } else if crate::search::matches_at(&s, &prompt, 0) {
        let args = text_after(&s, prompt.len());
        parse_prompt_command(args.as_str())
    } else if crate::search::matches_at(&s, &extension, 0) {
        Some(InputResult::AddExtension(text_after(&s, extension.len())))
    } else if crate::search::matches_at(&s, &builtin, 0) {
        Some(InputResult::AddBuiltin(text_after(&s, builtin.len())))
    } else {
        None
    }
}

/// The lower-case form of an ASCII capital letter; any other character as
/// it is.
fn to_ascii_lower(c: char) -> (r: char)
    ensures
        r == ascii_lower(c),
{
    if 'A' <= c && c <= 'Z' {
        ((c as u8) + 32) as char
    } else {
        c
    }
}

/// Whether `a` is `b` but for the case of its ASCII letters.
fn equals_ignoring_ascii_case(a: &Vec<char>, b: &str) -> (r: bool)
    ensures
        r == same_ignoring_ascii_case(a@, b@),
{
    let other = crate::text::to_chars(b);
    if a.len() != other.len() {
        return false;
    }
    let mut i: usize = 0;
    while i < a.len()
        invariant
            i <= a.len(),
            a.len() == other.len(),
            other@ == b@,
            forall|k: int| 0 <= k < i ==> ascii_lower(a@[k]) == ascii_lower(other@[k]),
        decreases a.len() - i,
    {
        if to_ascii_lower(a[i]) != to_ascii_lower(other[i]) {
            return false;
        }
        i = i + 1;
    }
    true
}

/// Whether a line is worth remembering in the input history: it holds
/// more than white space.
pub fn is_memorable(input: &str) -> (r: bool)
    ensures
        r == (trimmed(input@).len() > 0),
{
    let chars = crate::text::to_chars(input);
    crate::text::trim(&chars).len() > 0
}

/// What a line of input asks for.
pub fn interpret_line(input: &str) -> (r: InputResult)
    ensures
        r@ == line_meaning(input@),
{
    let chars = crate::text::to_chars(input);
    if !(chars.len() > 0 && chars[0] == '/') {
        if equals_ignoring_ascii_case(&chars, "exit") || equals_ignoring_ascii_case(
            &chars,
            "quit",
        ) {
            InputResult::Exit
        } else {
            InputResult::Message(crate::text::from_chars(&crate::text::trim(&chars)))
        }
    } else {
        match handle_slash_command(input) {
            Some(result) => result,
            None => InputResult::Message(crate::text::from_chars(&crate::text::trim(&chars))),
        }
    }
}

} // verus!
