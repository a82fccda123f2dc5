//! The tools on offer: their names, what they are for and what parameters
//! they take. Also the instructions that tell an agent how to use them.

use vstd::prelude::*;

verus! {

/// The name of the shell tool.
pub const SHELL: &'static str = "shell";

/// The name of the text editor tool.
pub const TEXT_EDITOR: &'static str = "text_editor";

/// The name of the window-listing tool.
pub const LIST_WINDOWS: &'static str = "list_windows";

/// The name of the capture tool.
pub const SCREEN_CAPTURE: &'static str = "screen_capture";

/// What the shell tool is for.
pub const SHELL_DESCRIPTION: &'static str =
    "Execute a command in the shell.

This will return the output and error concatenated into a single string, as
you would see from running on the command line. There will also be an indication
of if the command succeeded or failed.

Avoid commands that produce a large amount of ouput, and consider piping those outputs to files.
If you need to run a long lived command, background it - e.g. `uvicorn main:app &` so that
this tool does not run indefinitely.

**Important**: Use ripgrep - `rg` - when you need to locate a file or a code reference, other solutions
may show ignored or hidden files. For example *do not* use `find` or `ls -r`
  - To locate a file by name: `rg --files | rg example.py`
  - To locate consent inside files: `rg 'class Example'`
";

/// The parameters of the shell tool, as a JSON schema.
pub const SHELL_SCHEMA: &'static str =
    "{\"type\":\"object\",\"required\":[\"command\"],\"properties\":{\"command\":{\"type\":\"string\"}}}";

/// What the text editor tool is for.
pub const TEXT_EDITOR_DESCRIPTION: &'static str =
    "Perform text editing operations on files.

The `command` parameter specifies the operation to perform. Allowed options are:
- `view`: View the content of a file.
- `write`: Create or overwrite a file with the given content
- `str_replace`: Replace a string in a file with a new string.
- `undo_edit`: Undo the last edit made to a file.

To use the write command, you must specify `file_text` which will become the new content of the file. Be careful with
existing files! This is a full overwrite, so you must include everything - not just sections you are modifying.

To use the str_replace command, you must specify both `old_str` and `new_str` - the `old_str` needs to exactly match one
unique section of the original file, including any whitespace. Make sure to include enough context that the match is not
ambiguous. The entire original string will be replaced with `new_str`.
";

/// The parameters of the text editor tool, as a JSON schema.
pub const TEXT_EDITOR_SCHEMA: &'static str =
    "{\"type\":\"object\",\"required\":[\"command\",\"path\"],\"properties\":{\"path\":{\"description\":\"Absolute path to file or directory, e.g. `/repo/file.py` or `/repo`.\",\"type\":\"string\"},\"command\":{\"type\":\"string\",\"enum\":[\"view\",\"write\",\"str_replace\",\"undo_edit\"],\"description\":\"Allowed options are: `view`, `write`, `str_replace`, undo_edit`.\"},\"old_str\":{\"type\":\"string\"},\"new_str\":{\"type\":\"string\"},\"file_text\":{\"type\":\"string\"}}}";

/// What the window-listing tool is for.
pub const LIST_WINDOWS_DESCRIPTION: &'static str =
    "List all available window titles that can be used with screen_capture.
Returns a list of window titles that can be used with the window_title parameter
of the screen_capture tool.
";

/// The parameters of the window-listing tool, as a JSON schema.
pub const LIST_WINDOWS_SCHEMA: &'static str =
    "{\"type\":\"object\",\"required\":[],\"properties\":{}}";

/// What the capture tool is for.
pub const SCREEN_CAPTURE_DESCRIPTION: &'static str =
    "Capture a screenshot of a specified display or window.
You can capture either:
1. A full display (monitor) using the display parameter
2. A specific window by its title using the window_title parameter

Only one of display or window_title should be specified.
";

/// The parameters of the capture tool, as a JSON schema.
pub const SCREEN_CAPTURE_SCHEMA: &'static str =
    "{\"type\":\"object\",\"required\":[],\"properties\":{\"display\":{\"type\":\"integer\",\"default\":0,\"description\":\"The display number to capture (0 is main display)\"},\"window_title\":{\"type\":\"string\",\"default\":null,\"description\":\"Optional: the exact title of the window to capture. use the list_windows tool to find the available windows.\"}}}";

/// The instructions up to the name of the operating system.
pub const INSTRUCTIONS_HEAD: &'static str =
    "The developer extension gives you the capabilities to edit code files and run shell commands,
and can be used to solve a wide range of problems.

You can use the shell tool to run any command that would work on the relevant operating system.
Use the shell tool as needed to locate files or interact with the project.

Your windows/screen tools can be used for visual debugging. You should not use these tools unless
prompted to, but you can mention they are available if they are relevant.

operating system: ";

/// What stands between the instructions and the hints of the project.
pub const HINTS_HEAD: &'static str =
    "\n### Project Hints\nThe developer extension includes some hints for working on the project in this directory.\n";

/// What is known of a tool: its name, what it is for, and the schema of
/// its parameters, written in JSON.
#[derive(Clone, Debug)]
pub struct Tool {
    pub name: String,
    pub description: String,
    pub input_schema: String,
}

/// The mathematical model of a `Tool`.
pub struct ToolView {
    pub name: Seq<char>,
    pub description: Seq<char>,
    pub input_schema: Seq<char>,
}

impl View for Tool {
    type V = ToolView;

    open spec fn view(&self) -> ToolView {
        ToolView {
            name: self.name@,
            description: self.description@,
            input_schema: self.input_schema@,
        }
    }
}

/// The models of a sequence of tools.
pub open spec fn tool_views(tools: Seq<Tool>) -> Seq<ToolView> {
    Seq::new(tools.len(), |i: int| tools[i]@)
}

/// The tools on offer, in the order in which they are listed.
pub open spec fn registry() -> Seq<ToolView> {
    seq![
        ToolView {
            name: SHELL@,
            description: SHELL_DESCRIPTION@,
            input_schema: SHELL_SCHEMA@,
        },
        ToolView {
            name: TEXT_EDITOR@,
            description: TEXT_EDITOR_DESCRIPTION@,
            input_schema: TEXT_EDITOR_SCHEMA@,
        },
        ToolView {
            name: LIST_WINDOWS@,
            description: LIST_WINDOWS_DESCRIPTION@,
            input_schema: LIST_WINDOWS_SCHEMA@,
        },
        ToolView {
            name: SCREEN_CAPTURE@,
            description: SCREEN_CAPTURE_DESCRIPTION@,
            input_schema: SCREEN_CAPTURE_SCHEMA@,
        },
    ]
}

/// Whether a tool with the name `name` is on offer.
pub open spec fn is_registered(name: Seq<char>) -> bool {
    exists|i: int| 0 <= i < registry().len() && (#[trigger] registry()[i]).name == name
}

/// The tools that can be called.
#[derive(Clone, Copy, Debug, PartialEq, Eq, Structural)]
pub enum ToolKind {
    Shell,
    TextEditor,
    ListWindows,
    ScreenCapture,
}

/// The tool that has the name `name`, if one has.
pub open spec fn kind_of(name: Seq<char>) -> Option<ToolKind> {
    if name == SHELL@ {
        Some(ToolKind::Shell)
    } else if name == TEXT_EDITOR@ {
        Some(ToolKind::TextEditor)
    } else if name == LIST_WINDOWS@ {
        Some(ToolKind::ListWindows)
    } else if name == SCREEN_CAPTURE@ {
        Some(ToolKind::ScreenCapture)
    } else {
        None
    }
}

/// The tools that can be called are the tools on offer.
pub proof fn lemma_kinds_are_registered(name: Seq<char>)
    ensures
        kind_of(name) is Some <==> is_registered(name),
{
    if is_registered(name) {
        assert(registry().len() == 4);
    } else {
        assert(registry()[0].name != name);
        assert(registry()[1].name != name);
        assert(registry()[2].name != name);
        assert(registry()[3].name != name);
    }
}

/// The tool that has the name `name`, if one has.
pub fn tool_named(name: &str) -> (r: Option<ToolKind>)
    ensures
        r == kind_of(name@),
{
    if crate::text::str_equal(name, SHELL) {
        Some(ToolKind::Shell)
    } else if crate::text::str_equal(name, TEXT_EDITOR) {
        Some(ToolKind::TextEditor)
    } else if crate::text::str_equal(name, LIST_WINDOWS) {
        Some(ToolKind::ListWindows)
    } else if crate::text::str_equal(name, SCREEN_CAPTURE) {
        Some(ToolKind::ScreenCapture)
    } else {
        None
    }
}

impl Tool {
    /// A tool with the given name, description and schema.
    pub fn new(name: &str, description: &str, input_schema: &str) -> (t: Tool)
        ensures
            t@ == (ToolView {
                name: name@,
                description: description@,
                input_schema: input_schema@,
            }),
    {
        Tool {
            name: name.to_owned(),
            description: description.to_owned(),
            input_schema: input_schema.to_owned(),
        }
    }
}

/// The tools on offer, in the order in which they are listed.
pub fn all_tools() -> (tools: Vec<Tool>)
    ensures
        tool_views(tools@) == registry(),
{
    let mut tools: Vec<Tool> = Vec::new();
    tools.push(Tool::new(SHELL, SHELL_DESCRIPTION, SHELL_SCHEMA));
    tools.push(Tool::new(TEXT_EDITOR, TEXT_EDITOR_DESCRIPTION, TEXT_EDITOR_SCHEMA));
    tools.push(Tool::new(LIST_WINDOWS, LIST_WINDOWS_DESCRIPTION, LIST_WINDOWS_SCHEMA));
    tools.push(Tool::new(SCREEN_CAPTURE, SCREEN_CAPTURE_DESCRIPTION, SCREEN_CAPTURE_SCHEMA));
    tools
}

/// The instructions for an agent that works in the directory `cwd` on the
/// operating system `os`: what the tools are for, where it is, and the
/// project's hints where there are any.
pub open spec fn instructions_text(os: Seq<char>, cwd: Seq<char>, hints: Option<Seq<char>>) -> Seq<
    char,
> {
    let base = INSTRUCTIONS_HEAD@ + os + "\ncurrent directory: "@ + cwd + "\n\n"@;
    match hints {
        Some(text) => base + HINTS_HEAD@ + text,
        None => base,
    }
}

/// Writes the instructions for an agent.
pub fn compose_instructions(os: &str, cwd: &str, hints: Option<&str>) -> (r: String)
    ensures
        r@ == instructions_text(os@, cwd@, crate::text::str_view(hints)),
{
    let mut out = crate::text::to_chars(INSTRUCTIONS_HEAD);
    crate::text::append_str(&mut out, os);
    crate::text::append_str(&mut out, "\ncurrent directory: ");
    crate::text::append_str(&mut out, cwd);
    crate::text::append_str(&mut out, "\n\n");
    match hints {
        Some(text) => {
            crate::text::append_str(&mut out, HINTS_HEAD);
            crate::text::append_str(&mut out, text);
        },
        None => {},
    }
    crate::text::from_chars(&out)
}

} // verus!
