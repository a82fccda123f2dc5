//! The dispatcher: from a tool's name and the parameters of a call to the
//! result of the call.
//!
//! The dispatcher does no work outside the program: it runs no command and
//! touches no file or screen. It proceeds in steps. Each step either ends
//! the call with its result, or names an `Effect` for the host to perform
//! and keeps, as a `Pending`, what it needs to go on. The host performs the
//! effect and reports what came of it as an `Event`; `resume` takes it from
//! there.
//!
//! The edit history is the only state that calls share. Two calls that
//! edit one file at the same time are not kept apart: each decides on what
//! the host reported to it.

use vstd::prelude::*;
use crate::content::outcome_view;
use crate::content::Content;
use crate::content::ContentView;
use crate::content::ToolError;
use crate::content::ToolErrorView;
use crate::editor::editor_request;
use crate::editor::missing_file_message;
use crate::editor::no_history_message;
use crate::editor::read_failure;
use crate::editor::replace_reply;
use crate::editor::replacement;
use crate::editor::reported;
use crate::editor::reported_size;
use crate::editor::reported_unit;
use crate::editor::undo_reply;
use crate::editor::view_admission;
use crate::editor::view_reply;
use crate::editor::write_reply;
use crate::editor::EditorRequest;
use crate::editor::EditorRequestView;
use crate::history::popped;
use crate::history::pushed;
use crate::history::EditHistory;
use crate::history::HistoryView;
use crate::params::ParamsView;
use crate::params::ToolParams;
use crate::paths::extension_tag;
use crate::paths::file_url;
use crate::paths::path_extension;
use crate::text::str_view;
use crate::policy::all_inert;
use crate::policy::compiles;
use crate::policy::effective_rules;
use crate::policy::globs_in_force;
use crate::policy::root_kept;
use crate::policy::rule_text;
use crate::policy::AccessPolicy;
use crate::policy::PolicyError;
use crate::policy::RuleFile;
use crate::screen::capture_reply;
use crate::screen::capture_target;
use crate::screen::captured;
use crate::screen::counted;
use crate::screen::display_choice;
use crate::screen::encoded;
use crate::screen::listed;
use crate::screen::window_choice;
use crate::screen::windows_reply;
use crate::screen::CaptureFailure;
use crate::screen::CaptureFailureView;
use crate::screen::CaptureTarget;
use crate::screen::CaptureTargetView;
use crate::shell::shell_admission;
use crate::shell::shell_reply;
use crate::shell::shell_script;
use crate::tools::instructions_text;
use crate::tools::registry;
use crate::tools::tool_views;
use crate::tools::Tool;
use crate::tools::ToolView;
use crate::tools::kind_of;
use crate::tools::ToolKind;

verus! {

/// Work that the host is asked to do.
#[derive(Debug)]
pub enum Effect {
    /// Run `script` in a shell, with no input, and collect what it writes
    /// to its output stream. The script itself sends its error stream
    /// there, so that the two come as one, interleaved. The command must not
    /// outlive the call: if the call is given up, the command is killed.
    RunShell { script: String },
    /// Find out whether `path` exists, whether it is a regular file, and,
    /// if it is one, how many bytes it has.
    ProbeFile { path: String },
    /// Read the text of the file at `path`.
    ReadFile { path: String },
    /// Make `content` the whole content of the file at `path`.
    WriteFile { path: String, content: String },
    /// List the titles of the windows.
    ListWindows,
    /// Count the displays.
    CountDisplays,
    /// Capture the window at `index` of the list of windows, as a PNG image.
    CaptureWindow { index: usize },
    /// Capture the display numbered `index`, as a PNG image.
    CaptureDisplay { index: u64 },
}

/// The mathematical model of an `Effect`.
pub enum EffectView {
    RunShell { script: Seq<char> },
    ProbeFile { path: Seq<char> },
    ReadFile { path: Seq<char> },
    WriteFile { path: Seq<char>, content: Seq<char> },
    ListWindows,
    CountDisplays,
    CaptureWindow { index: int },
    CaptureDisplay { index: nat },
}

impl View for Effect {
    type V = EffectView;

    open spec fn view(&self) -> EffectView {
        match self {
            Effect::RunShell { script } => EffectView::RunShell { script: script@ },
            Effect::ProbeFile { path } => EffectView::ProbeFile { path: path@ },
            Effect::ReadFile { path } => EffectView::ReadFile { path: path@ },
            Effect::WriteFile { path, content } => EffectView::WriteFile {
                path: path@,
                content: content@,
            },
            Effect::ListWindows => EffectView::ListWindows,
            Effect::CountDisplays => EffectView::CountDisplays,
            Effect::CaptureWindow { index } => EffectView::CaptureWindow { index: *index as int },
            Effect::CaptureDisplay { index } => EffectView::CaptureDisplay { index: *index as nat },
        }
    }
}

/// What came of an effect. A failure is reported by its text.
#[derive(Debug)]
pub enum Event {
    /// The output of the command, or why it could not be run.
    Ran(Result<String, String>),
    /// What is at a path. `size` counts only where `is_file` holds.
    Probed { exists: bool, is_file: bool, size: Result<u64, String> },
    /// The text of the file, or why it could not be read.
    Read(Result<String, String>),
    /// That the file was written, or why it could not be.
    Written(Result<(), String>),
    /// The titles of the windows, `None` where they could not be listed.
    Windows(Option<Vec<String>>),
    /// The number of displays, `None` where they could not be counted.
    Displays(Option<usize>),
    /// The bytes of the image, or why there is none.
    Captured(Result<Vec<u8>, CaptureFailure>),
}

/// The mathematical model of an `Event`.
pub enum EventView {
    Ran(Result<Seq<char>, Seq<char>>),
    Probed { exists: bool, is_file: bool, size: Result<nat, Seq<char>> },
    Read(Result<Seq<char>, Seq<char>>),
    Written(Result<(), Seq<char>>),
    Windows(Option<Seq<Seq<char>>>),
    Displays(Option<nat>),
    Captured(Result<Seq<u8>, CaptureFailureView>),
}

impl View for Event {
    type V = EventView;

    open spec fn view(&self) -> EventView {
        match self {
            Event::Ran(output) => EventView::Ran(reported(*output)),
            Event::Probed { exists, is_file, size } => EventView::Probed {
                exists: *exists,
                is_file: *is_file,
                size: reported_size(*size),
            },
            Event::Read(content) => EventView::Read(reported(*content)),
            Event::Written(written) => EventView::Written(reported_unit(*written)),
            Event::Windows(titles) => EventView::Windows(listed(*titles)),
            Event::Displays(count) => EventView::Displays(counted(*count)),
            Event::Captured(image) => EventView::Captured(captured(*image)),
        }
    }
}

/// What a call waits for, and what it keeps to go on.
#[derive(Debug)]
pub enum Pending {
    /// The output of `command`.
    Shell { command: String },
    /// What is at the path to view.
    ViewProbe { path: String },
    /// The text of the file to view.
    ViewRead { path: String, uri: String },
    /// That the file was written.
    Write { path: String, file_text: String },
    /// What is at the path to edit.
    ReplaceProbe { path: String, old_str: String, new_str: String },
    /// The text of the file to edit.
    ReplaceRead { path: String, old_str: String, new_str: String },
    /// That the edited file was written.
    ReplaceWrite { path: String, snippet: String },
    /// That the earlier content was written back.
    UndoWrite,
    /// The titles of the windows, to list them.
    WindowList,
    /// The titles of the windows, to find the one to capture.
    WindowSearch { title: String },
    /// The image of the window.
    WindowShot { title: String },
    /// The number of displays.
    DisplayCount { index: u64 },
    /// The image of the display.
    DisplayShot { index: u64 },
}

/// The mathematical model of a `Pending`.
pub enum PendingView {
    Shell { command: Seq<char> },
    ViewProbe { path: Seq<char> },
    ViewRead { path: Seq<char>, uri: Seq<char> },
    Write { path: Seq<char>, file_text: Seq<char> },
    ReplaceProbe { path: Seq<char>, old_str: Seq<char>, new_str: Seq<char> },
    ReplaceRead { path: Seq<char>, old_str: Seq<char>, new_str: Seq<char> },
    ReplaceWrite { path: Seq<char>, snippet: Seq<char> },
    UndoWrite,
    WindowList,
    WindowSearch { title: Seq<char> },
    WindowShot { title: Seq<char> },
    DisplayCount { index: nat },
    DisplayShot { index: nat },
}

impl View for Pending {
    type V = PendingView;

    open spec fn view(&self) -> PendingView {
        match self {
            Pending::Shell { command } => PendingView::Shell { command: command@ },
            Pending::ViewProbe { path } => PendingView::ViewProbe { path: path@ },
            Pending::ViewRead { path, uri } => PendingView::ViewRead { path: path@, uri: uri@ },
            Pending::Write { path, file_text } => PendingView::Write {
                path: path@,
                file_text: file_text@,
            },
            Pending::ReplaceProbe { path, old_str, new_str } => PendingView::ReplaceProbe {
                path: path@,
                old_str: old_str@,
                new_str: new_str@,
            },
            Pending::ReplaceRead { path, old_str, new_str } => PendingView::ReplaceRead {
                path: path@,
                old_str: old_str@,
                new_str: new_str@,
            },
            Pending::ReplaceWrite { path, snippet } => PendingView::ReplaceWrite {
                path: path@,
                snippet: snippet@,
            },
            Pending::UndoWrite => PendingView::UndoWrite,
            Pending::WindowList => PendingView::WindowList,
            Pending::WindowSearch { title } => PendingView::WindowSearch { title: title@ },
            Pending::WindowShot { title } => PendingView::WindowShot { title: title@ },
            Pending::DisplayCount { index } => PendingView::DisplayCount { index: *index as nat },
            Pending::DisplayShot { index } => PendingView::DisplayShot { index: *index as nat },
        }
    }
}

/// Where a call stands: at its end, with its result; or waiting for the
/// host to perform an effect.
#[derive(Debug)]
pub enum Step {
    Done(Result<Vec<Content>, ToolError>),
    Await { effect: Effect, pending: Pending },
}

/// The mathematical model of a `Step`.
pub enum StepView {
    Done(Result<Seq<ContentView>, ToolErrorView>),
    Await { effect: EffectView, pending: PendingView },
}

impl View for Step {
    type V = StepView;

    open spec fn view(&self) -> StepView {
        match self {
            Step::Done(result) => StepView::Done(outcome_view(*result)),
            Step::Await { effect, pending } => StepView::Await {
                effect: effect@,
                pending: pending@,
            },
        }
    }
}

/// The step that ends a call with `error`.
pub open spec fn failed(error: ToolErrorView) -> StepView {
    StepView::Done(Err(error))
}

/// Whether a step ends a call with an execution error.
pub open spec fn is_refusal(step: StepView) -> bool {
    step matches StepView::Done(Err(ToolErrorView::ExecutionError(_)))
}

/// What is said of a name that no tool has.
pub open spec fn not_found_message(name: Seq<char>) -> Seq<char> {
    "Tool "@ + name + " not found"@
}

/// What is said of a report that does not answer what was asked.
pub open spec fn unexpected_report_message() -> Seq<char> {
    "The report of the host does not answer what was asked of it"@
}

/// The language that `table` gives for the extension `extension`: that of
/// the first entry for it, or nothing.
pub open spec fn tagged(table: Seq<(String, String)>, extension: Seq<char>) -> Seq<char>
    decreases table.len(),
{
    if table.len() == 0 {
        Seq::empty()
    } else if table[0].0@ == extension {
        table[0].1@
    } else {
        tagged(table.skip(1), extension)
    }
}

/// The language that `table` gives for a file with the extension
/// `extension`, or nothing for a file without one.
pub open spec fn tag_for(table: Seq<(String, String)>, extension: Option<Seq<char>>) -> Seq<char> {
    match extension {
        Some(e) => tagged(table, e),
        None => Seq::empty(),
    }
}

/// The language tag under which the file at `path` is shown.
pub open spec fn language_tag(table: Seq<(String, String)>, path: Seq<char>) -> Seq<char> {
    tag_for(table, path_extension(path))
}

/// The language that `table` gives for a file with the extension
/// `extension`, or nothing for a file without one.
pub fn language_from(table: &Vec<(String, String)>, extension: Option<&str>) -> (r: String)
    ensures
        r@ == tag_for(table@, str_view(extension)),
{
    match extension {
        None => String::new(),
        Some(wanted) => {
            let mut i: usize = 0;
            assert(table@.skip(0) == table@);
            while i < table.len()
                invariant
                    i <= table@.len(),
                    extension == Some(wanted),
                    tagged(table@, wanted@) == tagged(table@.skip(i as int), wanted@),
                decreases table@.len() - i,
            {
                if crate::text::str_equal(table[i].0.as_str(), wanted) {
                    return table[i].1.clone();
                }
                assert(table@.skip(i as int).skip(1) == table@.skip(i + 1));
                i = i + 1;
            }
            String::new()
        },
    }
}

/// The first step of a call of the shell tool.
pub open spec fn shell_first(policy: AccessPolicy, params: ParamsView) -> StepView {
    match shell_admission(policy, params) {
        Err(e) => failed(e),
        Ok(command) => StepView::Await {
            effect: EffectView::RunShell { script: shell_script(command) },
            pending: PendingView::Shell { command },
        },
    }
}

/// The first step towards what `request` asks of the text editor, and the
/// history after it. An undo takes the content to write back out of the
/// history at once.
pub open spec fn editor_begin(history: HistoryView, request: EditorRequestView) -> (
    StepView,
    HistoryView,
) {
    match request {
        EditorRequestView::View { path } => (
            StepView::Await {
                effect: EffectView::ProbeFile { path },
                pending: PendingView::ViewProbe { path },
            },
            history,
        ),
        EditorRequestView::Write { path, file_text } => (
            StepView::Await {
                effect: EffectView::WriteFile { path, content: file_text },
                pending: PendingView::Write { path, file_text },
            },
            history,
        ),
        EditorRequestView::StrReplace { path, old_str, new_str } => (
            StepView::Await {
                effect: EffectView::ProbeFile { path },
                pending: PendingView::ReplaceProbe { path, old_str, new_str },
            },
            history,
        ),
        EditorRequestView::UndoEdit { path } => if history[path].len() == 0 {
            (failed(ToolErrorView::InvalidParameters(no_history_message())), history)
        } else {
            (
                StepView::Await {
                    effect: EffectView::WriteFile { path, content: history[path].last() },
                    pending: PendingView::UndoWrite,
                },
                popped(history, path),
            )
        },
    }
}

/// The first step of a call of the text editor, and the history after it.
pub open spec fn editor_first(
    policy: AccessPolicy,
    history: HistoryView,
    params: ParamsView,
    home: Option<Seq<char>>,
    cwd: Seq<char>,
) -> (StepView, HistoryView) {
    match editor_request(policy, params, home, cwd) {
        Err(e) => (failed(e), history),
        Ok(request) => editor_begin(history, request),
    }
}

/// The first step of a call of the capture tool.
pub open spec fn capture_first(params: ParamsView) -> StepView {
    match capture_target(params) {
        CaptureTargetView::Window(title) => StepView::Await {
            effect: EffectView::ListWindows,
            pending: PendingView::WindowSearch { title },
        },
        CaptureTargetView::Display(index) => StepView::Await {
            effect: EffectView::CountDisplays,
            pending: PendingView::DisplayCount { index },
        },
    }
}

/// The first step of a call of the tool `name`, and the history after it.
pub open spec fn first_step(
    policy: AccessPolicy,
    history: HistoryView,
    name: Seq<char>,
    params: ParamsView,
    home: Option<Seq<char>>,
    cwd: Seq<char>,
) -> (StepView, HistoryView) {
    match kind_of(name) {
        Some(ToolKind::Shell) => (shell_first(policy, params), history),
        Some(ToolKind::TextEditor) => editor_first(policy, history, params, home, cwd),
        Some(ToolKind::ListWindows) => (
            StepView::Await { effect: EffectView::ListWindows, pending: PendingView::WindowList },
            history,
        ),
        Some(ToolKind::ScreenCapture) => (capture_first(params), history),
        None => (failed(ToolErrorView::NotFound(not_found_message(name))), history),
    }
}

/// The step that follows when the host reports `event` to a call that
/// waits with `pending`, and the history after it. A report that does not
/// answer what was asked ends the call with an error.
pub open spec fn next_step(
    table: Seq<(String, String)>,
    history: HistoryView,
    pending: PendingView,
    event: EventView,
) -> (StepView, HistoryView) {
    match (pending, event) {
        (PendingView::Shell { command }, EventView::Ran(output)) => (
            StepView::Done(shell_reply(command, output)),
            history,
        ),
        (PendingView::ViewProbe { path }, EventView::Probed { exists, is_file, size }) => (
            match view_admission(path, is_file, size, file_url(path)) {
                Err(e) => failed(e),
                Ok(uri) => StepView::Await {
                    effect: EffectView::ReadFile { path },
                    pending: PendingView::ViewRead { path, uri },
                },
            },
            history,
        ),
        (PendingView::ViewRead { path, uri }, EventView::Read(content)) => (
            StepView::Done(view_reply(path, uri, language_tag(table, path), content)),
            history,
        ),
        (PendingView::Write { path, file_text }, EventView::Written(written)) => (
            StepView::Done(write_reply(path, extension_tag(path), file_text, written)),
            history,
        ),
        (
            PendingView::ReplaceProbe { path, old_str, new_str },
            EventView::Probed { exists, is_file, size },
        ) => (
            if exists {
                StepView::Await {
                    effect: EffectView::ReadFile { path },
                    pending: PendingView::ReplaceRead { path, old_str, new_str },
                }
            } else {
                failed(ToolErrorView::InvalidParameters(missing_file_message(path)))
            },
            history,
        ),
        (PendingView::ReplaceRead { path, old_str, new_str }, EventView::Read(content)) => {
            match content {
                Err(cause) => (failed(ToolErrorView::ExecutionError(read_failure(cause))), history),
                Ok(text) => match replacement(text, old_str, new_str) {
                    Err(e) => (failed(e), history),
                    Ok(plan) => (
                        StepView::Await {
                            effect: EffectView::WriteFile { path, content: plan.new_content },
                            pending: PendingView::ReplaceWrite { path, snippet: plan.snippet },
                        },
                        pushed(history, path, text),
                    ),
                },
            }
        },
        (PendingView::ReplaceWrite { path, snippet }, EventView::Written(written)) => (
            StepView::Done(replace_reply(path, extension_tag(path), snippet, written)),
            history,
        ),
        (PendingView::UndoWrite, EventView::Written(written)) => (
            StepView::Done(undo_reply(written)),
            history,
        ),
        (PendingView::WindowList, EventView::Windows(titles)) => (
            StepView::Done(windows_reply(titles)),
            history,
        ),
        (PendingView::WindowSearch { title }, EventView::Windows(titles)) => (
            match window_choice(titles, title) {
                Err(e) => failed(e),
                Ok(index) => StepView::Await {
                    effect: EffectView::CaptureWindow { index },
                    pending: PendingView::WindowShot { title },
                },
            },
            history,
        ),
        (PendingView::WindowShot { title }, EventView::Captured(image)) => (
            StepView::Done(capture_reply(CaptureTargetView::Window(title), encoded(image))),
            history,
        ),
        (PendingView::DisplayCount { index }, EventView::Displays(count)) => (
            match display_choice(count, index) {
                Err(e) => failed(e),
                Ok(_) => StepView::Await {
                    effect: EffectView::CaptureDisplay { index },
                    pending: PendingView::DisplayShot { index },
                },
            },
            history,
        ),
        (PendingView::DisplayShot { index }, EventView::Captured(image)) => (
            StepView::Done(capture_reply(CaptureTargetView::Display(index), encoded(image))),
            history,
        ),
        _ => (failed(ToolErrorView::ExecutionError(unexpected_report_message())), history),
    }
}

/// What the server can do, as it tells its clients.
#[derive(Clone, Copy, Debug, PartialEq, Eq, Structural)]
pub struct ServerCapabilities {
    /// Whether tools are on offer.
    pub tools: bool,
    /// Whether the list of tools may change while the server runs.
    pub tools_list_changed: bool,
    /// Whether prompts are on offer.
    pub prompts: bool,
    /// Whether resources are on offer.
    pub resources: bool,
}

/// Why a resource could not be read.
#[derive(Debug)]
pub enum ResourceError {
    /// No resource has the address that was asked for.
    NotFound(String),
}

/// The developer tools of a session: the tools on offer, the instructions
/// for the agent, and the access policy.
pub struct DeveloperRouter {
    tools: Vec<Tool>,
    instructions: String,
    ignore_patterns: AccessPolicy,
    languages: Vec<(String, String)>,
}

impl DeveloperRouter {
    /// The access policy.
    pub closed spec fn policy(&self) -> AccessPolicy {
        self.ignore_patterns
    }

    /// The table that gives a language for a file extension.
    pub closed spec fn language_table(&self) -> Seq<(String, String)> {
        self.languages@
    }

    /// The instructions for the agent.
    pub closed spec fn instructions_view(&self) -> Seq<char> {
        self.instructions@
    }

    /// The tools on offer.
    pub closed spec fn tools_view(&self) -> Seq<ToolView> {
        tool_views(self.tools@)
    }

    /// The developer tools for a session in the working directory `cwd` on
    /// the operating system `os`. `hints` is the text of the project's hint
    /// file, `global` the per-user rule file and `local` the per-project
    /// rule file, each `None` where there is no such file. `languages`
    /// gives, for a file extension, the language under which files with that
    /// extension are shown.
    ///
    /// There is a router exactly where the rules in force can be compiled.
    /// Rule files that hold nothing but empty lines and comments always
    /// give a router.
    pub fn new(
        os: &str,
        cwd: &str,
        hints: Option<&str>,
        global: Option<&RuleFile>,
        local: Option<&RuleFile>,
        languages: Vec<(String, String)>,
    ) -> (r: Result<DeveloperRouter, PolicyError>)
        ensures
            r matches Ok(router) ==> router.tools_view() == registry(),
            r matches Ok(router) ==> router.instructions_view() == instructions_text(
                os@,
                cwd@,
                str_view(hints),
            ),
            r matches Ok(router) ==> router.policy().root() == root_kept(cwd@),
            r matches Ok(router) ==> (cwd@.len() == 0 || cwd@[0] != '.' ==> router.policy().root()
                == cwd@),
            r matches Ok(router) ==> router.policy().globs() == globs_in_force(
                rule_text(global),
                rule_text(local),
            ),
            r matches Ok(router) ==> router.language_table() == languages@,
            r is Ok <==> compiles(
                root_kept(cwd@),
                globs_in_force(rule_text(global), rule_text(local)),
            ),
            all_inert(effective_rules(rule_text(global), rule_text(local))) ==> r is Ok,
    {
        match crate::policy::load_ignore_patterns(cwd, global, local) {
            Err(e) => Err(e),
            Ok(policy) => Ok(DeveloperRouter::with_policy(os, cwd, hints, policy, languages)),
        }
    }

    /// The developer tools for a session in the working directory `cwd` on
    /// the operating system `os`, with the access policy `policy`.
    pub fn with_policy(
        os: &str,
        cwd: &str,
        hints: Option<&str>,
        policy: AccessPolicy,
        languages: Vec<(String, String)>,
    ) -> (router: DeveloperRouter)
        ensures
            router.tools_view() == registry(),
            router.instructions_view() == instructions_text(os@, cwd@, str_view(hints)),
            router.policy() == policy,
            router.language_table() == languages@,
    {
        let tools = crate::tools::all_tools();
        let instructions = crate::tools::compose_instructions(os, cwd, hints);
        DeveloperRouter { tools, instructions, ignore_patterns: policy, languages }
    }

    /// Compiles the access policy for the working directory `cwd` from the
    /// per-user rule file `global` and the per-project rule file `local`,
    /// each `None` where the file does not exist. There is a policy exactly
    /// where the rules in force can be compiled; rule files that hold
    /// nothing but empty lines and comments always give a policy.
    pub fn load_ignore_patterns(cwd: &str, global: Option<&RuleFile>, local: Option<&RuleFile>)
        -> (r: Result<AccessPolicy, PolicyError>)
        ensures
            r is Ok <==> compiles(
                root_kept(cwd@),
                globs_in_force(rule_text(global), rule_text(local)),
            ),
            r matches Ok(p) ==> p.root() == root_kept(cwd@) && p.globs() == globs_in_force(
                rule_text(global),
                rule_text(local),
            ),
            r matches Ok(p) ==> (cwd@.len() == 0 || cwd@[0] != '.' ==> p.root() == cwd@),
            all_inert(effective_rules(rule_text(global), rule_text(local))) ==> r is Ok,
    {
        crate::policy::load_ignore_patterns(cwd, global, local)
    }

    /// Resolves a path as it was asked for: a leading tilde is expanded
    /// with `home`, and the result must be absolute.
    pub fn resolve_path(&self, path_str: &str, home: Option<&str>, cwd: &str) -> (r: Result<
        String,
        ToolError,
    >)
        ensures
            crate::paths::path_outcome(r) == crate::paths::resolved(
                path_str@,
                crate::paths::tilde_expanded(path_str@, str_view(home)),
                cwd@,
            ),
    {
        crate::paths::resolve_path(path_str, home, cwd)
    }

    /// The name of this set of tools.
    pub fn name(&self) -> (r: String)
        ensures
            r@ == "developer"@,
    {
        "developer".to_owned()
    }

    /// The instructions for the agent.
    pub fn instructions(&self) -> (r: String)
        ensures
            r@ == self.instructions_view(),
    {
        self.instructions.clone()
    }

    /// What the server can do: it offers tools, and the list of tools does
    /// not change.
    pub fn capabilities(&self) -> (r: ServerCapabilities)
        ensures
            r == (ServerCapabilities {
                tools: true,
                tools_list_changed: false,
                prompts: false,
                resources: false,
            }),
    {
        ServerCapabilities { tools: true, tools_list_changed: false, prompts: false, resources: false }
    }

    /// The tools on offer.
    pub fn list_tools(&self) -> (r: &Vec<Tool>)
        ensures
            tool_views(r@) == self.tools_view(),
    {
        &self.tools
    }

    /// The resources on offer: none.
    pub fn list_resources(&self) -> (r: Vec<String>)
        ensures
            r@.len() == 0,
    {
        Vec::new()
    }

    /// Reads a resource: every address gives the empty text.
    pub fn read_resource(&self, uri: &str) -> (r: Result<String, ResourceError>)
        ensures
            r matches Ok(text) && text@.len() == 0,
    {
        Ok(String::new())
    }

    /// The access policy.
    pub fn ignore_patterns(&self) -> (r: &AccessPolicy)
        ensures
            *r == self.policy(),
    {
        &self.ignore_patterns
    }

    /// Whether the policy hides `path`.
    pub fn is_ignored(&self, path: &str) -> (r: bool)
        ensures
            r == self.policy().restricts(path@),
            self.policy().is_idle() ==> !r,
    {
        self.ignore_patterns.is_restricted(path)
    }

    /// Looks at a shell command line before it runs: a warning where it
    /// would read a hidden path.
    pub fn check_command_for_ignored_files(&self, command: &str) -> (r: Option<String>)
        ensures
            crate::text::text_view(r) == crate::guard::scan(self.policy(), command@),
            self.policy().is_idle() ==> r is None,
    {
        crate::guard::check_command_for_ignored_files(&self.ignore_patterns, command)
    }

    /// The language tag under which the file at `path` is shown.
    fn language_for(&self, path: &str) -> (r: String)
        ensures
            r@ == language_tag(self.language_table(), path@),
    {
        match crate::paths::extension_of(path) {
            None => language_from(&self.languages, None),
            Some(extension) => language_from(&self.languages, Some(extension.as_str())),
        }
    }

    /// The first step of a call of the shell tool.
    fn bash(&self, params: &ToolParams) -> (step: Step)
        ensures
            step@ == shell_first(self.policy(), params@),
            self.policy().is_idle() ==> !is_refusal(step@),
    {
        match crate::shell::bash_check(&self.ignore_patterns, params) {
            Err(e) => Step::Done(Err(e)),
            Ok(command) => Step::Await {
                effect: Effect::RunShell { script: crate::shell::script_for(command.as_str()) },
                pending: Pending::Shell { command },
            },
        }
    }

    /// The first step of a call of the text editor.
    fn text_editor(
        &self,
        history: &mut EditHistory,
        params: &ToolParams,
        home: Option<&str>,
        cwd: &str,
    ) -> (step: Step)
        ensures
            step@ == editor_first(self.policy(), old(history)@, params@, str_view(home), cwd@).0,
            final(history)@ == editor_first(
                self.policy(),
                old(history)@,
                params@,
                str_view(home),
                cwd@,
            ).1,
            self.policy().is_idle() ==> !is_refusal(step@),
    {
        match crate::editor::text_editor(&self.ignore_patterns, params, home, cwd) {
            Err(e) => Step::Done(Err(e)),
            Ok(EditorRequest::View { path }) => Step::Await {
                effect: Effect::ProbeFile { path: path.clone() },
                pending: Pending::ViewProbe { path },
            },
            Ok(EditorRequest::Write { path, file_text }) => Step::Await {
                effect: Effect::WriteFile { path: path.clone(), content: file_text.clone() },
                pending: Pending::Write { path, file_text },
            },
            Ok(EditorRequest::StrReplace { path, old_str, new_str }) => Step::Await {
                effect: Effect::ProbeFile { path: path.clone() },
                pending: Pending::ReplaceProbe { path, old_str, new_str },
            },
            Ok(EditorRequest::UndoEdit { path }) => match history.undo(path.as_str()) {
                None => Step::Done(
                    Err(
                        ToolError::InvalidParameters(
                            "No edit history available to undo".to_owned(),
                        ),
                    ),
                ),
                Some(content) => Step::Await {
                    effect: Effect::WriteFile { path, content },
                    pending: Pending::UndoWrite,
                },
            },
        }
    }

    /// The first step of a call of the capture tool.
    fn screen_capture(&self, params: &ToolParams) -> (step: Step)
        ensures
            step@ == capture_first(params@),
    {
        match crate::screen::screen_capture_target(params) {
            CaptureTarget::Window(title) => Step::Await {
                effect: Effect::ListWindows,
                pending: Pending::WindowSearch { title },
            },
            CaptureTarget::Display(index) => Step::Await {
                effect: Effect::CountDisplays,
                pending: Pending::DisplayCount { index },
            },
        }
    }

    /// Begins a call of the tool `tool_name` with the parameters
    /// `arguments`. `home` is the home directory, if it is known, and `cwd`
    /// the working directory. A name that no tool has ends the call with
    /// `NotFound`. Under a policy without globs no call is refused here.
    pub fn call_tool(
        &self,
        history: &mut EditHistory,
        tool_name: &str,
        arguments: &ToolParams,
        home: Option<&str>,
        cwd: &str,
    ) -> (step: Step)
        ensures
            step@ == first_step(
                self.policy(),
                old(history)@,
                tool_name@,
                arguments@,
                str_view(home),
                cwd@,
            ).0,
            final(history)@ == first_step(
                self.policy(),
                old(history)@,
                tool_name@,
                arguments@,
                str_view(home),
                cwd@,
            ).1,
            self.policy().is_idle() ==> !is_refusal(step@),
    {
        match crate::tools::tool_named(tool_name) {
            Some(ToolKind::Shell) => self.bash(arguments),
            Some(ToolKind::TextEditor) => self.text_editor(history, arguments, home, cwd),
            Some(ToolKind::ListWindows) => Step::Await {
                effect: Effect::ListWindows,
                pending: Pending::WindowList,
            },
            Some(ToolKind::ScreenCapture) => self.screen_capture(arguments),
            None => Step::Done(
                Err(ToolError::NotFound(crate::text::concat3("Tool ", tool_name, " not found"))),
            ),
        }
    }

    /// Goes on with a call that waited with `pending`, now that the host
    /// reports `event`.
    pub fn resume(&self, history: &mut EditHistory, pending: Pending, event: Event) -> (step: Step)
        ensures
            step@ == next_step(self.language_table(), old(history)@, pending@, event@).0,
            final(history)@ == next_step(self.language_table(), old(history)@, pending@, event@).1,
    {
        match (pending, event) {
            (Pending::Shell { command }, Event::Ran(output)) => Step::Done(
                crate::shell::bash(command.as_str(), output),
            ),
            (Pending::ViewProbe { path }, Event::Probed { exists, is_file, size }) => {
                let uri = crate::paths::uri_of(path.as_str());
                match crate::editor::text_editor_view_check(path.as_str(), is_file, &size, uri) {
                    Err(e) => Step::Done(Err(e)),
                    Ok(uri) => Step::Await {
                        effect: Effect::ReadFile { path: path.clone() },
                        pending: Pending::ViewRead { path, uri },
                    },
                }
            },
            (Pending::ViewRead { path, uri }, Event::Read(content)) => {
                let language = self.language_for(path.as_str());
                Step::Done(
                    crate::editor::text_editor_view(path.as_str(), uri, language.as_str(), content),
                )
            },
            (Pending::Write { path, file_text }, Event::Written(written)) => {
                let language = crate::paths::language_of(path.as_str());
                Step::Done(
                    crate::editor::text_editor_write(
                        path.as_str(),
                        language.as_str(),
                        file_text.as_str(),
                        written,
                    ),
                )
            },
            (
                Pending::ReplaceProbe { path, old_str, new_str },
                Event::Probed { exists, is_file, size },
            ) => {
                if exists {
                    Step::Await {
                        effect: Effect::ReadFile { path: path.clone() },
                        pending: Pending::ReplaceRead { path, old_str, new_str },
                    }
                } else {
                    Step::Done(Err(crate::editor::missing_file(path.as_str())))
                }
            },
            (Pending::ReplaceRead { path, old_str, new_str }, Event::Read(content)) => {
                match content {
                    Err(cause) => Step::Done(
                        Err(
                            ToolError::ExecutionError(
                                crate::text::concat2("Failed to read file: ", cause.as_str()),
                            ),
                        ),
                    ),
                    Ok(text) => match crate::editor::plan_replacement(
                        text.as_str(),
                        old_str.as_str(),
                        new_str.as_str(),
                    ) {
                        Err(e) => Step::Done(Err(e)),
                        Ok(plan) => {
                            history.save_file_history(path.as_str(), text);
                            Step::Await {
                                effect: Effect::WriteFile {
                                    path: path.clone(),
                                    content: plan.new_content,
                                },
                                pending: Pending::ReplaceWrite { path, snippet: plan.snippet },
                            }
                        },
                    },
                }
            },
            (Pending::ReplaceWrite { path, snippet }, Event::Written(written)) => {
                let language = crate::paths::language_of(path.as_str());
                Step::Done(
                    crate::editor::text_editor_replace(
                        path.as_str(),
                        language.as_str(),
                        snippet.as_str(),
                        written,
                    ),
                )
            },
            (Pending::UndoWrite, Event::Written(written)) => Step::Done(
                crate::editor::text_editor_undo(written),
            ),
            (Pending::WindowList, Event::Windows(titles)) => Step::Done(
                crate::screen::list_windows(&titles),
            ),
            (Pending::WindowSearch { title }, Event::Windows(titles)) => {
                match crate::screen::choose_window(&titles, title.as_str()) {
                    Err(e) => Step::Done(Err(e)),
                    Ok(index) => Step::Await {
                        effect: Effect::CaptureWindow { index },
                        pending: Pending::WindowShot { title },
                    },
                }
            },
            (Pending::WindowShot { title }, Event::Captured(image)) => Step::Done(
                crate::screen::screen_capture(
                    &CaptureTarget::Window(title),
                    crate::screen::encode_image(image),
                ),
            ),
            (Pending::DisplayCount { index }, Event::Displays(count)) => {
                match crate::screen::check_display(count, index) {
                    Err(e) => Step::Done(Err(e)),
                    Ok(_) => Step::Await {
                        effect: Effect::CaptureDisplay { index },
                        pending: Pending::DisplayShot { index },
                    },
                }
            },
            (Pending::DisplayShot { index }, Event::Captured(image)) => Step::Done(
                crate::screen::screen_capture(
                    &CaptureTarget::Display(index),
                    crate::screen::encode_image(image),
                ),
            ),
            _ => Step::Done(
                Err(
                    ToolError::ExecutionError(
                        "The report of the host does not answer what was asked of it".to_owned(),
                    ),
                ),
            ),
        }
    }
}

} // verus!
