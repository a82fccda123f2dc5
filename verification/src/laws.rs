//! What holds of the tools taken together, stated over a host that keeps
//! its files faithfully: what is written can be read back, an edit changes
//! the one place it names, and an undo restores what the edit replaced.

use vstd::prelude::*;
use crate::content::ContentView;
use crate::content::Role;
use crate::content::ToolErrorView;
use crate::editor::absent_message;
use crate::editor::ambiguous_message;
use crate::editor::fenced_file;
use crate::editor::no_history_message;
use crate::editor::request_path;
use crate::editor::restricted_message;
use crate::editor::EditorRequestView;
use crate::editor::MAX_CHAR_COUNT;
use crate::editor::MAX_FILE_SIZE;
use crate::editor::PRIORITY_SUPPLEMENTARY;
use crate::history::pushed;
use crate::history::HistoryView;
use crate::guard::scan;
use crate::params::text_param;
use crate::params::ParamsView;
use crate::paths::file_url;
use crate::paths::resolved;
use crate::paths::tilde_expanded;
use crate::policy::effective_rules;
use crate::policy::ignores;
use crate::policy::active_rules;
use crate::policy::all_inert;
use crate::policy::globs_in_force;
use crate::policy::kept_globs;
use crate::policy::optional_rules;
use crate::policy::AccessPolicy;
use crate::router::editor_begin;
use crate::router::failed;
use crate::router::first_step;
use crate::router::language_tag;
use crate::router::next_step;
use crate::router::not_found_message;
use crate::router::EffectView;
use crate::router::EventView;
use crate::router::PendingView;
use crate::router::StepView;
use crate::search::occurs_at;
use crate::search::spliced;
use crate::shell::output_too_long_message;
use crate::tools::is_registered;
use crate::tools::SHELL;
use crate::tools::TEXT_EDITOR;

verus! {

/// The files of a host: for each path that exists, the text of the file.
pub type Files = Map<Seq<char>, Seq<char>>;

/// The number of bytes that `text` takes in a file.
pub open spec fn byte_size(text: Seq<char>) -> nat {
    vstd::utf8::encode_utf8(text).len()
}

/// What a host that keeps `files` reports of an effect on files; nothing
/// for another effect.
pub open spec fn faithful_report(files: Files, effect: EffectView) -> Option<EventView> {
    match effect {
        EffectView::ProbeFile { path } => Some(
            EventView::Probed {
                exists: files.dom().contains(path),
                is_file: files.dom().contains(path),
                size: Ok(byte_size(files[path])),
            },
        ),
        EffectView::ReadFile { path } => Some(
            if files.dom().contains(path) {
                EventView::Read(Ok(files[path]))
            } else {
                EventView::Read(Err("No such file or directory"@))
            },
        ),
        EffectView::WriteFile { path, content } => Some(EventView::Written(Ok(()))),
        _ => None,
    }
}

/// The files of a host after it has performed `effect`.
pub open spec fn files_after(files: Files, effect: EffectView) -> Files {
    match effect {
        EffectView::WriteFile { path, content } => files.insert(path, content),
        _ => files,
    }
}

/// How a call ended: its result, and the files and the history after it.
pub struct Settled {
    pub result: Result<Seq<ContentView>, ToolErrorView>,
    pub files: Files,
    pub history: HistoryView,
}

/// Where a call that stands at `step` ends when a faithful host performs
/// its effects, if it ends within `fuel` effects and asks for effects on
/// files alone.
pub open spec fn settle(
    table: Seq<(String, String)>,
    files: Files,
    history: HistoryView,
    step: StepView,
    fuel: nat,
) -> Option<Settled>
    decreases fuel,
{
    match step {
        StepView::Done(result) => Some(Settled { result, files, history }),
        StepView::Await { effect, pending } => if fuel == 0 {
            None
        } else {
            match faithful_report(files, effect) {
                None => None,
                Some(event) => {
                    let next = next_step(table, history, pending, event);
                    settle(table, files_after(files, effect), next.1, next.0, (fuel - 1) as nat)
                },
            }
        },
    }
}

/// Where a call of the text editor with the request `request` ends on a
/// faithful host.
pub open spec fn edit(
    table: Seq<(String, String)>,
    files: Files,
    history: HistoryView,
    request: EditorRequestView,
) -> Option<Settled> {
    let begun = editor_begin(history, request);
    settle(table, files, begun.1, begun.0, 3)
}

/// The request to show the file at `path`.
pub open spec fn view_of(path: Seq<char>) -> EditorRequestView {
    EditorRequestView::View { path }
}

/// The request to make `text` the content of the file at `path`.
pub open spec fn write_of(path: Seq<char>, text: Seq<char>) -> EditorRequestView {
    EditorRequestView::Write { path, file_text: text }
}

/// The request to replace `old_str` by `new_str` in the file at `path`.
pub open spec fn replace_of(path: Seq<char>, old_str: Seq<char>, new_str: Seq<char>)
    -> EditorRequestView {
    EditorRequestView::StrReplace { path, old_str, new_str }
}

/// The request to take back the last edit of the file at `path`.
pub open spec fn undo_of(path: Seq<char>) -> EditorRequestView {
    EditorRequestView::UndoEdit { path }
}

/// A call that ended with `result`, leaving `files` and `history`.
pub open spec fn ended(
    result: Result<Seq<ContentView>, ToolErrorView>,
    files: Files,
    history: HistoryView,
) -> Option<Settled> {
    Some(Settled { result, files, history })
}

/// The effect that a step waits for, if it waits.
pub open spec fn awaited_effect(step: StepView) -> Option<EffectView> {
    match step {
        StepView::Await { effect, pending } => Some(effect),
        StepView::Done(_) => None,
    }
}

/// What a step keeps while it waits, if it waits.
pub open spec fn awaited_pending(step: StepView) -> Option<PendingView> {
    match step {
        StepView::Await { effect, pending } => Some(pending),
        StepView::Done(_) => None,
    }
}

/// Where a rule file exists, the built-in rules play no part: the policy
/// hides a path exactly if a matcher for the rules of the files alone
/// ignores it.
pub proof fn law_rule_files_replace_defaults(
    policy: AccessPolicy,
    global: Option<Seq<char>>,
    local: Option<Seq<char>>,
    path: Seq<char>,
)
    requires
        policy.globs() == globs_in_force(global, local),
        global is Some || local is Some,
    ensures
        policy.globs() == kept_globs(
            active_rules(optional_rules(global) + optional_rules(local)),
        ),
        policy.restricts(path) == ignores(
            policy.root(),
            kept_globs(active_rules(optional_rules(global) + optional_rules(local))),
            path,
            false,
        ),
{
}

/// Rule files that hold nothing but comments and blank lines, or nothing
/// at all, hold no rule: a policy compiled from them alone has no glob to
/// hide a path with.
pub proof fn law_rule_files_without_rules_make_an_idle_policy(
    policy: AccessPolicy,
    global: Option<Seq<char>>,
    local: Option<Seq<char>>,
)
    requires
        policy.globs() == globs_in_force(global, local),
        all_inert(effective_rules(global, local)),
    ensures
        policy.globs().len() == 0,
        policy.is_idle(),
{
    crate::policy::lemma_inert_rules_are_not_active(effective_rules(global, local));
}

/// What is written can be read back: after `write` has stored a text that
/// is within the size limits, `view` of the same path answers with that
/// text, character for character. Writing records nothing in the history.
pub proof fn law_write_then_view(
    table: Seq<(String, String)>,
    files: Files,
    history: HistoryView,
    path: Seq<char>,
    text: Seq<char>,
)
    requires
        text.len() <= MAX_CHAR_COUNT,
        byte_size(text) <= MAX_FILE_SIZE,
        file_url(path) is Some,
    ensures
        edit(table, files, history, write_of(path, text)) matches Some(written)
            && written.result is Ok && written.files == files.insert(path, text)
            && written.history == history,
        edit(table, files.insert(path, text), history, view_of(path)) == ended(
            Ok(
                seq![
                    ContentView::resource(file_url(path)->0, text).only_for(Role::Assistant),
                    ContentView::text(fenced_file(path, language_tag(table, path), text)).only_for(
                        Role::User,
                    ).ranked(PRIORITY_SUPPLEMENTARY as int),
                ],
            ),
            files.insert(path, text),
            history,
        ),
{
    reveal_with_fuel(settle, 4);
}

/// An edit whose old text stands nowhere in the file is refused, and
/// neither the file nor the history changes.
pub proof fn law_replace_absent(
    table: Seq<(String, String)>,
    files: Files,
    history: HistoryView,
    path: Seq<char>,
    old_str: Seq<char>,
    new_str: Seq<char>,
)
    requires
        files.dom().contains(path),
        forall|i: int| !occurs_at(files[path], old_str, i),
    ensures
        edit(table, files, history, replace_of(path, old_str, new_str)) == ended(
            Err(ToolErrorView::InvalidParameters(absent_message())),
            files,
            history,
        ),
{
    reveal_with_fuel(settle, 4);
    crate::search::lemma_occurrences(files[path], old_str);
    crate::search::lemma_first_match_from(files[path], old_str, 0);
}

/// An edit whose old text stands at two places of the file, overlapping or
/// not, is refused, and neither the file nor the history changes.
pub proof fn law_replace_ambiguous(
    table: Seq<(String, String)>,
    files: Files,
    history: HistoryView,
    path: Seq<char>,
    old_str: Seq<char>,
    new_str: Seq<char>,
    first: int,
    second: int,
)
    requires
        files.dom().contains(path),
        occurs_at(files[path], old_str, first),
        occurs_at(files[path], old_str, second),
        first != second,
    ensures
        edit(table, files, history, replace_of(path, old_str, new_str)) == ended(
            Err(ToolErrorView::InvalidParameters(ambiguous_message())),
            files,
            history,
        ),
{
    reveal_with_fuel(settle, 4);
    assert(crate::search::occurs_twice(files[path], old_str));
}

/// An edit whose old text stands at one place of the file and nowhere
/// else succeeds: the file then holds the text before that place, the new
/// text, and the text after that place; and the history of the path has the
/// earlier content as its last entry.
pub proof fn law_replace_unique(
    table: Seq<(String, String)>,
    files: Files,
    history: HistoryView,
    path: Seq<char>,
    old_str: Seq<char>,
    new_str: Seq<char>,
    at: int,
)
    requires
        files.dom().contains(path),
        occurs_at(files[path], old_str, at),
        forall|i: int| i != at ==> !occurs_at(files[path], old_str, i),
    ensures
        edit(table, files, history, replace_of(path, old_str, new_str)) matches Some(edited)
            && edited.result is Ok && edited.files == files.insert(
            path,
            spliced(files[path], at, old_str.len() as int, new_str),
        ) && edited.history == pushed(history, path, files[path]),
{
    reveal_with_fuel(settle, 4);
    crate::search::lemma_single_occurrence(files[path], old_str, at);
}

/// The files and the history after the edit that replaces `old_str` by
/// `new_str` in the file at `path`.
pub open spec fn after_replace(
    table: Seq<(String, String)>,
    files: Files,
    history: HistoryView,
    path: Seq<char>,
    old_str: Seq<char>,
    new_str: Seq<char>,
) -> Settled {
    edit(table, files, history, replace_of(path, old_str, new_str))->0
}

/// The files and the history after the undo of the last edit of the file
/// at `path`.
pub open spec fn after_undo(
    table: Seq<(String, String)>,
    files: Files,
    history: HistoryView,
    path: Seq<char>,
) -> Settled {
    edit(table, files, history, undo_of(path))->0
}

/// An undo after an edit restores the file, character for character, and
/// takes the edit's entry out of the history again.
pub proof fn law_undo_restores(
    table: Seq<(String, String)>,
    files: Files,
    history: HistoryView,
    path: Seq<char>,
    old_str: Seq<char>,
    new_str: Seq<char>,
    at: int,
)
    requires
        files.dom().contains(path),
        history.dom().contains(path),
        occurs_at(files[path], old_str, at),
        forall|i: int| i != at ==> !occurs_at(files[path], old_str, i),
    ensures
        edit(
            table,
            after_replace(table, files, history, path, old_str, new_str).files,
            after_replace(table, files, history, path, old_str, new_str).history,
            undo_of(path),
        ) == ended(Ok(seq![ContentView::text("Undid the last edit"@)]), files, history),
{
    reveal_with_fuel(settle, 4);
    law_replace_unique(table, files, history, path, old_str, new_str, at);
    let edited = after_replace(table, files, history, path, old_str, new_str);
    assert(edited.history[path].drop_last() == history[path]);
    assert(crate::history::popped(edited.history, path) =~= history);
    assert(edited.files.insert(path, files[path]) =~= files);
}

/// An undo without history is refused, and nothing changes.
pub proof fn law_undo_without_history(
    table: Seq<(String, String)>,
    files: Files,
    history: HistoryView,
    path: Seq<char>,
)
    requires
        history[path].len() == 0,
    ensures
        edit(table, files, history, undo_of(path)) == ended(
            Err(ToolErrorView::InvalidParameters(no_history_message())),
            files,
            history,
        ),
{
    reveal_with_fuel(settle, 4);
}

/// After an edit of a path without earlier history and the undo of that
/// edit, a second undo is refused, and the file stays as it was restored.
pub proof fn law_second_undo_fails(
    table: Seq<(String, String)>,
    files: Files,
    history: HistoryView,
    path: Seq<char>,
    old_str: Seq<char>,
    new_str: Seq<char>,
    at: int,
)
    requires
        files.dom().contains(path),
        history.dom().contains(path),
        history[path].len() == 0,
        occurs_at(files[path], old_str, at),
        forall|i: int| i != at ==> !occurs_at(files[path], old_str, i),
    ensures
        edit(
            table,
            after_undo(
                table,
                after_replace(table, files, history, path, old_str, new_str).files,
                after_replace(table, files, history, path, old_str, new_str).history,
                path,
            ).files,
            after_undo(
                table,
                after_replace(table, files, history, path, old_str, new_str).files,
                after_replace(table, files, history, path, old_str, new_str).history,
                path,
            ).history,
            undo_of(path),
        ) == ended(Err(ToolErrorView::InvalidParameters(no_history_message())), files, history),
{
    law_undo_restores(table, files, history, path, old_str, new_str, at);
    law_undo_without_history(table, files, history, path);
}

/// What a call of the shell tool keeps while `command` runs.
pub open spec fn waiting_for_output(command: Seq<char>) -> PendingView {
    PendingView::Shell { command }
}

/// Shell output of more than `MAX_CHAR_COUNT` characters ends the call
/// with an error that carries the count and the limit, and none of the
/// output.
pub proof fn law_long_output_is_withheld(
    table: Seq<(String, String)>,
    history: HistoryView,
    command: Seq<char>,
    output: Seq<char>,
)
    requires
        output.len() > MAX_CHAR_COUNT,
    ensures
        next_step(table, history, waiting_for_output(command), EventView::Ran(Ok(output))) == (
            failed(
                ToolErrorView::ExecutionError(output_too_long_message(command, output.len())),
            ),
            history,
        ),
{
}

/// The path that an effect on files concerns.
pub open spec fn effect_path(effect: EffectView) -> Option<Seq<char>> {
    match effect {
        EffectView::ProbeFile { path } => Some(path),
        EffectView::ReadFile { path } => Some(path),
        EffectView::WriteFile { path, content } => Some(path),
        _ => None,
    }
}

/// The path of the file that a call of the text editor works on, while it
/// waits.
pub open spec fn pending_path(pending: PendingView) -> Option<Seq<char>> {
    match pending {
        PendingView::ViewProbe { path } => Some(path),
        PendingView::ViewRead { path, uri } => Some(path),
        PendingView::Write { path, file_text } => Some(path),
        PendingView::ReplaceProbe { path, old_str, new_str } => Some(path),
        PendingView::ReplaceRead { path, old_str, new_str } => Some(path),
        PendingView::ReplaceWrite { path, snippet } => Some(path),
        _ => None,
    }
}

/// A call of the text editor on a path that the policy hides ends at once
/// with an error, whatever it asks for: the host is asked for nothing, and
/// the history stays as it is.
pub proof fn law_hidden_paths_are_not_touched(
    policy: AccessPolicy,
    history: HistoryView,
    params: ParamsView,
    home: Option<Seq<char>>,
    cwd: Seq<char>,
    path: Seq<char>,
)
    requires
        text_param(params, "command"@) is Some,
        text_param(params, "path"@) is Some,
        resolved(
            text_param(params, "path"@)->0,
            tilde_expanded(text_param(params, "path"@)->0, home),
            cwd,
        ) == Ok::<Seq<char>, ToolErrorView>(path),
        policy.restricts(path),
    ensures
        first_step(policy, history, TEXT_EDITOR@, params, home, cwd) == (
            failed(ToolErrorView::ExecutionError(restricted_message(path))),
            history,
        ),
{
    reveal_strlit("shell");
    reveal_strlit("text_editor");
    assert(SHELL@.len() != TEXT_EDITOR@.len());
}

/// Every effect that a call of the text editor asks for concerns the path
/// that the call resolved, and no other.
pub proof fn law_editor_effects_keep_to_the_path(
    table: Seq<(String, String)>,
    history: HistoryView,
    request: EditorRequestView,
    pending: PendingView,
    event: EventView,
)
    ensures
        awaited_effect(editor_begin(history, request).0) matches Some(effect) ==> effect_path(
            effect,
        ) == Some(request_path(request)),
        awaited_pending(editor_begin(history, request).0) matches Some(first) ==> pending_path(
            first,
        ) is None || pending_path(first) == Some(request_path(request)),
        pending_path(pending) is Some ==> (awaited_effect(
            next_step(table, history, pending, event).0,
        ) matches Some(effect) ==> effect_path(effect) == pending_path(pending)),
        pending_path(pending) is Some ==> (awaited_pending(
            next_step(table, history, pending, event).0,
        ) matches Some(next) ==> pending_path(next) == pending_path(pending)),
{
}

/// A command line that the guard warns of is not run: the call ends at
/// once with the warning, and the host is asked for nothing.
pub proof fn law_warned_commands_are_not_run(
    policy: AccessPolicy,
    history: HistoryView,
    params: ParamsView,
    home: Option<Seq<char>>,
    cwd: Seq<char>,
)
    requires
        text_param(params, "command"@) is Some,
        scan(policy, text_param(params, "command"@)->0) is Some,
    ensures
        first_step(policy, history, SHELL@, params, home, cwd) == (
            failed(
                ToolErrorView::ExecutionError(scan(policy, text_param(params, "command"@)->0)->0),
            ),
            history,
        ),
{
}

/// A call ends at once with `NotFound` exactly if no tool on offer has
/// the name that was asked for.
pub proof fn law_unknown_tools_are_not_found(
    policy: AccessPolicy,
    history: HistoryView,
    name: Seq<char>,
    params: ParamsView,
    home: Option<Seq<char>>,
    cwd: Seq<char>,
)
    ensures
        !is_registered(name) <==> first_step(policy, history, name, params, home, cwd).0
            == failed(ToolErrorView::NotFound(not_found_message(name))),
        !is_registered(name) ==> first_step(policy, history, name, params, home, cwd).1 == history,
{
    crate::tools::lemma_kinds_are_registered(name);
}

} // verus!
