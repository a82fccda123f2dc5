//! The shell tool: whether a command may run, and what to answer once it
//! has run.

use vstd::prelude::*;
use crate::content::outcome_view;
use crate::content::Content;
use crate::content::ContentView;
use crate::content::Role;
use crate::content::ToolError;
use crate::content::ToolErrorView;
use crate::decimal::decimal;
use crate::editor::reported;
use crate::editor::MAX_CHAR_COUNT;
use crate::editor::PRIORITY_SUPPLEMENTARY;
use crate::guard::scan;
use crate::params::text_param;
use crate::params::ParamsView;
use crate::params::ToolParams;
use crate::policy::AccessPolicy;

verus! {

/// The script that runs `command` with the error stream merged into the
/// output stream: a first line that sends the error stream of the shell,
/// and so of every command it runs, to its output stream, and then the
/// command as it was given. A command line of several commands has the
/// streams of all of them merged.
pub open spec fn shell_script(command: Seq<char>) -> Seq<char> {
    "exec 2>&1\n"@ + command
}

/// The command that a call of the shell tool may run: the `command`
/// parameter, unless it is missing or the command guard warns of it.
pub open spec fn shell_admission(policy: AccessPolicy, params: ParamsView) -> Result<
    Seq<char>,
    ToolErrorView,
> {
    match text_param(params, "command"@) {
        None => Err(ToolErrorView::InvalidParameters("The command string is required"@)),
        Some(command) => match scan(policy, command) {
            Some(warning) => Err(ToolErrorView::ExecutionError(warning)),
            None => Ok(command),
        },
    }
}

/// What is said of output of too many characters: their number, and the limit.
pub open spec fn output_too_long_message(command: Seq<char>, count: nat) -> Seq<char> {
    "Shell output from command '"@ + command + "' has too many characters ("@ + decimal(count)
        + "). Maximum character count is "@ + decimal(MAX_CHAR_COUNT as nat) + "."@
}

/// The answer of the shell tool, given the output of the command or why
/// it could not be run: the output for the agent and again, as a
/// supplement, for the operator. Output of more than `MAX_CHAR_COUNT`
/// characters is not handed back, in whole or in part.
pub open spec fn shell_reply(command: Seq<char>, output: Result<Seq<char>, Seq<char>>) -> Result<
    Seq<ContentView>,
    ToolErrorView,
> {
    match output {
        Err(cause) => Err(ToolErrorView::ExecutionError(cause)),
        Ok(text) => if text.len() > MAX_CHAR_COUNT {
            Err(ToolErrorView::ExecutionError(output_too_long_message(command, text.len())))
        } else {
            Ok(
                seq![
                    ContentView::text(text).only_for(Role::Assistant),
                    ContentView::text(text).only_for(Role::User).ranked(
                        PRIORITY_SUPPLEMENTARY as int,
                    ),
                ],
            )
        },
    }
}

/// Decides whether a call of the shell tool may run its command.
pub fn bash_check(policy: &AccessPolicy, params: &ToolParams) -> (r: Result<String, ToolError>)
    ensures
        crate::paths::path_outcome(r) == shell_admission(*policy, params@),
        policy.is_idle() ==> !(r matches Err(ToolError::ExecutionError(_))),
{
    match params.text("command") {
        None => Err(ToolError::InvalidParameters("The command string is required".to_owned())),
        Some(command) => match crate::guard::check_command_for_ignored_files(policy, command) {
            Some(warning) => Err(ToolError::ExecutionError(warning)),
            None => Ok(command.to_owned()),
        },
    }
}

/// The script that runs `command` with its error stream merged into its
/// output stream.
pub fn script_for(command: &str) -> (r: String)
    ensures
        r@ == shell_script(command@),
{
    crate::text::concat2("exec 2>&1\n", command)
}

/// Answers a call of the shell tool once the command has run, or could not
/// be.
pub fn bash(command: &str, output: Result<String, String>) -> (r: Result<Vec<Content>, ToolError>)
    ensures
        outcome_view(r) == shell_reply(command@, reported(output)),
{
    match output {
        Err(cause) => Err(ToolError::ExecutionError(cause)),
        Ok(text) => {
            let count = crate::text::char_count(text.as_str());
            if count > MAX_CHAR_COUNT {
                let mut message = crate::text::to_chars("Shell output from command '");
                crate::text::append_str(&mut message, command);
                crate::text::append_str(&mut message, "' has too many characters (");
                crate::text::append_str(
                    &mut message,
                    crate::editor::decimal_string(count).as_str(),
                );
                crate::text::append_str(&mut message, "). Maximum character count is ");
                crate::text::append_str(
                    &mut message,
                    crate::editor::decimal_string(MAX_CHAR_COUNT).as_str(),
                );
                crate::text::append_str(&mut message, ".");
                Err(ToolError::ExecutionError(crate::text::from_chars(&message)))
            } else {
                let copy = text.clone();
                Ok(
                    crate::content::pair(
                        Content::text(copy).with_audience(Role::Assistant),
                        Content::text(text).with_audience(Role::User).with_priority(
                            PRIORITY_SUPPLEMENTARY,
                        ),
                    ),
                )
            }
        },
    }
}

} // verus!
