//! The command guard: a look at a shell command line before it runs.
//!
//! The guard splits the command line at white space and, where the first
//! word is a well-known file-reading utility, holds each later word that is
//! no flag against the access policy. It knows nothing of quoting,
//! redirection, pipelines or subshells. It deters; it is no security
//! boundary, and a command line written to get past it will get past it.

use vstd::prelude::*;
use crate::policy::AccessPolicy;
use crate::text::string_views;
use crate::text::text_view;
use crate::text::views;
use crate::text::words;

verus! {

/// Whether `word` names a command that reads no files.
pub open spec fn is_safe_command(word: Seq<char>) -> bool {
    word == "ls"@ || word == "pwd"@ || word == "echo"@ || word == "which"@ || word == "whoami"@
        || word == "date"@ || word == "ps"@
}

/// Whether `word` names a well-known file-reading utility.
pub open spec fn is_file_command(word: Seq<char>) -> bool {
    word == "cat"@ || word == "less"@ || word == "more"@ || word == "head"@ || word == "tail"@
        || word == "grep"@ || word == "awk"@ || word == "sed"@
}

/// Whether `word` is a flag: it begins with a dash.
pub open spec fn is_flag(word: Seq<char>) -> bool {
    word.len() > 0 && word[0] == '-'
}

/// The words of `parts` that are no flags, in order.
pub open spec fn non_flags(parts: Seq<Seq<char>>) -> Seq<Seq<char>>
    decreases parts.len(),
{
    if parts.len() == 0 {
        Seq::empty()
    } else if is_flag(parts.last()) {
        non_flags(parts.drop_last())
    } else {
        non_flags(parts.drop_last()).push(parts.last())
    }
}

/// The paths that a command line may read, as far as the guard can tell:
/// the arguments of a file-reading utility, flags left out. Any other
/// command line has none.
pub open spec fn candidate_paths(command: Seq<char>) -> Seq<Seq<char>> {
    let parts = words(command);
    if parts.len() == 0 || is_safe_command(parts[0]) || !is_file_command(parts[0]) {
        Seq::empty()
    } else {
        non_flags(parts.skip(1))
    }
}

/// The index of the first of `paths` at or after `from` that the policy
/// hides, or their number if it hides none.
pub open spec fn first_hidden(policy: AccessPolicy, paths: Seq<Seq<char>>, from: int) -> int
    decreases paths.len() - from,
{
    if from < 0 || from >= paths.len() {
        from
    } else if policy.restricts(paths[from]) {
        from
    } else {
        first_hidden(policy, paths, from + 1)
    }
}

/// The warning about a hidden path.
pub open spec fn access_warning(path: Seq<char>) -> Seq<char> {
    "Warning: The command attempts to access '"@ + path
        + "' which is restricted by .gooseignore"@
}

/// What the guard says of a command line: a warning that names the first
/// path it may read that the policy hides, or nothing.
pub open spec fn scan(policy: AccessPolicy, command: Seq<char>) -> Option<Seq<char>> {
    let paths = candidate_paths(command);
    let at = first_hidden(policy, paths, 0);
    if 0 <= at < paths.len() {
        Some(access_warning(paths[at]))
    } else {
        None
    }
}

/// `first_hidden` gives the first path at or after `from` that the policy
/// hides.
pub proof fn lemma_first_hidden(policy: AccessPolicy, paths: Seq<Seq<char>>, from: int)
    requires
        0 <= from <= paths.len(),
    ensures
        from <= first_hidden(policy, paths, from) <= paths.len(),
        first_hidden(policy, paths, from) < paths.len() ==> policy.restricts(
            paths[first_hidden(policy, paths, from)],
        ),
        forall|k: int|
            from <= k < first_hidden(policy, paths, from) ==> !policy.restricts(#[trigger] paths[k]),
    decreases paths.len() - from,
{
    if from < paths.len() && !policy.restricts(paths[from]) {
        lemma_first_hidden(policy, paths, from + 1);
    }
}

/// The words that are no flags are words, and none of them is a flag.
pub proof fn lemma_non_flags(parts: Seq<Seq<char>>)
    ensures
        forall|k: int|
            0 <= k < non_flags(parts).len() ==> !is_flag(#[trigger] non_flags(parts)[k])
                && parts.contains(non_flags(parts)[k]),
        forall|k: int|
            0 <= k < parts.len() && !is_flag(#[trigger] parts[k]) ==> non_flags(parts).contains(
                parts[k],
            ),
    decreases parts.len(),
{
    if parts.len() > 0 {
        let front = parts.drop_last();
        lemma_non_flags(front);
        assert forall|k: int| 0 <= k < non_flags(parts).len() implies !is_flag(
            #[trigger] non_flags(parts)[k],
        ) && parts.contains(non_flags(parts)[k]) by {
            if k < non_flags(front).len() {
                let j = choose|j: int| 0 <= j < front.len() && front[j] == non_flags(front)[k];
                assert(parts[j] == non_flags(parts)[k]);
            } else {
                assert(parts[parts.len() - 1] == non_flags(parts)[k]);
            }
        }
        assert forall|k: int| 0 <= k < parts.len() && !is_flag(#[trigger] parts[k]) implies non_flags(
            parts,
        ).contains(parts[k]) by {
            if k < front.len() {
                assert(front[k] == parts[k]);
                let j = choose|j: int|
                    0 <= j < non_flags(front).len() && non_flags(front)[j] == front[k];
                assert(non_flags(parts)[j] == parts[k]);
            } else {
                assert(non_flags(parts)[non_flags(parts).len() - 1] == parts[k]);
            }
        }
    }
}

/// Whatever the policy hides, a command line whose first word names a
/// command that reads no files gets no warning, nor does one whose first
/// word is no file-reading utility, nor an empty one.
pub proof fn law_only_file_commands_are_warned_of(policy: AccessPolicy, command: Seq<char>)
    requires
        words(command).len() == 0 || is_safe_command(words(command)[0]) || !is_file_command(
            words(command)[0],
        ),
    ensures
        scan(policy, command) is None,
{
}

/// There is a warning exactly if the policy hides one of the paths that
/// the command line may read; the warning names the first such path.
pub proof fn law_warning_names_first_hidden_path(policy: AccessPolicy, command: Seq<char>)
    ensures
        scan(policy, command) is Some <==> exists|k: int|
            0 <= k < candidate_paths(command).len() && policy.restricts(
                #[trigger] candidate_paths(command)[k],
            ),
        scan(policy, command) matches Some(warning) ==> exists|k: int|
            0 <= k < candidate_paths(command).len() && warning == access_warning(
                #[trigger] candidate_paths(command)[k],
            ) && policy.restricts(candidate_paths(command)[k]) && forall|j: int|
                0 <= j < k ==> !policy.restricts(#[trigger] candidate_paths(command)[j]),
{
    let paths = candidate_paths(command);
    lemma_first_hidden(policy, paths, 0);
    let at = first_hidden(policy, paths, 0);
    if at < paths.len() {
        assert(policy.restricts(paths[at]));
    }
}

/// Whether `word` names a command that reads no files.
fn safe_command(word: &Vec<char>) -> (r: bool)
    ensures
        r == is_safe_command(word@),
{
    crate::text::chars_equal_str(word, "ls") || crate::text::chars_equal_str(word, "pwd")
        || crate::text::chars_equal_str(word, "echo") || crate::text::chars_equal_str(
        word,
        "which",
    ) || crate::text::chars_equal_str(word, "whoami") || crate::text::chars_equal_str(
        word,
        "date",
    ) || crate::text::chars_equal_str(word, "ps")
}

/// Whether `word` names a well-known file-reading utility.
fn file_command(word: &Vec<char>) -> (r: bool)
    ensures
        r == is_file_command(word@),
{
    crate::text::chars_equal_str(word, "cat") || crate::text::chars_equal_str(word, "less")
        || crate::text::chars_equal_str(word, "more") || crate::text::chars_equal_str(
        word,
        "head",
    ) || crate::text::chars_equal_str(word, "tail") || crate::text::chars_equal_str(
        word,
        "grep",
    ) || crate::text::chars_equal_str(word, "awk") || crate::text::chars_equal_str(word, "sed")
}

/// The paths that a command line may read, as far as the guard can tell.
pub fn paths_at_risk(command: &str) -> (paths: Vec<String>)
    ensures
        string_views(paths@) == candidate_paths(command@),
{
    let mut paths: Vec<String> = Vec::new();
    let chars = crate::text::to_chars(command);
    let parts = crate::text::split_words(&chars);
    if parts.len() == 0 {
        return paths;
    }
    if safe_command(&parts[0]) || !file_command(&parts[0]) {
        return paths;
    }
    let mut i: usize = 1;
    while i < parts.len()
        invariant
            1 <= i <= parts.len(),
            views(parts@) == words(command@),
            string_views(paths@) == non_flags(words(command@).subrange(1, i as int)),
        decreases parts.len() - i,
    {
        let part = &parts[i];
        assert(words(command@).subrange(1, i + 1).drop_last() == words(command@).subrange(
            1,
            i as int,
        ));
        if !(part.len() > 0 && part[0] == '-') {
            paths.push(crate::text::from_chars(part));
        }
        i = i + 1;
    }
    assert(words(command@).subrange(1, parts.len() as int) == words(command@).skip(1));
    paths
}

/// The warning about the hidden path `path`.
pub fn warning_for(path: &str) -> (r: String)
    ensures
        r@ == access_warning(path@),
{
    crate::text::concat3(
        "Warning: The command attempts to access '",
        path,
        "' which is restricted by .gooseignore",
    )
}

/// Looks at a shell command line before it runs. The result is a warning
/// where the command is a file-reading utility and one of its arguments is
/// a path that the policy hides; the warning names the first such path. A
/// policy without globs gives no warning.
pub fn check_command_for_ignored_files(policy: &AccessPolicy, command: &str) -> (r: Option<String>)
    ensures
        text_view(r) == scan(*policy, command@),
        policy.is_idle() ==> r is None,
{
    let paths = paths_at_risk(command);
    let mut i: usize = 0;
    while i < paths.len()
        invariant
            i <= paths.len(),
            string_views(paths@) == candidate_paths(command@),
            first_hidden(*policy, candidate_paths(command@), i as int) == first_hidden(
                *policy,
                candidate_paths(command@),
                0,
            ),
        decreases paths.len() - i,
    {
        assert(string_views(paths@)[i as int] == paths@[i as int]@);
        if policy.is_restricted(paths[i].as_str()) {
            return Some(warning_for(paths[i].as_str()));
        }
        i = i + 1;
    }
    None
}

} // verus!
