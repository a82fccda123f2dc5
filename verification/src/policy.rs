//! The access policy: which paths are hidden from tool calls.
//!
//! A policy is compiled from rule lines in the ignore-file convention
//! (one glob per line, `#` comments, `!` negation, anchoring). The rules come
//! from a per-user rule file and a per-project rule file. Built-in defaults
//! apply only where neither file exists: an empty rule file means that
//! nothing is hidden.
//!
//! Matching itself is done by the `ignore` crate. This module decides which
//! lines reach it, and in which order. A line of which the crate makes no
//! glob (a comment, a blank line, a line it cannot read as a glob) is passed
//! over and changes nothing.

use vstd::prelude::*;
use vstd::utf8::decode_utf8;
use vstd::utf8::encode_utf8;
use vstd::utf8::valid_utf8;
use ignore::gitignore::Gitignore;
use ignore::gitignore::GitignoreBuilder;
use crate::lines::lines;
use crate::text::is_whitespace;
use crate::text::views;

verus! {

/// `ignore::gitignore::GitignoreBuilder`, carried as it is. What it holds is
/// spoken of through `builder_root` and `builder_globs` alone.
#[verifier::external_type_specification]
#[verifier::external_body]
pub struct ExGitignoreBuilder(GitignoreBuilder);

/// `ignore::gitignore::Gitignore`, carried as it is. What it holds is
/// spoken of through `matcher_root` and `matcher_globs` alone.
#[verifier::external_type_specification]
#[verifier::external_body]
pub struct ExGitignore(Gitignore);

/// `ignore::Error`, carried as it is. Nothing is said of what it holds.
#[verifier::external_type_specification]
#[verifier::external_body]
pub struct ExIgnoreError(ignore::Error);

/// The directory that a builder keeps: its field `root`, as text.
pub uninterp spec fn builder_root(b: GitignoreBuilder) -> Seq<char>;

/// The globs that a builder keeps, in order: of each entry of its field
/// `globs`, the text that the entry was made of (`original`).
pub uninterp spec fn builder_globs(b: GitignoreBuilder) -> Seq<Seq<char>>;

/// The directory that a matcher keeps: its field `root`, as text.
pub uninterp spec fn matcher_root(m: Gitignore) -> Seq<char>;

/// The globs that a matcher keeps, in order: of each entry of its field
/// `globs`, the text that the entry was made of (`original`).
pub uninterp spec fn matcher_globs(m: Gitignore) -> Seq<Seq<char>>;

/// The directory that `GitignoreBuilder::new` keeps of the directory `root`
/// it is given.
pub uninterp spec fn root_kept(root: Seq<char>) -> Seq<char>;

/// What `GitignoreBuilder::add_line` keeps of one line, on a builder with
/// the options that `GitignoreBuilder::new` gives it: the text of the glob
/// that it makes of the line, or nothing where it makes none.
pub uninterp spec fn kept(line: Seq<char>) -> Option<Seq<char>>;

/// Whether `GitignoreBuilder::build` succeeds on a builder that keeps the
/// directory `root` and the globs `globs`, each made by `add_line` on a
/// builder with the options that `GitignoreBuilder::new` gives it.
pub uninterp spec fn compiles(root: Seq<char>, globs: Seq<Seq<char>>) -> bool;

/// Whether a matcher that keeps the directory `root` and the globs `globs`,
/// each made by `add_line` on a builder with the options that
/// `GitignoreBuilder::new` gives it, reports `path` as ignored, where
/// `is_dir` says whether the path is that of a directory.
pub uninterp spec fn ignores(
    root: Seq<char>,
    globs: Seq<Seq<char>>,
    path: Seq<char>,
    is_dir: bool,
) -> bool;

/// A line of which no glob comes: a comment, or a line that holds nothing
/// but white space.
pub open spec fn is_inert(line: Seq<char>) -> bool {
    (line.len() > 0 && line[0] == '#') || forall|i: int|
        0 <= i < line.len() ==> is_whitespace(#[trigger] line[i])
}

/// Whether no glob comes of `rules`: every line is a comment or blank.
pub open spec fn all_inert(rules: Seq<Seq<char>>) -> bool {
    forall|i: int| 0 <= i < rules.len() ==> is_inert(#[trigger] rules[i])
}

/// The globs `globs`, and behind them what is kept of `line`.
pub open spec fn with_line(globs: Seq<Seq<char>>, line: Seq<char>) -> Seq<Seq<char>> {
    match kept(line) {
        Some(glob) => globs.push(glob),
        None => globs,
    }
}

/// The globs `globs`, and behind them what is kept of each of `rules`, in
/// order.
pub open spec fn kept_onto(globs: Seq<Seq<char>>, rules: Seq<Seq<char>>) -> Seq<Seq<char>>
    decreases rules.len(),
{
    if rules.len() == 0 {
        globs
    } else {
        with_line(kept_onto(globs, rules.drop_last()), rules.last())
    }
}

/// The globs that are kept of the lines `rules`, in order.
pub open spec fn kept_globs(rules: Seq<Seq<char>>) -> Seq<Seq<char>> {
    kept_onto(Seq::empty(), rules)
}

/// The lines of `rules` that are neither comments nor blank, in order.
pub open spec fn active_rules(rules: Seq<Seq<char>>) -> Seq<Seq<char>>
    decreases rules.len(),
{
    if rules.len() == 0 {
        Seq::empty()
    } else if is_inert(rules.last()) {
        active_rules(rules.drop_last())
    } else {
        active_rules(rules.drop_last()).push(rules.last())
    }
}

/// `GitignoreBuilder::new`: a builder that keeps no glob. The directory it
/// keeps depends on the directory it is given alone; one that does not
/// begin with a dot is kept as it is given.
#[verifier::external_body]
fn new_builder(root: &str) -> (b: GitignoreBuilder)
    ensures
        builder_root(b) == root_kept(root@),
        root@.len() == 0 || root@[0] != '.' ==> builder_root(b) == root@,
        builder_globs(b) == Seq::<Seq<char>>::empty(),
{
    GitignoreBuilder::new(root)
}

/// `GitignoreBuilder::add_line`, on a builder made by `new_builder`: the
/// builder keeps what it kept and, behind that, the glob it makes of the
/// line, if it makes one. Of a comment and of a line of white space alone
/// it makes none; nor does it where it returns an error, which it does for
/// a line that it cannot read as a glob. `from` says which file the line
/// came from.
#[verifier::external_body]
fn add_line(b: &mut GitignoreBuilder, from: Option<&str>, line: &str) -> (r: Result<
    (),
    ignore::Error,
>)
    ensures
        builder_root(*final(b)) == builder_root(*old(b)),
        kept(line@) is None ==> builder_globs(*final(b)) == builder_globs(*old(b)),
        kept(line@) matches Some(glob) ==> builder_globs(*final(b)) == builder_globs(*old(b)).push(
            glob,
        ),
        is_inert(line@) ==> r is Ok && builder_globs(*final(b)) == builder_globs(*old(b)),
        r is Err ==> builder_globs(*final(b)) == builder_globs(*old(b)),
{
    b.add_line(from.map(std::path::PathBuf::from), line).map(|_| ())
}

/// `GitignoreBuilder::build`, on a builder made by `new_builder` and
/// `add_line`: a matcher that keeps what the builder keeps. Whether the
/// build succeeds depends on what the builder keeps and on nothing else; it
/// is given the name `compiles`. The build of no globs succeeds.
#[verifier::external_body]
fn build_matcher(b: &GitignoreBuilder) -> (r: Result<Gitignore, ignore::Error>)
    ensures
        r is Ok <==> compiles(builder_root(*b), builder_globs(*b)),
        r matches Ok(m) ==> matcher_root(m) == builder_root(*b) && matcher_globs(m)
            == builder_globs(*b),
        builder_globs(*b).len() == 0 ==> r is Ok,
{
    b.build()
}

/// `Gitignore::matched`, on a matcher made by `build_matcher`, and
/// `Match::is_ignore` on its result. The answer is a function of what the
/// matcher keeps, of the path and of whether the path is said to be that of
/// a directory. A matcher that keeps no glob ignores nothing.
#[verifier::external_body]
fn matcher_ignores(m: &Gitignore, path: &str, is_dir: bool) -> (r: bool)
    ensures
        r == ignores(matcher_root(*m), matcher_globs(*m), path@, is_dir),
        matcher_globs(*m).len() == 0 ==> !r,
{
    m.matched(path, is_dir).is_ignore()
}

/// `str::from_utf8` of the standard library, and the text copied: there is
/// a text exactly where the bytes are UTF-8, and its encoding is the bytes.
#[verifier::external_body]
fn text_of_bytes(bytes: &Vec<u8>) -> (r: Option<String>)
    ensures
        r is Some <==> valid_utf8(bytes@),
        r matches Some(text) ==> encode_utf8(text@) == bytes@,
{
    std::str::from_utf8(bytes).ok().map(String::from)
}

/// Keeping the lines `first` and then the lines `second` is keeping the
/// lines of both in one go.
pub proof fn lemma_kept_onto_concat(
    globs: Seq<Seq<char>>,
    first: Seq<Seq<char>>,
    second: Seq<Seq<char>>,
)
    ensures
        kept_onto(globs, first + second) == kept_onto(kept_onto(globs, first), second),
    decreases second.len(),
{
    if second.len() == 0 {
        assert(first + second == first);
    } else {
        lemma_kept_onto_concat(globs, first, second.drop_last());
        assert((first + second).drop_last() == first + second.drop_last());
    }
}

/// The active lines of `first` and then of `second` are the active lines of
/// both in one go.
pub proof fn lemma_active_rules_concat(first: Seq<Seq<char>>, second: Seq<Seq<char>>)
    ensures
        active_rules(first + second) == active_rules(first) + active_rules(second),
    decreases second.len(),
{
    if second.len() == 0 {
        assert(first + second == first);
    } else {
        lemma_active_rules_concat(first, second.drop_last());
        assert((first + second).drop_last() == first + second.drop_last());
    }
}

/// Lines that are all comments or blank have no active line among them.
pub proof fn lemma_inert_rules_are_not_active(rules: Seq<Seq<char>>)
    requires
        all_inert(rules),
    ensures
        active_rules(rules).len() == 0,
    decreases rules.len(),
{
    if rules.len() > 0 {
        assert(is_inert(rules[rules.len() - 1]));
        assert forall|i: int| 0 <= i < rules.drop_last().len() implies is_inert(
            #[trigger] rules.drop_last()[i],
        ) by {
            assert(is_inert(rules[i]));
        }
        lemma_inert_rules_are_not_active(rules.drop_last());
    }
}

/// A comment or a blank line changes nothing, wherever it stands among the
/// rules: the active lines are those of the rules without it.
pub proof fn law_comments_and_blank_lines_do_not_count(
    before: Seq<Seq<char>>,
    line: Seq<char>,
    after: Seq<Seq<char>>,
)
    requires
        is_inert(line),
    ensures
        active_rules(before.push(line) + after) == active_rules(before + after),
{
    lemma_active_rules_concat(before.push(line), after);
    lemma_active_rules_concat(before, after);
    assert(before.push(line).drop_last() == before);
}

/// A line of which no glob is kept changes nothing, wherever it stands
/// among the rules: the globs kept are those of the rules without it.
pub proof fn law_lines_without_glob_do_not_count(
    before: Seq<Seq<char>>,
    line: Seq<char>,
    after: Seq<Seq<char>>,
)
    requires
        kept(line) is None,
    ensures
        kept_globs(before.push(line) + after) == kept_globs(before + after),
{
    lemma_kept_onto_concat(Seq::empty(), before.push(line), after);
    lemma_kept_onto_concat(Seq::empty(), before, after);
    assert(before.push(line).drop_last() == before);
}

/// The line feed, as a byte.
pub const LINE_FEED: u8 = 10;

/// The index behind the line of bytes that begins at `from`: behind its
/// line feed, or the number of bytes where the line has none.
pub open spec fn byte_line_stop(bytes: Seq<u8>, from: int) -> int
    decreases bytes.len() - from,
{
    if 0 <= from < bytes.len() && bytes[from] != LINE_FEED {
        byte_line_stop(bytes, from + 1)
    } else if 0 <= from < bytes.len() {
        from + 1
    } else {
        from
    }
}

/// The text that can be read of the bytes of a file from index `from` on,
/// line by line: the text of each line up to the first line that is not
/// UTF-8. That line and what follows it are not read.
pub open spec fn readable_from(bytes: Seq<u8>, from: int) -> Seq<char>
    decreases bytes.len() - from,
{
    if from < 0 || from >= bytes.len() {
        Seq::empty()
    } else {
        let stop = byte_line_stop(bytes, from);
        if from < stop <= bytes.len() && valid_utf8(bytes.subrange(from, stop)) {
            decode_utf8(bytes.subrange(from, stop)) + readable_from(bytes, stop)
        } else {
            Seq::empty()
        }
    }
}

/// The text that can be read of the bytes of a file, line by line.
pub open spec fn readable_text(bytes: Seq<u8>) -> Seq<char> {
    readable_from(bytes, 0)
}

/// The byte-order mark that may stand at the start of a rule file.
pub open spec fn bom() -> char {
    '\u{feff}'
}

/// `line` without the byte-order marks at its start.
pub open spec fn without_bom(line: Seq<char>) -> Seq<char>
    decreases line.len(),
{
    if line.len() > 0 && line[0] == bom() {
        without_bom(line.skip(1))
    } else {
        line
    }
}

/// The rule lines of a rule file with the content `text`: its lines, the
/// first one without byte-order marks.
pub open spec fn file_rules(text: Seq<char>) -> Seq<Seq<char>> {
    let all = lines(text);
    if all.len() == 0 {
        all
    } else {
        all.update(0, without_bom(all[0]))
    }
}

/// The rule lines of a rule file that may be missing.
pub open spec fn optional_rules(text: Option<Seq<char>>) -> Seq<Seq<char>> {
    match text {
        Some(t) => file_rules(t),
        None => Seq::empty(),
    }
}

/// The built-in rules: they hide files that usually hold secrets.
pub open spec fn default_rules() -> Seq<Seq<char>> {
    seq!["**/.env"@, "**/.env.*"@, "**/secrets.*"@]
}

/// The rules in force: those of the per-user file, then those of the
/// per-project file; the built-in rules only where neither file exists.
pub open spec fn effective_rules(global: Option<Seq<char>>, local: Option<Seq<char>>) -> Seq<
    Seq<char>,
> {
    if global is None && local is None {
        default_rules()
    } else {
        optional_rules(global) + optional_rules(local)
    }
}

/// The globs in force: what is kept of the rules in force that are neither
/// comments nor blank.
pub open spec fn globs_in_force(global: Option<Seq<char>>, local: Option<Seq<char>>) -> Seq<
    Seq<char>,
> {
    kept_globs(active_rules(effective_rules(global, local)))
}

/// A rule file: where it lies and what it holds. A file that exists but
/// cannot be read is a rule file with empty text.
pub struct RuleFile {
    pub path: String,
    pub text: String,
}

impl RuleFile {
    /// The rule file at `path` that holds `bytes`. Its text is what can be
    /// read of the bytes line by line: it ends before the first line that
    /// is not UTF-8.
    pub fn from_bytes(path: String, bytes: &Vec<u8>) -> (file: RuleFile)
        ensures
            file.path == path,
            file.text@ == readable_text(bytes@),
    {
        let mut text: Vec<char> = Vec::new();
        let mut from: usize = 0;
        while from < bytes.len()
            invariant
                from <= bytes.len(),
                text@ + readable_from(bytes@, from as int) == readable_text(bytes@),
            decreases bytes.len() - from,
        {
            let mut stop: usize = from;
            while stop < bytes.len() && bytes[stop] != LINE_FEED
                invariant
                    from <= stop <= bytes.len(),
                    byte_line_stop(bytes@, stop as int) == byte_line_stop(bytes@, from as int),
                decreases bytes.len() - stop,
            {
                stop = stop + 1;
            }
            if stop < bytes.len() {
                stop = stop + 1;
            }
            let mut line: Vec<u8> = Vec::new();
            let mut i: usize = from;
            while i < stop
                invariant
                    from <= i <= stop <= bytes.len(),
                    line@ == bytes@.subrange(from as int, i as int),
                decreases stop - i,
            {
                line.push(bytes[i]);
                i = i + 1;
            }
            match text_of_bytes(&line) {
                None => {
                    assert(text@ + Seq::<char>::empty() == text@);
                    return RuleFile { path, text: crate::text::from_chars(&text) };
                },
                Some(decoded) => {
                    proof {
                        vstd::utf8::encode_utf8_decode_utf8(decoded@);
                    }
                    crate::text::append_str(&mut text, decoded.as_str());
                },
            }
            from = stop;
        }
        assert(text@ + Seq::<char>::empty() == text@);
        RuleFile { path, text: crate::text::from_chars(&text) }
    }
}

/// The text of a rule file that may be missing.
pub open spec fn rule_text(file: Option<&RuleFile>) -> Option<Seq<char>> {
    match file {
        Some(f) => Some(f.text@),
        None => None,
    }
}

/// Why no policy could be made.
#[derive(Debug)]
pub enum PolicyError {
    /// The rules could not be compiled into a matcher.
    Compile,
}

/// A compiled set of rules that says which paths are hidden.
pub struct AccessPolicy {
    matcher: Gitignore,
}

impl AccessPolicy {
    /// The directory that paths are matched against.
    pub closed spec fn root(&self) -> Seq<char> {
        matcher_root(self.matcher)
    }

    /// The globs that the policy was compiled from, in order.
    pub closed spec fn globs(&self) -> Seq<Seq<char>> {
        matcher_globs(self.matcher)
    }

    /// Whether the policy hides the file at `path`.
    pub open spec fn restricts(&self, path: Seq<char>) -> bool {
        ignores(self.root(), self.globs(), path, false)
    }

    /// Whether the policy has no glob to hide a path with.
    pub open spec fn is_idle(&self) -> bool {
        self.globs().len() == 0
    }

    /// Whether the policy hides `path`. The path is taken as it is given,
    /// and as that of a file, not of a directory. A policy without globs
    /// hides nothing.
    pub fn is_restricted(&self, path: &str) -> (r: bool)
        ensures
            r == self.restricts(path@),
            self.is_idle() ==> !r,
    {
        matcher_ignores(&self.matcher, path, false)
    }
}

/// `line` without the byte-order marks at its start.
fn strip_bom(line: &Vec<char>) -> (out: Vec<char>)
    ensures
        out@ == without_bom(line@),
{
    let mut i: usize = 0;
    assert(line@.skip(0) == line@);
    while i < line.len() && line[i] == '\u{feff}'
        invariant
            i <= line.len(),
            without_bom(line@.skip(i as int)) == without_bom(line@),
        decreases line.len() - i,
    {
        assert(line@.skip(i as int).skip(1) == line@.skip(i + 1));
        i = i + 1;
    }
    crate::text::copy_range(line, i, line.len())
}

/// Hands the builder the rule lines of one rule file, one by one. A line
/// that the builder refuses is passed over.
fn add_file(b: &mut GitignoreBuilder, file: &RuleFile)
    ensures
        builder_root(*final(b)) == builder_root(*old(b)),
        builder_globs(*final(b)) == kept_onto(
            builder_globs(*old(b)),
            active_rules(file_rules(file.text@)),
        ),
{
    let text = crate::text::to_chars(file.text.as_str());
    let all = crate::lines::split_lines(&text);
    let mut i: usize = 0;
    while i < all.len()
        invariant
            i <= all.len(),
            views(all@) == lines(file.text@),
            builder_root(*b) == builder_root(*old(b)),
            builder_globs(*b) == kept_onto(
                builder_globs(*old(b)),
                active_rules(file_rules(file.text@).take(i as int)),
            ),
        decreases all.len() - i,
    {
        let line = if i == 0 {
            strip_bom(&all[i])
        } else {
            crate::text::copy_range(&all[i], 0, all[i].len())
        };
        proof {
            let rules = file_rules(file.text@);
            assert(line@ == rules[i as int]);
            assert(rules.take(i + 1).drop_last() == rules.take(i as int));
            assert(active_rules(rules.take(i as int)).push(line@).drop_last() == active_rules(
                rules.take(i as int),
            ));
        }
        let line_text = crate::text::from_chars(&line);
        let _ = add_line(b, Some(file.path.as_str()), line_text.as_str());
        i = i + 1;
    }
    assert(file_rules(file.text@).take(all.len() as int) == file_rules(file.text@));
}

/// The built-in rules are neither comments nor blank.
proof fn lemma_default_rules_are_active()
    ensures
        active_rules(default_rules()) == default_rules(),
{
    reveal_strlit("**/.env");
    reveal_strlit("**/.env.*");
    reveal_strlit("**/secrets.*");
    let rules = default_rules();
    assert(rules[0][0] == '*' && rules[1][0] == '*' && rules[2][0] == '*');
    assert(!is_whitespace('*'));
    assert(!is_inert(rules[0]) && !is_inert(rules[1]) && !is_inert(rules[2]));
    reveal_with_fuel(active_rules, 4);
    assert(rules.drop_last() == seq!["**/.env"@, "**/.env.*"@]);
    assert(rules.drop_last().drop_last() == seq!["**/.env"@]);
    assert(rules.drop_last().drop_last().drop_last() == Seq::<Seq<char>>::empty());
}

/// A builder for `cwd` that has been handed the rules in force.
fn assemble(cwd: &str, global: Option<&RuleFile>, local: Option<&RuleFile>) -> (b:
    GitignoreBuilder)
    ensures
        builder_root(b) == root_kept(cwd@),
        cwd@.len() == 0 || cwd@[0] != '.' ==> builder_root(b) == cwd@,
        builder_globs(b) == globs_in_force(rule_text(global), rule_text(local)),
{
    let mut b = new_builder(cwd);
    let mut has_ignore_file = false;
    if let Some(file) = global {
        add_file(&mut b, file);
        has_ignore_file = true;
    }
    if let Some(file) = local {
        add_file(&mut b, file);
        has_ignore_file = true;
    }
    if !has_ignore_file {
        let _ = add_line(&mut b, None, "**/.env");
        let _ = add_line(&mut b, None, "**/.env.*");
        let _ = add_line(&mut b, None, "**/secrets.*");
    }
    proof {
        if has_ignore_file {
            let first = optional_rules(rule_text(global));
            let second = optional_rules(rule_text(local));
            lemma_active_rules_concat(first, second);
            lemma_kept_onto_concat(Seq::empty(), active_rules(first), active_rules(second));
        } else {
            lemma_default_rules_are_active();
            let rules = default_rules();
            reveal_with_fuel(kept_onto, 4);
            assert(rules.drop_last() == seq!["**/.env"@, "**/.env.*"@]);
            assert(rules.drop_last().drop_last() == seq!["**/.env"@]);
            assert(rules.drop_last().drop_last().drop_last() == Seq::<Seq<char>>::empty());
        }
    }
    b
}

/// The policy that comes of an attempt to build a matcher.
pub(crate) fn policy_of(built: Result<Gitignore, ignore::Error>) -> (r: Result<
    AccessPolicy,
    PolicyError,
>)
    ensures
        built is Ok <==> r is Ok,
        built matches Ok(m) ==> r matches Ok(p) && p.root() == matcher_root(m) && p.globs()
            == matcher_globs(m),
        built is Err ==> r matches Err(PolicyError::Compile),
{
    match built {
        Ok(matcher) => Ok(AccessPolicy { matcher }),
        Err(_) => Err(PolicyError::Compile),
    }
}

/// Compiles the policy for the working directory `cwd` from the per-user
/// rule file `global` and the per-project rule file `local`, each `None`
/// where the file does not exist.
///
/// The policy matches paths against the directory that the `ignore` crate
/// keeps of `cwd`, which is `cwd` itself unless it begins with a dot. Its
/// globs are the globs in force: comments and blank lines are no rules, and
/// a line of which the crate makes no glob is passed over and does not
/// stand in the way. There is a policy exactly where the crate can compile
/// the globs in force; where there is none to compile, as with rule files of
/// comments and blank lines, there always is one, and it hides nothing.
pub fn load_ignore_patterns(cwd: &str, global: Option<&RuleFile>, local: Option<&RuleFile>) -> (r:
    Result<AccessPolicy, PolicyError>)
    ensures
        r is Ok <==> compiles(root_kept(cwd@), globs_in_force(rule_text(global), rule_text(local))),
        r matches Ok(p) ==> p.root() == root_kept(cwd@) && p.globs() == globs_in_force(
            rule_text(global),
            rule_text(local),
        ),
        r matches Ok(p) ==> (cwd@.len() == 0 || cwd@[0] != '.' ==> p.root() == cwd@),
        all_inert(effective_rules(rule_text(global), rule_text(local))) ==> r is Ok,
{
    let b = assemble(cwd, global, local);
    proof {
        if all_inert(effective_rules(rule_text(global), rule_text(local))) {
            lemma_inert_rules_are_not_active(
                effective_rules(rule_text(global), rule_text(local)),
            );
        }
    }
    policy_of(build_matcher(&b))
}

} // verus!
