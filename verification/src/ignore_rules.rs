//! The rules by which files of a workspace are left alone.

use ignore::gitignore::{Gitignore, GitignoreBuilder};
use vstd::prelude::*;

use crate::paths::{is_within, path_within};
use crate::text::{begins_with, has_char, same_text, strip, without_prefix};

verus! {

/// The rules of one directory, compiled by `ignore`.
#[verifier::external_type_specification]
#[verifier::external_body]
pub struct ExGitignore(ignore::gitignore::Gitignore);

/// The rules of one directory while lines are added to them.
#[verifier::external_type_specification]
#[verifier::external_body]
pub struct ExGitignoreBuilder(ignore::gitignore::GitignoreBuilder);

/// The lines that were added to a `GitignoreBuilder`.
pub uninterp spec fn added_lines(builder: GitignoreBuilder) -> Seq<Seq<char>>;

/// The directory that a `GitignoreBuilder` was made with.
pub uninterp spec fn builder_dir(builder: GitignoreBuilder) -> Seq<char>;

/// The lines that a `Gitignore` was made of.
pub uninterp spec fn rule_lines(rules: Gitignore) -> Seq<Seq<char>>;

/// The directory that a `Gitignore` was made with.
pub uninterp spec fn rule_dir(rules: Gitignore) -> Seq<char>;

/// Whether `GitignoreBuilder::add_line` can read a line.
pub uninterp spec fn line_is_valid(line: Seq<char>) -> bool;

/// Whether `GitignoreBuilder::build` can compile lines.
pub uninterp spec fn lines_compile(lines: Seq<Seq<char>>) -> bool;

/// What `Gitignore::is_empty` says of lines: whether none of them is a rule.
pub uninterp spec fn lines_are_empty(lines: Seq<Seq<char>>) -> bool;

/// Whether `Gitignore::matched_path_or_any_parents` finds that the lines of the directory `dir`
/// ignore a path.
pub uninterp spec fn lines_ignore(
    dir: Seq<char>,
    lines: Seq<Seq<char>>,
    path: Seq<char>,
    is_dir: bool,
) -> bool;

/// `GitignoreBuilder::new`: a builder for the rules of a directory, without lines.
#[verifier::external_body]
pub(crate) fn rules_builder(dir: &str) -> (builder: GitignoreBuilder)
    ensures
        builder_dir(builder) == dir@,
        added_lines(builder) == Seq::<Seq<char>>::empty(),
{
    GitignoreBuilder::new(dir)
}

/// `GitignoreBuilder::add_line`: one more line in the builder, unless the line cannot be read.
#[verifier::external_body]
pub(crate) fn add_line(builder: &mut GitignoreBuilder, line: &str) -> (added: bool)
    ensures
        added == line_is_valid(line@),
        builder_dir(*final(builder)) == builder_dir(*old(builder)),
        added ==> added_lines(*final(builder)) == added_lines(*old(builder)).push(line@),
        !added ==> added_lines(*final(builder)) == added_lines(*old(builder)),
{
    builder.add_line(None, line).is_ok()
}

/// `GitignoreBuilder::build`: the rules of the lines added, if they can be compiled. No lines always
/// can.
#[verifier::external_body]
pub(crate) fn build_rules(builder: &GitignoreBuilder) -> (rules: Option<Gitignore>)
    ensures
        rules is Some <==> lines_compile(added_lines(*builder)),
        added_lines(*builder).len() == 0 ==> rules is Some,
        rules matches Some(r) ==> rule_dir(r) == builder_dir(*builder),
        rules matches Some(r) ==> rule_lines(r) == added_lines(*builder),
{
    builder.build().ok()
}

/// `Gitignore::is_empty`: whether none of the lines is a rule.
#[verifier::external_body]
fn rules_are_empty(rules: &Gitignore) -> (empty: bool)
    ensures
        empty == lines_are_empty(rule_lines(*rules)),
        rule_lines(*rules).len() == 0 ==> empty,
{
    rules.is_empty()
}

/// `Gitignore::path`: the directory of the rules, less a leading `./`. Where none of the lines is
/// a rule, the empty path. This is so on Unix, of rules whose directory was given as a text.
#[verifier::external_body]
fn rules_path(rules: &Gitignore) -> (path: String)
    ensures
        path@ == rules_of(*rules).scope(),
{
    rules.path().to_string_lossy().into_owned()
}

/// `Gitignore::matched_path_or_any_parents` and `Match::is_ignore`: whether the rules say of a
/// path, or else of the nearest directory above it that they speak of, that it is ignored. The
/// call panics on a path that is still absolute once the directory of the rules is taken off it,
/// unless none of the lines is a rule: these say nothing of any path. On Unix the directory is taken
/// off as `seen_from` says; it is a text, as that of all rules here.
#[verifier::external_body]
fn rules_match(rules: &Gitignore, path: &str, is_dir: bool) -> (ignored: bool)
    requires
        lines_are_empty(rule_lines(*rules)) || in_scope(rules_of(*rules).scope(), path@),
    ensures
        ignored == lines_ignore(rule_dir(*rules), rule_lines(*rules), path@, is_dir),
        lines_are_empty(rule_lines(*rules)) ==> !ignored,
{
    rules.matched_path_or_any_parents(path, is_dir).is_ignore()
}

/// The rules of one directory, as values of logic.
pub struct IgnoreRules {
    pub dir: Seq<char>,
    pub lines: Seq<Seq<char>>,
}

/// What compiled rules were made of.
pub open spec fn rules_of(rules: Gitignore) -> IgnoreRules {
    IgnoreRules { dir: rule_dir(rules), lines: rule_lines(rules) }
}

impl IgnoreRules {
    /// The directory that paths have to lie in for the rules to speak of them.
    pub open spec fn scope(self) -> Seq<char> {
        if lines_are_empty(self.lines) {
            ""@
        } else {
            without_prefix(self.dir, "./"@)
        }
    }

    /// Whether the rules ignore a path.
    pub open spec fn ignore(self, path: Seq<char>, is_dir: bool) -> bool {
        path_within(path, self.scope()) && lines_ignore(self.dir, self.lines, path, is_dir)
    }

    /// Whether the rules can be asked about a path.
    pub open spec fn can_be_asked(self, path: Seq<char>) -> bool {
        path_within(path, self.scope()) ==> {
            ||| lines_are_empty(self.lines)
            ||| in_scope(self.scope(), path)
        }
    }
}

/// A path as seen from the directory `scope`, where its text begins with that directory.
pub open spec fn seen_from(scope: Seq<char>, path: Seq<char>) -> Seq<char> {
    let path = without_prefix(path, "./"@);
    if scope != "."@ && path.contains('/') && scope.is_prefix_of(path) {
        without_prefix(path.skip(scope.len() as int), "/"@)
    } else {
        path
    }
}

/// Whether a path is relative once it is seen from the directory `scope`.
pub open spec fn in_scope(scope: Seq<char>, path: Seq<char>) -> bool {
    !"/"@.is_prefix_of(seen_from(scope, path))
}

/// Whether a path is relative once it is seen from the directory `scope`.
fn is_in_scope(scope: &str, path: &str) -> (inside: bool)
    ensures
        inside == in_scope(scope@, path@),
{
    let path = strip(path, "./");
    if !same_text(scope, ".") && has_char(path, '/') && begins_with(path, scope) {
        let rest = strip(path, scope);
        !begins_with(strip(rest, "/"), "/")
    } else {
        !begins_with(path, "/")
    }
}

/// The rules of a sequence of compiled ones.
pub open spec fn all_rules(rules: Seq<Gitignore>) -> Seq<IgnoreRules> {
    rules.map_values(|r: Gitignore| rules_of(r))
}

/// Whether one of the rules ignores a path.
pub open spec fn one_ignores(rules: Seq<IgnoreRules>, path: Seq<char>, is_dir: bool) -> bool {
    exists|i: int| 0 <= i < rules.len() && (#[trigger] rules[i]).ignore(path, is_dir)
}

/// Whether the rules can be asked about a path one after the other, up to the first that ignores
/// it.
pub open spec fn can_ask_in_turn(rules: Seq<IgnoreRules>, path: Seq<char>, is_dir: bool) -> bool {
    forall|i: int|
        0 <= i < rules.len() && !one_ignores(rules.take(i), path, is_dir)
            ==> (#[trigger] rules[i]).can_be_asked(path)
}

/// The rules of several directories. They are made of texts alone.
pub struct IgnoreMatchers {
    matchers: Vec<Gitignore>,
}

impl View for IgnoreMatchers {
    type V = Seq<IgnoreRules>;

    closed spec fn view(&self) -> Seq<IgnoreRules> {
        all_rules(self.matchers@)
    }
}

impl IgnoreMatchers {
    /// No rules.
    pub fn new() -> (rules: Self)
        ensures
            rules@ == Seq::<IgnoreRules>::empty(),
    {
        let rules = IgnoreMatchers { matchers: Vec::new() };
        assert(rules@ =~= Seq::<IgnoreRules>::empty());
        rules
    }

    /// Puts the rules of one more directory behind the others.
    pub(crate) fn push(&mut self, rules: Gitignore)
        ensures
            final(self)@ == old(self)@.push(rules_of(rules)),
    {
        self.matchers.push(rules);
        assert(self@ =~= old(self)@.push(rules_of(rules)));
    }

    /// How many directories have rules.
    pub fn len(&self) -> (len: usize)
        ensures
            len == self@.len(),
    {
        self.matchers.len()
    }
}

/// What rules say of a path: whether they ignore it, or nothing where they cannot be asked.
fn ask(rules: &Gitignore, path: &str, is_dir: bool) -> (ignored: Option<bool>)
    ensures
        ignored is Some <==> rules_of(*rules).can_be_asked(path@),
        ignored matches Some(i) ==> i == rules_of(*rules).ignore(path@, is_dir),
{
    let scope = rules_path(rules);
    if !is_within(path, scope.as_str()) {
        return Some(false);
    }
    if rules_are_empty(rules) || is_in_scope(scope.as_str(), path) {
        Some(rules_match(rules, path, is_dir))
    } else {
        None
    }
}

/// Where neither the first rules nor the next ignore a path, none of them does.
proof fn lemma_none_ignores_yet(rules: Seq<IgnoreRules>, i: int, path: Seq<char>, is_dir: bool)
    requires
        0 <= i < rules.len(),
        !one_ignores(rules.take(i), path, is_dir),
        !rules[i].ignore(path, is_dir),
    ensures
        !one_ignores(rules.take(i + 1), path, is_dir),
{
    let first = rules.take(i + 1);
    assert forall|j: int| 0 <= j < first.len() implies !(#[trigger] first[j]).ignore(
        path,
        is_dir,
    ) by {
        if j < i {
            assert(rules.take(i)[j] == first[j]);
        }
    }
}

/// Whether the rules can be asked about a path one after the other, up to the first that ignores
/// it.
pub fn can_ask(rules: &IgnoreMatchers, path: &str, is_dir: bool) -> (can: bool)
    ensures
        can == can_ask_in_turn(rules@, path@, is_dir),
{
    let mut i: usize = 0;
    while i < rules.matchers.len()
        invariant
            i <= rules.matchers.len(),
            !one_ignores(rules@.take(i as int), path@, is_dir),
            forall|j: int| 0 <= j < i ==> (#[trigger] rules@[j]).can_be_asked(path@),
        decreases rules.matchers.len() - i,
    {
        let ghost all = rules@;
        assert(all[i as int] == rules_of(rules.matchers@[i as int]));
        match ask(&rules.matchers[i], path, is_dir) {
            None => {
                return false;
            },
            Some(true) => {
                assert forall|j: int|
                    0 <= j < all.len() && !one_ignores(all.take(j), path@, is_dir) implies (
                #[trigger] all[j]).can_be_asked(path@) by {
                    if j > i {
                        assert(all.take(j)[i as int] == all[i as int]);
                    }
                }
                return true;
            },
            Some(false) => {
                proof {
                    lemma_none_ignores_yet(all, i as int, path@, is_dir);
                }
            },
        }
        i += 1;
    }
    true
}

/// Whether one of the rules ignores a path.
pub fn any_ignores(rules: &IgnoreMatchers, path: &str, is_dir: bool) -> (ignored: bool)
    requires
        can_ask_in_turn(rules@, path@, is_dir),
    ensures
        ignored == one_ignores(rules@, path@, is_dir),
{
    let mut i: usize = 0;
    while i < rules.matchers.len()
        invariant
            i <= rules.matchers.len(),
            can_ask_in_turn(rules@, path@, is_dir),
            !one_ignores(rules@.take(i as int), path@, is_dir),
        decreases rules.matchers.len() - i,
    {
        let ghost all = rules@;
        assert(all[i as int] == rules_of(rules.matchers@[i as int]));
        assert(all[i as int].can_be_asked(path@));
        if let Some(true) = ask(&rules.matchers[i], path, is_dir) {
            return true;
        }
        proof {
            lemma_none_ignores_yet(all, i as int, path@, is_dir);
        }
        i += 1;
    }
    assert(rules@.take(rules@.len() as int) =~= rules@);
    false
}

/// Rules ignore a path where it lies in their directory and their lines say so, and there alone. The
/// directory counts without a leading `./`, and rules without a line that is a rule stand in no
/// directory of their own.
pub proof fn rules_speak_of_their_directory(rules: IgnoreRules, path: Seq<char>, is_dir: bool)
    ensures
        rules.ignore(path, is_dir) <==> path_within(path, rules.scope()) && lines_ignore(
            rules.dir,
            rules.lines,
            path,
            is_dir,
        ),
        lines_are_empty(rules.lines) ==> rules.scope() == ""@,
        !lines_are_empty(rules.lines) && "./"@.is_prefix_of(rules.dir) ==> rules.dir == "./"@
            + rules.scope(),
        !lines_are_empty(rules.lines) && !"./"@.is_prefix_of(rules.dir) ==> rules.scope()
            == rules.dir,
        !rules.can_be_asked(path) <==> {
            &&& path_within(path, rules.scope())
            &&& !lines_are_empty(rules.lines)
            &&& !in_scope(rules.scope(), path)
        },
{
    if "./"@.is_prefix_of(rules.dir) {
        assert(rules.dir =~= "./"@ + rules.dir.skip("./"@.len() as int));
    }
}

proof fn lemma_begins_with_a_slash(text: Seq<char>)
    ensures
        "/"@.is_prefix_of(text) <==> text.len() > 0 && text[0] == '/',
{
    reveal_strlit("/");
    if text.len() > 0 && text[0] == '/' {
        assert("/"@ =~= text.take(1));
    }
    if "/"@.is_prefix_of(text) {
        assert(text.take(1)[0] == '/');
    }
}

/// A path that begins with the text of a directory is relative to it unless two slashes follow. Any
/// other path is relative where it does not begin with a slash. From `.` this goes for all paths,
/// and a leading `./` of a path does not count.
pub proof fn relative_to_a_directory(
    scope: Seq<char>,
    rest: Seq<char>,
    path: Seq<char>,
)
    ensures
        scope != "."@ && !"./"@.is_prefix_of(scope + rest) ==> (in_scope(scope, scope + rest)
            <==> !"//"@.is_prefix_of(rest)),
        !scope.is_prefix_of(path) && !"./"@.is_prefix_of(path) ==> (in_scope(scope, path)
            <==> !"/"@.is_prefix_of(path)),
        !"./"@.is_prefix_of(path) ==> (in_scope("."@, path) <==> !"/"@.is_prefix_of(path)),
        !"./"@.is_prefix_of(path) ==> (in_scope(scope, "./"@ + path) <==> in_scope(scope, path)),
{
    reveal_strlit("/");
    reveal_strlit("//");
    reveal_strlit("./");
    let whole = scope + rest;
    assert(scope =~= whole.take(scope.len() as int));
    assert(whole.skip(scope.len() as int) =~= rest);
    lemma_begins_with_a_slash(rest);
    let after = without_prefix(rest, "/"@);
    lemma_begins_with_a_slash(after);
    assert("//"@.is_prefix_of(rest) <==> rest.len() > 1 && rest[0] == '/' && rest[1] == '/') by {
        if rest.len() > 1 && rest[0] == '/' && rest[1] == '/' {
            assert("//"@ =~= rest.take(2));
        }
        if "//"@.is_prefix_of(rest) {
            assert(rest.take(2)[0] == '/' && rest.take(2)[1] == '/');
        }
    }
    lemma_begins_with_a_slash(whole);
    if rest.len() > 0 && rest[0] == '/' {
        assert(whole[scope.len() as int] == '/');
    }
    let dotted = "./"@ + path;
    assert("./"@ =~= dotted.take(2));
    assert(dotted.skip(2) =~= path);
}

/// One rule set decides for itself alone, and without rules nothing is ignored.
pub proof fn rules_decide_one_by_one(
    rules: Seq<IgnoreRules>,
    next: IgnoreRules,
    path: Seq<char>,
    is_dir: bool,
)
    ensures
        !one_ignores(Seq::empty(), path, is_dir),
        one_ignores(rules.push(next), path, is_dir) <==> one_ignores(rules, path, is_dir)
            || next.ignore(path, is_dir),
{
    let all = rules.push(next);
    if one_ignores(rules, path, is_dir) {
        let i = choose|i: int| 0 <= i < rules.len() && (#[trigger] rules[i]).ignore(path, is_dir);
        assert(all[i].ignore(path, is_dir));
    }
    if next.ignore(path, is_dir) {
        assert(all[rules.len() as int].ignore(path, is_dir));
    }
    if one_ignores(all, path, is_dir) {
        let i = choose|i: int| 0 <= i < all.len() && (#[trigger] all[i]).ignore(path, is_dir);
        if i < rules.len() {
            assert(rules[i].ignore(path, is_dir));
        }
    }
}

/// Rules are asked one after the other: the next is not asked where one before it ignores the path.
pub proof fn asking_stops_where_a_path_is_ignored(
    rules: Seq<IgnoreRules>,
    next: IgnoreRules,
    path: Seq<char>,
    is_dir: bool,
)
    ensures
        can_ask_in_turn(Seq::empty(), path, is_dir),
        can_ask_in_turn(rules.push(next), path, is_dir) <==> can_ask_in_turn(rules, path, is_dir)
            && (one_ignores(rules, path, is_dir) || next.can_be_asked(path)),
{
    let all = rules.push(next);
    assert(all.take(rules.len() as int) =~= rules);
    assert(all[rules.len() as int] == next);
    assert forall|i: int| 0 <= i < rules.len() implies #[trigger] all.take(i) == rules.take(i)
        && all[i] == rules[i] by {
        assert(all.take(i) =~= rules.take(i));
    }
    if can_ask_in_turn(all, path, is_dir) {
        assert forall|i: int|
            0 <= i < rules.len() && !one_ignores(rules.take(i), path, is_dir) implies (
        #[trigger] rules[i]).can_be_asked(path) by {
            assert(all.take(i) == rules.take(i));
            assert(all[i].can_be_asked(path));
        }
    }
    if can_ask_in_turn(rules, path, is_dir) && (one_ignores(rules, path, is_dir)
        || next.can_be_asked(path)) {
        assert forall|i: int|
            0 <= i < all.len() && !one_ignores(all.take(i), path, is_dir) implies (
        #[trigger] all[i]).can_be_asked(path) by {
            if i < rules.len() {
                assert(all.take(i) == rules.take(i));
                assert(rules[i].can_be_asked(path));
            }
        }
    }
}

/// Compiled rules keep the directory and the lines that they were made of.
pub proof fn compiled_rules_keep_what_they_are_made_of(rules: Seq<Gitignore>)
    ensures
        all_rules(rules).len() == rules.len(),
        forall|i: int|
            0 <= i < rules.len() ==> (#[trigger] all_rules(rules)[i]).dir == rule_dir(rules[i])
                && all_rules(rules)[i].lines == rule_lines(rules[i]),
{
}

} // verus!
