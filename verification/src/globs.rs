//! The names of the files that hold rules on what to leave alone.

use globset::{Glob, GlobSet, GlobSetBuilder};
use vstd::prelude::*;

verus! {

/// A set of glob patterns of `globset`.
#[verifier::external_type_specification]
#[verifier::external_body]
pub struct ExGlobSet(globset::GlobSet);

/// A set of glob patterns of `globset` while patterns are added to it.
#[verifier::external_type_specification]
#[verifier::external_body]
pub struct ExGlobSetBuilder(globset::GlobSetBuilder);

/// The patterns that a `GlobSetBuilder` holds.
pub uninterp spec fn added_globs(builder: GlobSetBuilder) -> Seq<Seq<char>>;

/// The patterns that a `GlobSet` holds.
pub uninterp spec fn set_globs(globs: GlobSet) -> Seq<Seq<char>>;

/// A character without a meaning of its own in a glob pattern.
pub open spec fn is_plain(c: char) -> bool {
    ||| 'a' <= c <= 'z'
    ||| 'A' <= c <= 'Z'
    ||| '0' <= c <= '9'
    ||| c == '.'
    ||| c == '_'
    ||| c == '-'
}

/// The pattern that matches files by their name, in whatever directory they are.
pub open spec fn name_glob(name: Seq<char>) -> Seq<char> {
    "**/"@ + name
}

/// Whether a name can stand in such a pattern as it is.
pub open spec fn is_plain_name(name: Seq<char>) -> bool {
    &&& name.len() > 0
    &&& name != ".."@
    &&& forall|i: int| 0 <= i < name.len() ==> is_plain(#[trigger] name[i])
}

/// Whether a pattern matches files by their plain name.
pub open spec fn is_name_glob(glob: Seq<char>) -> bool {
    exists|name: Seq<char>| is_plain_name(name) && glob == #[trigger] name_glob(name)
}

/// Whether a path ends in a name, alone or behind a slash.
pub open spec fn ends_in_name(path: Seq<char>, name: Seq<char>) -> bool {
    path == name || seq!['/'].add(name).is_suffix_of(path)
}

/// Whether a path ends in a name for which there is a pattern.
pub open spec fn ends_in_one_of(globs: Seq<Seq<char>>, path: Seq<char>) -> bool {
    exists|name: Seq<char>|
        globs.contains(#[trigger] name_glob(name)) && ends_in_name(path, name)
}

/// `GlobSetBuilder::new`: a builder without patterns.
#[verifier::external_body]
fn glob_set_builder() -> (builder: GlobSetBuilder)
    ensures
        added_globs(builder) == Seq::<Seq<char>>::empty(),
{
    GlobSetBuilder::new()
}

/// `Glob::new` and `GlobSetBuilder::add`: one more pattern in the builder. A pattern for a plain
/// name is always read.
#[verifier::external_body]
fn add_glob(builder: &mut GlobSetBuilder, glob: &str)
    requires
        is_name_glob(glob@),
    ensures
        added_globs(*final(builder)) == added_globs(*old(builder)).push(glob@),
{
    builder.add(Glob::new(glob).unwrap());
}

/// `GlobSetBuilder::build`: the set of the patterns added. Patterns for plain names need no
/// regular expression, so nothing stands in the way of their set.
#[verifier::external_body]
fn build_glob_set(builder: &GlobSetBuilder) -> (globs: GlobSet)
    requires
        forall|i: int|
            0 <= i < added_globs(*builder).len() ==> is_name_glob(#[trigger] added_globs(*builder)[i]),
    ensures
        set_globs(globs) == added_globs(*builder),
{
    builder.build().unwrap()
}

/// `GlobSet::is_match`: whether one of the patterns matches a path. A pattern for a plain name
/// matches the paths that end in that name, where the slash alone divides paths, as on Unix.
#[verifier::external_body]
fn glob_set_matches(globs: &GlobSet, path: &str) -> (matched: bool)
    requires
        forall|i: int|
            0 <= i < set_globs(*globs).len() ==> is_name_glob(#[trigger] set_globs(*globs)[i]),
    ensures
        matched == ends_in_one_of(set_globs(*globs), path@),
{
    globs.is_match(path)
}

/// Whether a file holds rules on what to leave alone.
pub open spec fn is_ignore_file(path: Seq<char>) -> bool {
    ends_in_name(path, ".eslintignore"@) || ends_in_name(path, ".gitignore"@)
}

/// The patterns for files that hold rules on what to leave alone.
pub open spec fn ignore_file_globs() -> Seq<Seq<char>> {
    seq![name_glob(".eslintignore"@), name_glob(".gitignore"@)]
}

proof fn lemma_ignore_file_names()
    ensures
        is_plain_name(".eslintignore"@),
        is_plain_name(".gitignore"@),
        "**/.eslintignore"@ == name_glob(".eslintignore"@),
        "**/.gitignore"@ == name_glob(".gitignore"@),
{
    reveal_strlit(".eslintignore");
    reveal_strlit(".gitignore");
    reveal_strlit("**/.eslintignore");
    reveal_strlit("**/.gitignore");
    reveal_strlit("**/");
    reveal_strlit("..");
    assert("**/.eslintignore"@ =~= name_glob(".eslintignore"@));
    assert("**/.gitignore"@ =~= name_glob(".gitignore"@));
}

/// Tells the files that hold rules on what to leave alone.
pub struct IgnoreFileNames {
    globs: GlobSet,
}

impl IgnoreFileNames {
    pub closed spec fn wf(self) -> bool {
        set_globs(self.globs) == ignore_file_globs()
    }

    pub fn new() -> (names: Self)
        ensures
            names.wf(),
    {
        let mut builder = glob_set_builder();
        proof {
            lemma_ignore_file_names();
        }
        add_glob(&mut builder, "**/.eslintignore");
        add_glob(&mut builder, "**/.gitignore");
        assert(added_globs(builder) =~= ignore_file_globs());
        IgnoreFileNames { globs: build_glob_set(&builder) }
    }

    /// Whether a file holds rules on what to leave alone.
    pub fn matches(&self, path: &str) -> (matched: bool)
        requires
            self.wf(),
        ensures
            matched == is_ignore_file(path@),
    {
        proof {
            lemma_ignore_file_names();
            let globs = set_globs(self.globs);
            assert(globs[0] == name_glob(".eslintignore"@));
            assert(globs[1] == name_glob(".gitignore"@));
            if ends_in_one_of(globs, path@) {
                let name = choose|name: Seq<char>|
                    globs.contains(#[trigger] name_glob(name)) && ends_in_name(path@, name);
                assert(name_glob(name).skip("**/"@.len() as int) =~= name);
                assert(name_glob(".eslintignore"@).skip("**/"@.len() as int)
                    =~= ".eslintignore"@);
                assert(name_glob(".gitignore"@).skip("**/"@.len() as int) =~= ".gitignore"@);
            }
        }
        glob_set_matches(&self.globs, path)
    }
}

/// A path ends in a name where it is the name, or where the name stands behind a slash, whatever
/// stands before that.
pub proof fn names_stand_alone_or_behind_a_slash(dir: Seq<char>, name: Seq<char>, path: Seq<char>)
    ensures
        ends_in_name(name, name),
        ends_in_name(dir + seq!['/'] + name, name),
        ends_in_name(path, name) ==> path == name || exists|d: Seq<char>|
            path == #[trigger] (d + seq!['/']) + name,
{
    let whole = dir + seq!['/'] + name;
    let tail = seq!['/'].add(name);
    assert(whole.skip(whole.len() - tail.len()) =~= tail);
    assert(tail.is_suffix_of(whole)) by {
        assert(whole.subrange(whole.len() - tail.len(), whole.len() as int) =~= tail);
    }
    if ends_in_name(path, name) && path != name {
        let d = path.take(path.len() - tail.len());
        assert(path.subrange(path.len() - tail.len(), path.len() as int) =~= tail);
        assert forall|i: int| 0 <= i < path.len() implies path[i] == (d + seq!['/'] + name)[i] by {
            if i >= d.len() {
                assert(path.subrange(path.len() - tail.len(), path.len() as int)[i - d.len()]
                    == path[i]);
            }
        }
        assert(path =~= (d + seq!['/']) + name);
    }
}

/// The files that hold rules are those named `.gitignore` or `.eslintignore`, in whatever directory,
/// and no others.
pub proof fn files_of_rules_go_by_their_name(dir: Seq<char>, path: Seq<char>)
    ensures
        is_ignore_file(".gitignore"@),
        is_ignore_file(".eslintignore"@),
        is_ignore_file(dir + seq!['/'] + ".gitignore"@),
        is_ignore_file(dir + seq!['/'] + ".eslintignore"@),
        is_ignore_file(path) ==> {
            ||| path == ".gitignore"@
            ||| path == ".eslintignore"@
            ||| exists|d: Seq<char>| path == #[trigger] (d + seq!['/']) + ".gitignore"@
            ||| exists|d: Seq<char>| path == #[trigger] (d + seq!['/']) + ".eslintignore"@
        },
{
    names_stand_alone_or_behind_a_slash(dir, ".gitignore"@, path);
    names_stand_alone_or_behind_a_slash(dir, ".eslintignore"@, path);
}

} // verus!
