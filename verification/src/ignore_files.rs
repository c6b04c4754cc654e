//! The rules on what to leave alone, collected from the files and the configuration that hold
//! them.

use ignore::gitignore::Gitignore;
use vstd::prelude::*;
use vstd::string::StrSliceExecFns;

use crate::config::{Oxlintrc, OxlintrcView};
use crate::globs::{ends_in_name, is_ignore_file, IgnoreFileNames};
use crate::ignore_rules::{
    add_line, added_lines, build_rules, builder_dir, line_is_valid, lines_compile, rules_builder,
    rules_of, IgnoreMatchers, IgnoreRules,
};
use crate::paths::{parent, path_parent};
use crate::text::texts;

verus! {

/// A file of a workspace, with its lines where it holds rules on what to leave alone.
#[derive(Debug)]
pub struct WalkedFile {
    pub path: String,
    pub lines: Vec<String>,
}

/// A file of a workspace, as values of logic.
pub struct WalkedFileView {
    pub path: Seq<char>,
    pub lines: Seq<Seq<char>>,
}

impl View for WalkedFile {
    type V = WalkedFileView;

    open spec fn view(&self) -> WalkedFileView {
        WalkedFileView { path: self.path@, lines: texts(self.lines@) }
    }
}

/// A line without the byte order marks that it begins with.
pub open spec fn without_marks(line: Seq<char>) -> Seq<char>
    decreases line.len(),
{
    if line.len() > 0 && line[0] == '\u{feff}' {
        without_marks(line.skip(1))
    } else {
        line
    }
}

/// The lines of a file, without the byte order marks that the file begins with.
pub open spec fn unmarked(lines: Seq<Seq<char>>) -> Seq<Seq<char>> {
    if lines.len() == 0 {
        lines
    } else {
        lines.update(0, without_marks(lines[0]))
    }
}

/// The lines of a file that can be read.
pub open spec fn valid_lines(lines: Seq<Seq<char>>) -> Seq<Seq<char>> {
    unmarked(lines).filter(|line: Seq<char>| line_is_valid(line))
}

/// The rules that a file holds, if it holds rules and they can be compiled.
pub open spec fn file_rules(file: WalkedFileView) -> Option<IgnoreRules> {
    if is_ignore_file(file.path) && path_parent(file.path) is Some && lines_compile(
        valid_lines(file.lines),
    ) {
        Some(IgnoreRules { dir: path_parent(file.path)->0, lines: valid_lines(file.lines) })
    } else {
        None
    }
}

/// The rules that files hold, in the order of the files.
pub open spec fn walked_rules(files: Seq<WalkedFileView>) -> Seq<IgnoreRules>
    decreases files.len(),
{
    if files.len() == 0 {
        Seq::empty()
    } else {
        match file_rules(files.last()) {
            Some(rules) => walked_rules(files.drop_last()).push(rules),
            None => walked_rules(files.drop_last()),
        }
    }
}

/// Whether the rules of a configuration, where it has any, can be made use of: it was read from a
/// file in some directory, and its lines can be read and compiled.
pub open spec fn patterns_usable(oxlintrc: OxlintrcView) -> bool {
    oxlintrc.ignore_patterns.len() > 0 ==> {
        &&& path_parent(oxlintrc.path) is Some
        &&& forall|i: int|
            0 <= i < oxlintrc.ignore_patterns.len() ==> line_is_valid(
                #[trigger] oxlintrc.ignore_patterns[i],
            )
        &&& lines_compile(oxlintrc.ignore_patterns)
    }
}

/// The rules of a configuration.
pub open spec fn pattern_rules(oxlintrc: OxlintrcView) -> Seq<IgnoreRules> {
    if oxlintrc.ignore_patterns.len() > 0 {
        seq![
            IgnoreRules {
                dir: path_parent(oxlintrc.path)->0,
                lines: oxlintrc.ignore_patterns,
            },
        ]
    } else {
        Seq::empty()
    }
}

/// The files of a workspace, as values of logic.
pub open spec fn walked_files(files: Seq<WalkedFile>) -> Seq<WalkedFileView> {
    files.map_values(|file: WalkedFile| file@)
}

/// A line without the byte order marks that it begins with.
fn strip_marks(line: &str) -> (rest: &str)
    ensures
        rest@ == without_marks(line@),
{
    let len: usize = line.unicode_len();
    let mut i: usize = 0;
    assert(line@.skip(0) =~= line@);
    while i < len && line.get_char(i) == '\u{feff}'
        invariant
            len == line@.len(),
            i <= len,
            without_marks(line@) == without_marks(line@.skip(i as int)),
        decreases len - i,
    {
        assert(line@.skip(i as int).skip(1) =~= line@.skip(i + 1));
        i += 1;
    }
    assert(line@.subrange(i as int, len as int) =~= line@.skip(i as int));
    line.substring_char(i, len)
}

/// The rules that a file holds, if it holds rules and they can be compiled.
fn rules_of_file(names: &IgnoreFileNames, file: &WalkedFile) -> (rules: Option<Gitignore>)
    requires
        names.wf(),
    ensures
        rules is Some <==> file_rules(file@) is Some,
        rules matches Some(r) ==> Some(rules_of(r)) == file_rules(file@),
{
    if !names.matches(file.path.as_str()) {
        return None;
    }
    let dir = match parent(file.path.as_str()) {
        Some(dir) => dir,
        None => {
            return None;
        },
    };
    let mut builder = rules_builder(dir.as_str());
    let ghost lines = unmarked(texts(file.lines@));
    let ghost valid = |line: Seq<char>| line_is_valid(line);
    proof {
        reveal(Seq::filter);
        assert(lines.take(0).filter(valid) =~= Seq::<Seq<char>>::empty());
    }
    let mut i: usize = 0;
    while i < file.lines.len()
        invariant
            i <= file.lines.len(),
            lines == unmarked(texts(file.lines@)),
            valid == (|line: Seq<char>| line_is_valid(line)),
            builder_dir(builder) == dir@,
            added_lines(builder) == lines.take(i as int).filter(valid),
        decreases file.lines.len() - i,
    {
        let line = if i == 0 {
            strip_marks(file.lines[i].as_str())
        } else {
            file.lines[i].as_str()
        };
        assert(line@ == lines[i as int]);
        add_line(&mut builder, line);
        proof {
            reveal(Seq::filter);
            assert(lines.take(i + 1).drop_last() =~= lines.take(i as int));
        }
        i += 1;
    }
    assert(lines.take(lines.len() as int) =~= lines);
    build_rules(&builder)
}

/// The rules of a configuration's own lines, if they can be made use of.
fn rules_of_patterns(oxlintrc: &Oxlintrc) -> (rules: Option<Gitignore>)
    requires
        oxlintrc@.ignore_patterns.len() > 0,
    ensures
        rules is Some <==> patterns_usable(oxlintrc@),
        rules matches Some(r) ==> pattern_rules(oxlintrc@) == seq![rules_of(r)],
{
    let dir = match parent(oxlintrc.path.as_str()) {
        Some(dir) => dir,
        None => {
            return None;
        },
    };
    let mut builder = rules_builder(dir.as_str());
    let ghost lines = oxlintrc@.ignore_patterns;
    let mut i: usize = 0;
    while i < oxlintrc.ignore_patterns.len()
        invariant
            i <= oxlintrc.ignore_patterns.len(),
            lines == oxlintrc@.ignore_patterns,
            builder_dir(builder) == dir@,
            added_lines(builder) =~= lines.take(i as int),
            forall|j: int| 0 <= j < i ==> line_is_valid(#[trigger] lines[j]),
        decreases oxlintrc.ignore_patterns.len() - i,
    {
        assert(lines[i as int] == oxlintrc.ignore_patterns@[i as int]@);
        if !add_line(&mut builder, oxlintrc.ignore_patterns[i].as_str()) {
            return None;
        }
        i += 1;
    }
    assert(lines.take(lines.len() as int) =~= lines);
    let rules = build_rules(&builder);
    assert(rules matches Some(r) ==> pattern_rules(oxlintrc@) =~= seq![rules_of(r)]);
    rules
}

/// The rules on what to leave alone: those of the files of a workspace, in their order, then those
/// of the configuration.
pub fn init_ignore_glob(files: &Vec<WalkedFile>, oxlintrc: &Oxlintrc) -> (rules: IgnoreMatchers)
    requires
        patterns_usable(oxlintrc@),
    ensures
        rules@ == walked_rules(walked_files(files@)) + pattern_rules(oxlintrc@),
{
    let names = IgnoreFileNames::new();
    let mut rules = IgnoreMatchers::new();
    let ghost walked = walked_files(files@);
    let mut i: usize = 0;
    while i < files.len()
        invariant
            i <= files.len(),
            names.wf(),
            walked == walked_files(files@),
            rules@ =~= walked_rules(walked.take(i as int)),
        decreases files.len() - i,
    {
        assert(walked[i as int] == files@[i as int]@);
        assert(walked.take(i + 1).drop_last() =~= walked.take(i as int));
        if let Some(found) = rules_of_file(&names, &files[i]) {
            rules.push(found);
        }
        i += 1;
    }
    assert(walked.take(walked.len() as int) =~= walked);
    assert(oxlintrc@.ignore_patterns.len() == oxlintrc.ignore_patterns@.len());
    if oxlintrc.ignore_patterns.len() > 0 {
        if let Some(own) = rules_of_patterns(oxlintrc) {
            rules.push(own);
        }
    }
    assert(rules@ =~= walked_rules(walked) + pattern_rules(oxlintrc@));
    rules
}

/// The rules on what to leave alone, or nothing where those of the configuration cannot be made
/// use of.
pub fn try_init_ignore_glob(files: &Vec<WalkedFile>, oxlintrc: &Oxlintrc) -> (rules: Option<
    IgnoreMatchers,
>)
    ensures
        rules is Some <==> patterns_usable(oxlintrc@),
        rules matches Some(r) ==> r@ == walked_rules(walked_files(files@))
            + pattern_rules(oxlintrc@),
{
    if can_use_patterns(oxlintrc) {
        Some(init_ignore_glob(files, oxlintrc))
    } else {
        None
    }
}

/// Whether the rules of a configuration, where it has any, can be made use of.
pub fn can_use_patterns(oxlintrc: &Oxlintrc) -> (usable: bool)
    ensures
        usable == patterns_usable(oxlintrc@),
{
    assert(oxlintrc@.ignore_patterns.len() == oxlintrc.ignore_patterns@.len());
    oxlintrc.ignore_patterns.len() == 0 || rules_of_patterns(oxlintrc).is_some()
}

/// What is taken off a line are the byte order marks that it begins with, all of them and nothing
/// else.
pub proof fn only_marks_are_taken_off(line: Seq<char>)
    ensures
        without_marks(line).len() <= line.len(),
        ({
            let n = line.len() - without_marks(line).len();
            &&& without_marks(line) == line.skip(n)
            &&& forall|i: int| 0 <= i < n ==> #[trigger] line[i] == '\u{feff}'
            &&& n < line.len() ==> line[n] != '\u{feff}'
        }),
    decreases line.len(),
{
    if line.len() > 0 && line[0] == '\u{feff}' {
        let rest = line.skip(1);
        only_marks_are_taken_off(rest);
        let n = line.len() - without_marks(line).len();
        assert(rest.skip(n - 1) =~= line.skip(n));
        assert forall|i: int| 0 <= i < n implies #[trigger] line[i] == '\u{feff}' by {
            if i > 0 {
                assert(rest[i - 1] == line[i]);
            }
        }
    } else {
        assert(line.skip(0) =~= line);
    }
}

/// The lines of a file are compiled one by one, in their order, as they stand: one that cannot be
/// read is left out, and only the first line is freed of the byte order marks that it begins with.
pub proof fn lines_are_compiled_as_they_stand(lines: Seq<Seq<char>>, line: Seq<char>)
    ensures
        valid_lines(Seq::empty()) == Seq::<Seq<char>>::empty(),
        line_is_valid(without_marks(line)) ==> valid_lines(seq![line]) == seq![without_marks(line)],
        !line_is_valid(without_marks(line)) ==> valid_lines(seq![line]) == Seq::<
            Seq<char>,
        >::empty(),
        lines.len() > 0 && line_is_valid(line) ==> valid_lines(lines.push(line)) == valid_lines(
            lines,
        ).push(line),
        lines.len() > 0 && !line_is_valid(line) ==> valid_lines(lines.push(line)) == valid_lines(
            lines,
        ),
{
    reveal(Seq::filter);
    let valid = |line: Seq<char>| line_is_valid(line);
    let none = Seq::<Seq<char>>::empty();
    let one = seq![without_marks(line)];
    assert(none.filter(valid) =~= none);
    assert(unmarked(seq![line]) =~= one);
    assert(one.drop_last() =~= none);
    if line_is_valid(without_marks(line)) {
        assert(one.filter(valid) =~= one);
    } else {
        assert(one.filter(valid) =~= none);
    }
    if lines.len() > 0 {
        assert(unmarked(lines.push(line)) =~= unmarked(lines).push(line));
        assert(unmarked(lines.push(line)).drop_last() =~= unmarked(lines));
    }
}

/// Each line behind the first that can be read is compiled, character for character, and so is the
/// first, but for the byte order marks that it begins with.
pub proof fn lines_that_can_be_read_are_compiled(lines: Seq<Seq<char>>, i: int)
    requires
        0 <= i < lines.len(),
    ensures
        i > 0 && line_is_valid(lines[i]) ==> valid_lines(lines).contains(lines[i]),
        line_is_valid(without_marks(lines[0])) ==> valid_lines(lines).len() > 0 && valid_lines(
            lines,
        )[0] == without_marks(lines[0]),
    decreases lines.len(),
{
    let before = lines.drop_last();
    let last = lines.last();
    lines_are_compiled_as_they_stand(before, last);
    assert(lines =~= before.push(last));
    if before.len() == 0 {
        assert(lines =~= seq![last]);
    } else {
        lines_that_can_be_read_are_compiled(before, if i < before.len() {
            i
        } else {
            0
        });
        let compiled = valid_lines(before);
        if i < before.len() {
            if i > 0 && line_is_valid(lines[i]) {
                let k = compiled.index_of(lines[i]);
                assert(compiled.push(last)[k] == lines[i]);
            }
        } else {
            assert(compiled.push(last)[compiled.len() as int] == last);
        }
    }
}

/// Each line that is compiled can be read, and is a line of the file, character for character, or
/// its first line without the byte order marks that it begins with.
pub proof fn nothing_else_is_compiled(lines: Seq<Seq<char>>, line: Seq<char>)
    requires
        valid_lines(lines).contains(line),
    ensures
        line_is_valid(line),
        lines.len() > 0,
        line == without_marks(lines[0]) || exists|i: int|
            0 < i < lines.len() && #[trigger] lines[i] == line,
    decreases lines.len(),
{
    if lines.len() == 0 {
        lines_are_compiled_as_they_stand(lines, line);
        assert(lines =~= Seq::<Seq<char>>::empty());
    } else {
        let before = lines.drop_last();
        let last = lines.last();
        lines_are_compiled_as_they_stand(before, last);
        assert(lines =~= before.push(last));
        if before.len() == 0 {
            assert(lines =~= seq![last]);
        } else {
            assert(lines[lines.len() - 1] == last);
            if valid_lines(before).contains(line) {
                nothing_else_is_compiled(before, line);
                if line != without_marks(lines[0]) {
                    let i = choose|i: int| 0 < i < before.len() && #[trigger] before[i] == line;
                    assert(lines[i] == line);
                }
            }
        }
    }
}

/// A file has rules exactly where its name says so, it stands in a directory and its lines can be
/// compiled, and these are the rules of that directory, of the file's own lines.
pub proof fn rules_of_a_file_are_its_lines(file: WalkedFileView)
    ensures
        file_rules(file) is Some <==> {
            &&& ends_in_name(file.path, ".gitignore"@) || ends_in_name(
                file.path,
                ".eslintignore"@,
            )
            &&& path_parent(file.path) is Some
            &&& lines_compile(valid_lines(file.lines))
        },
        file_rules(file) matches Some(rules) ==> {
            &&& Some(rules.dir) == path_parent(file.path)
            &&& rules.lines == valid_lines(file.lines)
        },
{
}

/// The rules of files are collected file by file, in the order of the files: a file adds its own
/// rules or nothing.
pub proof fn rules_are_collected_file_by_file(
    first: Seq<WalkedFileView>,
    second: Seq<WalkedFileView>,
    file: WalkedFileView,
)
    ensures
        walked_rules(Seq::empty()) == Seq::<IgnoreRules>::empty(),
        walked_rules(first + second) == walked_rules(first) + walked_rules(second),
        file_rules(file) is Some ==> walked_rules(seq![file]) == seq![file_rules(file)->0],
        file_rules(file) is None ==> walked_rules(seq![file]) == Seq::<IgnoreRules>::empty(),
    decreases second.len(),
{
    assert(seq![file].drop_last() =~= Seq::<WalkedFileView>::empty());
    reveal_with_fuel(walked_rules, 2);
    if file_rules(file) is Some {
        assert(walked_rules(seq![file]) =~= seq![file_rules(file)->0]);
    }
    if second.len() == 0 {
        assert(first + second =~= first);
        assert(walked_rules(first) + walked_rules(second) =~= walked_rules(first));
    } else {
        rules_are_collected_file_by_file(first, second.drop_last(), file);
        assert((first + second).drop_last() =~= first + second.drop_last());
        assert(walked_rules(first + second) =~= walked_rules(first) + walked_rules(second));
    }
}

/// A configuration's own patterns make the rules of the directory of its file, of all patterns as
/// they stand and in their order. Without patterns there are no rules, and nothing can be wrong with
/// them.
pub proof fn patterns_are_rules_as_they_stand(oxlintrc: OxlintrcView, i: int)
    ensures
        oxlintrc.ignore_patterns.len() == 0 ==> {
            &&& patterns_usable(oxlintrc)
            &&& pattern_rules(oxlintrc).len() == 0
        },
        oxlintrc.ignore_patterns.len() > 0 ==> {
            &&& pattern_rules(oxlintrc).len() == 1
            &&& pattern_rules(oxlintrc)[0].lines == oxlintrc.ignore_patterns
            &&& path_parent(oxlintrc.path) is Some ==> Some(pattern_rules(oxlintrc)[0].dir)
                == path_parent(oxlintrc.path)
        },
        0 <= i < oxlintrc.ignore_patterns.len() && patterns_usable(oxlintrc) ==> {
            &&& path_parent(oxlintrc.path) is Some
            &&& line_is_valid(oxlintrc.ignore_patterns[i])
            &&& lines_compile(oxlintrc.ignore_patterns)
        },
        oxlintrc.ignore_patterns.len() > 0 && !patterns_usable(oxlintrc) ==> {
            ||| path_parent(oxlintrc.path) is None
            ||| !lines_compile(oxlintrc.ignore_patterns)
            ||| exists|j: int|
                0 <= j < oxlintrc.ignore_patterns.len() && !line_is_valid(
                    #[trigger] oxlintrc.ignore_patterns[j],
                )
        },
{
}

/// The files and the configuration that rules are collected from are taken as they are: each path,
/// each line and each pattern, at its place.
pub proof fn files_are_taken_as_they_are(
    file: WalkedFile,
    files: Seq<WalkedFile>,
    oxlintrc: Oxlintrc,
)
    ensures
        file@.path == file.path@,
        file@.lines.len() == file.lines@.len(),
        forall|i: int| 0 <= i < file.lines@.len() ==> #[trigger] file@.lines[i] == file.lines@[i]@,
        walked_files(files).len() == files.len(),
        forall|i: int| 0 <= i < files.len() ==> #[trigger] walked_files(files)[i] == files[i]@,
        oxlintrc@.path == oxlintrc.path@,
        oxlintrc@.store == oxlintrc.store,
        oxlintrc@.ignore_patterns.len() == oxlintrc.ignore_patterns@.len(),
        forall|i: int|
            0 <= i < oxlintrc.ignore_patterns@.len() ==> #[trigger] oxlintrc@.ignore_patterns[i]
                == oxlintrc.ignore_patterns@[i]@,
{
}

} // verus!
