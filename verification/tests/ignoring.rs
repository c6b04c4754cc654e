use oxc_language_server::config::{ConfigStore, Oxlintrc};
use oxc_language_server::globs::IgnoreFileNames;
use oxc_language_server::ignore_files::{can_use_patterns, try_init_ignore_glob, WalkedFile};
use oxc_language_server::ignore_rules::{any_ignores, can_ask};

fn file(path: &str, lines: &[&str]) -> WalkedFile {
    WalkedFile {
        path: path.to_string(),
        lines: lines.iter().map(|line| line.to_string()).collect(),
    }
}

fn config(path: &str, patterns: &[&str]) -> Oxlintrc {
    Oxlintrc {
        path: path.to_string(),
        ignore_patterns: patterns.iter().map(|pattern| pattern.to_string()).collect(),
        store: ConfigStore { has_import: false, handle: 0 },
    }
}

fn ignored(files: &[WalkedFile], oxlintrc: &Oxlintrc, path: &str, is_dir: bool) -> bool {
    let files = files.iter().map(|f| WalkedFile { path: f.path.clone(), lines: f.lines.clone() });
    let rules = try_init_ignore_glob(&files.collect(), oxlintrc).unwrap();
    assert!(can_ask(&rules, path, is_dir));
    any_ignores(&rules, path, is_dir)
}

#[test]
fn names_of_ignore_files() {
    let names = IgnoreFileNames::new();
    assert!(names.matches("/ws/.gitignore"));
    assert!(names.matches("/ws/sub/.eslintignore"));
    assert!(names.matches(".gitignore"));
    assert!(names.matches("/.eslintignore"));
    assert!(!names.matches("/ws/a.gitignore"));
    assert!(!names.matches("/ws/.gitignore/a"));
    assert!(!names.matches("/ws/.gitignore/"));
    assert!(!names.matches("/ws/.GITIGNORE"));
    assert!(!names.matches(""));
}

#[test]
fn rules_of_a_file() {
    let files = [file("/ws/.gitignore", &["*.min.js", "# comment", "", "!keep.min.js", "out/"])];
    let none = config("", &[]);
    assert!(ignored(&files, &none, "/ws/a.min.js", false));
    assert!(ignored(&files, &none, "/ws/sub/a.min.js", false));
    assert!(!ignored(&files, &none, "/ws/keep.min.js", false));
    assert!(!ignored(&files, &none, "/ws/a.js", false));
    assert!(ignored(&files, &none, "/ws/out", true));
    assert!(!ignored(&files, &none, "/ws/out", false));
    assert!(ignored(&files, &none, "/ws/out/a.js", false));
}

#[test]
fn rules_stay_in_their_directory() {
    let files = [file("/ws/sub/.eslintignore", &["*.js"])];
    let none = config("", &[]);
    assert!(ignored(&files, &none, "/ws/sub/a.js", false));
    assert!(ignored(&files, &none, "/ws/sub/deep/a.js", false));
    assert!(!ignored(&files, &none, "/ws/a.js", false));
    assert!(!ignored(&files, &none, "/ws/subway/a.js", false));
}

#[test]
fn other_files_hold_no_rules() {
    let files = [file("/ws/notes.txt", &["*.js"])];
    assert!(!ignored(&files, &config("", &[]), "/ws/a.js", false));
}

#[test]
fn more_rules_ignore_more() {
    let files = [file("/ws/.gitignore", &["a.js"]), file("/ws/.eslintignore", &["b.js"])];
    let patterns = config("/ws/.oxlintrc.json", &["c.js"]);
    assert!(ignored(&files, &patterns, "/ws/a.js", false));
    assert!(ignored(&files, &patterns, "/ws/b.js", false));
    assert!(ignored(&files, &patterns, "/ws/c.js", false));
    assert!(!ignored(&files, &patterns, "/ws/d.js", false));
    let [first, second] = files;
    assert!(ignored(&[second, first], &patterns, "/ws/a.js", false));
}

#[test]
fn one_file_does_not_take_back_what_another_ignores() {
    let files = [file("/ws/.gitignore", &["a.js"]), file("/ws/.eslintignore", &["!a.js"])];
    assert!(ignored(&files, &config("", &[]), "/ws/a.js", false));
}

#[test]
fn lines_that_cannot_be_read_are_left_out() {
    let files = [file("/ws/.gitignore", &["a{", "b.js"])];
    let none = config("", &[]);
    assert!(ignored(&files, &none, "/ws/b.js", false));
    assert!(!ignored(&files, &none, "/ws/a", false));
}

#[test]
fn byte_order_marks_do_not_count() {
    let files = [file("/ws/.gitignore", &["\u{feff}\u{feff}a.js", "\u{feff}b.js"])];
    let none = config("", &[]);
    assert!(ignored(&files, &none, "/ws/a.js", false));
    assert!(!ignored(&files, &none, "/ws/b.js", false));
}

#[test]
fn empty_file_ignores_nothing() {
    let files = [file("/ws/.gitignore", &[])];
    let none = config("", &[]);
    assert!(!ignored(&files, &none, "/ws/a.js", false));
    assert!(!ignored(&files, &none, "//a.js", false));
}

#[test]
fn patterns_of_the_configuration() {
    let patterns = config("/ws/conf/.oxlintrc.json", &["gen/**"]);
    assert!(can_use_patterns(&patterns));
    assert!(ignored(&[], &patterns, "/ws/conf/gen/a.js", false));
    assert!(!ignored(&[], &patterns, "/ws/gen/a.js", false));
}

#[test]
fn patterns_without_a_directory_cannot_be_used() {
    let patterns = config("", &["*.js"]);
    assert!(!can_use_patterns(&patterns));
    assert!(try_init_ignore_glob(&vec![], &patterns).is_none());
}

#[test]
fn patterns_that_cannot_be_read_cannot_be_used() {
    let patterns = config("/ws/.oxlintrc.json", &["*.js", "a{"]);
    assert!(!can_use_patterns(&patterns));
    assert!(try_init_ignore_glob(&vec![], &patterns).is_none());
}

#[test]
fn no_patterns_can_be_used() {
    assert!(can_use_patterns(&config("", &[])));
    assert_eq!(try_init_ignore_glob(&vec![], &config("", &[])).unwrap().len(), 0);
}

#[test]
fn rules_cannot_tell_of_doubled_slashes() {
    let files = vec![file("/ws/.gitignore", &["a.js"])];
    let rules = try_init_ignore_glob(&files, &config("", &[])).unwrap();
    assert!(!can_ask(&rules, "/ws//b.js", false));
    assert!(!can_ask(&rules, "//ws/b.js", false));
    assert!(can_ask(&rules, "/ws/sub//b.js", false));
    assert!(can_ask(&rules, "/elsewhere//b.js", false));
}
