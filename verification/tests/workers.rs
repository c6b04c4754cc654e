use oxc_language_server::config::{ConfigStore, Oxlintrc};
use oxc_language_server::diagnostics::{diagnostics, Diagnostic, DiagnosticReport};
use oxc_language_server::ignore_files::WalkedFile;
use oxc_language_server::nested_configs::FoundConfig;
use oxc_language_server::options::{Options, Run};
use oxc_language_server::position::{Position, Range};
use oxc_language_server::watched_files::{FileChangeType, FileEvent};
use oxc_language_server::worker::BackendWorker;

fn oxlintrc() -> Oxlintrc {
    Oxlintrc {
        path: String::new(),
        ignore_patterns: vec![],
        store: ConfigStore { has_import: false, handle: 0 },
    }
}

fn worker_with(options: Options) -> BackendWorker {
    let ignore = WalkedFile {
        path: "/ws/.gitignore".to_string(),
        lines: vec!["ignored.js".to_string()],
    };
    let nested = FoundConfig {
        path: "/ws/a/.oxlintrc.json".to_string(),
        config: ConfigStore { has_import: false, handle: 1 },
    };
    let root = "file:///ws".to_string();
    BackendWorker::new(root, options, &vec![nested], &oxlintrc(), &vec![ignore])
}

fn worker() -> BackendWorker {
    worker_with(Options::default())
}

fn flat() -> Options {
    let mut options = Options::default();
    options.flags.insert("disable_nested_config".to_string(), String::new());
    options
}

fn report(handle: u64) -> DiagnosticReport {
    let place = Position { line: 1, character: 2 };
    DiagnosticReport { diagnostic: Diagnostic { range: Range { start: place, end: place }, handle } }
}

fn nested_handles(worker: &BackendWorker) -> Option<Vec<u64>> {
    worker.linter_settings().nested_configs.as_ref().map(|entries| {
        let mut handles: Vec<u64> = entries.iter().map(|(_, config)| config.handle).collect();
        handles.sort();
        handles
    })
}

#[test]
fn new_worker() {
    let worker = worker();
    assert_eq!(worker.root_path(), "/ws");
    assert_eq!(worker.options().run, Run::OnType);
    assert_eq!(worker.linter_settings().root_path, "/ws");
    assert_eq!(nested_handles(&worker), Some(vec![1]));
    assert!(worker.get_clear_diagnostics().is_empty());
    assert!(worker.revalidate_open_files().is_empty());
}

#[test]
fn responsible_for_what_lies_in_the_root() {
    let worker = worker();
    assert!(worker.is_responsible_for_uri("file:///ws"));
    assert!(worker.is_responsible_for_uri("file:///ws/src/a.js"));
    assert!(!worker.is_responsible_for_uri("file:///ws2/a.js"));
    assert!(!worker.is_responsible_for_uri("untitled:Untitled-1"));
    assert!(!worker.is_responsible_for_uri("not an address"));
}

#[test]
fn one_occasion_lints() {
    let typing = worker();
    assert!(typing.should_lint_on_run_type(Run::OnType));
    assert!(!typing.should_lint_on_run_type(Run::OnSave));
    let mut options = Options::default();
    options.run = Run::OnSave;
    let saving = worker_with(options);
    assert!(saving.should_lint_on_run_type(Run::OnSave));
    assert!(!saving.should_lint_on_run_type(Run::OnType));
}

#[test]
fn ignored_documents() {
    let worker = worker();
    assert!(worker.is_ignored("file:///ws/ignored.js", false));
    assert!(!worker.is_ignored("file:///ws/a.js", false));
    assert!(!worker.is_ignored("not an address", false));
    assert_eq!(worker.try_is_ignored("file:///ws/ignored.js", false), Some(true));
    assert_eq!(worker.try_is_ignored("file:///ws/a.js", false), Some(false));
    assert_eq!(worker.try_is_ignored("file:///ws//a.js", false), None);
}

#[test]
fn findings_are_kept_and_read_back() {
    let mut worker = worker();
    let uri = "file:///ws/a.js";
    assert_eq!(worker.reports(uri), None);
    assert_eq!(worker.update_diagnostics(uri, Some(vec![report(1)])), vec![report(1)]);
    assert_eq!(worker.reports(uri), Some(vec![report(1)]));
    assert_eq!(worker.reports("file:///ws/b.js"), None);
    assert_eq!(worker.update_diagnostics(uri, Some(vec![report(2), report(3)])).len(), 2);
    assert_eq!(worker.reports(uri), Some(vec![report(2), report(3)]));
}

#[test]
fn no_answer_keeps_earlier_findings() {
    let mut worker = worker();
    let uri = "file:///ws/a.js";
    worker.update_diagnostics(uri, Some(vec![report(1)]));
    assert_eq!(worker.update_diagnostics(uri, None), vec![]);
    assert_eq!(worker.reports(uri), Some(vec![report(1)]));
    assert_eq!(worker.update_diagnostics("file:///ws/b.js", None), vec![]);
    assert_eq!(worker.reports("file:///ws/b.js"), None);
}

#[test]
fn no_findings_are_an_answer() {
    let mut worker = worker();
    let uri = "file:///ws/a.js";
    worker.update_diagnostics(uri, Some(vec![report(1)]));
    assert_eq!(worker.update_diagnostics(uri, Some(vec![])), vec![]);
    assert_eq!(worker.reports(uri), Some(vec![]));
}

#[test]
fn ignored_document_is_not_linted() {
    let mut worker = worker();
    let uri = "file:///ws/ignored.js";
    assert_eq!(worker.lint_file(uri, false, Some(vec![report(1)])), None);
    assert_eq!(worker.reports(uri), None);
    let uri = "file:///ws/a.js";
    assert_eq!(worker.lint_file(uri, false, Some(vec![report(1)])), Some(vec![report(1)]));
    assert_eq!(worker.reports(uri), Some(vec![report(1)]));
    assert_eq!(worker.lint_file(uri, false, None), Some(vec![]));
}

#[test]
fn closing_forgets_findings() {
    let mut worker = worker();
    worker.update_diagnostics("file:///ws/a.js", Some(vec![report(1)]));
    worker.update_diagnostics("file:///ws/b.js", Some(vec![report(2)]));
    worker.remove_diagnostics("file:///ws/a.js");
    assert_eq!(worker.reports("file:///ws/a.js"), None);
    assert_eq!(worker.reports("file:///ws/b.js"), Some(vec![report(2)]));
    assert_eq!(worker.revalidate_open_files(), vec!["file:///ws/b.js".to_string()]);
}

#[test]
fn clearing_names_what_was_linted() {
    let mut worker = worker();
    worker.update_diagnostics("file:///ws/a.js", Some(vec![report(1)]));
    worker.update_diagnostics("file:///ws/b.js", Some(vec![]));
    let mut cleared = worker.get_clear_diagnostics();
    cleared.sort_by(|a, b| a.0.cmp(&b.0));
    assert_eq!(
        cleared,
        vec![("file:///ws/a.js".to_string(), vec![]), ("file:///ws/b.js".to_string(), vec![])]
    );
}

#[test]
fn diagnostics_of_reports() {
    let found = diagnostics(&vec![report(1), report(2)]);
    assert_eq!(found, vec![report(1).diagnostic, report(2).diagnostic]);
}

#[test]
fn same_settings_change_nothing() {
    let mut worker = worker();
    let change = worker.did_change_configuration(Options::default());
    assert!(!change.reload_nested_configs);
    assert!(!change.restart_linter);
}

#[test]
fn run_never_restarts_the_linter() {
    let mut worker = worker();
    let mut options = Options::default();
    options.run = Run::OnSave;
    let change = worker.did_change_configuration(options);
    assert!(!change.reload_nested_configs);
    assert!(!change.restart_linter);
    assert!(worker.should_lint_on_run_type(Run::OnSave));
}

#[test]
fn fix_kind_restarts_the_linter_alone() {
    let mut worker = worker();
    let mut options = Options::default();
    options.flags.insert("fix_kind".to_string(), "all".to_string());
    let change = worker.did_change_configuration(options);
    assert!(!change.reload_nested_configs);
    assert!(change.restart_linter);
    worker.restart_linter(&oxlintrc());
    assert_eq!(nested_handles(&worker), Some(vec![1]));
}

#[test]
fn nested_configs_go_and_come_back() {
    let mut worker = worker();
    let change = worker.did_change_configuration(flat());
    assert!(change.reload_nested_configs);
    assert!(change.restart_linter);
    worker.restart_linter(&oxlintrc());
    assert_eq!(nested_handles(&worker), None);

    let change = worker.did_change_configuration(Options::default());
    assert!(change.reload_nested_configs);
    worker.restart_linter(&oxlintrc());
    assert_eq!(nested_handles(&worker), Some(vec![]));
    worker.reload_nested_configs(&vec![FoundConfig {
        path: "/ws/b/.oxlintrc.json".to_string(),
        config: ConfigStore { has_import: true, handle: 9 },
    }]);
    worker.restart_linter(&oxlintrc());
    assert_eq!(nested_handles(&worker), Some(vec![9]));
    assert!(worker.linter_settings().use_cross_module);
}

fn event(uri: &str, typ: FileChangeType) -> FileEvent {
    FileEvent { uri: uri.to_string(), typ }
}

fn loaded(handle: u64) -> ConfigStore {
    ConfigStore { has_import: false, handle }
}

#[test]
fn watched_files_change_nested_configs() {
    let mut worker = worker();
    let events = vec![
        event("file:///ws/b/.oxlintrc.json", FileChangeType::Created),
        event("file:///ws/b.js", FileChangeType::Created),
        event("file:///ws//a/.oxlintrc.json", FileChangeType::Deleted),
        event("file:///ws/c/.oxlintrc.json", FileChangeType::Changed),
        event("file:///ws/d/.oxlintrc.json", FileChangeType::Other),
    ];
    let files = worker.watched_files_to_load(&events);
    assert_eq!(files, ["/ws/b/.oxlintrc.json", "/ws/c/.oxlintrc.json"]);
    let configs = vec![loaded(5), loaded(6)];
    assert!(worker.did_change_watched_files(&events, &configs, &oxlintrc()));
    let mut entries = worker.linter_settings().nested_configs.clone().unwrap();
    entries.sort_by_key(|entry| entry.1.handle);
    let expected = [("/ws/b".to_string(), loaded(5)), ("/ws/c".to_string(), loaded(6))];
    assert_eq!(entries, expected);
}

#[test]
fn last_change_of_a_config_file_counts() {
    let mut worker = worker();
    let events = vec![
        event("file:///ws/a/.oxlintrc.json", FileChangeType::Changed),
        event("file:///ws/a/.oxlintrc.json", FileChangeType::Changed),
    ];
    assert!(worker.did_change_watched_files(&events, &vec![loaded(5), loaded(6)], &oxlintrc()));
    assert_eq!(nested_handles(&worker), Some(vec![6]));
}

#[test]
fn changes_in_two_messages() {
    let first = vec![event("file:///ws/b/.oxlintrc.json", FileChangeType::Created)];
    let second = vec![event("file:///ws/a/.oxlintrc.json", FileChangeType::Deleted)];
    let mut worker = worker();
    assert!(worker.did_change_watched_files(&first, &vec![loaded(5)], &oxlintrc()));
    assert!(worker.did_change_watched_files(&second, &vec![], &oxlintrc()));
    assert_eq!(nested_handles(&worker), Some(vec![5]));
}

#[test]
fn deletion_undoes_creation() {
    let mut worker = worker();
    let events = vec![
        event("file:///ws/b/.oxlintrc.json", FileChangeType::Created),
        event("file:///ws/b/.oxlintrc.json", FileChangeType::Deleted),
    ];
    assert!(worker.did_change_watched_files(&events, &vec![loaded(5)], &oxlintrc()));
    assert_eq!(nested_handles(&worker), Some(vec![1]));
}

#[test]
fn nothing_is_done_without_what_was_loaded() {
    let mut worker = worker();
    let events = vec![event("file:///ws/b/.oxlintrc.json", FileChangeType::Created)];
    assert!(!worker.did_change_watched_files(&events, &vec![], &oxlintrc()));
    assert!(!worker.did_change_watched_files(&events, &vec![loaded(5), loaded(6)], &oxlintrc()));
    assert_eq!(nested_handles(&worker), Some(vec![1]));
}

#[test]
fn watched_files_do_nothing_where_nested_configs_do_not_count() {
    let mut worker = worker_with(flat());
    let events = vec![event("file:///ws/b/.oxlintrc.json", FileChangeType::Created)];
    assert!(worker.watched_files_to_load(&events).is_empty());
    assert!(worker.did_change_watched_files(&events, &vec![], &oxlintrc()));
    worker.did_change_configuration(Options::default());
    worker.restart_linter(&oxlintrc());
    assert_eq!(nested_handles(&worker), Some(vec![]));
}
