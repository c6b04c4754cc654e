use oxc_language_server::backend::{
    pulled_configuration, pushed_configuration, Backend, ConfigurationStep, LintRequest,
    NoResponsibleWorker, UnknownToRules, CONFIGURATION_SECTION, SERVER_NAME,
};
use oxc_language_server::code_actions::{
    answer_each, answer_fix_all, plan_code_actions, CodeActionPlan, ReportActions,
    CODE_ACTION_KIND_SOURCE_FIX_ALL_OXC,
};
use oxc_language_server::commands::{find_command, InvalidRequest};
use oxc_language_server::config::{ConfigStore, Oxlintrc};
use oxc_language_server::diagnostics::{Diagnostic, DiagnosticReport};
use oxc_language_server::ignore_files::WalkedFile;
use oxc_language_server::options::{Options, Run};
use oxc_language_server::position::{Position, Range};
use oxc_language_server::worker::BackendWorker;

fn oxlintrc(patterns: &[&str]) -> Oxlintrc {
    Oxlintrc {
        path: String::new(),
        ignore_patterns: patterns.iter().map(|pattern| pattern.to_string()).collect(),
        store: ConfigStore { has_import: false, handle: 0 },
    }
}

fn worker(root: &str, options: Options) -> BackendWorker {
    let root_path = root.trim_start_matches("file://");
    let ignore = WalkedFile {
        path: format!("{root_path}/.gitignore"),
        lines: vec!["ignored.js".to_string()],
    };
    BackendWorker::new(root.to_string(), options, &vec![], &oxlintrc(&[]), &vec![ignore])
}

fn backend(run: Run) -> Backend {
    let mut options = Options::default();
    options.run = run;
    let mut backend = Backend::new();
    backend.workspace_workers.push(worker("file:///ws/inner", options.clone()));
    backend.workspace_workers.push(worker("file:///ws", options));
    backend
}

fn range(start: (u32, u32), end: (u32, u32)) -> Range {
    Range {
        start: Position { line: start.0, character: start.1 },
        end: Position { line: end.0, character: end.1 },
    }
}

fn report(range: Range, handle: u64) -> DiagnosticReport {
    DiagnosticReport { diagnostic: Diagnostic { range, handle } }
}

fn request(worker: usize, uri: &str) -> LintRequest {
    LintRequest { worker, uri: uri.to_string(), content: None, version: Some(3) }
}

#[test]
fn initialize_opens_one_workspace() {
    let mut server = backend(Run::OnType);
    let root = Some("file:///other".to_string());
    let result =
        server.initialize(root, Options::default(), &vec![], &oxlintrc(&[]), &vec![]).unwrap();
    let info = result.server_info.unwrap();
    assert_eq!(info.name, "oxc");
    assert_eq!(SERVER_NAME, "oxc");
    assert_eq!(info.version, None);
    assert_eq!(result.offset_encoding, None);
    assert_eq!(server.workspace_workers.len(), 1);
    assert_eq!(server.workspace_workers[0].root_path(), "/other");
}

#[test]
fn initialize_needs_a_root_with_a_path() {
    let mut server = backend(Run::OnType);
    let root = Some("not an address".to_string());
    let result = server.initialize(root, Options::default(), &vec![], &oxlintrc(&[]), &vec![]);
    assert!(result.is_none());
    assert_eq!(server.workspace_workers.len(), 2);
}

#[test]
fn initialize_needs_usable_patterns() {
    let mut server = Backend::new();
    let root = Some("file:///ws".to_string());
    let result =
        server.initialize(root, Options::default(), &vec![], &oxlintrc(&["*.js"]), &vec![]);
    assert!(result.is_none());
    assert!(server.workspace_workers.is_empty());
}

#[test]
fn first_workspace_that_holds_a_document() {
    let server = backend(Run::OnType);
    assert_eq!(server.find_responsible_worker("file:///ws/inner/a.js"), Some(0));
    assert_eq!(server.find_responsible_worker("file:///ws/a.js"), Some(1));
    assert_eq!(server.find_responsible_worker("file:///elsewhere/a.js"), None);
    assert_eq!(server.get_responsible_worker("file:///ws/a.js").root_path(), "/ws");
}

#[test]
fn saving_lints_from_the_disk() {
    let lint = backend(Run::OnSave).did_save("file:///ws/a.js").unwrap().unwrap();
    assert_eq!(lint.worker, 1);
    assert_eq!(lint.uri, "file:///ws/a.js");
    assert_eq!(lint.content, None);
    assert_eq!(lint.version, None);
    assert!(backend(Run::OnType).did_save("file:///ws/a.js").unwrap().is_none());
}

#[test]
fn typing_lints_the_new_text() {
    let changes = vec!["first".to_string(), "second".to_string()];
    let server = backend(Run::OnType);
    let lint = server.did_change("file:///ws/inner/a.js", &changes, 7).unwrap().unwrap();
    assert_eq!(lint.worker, 0);
    assert_eq!(lint.content.as_deref(), Some("first"));
    assert_eq!(lint.version, Some(7));
    let lint = server.did_change("file:///ws/a.js", &vec![], 8).unwrap().unwrap();
    assert_eq!(lint.content, None);
    assert!(backend(Run::OnSave).did_change("file:///ws/a.js", &changes, 7).unwrap().is_none());
}

#[test]
fn opening_lints_always() {
    for run in [Run::OnSave, Run::OnType] {
        let lint = backend(run).did_open("file:///ws/a.js", "text".to_string(), 1).unwrap();
        assert_eq!(lint.worker, 1);
        assert_eq!(lint.content.as_deref(), Some("text"));
        assert_eq!(lint.version, Some(1));
    }
}

#[test]
fn documents_of_no_workspace() {
    let mut server = backend(Run::OnType);
    let uri = "file:///elsewhere/a.js";
    assert!(matches!(server.did_save(uri), Err(NoResponsibleWorker)));
    assert!(matches!(server.did_change(uri, &vec![], 1), Err(NoResponsibleWorker)));
    assert!(matches!(server.did_open(uri, String::new(), 1), Err(NoResponsibleWorker)));
    assert_eq!(server.did_close(uri), Err(NoResponsibleWorker));
    let plan = server.code_action(uri, range((0, 0), (0, 0)), &None);
    assert!(matches!(plan, Err(NoResponsibleWorker)));
}

#[test]
fn published_findings_are_kept() {
    let mut server = backend(Run::OnType);
    let uri = "file:///ws/a.js";
    let found = report(range((1, 0), (1, 5)), 4);
    let published =
        server.publish_diagnostics(request(1, uri), false, Some(vec![found])).unwrap().unwrap();
    assert_eq!(published.uri, uri);
    assert_eq!(published.diagnostics, vec![found.diagnostic]);
    assert_eq!(published.version, Some(3));
    match server.code_action(uri, range((1, 5), (1, 5)), &None) {
        Ok(CodeActionPlan::Each(reports)) => assert_eq!(reports, vec![found]),
        other => panic!("{other:?}"),
    }
    assert_eq!(server.did_close(uri), Ok(()));
    let plan = server.code_action(uri, range((1, 5), (1, 5)), &None);
    assert!(matches!(plan, Ok(CodeActionPlan::NotLinted)));
}

#[test]
fn no_answer_publishes_no_findings() {
    let mut server = backend(Run::OnType);
    let uri = "file:///ws/a.js";
    let published = server.publish_diagnostics(request(1, uri), false, None).unwrap().unwrap();
    assert!(published.diagnostics.is_empty());
    assert_eq!(server.workspace_workers[1].reports(uri), None);
}

#[test]
fn ignored_documents_are_not_published() {
    let mut server = backend(Run::OnType);
    let lint = request(1, "file:///ws/ignored.js");
    assert!(server.publish_diagnostics(lint, false, Some(vec![])).unwrap().is_none());
    let lint = request(1, "file:///ws//a.js");
    let unknown = server.publish_diagnostics(lint, false, Some(vec![]));
    assert!(matches!(unknown, Err(UnknownToRules)));
}

#[test]
fn fix_all_where_it_is_asked_for() {
    assert_eq!(CODE_ACTION_KIND_SOURCE_FIX_ALL_OXC, "source.fixAll.oxc");
    let inside = report(range((1, 0), (1, 5)), 1);
    let outside = report(range((9, 0), (9, 5)), 2);
    let asked = range((0, 0), (2, 0));
    let only = Some(vec!["quickfix".to_string(), "source.fixAll.oxc".to_string()]);
    match plan_code_actions(Some(vec![inside, outside]), asked, &only) {
        CodeActionPlan::FixAll(reports) => assert_eq!(reports, vec![inside]),
        other => panic!("{other:?}"),
    }
    let only = Some(vec!["source.fixAll".to_string()]);
    match plan_code_actions(Some(vec![outside, inside, inside]), asked, &only) {
        CodeActionPlan::Each(reports) => assert_eq!(reports, vec![inside, inside]),
        other => panic!("{other:?}"),
    }
    assert!(matches!(plan_code_actions(None, asked, &only), CodeActionPlan::NotLinted));
}

#[test]
fn reversed_range_concerns_its_own_finding() {
    let reversed = range((3, 0), (1, 0));
    match plan_code_actions(Some(vec![report(reversed, 1)]), reversed, &None) {
        CodeActionPlan::Each(reports) => assert_eq!(reports.len(), 1),
        other => panic!("{other:?}"),
    }
}

#[test]
fn answers_with_actions() {
    assert_eq!(answer_fix_all(Some("all")), Some(vec!["all"]));
    assert_eq!(answer_fix_all::<&str>(None), None);
    let made = vec![
        ReportActions { fix: Some("f1"), ignore_line: "l1", ignore_rule: "r1" },
        ReportActions { fix: None, ignore_line: "l2", ignore_rule: "r2" },
    ];
    assert_eq!(answer_each(made), Some(vec!["f1", "l1", "r1", "l2", "r2"]));
    assert_eq!(answer_each::<&str>(vec![]), None);
}

#[test]
fn commands_by_name() {
    let known = vec!["oxc.fixAll".to_string(), "oxc.other".to_string(), "oxc.other".to_string()];
    assert_eq!(find_command(&known, "oxc.fixAll"), Ok(0));
    assert_eq!(Backend::execute_command(&known, "oxc.other"), Ok(1));
    assert_eq!(Backend::execute_command(&known, "oxc.unknown"), Err(InvalidRequest));
    assert_eq!(Backend::execute_command(&vec![], "oxc.fixAll"), Err(InvalidRequest));
}

#[test]
fn configuration_that_was_sent_counts() {
    assert_eq!(CONFIGURATION_SECTION, "oxc_language_server");
    let mut options = Options::default();
    options.run = Run::OnSave;
    match pushed_configuration(Some(options)) {
        ConfigurationStep::Apply(options) => assert_eq!(options.run, Run::OnSave),
        other => panic!("{other:?}"),
    }
    assert!(matches!(pushed_configuration(None), ConfigurationStep::AskClient));
}

#[test]
fn first_configuration_of_a_reply_counts() {
    let mut options = Options::default();
    options.run = Run::OnSave;
    match pulled_configuration(Some(vec![Some(options), None])) {
        ConfigurationStep::Apply(options) => assert_eq!(options.run, Run::OnSave),
        other => panic!("{other:?}"),
    }
    let reply = Some(vec![None, Some(Options::default())]);
    assert!(matches!(pulled_configuration(reply), ConfigurationStep::GiveUp));
    assert!(matches!(pulled_configuration(Some(vec![])), ConfigurationStep::GiveUp));
    assert!(matches!(pulled_configuration(None), ConfigurationStep::GiveUp));
}

#[test]
fn settings_reach_all_workspaces() {
    let mut server = backend(Run::OnType);
    let mut options = Options::default();
    options.run = Run::OnSave;
    options.flags.insert("fix_kind".to_string(), "all".to_string());
    let changes = server.did_change_configuration(&options);
    assert_eq!(changes.len(), 2);
    assert!(changes.iter().all(|change| change.restart_linter && !change.reload_nested_configs));
    assert!(server.workspace_workers.iter().all(|w| w.should_lint_on_run_type(Run::OnSave)));
}

#[test]
fn shutdown_names_what_was_linted() {
    let mut server = backend(Run::OnType);
    let found = report(range((1, 0), (1, 5)), 4);
    for (worker, uri) in [(0, "file:///ws/inner/a.js"), (1, "file:///ws/a.js")] {
        server.publish_diagnostics(request(worker, uri), false, Some(vec![found])).unwrap();
    }
    let expected = vec![
        ("file:///ws/inner/a.js".to_string(), vec![]),
        ("file:///ws/a.js".to_string(), vec![]),
    ];
    assert_eq!(server.shutdown(), expected);
    assert_eq!(server.clear_all_diagnostics(), expected);
}
