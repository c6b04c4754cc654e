use oxc_language_server::backend::Backend;
use oxc_language_server::options::{initial_options, FixKind, Options, Run};
use oxc_language_server::worker::BackendWorker;
use rustc_hash::FxHashMap;

fn with_flags(flags: &[(&str, &str)]) -> Options {
    let mut map = FxHashMap::default();
    for (name, value) in flags {
        map.insert(name.to_string(), value.to_string());
    }
    Options { run: Run::OnType, config_path: None, flags: map }
}

#[test]
fn default_options() {
    let options = Options::default();
    assert_eq!(options.run, Run::OnType);
    assert_eq!(options.config_path, None);
    assert!(options.flags.is_empty());
    assert_eq!(Run::default(), Run::OnType);
}

#[test]
fn options_sent_count() {
    let mut sent = Options::default();
    sent.run = Run::OnSave;
    assert_eq!(initial_options(Some(sent)).run, Run::OnSave);
    assert_eq!(initial_options(None).run, Run::OnType);
}

#[test]
fn cloned_options_keep_all() {
    let mut options = with_flags(&[("fix_kind", "all")]);
    options.run = Run::OnSave;
    options.config_path = Some("a.json".to_string());
    let copy = options.clone();
    assert_eq!(copy.run, Run::OnSave);
    assert_eq!(copy.config_path.as_deref(), Some("a.json"));
    assert_eq!(copy.flags.len(), 1);
    assert_eq!(copy.flags["fix_kind"], "all");
}

#[test]
fn nested_configs_count_by_default() {
    assert!(Options::default().use_nested_configs());
}

#[test]
fn nested_configs_can_be_turned_off() {
    let options = with_flags(&[("disable_nested_config", "")]);
    assert!(!options.use_nested_configs());
}

#[test]
fn nested_configs_count_beside_a_config_path() {
    let mut options = with_flags(&[("disable_nested_config", "true")]);
    options.config_path = Some(".oxlintrc.json".to_string());
    assert!(options.use_nested_configs());
}

#[test]
fn fix_kind_names() {
    let kind = |name: &str| with_flags(&[("fix_kind", name)]).fix_kind();
    assert_eq!(kind("safe_fix"), FixKind::SafeFix);
    assert_eq!(kind("safe_fix_or_suggestion"), FixKind::SafeFixOrSuggestion);
    assert_eq!(kind("dangerous_fix"), FixKind::DangerousFix);
    assert_eq!(kind("dangerous_fix_or_suggestion"), FixKind::DangerousFixOrSuggestion);
    assert_eq!(kind("none"), FixKind::NoFix);
    assert_eq!(kind("all"), FixKind::All);
}

#[test]
fn fix_kind_falls_back_to_safe_fixes() {
    assert_eq!(with_flags(&[("fix_kind", "ALL")]).fix_kind(), FixKind::SafeFix);
    assert_eq!(with_flags(&[("fix_kind", "")]).fix_kind(), FixKind::SafeFix);
    assert_eq!(with_flags(&[("other", "all")]).fix_kind(), FixKind::SafeFix);
    assert_eq!(Options::default().fix_kind(), FixKind::SafeFix);
}

#[test]
fn restart_for_what_the_linter_depends_on() {
    let plain = Options::default();
    let fixes = with_flags(&[("fix_kind", "all")]);
    let flat = with_flags(&[("disable_nested_config", "")]);
    let mut named = Options::default();
    named.config_path = Some("a.json".to_string());
    let mut other_named = Options::default();
    other_named.config_path = Some("b.json".to_string());

    assert!(BackendWorker::needs_linter_restart(&plain, &fixes));
    assert!(BackendWorker::needs_linter_restart(&plain, &flat));
    assert!(BackendWorker::needs_linter_restart(&plain, &named));
    assert!(BackendWorker::needs_linter_restart(&named, &plain));
    assert!(BackendWorker::needs_linter_restart(&named, &other_named));
    assert!(Backend::needs_linter_restart(&flat, &plain));
}

#[test]
fn no_restart_for_the_rest() {
    let plain = Options::default();
    let mut on_save = Options::default();
    on_save.run = Run::OnSave;
    let unknown = with_flags(&[("fix_kind", "whatever"), ("other", "x")]);

    assert!(!BackendWorker::needs_linter_restart(&plain, &plain));
    assert!(!BackendWorker::needs_linter_restart(&plain, &on_save));
    assert!(!BackendWorker::needs_linter_restart(&plain, &unknown));
    assert!(!Backend::needs_linter_restart(&unknown, &on_save));
}
