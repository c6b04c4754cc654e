use oxc_language_server::config::{ConfigStore, Oxlintrc};
use oxc_language_server::linter::{config_file, init_linter_config, root_config, ConfigFile};
use oxc_language_server::nested_configs::{init_nested_configs, FoundConfig, NestedConfigs};
use oxc_language_server::options::{FixKind, Options, Run};
use oxc_language_server::watched_files::{
    config_files_to_load, config_update, ConfigUpdate, FileChangeType, FileEvent, OXC_CONFIG_FILE,
};

fn store(handle: u64, has_import: bool) -> ConfigStore {
    ConfigStore { has_import, handle }
}

fn found(path: &str, handle: u64) -> FoundConfig {
    FoundConfig { path: path.to_string(), config: store(handle, false) }
}

fn oxlintrc(path: &str, has_import: bool) -> Oxlintrc {
    Oxlintrc {
        path: path.to_string(),
        ignore_patterns: vec![],
        store: store(0, has_import),
    }
}

fn flat() -> Options {
    let mut options = Options::default();
    options.flags.insert("disable_nested_config".to_string(), String::new());
    options
}

fn nested_of(options: &Options, found: Vec<FoundConfig>) -> Option<Vec<(String, u64)>> {
    let configs = init_nested_configs(options, &found);
    let settings = init_linter_config("/ws", options, &configs, &oxlintrc("", false));
    settings.nested_configs.map(|entries| {
        let mut dirs: Vec<_> = entries.iter().map(|(dir, c)| (dir.clone(), c.handle)).collect();
        dirs.sort();
        dirs
    })
}

#[test]
fn nested_configs_by_directory() {
    let files = vec![found("/ws/a/.oxlintrc.json", 1), found("/ws/b/.oxlintrc.json", 2)];
    let expected = vec![("/ws/a".to_string(), 1), ("/ws/b".to_string(), 2)];
    assert_eq!(nested_of(&Options::default(), files), Some(expected));
}

#[test]
fn later_config_of_a_directory_counts() {
    let files = vec![found("/ws/a/.oxlintrc.json", 1), found("/ws//a/.oxlintrc.json", 2)];
    let dirs = nested_of(&Options::default(), files).unwrap();
    assert_eq!(dirs.len(), 1);
    assert_eq!(dirs[0].1, 2);
}

#[test]
fn file_without_a_directory_does_not_count() {
    let files = vec![found("", 1), found("/", 2)];
    assert_eq!(nested_of(&Options::default(), files), Some(vec![]));
}

#[test]
fn no_search_where_nested_configs_do_not_count() {
    let configs = init_nested_configs(&flat(), &vec![found("/ws/a/.oxlintrc.json", 1)]);
    assert!(configs.entries().is_empty());
    assert_eq!(nested_of(&flat(), vec![found("/ws/a/.oxlintrc.json", 1)]), None);
}

#[test]
fn nested_configs_by_hand() {
    let mut configs = NestedConfigs::new();
    configs.insert("/ws/a", store(1, false));
    configs.insert("/ws/b", store(2, false));
    configs.insert("/ws//b/", store(3, true));
    configs.remove("/ws/./a");
    let entries = configs.entries();
    assert_eq!(entries.len(), 1);
    assert_eq!(entries[0].1, store(3, true));
    configs.clear();
    assert!(configs.entries().is_empty());
}

#[test]
fn config_file_is_relative_to_the_root() {
    let mut options = Options::default();
    assert_eq!(config_file("/ws", &options), None);
    options.config_path = Some("conf/a.json".to_string());
    assert_eq!(config_file("/ws", &options).as_deref(), Some("/ws/conf/a.json"));
    options.config_path = Some("/etc/a.json".to_string());
    assert_eq!(config_file("/ws", &options).as_deref(), Some("/etc/a.json"));
}

#[test]
fn config_file_is_joined_as_the_standard_library_does() {
    let paths = ["", "/", "/a", "/a/", "a", "a/b", "./a", "../a", "a//", "\u{e9}", "."];
    for base in paths {
        for path in paths {
            let options = Options { config_path: Some(path.to_string()), ..Options::default() };
            let expected = std::path::Path::new(base).join(path);
            assert_eq!(config_file(base, &options).as_deref(), expected.to_str());
        }
    }
}

#[test]
fn components_of_a_joined_config_file() {
    let joined = |base: &str, path: &str| {
        let options = Options { config_path: Some(path.to_string()), ..Options::default() };
        let file = config_file(base, &options).unwrap();
        let parts = std::path::Path::new(&file).components();
        parts.map(|c| c.as_os_str().to_str().unwrap().to_string()).collect::<Vec<_>>()
    };
    assert_eq!(joined("/ws", "conf/a.json"), ["/", "ws", "conf", "a.json"]);
    assert_eq!(joined("/ws/", "a.json"), ["/", "ws", "a.json"]);
    assert_eq!(joined("/ws", "./a.json"), ["/", "ws", "a.json"]);
    assert_eq!(joined("/ws", "../a.json"), ["/", "ws", "..", "a.json"]);
    assert_eq!(joined("/ws", "/etc/a.json"), ["/", "etc", "a.json"]);
    assert_eq!(joined("/ws", ""), ["/", "ws"]);
    assert_eq!(joined("", "./a.json"), [".", "a.json"]);
    assert_eq!(joined(".", "./a.json"), [".", "a.json"]);
}

#[test]
fn root_config_falls_back_to_the_default() {
    let default = || oxlintrc("default", false);
    assert_eq!(root_config(ConfigFile::NotNamed, default()).path, "default");
    assert_eq!(root_config(ConfigFile::NotFound, default()).path, "default");
    assert_eq!(root_config(ConfigFile::Unreadable, default()).path, "default");
    let read = oxlintrc("/ws/a.json", false);
    assert_eq!(root_config(ConfigFile::Read(read), default()).path, "/ws/a.json");
}

#[test]
fn linter_settings_of_nested_configs() {
    let mut options = Options::default();
    options.flags.insert("fix_kind".to_string(), "all".to_string());
    let with_import = FoundConfig {
        path: "/ws/b/.oxlintrc.json".to_string(),
        config: store(2, true),
    };
    let configs = init_nested_configs(&options, &vec![found("/ws/a/.oxlintrc.json", 1), with_import]);
    let settings = init_linter_config("/ws", &options, &configs, &oxlintrc("", false));
    assert_eq!(settings.root_path, "/ws");
    assert_eq!(settings.fix, FixKind::All);
    assert!(settings.use_cross_module);
    assert_eq!(settings.config, store(0, false));
    assert_eq!(settings.nested_configs.unwrap().len(), 2);
}

#[test]
fn root_import_does_not_count_beside_nested_configs() {
    let options = Options::default();
    let configs = init_nested_configs(&options, &vec![found("/ws/a/.oxlintrc.json", 1)]);
    let settings = init_linter_config("/ws", &options, &configs, &oxlintrc("", true));
    assert!(!settings.use_cross_module);
}

#[test]
fn root_import_counts_without_nested_configs() {
    let configs = init_nested_configs(&flat(), &vec![]);
    let settings = init_linter_config("/ws", &flat(), &configs, &oxlintrc("", true));
    assert!(settings.use_cross_module);
    assert!(settings.nested_configs.is_none());
    let settings = init_linter_config("/ws", &flat(), &configs, &oxlintrc("", false));
    assert!(!settings.use_cross_module);
}

#[test]
fn settings_that_need_no_restart_set_the_linter_up_alike() {
    let old = Options::default();
    let mut new = Options::default();
    new.run = Run::OnSave;
    new.flags.insert("fix_kind".to_string(), "safe_fix".to_string());
    let configs = init_nested_configs(&old, &vec![found("/ws/a/.oxlintrc.json", 1)]);
    let before = init_linter_config("/ws", &old, &configs, &oxlintrc("", false));
    let after = init_linter_config("/ws", &new, &configs, &oxlintrc("", false));
    assert_eq!(before.fix, after.fix);
    assert_eq!(before.use_cross_module, after.use_cross_module);
    assert_eq!(before.nested_configs, after.nested_configs);
}

fn event(uri: &str, typ: FileChangeType) -> FileEvent {
    FileEvent { uri: uri.to_string(), typ }
}

#[test]
fn created_and_changed_configs_are_loaded() {
    assert_eq!(OXC_CONFIG_FILE, ".oxlintrc.json");
    for typ in [FileChangeType::Created, FileChangeType::Changed] {
        match config_update(&event("file:///ws/a/.oxlintrc.json", typ)) {
            Some(ConfigUpdate::Load { file, dir }) => {
                assert_eq!(file, "/ws/a/.oxlintrc.json");
                assert_eq!(dir, "/ws/a");
            }
            other => panic!("{other:?}"),
        }
    }
}

#[test]
fn deleted_configs_are_removed() {
    match config_update(&event("file:///ws/a/.oxlintrc.json", FileChangeType::Deleted)) {
        Some(ConfigUpdate::Remove { dir }) => assert_eq!(dir, "/ws/a"),
        other => panic!("{other:?}"),
    }
}

#[test]
fn other_changes_ask_for_nothing() {
    let config = "file:///ws/a/.oxlintrc.json";
    assert!(config_update(&event(config, FileChangeType::Other)).is_none());
    let created = FileChangeType::Created;
    assert!(config_update(&event("file:///ws/a/.oxlintrc.jsonc", created)).is_none());
    assert!(config_update(&event("file:///ws/.oxlintrc.json/..", created)).is_none());
    assert!(config_update(&event("file:///", created)).is_none());
    assert!(config_update(&event("not an address", created)).is_none());
}

#[test]
fn files_to_load_keep_their_order() {
    let events = vec![
        event("file:///ws/b/.oxlintrc.json", FileChangeType::Created),
        event("file:///ws/a.js", FileChangeType::Changed),
        event("file:///ws/c/.oxlintrc.json", FileChangeType::Deleted),
        event("file:///ws/a/.oxlintrc.json", FileChangeType::Changed),
        event("file:///ws/b/.oxlintrc.json", FileChangeType::Changed),
    ];
    let expected = ["/ws/b/.oxlintrc.json", "/ws/a/.oxlintrc.json", "/ws/b/.oxlintrc.json"];
    assert_eq!(config_files_to_load(&events), expected);
    let fewer = events.into_iter().filter(|e| e.uri.ends_with(".json")).collect();
    assert_eq!(config_files_to_load(&fewer), expected);
    assert!(config_files_to_load(&vec![]).is_empty());
}
