//! What the linter of a workspace is set up with.

use vstd::prelude::*;

use crate::config::{ConfigStore, Oxlintrc};
use crate::nested_configs::{entry_dirs, lists, lists_are_complete, NestedConfigs};
use crate::options::{restart_needed, FixKind, Options, OptionsView};
use crate::paths::{join, joined_components, path_components, path_join};

verus! {

/// What became of the search for the configuration file that the settings name.
#[derive(Debug)]
pub enum ConfigFile {
    /// The settings name no file.
    NotNamed,
    /// There is no such file.
    NotFound,
    /// The file is not a configuration.
    Unreadable,
    Read(Oxlintrc),
}

/// What the linter of a workspace is set up with.
#[derive(Debug)]
pub struct LinterSettings {
    pub root_path: String,
    /// Which fixes it offers.
    pub fix: FixKind,
    /// Whether it looks at the modules that a file imports.
    pub use_cross_module: bool,
    /// The configuration of the root.
    pub config: ConfigStore,
    /// The configurations of subdirectories with their paths, where they count.
    pub nested_configs: Option<Vec<(String, ConfigStore)>>,
}

/// The file that holds the configuration of the root, if the settings name one.
pub open spec fn named_config(root_path: Seq<char>, options: OptionsView) -> Option<Seq<char>> {
    match options.config_path {
        Some(path) => Some(path_join(root_path, path)),
        None => None,
    }
}

/// Whether the linter looks at the modules that a file imports: a configuration that counts turns
/// the plugin for imports on.
pub open spec fn cross_module(
    options: OptionsView,
    configs: Map<Seq<Seq<char>>, ConfigStore>,
    config: ConfigStore,
) -> bool {
    if options.use_nested_configs() {
        exists|dir: Seq<Seq<char>>| #[trigger] configs.contains_key(dir) && configs[dir].has_import
    } else {
        config.has_import
    }
}

impl LinterSettings {
    /// Whether the linter is set up for a workspace: its root, its settings, the configurations of
    /// its subdirectories and that of its root.
    pub open spec fn suit(
        self,
        root_path: Seq<char>,
        options: OptionsView,
        configs: Map<Seq<Seq<char>>, ConfigStore>,
        config: ConfigStore,
    ) -> bool {
        &&& self.root_path@ == root_path
        &&& self.fix == options.fix_kind()
        &&& self.use_cross_module == cross_module(options, configs, config)
        &&& self.config == config
        &&& self.nested_configs is Some <==> options.use_nested_configs()
        &&& self.nested_configs matches Some(entries) ==> lists(entries@, configs)
    }
}

/// The file that holds the configuration of the root, if the settings name one.
pub fn config_file(root_path: &str, options: &Options) -> (file: Option<String>)
    ensures
        file is Some <==> named_config(root_path@, options@) is Some,
        file matches Some(f) ==> Some(f@) == named_config(root_path@, options@),
        file matches Some(f) ==> path_components(f@) == joined_components(
            path_components(root_path@),
            path_components(options@.config_path->0),
        ),
{
    match &options.config_path {
        Some(path) => Some(join(root_path, path.as_str())),
        None => None,
    }
}

/// The configuration of the root: what was read from the file that the settings name, else the
/// default one.
pub fn root_config(file: ConfigFile, default_config: Oxlintrc) -> (config: Oxlintrc)
    ensures
        file matches ConfigFile::Read(read) ==> config == read,
        !(file is Read) ==> config == default_config,
{
    match file {
        ConfigFile::Read(read) => read,
        _ => default_config,
    }
}

/// Whether one of the entries turns the plugin for imports on.
fn one_has_import(entries: &Vec<(String, ConfigStore)>) -> (has: bool)
    ensures
        has <==> exists|i: int| 0 <= i < entries@.len() && (#[trigger] entries@[i]).1.has_import,
{
    let mut i: usize = 0;
    while i < entries.len()
        invariant
            i <= entries.len(),
            forall|j: int| 0 <= j < i ==> !(#[trigger] entries@[j]).1.has_import,
        decreases entries.len() - i,
    {
        if entries[i].1.has_import {
            return true;
        }
        i += 1;
    }
    false
}

/// Sets the linter of a workspace up.
pub fn init_linter_config(
    root_path: &str,
    options: &Options,
    nested_configs: &NestedConfigs,
    oxlintrc: &Oxlintrc,
) -> (settings: LinterSettings)
    ensures
        settings.suit(root_path@, options@, nested_configs@, oxlintrc.store),
{
    let (use_cross_module, nested) = if options.use_nested_configs() {
        let entries = nested_configs.entries();
        let has_import = one_has_import(&entries);
        proof {
            let configs = nested_configs@;
            let dirs = entry_dirs(entries@);
            if has_import {
                let i = choose|i: int|
                    0 <= i < entries@.len() && (#[trigger] entries@[i]).1.has_import;
                assert(dirs[i] == path_components(entries@[i].0@));
                assert(dirs.to_set().contains(dirs[i]));
                assert(configs.contains_key(dirs[i]) && configs[dirs[i]].has_import);
            }
            if cross_module(options@, configs, oxlintrc.store) {
                let dir = choose|dir: Seq<Seq<char>>| #[trigger]
                    configs.contains_key(dir) && configs[dir].has_import;
                assert(dirs.to_set().contains(dir));
                let i = choose|i: int| 0 <= i < dirs.len() && dirs[i] == dir;
                assert(dirs[i] == path_components(entries@[i].0@));
                assert(entries@[i].1.has_import);
            }
        }
        (has_import, Some(entries))
    } else {
        (oxlintrc.store.has_import, None)
    };
    LinterSettings {
        root_path: root_path.to_owned(),
        fix: options.fix_kind(),
        use_cross_module,
        config: oxlintrc.store,
        nested_configs: nested,
    }
}

/// Where the linter need not be set up anew, it is set up for the new settings just as it was for
/// the old ones, and the same file holds the configuration of the root.
pub proof fn no_restart_keeps_settings(
    settings: LinterSettings,
    root_path: Seq<char>,
    old_options: OptionsView,
    new_options: OptionsView,
    configs: Map<Seq<Seq<char>>, ConfigStore>,
    config: ConfigStore,
)
    requires
        !restart_needed(old_options, new_options),
    ensures
        settings.suit(root_path, new_options, configs, config) == settings.suit(
            root_path,
            old_options,
            configs,
            config,
        ),
        named_config(root_path, new_options) == named_config(root_path, old_options),
{
}

/// Imports are looked at where a configuration that counts asks for it: one of a subdirectory where
/// these count, and else that of the root.
pub proof fn imports_are_looked_at_where_asked(
    options: OptionsView,
    configs: Map<Seq<Seq<char>>, ConfigStore>,
    config: ConfigStore,
    dir: Seq<Seq<char>>,
    added: ConfigStore,
)
    ensures
        !options.use_nested_configs() ==> cross_module(options, configs, config)
            == config.has_import,
        options.use_nested_configs() ==> !cross_module(options, Map::empty(), config),
        options.use_nested_configs() && added.has_import ==> cross_module(
            options,
            configs.insert(dir, added),
            config,
        ),
        options.use_nested_configs() && !added.has_import && !configs.contains_key(dir)
            ==> cross_module(options, configs.insert(dir, added), config) == cross_module(
            options,
            configs,
            config,
        ),
{
    let more = configs.insert(dir, added);
    assert(more.contains_key(dir));
    if options.use_nested_configs() && !added.has_import && !configs.contains_key(dir) {
        if cross_module(options, configs, config) {
            let d = choose|d: Seq<Seq<char>>| #[trigger]
                configs.contains_key(d) && configs[d].has_import;
            assert(more.contains_key(d) && more[d].has_import);
        }
        if cross_module(options, more, config) {
            let d = choose|d: Seq<Seq<char>>| #[trigger] more.contains_key(d) && more[d].has_import;
            assert(configs.contains_key(d) && configs[d].has_import);
        }
    }
}

/// A linter that is set up for a workspace has the workspace's root, the fixes that its settings
/// name, the configuration of the root, and each configuration of a subdirectory exactly where these
/// count.
pub proof fn linters_have_what_workspaces_say(
    settings: LinterSettings,
    root_path: Seq<char>,
    options: OptionsView,
    configs: Map<Seq<Seq<char>>, ConfigStore>,
    config: ConfigStore,
    dir: Seq<Seq<char>>,
)
    requires
        settings.suit(root_path, options, configs, config),
    ensures
        settings.root_path@ == root_path,
        settings.fix == options.fix_kind(),
        settings.config == config,
        settings.use_cross_module == cross_module(options, configs, config),
        settings.nested_configs is Some <==> options.use_nested_configs(),
        settings.nested_configs matches Some(entries) ==> {
            &&& configs.contains_key(dir) <==> exists|i: int|
                0 <= i < entries@.len() && path_components((#[trigger] entries@[i]).0@) == dir
            &&& forall|i: int|
                0 <= i < entries@.len() && path_components((#[trigger] entries@[i]).0@) == dir
                    ==> entries@[i].1 == configs[dir]
        },
{
    if let Some(entries) = settings.nested_configs {
        lists_are_complete(entries@, configs, dir);
    }
}

/// The settings name the configuration file of the root, relative to the root, or none.
pub proof fn settings_name_the_config_file(root_path: Seq<char>, options: OptionsView)
    ensures
        options.config_path is None ==> named_config(root_path, options) is None,
        options.config_path matches Some(path) ==> named_config(root_path, options) == Some(
            path_join(root_path, path),
        ),
{
}

} // verus!
