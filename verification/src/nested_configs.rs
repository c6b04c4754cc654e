//! The configurations in the subdirectories of a workspace.

use std::path::{Path, PathBuf};

use rustc_hash::FxBuildHasher;
use vstd::prelude::*;

use crate::config::ConfigStore;
use crate::options::{Options, OptionsView};
use crate::paths::{parent, path_components, path_parent};

verus! {

/// The path type of the standard library.
#[verifier::external_type_specification]
#[verifier::external_body]
pub struct ExPathBuf(std::path::PathBuf);

/// The map of `papaya` from directories to configurations.
pub type ConfigMap = papaya::HashMap<PathBuf, ConfigStore, FxBuildHasher>;

/// What a map of configurations holds, under the components of the directories' paths: two paths
/// with the same components are the same key.
pub uninterp spec fn configs_in(map: ConfigMap) -> Map<Seq<Seq<char>>, ConfigStore>;

/// The components of the paths of entries.
pub open spec fn entry_dirs(entries: Seq<(String, ConfigStore)>) -> Seq<Seq<Seq<char>>> {
    entries.map_values(|entry: (String, ConfigStore)| path_components(entry.0@))
}

/// Whether entries are those of a map, each once.
pub open spec fn lists(
    entries: Seq<(String, ConfigStore)>,
    configs: Map<Seq<Seq<char>>, ConfigStore>,
) -> bool {
    &&& entry_dirs(entries).no_duplicates()
    &&& entry_dirs(entries).to_set() == configs.dom()
    &&& forall|i: int|
        0 <= i < entries.len() ==> configs[path_components((#[trigger] entries[i]).0@)]
            == entries[i].1
}

/// `HashMap::default` of `papaya`: a map without entries.
#[verifier::external_body]
fn no_configs() -> (map: ConfigMap)
    ensures
        (configs_in(map) == Map::<Seq<Seq<char>>, ConfigStore>::empty()),
{
    papaya::HashMap::default()
}

/// `HashMapRef::insert` of `papaya`: an entry that takes the place of an earlier one with its key.
#[verifier::external_body]
fn insert_config(map: &mut ConfigMap, dir: &str, config: ConfigStore)
    ensures
        configs_in(*final(map)) == configs_in(*old(map)).insert(path_components(dir@), config),
{
    map.pin().insert(PathBuf::from(dir), config);
}

/// `HashMapRef::remove` of `papaya`: the map without the entry of a key.
#[verifier::external_body]
fn remove_config(map: &mut ConfigMap, dir: &str)
    ensures
        configs_in(*final(map)) == configs_in(*old(map)).remove(path_components(dir@)),
{
    map.pin().remove(Path::new(dir));
}

/// `HashMapRef::clear` of `papaya`: a map without entries.
#[verifier::external_body]
fn clear_configs(map: &mut ConfigMap)
    ensures
        (configs_in(*final(map)) == Map::<Seq<Seq<char>>, ConfigStore>::empty()),
{
    map.pin().clear();
}

/// `HashMapRef::iter` of `papaya`: each entry of the map once, in an order of which nothing is
/// said. The keys of the map are made of texts, so that each is found again in its text.
#[verifier::external_body]
fn config_entries(map: &ConfigMap) -> (entries: Vec<(String, ConfigStore)>)
    ensures
        lists(entries@, configs_in(*map)),
{
    map.pin().iter().map(|(dir, config)| (dir.to_string_lossy().into_owned(), *config)).collect()
}

/// The configuration of each directory that has one of its own. Directories are given as texts.
pub struct NestedConfigs {
    map: ConfigMap,
}

impl View for NestedConfigs {
    type V = Map<Seq<Seq<char>>, ConfigStore>;

    closed spec fn view(&self) -> Map<Seq<Seq<char>>, ConfigStore> {
        configs_in(self.map)
    }
}

impl NestedConfigs {
    /// No configurations.
    pub fn new() -> (configs: Self)
        ensures
            configs@ == Map::<Seq<Seq<char>>, ConfigStore>::empty(),
    {
        NestedConfigs { map: no_configs() }
    }

    /// Gives a directory a configuration, in place of one that it has.
    pub fn insert(&mut self, dir: &str, config: ConfigStore)
        ensures
            final(self)@ == old(self)@.insert(path_components(dir@), config),
    {
        insert_config(&mut self.map, dir, config);
    }

    /// Takes a directory's configuration away.
    pub fn remove(&mut self, dir: &str)
        ensures
            final(self)@ == old(self)@.remove(path_components(dir@)),
    {
        remove_config(&mut self.map, dir);
    }

    /// Takes all configurations away.
    pub fn clear(&mut self)
        ensures
            final(self)@ == Map::<Seq<Seq<char>>, ConfigStore>::empty(),
    {
        clear_configs(&mut self.map);
    }

    /// The directories with their configurations, each once.
    pub fn entries(&self) -> (entries: Vec<(String, ConfigStore)>)
        ensures
            lists(entries@, self@),
    {
        config_entries(&self.map)
    }
}

/// A configuration file of a workspace, with what the linter compiled of it.
#[derive(Debug)]
pub struct FoundConfig {
    pub path: String,
    pub config: ConfigStore,
}

/// The configurations of files, each under the file's directory. A later file takes the place of an
/// earlier one of its directory, and a file without a directory does not count.
pub open spec fn configs_of(found: Seq<FoundConfig>) -> Map<Seq<Seq<char>>, ConfigStore>
    decreases found.len(),
{
    if found.len() == 0 {
        Map::empty()
    } else {
        let before = configs_of(found.drop_last());
        match path_parent(found.last().path@) {
            Some(dir) => before.insert(path_components(dir), found.last().config),
            None => before,
        }
    }
}

/// The configurations of a workspace with certain settings: none where configurations in
/// subdirectories do not count.
pub open spec fn initial_configs(options: OptionsView, found: Seq<FoundConfig>) -> Map<
    Seq<Seq<char>>,
    ConfigStore,
> {
    if options.use_nested_configs() {
        configs_of(found)
    } else {
        Map::empty()
    }
}

/// The configurations in the subdirectories of a workspace, from the configuration files below its
/// root. There is nothing to search for where such configurations do not count.
pub fn init_nested_configs(options: &Options, found: &Vec<FoundConfig>) -> (configs: NestedConfigs)
    ensures
        configs@ == initial_configs(options@, found@),
{
    let mut configs = NestedConfigs::new();
    if !options.use_nested_configs() {
        return configs;
    }
    let mut i: usize = 0;
    while i < found.len()
        invariant
            i <= found.len(),
            configs@ == configs_of(found@.take(i as int)),
        decreases found.len() - i,
    {
        assert(found@.take(i + 1).drop_last() =~= found@.take(i as int));
        if let Some(dir) = parent(found[i].path.as_str()) {
            configs.insert(dir.as_str(), found[i].config);
        }
        i += 1;
    }
    assert(found@.take(found@.len() as int) =~= found@);
    configs
}

/// A list of a map's entries has each directory of the map once, with its configuration, and no
/// other directory.
pub proof fn lists_are_complete(
    entries: Seq<(String, ConfigStore)>,
    configs: Map<Seq<Seq<char>>, ConfigStore>,
    dir: Seq<Seq<char>>,
)
    requires
        lists(entries, configs),
    ensures
        configs.contains_key(dir) <==> exists|i: int|
            0 <= i < entries.len() && path_components((#[trigger] entries[i]).0@) == dir,
        forall|i: int|
            0 <= i < entries.len() && path_components((#[trigger] entries[i]).0@) == dir
                ==> entries[i].1 == configs[dir],
        forall|i: int, j: int|
            0 <= i < j < entries.len() ==> path_components((#[trigger] entries[i]).0@)
                != path_components((#[trigger] entries[j]).0@),
{
    let dirs = entry_dirs(entries);
    assert(dirs.to_set().contains(dir) <==> configs.contains_key(dir));
    if configs.contains_key(dir) {
        let i = choose|i: int| 0 <= i < dirs.len() && dirs[i] == dir;
        assert(path_components(entries[i].0@) == dir);
    }
    if exists|i: int| 0 <= i < entries.len() && path_components((#[trigger] entries[i]).0@) == dir {
        let i = choose|i: int|
            0 <= i < entries.len() && path_components((#[trigger] entries[i]).0@) == dir;
        assert(dirs[i] == dir);
    }
    assert forall|i: int, j: int| 0 <= i < j < entries.len() implies path_components(
        (#[trigger] entries[i]).0@,
    ) != path_components((#[trigger] entries[j]).0@) by {
        assert(dirs[i] != dirs[j]);
    }
}

/// A configuration file that is found gives its directory its configuration, in place of an earlier
/// one, and touches no other directory.
pub proof fn found_files_configure_their_directory(
    found: Seq<FoundConfig>,
    file: FoundConfig,
    other: Seq<Seq<char>>,
)
    ensures
        configs_of(Seq::empty()).is_empty(),
        path_parent(file.path@) is None ==> configs_of(found.push(file)) == configs_of(found),
        path_parent(file.path@) matches Some(dir) ==> {
            let before = configs_of(found);
            let after = configs_of(found.push(file));
            &&& after.contains_key(path_components(dir))
            &&& after[path_components(dir)] == file.config
            &&& other != path_components(dir) ==> {
                &&& after.contains_key(other) <==> before.contains_key(other)
                &&& after[other] == before[other]
            }
        },
{
    assert(found.push(file).drop_last() =~= found);
    assert(configs_of(Seq::<FoundConfig>::empty()) =~= Map::empty());
}

/// A workspace begins with the configurations of the files found, unless its settings switch
/// configurations in subdirectories off without a configuration file of their own.
pub proof fn configs_of_files_count_unless_switched_off(
    options: OptionsView,
    found: Seq<FoundConfig>,
)
    ensures
        !options.flags.contains_key("disable_nested_config"@) ==> initial_configs(options, found)
            == configs_of(found),
        options.config_path is Some ==> initial_configs(options, found) == configs_of(found),
        options.flags.contains_key("disable_nested_config"@) && options.config_path is None
            ==> initial_configs(options, found).is_empty(),
{
    if !options.use_nested_configs() {
        assert(initial_configs(options, found) =~= Map::empty());
    }
}

} // verus!
