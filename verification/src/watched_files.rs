//! What changes of watched files mean for the configurations of subdirectories.

use vstd::prelude::*;

use crate::config::ConfigStore;
use crate::nested_configs::NestedConfigs;
use crate::paths::{
    document_path, file_name, file_path, parent, path_components, path_file_name, path_parent,
};
use crate::text::{same_text, texts};

verus! {

/// The name of a configuration file.
pub const OXC_CONFIG_FILE: &'static str = ".oxlintrc.json";

/// What happened to a file.
#[derive(Debug, PartialEq, Eq, Structural, Clone, Copy)]
pub enum FileChangeType {
    Created,
    Changed,
    Deleted,
    Other,
}

/// A change of a watched file.
#[derive(Debug)]
pub struct FileEvent {
    pub uri: String,
    pub typ: FileChangeType,
}

/// What a change of a file asks for.
#[derive(Debug)]
pub enum ConfigUpdate {
    /// The file is now the configuration of the directory.
    Load { file: String, dir: String },
    /// The directory has no configuration of its own any more.
    Remove { dir: String },
}

/// What a change of a file asks for, as values of logic.
pub enum ConfigUpdateView {
    Load { file: Seq<char>, dir: Seq<char> },
    Remove { dir: Seq<char> },
}

impl View for ConfigUpdate {
    type V = ConfigUpdateView;

    open spec fn view(&self) -> ConfigUpdateView {
        match self {
            ConfigUpdate::Load { file, dir } => ConfigUpdateView::Load { file: file@, dir: dir@ },
            ConfigUpdate::Remove { dir } => ConfigUpdateView::Remove { dir: dir@ },
        }
    }
}

/// Whether an address is that of a configuration file in a directory.
pub open spec fn is_config_file(uri: Seq<char>) -> bool {
    match document_path(uri) {
        Some(path) => path_file_name(path) == Some(OXC_CONFIG_FILE@) && path_parent(path) is Some,
        None => false,
    }
}

/// What a change of a file asks for: nothing unless it is a configuration file.
pub open spec fn update_for(uri: Seq<char>, typ: FileChangeType) -> Option<ConfigUpdateView> {
    if is_config_file(uri) {
        let file = document_path(uri)->0;
        let dir = path_parent(file)->0;
        match typ {
            FileChangeType::Created | FileChangeType::Changed => Some(
                ConfigUpdateView::Load { file, dir },
            ),
            FileChangeType::Deleted => Some(ConfigUpdateView::Remove { dir }),
            FileChangeType::Other => None,
        }
    } else {
        None
    }
}

/// The configuration files that changes of files ask to load, in their order.
pub open spec fn files_to_load(events: Seq<FileEvent>) -> Seq<Seq<char>>
    decreases events.len(),
{
    if events.len() == 0 {
        Seq::empty()
    } else {
        let before = files_to_load(events.drop_last());
        match update_for(events.last().uri@, events.last().typ) {
            Some(ConfigUpdateView::Load { file, .. }) => before.push(file),
            _ => before,
        }
    }
}

/// The configurations of subdirectories after changes of files, one after the other. `loaded` has
/// what was loaded of each file to load, in their order.
pub open spec fn after_changes(
    configs: Map<Seq<Seq<char>>, ConfigStore>,
    events: Seq<FileEvent>,
    loaded: Seq<ConfigStore>,
) -> Map<Seq<Seq<char>>, ConfigStore>
    decreases events.len(),
{
    if events.len() == 0 {
        configs
    } else {
        let before = events.drop_last();
        match update_for(events.last().uri@, events.last().typ) {
            Some(ConfigUpdateView::Load { dir, .. }) => after_changes(
                configs,
                before,
                loaded.drop_last(),
            ).insert(path_components(dir), loaded.last()),
            Some(ConfigUpdateView::Remove { dir }) => after_changes(
                configs,
                before,
                loaded,
            ).remove(path_components(dir)),
            None => after_changes(configs, before, loaded),
        }
    }
}

/// What a change of a file asks for: nothing unless it is a configuration file.
pub fn config_update(event: &FileEvent) -> (update: Option<ConfigUpdate>)
    ensures
        update is Some <==> update_for(event.uri@, event.typ) is Some,
        update matches Some(u) ==> Some(u@) == update_for(event.uri@, event.typ),
        update matches Some(ConfigUpdate::Load { file, dir }) ==> path_components(file@)
            == path_components(dir@).push(OXC_CONFIG_FILE@),
{
    let file = match file_path(event.uri.as_str()) {
        Some(file) => file,
        None => {
            return None;
        },
    };
    match file_name(file.as_str()) {
        Some(name) => {
            if !same_text(name.as_str(), OXC_CONFIG_FILE) {
                return None;
            }
        },
        None => {
            return None;
        },
    }
    let dir = match parent(file.as_str()) {
        Some(dir) => dir,
        None => {
            return None;
        },
    };
    assert(path_components(file@) =~= path_components(dir@).push(OXC_CONFIG_FILE@));
    match event.typ {
        FileChangeType::Created | FileChangeType::Changed => Some(
            ConfigUpdate::Load { file, dir },
        ),
        FileChangeType::Deleted => Some(ConfigUpdate::Remove { dir }),
        FileChangeType::Other => None,
    }
}

/// The configuration files that changes of files ask to load, in their order.
pub fn config_files_to_load(events: &Vec<FileEvent>) -> (files: Vec<String>)
    ensures
        texts(files@) == files_to_load(events@),
{
    let mut files: Vec<String> = Vec::new();
    let mut i: usize = 0;
    while i < events.len()
        invariant
            i <= events.len(),
            texts(files@) =~= files_to_load(events@.take(i as int)),
        decreases events.len() - i,
    {
        assert(events@.take(i + 1).drop_last() =~= events@.take(i as int));
        if let Some(ConfigUpdate::Load { file, .. }) = config_update(&events[i]) {
            files.push(file);
        }
        i += 1;
    }
    assert(events@.take(events@.len() as int) =~= events@);
    files
}

/// The first changes ask to load no more files than all of them.
proof fn lemma_first_load_no_more(events: Seq<FileEvent>, n: int)
    requires
        0 <= n <= events.len(),
    ensures
        files_to_load(events.take(n)).len() <= files_to_load(events).len(),
    decreases events.len(),
{
    if n < events.len() {
        lemma_first_load_no_more(events.drop_last(), n);
        assert(events.drop_last().take(n) =~= events.take(n));
    } else {
        assert(events.take(n) =~= events);
    }
}

/// Changes the configurations of subdirectories as changes of files ask for. `loaded` has what was
/// loaded of each file to load, in their order.
pub(crate) fn change_configs(
    configs: &mut NestedConfigs,
    events: &Vec<FileEvent>,
    loaded: &Vec<ConfigStore>,
)
    requires
        loaded@.len() == files_to_load(events@).len(),
    ensures
        final(configs)@ == after_changes(old(configs)@, events@, loaded@),
{
    let ghost before = configs@;
    let mut used: usize = 0;
    let mut i: usize = 0;
    while i < events.len()
        invariant
            i <= events.len(),
            loaded@.len() == files_to_load(events@).len(),
            used == files_to_load(events@.take(i as int)).len(),
            used <= loaded.len(),
            configs@ == after_changes(before, events@.take(i as int), loaded@.take(used as int)),
        decreases events.len() - i,
    {
        proof {
            assert(events@.take(i + 1).drop_last() =~= events@.take(i as int));
            lemma_first_load_no_more(events@, i + 1);
        }
        match config_update(&events[i]) {
            Some(ConfigUpdate::Load { dir, .. }) => {
                assert(loaded@.take(used + 1).drop_last() =~= loaded@.take(used as int));
                configs.insert(dir.as_str(), loaded[used]);
                used += 1;
            },
            Some(ConfigUpdate::Remove { dir }) => {
                configs.remove(dir.as_str());
            },
            None => {},
        }
        i += 1;
    }
    assert(events@.take(events@.len() as int) =~= events@);
    assert(loaded@.take(loaded@.len() as int) =~= loaded@);
}

/// The files whose changes count are those named `.oxlintrc.json` that stand in a directory, and no
/// others.
pub proof fn config_files_go_by_their_name(uri: Seq<char>)
    ensures
        document_path(uri) is None ==> !is_config_file(uri),
        document_path(uri) matches Some(path) ==> {
            let names = path_components(path);
            is_config_file(uri) <==> {
                &&& names.len() > 0
                &&& names.last() == ".oxlintrc.json"@
                &&& path_parent(path) is Some
            }
        },
{
    reveal_strlit(".oxlintrc.json");
    reveal_strlit("/");
    reveal_strlit(".");
    reveal_strlit("..");
    assert(".oxlintrc.json"@.len() == 14);
    assert("/"@.len() == 1);
    assert("."@.len() == 1);
    assert(".."@.len() == 2);
}

/// A configuration file that was created or changed is to be loaded for its directory. Where it was
/// deleted, the directory's configuration is to be taken away. Nothing else asks for anything.
pub proof fn changes_ask_for_what_happened(uri: Seq<char>, typ: FileChangeType)
    ensures
        update_for(uri, typ) is Some <==> is_config_file(uri) && !(typ is Other),
        update_for(uri, typ) matches Some(ConfigUpdateView::Load { file, dir }) ==> {
            &&& typ is Created || typ is Changed
            &&& document_path(uri) == Some(file)
            &&& path_parent(file) == Some(dir)
        },
        update_for(uri, typ) matches Some(ConfigUpdateView::Remove { dir }) ==> {
            &&& typ is Deleted
            &&& document_path(uri) is Some
            &&& path_parent(document_path(uri)->0) == Some(dir)
        },
{
}

/// Without changes nothing is loaded and nothing changes.
pub proof fn no_changes_change_nothing(
    configs: Map<Seq<Seq<char>>, ConfigStore>,
    loaded: Seq<ConfigStore>,
)
    ensures
        files_to_load(Seq::empty()) == Seq::<Seq<char>>::empty(),
        after_changes(configs, Seq::empty(), loaded) == configs,
{
}

/// What is asked for is said as it is: the file and the directory.
pub proof fn updates_are_taken_as_they_are(update: ConfigUpdate)
    ensures
        update matches ConfigUpdate::Load { file, dir } ==> update@ == (ConfigUpdateView::Load {
            file: file@,
            dir: dir@,
        }),
        update matches ConfigUpdate::Remove { dir } ==> update@ == (ConfigUpdateView::Remove {
            dir: dir@,
        }),
{
}

} // verus!
