//! The state of one workspace and what events do to it.

use vstd::prelude::*;

use crate::config::{ConfigStore, Oxlintrc};
use crate::diagnostics::{
    copy_reports, get_reports, insert_reports, no_reports, remove_reports, reported_uris, reports_in,
    Diagnostic, DiagnosticReport, ReportMap,
};
use crate::ignore_files::{
    init_ignore_glob, pattern_rules, patterns_usable, walked_files, walked_rules, WalkedFile,
};
use crate::ignore_rules::{
    any_ignores, can_ask, can_ask_in_turn, one_ignores, IgnoreMatchers, IgnoreRules,
};
use crate::linter::{init_linter_config, LinterSettings};
use crate::nested_configs::{
    init_nested_configs, initial_configs, FoundConfig, NestedConfigs,
};
use crate::options::{restart_needed, Options, OptionsView, Run};
use crate::paths::{document_path, file_path, is_within, path_within};
use crate::text::{same_optional_text, texts};
use crate::watched_files::{
    after_changes, change_configs, config_files_to_load, files_to_load, FileEvent,
};

verus! {

/// The root of a workspace: its address, and the path that the address stands for.
struct Root {
    uri: String,
    path: String,
}

impl Root {
    #[verifier::type_invariant]
    spec fn inv(self) -> bool {
        Some(self.path@) == document_path(self.uri@)
    }
}

/// The state of one workspace.
pub struct BackendWorker {
    root: Root,
    server_linter: LinterSettings,
    diagnostics_report_map: ReportMap,
    options: Options,
    gitignore_glob: IgnoreMatchers,
    nested_configs: NestedConfigs,
}

/// The state of one workspace, as values of logic.
pub struct WorkerView {
    /// The address of the root.
    pub root_uri: Seq<char>,
    /// The path of the root.
    pub root_path: Seq<char>,
    /// What the linter is set up with.
    pub linter: LinterSettings,
    /// The findings in each document, under the document's address.
    pub reports: Map<Seq<char>, Seq<DiagnosticReport>>,
    pub options: OptionsView,
    /// The rules on what to leave alone.
    pub rules: Seq<IgnoreRules>,
    /// The configurations of subdirectories, under the components of the directories' paths.
    pub configs: Map<Seq<Seq<char>>, ConfigStore>,
}

/// What is left to do once settings have changed.
#[derive(Debug, PartialEq, Eq, Structural, Clone, Copy)]
pub struct ConfigurationChange {
    /// The configurations of subdirectories have to be searched for again.
    pub reload_nested_configs: bool,
    /// The linter has to be set up anew, and the open documents to be linted again.
    pub restart_linter: bool,
}

impl WorkerView {
    /// The path of the root is that of its address, and configurations of subdirectories are kept
    /// only where they count.
    pub open spec fn wf(self) -> bool {
        &&& Some(self.root_path) == document_path(self.root_uri)
        &&& !self.options.use_nested_configs() ==> self.configs == Map::<
            Seq<Seq<char>>,
            ConfigStore,
        >::empty()
    }

    /// Whether a document lies in the workspace: its path is that of the root's address or lies
    /// below it.
    pub open spec fn responsible_for(self, uri: Seq<char>) -> bool {
        match (document_path(self.root_uri), document_path(uri)) {
            (Some(root), Some(path)) => path_within(path, root),
            _ => false,
        }
    }

    /// Whether a document is left alone.
    pub open spec fn ignores(self, uri: Seq<char>, is_dir: bool) -> bool {
        match document_path(uri) {
            Some(path) => one_ignores(self.rules, path, is_dir),
            None => false,
        }
    }

    /// Whether the rules can tell of a document if it is left alone.
    pub open spec fn can_tell(self, uri: Seq<char>, is_dir: bool) -> bool {
        match document_path(uri) {
            Some(path) => can_ask_in_turn(self.rules, path, is_dir),
            None => true,
        }
    }

    /// Whether the linter is set up for the workspace as it is, with `config` for the root.
    pub open spec fn linter_is_current(self, config: ConfigStore) -> bool {
        self.linter.suit(self.root_path, self.options, self.configs, config)
    }

    /// The state once the linter has answered for a document: it keeps what was found. Where the
    /// linter has no answer, what was found earlier stays.
    pub open spec fn linted(self, uri: Seq<char>, found: Option<Seq<DiagnosticReport>>) -> WorkerView {
        match found {
            Some(reports) => WorkerView { reports: self.reports.insert(uri, reports), ..self },
            None => self,
        }
    }

    /// The state once what was found in a document is forgotten.
    pub open spec fn forgotten(self, uri: Seq<char>) -> WorkerView {
        WorkerView { reports: self.reports.remove(uri), ..self }
    }

    /// The state once the settings have changed. Where it changes whether configurations of
    /// subdirectories count, those that were kept are dropped.
    pub open spec fn configured(self, changed: OptionsView) -> WorkerView {
        WorkerView {
            options: changed,
            configs: if changed.use_nested_configs() != self.options.use_nested_configs() {
                Map::empty()
            } else {
                self.configs
            },
            ..self
        }
    }

    /// The state once the configurations of subdirectories have been searched for.
    pub open spec fn reloaded(self, found: Seq<FoundConfig>) -> WorkerView {
        WorkerView { configs: initial_configs(self.options, found), ..self }
    }

    /// The configuration files that changes of watched files ask to load: none where configurations
    /// of subdirectories do not count.
    pub open spec fn to_load(self, events: Seq<FileEvent>) -> Seq<Seq<char>> {
        if self.options.use_nested_configs() {
            files_to_load(events)
        } else {
            Seq::empty()
        }
    }

    /// The state once watched files have changed, which matters to the configurations of
    /// subdirectories only where they count. `loaded` has what was loaded of each file to load.
    pub open spec fn files_changed(
        self,
        events: Seq<FileEvent>,
        loaded: Seq<ConfigStore>,
    ) -> WorkerView {
        if self.options.use_nested_configs() {
            WorkerView { configs: after_changes(self.configs, events, loaded), ..self }
        } else {
            self
        }
    }
}

/// What a change of the settings leaves to do.
pub open spec fn change_of(old_options: OptionsView, new_options: OptionsView) -> ConfigurationChange {
    ConfigurationChange {
        reload_nested_configs: new_options.use_nested_configs()
            != old_options.use_nested_configs(),
        restart_linter: restart_needed(old_options, new_options),
    }
}

/// What was found in a document, as values of logic.
pub open spec fn found_reports(found: Option<Vec<DiagnosticReport>>) -> Option<
    Seq<DiagnosticReport>,
> {
    match found {
        Some(reports) => Some(reports@),
        None => None,
    }
}

/// What was found in a document: nothing where the linter has no answer.
pub open spec fn answer(found: Option<Seq<DiagnosticReport>>) -> Seq<DiagnosticReport> {
    match found {
        Some(reports) => reports,
        None => Seq::empty(),
    }
}

/// The addresses of a list of documents with their findings.
pub open spec fn listed_uris(list: Seq<(String, Vec<Diagnostic>)>) -> Seq<Seq<char>> {
    list.map_values(|entry: (String, Vec<Diagnostic>)| entry.0@)
}

/// Whether a list clears the findings of a workspace: it has each document with findings once,
/// with no finding left.
pub open spec fn clears(
    list: Seq<(String, Vec<Diagnostic>)>,
    reports: Map<Seq<char>, Seq<DiagnosticReport>>,
) -> bool {
    &&& listed_uris(list).no_duplicates()
    &&& listed_uris(list).to_set() == reports.dom()
    &&& forall|i: int| 0 <= i < list.len() ==> (#[trigger] list[i]).1@.len() == 0
}

impl View for BackendWorker {
    type V = WorkerView;

    closed spec fn view(&self) -> WorkerView {
        WorkerView {
            root_uri: self.root.uri@,
            root_path: self.root.path@,
            linter: self.server_linter,
            reports: reports_in(self.diagnostics_report_map),
            options: self.options@,
            rules: self.gitignore_glob@,
            configs: self.nested_configs@,
        }
    }
}

impl BackendWorker {
    /// The state of a workspace that was just opened, from the configuration files below its root,
    /// the configuration of its root, and its files.
    pub fn new(
        root_uri: String,
        options: Options,
        found: &Vec<FoundConfig>,
        oxlintrc: &Oxlintrc,
        files: &Vec<WalkedFile>,
    ) -> (worker: Self)
        requires
            document_path(root_uri@) is Some,
            patterns_usable(oxlintrc@),
        ensures
            worker@.wf(),
            worker@.root_uri == root_uri@,
            worker@.linter_is_current(oxlintrc.store),
            worker@.reports == Map::<Seq<char>, Seq<DiagnosticReport>>::empty(),
            worker@.options == options@,
            worker@.rules == walked_rules(walked_files(files@)) + pattern_rules(oxlintrc@),
            worker@.configs == initial_configs(options@, found@),
    {
        let root_path = file_path(root_uri.as_str()).unwrap();
        let nested_configs = init_nested_configs(&options, found);
        let server_linter = init_linter_config(
            root_path.as_str(),
            &options,
            &nested_configs,
            oxlintrc,
        );
        BackendWorker {
            root: Root { uri: root_uri, path: root_path },
            server_linter,
            diagnostics_report_map: no_reports(),
            options,
            gitignore_glob: init_ignore_glob(files, oxlintrc),
            nested_configs,
        }
    }

    /// Whether a document lies in the workspace.
    pub fn is_responsible_for_uri(&self, uri: &str) -> (responsible: bool)
        ensures
            responsible == self@.responsible_for(uri@),
    {
        proof {
            use_type_invariant(&self.root);
        }
        match file_path(uri) {
            Some(path) => is_within(path.as_str(), self.root.path.as_str()),
            None => false,
        }
    }

    /// Forgets what was found in a document.
    pub fn remove_diagnostics(&mut self, uri: &str)
        ensures
            final(self)@ == old(self)@.forgotten(uri@),
    {
        remove_reports(&mut self.diagnostics_report_map, uri);
    }

    /// Whether a linter that was set up for `old_options` cannot serve `new_options`.
    pub fn needs_linter_restart(old_options: &Options, new_options: &Options) -> (needed: bool)
        ensures
            needed == restart_needed(old_options@, new_options@),
    {
        !same_optional_text(&old_options.config_path, &new_options.config_path)
            || old_options.use_nested_configs() != new_options.use_nested_configs()
            || old_options.fix_kind() != new_options.fix_kind()
    }

    /// Whether the settings ask for linting on an occasion of this kind.
    pub fn should_lint_on_run_type(&self, current_run: Run) -> (should: bool)
        ensures
            should == (self@.options.run == current_run),
    {
        self.options.run == current_run
    }

    /// Whether a document is left alone. `is_dir` says if its path is that of a directory.
    pub fn is_ignored(&self, uri: &str, is_dir: bool) -> (ignored: bool)
        requires
            self@.can_tell(uri@, is_dir),
        ensures
            ignored == self@.ignores(uri@, is_dir),
    {
        match file_path(uri) {
            Some(path) => any_ignores(&self.gitignore_glob, path.as_str(), is_dir),
            None => false,
        }
    }

    /// Whether a document is left alone, or nothing where the rules cannot tell.
    pub fn try_is_ignored(&self, uri: &str, is_dir: bool) -> (ignored: Option<bool>)
        ensures
            ignored is Some <==> self@.can_tell(uri@, is_dir),
            ignored matches Some(i) ==> i == self@.ignores(uri@, is_dir),
    {
        let can_tell = match file_path(uri) {
            Some(path) => can_ask(&self.gitignore_glob, path.as_str(), is_dir),
            None => true,
        };
        if can_tell {
            Some(self.is_ignored(uri, is_dir))
        } else {
            None
        }
    }

    /// Keeps what the linter found in a document and returns it. Where the linter has no answer,
    /// what was found earlier stays, and nothing is returned.
    pub fn update_diagnostics(&mut self, uri: &str, found: Option<Vec<DiagnosticReport>>) -> (reports:
        Vec<DiagnosticReport>)
        ensures
            final(self)@ == old(self)@.linted(uri@, found_reports(found)),
            reports@ == answer(found_reports(found)),
    {
        match found {
            Some(reports) => {
                let kept = copy_reports(&reports);
                insert_reports(&mut self.diagnostics_report_map, uri.to_owned(), kept);
                reports
            },
            None => Vec::new(),
        }
    }

    /// Takes the linter's answer for a document, unless the document is left alone.
    pub fn lint_file(&mut self, uri: &str, is_dir: bool, found: Option<Vec<DiagnosticReport>>) -> (
    reports: Option<Vec<DiagnosticReport>>)
        requires
            old(self)@.can_tell(uri@, is_dir),
        ensures
            reports is None <==> old(self)@.ignores(uri@, is_dir),
            reports is None ==> final(self)@ == old(self)@,
            reports matches Some(r) ==> {
                &&& final(self)@ == old(self)@.linted(uri@, found_reports(found))
                &&& r@ == answer(found_reports(found))
            },
    {
        if self.is_ignored(uri, is_dir) {
            return None;
        }
        Some(self.update_diagnostics(uri, found))
    }

    /// What was found in a document, if it was linted.
    pub fn reports(&self, uri: &str) -> (reports: Option<Vec<DiagnosticReport>>)
        ensures
            reports is Some <==> self@.reports.contains_key(uri@),
            reports matches Some(r) ==> r@ == self@.reports[uri@],
    {
        get_reports(&self.diagnostics_report_map, uri)
    }

    /// The documents that were linted, each with no finding left.
    pub fn get_clear_diagnostics(&self) -> (list: Vec<(String, Vec<Diagnostic>)>)
        ensures
            clears(list@, self@.reports),
    {
        let uris = reported_uris(&self.diagnostics_report_map);
        let mut list: Vec<(String, Vec<Diagnostic>)> = Vec::new();
        let mut i: usize = 0;
        while i < uris.len()
            invariant
                i <= uris.len(),
                listed_uris(list@) =~= texts(uris@).take(i as int),
                forall|j: int| 0 <= j < list@.len() ==> (#[trigger] list@[j]).1@.len() == 0,
            decreases uris.len() - i,
        {
            let ghost before = list@;
            list.push((uris[i].clone(), Vec::new()));
            assert(listed_uris(list@) =~= listed_uris(before).push(uris@[i as int]@));
            i += 1;
        }
        assert(texts(uris@).take(uris@.len() as int) =~= texts(uris@));
        list
    }

    /// Takes new settings, and says what is left to do for them.
    pub fn did_change_configuration(&mut self, changed_options: Options) -> (change:
        ConfigurationChange)
        ensures
            final(self)@ == old(self)@.configured(changed_options@),
            final(self)@.options == changed_options@,
            old(self)@.wf() ==> final(self)@.wf(),
            change == change_of(old(self)@.options, changed_options@),
    {
        let reload_nested_configs = changed_options.use_nested_configs()
            != self.options.use_nested_configs();
        let restart_linter = Self::needs_linter_restart(&self.options, &changed_options);
        self.options = changed_options;
        if reload_nested_configs {
            self.nested_configs.clear();
        }
        ConfigurationChange { reload_nested_configs, restart_linter }
    }

    /// Takes the configurations of subdirectories from the configuration files below the root.
    pub fn reload_nested_configs(&mut self, found: &Vec<FoundConfig>)
        ensures
            final(self)@ == old(self)@.reloaded(found@),
            final(self)@.wf(),
    {
        proof {
            use_type_invariant(&self.root);
        }
        self.nested_configs = init_nested_configs(&self.options, found);
    }

    /// Sets the linter up anew.
    pub fn restart_linter(&mut self, oxlintrc: &Oxlintrc)
        ensures
            final(self)@ == (WorkerView { linter: final(self)@.linter, ..old(self)@ }),
            final(self)@.linter_is_current(oxlintrc.store),
    {
        self.server_linter = init_linter_config(
            self.root.path.as_str(),
            &self.options,
            &self.nested_configs,
            oxlintrc,
        );
    }

    /// The configuration files that changes of watched files ask to load: none where configurations
    /// of subdirectories do not count.
    pub fn watched_files_to_load(&self, events: &Vec<FileEvent>) -> (files: Vec<String>)
        ensures
            texts(files@) == self@.to_load(events@),
    {
        if self.options.use_nested_configs() {
            config_files_to_load(events)
        } else {
            let files: Vec<String> = Vec::new();
            assert(texts(files@) =~= Seq::<Seq<char>>::empty());
            files
        }
    }

    /// Watched files changed: changes the configurations of subdirectories, where they count, and
    /// sets the linter up anew. `loaded` has what was loaded of each file to load, in their order.
    /// Where it has more or less than that, nothing is done.
    pub fn did_change_watched_files(
        &mut self,
        events: &Vec<FileEvent>,
        loaded: &Vec<ConfigStore>,
        oxlintrc: &Oxlintrc,
    ) -> (done: bool)
        ensures
            done <==> loaded@.len() == old(self)@.to_load(events@).len(),
            done ==> final(self)@ == (WorkerView {
                linter: final(self)@.linter,
                ..old(self)@.files_changed(events@, loaded@)
            }),
            done ==> final(self)@.linter_is_current(oxlintrc.store),
            !done ==> final(self)@ == old(self)@,
            old(self)@.wf() ==> final(self)@.wf(),
    {
        let files = self.watched_files_to_load(events);
        assert(texts(files@).len() == files@.len());
        if loaded.len() != files.len() {
            return false;
        }
        if self.options.use_nested_configs() {
            change_configs(&mut self.nested_configs, events, loaded);
        }
        self.restart_linter(oxlintrc);
        true
    }

    /// The documents to lint again once the linter was set up anew.
    pub fn revalidate_open_files(&self) -> (uris: Vec<String>)
        ensures
            texts(uris@).no_duplicates(),
            texts(uris@).to_set() == self@.reports.dom(),
    {
        reported_uris(&self.diagnostics_report_map)
    }

    /// What the linter is set up with.
    pub fn linter_settings(&self) -> (settings: &LinterSettings)
        ensures
            *settings == self@.linter,
    {
        &self.server_linter
    }

    /// The path of the root.
    pub fn root_path(&self) -> (path: &str)
        ensures
            path@ == self@.root_path,
            Some(path@) == document_path(self@.root_uri),
    {
        proof {
            use_type_invariant(&self.root);
        }
        self.root.path.as_str()
    }

    /// The settings.
    pub fn options(&self) -> (options: &Options)
        ensures
            options@ == self@.options,
    {
        &self.options
    }
}

} // verus!
