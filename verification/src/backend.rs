//! The workspaces of a server and what the requests of a client do to them.

use vstd::prelude::*;

use crate::code_actions::{asks_for_fix_all, concerned, plan_code_actions, CodeActionPlan};
use crate::commands::{find_command, InvalidRequest};
use crate::config::Oxlintrc;
use crate::diagnostics::{diagnostics, diagnostics_of, Diagnostic, DiagnosticReport};
use crate::ignore_files::{
    can_use_patterns, pattern_rules, patterns_usable, walked_files, walked_rules, WalkedFile,
};
use crate::nested_configs::{initial_configs, FoundConfig};
use crate::options::{restart_needed, Options, OptionsView, Run};
use crate::paths::{file_path, document_path};
use crate::position::Range;
use crate::text::{text_of, texts};
use crate::worker::{
    answer, change_of, clears, found_reports, BackendWorker, ConfigurationChange, WorkerView,
};

verus! {

/// The name under which the server introduces itself.
pub const SERVER_NAME: &'static str = "oxc";

/// The section of a client's configuration that holds the settings.
pub const CONFIGURATION_SECTION: &'static str = "oxc_language_server";

/// The state of a server.
pub struct Backend {
    pub workspace_workers: Vec<BackendWorker>,
}

/// No workspace holds the document.
#[derive(Debug, PartialEq, Eq, Structural, Clone, Copy)]
pub struct NoResponsibleWorker;

/// The rules on what to leave alone cannot tell of the document.
#[derive(Debug, PartialEq, Eq, Structural, Clone, Copy)]
pub struct UnknownToRules;

/// What the server says of itself.
#[derive(Debug)]
pub struct ServerInfo {
    pub name: String,
    pub version: Option<String>,
}

/// What the server answers when it is set up, besides what it is capable of.
#[derive(Debug)]
pub struct InitializeResult {
    pub server_info: Option<ServerInfo>,
    pub offset_encoding: Option<String>,
}

/// A document to lint.
#[derive(Debug)]
pub struct LintRequest {
    /// The workspace that holds it.
    pub worker: usize,
    pub uri: String,
    /// Its text, unless that is to be read from the disk.
    pub content: Option<String>,
    /// The version that findings are published for.
    pub version: Option<i32>,
}

/// Findings to publish.
#[derive(Debug)]
pub struct Publication {
    pub uri: String,
    pub diagnostics: Vec<Diagnostic>,
    pub version: Option<i32>,
}

/// What to do with changed settings.
#[derive(Debug)]
pub enum ConfigurationStep {
    /// Put them into force.
    Apply(Options),
    /// Ask the client for them.
    AskClient,
    /// Leave things as they are.
    GiveUp,
}

/// The workspaces of a server, as values of logic.
pub open spec fn worker_views(workers: Seq<BackendWorker>) -> Seq<WorkerView> {
    workers.map_values(|worker: BackendWorker| worker@)
}

impl View for Backend {
    type V = Seq<WorkerView>;

    open spec fn view(&self) -> Seq<WorkerView> {
        worker_views(self.workspace_workers@)
    }
}

/// Whether a workspace is the first that holds a document.
pub open spec fn is_first_responsible(workers: Seq<WorkerView>, uri: Seq<char>, i: int) -> bool {
    &&& 0 <= i < workers.len()
    &&& workers[i].responsible_for(uri)
    &&& forall|j: int| 0 <= j < i ==> !(#[trigger] workers[j]).responsible_for(uri)
}

/// The first workspace that holds a document, if there is one.
pub open spec fn responsible(workers: Seq<WorkerView>, uri: Seq<char>) -> Option<int> {
    if exists|i: int| is_first_responsible(workers, uri, i) {
        Some(choose|i: int| is_first_responsible(workers, uri, i))
    } else {
        None
    }
}

/// The first workspace that holds a document is the one that is found.
pub proof fn lemma_responsible(workers: Seq<WorkerView>, uri: Seq<char>, i: int)
    requires
        is_first_responsible(workers, uri, i),
    ensures
        responsible(workers, uri) == Some(i),
{
    let k = choose|k: int| is_first_responsible(workers, uri, k);
    assert(is_first_responsible(workers, uri, k));
    if k < i {
        assert(!workers[k].responsible_for(uri));
    } else if i < k {
        assert(!workers[i].responsible_for(uri));
    }
}

/// No workspace is found exactly where none holds the document.
pub proof fn lemma_none_responsible(workers: Seq<WorkerView>, uri: Seq<char>)
    ensures
        responsible(workers, uri) is None <==> forall|i: int|
            0 <= i < workers.len() ==> !(#[trigger] workers[i]).responsible_for(uri),
{
    if exists|i: int| 0 <= i < workers.len() && (#[trigger] workers[i]).responsible_for(uri) {
        let i = choose|i: int|
            0 <= i < workers.len() && (#[trigger] workers[i]).responsible_for(uri);
        lemma_first_exists(workers, uri, i);
    }
}

proof fn lemma_first_exists(workers: Seq<WorkerView>, uri: Seq<char>, i: int)
    requires
        0 <= i < workers.len(),
        workers[i].responsible_for(uri),
    ensures
        exists|k: int| is_first_responsible(workers, uri, k),
    decreases i,
{
    if is_first_responsible(workers, uri, i) {
    } else {
        let j = choose|j: int| 0 <= j < i && (#[trigger] workers[j]).responsible_for(uri);
        lemma_first_exists(workers, uri, j);
    }
}

/// Whether settings have been put into force in a workspace.
pub open spec fn reconfigured(
    before: WorkerView,
    after: WorkerView,
    change: ConfigurationChange,
    changed: OptionsView,
) -> bool {
    &&& after == before.configured(changed)
    &&& change == change_of(before.options, changed)
}

/// Whether a list clears the findings of all workspaces: it is made of one part for each.
pub open spec fn clears_all(
    list: Seq<(String, Vec<Diagnostic>)>,
    workers: Seq<WorkerView>,
) -> bool {
    exists|parts: Seq<Seq<(String, Vec<Diagnostic>)>>| #[trigger]
        parts.flatten() == list && parts.len() == workers.len() && forall|i: int|
            0 <= i < parts.len() ==> clears(#[trigger] parts[i], workers[i].reports)
}

impl LintRequest {
    /// Whether this is the request for a document, with its text and its version.
    pub open spec fn is_for(
        self,
        worker: int,
        uri: Seq<char>,
        content: Option<Seq<char>>,
        version: Option<i32>,
    ) -> bool {
        &&& self.worker == worker
        &&& self.uri@ == uri
        &&& text_of(self.content) == content
        &&& self.version == version
    }
}

/// What to do with the settings that a client sent along: put them into force if they can be read.
pub fn pushed_configuration(sent: Option<Options>) -> (step: ConfigurationStep)
    ensures
        sent matches Some(options) ==> step == ConfigurationStep::Apply(options),
        sent is None ==> step is AskClient,
{
    match sent {
        Some(options) => ConfigurationStep::Apply(options),
        None => ConfigurationStep::AskClient,
    }
}

/// What to do with the settings that a client sent when asked: the first of them count, if there
/// are any and they can be read.
pub fn pulled_configuration(reply: Option<Vec<Option<Options>>>) -> (step: ConfigurationStep)
    ensures
        step is Apply || step is GiveUp,
        step is Apply <==> reply is Some && reply->0@.len() > 0 && reply->0@[0] is Some,
        step matches ConfigurationStep::Apply(options) ==> Some(options) == reply->0@[0],
{
    match reply {
        Some(mut sent) => {
            if sent.len() == 0 {
                return ConfigurationStep::GiveUp;
            }
            match sent.remove(0) {
                Some(options) => ConfigurationStep::Apply(options),
                None => ConfigurationStep::GiveUp,
            }
        },
        None => ConfigurationStep::GiveUp,
    }
}

impl Backend {
    /// A server without workspaces.
    pub fn new() -> (backend: Self)
        ensures
            backend@ == Seq::<WorkerView>::empty(),
    {
        let backend = Backend { workspace_workers: Vec::new() };
        assert(backend@ =~= Seq::<WorkerView>::empty());
        backend
    }

    /// Opens the workspace that a client has open, as the only one. Nothing comes of it where its
    /// root is not a file's address, or where the rules of its configuration cannot be made use of.
    pub fn initialize(
        &mut self,
        root_uri: Option<String>,
        options: Options,
        found: &Vec<FoundConfig>,
        oxlintrc: &Oxlintrc,
        files: &Vec<WalkedFile>,
    ) -> (result: Option<InitializeResult>)
        requires
            root_uri is Some,
        ensures
            result is Some <==> document_path(root_uri->0@) is Some && patterns_usable(oxlintrc@),
            result is None ==> final(self)@ == old(self)@,
            result matches Some(r) ==> {
                &&& r.server_info matches Some(info) && info.name@ == SERVER_NAME@ && info.version
                    is None
                &&& r.server_info->0.name@ == "oxc"@
                &&& r.offset_encoding is None
                &&& final(self)@.len() == 1
                &&& final(self)@[0].wf()
                &&& final(self)@[0].root_uri == root_uri->0@
                &&& Some(final(self)@[0].root_path) == document_path(root_uri->0@)
                &&& final(self)@[0].options == options@
                &&& final(self)@[0].configs == initial_configs(options@, found@)
                &&& final(self)@[0].linter_is_current(oxlintrc.store)
                &&& final(self)@[0].rules == walked_rules(walked_files(files@)) + pattern_rules(
                    oxlintrc@,
                )
                &&& final(self)@[0].reports.is_empty()
            },
    {
        let root_uri = root_uri.unwrap();
        if file_path(root_uri.as_str()).is_none() || !can_use_patterns(oxlintrc) {
            return None;
        }
        let root_worker = BackendWorker::new(root_uri, options, found, oxlintrc, files);
        let mut workers: Vec<BackendWorker> = Vec::new();
        workers.push(root_worker);
        self.workspace_workers = workers;
        Some(
            InitializeResult {
                server_info: Some(ServerInfo { name: SERVER_NAME.to_owned(), version: None }),
                offset_encoding: None,
            },
        )
    }

    /// The first workspace that holds a document, if there is one.
    pub fn find_responsible_worker(&self, uri: &str) -> (found: Option<usize>)
        ensures
            found is Some <==> responsible(self@, uri@) is Some,
            found matches Some(i) ==> i < self@.len() && responsible(self@, uri@) == Some(i as int),
    {
        let mut i: usize = 0;
        while i < self.workspace_workers.len()
            invariant
                i <= self.workspace_workers.len(),
                forall|j: int| 0 <= j < i ==> !(#[trigger] self@[j]).responsible_for(uri@),
            decreases self.workspace_workers.len() - i,
        {
            assert(self@[i as int] == self.workspace_workers@[i as int]@);
            if self.workspace_workers[i].is_responsible_for_uri(uri) {
                proof {
                    lemma_responsible(self@, uri@, i as int);
                }
                return Some(i);
            }
            i += 1;
        }
        proof {
            lemma_none_responsible(self@, uri@);
        }
        None
    }

    /// The first workspace that holds a document.
    pub fn get_responsible_worker(&self, uri: &str) -> (worker: &BackendWorker)
        requires
            responsible(self@, uri@) is Some,
        ensures
            worker@ == self@[responsible(self@, uri@)->0],
    {
        let i: usize = self.find_responsible_worker(uri).unwrap();
        assert(self@[i as int] == self.workspace_workers@[i as int]@);
        &self.workspace_workers[i]
    }

    /// A document was saved: it is linted from the disk, where the settings ask for that.
    pub fn did_save(&self, uri: &str) -> (request: Result<Option<LintRequest>, NoResponsibleWorker>)
        ensures
            request is Err <==> responsible(self@, uri@) is None,
            request matches Ok(r) ==> {
                let i = responsible(self@, uri@)->0;
                &&& r is Some <==> self@[i].options.run == Run::OnSave
                &&& r matches Some(lint) ==> lint.is_for(i, uri@, None, None)
            },
    {
        let worker: usize = match self.find_responsible_worker(uri) {
            Some(i) => i,
            None => {
                return Err(NoResponsibleWorker);
            },
        };
        if !self.get_responsible_worker(uri).should_lint_on_run_type(Run::OnSave) {
            return Ok(None);
        }
        Ok(Some(LintRequest { worker, uri: uri.to_owned(), content: None, version: None }))
    }

    /// The text of a document changed: it is linted with its new text, which is that of the first
    /// change, where the settings ask for that.
    pub fn did_change(&self, uri: &str, content_changes: &Vec<String>, version: i32) -> (request:
        Result<Option<LintRequest>, NoResponsibleWorker>)
        ensures
            request is Err <==> responsible(self@, uri@) is None,
            request matches Ok(r) ==> {
                let i = responsible(self@, uri@)->0;
                let content = if content_changes@.len() > 0 {
                    Some(content_changes@[0]@)
                } else {
                    None
                };
                &&& r is Some <==> self@[i].options.run == Run::OnType
                &&& r matches Some(lint) ==> lint.is_for(i, uri@, content, Some(version))
            },
    {
        let worker: usize = match self.find_responsible_worker(uri) {
            Some(i) => i,
            None => {
                return Err(NoResponsibleWorker);
            },
        };
        if !self.get_responsible_worker(uri).should_lint_on_run_type(Run::OnType) {
            return Ok(None);
        }
        let content = if content_changes.len() > 0 {
            Some(content_changes[0].clone())
        } else {
            None
        };
        Ok(Some(LintRequest { worker, uri: uri.to_owned(), content, version: Some(version) }))
    }

    /// A document was opened: it is linted, whatever the settings ask for.
    pub fn did_open(&self, uri: &str, text: String, version: i32) -> (request: Result<
        LintRequest,
        NoResponsibleWorker,
    >)
        ensures
            request is Err <==> responsible(self@, uri@) is None,
            request matches Ok(lint) ==> lint.is_for(
                responsible(self@, uri@)->0,
                uri@,
                Some(text@),
                Some(version),
            ),
    {
        match self.find_responsible_worker(uri) {
            Some(worker) => Ok(
                LintRequest {
                    worker,
                    uri: uri.to_owned(),
                    content: Some(text),
                    version: Some(version),
                },
            ),
            None => Err(NoResponsibleWorker),
        }
    }

    /// Takes the linter's answer for a document, and returns the findings to publish, unless the
    /// document is left alone.
    pub fn publish_diagnostics(
        &mut self,
        request: LintRequest,
        is_dir: bool,
        found: Option<Vec<DiagnosticReport>>,
    ) -> (publication: Result<Option<Publication>, UnknownToRules>)
        requires
            request.worker < old(self)@.len(),
        ensures
            ({
                let worker = old(self)@[request.worker as int];
                &&& publication is Err <==> !worker.can_tell(request.uri@, is_dir)
                &&& publication is Err ==> final(self)@ == old(self)@
                &&& publication matches Ok(p) ==> (p is None <==> worker.ignores(
                    request.uri@,
                    is_dir,
                ))
                &&& publication matches Ok(None) ==> final(self)@ == old(self)@
                &&& publication matches Ok(Some(p)) ==> {
                    &&& p.uri@ == request.uri@
                    &&& p.version == request.version
                    &&& p.diagnostics@ == diagnostics_of(answer(found_reports(found)))
                    &&& p.diagnostics@.len() == (if found is Some {
                        found->0@.len()
                    } else {
                        0
                    })
                    &&& forall|j: int|
                        0 <= j < p.diagnostics@.len() ==> #[trigger] p.diagnostics@[j]
                            == found->0@[j].diagnostic
                    &&& final(self)@ == old(self)@.update(
                        request.worker as int,
                        worker.linted(request.uri@, found_reports(found)),
                    )
                }
            }),
    {
        let i: usize = request.worker;
        assert(self@[i as int] == self.workspace_workers@[i as int]@);
        if self.workspace_workers[i].try_is_ignored(request.uri.as_str(), is_dir).is_none() {
            return Err(UnknownToRules);
        }
        let reports = self.workspace_workers[i].lint_file(request.uri.as_str(), is_dir, found);
        match reports {
            Some(reports) => {
                assert(self@ =~= old(self)@.update(
                    i as int,
                    old(self)@[i as int].linted(request.uri@, found_reports(found)),
                ));
                Ok(
                    Some(
                        Publication {
                            uri: request.uri,
                            diagnostics: diagnostics(&reports),
                            version: request.version,
                        },
                    ),
                )
            },
            None => {
                assert(self@ =~= old(self)@);
                Ok(None)
            },
        }
    }

    /// A document was closed: what was found in it is forgotten.
    pub fn did_close(&mut self, uri: &str) -> (closed: Result<(), NoResponsibleWorker>)
        ensures
            closed is Err <==> responsible(old(self)@, uri@) is None,
            closed is Err ==> final(self)@ == old(self)@,
            closed is Ok ==> {
                let i = responsible(old(self)@, uri@)->0;
                final(self)@ == old(self)@.update(i, old(self)@[i].forgotten(uri@))
            },
    {
        match self.find_responsible_worker(uri) {
            Some(i) => {
                assert(self@[i as int] == self.workspace_workers@[i as int]@);
                self.workspace_workers[i].remove_diagnostics(uri);
                assert(self@ =~= old(self)@.update(
                    i as int,
                    old(self)@[i as int].forgotten(uri@),
                ));
                Ok(())
            },
            None => Err(NoResponsibleWorker),
        }
    }

    /// Which actions to offer for a stretch of a document.
    pub fn code_action(&self, uri: &str, range: Range, only: &Option<Vec<String>>) -> (plan: Result<
        CodeActionPlan,
        NoResponsibleWorker,
    >)
        ensures
            plan is Err <==> responsible(self@, uri@) is None,
            plan matches Ok(p) ==> {
                let reports = self@[responsible(self@, uri@)->0].reports;
                &&& p is NotLinted <==> !reports.contains_key(uri@)
                &&& p is FixAll <==> reports.contains_key(uri@) && asks_for_fix_all(*only)
                &&& p is FixAll <==> reports.contains_key(uri@) && (only matches Some(kinds)
                    && exists|i: int|
                    0 <= i < kinds@.len() && (#[trigger] kinds@[i])@ == "source.fixAll.oxc"@)
                &&& p matches CodeActionPlan::FixAll(found) ==> found@ == concerned(
                    reports[uri@],
                    range,
                )
                &&& p matches CodeActionPlan::Each(found) ==> found@ == concerned(
                    reports[uri@],
                    range,
                )
            },
    {
        if self.find_responsible_worker(uri).is_none() {
            return Err(NoResponsibleWorker);
        }
        let reports = self.get_responsible_worker(uri).reports(uri);
        Ok(plan_code_actions(reports, range, only))
    }

    /// Which of the known commands a request names: the first one with its name.
    pub fn execute_command(known: &Vec<String>, command: &str) -> (found: Result<
        usize,
        InvalidRequest,
    >)
        ensures
            found is Err <==> !texts(known@).contains(command@),
            found matches Ok(i) ==> {
                &&& i < known@.len()
                &&& texts(known@)[i as int] == command@
                &&& forall|j: int| 0 <= j < i ==> texts(known@)[j] != command@
            },
    {
        find_command(known, command)
    }

    /// Whether a linter that was set up for `old_options` cannot serve `new_options`.
    pub fn needs_linter_restart(old_options: &Options, new_options: &Options) -> (needed: bool)
        ensures
            needed == restart_needed(old_options@, new_options@),
    {
        BackendWorker::needs_linter_restart(old_options, new_options)
    }

    /// Puts settings into force in all workspaces, and says of each what is left to do.
    pub fn did_change_configuration(&mut self, changed_options: &Options) -> (changes: Vec<
        ConfigurationChange,
    >)
        ensures
            final(self)@.len() == old(self)@.len(),
            changes@.len() == old(self)@.len(),
            forall|i: int|
                0 <= i < old(self)@.len() ==> reconfigured(
                    old(self)@[i],
                    #[trigger] final(self)@[i],
                    changes@[i],
                    changed_options@,
                ),
            forall|i: int|
                0 <= i < old(self)@.len() ==> (#[trigger] final(self)@[i]).options
                    == changed_options@,
    {
        let mut changes: Vec<ConfigurationChange> = Vec::new();
        let mut i: usize = 0;
        while i < self.workspace_workers.len()
            invariant
                i <= self.workspace_workers.len(),
                self@.len() == old(self)@.len(),
                changes@.len() == i,
                forall|j: int|
                    0 <= j < i ==> reconfigured(
                        old(self)@[j],
                        #[trigger] self@[j],
                        changes@[j],
                        changed_options@,
                    ),
                forall|j: int| i <= j < self@.len() ==> #[trigger] self@[j] == old(self)@[j],
            decreases self.workspace_workers.len() - i,
        {
            let ghost before = self@;
            assert(before[i as int] == self.workspace_workers@[i as int]@);
            let change = self.workspace_workers[i].did_change_configuration(
                changed_options.clone(),
            );
            changes.push(change);
            assert(self@ =~= before.update(
                i as int,
                before[i as int].configured(changed_options@),
            ));
            i += 1;
        }
        changes
    }

    /// The documents that were linted in any workspace, each with no finding left.
    pub fn clear_all_diagnostics(&self) -> (list: Vec<(String, Vec<Diagnostic>)>)
        ensures
            clears_all(list@, self@),
    {
        let mut list: Vec<(String, Vec<Diagnostic>)> = Vec::new();
        let ghost mut parts: Seq<Seq<(String, Vec<Diagnostic>)>> = Seq::empty();
        let mut i: usize = 0;
        while i < self.workspace_workers.len()
            invariant
                i <= self.workspace_workers.len(),
                parts.len() == i,
                parts.flatten() == list@,
                forall|j: int| 0 <= j < i ==> clears(#[trigger] parts[j], self@[j].reports),
            decreases self.workspace_workers.len() - i,
        {
            let mut cleared = self.workspace_workers[i].get_clear_diagnostics();
            proof {
                assert(self@[i as int] == self.workspace_workers@[i as int]@);
                parts.lemma_flatten_push(cleared@);
                parts = parts.push(cleared@);
            }
            list.append(&mut cleared);
            i += 1;
        }
        list
    }

    /// The server shuts down: no finding is left in any document.
    pub fn shutdown(&self) -> (list: Vec<(String, Vec<Diagnostic>)>)
        ensures
            clears_all(list@, self@),
    {
        self.clear_all_diagnostics()
    }
}

/// The names that clients know the server by.
pub proof fn names_known_to_clients()
    ensures
        SERVER_NAME@ == "oxc"@,
        CONFIGURATION_SECTION@ == "oxc_language_server"@,
{
}

} // verus!
