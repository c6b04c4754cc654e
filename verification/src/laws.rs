//! What holds of workspaces whatever happens to them.

use vstd::prelude::*;

use crate::backend::{
    clears_all, is_first_responsible, lemma_none_responsible, lemma_responsible, reconfigured,
    responsible, worker_views, LintRequest,
};
use crate::config::{ConfigStore, OxlintrcView};
use crate::diagnostics::{
    diagnostics_of, each_report_has_its_finding, Diagnostic, DiagnosticReport,
};
use crate::globs::is_ignore_file;
use crate::ignore_files::{file_rules, pattern_rules, walked_rules, WalkedFileView};
use crate::ignore_rules::{can_ask_in_turn, lines_ignore, one_ignores, IgnoreRules};
use crate::linter::no_restart_keeps_settings;
use crate::nested_configs::{configs_of, FoundConfig};
use crate::options::{restart_needed, OptionsView, Run};
use crate::paths::{
    document_path, path_components, path_parent, path_within, paths_below_go_on_from_the_directory,
};
use crate::watched_files::{
    after_changes, files_to_load, is_config_file, update_for, ConfigUpdateView, FileChangeType,
    FileEvent,
};
use crate::worker::{
    answer, change_of, clears, found_reports, listed_uris, BackendWorker, ConfigurationChange,
    WorkerView,
};

verus! {

/// Whatever happens to a workspace, the path of its root stays that of the root's address, and
/// configurations of subdirectories are kept only where they count.
pub proof fn workspaces_stay_well_formed(
    worker: WorkerView,
    uri: Seq<char>,
    answered: Option<Seq<DiagnosticReport>>,
    changed: OptionsView,
    found: Seq<FoundConfig>,
    events: Seq<FileEvent>,
    loaded: Seq<ConfigStore>,
)
    requires
        worker.wf(),
    ensures
        worker.linted(uri, answered).wf(),
        worker.forgotten(uri).wf(),
        worker.configured(changed).wf(),
        worker.reloaded(found).wf(),
        worker.files_changed(events, loaded).wf(),
{
}

/// A linter that is set up for a workspace stays so when settings change that do not call for a
/// restart, and when documents are linted or closed.
pub proof fn linter_stays_current_without_restart(
    worker: WorkerView,
    config: ConfigStore,
    changed: OptionsView,
    uri: Seq<char>,
    answered: Option<Seq<DiagnosticReport>>,
)
    requires
        worker.linter_is_current(config),
    ensures
        !change_of(worker.options, changed).restart_linter ==> worker.configured(
            changed,
        ).linter_is_current(config),
        worker.linted(uri, answered).linter_is_current(config),
        worker.forgotten(uri).linter_is_current(config),
{
    if !restart_needed(worker.options, changed) {
        no_restart_keeps_settings(
            worker.linter,
            worker.root_path,
            worker.options,
            changed,
            worker.configs,
            config,
        );
    }
}

/// Where the configurations of subdirectories have to be searched for again, the linter has to be
/// set up anew as well.
pub proof fn reload_entails_restart(old_options: OptionsView, new_options: OptionsView)
    ensures
        change_of(old_options, new_options).reload_nested_configs ==> change_of(
            old_options,
            new_options,
        ).restart_linter,
{
}

/// Settings that are sent again leave a workspace as it is and nothing to do.
pub proof fn same_settings_change_nothing(worker: WorkerView)
    ensures
        worker.configured(worker.options) == worker,
        !change_of(worker.options, worker.options).reload_nested_configs,
        !change_of(worker.options, worker.options).restart_linter,
{
}

/// Whether the linter can serve other settings goes both ways, and from one settings to the next.
pub proof fn serving_is_an_equivalence(a: OptionsView, b: OptionsView, c: OptionsView)
    ensures
        !restart_needed(a, a),
        restart_needed(a, b) == restart_needed(b, a),
        !restart_needed(a, b) && !restart_needed(b, c) ==> !restart_needed(a, c),
{
}

/// A change of the occasion on which documents are linted, and of nothing else, never restarts the
/// linter.
pub proof fn run_never_restarts(options: OptionsView, run: Run)
    ensures
        !restart_needed(options, (OptionsView { run, ..options })),
{
}

/// Changed settings that are taken back leave the settings as they were, and the linter has to be
/// set up anew for them exactly where it had to be for the change.
pub proof fn change_taken_back(worker: WorkerView, changed: OptionsView)
    ensures
        worker.configured(changed).configured(worker.options).options == worker.options,
        change_of(worker.options, changed) == change_of(changed, worker.options),
{
}

/// Reading the findings of a document gives back what the linter found last, and a document's
/// findings are not touched by those of another.
pub proof fn reading_gives_back_what_was_found(
    worker: WorkerView,
    uri: Seq<char>,
    reports: Seq<DiagnosticReport>,
    other: Seq<char>,
)
    ensures
        worker.linted(uri, Some(reports)).reports.contains_key(uri),
        worker.linted(uri, Some(reports)).reports[uri] == reports,
        worker.linted(uri, None) == worker,
        other != uri ==> worker.linted(uri, Some(reports)).reports.contains_key(other)
            == worker.reports.contains_key(other),
        other != uri ==> worker.linted(uri, Some(reports)).reports[other] == worker.reports[other],
{
}

/// Linting a document once more leaves only the last findings.
pub proof fn last_findings_count(
    worker: WorkerView,
    uri: Seq<char>,
    first: Seq<DiagnosticReport>,
    last: Seq<DiagnosticReport>,
)
    ensures
        worker.linted(uri, Some(first)).linted(uri, Some(last)) == worker.linted(uri, Some(last)),
{
    assert(worker.reports.insert(uri, first).insert(uri, last) =~= worker.reports.insert(uri, last));
}

/// Closing a document leaves nothing of its findings, and undoes the linting of a document that had
/// none.
pub proof fn closing_forgets(worker: WorkerView, uri: Seq<char>, reports: Seq<DiagnosticReport>)
    ensures
        !worker.forgotten(uri).reports.contains_key(uri),
        worker.linted(uri, Some(reports)).forgotten(uri) == worker.forgotten(uri),
        !worker.reports.contains_key(uri) ==> worker.linted(uri, Some(reports)).forgotten(uri)
            == worker,
{
    assert(worker.reports.insert(uri, reports).remove(uri) =~= worker.reports.remove(uri));
    if !worker.reports.contains_key(uri) {
        assert(worker.reports.remove(uri) =~= worker.reports);
    }
}

/// With any settings, exactly one of the two occasions, saving and typing, lints a document.
pub proof fn one_occasion_lints(options: OptionsView)
    ensures
        (options.run == Run::OnSave) != (options.run == Run::OnType),
{
}

/// A workspace holds its own root.
pub proof fn workspace_holds_its_root(worker: WorkerView)
    requires
        worker.wf(),
    ensures
        worker.responsible_for(worker.root_uri),
{
    assert(path_components(worker.root_path) =~= path_components(worker.root_path).take(
        path_components(worker.root_path).len() as int,
    ));
}

/// A workspace that holds a directory holds what lies below it.
pub proof fn workspace_holds_what_lies_below(worker: WorkerView, dir: Seq<char>, uri: Seq<char>)
    requires
        worker.responsible_for(dir),
        document_path(uri) is Some,
        path_within(document_path(uri)->0, document_path(dir)->0),
    ensures
        worker.responsible_for(uri),
{
    let root = path_components(document_path(worker.root_uri)->0);
    let upper = path_components(document_path(dir)->0);
    let lower = path_components(document_path(uri)->0);
    assert(root =~= lower.take(root.len() as int)) by {
        assert(root =~= upper.take(root.len() as int));
        assert(upper =~= lower.take(upper.len() as int));
    }
}

/// Which workspace holds a document depends on the roots alone: it stays the same whatever else
/// changes in the workspaces.
pub proof fn documents_stay_in_their_workspace(
    before: Seq<WorkerView>,
    after: Seq<WorkerView>,
    uri: Seq<char>,
)
    requires
        before.len() == after.len(),
        forall|i: int|
            0 <= i < before.len() ==> (#[trigger] before[i]).root_uri == after[i].root_uri,
    ensures
        responsible(before, uri) == responsible(after, uri),
{
    assert forall|i: int| 0 <= i < before.len() implies (#[trigger] before[i]).responsible_for(uri)
        == after[i].responsible_for(uri) by {}
    lemma_none_responsible(before, uri);
    lemma_none_responsible(after, uri);
    if responsible(before, uri) is Some {
        let i = choose|i: int| is_first_responsible(before, uri, i);
        assert(is_first_responsible(before, uri, i));
        assert forall|j: int| 0 <= j < i implies !(#[trigger] after[j]).responsible_for(uri) by {
            assert(!before[j].responsible_for(uri));
        }
        lemma_responsible(before, uri, i);
        lemma_responsible(after, uri, i);
    } else {
        assert forall|i: int| 0 <= i < after.len() implies !(#[trigger] after[i]).responsible_for(
            uri,
        ) by {
            assert(!before[i].responsible_for(uri));
        }
    }
}

/// What the linter finds in a document is what is there when actions are asked for, until the
/// document is closed: then there is nothing.
pub proof fn actions_see_what_was_published(
    workers: Seq<WorkerView>,
    uri: Seq<char>,
    reports: Seq<DiagnosticReport>,
)
    requires
        responsible(workers, uri) is Some,
    ensures
        ({
            let i = responsible(workers, uri)->0;
            let published = workers.update(i, workers[i].linted(uri, Some(reports)));
            let closed = published.update(i, published[i].forgotten(uri));
            &&& responsible(published, uri) == Some(i)
            &&& published[i].reports.contains_key(uri)
            &&& published[i].reports[uri] == reports
            &&& responsible(closed, uri) == Some(i)
            &&& !closed[i].reports.contains_key(uri)
        }),
{
    let i = responsible(workers, uri)->0;
    assert(is_first_responsible(workers, uri, i));
    let published = workers.update(i, workers[i].linted(uri, Some(reports)));
    let closed = published.update(i, published[i].forgotten(uri));
    documents_stay_in_their_workspace(workers, published, uri);
    documents_stay_in_their_workspace(published, closed, uri);
}

/// The list that clears a workspace names the documents that were linted, and no other.
pub proof fn clearing_names_what_was_linted(
    list: Seq<(String, Vec<Diagnostic>)>,
    reports: Map<Seq<char>, Seq<DiagnosticReport>>,
    uri: Seq<char>,
)
    requires
        clears(list, reports),
    ensures
        listed_uris(list).contains(uri) <==> reports.contains_key(uri),
{
    assert(listed_uris(list).to_set().contains(uri) <==> reports.contains_key(uri));
}

/// The list that clears all workspaces names the documents that were linted in any of them, and no
/// other, and leaves no finding in any.
pub proof fn shutdown_names_what_was_linted(
    list: Seq<(String, Vec<Diagnostic>)>,
    workers: Seq<WorkerView>,
    uri: Seq<char>,
)
    requires
        clears_all(list, workers),
    ensures
        listed_uris(list).contains(uri) <==> exists|i: int|
            0 <= i < workers.len() && (#[trigger] workers[i]).reports.contains_key(uri),
        forall|i: int| 0 <= i < list.len() ==> (#[trigger] list[i]).1@.len() == 0,
{
    let parts = choose|parts: Seq<Seq<(String, Vec<Diagnostic>)>>| #[trigger]
        parts.flatten() == list && parts.len() == workers.len() && forall|i: int|
            0 <= i < parts.len() ==> clears(#[trigger] parts[i], workers[i].reports);
    lemma_parts_name_what_was_linted(parts, workers, uri);
}

proof fn lemma_parts_name_what_was_linted(
    parts: Seq<Seq<(String, Vec<Diagnostic>)>>,
    workers: Seq<WorkerView>,
    uri: Seq<char>,
)
    requires
        parts.len() == workers.len(),
        forall|i: int| 0 <= i < parts.len() ==> clears(#[trigger] parts[i], workers[i].reports),
    ensures
        listed_uris(parts.flatten()).contains(uri) <==> exists|i: int|
            0 <= i < workers.len() && (#[trigger] workers[i]).reports.contains_key(uri),
        forall|i: int|
            0 <= i < parts.flatten().len() ==> (#[trigger] parts.flatten()[i]).1@.len() == 0,
    decreases parts.len(),
{
    if parts.len() > 0 {
        let rest = parts.drop_last();
        let others = workers.drop_last();
        let last = parts.last();
        assert(parts =~= rest.push(last));
        rest.lemma_flatten_push(last);
        assert(parts.flatten() == rest.flatten() + last);
        assert forall|i: int| 0 <= i < rest.len() implies clears(
            #[trigger] rest[i],
            others[i].reports,
        ) by {
            assert(rest[i] == parts[i]);
            assert(others[i] == workers[i]);
        }
        lemma_parts_name_what_was_linted(rest, others, uri);
        assert(clears(parts[parts.len() - 1], workers[parts.len() - 1].reports));
        clearing_names_what_was_linted(last, workers.last().reports, uri);
        let before = listed_uris(rest.flatten());
        let after = listed_uris(last);
        assert(listed_uris(parts.flatten()) =~= before + after);
        assert((before + after).contains(uri) <==> before.contains(uri) || after.contains(uri)) by {
            if before.contains(uri) {
                let i = before.index_of(uri);
                assert((before + after)[i] == uri);
            }
            if after.contains(uri) {
                let i = after.index_of(uri);
                assert((before + after)[before.len() + i] == uri);
            }
        }
        if exists|i: int| 0 <= i < others.len() && (#[trigger] others[i]).reports.contains_key(uri) {
            let i = choose|i: int|
                0 <= i < others.len() && (#[trigger] others[i]).reports.contains_key(uri);
            assert(workers[i].reports.contains_key(uri));
        }
        if exists|i: int|
            0 <= i < workers.len() && (#[trigger] workers[i]).reports.contains_key(uri) {
            let i = choose|i: int|
                0 <= i < workers.len() && (#[trigger] workers[i]).reports.contains_key(uri);
            if i < others.len() {
                assert(others[i].reports.contains_key(uri));
            }
        }
        if workers.last().reports.contains_key(uri) {
            assert(workers[workers.len() - 1].reports.contains_key(uri));
        }
    } else {
        assert(parts.flatten() =~= Seq::<(String, Vec<Diagnostic>)>::empty());
        assert(listed_uris(parts.flatten()).len() == 0);
    }
}

/// The directories that have a configuration of their own are those of the configuration files.
pub proof fn configs_are_those_of_the_files(found: Seq<FoundConfig>, dir: Seq<Seq<char>>)
    ensures
        configs_of(found).contains_key(dir) <==> exists|i: int|
            0 <= i < found.len() && path_parent((#[trigger] found[i]).path@) is Some
                && path_components(path_parent(found[i].path@)->0) == dir,
    decreases found.len(),
{
    if found.len() > 0 {
        let rest = found.drop_last();
        configs_are_those_of_the_files(rest, dir);
        if configs_of(rest).contains_key(dir) {
            let i = choose|i: int|
                0 <= i < rest.len() && path_parent((#[trigger] rest[i]).path@) is Some
                    && path_components(path_parent(rest[i].path@)->0) == dir;
            assert(found[i] == rest[i]);
        }
        assert(found[found.len() - 1] == found.last());
        if exists|i: int|
            0 <= i < found.len() && path_parent((#[trigger] found[i]).path@) is Some
                && path_components(path_parent(found[i].path@)->0) == dir {
            let i = choose|i: int|
                0 <= i < found.len() && path_parent((#[trigger] found[i]).path@) is Some
                    && path_components(path_parent(found[i].path@)->0) == dir;
            if i < rest.len() {
                assert(rest[i] == found[i]);
            }
        }
    }
}

/// One more change of a file has this effect on the configurations of subdirectories: that of a
/// configuration file that was created or changed gives its directory what was loaded of the file,
/// that of one that was deleted takes its directory's configuration away, and any other does
/// nothing.
pub proof fn changes_take_effect_one_by_one(
    configs: Map<Seq<Seq<char>>, ConfigStore>,
    events: Seq<FileEvent>,
    loaded: Seq<ConfigStore>,
    event: FileEvent,
    config: ConfigStore,
)
    ensures
        ({
            let before = after_changes(configs, events, loaded);
            let file = document_path(event.uri@)->0;
            let dir = path_components(path_parent(file)->0);
            if is_config_file(event.uri@) && (event.typ is Created || event.typ is Changed) {
                &&& files_to_load(events.push(event)) == files_to_load(events).push(file)
                &&& after_changes(configs, events.push(event), loaded.push(config))
                    == before.insert(dir, config)
            } else {
                &&& files_to_load(events.push(event)) == files_to_load(events)
                &&& after_changes(configs, events.push(event), loaded) == if is_config_file(
                    event.uri@,
                ) && event.typ is Deleted {
                    before.remove(dir)
                } else {
                    before
                }
            }
        }),
{
    assert(events.push(event).drop_last() =~= events);
    assert(loaded.push(config).drop_last() =~= loaded);
}

/// Changes of files that come in two messages have the effect that they have in one.
pub proof fn messages_can_be_joined(
    configs: Map<Seq<Seq<char>>, ConfigStore>,
    first: Seq<FileEvent>,
    first_loaded: Seq<ConfigStore>,
    second: Seq<FileEvent>,
    second_loaded: Seq<ConfigStore>,
)
    requires
        first_loaded.len() == files_to_load(first).len(),
        second_loaded.len() == files_to_load(second).len(),
    ensures
        files_to_load(first + second) == files_to_load(first) + files_to_load(second),
        after_changes(configs, first + second, first_loaded + second_loaded) == after_changes(
            after_changes(configs, first, first_loaded),
            second,
            second_loaded,
        ),
    decreases second.len(),
{
    let all_loaded = first_loaded + second_loaded;
    if second.len() == 0 {
        assert(first + second =~= first);
        assert(all_loaded =~= first_loaded);
    } else {
        let rest = second.drop_last();
        let last = second.last();
        assert((first + second).drop_last() =~= first + rest);
        if update_for(last.uri@, last.typ) matches Some(ConfigUpdateView::Load { .. }) {
            assert(all_loaded.drop_last() =~= first_loaded + second_loaded.drop_last());
            messages_can_be_joined(
                configs,
                first,
                first_loaded,
                rest,
                second_loaded.drop_last(),
            );
        } else {
            messages_can_be_joined(configs, first, first_loaded, rest, second_loaded);
        }
        assert(files_to_load(first + second) =~= files_to_load(first) + files_to_load(second));
    }
}

/// Deleting a configuration file undoes what its creation did: both concern the same directory, and
/// where it had no configuration before, it has none again.
pub proof fn deletion_undoes_creation(
    configs: Map<Seq<Seq<char>>, ConfigStore>,
    created: FileEvent,
    deleted: FileEvent,
    config: ConfigStore,
)
    requires
        is_config_file(created.uri@),
        deleted.uri@ == created.uri@,
        created.typ is Created,
        deleted.typ is Deleted,
    ensures
        after_changes(configs, seq![created, deleted], seq![config]) == after_changes(
            configs,
            seq![deleted],
            seq![],
        ),
        !configs.contains_key(path_components(path_parent(document_path(created.uri@)->0)->0))
            ==> after_changes(configs, seq![created, deleted], seq![config]) == configs,
{
    let dir = path_components(path_parent(document_path(created.uri@)->0)->0);
    let none = Seq::<FileEvent>::empty();
    assert(seq![created] =~= none.push(created));
    assert(seq![deleted] =~= none.push(deleted));
    assert(seq![created, deleted] =~= none.push(created).push(deleted));
    assert(seq![config] =~= Seq::<ConfigStore>::empty().push(config));
    changes_take_effect_one_by_one(configs, none, seq![], created, config);
    changes_take_effect_one_by_one(configs, none, seq![], deleted, config);
    changes_take_effect_one_by_one(configs, none.push(created), seq![config], deleted, config);
    assert(configs.insert(dir, config).remove(dir) =~= configs.remove(dir));
    if !configs.contains_key(dir) {
        assert(configs.remove(dir) =~= configs);
    }
}

/// A change of a file that is not a configuration file asks for nothing.
pub proof fn other_files_ask_for_nothing(uri: Seq<char>, typ: FileChangeType)
    requires
        !is_config_file(uri),
    ensures
        update_for(uri, typ) is None,
{
}

/// Changes of files that are not configuration files may be left out without a difference.
pub proof fn other_files_make_no_difference(
    configs: Map<Seq<Seq<char>>, ConfigStore>,
    events: Seq<FileEvent>,
    loaded: Seq<ConfigStore>,
)
    ensures
        ({
            let kept = events.filter(|event: FileEvent| is_config_file(event.uri@));
            &&& files_to_load(events) == files_to_load(kept)
            &&& after_changes(configs, events, loaded) == after_changes(configs, kept, loaded)
        }),
    decreases events.len(),
{
    reveal(Seq::filter);
    if events.len() > 0 {
        let rest = events.drop_last();
        let last = events.last();
        let kept = rest.filter(|event: FileEvent| is_config_file(event.uri@));
        other_files_make_no_difference(configs, rest, loaded);
        other_files_make_no_difference(configs, rest, loaded.drop_last());
        if is_config_file(last.uri@) {
            assert(kept.push(last).drop_last() =~= kept);
        }
    }
}

/// With more rules, more is left alone, and nothing that was left alone is not any more.
pub proof fn more_rules_ignore_more(
    rules: Seq<IgnoreRules>,
    more: Seq<IgnoreRules>,
    path: Seq<char>,
    is_dir: bool,
)
    ensures
        one_ignores(rules + more, path, is_dir) <==> one_ignores(rules, path, is_dir)
            || one_ignores(more, path, is_dir),
{
    let all = rules + more;
    if one_ignores(rules, path, is_dir) {
        let i = choose|i: int|
            0 <= i < rules.len() && (#[trigger] rules[i]).ignore(path, is_dir);
        assert(all[i].ignore(path, is_dir));
    }
    if one_ignores(more, path, is_dir) {
        let i = choose|i: int| 0 <= i < more.len() && (#[trigger] more[i]).ignore(path, is_dir);
        assert(all[rules.len() + i].ignore(path, is_dir));
    }
    if one_ignores(all, path, is_dir) {
        let i = choose|i: int| 0 <= i < all.len() && (#[trigger] all[i]).ignore(path, is_dir);
        if i < rules.len() {
            assert(rules[i].ignore(path, is_dir));
        } else {
            assert(more[i - rules.len()].ignore(path, is_dir));
        }
    }
}

/// Which rules there are decides what is left alone, not their order: what one list of rules leaves
/// alone, any list that has all of these rules leaves alone.
pub proof fn order_of_rules_does_not_matter(
    rules: Seq<IgnoreRules>,
    others: Seq<IgnoreRules>,
    path: Seq<char>,
    is_dir: bool,
)
    requires
        forall|i: int| 0 <= i < rules.len() ==> others.contains(#[trigger] rules[i]),
    ensures
        one_ignores(rules, path, is_dir) ==> one_ignores(others, path, is_dir),
{
    if one_ignores(rules, path, is_dir) {
        let i = choose|i: int|
            0 <= i < rules.len() && (#[trigger] rules[i]).ignore(path, is_dir);
        let j = others.index_of(rules[i]);
        assert(others[j].ignore(path, is_dir));
    }
}

/// The rules of a workspace's files are those of its files that hold rules, and no others.
pub proof fn rules_are_those_of_the_files(files: Seq<WalkedFileView>, rules: IgnoreRules)
    ensures
        walked_rules(files).contains(rules) <==> exists|i: int|
            0 <= i < files.len() && file_rules(#[trigger] files[i]) == Some(rules),
    decreases files.len(),
{
    if files.len() > 0 {
        let rest = files.drop_last();
        let before = walked_rules(rest);
        rules_are_those_of_the_files(rest, rules);
        assert(files[files.len() - 1] == files.last());
        if before.contains(rules) {
            let i = choose|i: int|
                0 <= i < rest.len() && file_rules(#[trigger] rest[i]) == Some(rules);
            assert(files[i] == rest[i]);
        }
        if exists|i: int| 0 <= i < files.len() && file_rules(#[trigger] files[i]) == Some(rules) {
            let i = choose|i: int|
                0 <= i < files.len() && file_rules(#[trigger] files[i]) == Some(rules);
            if i < rest.len() {
                assert(rest[i] == files[i]);
            }
        }
        if let Some(last) = file_rules(files.last()) {
            assert(walked_rules(files) == before.push(last));
            if before.contains(rules) {
                let i = before.index_of(rules);
                assert(before.push(last)[i] == rules);
            }
            assert(before.push(last)[before.len() as int] == last);
            if before.push(last).contains(rules) && rules != last {
                let i = before.push(last).index_of(rules);
                assert(before[i] == rules);
            }
        }
    }
}

/// A workspace without files that hold rules, and without rules in its configuration, leaves
/// nothing alone.
pub proof fn nothing_is_ignored_without_rules(
    files: Seq<WalkedFileView>,
    oxlintrc: OxlintrcView,
    path: Seq<char>,
    is_dir: bool,
)
    requires
        forall|i: int| 0 <= i < files.len() ==> !is_ignore_file((#[trigger] files[i]).path),
        oxlintrc.ignore_patterns.len() == 0,
    ensures
        !one_ignores(walked_rules(files) + pattern_rules(oxlintrc), path, is_dir),
{
    let rules = walked_rules(files) + pattern_rules(oxlintrc);
    assert forall|i: int| 0 <= i < rules.len() implies !(#[trigger] rules[i]).ignore(
        path,
        is_dir,
    ) by {
        assert(walked_rules(files).contains(rules[i]));
        rules_are_those_of_the_files(files, rules[i]);
    }
}

/// Rules leave nothing alone outside the directory that they stand in.
pub proof fn rules_stay_in_their_directory(
    rules: Seq<IgnoreRules>,
    path: Seq<char>,
    is_dir: bool,
)
    requires
        forall|i: int| 0 <= i < rules.len() ==> !path_within(path, (#[trigger] rules[i]).scope()),
    ensures
        !one_ignores(rules, path, is_dir),
{
}

/// Whatever the settings were, once others were sent these are in force, in all their parts, and the
/// workspace's root, findings and rules stay as they were. The configurations of subdirectories stay
/// unless it changed whether they count: then they are to be searched for again, and until then
/// there are none.
pub proof fn settings_sent_are_in_force(worker: WorkerView, changed: OptionsView)
    ensures
        ({
            let after = worker.configured(changed);
            &&& after.options.run == changed.run
            &&& after.options.config_path == changed.config_path
            &&& after.options.flags == changed.flags
            &&& after.root_uri == worker.root_uri
            &&& after.root_path == worker.root_path
            &&& after.linter == worker.linter
            &&& after.reports == worker.reports
            &&& after.rules == worker.rules
            &&& change_of(worker.options, changed).reload_nested_configs
                ==> after.configs.is_empty()
            &&& !change_of(worker.options, changed).reload_nested_configs ==> after.configs
                == worker.configs
        }),
{
}

/// Of two changes of the settings, the last decides: what was sent before it leaves no trace in the
/// settings.
pub proof fn last_settings_count(
    worker: WorkerView,
    other: WorkerView,
    first: OptionsView,
    last: OptionsView,
)
    ensures
        worker.configured(first).configured(last).options == last,
        worker.configured(last).options == other.configured(last).options,
{
}

/// What is left to do for changed settings is what changed: the configurations of subdirectories are
/// searched for again exactly where it changed whether they count, and the linter is set up anew
/// there, for another configuration file and for other fixes.
pub proof fn changes_of_settings_leave_to_do(old_options: OptionsView, new_options: OptionsView)
    ensures
        ({
            let change = change_of(old_options, new_options);
            &&& change.reload_nested_configs <==> old_options.use_nested_configs()
                != new_options.use_nested_configs()
            &&& !change.restart_linter <==> {
                &&& old_options.config_path == new_options.config_path
                &&& old_options.fix_kind() == new_options.fix_kind()
                &&& !change.reload_nested_configs
            }
        }),
{
}

/// Settings in force in a workspace are those sent, and nothing else was said of what is left to do
/// than the change of settings calls for.
pub proof fn reconfigured_workspaces_have_the_settings(
    before: WorkerView,
    after: WorkerView,
    change: ConfigurationChange,
    changed: OptionsView,
)
    requires
        reconfigured(before, after, change, changed),
    ensures
        after.options == changed,
        after.root_uri == before.root_uri,
        after.reports == before.reports,
        after.rules == before.rules,
        change.restart_linter <==> restart_needed(before.options, changed),
        change.reload_nested_configs <==> before.options.use_nested_configs()
            != changed.use_nested_configs(),
{
}

/// Linting a document and closing it touch its findings and nothing else of the workspace.
pub proof fn documents_touch_their_findings_only(
    worker: WorkerView,
    uri: Seq<char>,
    answered: Option<Seq<DiagnosticReport>>,
    other: Seq<char>,
)
    ensures
        worker.linted(uri, answered) == (WorkerView {
            reports: worker.linted(uri, answered).reports,
            ..worker
        }),
        worker.forgotten(uri) == (WorkerView { reports: worker.forgotten(uri).reports, ..worker }),
        other != uri ==> worker.forgotten(uri).reports.contains_key(other)
            == worker.reports.contains_key(other),
        other != uri ==> worker.forgotten(uri).reports[other] == worker.reports[other],
{
}

/// Searching for the configurations of subdirectories and changes of watched files touch these
/// configurations and nothing else of the workspace. Where they count, a search leaves those of the
/// files found, and changes have their effect, and where they do not, there is nothing to load.
pub proof fn config_files_touch_configs_only(
    worker: WorkerView,
    found: Seq<FoundConfig>,
    events: Seq<FileEvent>,
    loaded: Seq<ConfigStore>,
)
    ensures
        worker.reloaded(found) == (WorkerView { configs: worker.reloaded(found).configs, ..worker }),
        worker.files_changed(events, loaded) == (WorkerView {
            configs: worker.files_changed(events, loaded).configs,
            ..worker
        }),
        worker.options.use_nested_configs() ==> {
            &&& worker.reloaded(found).configs == configs_of(found)
            &&& worker.to_load(events) == files_to_load(events)
            &&& worker.files_changed(events, loaded).configs == after_changes(
                worker.configs,
                events,
                loaded,
            )
        },
        !worker.options.use_nested_configs() ==> {
            &&& worker.reloaded(found).configs.is_empty()
            &&& worker.to_load(events).len() == 0
            &&& worker.files_changed(events, loaded).configs == worker.configs
        },
{
}

/// A document lies in a workspace exactly where its path goes on from that of the root's address,
/// component by component.
pub proof fn workspaces_hold_what_goes_on_from_their_root(
    worker: WorkerView,
    uri: Seq<char>,
    rest: Seq<Seq<char>>,
)
    requires
        document_path(worker.root_uri) is Some,
        document_path(uri) is Some,
    ensures
        ({
            let root = path_components(document_path(worker.root_uri)->0);
            let path = path_components(document_path(uri)->0);
            &&& path == root + rest ==> worker.responsible_for(uri)
            &&& worker.responsible_for(uri) ==> exists|r: Seq<Seq<char>>|
                path == #[trigger] (root + r)
        }),
{
    paths_below_go_on_from_the_directory(
        document_path(uri)->0,
        document_path(worker.root_uri)->0,
        rest,
    );
}

/// What has no path lies in no workspace and is not left alone either.
pub proof fn without_a_path_nowhere(worker: WorkerView, uri: Seq<char>, is_dir: bool)
    requires
        document_path(uri) is None,
    ensures
        !worker.responsible_for(uri),
        !worker.ignores(uri, is_dir),
        worker.can_tell(uri, is_dir),
{
}

/// A document is left alone exactly where one of the workspace's rules says so: its path lies in the
/// rules' directory and their lines ignore it.
pub proof fn documents_are_left_alone_by_rules(
    worker: WorkerView,
    uri: Seq<char>,
    is_dir: bool,
    i: int,
)
    requires
        document_path(uri) is Some,
    ensures
        ({
            let path = document_path(uri)->0;
            &&& 0 <= i < worker.rules.len() && path_within(path, worker.rules[i].scope())
                && lines_ignore(worker.rules[i].dir, worker.rules[i].lines, path, is_dir)
                ==> worker.ignores(uri, is_dir)
            &&& worker.ignores(uri, is_dir) ==> exists|j: int|
                0 <= j < worker.rules.len() && path_within(
                    path,
                    (#[trigger] worker.rules[j]).scope(),
                ) && lines_ignore(worker.rules[j].dir, worker.rules[j].lines, path, is_dir)
            &&& worker.can_tell(uri, is_dir) <==> can_ask_in_turn(worker.rules, path, is_dir)
        }),
{
    let path = document_path(uri)->0;
    if 0 <= i < worker.rules.len() && path_within(path, worker.rules[i].scope()) && lines_ignore(
        worker.rules[i].dir,
        worker.rules[i].lines,
        path,
        is_dir,
    ) {
        assert(worker.rules[i].ignore(path, is_dir));
    }
    if worker.ignores(uri, is_dir) {
        let j = choose|j: int|
            0 <= j < worker.rules.len() && (#[trigger] worker.rules[j]).ignore(path, is_dir);
        assert(path_within(path, worker.rules[j].scope()));
    }
}

/// A workspace in order has the path of its root's address, and keeps no configuration of a
/// subdirectory where its settings switch these off.
pub proof fn workspaces_in_order(worker: WorkerView)
    requires
        worker.wf(),
    ensures
        document_path(worker.root_uri) == Some(worker.root_path),
        worker.options.flags.contains_key("disable_nested_config"@) && worker.options.config_path
            is None ==> worker.configs.is_empty(),
{
}

/// A linter that is set up for a workspace is set up for its root, settings and configurations.
pub proof fn current_linters_suit_the_workspace(worker: WorkerView, config: ConfigStore)
    requires
        worker.linter_is_current(config),
    ensures
        worker.linter.suit(worker.root_path, worker.options, worker.configs, config),
        worker.linter.root_path@ == worker.root_path,
        worker.linter.fix == worker.options.fix_kind(),
        worker.linter.config == config,
{
}

/// The linter's answer is taken as it is: all reports, or none where there is no answer.
pub proof fn answers_are_taken_as_they_are(found: Option<Vec<DiagnosticReport>>)
    ensures
        found_reports(found) is Some <==> found is Some,
        found is Some ==> found_reports(found)->0 == found->0@,
        found is Some ==> answer(found_reports(found)) == found->0@,
        found is None ==> answer(found_reports(found)).len() == 0,
{
}

/// What is published of an answer has as many findings as the answer has reports, and each is that
/// of the report at its place.
pub proof fn what_was_found_is_published(found: Vec<DiagnosticReport>, i: int)
    ensures
        ({
            let published = diagnostics_of(answer(found_reports(Some(found))));
            &&& published.len() == found@.len()
            &&& 0 <= i < published.len() ==> published[i] == found@[i].diagnostic
        }),
        diagnostics_of(answer(found_reports(None))).len() == 0,
{
    each_report_has_its_finding(found@);
    each_report_has_its_finding(answer(found_reports(None)));
}

/// The workspace of a document is the first that holds it, and none is found only where none holds
/// it.
pub proof fn first_workspace_that_holds_a_document(workers: Seq<WorkerView>, uri: Seq<char>, j: int)
    ensures
        responsible(workers, uri) matches Some(i) ==> {
            &&& 0 <= i < workers.len()
            &&& workers[i].responsible_for(uri)
            &&& 0 <= j < i ==> !workers[j].responsible_for(uri)
        },
        0 <= j < workers.len() && workers[j].responsible_for(uri) ==> responsible(workers, uri)
            is Some && responsible(workers, uri)->0 <= j,
{
    lemma_none_responsible(workers, uri);
    if responsible(workers, uri) is Some {
        let i = choose|i: int| is_first_responsible(workers, uri, i);
        assert(is_first_responsible(workers, uri, i));
    }
}

/// The list that clears a workspace has each document once, with no finding.
pub proof fn clearing_lists_each_document_once(
    list: Seq<(String, Vec<Diagnostic>)>,
    reports: Map<Seq<char>, Seq<DiagnosticReport>>,
    i: int,
    j: int,
)
    requires
        clears(list, reports),
        0 <= i < j < list.len(),
    ensures
        list[i].0@ != list[j].0@,
        list[i].1@.len() == 0,
        reports.contains_key(list[i].0@),
{
    let uris = listed_uris(list);
    assert(uris[i] == list[i].0@);
    assert(uris[j] == list[j].0@);
    assert(uris.to_set().contains(uris[i]));
}

/// The list that clears all workspaces goes through them one after the other: what it has for the
/// last one stands at its end and clears that one, and what stands before clears the others.
pub proof fn clearing_goes_workspace_by_workspace(
    list: Seq<(String, Vec<Diagnostic>)>,
    workers: Seq<WorkerView>,
    last: WorkerView,
)
    requires
        clears_all(list, workers.push(last)),
    ensures
        exists|k: int|
            0 <= k <= list.len() && clears_all(#[trigger] list.take(k), workers) && clears(
                list.skip(k),
                last.reports,
            ),
{
    let all = workers.push(last);
    let parts = choose|parts: Seq<Seq<(String, Vec<Diagnostic>)>>| #[trigger]
        parts.flatten() == list && parts.len() == all.len() && forall|i: int|
            0 <= i < parts.len() ==> clears(#[trigger] parts[i], all[i].reports);
    let rest = parts.drop_last();
    assert(parts =~= rest.push(parts.last()));
    rest.lemma_flatten_push(parts.last());
    let k = rest.flatten().len() as int;
    assert(list.take(k) =~= rest.flatten());
    assert(list.skip(k) =~= parts.last());
    assert(clears(parts[parts.len() - 1], all[parts.len() - 1].reports));
    assert forall|i: int| 0 <= i < rest.len() implies clears(
        #[trigger] rest[i],
        workers[i].reports,
    ) by {
        assert(rest[i] == parts[i]);
        assert(all[i] == workers[i]);
    }
    assert(clears_all(list.take(k), workers));
}

/// Without workspaces there is nothing to clear.
pub proof fn nothing_to_clear_without_workspaces(list: Seq<(String, Vec<Diagnostic>)>)
    requires
        clears_all(list, Seq::empty()),
    ensures
        list.len() == 0,
{
    let parts = choose|parts: Seq<Seq<(String, Vec<Diagnostic>)>>| #[trigger]
        parts.flatten() == list && parts.len() == 0;
    assert(parts =~= Seq::empty());
    assert(parts.flatten() =~= Seq::empty());
}

/// The addresses of a list of documents are those of its entries, each at its place.
pub proof fn listed_documents_keep_their_place(list: Seq<(String, Vec<Diagnostic>)>)
    ensures
        listed_uris(list).len() == list.len(),
        forall|i: int| 0 <= i < list.len() ==> #[trigger] listed_uris(list)[i] == list[i].0@,
{
}

/// A request to lint a document names the document, its workspace, its text and its version as they
/// are.
pub proof fn requests_say_what_to_lint(
    request: LintRequest,
    worker: int,
    uri: Seq<char>,
    content: Option<Seq<char>>,
    version: Option<i32>,
)
    requires
        request.is_for(worker, uri, content, version),
    ensures
        request.worker == worker,
        request.uri@ == uri,
        request.version == version,
        request.content is Some <==> content is Some,
        request.content is Some ==> request.content->0@ == content->0,
{
}

/// The workspaces of a server are taken as they are, each at its place.
pub proof fn workspaces_are_taken_as_they_are(workers: Seq<BackendWorker>)
    ensures
        worker_views(workers).len() == workers.len(),
        forall|i: int|
            0 <= i < workers.len() ==> #[trigger] worker_views(workers)[i] == workers[i]@,
{
}

} // verus!
