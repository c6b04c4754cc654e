//! The settings that a client hands to the server.

use rustc_hash::FxHashMap;
use vstd::prelude::*;

use crate::text::{same_text, text_of};

verus! {

/// The hash builder of `rustc_hash`, which stands in the types of the maps that use it.
#[verifier::external_type_specification]
#[verifier::external_body]
pub struct ExFxBuildHasher(rustc_hash::FxBuildHasher);

/// What an `FxHashMap` of flags holds: the value of each flag under the flag's name.
pub uninterp spec fn flag_map(flags: FxHashMap<String, String>) -> Map<Seq<char>, Seq<char>>;

/// `FxHashMap::default`: a map without entries.
#[verifier::external_body]
fn no_flags() -> (flags: FxHashMap<String, String>)
    ensures
        (flag_map(flags) == Map::<Seq<char>, Seq<char>>::empty()),
{
    FxHashMap::default()
}

/// `FxHashMap::clone`: a map with the same entries.
#[verifier::external_body]
fn clone_flags(flags: &FxHashMap<String, String>) -> (copy: FxHashMap<String, String>)
    ensures
        flag_map(copy) == flag_map(*flags),
{
    flags.clone()
}

/// `FxHashMap::get`: the value under a key, if the map has the key.
#[verifier::external_body]
fn get_flag<'a>(flags: &'a FxHashMap<String, String>, name: &str) -> (value: Option<&'a String>)
    ensures
        value is Some <==> flag_map(*flags).contains_key(name@),
        value matches Some(v) ==> v@ == flag_map(*flags)[name@],
{
    flags.get(name)
}

/// `FxHashMap::contains_key`: whether the map has a key.
#[verifier::external_body]
fn has_flag(flags: &FxHashMap<String, String>, name: &str) -> (has: bool)
    ensures
        has == flag_map(*flags).contains_key(name@),
{
    flags.contains_key(name)
}

/// When a document is linted: when it is saved, or whenever its text changes.
#[derive(Debug, PartialEq, Eq, Structural, PartialOrd, Clone, Copy)]
pub enum Run {
    OnSave,
    OnType,
}

impl Default for Run {
    fn default() -> (run: Self)
        ensures
            run == Run::OnType,
    {
        Run::OnType
    }
}

/// Which fixes the linter offers.
#[derive(Debug, PartialEq, Eq, Structural, Clone, Copy)]
pub enum FixKind {
    SafeFix,
    SafeFixOrSuggestion,
    DangerousFix,
    DangerousFixOrSuggestion,
    NoFix,
    All,
}

/// The settings of a workspace.
#[derive(Debug)]
pub struct Options {
    pub run: Run,
    /// The path of the configuration file, relative to the workspace's root.
    pub config_path: Option<String>,
    pub flags: FxHashMap<String, String>,
}

/// The settings of a workspace, as values of logic.
pub struct OptionsView {
    pub run: Run,
    pub config_path: Option<Seq<char>>,
    pub flags: Map<Seq<char>, Seq<char>>,
}

impl OptionsView {
    /// The settings of a client that sends none.
    pub open spec fn initial() -> OptionsView {
        OptionsView { run: Run::OnType, config_path: None, flags: Map::empty() }
    }

    /// Whether configuration files in subdirectories count.
    pub open spec fn use_nested_configs(self) -> bool {
        !self.flags.contains_key("disable_nested_config"@) || self.config_path is Some
    }

    /// Which fixes the linter offers.
    pub open spec fn fix_kind(self) -> FixKind {
        if self.flags.contains_key("fix_kind"@) {
            named_fix_kind(self.flags["fix_kind"@])
        } else {
            FixKind::SafeFix
        }
    }
}

/// The kind of fix that a value of the flag `fix_kind` names. Other values mean safe fixes.
pub open spec fn named_fix_kind(name: Seq<char>) -> FixKind {
    if name == "safe_fix_or_suggestion"@ {
        FixKind::SafeFixOrSuggestion
    } else if name == "dangerous_fix"@ {
        FixKind::DangerousFix
    } else if name == "dangerous_fix_or_suggestion"@ {
        FixKind::DangerousFixOrSuggestion
    } else if name == "none"@ {
        FixKind::NoFix
    } else if name == "all"@ {
        FixKind::All
    } else {
        FixKind::SafeFix
    }
}

/// Whether a linter that was built for `old` cannot serve `new`.
pub open spec fn restart_needed(old: OptionsView, new: OptionsView) -> bool {
    ||| old.config_path != new.config_path
    ||| old.use_nested_configs() != new.use_nested_configs()
    ||| old.fix_kind() != new.fix_kind()
}

impl View for Options {
    type V = OptionsView;

    open spec fn view(&self) -> OptionsView {
        OptionsView {
            run: self.run,
            config_path: text_of(self.config_path),
            flags: flag_map(self.flags),
        }
    }
}

impl Default for Options {
    fn default() -> (options: Self)
        ensures
            options@ == OptionsView::initial(),
    {
        Options { run: Run::default(), config_path: None, flags: no_flags() }
    }
}

impl Clone for Options {
    fn clone(&self) -> (copy: Self)
        ensures
            copy@ == self@,
    {
        Options {
            run: self.run,
            config_path: self.config_path.clone(),
            flags: clone_flags(&self.flags),
        }
    }
}

impl Options {
    /// Whether configuration files in subdirectories count.
    pub fn use_nested_configs(&self) -> (used: bool)
        ensures
            used == self@.use_nested_configs(),
    {
        !has_flag(&self.flags, "disable_nested_config") || self.config_path.is_some()
    }

    /// Which fixes the linter offers.
    pub fn fix_kind(&self) -> (kind: FixKind)
        ensures
            kind == self@.fix_kind(),
    {
        match get_flag(&self.flags, "fix_kind") {
            Some(name) => fix_kind_of(name.as_str()),
            None => FixKind::SafeFix,
        }
    }
}

/// The kind of fix that a value of the flag `fix_kind` names. Other values mean safe fixes.
fn fix_kind_of(name: &str) -> (kind: FixKind)
    ensures
        kind == named_fix_kind(name@),
{
    if same_text(name, "safe_fix_or_suggestion") {
        FixKind::SafeFixOrSuggestion
    } else if same_text(name, "dangerous_fix") {
        FixKind::DangerousFix
    } else if same_text(name, "dangerous_fix_or_suggestion") {
        FixKind::DangerousFixOrSuggestion
    } else if same_text(name, "none") {
        FixKind::NoFix
    } else if same_text(name, "all") {
        FixKind::All
    } else {
        FixKind::SafeFix
    }
}

/// The settings to begin with: those that the client sent, or the default ones.
pub fn initial_options(sent: Option<Options>) -> (options: Options)
    ensures
        sent matches Some(s) ==> options == s,
        sent is None ==> options@ == OptionsView::initial(),
{
    match sent {
        Some(options) => options,
        None => Options::default(),
    }
}

/// Settings without the flag `disable_nested_config` let configurations in subdirectories count,
/// whatever else they say. With it they count exactly where a configuration file is named.
pub proof fn nested_configs_count_unless_disabled(options: OptionsView, run: Run, value: Seq<char>)
    ensures
        !options.flags.contains_key("disable_nested_config"@) ==> options.use_nested_configs(),
        (OptionsView {
            flags: options.flags.insert("disable_nested_config"@, value),
            ..options
        }).use_nested_configs() <==> options.config_path is Some,
        (OptionsView { run, ..options }).use_nested_configs() == options.use_nested_configs(),
{
}

/// To name a configuration file never stops configurations in subdirectories from counting, and
/// which file it is makes no difference.
pub proof fn naming_a_config_file_keeps_nested_configs(
    options: OptionsView,
    path: Seq<char>,
    other: Seq<char>,
)
    ensures
        (OptionsView { config_path: Some(path), ..options }).use_nested_configs(),
        options.use_nested_configs() ==> (OptionsView {
            config_path: Some(path),
            ..options
        }).use_nested_configs(),
        (OptionsView { config_path: Some(path), ..options }).use_nested_configs() == (OptionsView {
            config_path: Some(other),
            ..options
        }).use_nested_configs(),
{
}

/// Flags other than the two that are known change neither whether configurations in subdirectories
/// count nor which fixes are offered.
pub proof fn other_flags_change_nothing(options: OptionsView, flag: Seq<char>, value: Seq<char>)
    requires
        flag != "disable_nested_config"@,
        flag != "fix_kind"@,
    ensures
        ({
            let flagged = OptionsView { flags: options.flags.insert(flag, value), ..options };
            &&& flagged.use_nested_configs() == options.use_nested_configs()
            &&& flagged.fix_kind() == options.fix_kind()
        }),
{
}

/// The flag `fix_kind` alone says which fixes are offered. Without it, and with a value that is not
/// known, these are the safe ones.
pub proof fn fixes_go_by_the_flag(options: OptionsView, name: Seq<char>)
    ensures
        ({
            let offered = |value: Seq<char>|
                (OptionsView {
                    flags: options.flags.insert("fix_kind"@, value),
                    ..options
                }).fix_kind();
            &&& offered("safe_fix"@) == FixKind::SafeFix
            &&& offered("safe_fix_or_suggestion"@) == FixKind::SafeFixOrSuggestion
            &&& offered("dangerous_fix"@) == FixKind::DangerousFix
            &&& offered("dangerous_fix_or_suggestion"@) == FixKind::DangerousFixOrSuggestion
            &&& offered("none"@) == FixKind::NoFix
            &&& offered("all"@) == FixKind::All
            &&& offered(name) != FixKind::SafeFix ==> {
                ||| name == "safe_fix_or_suggestion"@
                ||| name == "dangerous_fix"@
                ||| name == "dangerous_fix_or_suggestion"@
                ||| name == "none"@
                ||| name == "all"@
            }
        }),
        !options.flags.contains_key("fix_kind"@) ==> options.fix_kind() == FixKind::SafeFix,
{
    reveal_strlit("safe_fix");
    reveal_strlit("safe_fix_or_suggestion");
    reveal_strlit("dangerous_fix");
    reveal_strlit("dangerous_fix_or_suggestion");
    reveal_strlit("none");
    reveal_strlit("all");
    assert("safe_fix"@.len() == 8);
    assert("safe_fix_or_suggestion"@.len() == 22);
    assert("dangerous_fix"@.len() == 13);
    assert("dangerous_fix_or_suggestion"@.len() == 27);
    assert("none"@.len() == 4);
    assert("all"@.len() == 3);
}

/// The linter is restarted for another configuration file, for other fixes, and where it changes
/// whether configurations in subdirectories count, and for nothing else.
pub proof fn restarts_have_three_reasons(old: OptionsView, new: OptionsView)
    ensures
        old.config_path != new.config_path ==> restart_needed(old, new),
        old.fix_kind() != new.fix_kind() ==> restart_needed(old, new),
        old.use_nested_configs() != new.use_nested_configs() ==> restart_needed(old, new),
        restart_needed(old, new) ==> old.config_path != new.config_path || old.flags != new.flags,
        restart_needed(old, new) && old.config_path == new.config_path && old.fix_kind()
            == new.fix_kind() ==> old.flags.contains_key("disable_nested_config"@)
            != new.flags.contains_key("disable_nested_config"@),
{
}

/// Settings are taken as they were sent, in all their parts, and a client that sends none has
/// documents linted as they are typed, with no configuration file and no flags.
pub proof fn settings_are_taken_as_sent(options: Options)
    ensures
        options@.run == options.run,
        options@.config_path is Some <==> options.config_path is Some,
        options.config_path is Some ==> options@.config_path->0 == options.config_path->0@,
        options@.flags == flag_map(options.flags),
        OptionsView::initial().run == Run::OnType,
        OptionsView::initial().config_path is None,
        OptionsView::initial().flags.is_empty(),
{
}

} // verus!
