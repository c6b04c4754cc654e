//! Configuration of the linter.

use vstd::prelude::*;

use crate::text::texts;

verus! {

/// A configuration that the linter has compiled. The linter keeps what it compiled under the
/// handle.
#[derive(Debug, PartialEq, Eq, Structural, Clone, Copy)]
pub struct ConfigStore {
    /// Whether the plugin for imports is on.
    pub has_import: bool,
    pub handle: u64,
}

/// The configuration of a workspace's root.
#[derive(Debug)]
pub struct Oxlintrc {
    /// The file that it was read from, or the empty path for the default configuration.
    pub path: String,
    /// Rules on the files to leave alone, one a line.
    pub ignore_patterns: Vec<String>,
    /// What the linter compiled of it.
    pub store: ConfigStore,
}

/// The configuration of a workspace's root, as values of logic.
pub struct OxlintrcView {
    pub path: Seq<char>,
    pub ignore_patterns: Seq<Seq<char>>,
    pub store: ConfigStore,
}

impl View for Oxlintrc {
    type V = OxlintrcView;

    open spec fn view(&self) -> OxlintrcView {
        OxlintrcView {
            path: self.path@,
            ignore_patterns: texts(self.ignore_patterns@),
            store: self.store,
        }
    }
}

} // verus!
