//! What the linter found in the documents of a workspace.

use rustc_hash::FxBuildHasher;
use vstd::prelude::*;

use crate::position::Range;
use crate::text::texts;

verus! {

/// One finding of the linter. The rest of what the linter says of it is kept under the handle.
#[derive(Debug, PartialEq, Eq, Structural, Clone, Copy)]
pub struct Diagnostic {
    pub range: Range,
    pub handle: u64,
}

/// A finding as the linter reports it.
#[derive(Debug, PartialEq, Eq, Structural, Clone, Copy)]
pub struct DiagnosticReport {
    pub diagnostic: Diagnostic,
}

/// A concurrent map of `papaya`.
#[verifier::external_type_specification]
#[verifier::external_body]
#[verifier::reject_recursive_types(K)]
#[verifier::reject_recursive_types(V)]
#[verifier::reject_recursive_types(S)]
pub struct ExHashMap<K, V, S>(papaya::HashMap<K, V, S>);

/// The findings in each document, under the document's address.
pub type ReportMap = papaya::HashMap<String, Vec<DiagnosticReport>, FxBuildHasher>;

/// What a map of findings holds.
pub uninterp spec fn reports_in(map: ReportMap) -> Map<Seq<char>, Seq<DiagnosticReport>>;

/// `HashMap::default` of `papaya`: a map without entries.
#[verifier::external_body]
pub(crate) fn no_reports() -> (map: ReportMap)
    ensures
        (reports_in(map) == Map::<Seq<char>, Seq<DiagnosticReport>>::empty()),
{
    papaya::HashMap::default()
}

/// `HashMapRef::insert` of `papaya`: an entry that takes the place of an earlier one with its key.
#[verifier::external_body]
pub(crate) fn insert_reports(map: &mut ReportMap, uri: String, reports: Vec<DiagnosticReport>)
    ensures
        reports_in(*final(map)) == reports_in(*old(map)).insert(uri@, reports@),
{
    map.pin().insert(uri, reports);
}

/// `HashMapRef::remove` of `papaya`: the map without the entry of a key.
#[verifier::external_body]
pub(crate) fn remove_reports(map: &mut ReportMap, uri: &str)
    ensures
        reports_in(*final(map)) == reports_in(*old(map)).remove(uri@),
{
    map.pin().remove(uri);
}

/// `HashMapRef::get` of `papaya`: a copy of the value of a key, if the map has the key.
#[verifier::external_body]
pub(crate) fn get_reports(map: &ReportMap, uri: &str) -> (reports: Option<Vec<DiagnosticReport>>)
    ensures
        reports is Some <==> reports_in(*map).contains_key(uri@),
        reports matches Some(r) ==> r@ == reports_in(*map)[uri@],
{
    map.pin().get(uri).cloned()
}

/// `HashMapRef::keys` of `papaya`: each key of the map once, in an order of which nothing is said.
#[verifier::external_body]
pub(crate) fn reported_uris(map: &ReportMap) -> (uris: Vec<String>)
    ensures
        texts(uris@).no_duplicates(),
        texts(uris@).to_set() == reports_in(*map).dom(),
{
    map.pin().keys().cloned().collect()
}

/// The findings of reports, in their order.
pub open spec fn diagnostics_of(reports: Seq<DiagnosticReport>) -> Seq<Diagnostic> {
    reports.map_values(|report: DiagnosticReport| report.diagnostic)
}

/// The findings of reports, in their order.
pub fn diagnostics(reports: &Vec<DiagnosticReport>) -> (found: Vec<Diagnostic>)
    ensures
        found@ == diagnostics_of(reports@),
        found@.len() == reports@.len(),
        forall|i: int| 0 <= i < found@.len() ==> #[trigger] found@[i] == reports@[i].diagnostic,
{
    let mut found: Vec<Diagnostic> = Vec::new();
    let mut i: usize = 0;
    while i < reports.len()
        invariant
            i <= reports.len(),
            found@ =~= diagnostics_of(reports@).take(i as int),
        decreases reports.len() - i,
    {
        found.push(reports[i].diagnostic);
        i += 1;
    }
    assert(diagnostics_of(reports@).take(reports@.len() as int) =~= diagnostics_of(reports@));
    found
}

/// A copy of reports.
pub(crate) fn copy_reports(reports: &Vec<DiagnosticReport>) -> (copy: Vec<DiagnosticReport>)
    ensures
        copy@ == reports@,
{
    let mut copy: Vec<DiagnosticReport> = Vec::new();
    let mut i: usize = 0;
    while i < reports.len()
        invariant
            i <= reports.len(),
            copy@ =~= reports@.take(i as int),
        decreases reports.len() - i,
    {
        copy.push(reports[i]);
        i += 1;
    }
    assert(reports@.take(reports@.len() as int) =~= reports@);
    copy
}

/// No finding is lost, added or moved: there are as many as reports, each at the place of its
/// report.
pub proof fn each_report_has_its_finding(reports: Seq<DiagnosticReport>)
    ensures
        diagnostics_of(reports).len() == reports.len(),
        forall|i: int|
            0 <= i < reports.len() ==> #[trigger] diagnostics_of(reports)[i]
                == reports[i].diagnostic,
{
}

} // verus!
