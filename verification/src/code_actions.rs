//! The actions that an editor offers for a stretch of a document.

use vstd::prelude::*;

use crate::diagnostics::DiagnosticReport;
use crate::position::{range_overlaps, Range};
use crate::text::{same_text, texts};

verus! {

/// The kind of action that fixes all that can be fixed in a document.
pub const CODE_ACTION_KIND_SOURCE_FIX_ALL_OXC: &'static str = "source.fixAll.oxc";

/// Which actions to offer.
#[derive(Debug)]
pub enum CodeActionPlan {
    /// None: the document was not linted.
    NotLinted,
    /// One that fixes all of these findings.
    FixAll(Vec<DiagnosticReport>),
    /// Those of each of these findings.
    Each(Vec<DiagnosticReport>),
}

/// The actions for one finding.
#[derive(Debug)]
pub struct ReportActions<A> {
    /// Fixes it, if it can be fixed.
    pub fix: Option<A>,
    /// Turns the linter off for the line.
    pub ignore_line: A,
    /// Turns the rule off for the document.
    pub ignore_rule: A,
}

/// Whether a finding stands in a stretch of a document.
pub open spec fn concerns(report: DiagnosticReport, range: Range) -> bool {
    report.diagnostic.range == range || range.overlaps(report.diagnostic.range)
}

/// The findings in a stretch of a document, in their order.
pub open spec fn concerned(reports: Seq<DiagnosticReport>, range: Range) -> Seq<DiagnosticReport> {
    reports.filter(|report: DiagnosticReport| concerns(report, range))
}

/// Whether the kinds of actions that are asked for name the one that fixes all.
pub open spec fn asks_for_fix_all(only: Option<Vec<String>>) -> bool {
    match only {
        Some(kinds) => texts(kinds@).contains(CODE_ACTION_KIND_SOURCE_FIX_ALL_OXC@),
        None => false,
    }
}

/// The actions for one finding, in the order in which they are offered.
pub open spec fn actions_of<A>(actions: ReportActions<A>) -> Seq<A> {
    match actions.fix {
        Some(fix) => seq![fix, actions.ignore_line, actions.ignore_rule],
        None => seq![actions.ignore_line, actions.ignore_rule],
    }
}

/// The actions for findings, in the order in which they are offered.
pub open spec fn all_actions<A>(made: Seq<ReportActions<A>>) -> Seq<A>
    decreases made.len(),
{
    if made.len() == 0 {
        Seq::empty()
    } else {
        all_actions(made.drop_last()) + actions_of(made.last())
    }
}

/// The findings in a stretch of a document, in their order.
fn reports_in_range(reports: &Vec<DiagnosticReport>, range: Range) -> (found: Vec<DiagnosticReport>)
    ensures
        found@ == concerned(reports@, range),
{
    let mut found: Vec<DiagnosticReport> = Vec::new();
    let mut i: usize = 0;
    proof {
        reveal(Seq::filter);
    }
    while i < reports.len()
        invariant
            i <= reports.len(),
            found@ == concerned(reports@.take(i as int), range),
        decreases reports.len() - i,
    {
        let report = reports[i];
        if report.diagnostic.range == range || range_overlaps(range, report.diagnostic.range) {
            found.push(report);
        }
        proof {
            reveal(Seq::filter);
            assert(reports@.take(i + 1).drop_last() =~= reports@.take(i as int));
        }
        i += 1;
    }
    assert(reports@.take(reports@.len() as int) =~= reports@);
    found
}

/// Whether the kinds of actions that are asked for name the one that fixes all.
fn is_source_fix_all_oxc(only: &Option<Vec<String>>) -> (asked: bool)
    ensures
        asked == asks_for_fix_all(*only),
{
    match only {
        Some(kinds) => {
            let mut i: usize = 0;
            while i < kinds.len()
                invariant
                    i <= kinds.len(),
                    *only == Some(*kinds),
                    forall|j: int|
                        0 <= j < i ==> texts(kinds@)[j] != CODE_ACTION_KIND_SOURCE_FIX_ALL_OXC@,
                decreases kinds.len() - i,
            {
                assert(texts(kinds@)[i as int] == kinds@[i as int]@);
                if same_text(kinds[i].as_str(), CODE_ACTION_KIND_SOURCE_FIX_ALL_OXC) {
                    return true;
                }
                i += 1;
            }
            false
        },
        None => false,
    }
}

/// Which actions to offer for a stretch of a document in which `reports` were found.
pub fn plan_code_actions(
    reports: Option<Vec<DiagnosticReport>>,
    range: Range,
    only: &Option<Vec<String>>,
) -> (plan: CodeActionPlan)
    ensures
        plan is NotLinted <==> reports is None,
        plan is FixAll <==> reports is Some && asks_for_fix_all(*only),
        plan is FixAll <==> reports is Some && (only matches Some(kinds) && exists|i: int|
            0 <= i < kinds@.len() && (#[trigger] kinds@[i])@ == "source.fixAll.oxc"@),
        plan matches CodeActionPlan::FixAll(found) ==> found@ == concerned(reports->0@, range),
        plan matches CodeActionPlan::Each(found) ==> found@ == concerned(reports->0@, range),
{
    proof {
        if only is Some {
            let kinds = only->0;
            fix_all_is_asked_for_by_name(kinds, 0);
            assert forall|i: int|
                0 <= i < kinds@.len() && (#[trigger] kinds@[i])@
                    == "source.fixAll.oxc"@ implies asks_for_fix_all(*only) by {
                fix_all_is_asked_for_by_name(kinds, i);
            }
        }
    }
    match reports {
        None => CodeActionPlan::NotLinted,
        Some(reports) => {
            let found = reports_in_range(&reports, range);
            if is_source_fix_all_oxc(only) {
                CodeActionPlan::FixAll(found)
            } else {
                CodeActionPlan::Each(found)
            }
        },
    }
}

/// The answer where all is to be fixed: the action that does it, if there is one.
pub fn answer_fix_all<A>(made: Option<A>) -> (answer: Option<Vec<A>>)
    ensures
        answer is Some <==> made is Some,
        answer matches Some(actions) ==> actions@ == seq![made->0],
{
    match made {
        Some(action) => {
            let mut actions: Vec<A> = Vec::new();
            actions.push(action);
            assert(actions@ =~= seq![action]);
            Some(actions)
        },
        None => None,
    }
}

/// The answer where each finding is offered its own actions: all of these, if there are any.
pub fn answer_each<A>(made: Vec<ReportActions<A>>) -> (answer: Option<Vec<A>>)
    ensures
        answer is Some <==> all_actions(made@).len() > 0,
        answer matches Some(actions) ==> actions@ == all_actions(made@),
{
    let ghost all = made@;
    let mut left = made;
    let mut actions: Vec<A> = Vec::new();
    let ghost mut i: int = 0;
    while left.len() > 0
        invariant
            0 <= i <= all.len(),
            left@ == all.skip(i),
            actions@ == all_actions(all.take(i)),
        decreases left.len(),
    {
        let next = left.remove(0);
        proof {
            assert(next == all[i]);
            assert(all.take(i + 1).drop_last() =~= all.take(i));
            assert(all.skip(i).remove(0) =~= all.skip(i + 1));
        }
        let ghost before = actions@;
        if let Some(fix) = next.fix {
            actions.push(fix);
        }
        actions.push(next.ignore_line);
        actions.push(next.ignore_rule);
        proof {
            assert(actions@ =~= before + actions_of(all[i]));
            i = i + 1;
        }
    }
    assert(all.take(i) =~= all);
    if actions.len() == 0 {
        None
    } else {
        Some(actions)
    }
}

/// There is an answer exactly where there is a finding, and each finding has two or three actions
/// in it.
pub proof fn each_finding_has_actions<A>(made: Seq<ReportActions<A>>)
    ensures
        2 * made.len() <= all_actions(made).len() <= 3 * made.len(),
        all_actions(made).len() > 0 <==> made.len() > 0,
    decreases made.len(),
{
    if made.len() > 0 {
        each_finding_has_actions(made.drop_last());
    }
}

/// What is offered actions was found in the document and stands in the stretch asked for, and
/// whatever was found there is offered some.
pub proof fn findings_offered_are_those_in_range(
    reports: Seq<DiagnosticReport>,
    range: Range,
    report: DiagnosticReport,
)
    ensures
        concerned(reports, range).contains(report) <==> reports.contains(report) && concerns(
            report,
            range,
        ),
    decreases reports.len(),
{
    reveal(Seq::filter);
    if reports.len() > 0 {
        let rest = reports.drop_last();
        let last = reports.last();
        findings_offered_are_those_in_range(rest, range, report);
        assert(reports =~= rest.push(last));
        assert(reports.contains(report) <==> rest.contains(report) || report == last) by {
            if rest.contains(report) {
                let i = rest.index_of(report);
                assert(reports[i] == report);
            }
            assert(reports[reports.len() - 1] == last);
        }
        let found = concerned(rest, range);
        assert(found.push(last).contains(report) <==> found.contains(report) || report == last) by {
            if found.contains(report) {
                let i = found.index_of(report);
                assert(found.push(last)[i] == report);
            }
            assert(found.push(last)[found.len() as int] == last);
        }
    }
}

/// A cursor in a document, which is a stretch without length, is offered the actions of a finding
/// exactly where the finding covers it.
pub proof fn cursor_concerns_what_covers_it(report: DiagnosticReport, cursor: Range)
    requires
        cursor.start == cursor.end,
        report.diagnostic.range.is_ordered(),
    ensures
        concerns(report, cursor) <==> report.diagnostic.range.covers(cursor.start),
{
}

/// Whatever the kinds that are asked for, the one that fixes all counts as asked for wherever it
/// stands among them, and not where it does not: nothing else about the kinds matters.
pub proof fn fix_all_is_asked_for_by_name(kinds: Vec<String>, i: int)
    ensures
        0 <= i < kinds@.len() && kinds@[i]@ == "source.fixAll.oxc"@ ==> asks_for_fix_all(
            Some(kinds),
        ),
        asks_for_fix_all(Some(kinds)) ==> exists|j: int|
            0 <= j < kinds@.len() && (#[trigger] kinds@[j])@ == "source.fixAll.oxc"@,
        !asks_for_fix_all(None),
{
    if 0 <= i < kinds@.len() && kinds@[i]@ == "source.fixAll.oxc"@ {
        assert(texts(kinds@)[i] == kinds@[i]@);
    }
    if asks_for_fix_all(Some(kinds)) {
        let j = texts(kinds@).index_of("source.fixAll.oxc"@);
        assert(kinds@[j]@ == "source.fixAll.oxc"@);
    }
}

/// A finding stands in a stretch unless it ends before the stretch starts or starts behind its end.
/// One whose stretch is the same stands in it in any case.
pub proof fn findings_elsewhere_do_not_concern(report: DiagnosticReport, range: Range)
    ensures
        ({
            let found = report.diagnostic.range;
            !concerns(report, range) <==> found != range && {
                ||| found.end.line < range.start.line
                ||| found.end.line == range.start.line && found.end.character
                    < range.start.character
                ||| range.end.line < found.start.line
                ||| range.end.line == found.start.line && range.end.character
                    < found.start.character
            }
        }),
{
}

/// The findings in a stretch are picked one by one, each on its own merits: those of two lists are
/// those of the first and then those of the second, and a finding alone is picked where it stands in
/// the stretch.
pub proof fn findings_are_picked_one_by_one(
    first: Seq<DiagnosticReport>,
    second: Seq<DiagnosticReport>,
    report: DiagnosticReport,
    range: Range,
)
    ensures
        concerned(first + second, range) == concerned(first, range) + concerned(second, range),
        report.diagnostic.range == range || range.overlaps(report.diagnostic.range) ==> concerned(
            seq![report],
            range,
        ) == seq![report],
        report.diagnostic.range != range && !range.overlaps(report.diagnostic.range) ==> concerned(
            seq![report],
            range,
        ) == Seq::<DiagnosticReport>::empty(),
    decreases second.len(),
{
    reveal(Seq::filter);
    assert(seq![report].drop_last() =~= Seq::<DiagnosticReport>::empty());
    assert(concerned(Seq::empty(), range) =~= Seq::<DiagnosticReport>::empty());
    if concerns(report, range) {
        assert(concerned(seq![report], range) =~= seq![report]);
    } else {
        assert(concerned(seq![report], range) =~= Seq::<DiagnosticReport>::empty());
    }
    if second.len() == 0 {
        assert(first + second =~= first);
        assert(concerned(first, range) + concerned(second, range) =~= concerned(first, range));
    } else {
        findings_are_picked_one_by_one(first, second.drop_last(), report, range);
        assert((first + second).drop_last() =~= first + second.drop_last());
        assert(concerned(first + second, range) =~= concerned(first, range) + concerned(
            second,
            range,
        ));
    }
}

/// The actions of two lists of findings are those of the first and then those of the second. A
/// finding alone is offered its fix, if there is one, then what turns the linter off for the line,
/// then what turns the rule off.
pub proof fn actions_follow_the_findings<A>(
    first: Seq<ReportActions<A>>,
    second: Seq<ReportActions<A>>,
    made: ReportActions<A>,
)
    ensures
        all_actions(first + second) == all_actions(first) + all_actions(second),
        all_actions(Seq::<ReportActions<A>>::empty()) == Seq::<A>::empty(),
        ({
            let actions = all_actions(seq![made]);
            let fixes: int = if made.fix is Some {
                1
            } else {
                0
            };
            &&& actions.len() == fixes + 2
            &&& made.fix is Some ==> actions[0] == made.fix->0
            &&& actions[fixes] == made.ignore_line
            &&& actions[fixes + 1] == made.ignore_rule
        }),
    decreases second.len(),
{
    assert(seq![made].drop_last() =~= Seq::<ReportActions<A>>::empty());
    assert(all_actions(seq![made]) =~= actions_of(made)) by {
        reveal_with_fuel(all_actions, 2);
    }
    if second.len() == 0 {
        assert(first + second =~= first);
        assert(all_actions(first) + all_actions(second) =~= all_actions(first));
    } else {
        actions_follow_the_findings(first, second.drop_last(), made);
        assert((first + second).drop_last() =~= first + second.drop_last());
        assert(all_actions(first + second) =~= all_actions(first) + all_actions(second));
    }
}

} // verus!
