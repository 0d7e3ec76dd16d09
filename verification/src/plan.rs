//! The plan phase, workspace by workspace: what was found of each goes into
//! the report.

use vstd::prelude::*;
use crate::error::AppError;
use crate::report::{blank, Report, ReportView, UnlistedVariablesView, BIN_VERSION};
use crate::repo::{SyncOutcome, SyncOutcomeView};
use crate::scan::{
    declared_by, scan, unlisted, unlisted_variables, warnings_of, Scan, SourceFile, SourceFileView,
};
use crate::settings::{Query, QueryView};
use crate::workspace::{Workspace, WorkspaceVariables, WorkspaceVariablesView, WorkspaceView};

verus! {

/// What was found of the repository of one workspace.
#[derive(Debug)]
pub enum Finding {
    /// The workspace is bound to no repository.
    Unbound,
    /// The repository could not be brought here.
    Missing(AppError),
    /// The repository is here; its declaration files were scanned.
    Scanned(Scan),
}

/// The mathematical value of a `Finding`: of a scan, the keys that the files
/// declare.
pub enum FindingView {
    Unbound,
    Missing,
    Scanned(Set<Seq<char>>),
}

impl View for Finding {
    type V = FindingView;

    open spec fn view(&self) -> FindingView {
        match self {
            Finding::Unbound => FindingView::Unbound,
            Finding::Missing(_) => FindingView::Missing,
            Finding::Scanned(scan) => FindingView::Scanned(scan.declared@),
        }
    }
}

impl DeepView for Finding {
    type V = FindingView;

    open spec fn deep_view(&self) -> FindingView {
        self@
    }
}

/// What is found of a workspace, from how the synchronisation of its
/// repository has ended and from the declaration files of the local copy. A
/// workspace without a repository has nothing to synchronise. Where the
/// synchronisation has failed the repository is missing, and no file counts.
pub open spec fn found(
    outcome: Option<SyncOutcomeView>,
    files: Seq<SourceFileView>,
) -> FindingView {
    match outcome {
        None => FindingView::Unbound,
        Some(SyncOutcomeView::Failed(_)) => FindingView::Missing,
        Some(_) => FindingView::Scanned(declared_by(files)),
    }
}

/// Tells what is found of a workspace, once the synchronisation of its
/// repository has ended and the declaration files of the local copy were
/// read. The files are scanned only where the repository is here.
pub fn finding(outcome: Option<SyncOutcome>, files: &Vec<SourceFile>) -> (told: Finding)
    ensures
        told@ == found(
            match outcome {
                Some(ended) => Some(ended@),
                None => None,
            },
            files.deep_view(),
        ),
        match told {
            Finding::Unbound => true,
            Finding::Missing(reason) => outcome matches Some(SyncOutcome::Failed(failure))
                && reason == failure,
            Finding::Scanned(scanned) => scanned.warnings.deep_view() == warnings_of(
                files.deep_view(),
            ),
        },
{
    match outcome {
        None => Finding::Unbound,
        Some(SyncOutcome::Failed(reason)) => Finding::Missing(reason),
        Some(_) => Finding::Scanned(scan(files)),
    }
}

/// The identifiers of a list of workspaces.
pub open spec fn ids(workspaces: Seq<WorkspaceView>) -> Seq<Seq<char>> {
    workspaces.map_values(|workspace: WorkspaceView| workspace.id)
}

/// The identifiers of the workspaces whose variables were reconciled.
pub open spec fn reconciled_ids(entries: Seq<UnlistedVariablesView>) -> Seq<Seq<char>> {
    entries.map_values(|entry: UnlistedVariablesView| entry.workspace.workspace.id)
}

/// The report names the workspace, among those looked at or among those
/// whose repository is missing.
pub open spec fn reported(report: ReportView, id: Seq<char>) -> bool {
    ids(report.workspaces).contains(id) || ids(report.missing_repositories).contains(id)
}

/// No workspace is reported twice, be it in one list or in both, and the
/// variables of a workspace are reconciled once at most, and only for a
/// workspace that was looked at.
pub open spec fn well_formed(report: ReportView) -> bool {
    &&& ids(report.workspaces + report.missing_repositories).no_duplicates()
    &&& reconciled_ids(report.unlisted_variables).no_duplicates()
    &&& forall|i: int|
        0 <= i < report.unlisted_variables.len() ==> ids(report.workspaces).contains(
            #[trigger] reconciled_ids(report.unlisted_variables)[i],
        )
}

/// The report with what was found of one more workspace. A workspace that
/// the report names already is not taken again.
pub open spec fn recorded(
    report: ReportView,
    entry: WorkspaceVariablesView,
    finding: FindingView,
) -> ReportView {
    if reported(report, entry.workspace.id) {
        report
    } else {
        match finding {
            FindingView::Unbound => ReportView {
                workspaces: report.workspaces.push(entry.workspace),
                ..report
            },
            FindingView::Missing => ReportView {
                missing_repositories: report.missing_repositories.push(entry.workspace),
                ..report
            },
            FindingView::Scanned(declared) => ReportView {
                workspaces: report.workspaces.push(entry.workspace),
                unlisted_variables: report.unlisted_variables.push(
                    UnlistedVariablesView {
                        workspace: entry,
                        unlisted_variables: unlisted(entry.variables, declared),
                    },
                ),
                ..report
            },
        }
    }
}

/// The query as the report echoes it: none where the settings ask none.
pub open spec fn echoed(query: QueryView) -> Option<QueryView> {
    if query.variables is Some {
        Some(query)
    } else {
        None
    }
}

/// The report of a run with this query that has looked at nothing yet.
pub open spec fn begun(query: QueryView) -> ReportView {
    ReportView { query: echoed(query), ..blank(BIN_VERSION@) }
}

/// The report after a run: what was found of each workspace is recorded, in
/// the order of the workspaces. The first finding belongs to the first
/// workspace, and so on; a workspace without a finding is not reported.
pub open spec fn planned(
    report: ReportView,
    entries: Seq<WorkspaceVariablesView>,
    findings: Seq<FindingView>,
) -> ReportView
    decreases entries.len(),
{
    if entries.len() == 0 || findings.len() == 0 {
        report
    } else {
        planned(
            recorded(report, entries[0], findings[0]),
            entries.drop_first(),
            findings.drop_first(),
        )
    }
}

/// Starts the report of a run with this query: nothing is in it yet.
pub fn begin(query: &Query) -> (report: Report)
    ensures
        report@ == begun(query@),
        well_formed(report@),
{
    let mut report = Report::default();
    if query.variables.is_some() {
        report.query = Some(query.clone());
    }
    report
}

/// Tells whether a list of workspaces holds one of this identifier.
pub fn has_id(workspaces: &Vec<Workspace>, id: &String) -> (held: bool)
    ensures
        held == ids(workspaces.deep_view()).contains(id@),
{
    let mut i: usize = 0;
    while i < workspaces.len()
        invariant
            i <= workspaces.len(),
            forall|j: int| 0 <= j < i ==> ids(workspaces.deep_view())[j] != id@,
        decreases workspaces.len() - i,
    {
        if workspaces[i].id == *id {
            assert(ids(workspaces.deep_view())[i as int] == id@);
            return true;
        }
        i += 1;
    }
    false
}

/// Puts what was found of one workspace into the report, and tells whether
/// the workspace was new to it. A workspace without a repository is listed
/// as looked at. One whose repository is missing is listed as such, and
/// nowhere else. One whose files were scanned is listed as looked at,
/// together with those of its variables that the files do not declare.
pub fn record(report: &mut Report, entry: &WorkspaceVariables, finding: &Finding) -> (fresh: bool)
    ensures
        fresh == !reported(old(report)@, entry@.workspace.id),
        final(report)@ == recorded(old(report)@, entry@, finding@),
        well_formed(old(report)@) ==> well_formed(final(report)@),
{
    proof {
        if well_formed(report@) {
            recorded_keeps_well_formed(report@, entry@, finding@);
        }
    }
    if has_id(&report.workspaces, &entry.workspace.id) || has_id(
        &report.missing_repositories,
        &entry.workspace.id,
    ) {
        return false;
    }
    let ghost before = report@;
    match finding {
        Finding::Unbound => {
            report.workspaces.push(entry.workspace.clone());
            assert(report@.workspaces =~= before.workspaces.push(entry@.workspace));
        },
        Finding::Missing(_) => {
            report.missing_repositories.push(entry.workspace.clone());
            assert(report@.missing_repositories =~= before.missing_repositories.push(
                entry@.workspace,
            ));
        },
        Finding::Scanned(scan) => {
            report.workspaces.push(entry.workspace.clone());
            report.unlisted_variables.push(unlisted_variables(&scan.declared, entry));
            assert(report@.workspaces =~= before.workspaces.push(entry@.workspace));
            assert(report@.unlisted_variables =~= before.unlisted_variables.push(
                UnlistedVariablesView {
                    workspace: entry@,
                    unlisted_variables: unlisted(entry@.variables, scan.declared@),
                },
            ));
        },
    }
    true
}

/// Recording keeps a report well formed: a workspace is still reported once
/// at most, and reconciled once at most.
pub proof fn recorded_keeps_well_formed(
    report: ReportView,
    entry: WorkspaceVariablesView,
    finding: FindingView,
)
    requires
        well_formed(report),
    ensures
        well_formed(recorded(report, entry, finding)),
{
    let next = recorded(report, entry, finding);
    let id = entry.workspace.id;
    if !reported(report, id) {
        let all = ids(report.workspaces + report.missing_repositories);
        let all_next = ids(next.workspaces + next.missing_repositories);
        assert forall|i: int| 0 <= i < all.len() implies all[i] != id by {
            if i < report.workspaces.len() {
                assert(ids(report.workspaces)[i] == all[i]);
            } else {
                assert(ids(report.missing_repositories)[i - report.workspaces.len()] == all[i]);
            }
        }
        assert forall|i: int, j: int| 0 <= i < j < all_next.len() implies all_next[i]
            != all_next[j] by {
            match finding {
                FindingView::Missing => {
                    if j < all.len() {
                        assert(all_next[i] == all[i] && all_next[j] == all[j]);
                    } else {
                        assert(all_next[i] == all[i] && all_next[j] == id);
                    }
                },
                _ => {
                    let n: int = report.workspaces.len() as int;
                    let at = |k: int|
                        if k < n {
                            k
                        } else {
                            k - 1
                        };
                    if i != n {
                        assert(all_next[i] == all[at(i)]);
                    }
                    if j != n {
                        assert(all_next[j] == all[at(j)]);
                    }
                },
            }
        }
        let done = reconciled_ids(report.unlisted_variables);
        let done_next = reconciled_ids(next.unlisted_variables);
        assert forall|i: int| 0 <= i < next.unlisted_variables.len() implies ids(
            next.workspaces,
        ).contains(#[trigger] done_next[i]) by {
            if i < done.len() {
                let k = choose|k: int|
                    0 <= k < ids(report.workspaces).len() && ids(report.workspaces)[k] == done[i];
                assert(ids(next.workspaces)[k] == done[i]);
            } else {
                assert(ids(next.workspaces)[report.workspaces.len() as int] == id);
            }
        }
        assert forall|i: int, j: int| 0 <= i < j < done_next.len() implies done_next[i]
            != done_next[j] by {
            assert(done_next[i] == done[i]);
            if j < done.len() {
                assert(done_next[j] == done[j]);
            }
        }
    }
}

/// Puts the report of a run together: what was found of each workspace is
/// recorded, in the order of the workspaces.
pub fn plan(query: &Query, entries: &Vec<WorkspaceVariables>, findings: &Vec<Finding>) -> (report:
    Report)
    ensures
        report@ == planned(begun(query@), entries.deep_view(), findings.deep_view()),
        well_formed(report@),
{
    let mut report = begin(query);
    let mut i: usize = 0;
    assert(entries.deep_view().skip(0) =~= entries.deep_view());
    assert(findings.deep_view().skip(0) =~= findings.deep_view());
    while i < entries.len() && i < findings.len()
        invariant
            i <= entries.len(),
            i <= findings.len(),
            well_formed(report@),
            planned(begun(query@), entries.deep_view(), findings.deep_view()) == planned(
                report@,
                entries.deep_view().skip(i as int),
                findings.deep_view().skip(i as int),
            ),
        decreases entries.len() - i,
    {
        proof {
            let rest = entries.deep_view().skip(i as int);
            let found = findings.deep_view().skip(i as int);
            assert(rest.drop_first() =~= entries.deep_view().skip(i + 1));
            assert(found.drop_first() =~= findings.deep_view().skip(i + 1));
        }
        record(&mut report, &entries[i], &findings[i]);
        i += 1;
    }
    report
}

/// A run keeps a report well formed.
pub proof fn planned_keeps_well_formed(
    report: ReportView,
    entries: Seq<WorkspaceVariablesView>,
    findings: Seq<FindingView>,
)
    requires
        well_formed(report),
    ensures
        well_formed(planned(report, entries, findings)),
    decreases entries.len(),
{
    if entries.len() > 0 && findings.len() > 0 {
        recorded_keeps_well_formed(report, entries[0], findings[0]);
        planned_keeps_well_formed(
            recorded(report, entries[0], findings[0]),
            entries.drop_first(),
            findings.drop_first(),
        );
    }
}

/// The workspaces of a run that were looked at: those whose repository is
/// not missing, in the order of the run.
pub open spec fn looked_at(
    entries: Seq<WorkspaceVariablesView>,
    findings: Seq<FindingView>,
) -> Seq<WorkspaceView>
    decreases entries.len(),
{
    if entries.len() == 0 || findings.len() == 0 {
        Seq::empty()
    } else {
        let rest = looked_at(entries.drop_first(), findings.drop_first());
        match findings[0] {
            FindingView::Missing => rest,
            _ => seq![entries[0].workspace] + rest,
        }
    }
}

/// The workspaces of a run whose repository is missing, in the order of the
/// run.
pub open spec fn missing(
    entries: Seq<WorkspaceVariablesView>,
    findings: Seq<FindingView>,
) -> Seq<WorkspaceView>
    decreases entries.len(),
{
    if entries.len() == 0 || findings.len() == 0 {
        Seq::empty()
    } else {
        let rest = missing(entries.drop_first(), findings.drop_first());
        match findings[0] {
            FindingView::Missing => seq![entries[0].workspace] + rest,
            _ => rest,
        }
    }
}

/// The workspaces of a run whose files were scanned, each with those of its
/// variables that the files do not declare, in the order of the run.
pub open spec fn reconciled(
    entries: Seq<WorkspaceVariablesView>,
    findings: Seq<FindingView>,
) -> Seq<UnlistedVariablesView>
    decreases entries.len(),
{
    if entries.len() == 0 || findings.len() == 0 {
        Seq::empty()
    } else {
        let rest = reconciled(entries.drop_first(), findings.drop_first());
        match findings[0] {
            FindingView::Scanned(declared) => seq![
                UnlistedVariablesView {
                    workspace: entries[0],
                    unlisted_variables: unlisted(entries[0].variables, declared),
                },
            ] + rest,
            _ => rest,
        }
    }
}

/// The identifiers of the workspaces of a run.
pub open spec fn entry_ids(entries: Seq<WorkspaceVariablesView>) -> Seq<Seq<char>> {
    entries.map_values(|entry: WorkspaceVariablesView| entry.workspace.id)
}

/// Where no workspace comes twice, and none that the report names already,
/// a run adds each workspace to the report once and in the order of the run:
/// to the workspaces looked at, or to those whose repository is missing, and
/// to the reconciled ones if its files were scanned. What the report held
/// stays in front.
pub proof fn planned_keeps_order(
    report: ReportView,
    entries: Seq<WorkspaceVariablesView>,
    findings: Seq<FindingView>,
)
    requires
        entry_ids(entries).no_duplicates(),
        forall|i: int|
            0 <= i < entries.len() ==> !reported(report, #[trigger] entry_ids(entries)[i]),
    ensures
        planned(report, entries, findings) == (ReportView {
            workspaces: report.workspaces + looked_at(entries, findings),
            missing_repositories: report.missing_repositories + missing(entries, findings),
            unlisted_variables: report.unlisted_variables + reconciled(entries, findings),
            ..report
        }),
    decreases entries.len(),
{
    if entries.len() > 0 && findings.len() > 0 {
        let first = entries[0];
        let next = recorded(report, first, findings[0]);
        let rest = entries.drop_first();
        let found = findings.drop_first();
        assert(entry_ids(entries)[0] == first.workspace.id);
        assert(entry_ids(rest) =~= entry_ids(entries).drop_first());
        assert forall|i: int| 0 <= i < rest.len() implies !reported(
            next,
            #[trigger] entry_ids(rest)[i],
        ) by {
            let id = entry_ids(rest)[i];
            if ids(next.workspaces).contains(id) {
                let k = choose|k: int| 0 <= k < ids(next.workspaces).len() && ids(
                    next.workspaces,
                )[k] == id;
                if k < report.workspaces.len() {
                    assert(ids(report.workspaces)[k] == id);
                }
            }
            if ids(next.missing_repositories).contains(id) {
                let k = choose|k: int| 0 <= k < ids(next.missing_repositories).len() && ids(
                    next.missing_repositories,
                )[k] == id;
                if k < report.missing_repositories.len() {
                    assert(ids(report.missing_repositories)[k] == id);
                }
            }
        }
        planned_keeps_order(next, rest, found);
        let end = planned(report, entries, findings);
        assert(end.workspaces =~= report.workspaces + looked_at(entries, findings));
        assert(end.missing_repositories =~= report.missing_repositories + missing(
            entries,
            findings,
        ));
        assert(end.unlisted_variables =~= report.unlisted_variables + reconciled(
            entries,
            findings,
        ));
    }
}

} // verus!
