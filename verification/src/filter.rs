//! The query filter: which workspaces a query keeps.
//!
//! A predicate matches a variable by exact equality of key and of value. A
//! variable whose value the cloud withholds matches no predicate.

use vstd::prelude::*;
use crate::settings::{Query, QueryVariable, QueryVariableView, QueryView};
use crate::variable::{Variable, VariableView};
use crate::workspace::{WorkspaceVariables, WorkspaceVariablesView};

verus! {

/// The variable has the predicate's key and the predicate's value.
pub open spec fn satisfies(variable: VariableView, predicate: QueryVariableView) -> bool {
    variable.key == predicate.key && variable.value == Some(predicate.value)
}

/// Some variable of the list satisfies the predicate.
pub open spec fn met_by(predicate: QueryVariableView, variables: Seq<VariableView>) -> bool {
    exists|i: int| 0 <= i < variables.len() && satisfies(#[trigger] variables[i], predicate)
}

/// Every predicate is met by some variable of the workspace.
pub open spec fn retained(
    entry: WorkspaceVariablesView,
    predicates: Seq<QueryVariableView>,
) -> bool {
    forall|p: int| 0 <= p < predicates.len() ==> met_by(#[trigger] predicates[p], entry.variables)
}

/// The test that the filter applies to each workspace.
pub open spec fn keeps(predicates: Seq<QueryVariableView>) -> spec_fn(
    WorkspaceVariablesView,
) -> bool {
    |entry: WorkspaceVariablesView| retained(entry, predicates)
}

/// The workspaces that the query keeps, in the order in which they came.
pub open spec fn selection(
    workspaces: Seq<WorkspaceVariablesView>,
    query: QueryView,
) -> Seq<WorkspaceVariablesView> {
    workspaces.filter(keeps(query.predicates()))
}

/// Tells whether some variable of the list satisfies the predicate.
pub fn is_met(predicate: &QueryVariable, variables: &Vec<Variable>) -> (met: bool)
    ensures
        met == met_by(predicate@, variables.deep_view()),
{
    let mut i: usize = 0;
    while i < variables.len()
        invariant
            i <= variables.len(),
            forall|j: int|
                0 <= j < i ==> !satisfies(#[trigger] variables.deep_view()[j], predicate@),
        decreases variables.len() - i,
    {
        let variable = &variables[i];
        let value_matches = match &variable.attributes.value {
            Some(value) => *value == predicate.value,
            None => false,
        };
        if variable.attributes.key == predicate.key && value_matches {
            assert(satisfies(variables.deep_view()[i as int], predicate@));
            return true;
        }
        i += 1;
    }
    false
}

/// Tells whether the query keeps the workspace.
pub fn is_retained(entry: &WorkspaceVariables, query: &Query) -> (kept: bool)
    ensures
        kept == retained(entry@, query@.predicates()),
{
    match &query.variables {
        None => true,
        Some(predicates) => {
            let mut p: usize = 0;
            while p < predicates.len()
                invariant
                    p <= predicates.len(),
                    query@.predicates() == predicates.deep_view(),
                    forall|q: int|
                        0 <= q < p ==> met_by(
                            #[trigger] predicates.deep_view()[q],
                            entry@.variables,
                        ),
                decreases predicates.len() - p,
            {
                if !is_met(&predicates[p], &entry.variables) {
                    assert(!met_by(predicates.deep_view()[p as int], entry@.variables));
                    return false;
                }
                p += 1;
            }
            true
        },
    }
}

/// Keeps the workspaces that meet every predicate of the query, in the order
/// in which they came. A query without predicates keeps them all.
pub fn select(workspaces: &Vec<WorkspaceVariables>, query: &Query) -> (kept: Vec<
    WorkspaceVariables,
>)
    ensures
        kept.deep_view() == selection(workspaces.deep_view(), query@),
{
    let ghost test = keeps(query@.predicates());
    let mut kept: Vec<WorkspaceVariables> = Vec::new();
    let mut i: usize = 0;
    proof {
        reveal(Seq::filter);
    }
    while i < workspaces.len()
        invariant
            i <= workspaces.len(),
            test == keeps(query@.predicates()),
            kept.deep_view() == workspaces.deep_view().take(i as int).filter(test),
        decreases workspaces.len() - i,
    {
        let entry = &workspaces[i];
        proof {
            reveal(Seq::filter);
            let seen = workspaces.deep_view().take(i as int);
            assert(workspaces.deep_view().take(i + 1).drop_last() =~= seen);
        }
        if is_retained(entry, query) {
            kept.push(entry.clone());
        }
        i += 1;
    }
    assert(workspaces.deep_view().take(i as int) =~= workspaces.deep_view());
    kept
}

/// Narrows the list to the workspaces that the query keeps.
pub fn variable(workspaces: &mut Vec<WorkspaceVariables>, query: &Query)
    ensures
        final(workspaces).deep_view() == selection(old(workspaces).deep_view(), query@),
{
    let kept = select(workspaces, query);
    *workspaces = kept;
}

/// What passes a filter is what came in and meets the test.
proof fn filter_membership<A>(items: Seq<A>, test: spec_fn(A) -> bool, item: A)
    ensures
        items.filter(test).contains(item) <==> items.contains(item) && test(item),
    decreases items.len(),
{
    reveal(Seq::filter);
    if items.len() > 0 {
        filter_membership(items.drop_last(), test, item);
    }
}

/// A query without predicates selects every workspace, each where it stood.
pub proof fn empty_query_selects_all(workspaces: Seq<WorkspaceVariablesView>, query: QueryView)
    requires
        query.predicates().len() == 0,
    ensures
        selection(workspaces, query) == workspaces,
    decreases workspaces.len(),
{
    reveal(Seq::filter);
    if workspaces.len() > 0 {
        empty_query_selects_all(workspaces.drop_last(), query);
    }
}

/// A workspace is selected exactly if it came in and every predicate of the
/// query is met by one of its variables.
pub proof fn selected_iff_every_predicate_met(
    workspaces: Seq<WorkspaceVariablesView>,
    query: QueryView,
    entry: WorkspaceVariablesView,
)
    ensures
        selection(workspaces, query).contains(entry) <==> workspaces.contains(entry) && forall|
            p: int,
        |
            0 <= p < query.predicates().len() ==> met_by(
                #[trigger] query.predicates()[p],
                entry.variables,
            ),
{
    filter_membership(workspaces, keeps(query.predicates()), entry);
}

/// Where one variable alone satisfies some predicate, the workspace without
/// that variable is not retained.
pub proof fn removing_the_only_match_drops(
    entry: WorkspaceVariablesView,
    predicates: Seq<QueryVariableView>,
    p: int,
    i: int,
)
    requires
        0 <= p < predicates.len(),
        0 <= i < entry.variables.len(),
        satisfies(entry.variables[i], predicates[p]),
        forall|j: int|
            0 <= j < entry.variables.len() && j != i ==> !satisfies(
                #[trigger] entry.variables[j],
                predicates[p],
            ),
    ensures
        !retained(
            WorkspaceVariablesView {
                workspace: entry.workspace,
                variables: entry.variables.remove(i),
            },
            predicates,
        ),
{
    let rest = entry.variables.remove(i);
    assert forall|j: int| 0 <= j < rest.len() implies !satisfies(
        #[trigger] rest[j],
        predicates[p],
    ) by {
        assert(rest[j] == entry.variables[if j < i { j } else { j + 1 }]);
    }
}

/// The selection keeps the order of the workspaces: what it holds at two
/// places, the first before the second, came in at two places in that order.
pub proof fn selection_keeps_order(
    workspaces: Seq<WorkspaceVariablesView>,
    query: QueryView,
    a: int,
    b: int,
)
    requires
        0 <= a < b < selection(workspaces, query).len(),
    ensures
        exists|i: int, j: int|
            0 <= i < j < workspaces.len() && workspaces[i] == selection(workspaces, query)[a]
                && workspaces[j] == selection(workspaces, query)[b],
    decreases workspaces.len(),
{
    reveal(Seq::filter);
    let test = keeps(query.predicates());
    let front = workspaces.drop_last();
    let kept = workspaces.filter(test);
    if test(workspaces.last()) && b == front.filter(test).len() {
        filter_membership(front, test, kept[a]);
        let i = choose|i: int| 0 <= i < front.len() && front[i] == kept[a];
        assert(workspaces[i] == kept[a] && workspaces[workspaces.len() - 1] == kept[b]);
    } else {
        selection_keeps_order(front, query, a, b);
        let (i, j) = choose|i: int, j: int|
            0 <= i < j < front.len() && front[i] == front.filter(test)[a] && front[j]
                == front.filter(test)[b];
        assert(workspaces[i] == kept[a] && workspaces[j] == kept[b]);
    }
}

} // verus!
