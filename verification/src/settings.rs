//! The settings of a run: the query that selects workspaces, where
//! repositories are kept, and where the report goes.

use vstd::prelude::*;

verus! {

/// One predicate of a query: a workspace meets it if one of its variables
/// has exactly this key and exactly this value.
#[derive(Debug, PartialEq, Eq)]
pub struct QueryVariable {
    pub key: String,
    pub value: String,
}

/// The query that selects workspaces. Without predicates it selects all.
#[derive(Debug, PartialEq, Eq)]
pub struct Query {
    pub variables: Option<Vec<QueryVariable>>,
}

/// Where the repositories of the workspaces are kept on this machine.
#[derive(Debug, PartialEq, Eq)]
pub struct Repositories {
    pub git_dir: String,
}

/// The settings of a run.
#[derive(Debug, PartialEq, Eq)]
pub struct Settings {
    /// The log filter.
    pub log: String,
    /// The file that the report is written to.
    pub output: String,
    pub query: Query,
    pub repositories: Repositories,
}

/// The mathematical value of a `QueryVariable`.
pub struct QueryVariableView {
    pub key: Seq<char>,
    pub value: Seq<char>,
}

/// The mathematical value of a `Query`.
pub struct QueryView {
    pub variables: Option<Seq<QueryVariableView>>,
}

impl View for QueryVariable {
    type V = QueryVariableView;

    open spec fn view(&self) -> QueryVariableView {
        QueryVariableView { key: self.key@, value: self.value@ }
    }
}

impl DeepView for QueryVariable {
    type V = QueryVariableView;

    open spec fn deep_view(&self) -> QueryVariableView {
        self@
    }
}

impl View for Query {
    type V = QueryView;

    open spec fn view(&self) -> QueryView {
        QueryView { variables: self.variables.deep_view() }
    }
}

impl DeepView for Query {
    type V = QueryView;

    open spec fn deep_view(&self) -> QueryView {
        self@
    }
}

impl QueryView {
    /// The predicates of the query; none where it names none.
    pub open spec fn predicates(self) -> Seq<QueryVariableView> {
        match self.variables {
            Some(predicates) => predicates,
            None => Seq::empty(),
        }
    }
}

impl Clone for QueryVariable {
    fn clone(&self) -> (copy: Self)
        ensures
            copy@ == self@,
    {
        QueryVariable { key: self.key.clone(), value: self.value.clone() }
    }
}

impl Clone for Query {
    fn clone(&self) -> (copy: Self)
        ensures
            copy@ == self@,
    {
        match &self.variables {
            None => Query { variables: None },
            Some(predicates) => {
                let mut copy: Vec<QueryVariable> = Vec::new();
                let mut i: usize = 0;
                while i < predicates.len()
                    invariant
                        i <= predicates.len(),
                        copy.len() == i,
                        forall|j: int| 0 <= j < i ==> copy[j]@ == predicates[j]@,
                    decreases predicates.len() - i,
                {
                    copy.push(predicates[i].clone());
                    i += 1;
                }
                assert(copy.deep_view() =~= predicates.deep_view());
                Query { variables: Some(copy) }
            },
        }
    }
}

} // verus!
