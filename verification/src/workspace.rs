//! Workspaces as the cloud reports them.

use vstd::prelude::*;
use crate::variable::{clone_variables, Variable, VariableView};

verus! {

/// The source repository that a workspace is bound to.
#[derive(Debug, PartialEq, Eq)]
pub struct VcsRepo {
    /// Where the repository is fetched from.
    pub repository_http_url: String,
    /// The name of the repository, where the cloud gives one.
    pub identifier: Option<String>,
}

/// What the cloud holds of one workspace besides its identifier.
#[derive(Debug, PartialEq, Eq)]
pub struct Attributes {
    pub name: String,
    pub vcs_repo: Option<VcsRepo>,
}

/// One workspace, as fetched. It is never changed afterwards.
#[derive(Debug, PartialEq, Eq)]
pub struct Workspace {
    pub id: String,
    pub attributes: Attributes,
}

/// A workspace together with the variables that the cloud holds for it.
#[derive(Debug, PartialEq, Eq)]
pub struct WorkspaceVariables {
    pub workspace: Workspace,
    pub variables: Vec<Variable>,
}

/// The mathematical value of a `VcsRepo`.
pub struct VcsRepoView {
    pub repository_http_url: Seq<char>,
    pub identifier: Option<Seq<char>>,
}

/// The mathematical value of a `Workspace`.
pub struct WorkspaceView {
    pub id: Seq<char>,
    pub name: Seq<char>,
    pub vcs_repo: Option<VcsRepoView>,
}

/// The mathematical value of a `WorkspaceVariables`.
pub struct WorkspaceVariablesView {
    pub workspace: WorkspaceView,
    pub variables: Seq<VariableView>,
}

impl View for VcsRepo {
    type V = VcsRepoView;

    open spec fn view(&self) -> VcsRepoView {
        VcsRepoView {
            repository_http_url: self.repository_http_url@,
            identifier: self.identifier.deep_view(),
        }
    }
}

impl DeepView for VcsRepo {
    type V = VcsRepoView;

    open spec fn deep_view(&self) -> VcsRepoView {
        self@
    }
}

impl View for Workspace {
    type V = WorkspaceView;

    open spec fn view(&self) -> WorkspaceView {
        WorkspaceView {
            id: self.id@,
            name: self.attributes.name@,
            vcs_repo: self.attributes.vcs_repo.deep_view(),
        }
    }
}

impl DeepView for Workspace {
    type V = WorkspaceView;

    open spec fn deep_view(&self) -> WorkspaceView {
        self@
    }
}

impl View for WorkspaceVariables {
    type V = WorkspaceVariablesView;

    open spec fn view(&self) -> WorkspaceVariablesView {
        WorkspaceVariablesView {
            workspace: self.workspace@,
            variables: self.variables.deep_view(),
        }
    }
}

impl DeepView for WorkspaceVariables {
    type V = WorkspaceVariablesView;

    open spec fn deep_view(&self) -> WorkspaceVariablesView {
        self@
    }
}

impl Clone for VcsRepo {
    fn clone(&self) -> (copy: Self)
        ensures
            copy@ == self@,
    {
        let identifier = match &self.identifier {
            Some(name) => Some(name.clone()),
            None => None,
        };
        VcsRepo { repository_http_url: self.repository_http_url.clone(), identifier }
    }
}

impl Clone for Attributes {
    fn clone(&self) -> (copy: Self)
        ensures
            copy.name@ == self.name@,
            copy.vcs_repo.deep_view() == self.vcs_repo.deep_view(),
    {
        let vcs_repo = match &self.vcs_repo {
            Some(repo) => Some(repo.clone()),
            None => None,
        };
        Attributes { name: self.name.clone(), vcs_repo }
    }
}

impl Clone for Workspace {
    fn clone(&self) -> (copy: Self)
        ensures
            copy@ == self@,
    {
        Workspace { id: self.id.clone(), attributes: self.attributes.clone() }
    }
}

impl Clone for WorkspaceVariables {
    fn clone(&self) -> (copy: Self)
        ensures
            copy@ == self@,
    {
        WorkspaceVariables {
            workspace: self.workspace.clone(),
            variables: clone_variables(&self.variables),
        }
    }
}

/// Copies a list of workspaces, one by one and in order.
pub fn clone_workspaces(workspaces: &Vec<Workspace>) -> (copy: Vec<Workspace>)
    ensures
        copy.deep_view() == workspaces.deep_view(),
{
    let mut copy: Vec<Workspace> = Vec::new();
    let mut i: usize = 0;
    while i < workspaces.len()
        invariant
            i <= workspaces.len(),
            copy.len() == i,
            forall|j: int| 0 <= j < i ==> copy[j]@ == workspaces[j]@,
        decreases workspaces.len() - i,
    {
        copy.push(workspaces[i].clone());
        i += 1;
    }
    assert(copy.deep_view() =~= workspaces.deep_view());
    copy
}

} // verus!
