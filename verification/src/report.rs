//! The report of a run: the workspaces that were looked at, those whose
//! repository is missing, and the variables that no declaration file lists.

use vstd::prelude::*;
use vstd::std_specs::convert::FromSpecImpl;
use crate::error::AppError;
use crate::settings::{Query, QueryView, Settings};
use crate::variable;
use crate::workspace::{
    clone_workspaces, Workspace, WorkspaceVariables, WorkspaceVariablesView, WorkspaceView,
};

verus! {

/// The version of the report's format.
pub const REPORT_VERSION: &'static str = "0.1.0";

/// The version of the tool that writes the report.
pub const BIN_VERSION: &'static str = "0.1.0";

/// A variable as the report names it.
#[derive(Debug, PartialEq, Eq)]
pub struct Variable {
    pub id: String,
    pub key: String,
}

/// The variables of one workspace that no declaration file lists, in the
/// order in which the cloud gave them.
#[derive(Debug, PartialEq, Eq)]
pub struct UnlistedVariables {
    pub workspace: WorkspaceVariables,
    pub unlisted_variables: Vec<Variable>,
}

/// The report of a run.
#[derive(Debug, PartialEq, Eq)]
pub struct Report {
    pub report_version: String,
    pub bin_version: String,
    /// The query that selected the workspaces, if there was one.
    pub query: Option<Query>,
    /// The workspaces that were looked at.
    pub workspaces: Vec<Workspace>,
    /// The workspaces whose repository could not be brought here.
    pub missing_repositories: Vec<Workspace>,
    pub unlisted_variables: Vec<UnlistedVariables>,
}

/// The mathematical value of a report's `Variable`.
pub struct VariableView {
    pub id: Seq<char>,
    pub key: Seq<char>,
}

/// The mathematical value of an `UnlistedVariables`.
pub struct UnlistedVariablesView {
    pub workspace: WorkspaceVariablesView,
    pub unlisted_variables: Seq<VariableView>,
}

/// The mathematical value of a `Report`.
pub struct ReportView {
    pub report_version: Seq<char>,
    pub bin_version: Seq<char>,
    pub query: Option<QueryView>,
    pub workspaces: Seq<WorkspaceView>,
    pub missing_repositories: Seq<WorkspaceView>,
    pub unlisted_variables: Seq<UnlistedVariablesView>,
}

impl View for Variable {
    type V = VariableView;

    open spec fn view(&self) -> VariableView {
        VariableView { id: self.id@, key: self.key@ }
    }
}

impl DeepView for Variable {
    type V = VariableView;

    open spec fn deep_view(&self) -> VariableView {
        self@
    }
}

impl View for UnlistedVariables {
    type V = UnlistedVariablesView;

    open spec fn view(&self) -> UnlistedVariablesView {
        UnlistedVariablesView {
            workspace: self.workspace@,
            unlisted_variables: self.unlisted_variables.deep_view(),
        }
    }
}

impl DeepView for UnlistedVariables {
    type V = UnlistedVariablesView;

    open spec fn deep_view(&self) -> UnlistedVariablesView {
        self@
    }
}

impl View for Report {
    type V = ReportView;

    open spec fn view(&self) -> ReportView {
        ReportView {
            report_version: self.report_version@,
            bin_version: self.bin_version@,
            query: self.query.deep_view(),
            workspaces: self.workspaces.deep_view(),
            missing_repositories: self.missing_repositories.deep_view(),
            unlisted_variables: self.unlisted_variables.deep_view(),
        }
    }
}

/// How the report names a variable of the cloud: by its identifier and key.
pub open spec fn named(variable: variable::VariableView) -> VariableView {
    VariableView { id: variable.id, key: variable.key }
}

impl Variable {
    /// Names a variable of the cloud for the report.
    pub fn of(item: &variable::Variable) -> (name: Variable)
        ensures
            name@ == named(item@),
    {
        Variable { id: item.id.clone(), key: item.attributes.key.clone() }
    }
}

impl From<variable::Variable> for Variable {
    fn from(item: variable::Variable) -> (name: Variable) {
        Variable { id: item.id, key: item.attributes.key }
    }
}

impl FromSpecImpl<variable::Variable> for Variable {
    open spec fn obeys_from_spec() -> bool {
        true
    }

    open spec fn from_spec(item: variable::Variable) -> Variable {
        Variable { id: item.id, key: item.attributes.key }
    }
}

impl Clone for Variable {
    fn clone(&self) -> (copy: Self)
        ensures
            copy@ == self@,
    {
        Variable { id: self.id.clone(), key: self.key.clone() }
    }
}

impl Clone for UnlistedVariables {
    fn clone(&self) -> (copy: Self)
        ensures
            copy@ == self@,
    {
        let mut unlisted_variables: Vec<Variable> = Vec::new();
        let mut i: usize = 0;
        while i < self.unlisted_variables.len()
            invariant
                i <= self.unlisted_variables.len(),
                unlisted_variables.len() == i,
                forall|j: int| 0 <= j < i ==> unlisted_variables[j]@ == self.unlisted_variables[j]@,
            decreases self.unlisted_variables.len() - i,
        {
            unlisted_variables.push(self.unlisted_variables[i].clone());
            i += 1;
        }
        assert(unlisted_variables.deep_view() =~= self.unlisted_variables.deep_view());
        UnlistedVariables { workspace: self.workspace.clone(), unlisted_variables }
    }
}

impl Clone for Report {
    fn clone(&self) -> (copy: Self)
        ensures
            copy@ == self@,
    {
        let query = match &self.query {
            Some(query) => Some(query.clone()),
            None => None,
        };
        let mut unlisted_variables: Vec<UnlistedVariables> = Vec::new();
        let mut i: usize = 0;
        while i < self.unlisted_variables.len()
            invariant
                i <= self.unlisted_variables.len(),
                unlisted_variables.len() == i,
                forall|j: int| 0 <= j < i ==> unlisted_variables[j]@ == self.unlisted_variables[j]@,
            decreases self.unlisted_variables.len() - i,
        {
            unlisted_variables.push(self.unlisted_variables[i].clone());
            i += 1;
        }
        assert(unlisted_variables.deep_view() =~= self.unlisted_variables.deep_view());
        Report {
            report_version: self.report_version.clone(),
            bin_version: self.bin_version.clone(),
            query,
            workspaces: clone_workspaces(&self.workspaces),
            missing_repositories: clone_workspaces(&self.missing_repositories),
            unlisted_variables,
        }
    }
}

/// The report of a run that has looked at nothing, written by a tool of the
/// given version.
pub open spec fn blank(bin_version: Seq<char>) -> ReportView {
    ReportView {
        report_version: REPORT_VERSION@,
        bin_version,
        query: None,
        workspaces: Seq::empty(),
        missing_repositories: Seq::empty(),
        unlisted_variables: Seq::empty(),
    }
}

/// The report that holds the query and the three lists as they are given.
pub open spec fn assembled(
    bin_version: Seq<char>,
    query: Option<QueryView>,
    workspaces: Seq<WorkspaceView>,
    missing_repositories: Seq<WorkspaceView>,
    unlisted_variables: Seq<UnlistedVariablesView>,
) -> ReportView {
    ReportView {
        report_version: REPORT_VERSION@,
        bin_version,
        query,
        workspaces,
        missing_repositories,
        unlisted_variables,
    }
}

impl Default for Report {
    fn default() -> (report: Report)
        ensures
            report@ == blank(BIN_VERSION@),
    {
        let report = Report {
            report_version: String::from_str(REPORT_VERSION),
            bin_version: String::from_str(BIN_VERSION),
            query: None,
            workspaces: Vec::new(),
            missing_repositories: Vec::new(),
            unlisted_variables: Vec::new(),
        };
        assert(report.workspaces.deep_view() =~= Seq::empty());
        assert(report.missing_repositories.deep_view() =~= Seq::empty());
        assert(report.unlisted_variables.deep_view() =~= Seq::empty());
        report
    }
}

/// Puts a report together from the query that was used and what the run
/// found: the lists go in as they are.
pub fn build(
    query: Option<Query>,
    workspaces: Vec<Workspace>,
    missing_repositories: Vec<Workspace>,
    unlisted_variables: Vec<UnlistedVariables>,
) -> (report: Report)
    ensures
        report@ == assembled(
            BIN_VERSION@,
            query.deep_view(),
            workspaces.deep_view(),
            missing_repositories.deep_view(),
            unlisted_variables.deep_view(),
        ),
{
    Report {
        report_version: String::from_str(REPORT_VERSION),
        bin_version: String::from_str(BIN_VERSION),
        query,
        workspaces,
        missing_repositories,
        unlisted_variables,
    }
}

/// Two reports put together from the same query and the same lists are the
/// same but for the version of the tool that wrote them.
pub proof fn reports_differ_in_tool_version_only(
    first_version: Seq<char>,
    second_version: Seq<char>,
    query: Option<QueryView>,
    workspaces: Seq<WorkspaceView>,
    missing_repositories: Seq<WorkspaceView>,
    unlisted_variables: Seq<UnlistedVariablesView>,
)
    ensures
        assembled(first_version, query, workspaces, missing_repositories, unlisted_variables)
            == (ReportView {
            bin_version: first_version,
            ..assembled(
                second_version,
                query,
                workspaces,
                missing_repositories,
                unlisted_variables,
            )
        }),
{
}

/// Where the saving of a report stands: what is to be done next on the
/// machine, or how it has ended.
///
/// The report is written to a file beside its destination and then moved
/// there, so that the destination never holds part of a report.
#[derive(Debug)]
pub enum Save {
    /// Write `contents` to a new file at `path`.
    Write { path: String, contents: String, destination: String },
    /// Move the file at `from` to `to`.
    Rename { from: String, to: String },
    /// Remove the file at `path`: the saving has failed.
    Discard { path: String, reason: AppError },
    /// Nothing is left to do.
    Done(Result<(), AppError>),
}

/// The mathematical value of a `Save`.
pub enum SaveView {
    Write { path: Seq<char>, contents: Seq<char>, destination: Seq<char> },
    Rename { from: Seq<char>, to: Seq<char> },
    Discard { path: Seq<char>, reason: AppError },
    Done(Result<(), AppError>),
}

impl View for Save {
    type V = SaveView;

    open spec fn view(&self) -> SaveView {
        match self {
            Save::Write { path, contents, destination } => SaveView::Write {
                path: path@,
                contents: contents@,
                destination: destination@,
            },
            Save::Rename { from, to } => SaveView::Rename { from: from@, to: to@ },
            Save::Discard { path, reason } => SaveView::Discard { path: path@, reason: *reason },
            Save::Done(ended) => SaveView::Done(*ended),
        }
    }
}

/// The file that a report is written to before it is moved to its
/// destination.
pub open spec fn draft_path(destination: Seq<char>) -> Seq<char> {
    destination + seq!['.', 't', 'm', 'p']
}

/// The step that follows an answer of the machine. A failed write or move
/// leaves the destination as it was: the draft is removed, and the saving
/// ends with the failure.
pub open spec fn save_step(state: SaveView, answer: Result<(), std::io::Error>) -> SaveView {
    match (state, answer) {
        (SaveView::Write { path, contents, destination }, Ok(_)) => SaveView::Rename {
            from: path,
            to: destination,
        },
        (SaveView::Write { path, contents, destination }, Err(error)) => SaveView::Discard {
            path,
            reason: AppError::Io(error),
        },
        (SaveView::Rename { from, to }, Ok(_)) => SaveView::Done(Ok(())),
        (SaveView::Rename { from, to }, Err(error)) => SaveView::Discard {
            path: from,
            reason: AppError::Io(error),
        },
        (SaveView::Discard { path, reason }, _) => SaveView::Done(Err(reason)),
        (SaveView::Done(ended), _) => SaveView::Done(ended),
    }
}

/// Where the saving stands after a run of answers.
pub open spec fn saved_after(state: SaveView, answers: Seq<Result<(), std::io::Error>>) -> SaveView
    decreases answers.len(),
{
    if answers.len() == 0 {
        state
    } else {
        saved_after(save_step(state, answers[0]), answers.drop_first())
    }
}

/// Starts the saving of a report that was turned into text, to the output of
/// the settings. A report that could not be turned into text is not saved.
pub fn save(config: &Settings, serialized: Result<String, serde_json::Error>) -> (first: Save)
    ensures
        first@ == match serialized {
            Ok(contents) => SaveView::Write {
                path: draft_path(config.output@),
                contents: contents@,
                destination: config.output@,
            },
            Err(error) => SaveView::Done(Err(AppError::Json(error))),
        },
{
    match serialized {
        Ok(contents) => {
            let mut path = config.output.clone();
            proof {
                reveal_strlit(".tmp");
            }
            path.append(".tmp");
            assert(path@ =~= draft_path(config.output@));
            Save::Write { path, contents, destination: config.output.clone() }
        },
        Err(error) => Save::Done(Err(AppError::Json(error))),
    }
}

impl Save {
    /// Takes the machine's answer to the step and gives the next one.
    pub fn advance(self, answer: Result<(), std::io::Error>) -> (next: Save)
        ensures
            next@ == save_step(self@, answer),
    {
        match self {
            Save::Write { path, contents, destination } => match answer {
                Ok(_) => Save::Rename { from: path, to: destination },
                Err(error) => Save::Discard { path, reason: AppError::Io(error) },
            },
            Save::Rename { from, to } => match answer {
                Ok(_) => Save::Done(Ok(())),
                Err(error) => Save::Discard { path: from, reason: AppError::Io(error) },
            },
            Save::Discard { path, reason } => Save::Done(Err(reason)),
            Save::Done(ended) => Save::Done(ended),
        }
    }

    /// How the saving has ended, once it has.
    pub fn outcome(self) -> (ended: Option<Result<(), AppError>>)
        ensures
            match ended {
                Some(result) => self@ == SaveView::Done(result),
                None => !(self@ is Done),
            },
    {
        match self {
            Save::Done(ended) => Some(ended),
            _ => None,
        }
    }
}

/// A saving ends well only after the draft was written and moved, in that
/// order and both without failure: nothing else puts a report in place.
pub proof fn saved_only_after_write_and_move(
    path: Seq<char>,
    contents: Seq<char>,
    destination: Seq<char>,
    answers: Seq<Result<(), std::io::Error>>,
)
    requires
        saved_after(SaveView::Write { path, contents, destination }, answers) == SaveView::Done(
            Ok(()),
        ),
    ensures
        answers.len() >= 2,
        answers[0] is Ok,
        answers[1] is Ok,
{
    reveal_with_fuel(saved_after, 3);
    let first = SaveView::Write { path, contents, destination };
    if answers.len() >= 1 {
        let rest = answers.drop_first();
        if answers[0] is Err {
            failed_stays_failed(save_step(first, answers[0]), rest);
        } else if rest.len() >= 1 {
            if rest[0] is Err {
                failed_stays_failed(
                    save_step(save_step(first, answers[0]), rest[0]),
                    rest.drop_first(),
                );
            }
        }
    }
}

/// Whether a saving has failed, or is removing its draft after a failure.
pub open spec fn failing(state: SaveView) -> bool {
    match state {
        SaveView::Discard { .. } => true,
        SaveView::Done(Err(_)) => true,
        _ => false,
    }
}

/// A saving that is failing stays so whatever is answered.
proof fn failed_stays_failed(state: SaveView, answers: Seq<Result<(), std::io::Error>>)
    requires
        failing(state),
    ensures
        failing(saved_after(state, answers)),
    decreases answers.len(),
{
    if answers.len() > 0 {
        failed_stays_failed(save_step(state, answers[0]), answers.drop_first());
    }
}

} // verus!
