//! Keeping a local copy of a workspace's repository: where it lies, and the
//! steps that bring it up to date.

use vstd::prelude::*;
use crate::error::{general, AppError};
use crate::settings::Settings;
use crate::workspace::Workspace;

verus! {

/// A repository URL after parsing, as far as the synchroniser reads it.
#[derive(Debug, PartialEq, Eq)]
pub struct RepositoryUrl {
    /// The URL as the parser writes it out.
    pub serialization: String,
    /// The segments of its path; none for a URL that cannot be a base.
    pub path_segments: Option<Vec<String>>,
}

/// The mathematical value of a `RepositoryUrl`.
pub struct RepositoryUrlView {
    pub serialization: Seq<char>,
    pub path_segments: Option<Seq<Seq<char>>>,
}

impl View for RepositoryUrl {
    type V = RepositoryUrlView;

    open spec fn view(&self) -> RepositoryUrlView {
        RepositoryUrlView {
            serialization: self.serialization@,
            path_segments: self.path_segments.deep_view(),
        }
    }
}

/// What the `url` crate makes of a text: the serialization and the path
/// segments of the URL that it parses to, or its error where the text does
/// not parse.
pub uninterp spec fn parsed_url(text: Seq<char>) -> Result<RepositoryUrlView, url::ParseError>;

/// Parses a text with `url::Url::parse` and reads the result with
/// `Url::as_str` and `Url::path_segments`.
///
/// Trusted: the outcome depends on the text alone, and where path segments are
/// handed out there is at least one, as the documentation of `path_segments`
/// says.
#[verifier::external_body]
fn parse_url(text: &str) -> (parsed: Result<RepositoryUrl, url::ParseError>)
    ensures
        match parsed {
            Ok(url) => parsed_url(text@) == Ok::<RepositoryUrlView, url::ParseError>(url@),
            Err(error) => parsed_url(text@) == Err::<RepositoryUrlView, url::ParseError>(error),
        },
        parsed matches Ok(url) ==> (url@.path_segments matches Some(segments) ==> segments.len()
            >= 1),
{
    let url = url::Url::parse(text)?;
    let path_segments = url.path_segments().map(|segments| segments.map(String::from).collect());
    Ok(RepositoryUrl { serialization: url.as_str().to_owned(), path_segments })
}

/// The git directory without the slash that may end it.
pub open spec fn base_dir(git_dir: Seq<char>) -> Seq<char> {
    if git_dir.len() > 0 && git_dir.last() == '/' {
        git_dir.drop_last()
    } else {
        git_dir
    }
}

/// Where the repository with this identifier lies: under the git directory,
/// one slash between the two.
pub open spec fn local_path(git_dir: Seq<char>, identifier: Seq<char>) -> Seq<char> {
    base_dir(git_dir) + seq!['/'] + identifier
}

/// The name of the local copy: the identifier that the workspace gives, else
/// the last segment of the URL's path. A URL without path segments names none.
pub open spec fn local_identifier(
    explicit: Option<Seq<char>>,
    url: RepositoryUrlView,
) -> Option<Seq<char>> {
    match explicit {
        Some(identifier) => Some(identifier),
        None => match url.path_segments {
            Some(segments) => if segments.len() > 0 {
                Some(segments.last())
            } else {
                None
            },
            None => None,
        },
    }
}

/// Parses the URL of a repository. The text is a URL or it is not: which, the
/// parser decides, and the error is the parser's. A URL that has path
/// segments names a local copy.
pub fn parse_repository_url(text: &str) -> (parsed: Result<RepositoryUrl, AppError>)
    ensures
        match parsed {
            Ok(url) => parsed_url(text@) == Ok::<RepositoryUrlView, url::ParseError>(url@),
            Err(error) => parsed_url(text@) matches Err(reason) && error == AppError::Url(reason),
        },
        parsed matches Ok(url) ==> (url@.path_segments is Some ==> local_identifier(None, url@)
            is Some),
{
    match parse_url(text) {
        Ok(url) => Ok(url),
        Err(error) => Err(AppError::Url(error)),
    }
}

/// Names the local copy of a repository.
pub fn identifier(explicit: &Option<String>, url: &RepositoryUrl) -> (name: Option<String>)
    ensures
        name.deep_view() == local_identifier(explicit.deep_view(), url@),
{
    match explicit {
        Some(identifier) => Some(identifier.clone()),
        None => match &url.path_segments {
            Some(segments) => {
                if segments.len() > 0 {
                    Some(segments[segments.len() - 1].clone())
                } else {
                    None
                }
            },
            None => None,
        },
    }
}

/// Builds the path of the local copy of a repository.
pub fn repository_path(git_dir: &str, identifier: &str) -> (path: String)
    ensures
        path@ == local_path(git_dir@, identifier@),
{
    let length: usize = git_dir.unicode_len();
    let base = if length > 0 && git_dir.get_char(length - 1) == '/' {
        git_dir.substring_char(0, length - 1)
    } else {
        git_dir
    };
    let mut path = String::from_str(base);
    proof {
        reveal_strlit("/");
    }
    path.append("/");
    path.append(identifier);
    path
}

/// How bringing a local copy up to date has ended.
#[derive(Debug)]
pub enum SyncOutcome {
    /// The copy at this path was there, and is at its HEAD again.
    Updated(String),
    /// The repository was cloned to this path.
    Cloned(String),
    /// The copy could not be opened, reset or cloned.
    Failed(AppError),
}

/// Where the synchronisation of one repository stands: what is to be done
/// next on the machine, or how it has ended.
#[derive(Debug)]
pub enum Sync {
    /// Find out whether `path` is a directory.
    Probe { url: String, path: String },
    /// Open the repository at `path`.
    Open { path: String },
    /// Reset the working tree of the repository at `path` to its HEAD.
    Reset { path: String },
    /// Clone the repository at `url` into `path`.
    Clone { url: String, path: String },
    /// Nothing is left to do.
    Done(SyncOutcome),
}

/// What the machine answers to a step.
#[derive(Debug)]
pub enum SyncEvent {
    /// Whether the path is a directory.
    Directory(bool),
    /// How opening, resetting or cloning went.
    Git(Result<(), git2::Error>),
}

/// The mathematical value of a `SyncOutcome`.
pub enum SyncOutcomeView {
    Updated(Seq<char>),
    Cloned(Seq<char>),
    Failed(AppError),
}

/// The mathematical value of a `Sync`.
pub enum SyncView {
    Probe { url: Seq<char>, path: Seq<char> },
    Open { path: Seq<char> },
    Reset { path: Seq<char> },
    Clone { url: Seq<char>, path: Seq<char> },
    Done(SyncOutcomeView),
}

impl View for SyncOutcome {
    type V = SyncOutcomeView;

    open spec fn view(&self) -> SyncOutcomeView {
        match self {
            SyncOutcome::Updated(path) => SyncOutcomeView::Updated(path@),
            SyncOutcome::Cloned(path) => SyncOutcomeView::Cloned(path@),
            SyncOutcome::Failed(reason) => SyncOutcomeView::Failed(*reason),
        }
    }
}

impl View for Sync {
    type V = SyncView;

    open spec fn view(&self) -> SyncView {
        match self {
            Sync::Probe { url, path } => SyncView::Probe { url: url@, path: path@ },
            Sync::Open { path } => SyncView::Open { path: path@ },
            Sync::Reset { path } => SyncView::Reset { path: path@ },
            Sync::Clone { url, path } => SyncView::Clone { url: url@, path: path@ },
            Sync::Done(outcome) => SyncView::Done(outcome@),
        }
    }
}

/// The step that follows an answer of the machine.
///
/// A path that is a directory is taken for a copy: it is opened and reset,
/// never cloned. Any other path is cloned to. The first failure ends the
/// synchronisation. An answer that the step does not wait for changes
/// nothing.
pub open spec fn step(state: SyncView, event: SyncEvent) -> SyncView {
    match (state, event) {
        (SyncView::Probe { url, path }, SyncEvent::Directory(true)) => SyncView::Open { path },
        (SyncView::Probe { url, path }, SyncEvent::Directory(false)) => SyncView::Clone {
            url,
            path,
        },
        (SyncView::Open { path }, SyncEvent::Git(Ok(_))) => SyncView::Reset { path },
        (SyncView::Reset { path }, SyncEvent::Git(Ok(_))) => SyncView::Done(
            SyncOutcomeView::Updated(path),
        ),
        (SyncView::Clone { url, path }, SyncEvent::Git(Ok(_))) => SyncView::Done(
            SyncOutcomeView::Cloned(path),
        ),
        (SyncView::Open { path }, SyncEvent::Git(Err(error))) => SyncView::Done(
            SyncOutcomeView::Failed(AppError::Git(error)),
        ),
        (SyncView::Reset { path }, SyncEvent::Git(Err(error))) => SyncView::Done(
            SyncOutcomeView::Failed(AppError::Git(error)),
        ),
        (SyncView::Clone { url, path }, SyncEvent::Git(Err(error))) => SyncView::Done(
            SyncOutcomeView::Failed(AppError::Git(error)),
        ),
        (state, _) => state,
    }
}

/// Where the synchronisation stands after a run of answers.
pub open spec fn after(state: SyncView, events: Seq<SyncEvent>) -> SyncView
    decreases events.len(),
{
    if events.len() == 0 {
        state
    } else {
        after(step(state, events[0]), events.drop_first())
    }
}

/// Starts the synchronisation of the repository at `url`: the local copy is
/// to lie under the git directory of the settings, and the first step finds
/// out whether it is there.
pub fn clone(config: &Settings, url: &RepositoryUrl, identifier: &str) -> (first: Sync)
    ensures
        first@ == (SyncView::Probe {
            url: url@.serialization,
            path: local_path(config.repositories.git_dir@, identifier@),
        }),
{
    Sync::Probe {
        url: url.serialization.clone(),
        path: repository_path(config.repositories.git_dir.as_str(), identifier),
    }
}

impl Sync {
    /// Takes the machine's answer to the step and gives the next one.
    pub fn advance(self, event: SyncEvent) -> (next: Sync)
        ensures
            next@ == step(self@, event),
    {
        match (self, event) {
            (Sync::Probe { url, path }, SyncEvent::Directory(is_directory)) => {
                if is_directory {
                    Sync::Open { path }
                } else {
                    Sync::Clone { url, path }
                }
            },
            (Sync::Open { path }, SyncEvent::Git(answer)) => match answer {
                Ok(_) => Sync::Reset { path },
                Err(error) => Sync::Done(SyncOutcome::Failed(AppError::Git(error))),
            },
            (Sync::Reset { path }, SyncEvent::Git(answer)) => match answer {
                Ok(_) => Sync::Done(SyncOutcome::Updated(path)),
                Err(error) => Sync::Done(SyncOutcome::Failed(AppError::Git(error))),
            },
            (Sync::Clone { url, path }, SyncEvent::Git(answer)) => match answer {
                Ok(_) => Sync::Done(SyncOutcome::Cloned(path)),
                Err(error) => Sync::Done(SyncOutcome::Failed(AppError::Git(error))),
            },
            (state, _) => state,
        }
    }

    /// How the synchronisation has ended, once it has.
    pub fn outcome(self) -> (ended: Option<SyncOutcome>)
        ensures
            match ended {
                Some(outcome) => self@ == SyncView::Done(outcome@),
                None => !(self@ is Done),
            },
    {
        match self {
            Sync::Done(outcome) => Some(outcome),
            _ => None,
        }
    }
}

/// Whether a state is one that a synchronisation passes through once it has
/// found the local copy in place.
pub open spec fn updating(state: SyncView) -> bool {
    match state {
        SyncView::Open { .. } => true,
        SyncView::Reset { .. } => true,
        SyncView::Done(SyncOutcomeView::Updated(_)) => true,
        SyncView::Done(SyncOutcomeView::Failed(_)) => true,
        _ => false,
    }
}

/// A synchronisation that finds its path to be a directory never clones:
/// whatever the machine answers afterwards, it opens, resets, and ends as
/// updated or failed.
pub proof fn existing_copy_is_never_cloned(
    url: Seq<char>,
    path: Seq<char>,
    events: Seq<SyncEvent>,
)
    ensures
        updating(after(step(SyncView::Probe { url, path }, SyncEvent::Directory(true)), events)),
{
    updating_stays(SyncView::Open { path }, events);
}

/// Once a synchronisation is updating, it stays so whatever is answered.
proof fn updating_stays(state: SyncView, events: Seq<SyncEvent>)
    requires
        updating(state),
    ensures
        updating(after(state, events)),
    decreases events.len(),
{
    if events.len() > 0 {
        updating_stays(step(state, events[0]), events.drop_first());
    }
}

/// Synchronising a copy that is in place, with a repository that opens and
/// resets, ends as updated at the same path, however often it is done.
pub proof fn existing_copy_is_updated(url: Seq<char>, path: Seq<char>)
    ensures
        after(
            SyncView::Probe { url, path },
            seq![SyncEvent::Directory(true), SyncEvent::Git(Ok(())), SyncEvent::Git(Ok(()))],
        ) == SyncView::Done(SyncOutcomeView::Updated(path)),
{
    reveal_with_fuel(after, 4);
}

/// The path that a state speaks of; a failure speaks of none.
pub open spec fn path_of(state: SyncView) -> Option<Seq<char>> {
    match state {
        SyncView::Probe { url, path } => Some(path),
        SyncView::Open { path } => Some(path),
        SyncView::Reset { path } => Some(path),
        SyncView::Clone { url, path } => Some(path),
        SyncView::Done(SyncOutcomeView::Updated(path)) => Some(path),
        SyncView::Done(SyncOutcomeView::Cloned(path)) => Some(path),
        SyncView::Done(SyncOutcomeView::Failed(_)) => None,
    }
}

/// A synchronisation never turns to another path than the one it began with.
pub proof fn path_is_kept(state: SyncView, events: Seq<SyncEvent>)
    ensures
        path_of(after(state, events)) is Some ==> path_of(after(state, events)) == path_of(state),
    decreases events.len(),
{
    if events.len() > 0 {
        path_is_kept(step(state, events[0]), events.drop_first());
        if path_of(step(state, events[0])) is None {
            failed_stays_failed(step(state, events[0]), events.drop_first());
        }
    }
}

/// A synchronisation that has failed stays failed whatever is answered.
proof fn failed_stays_failed(state: SyncView, events: Seq<SyncEvent>)
    requires
        path_of(state) is None,
    ensures
        path_of(after(state, events)) is None,
    decreases events.len(),
{
    if events.len() > 0 {
        failed_stays_failed(step(state, events[0]), events.drop_first());
    }
}

/// Synchronising twice: where the first synchronisation has ended well,
/// whatever it did, and the second finds the copy in place and the
/// repository opens and resets, the second ends as updated, at the path at
/// which the first has ended. It does not clone again.
pub proof fn second_synchronisation_updates(
    url: Seq<char>,
    path: Seq<char>,
    first: Seq<SyncEvent>,
)
    requires
        after(SyncView::Probe { url, path }, first) is Done,
        path_of(after(SyncView::Probe { url, path }, first)) is Some,
    ensures
        after(
            SyncView::Probe { url, path },
            seq![SyncEvent::Directory(true), SyncEvent::Git(Ok(())), SyncEvent::Git(Ok(()))],
        ) == SyncView::Done(SyncOutcomeView::Updated(path)),
        path_of(after(SyncView::Probe { url, path }, first)) == Some(path),
{
    path_is_kept(SyncView::Probe { url, path }, first);
    existing_copy_is_updated(url, path);
}

/// A synchronisation that has ended stays as it is.
pub proof fn ended_stays_ended(outcome: SyncOutcomeView, events: Seq<SyncEvent>)
    ensures
        after(SyncView::Done(outcome), events) == SyncView::Done(outcome),
    decreases events.len(),
{
    if events.len() > 0 {
        ended_stays_ended(outcome, events.drop_first());
    }
}

impl SyncOutcome {
    /// Where the local copy lies, if the repository is there.
    pub fn path(&self) -> (place: Option<&String>)
        ensures
            match self@ {
                SyncOutcomeView::Updated(path) => place matches Some(found) && found@ == path,
                SyncOutcomeView::Cloned(path) => place matches Some(found) && found@ == path,
                SyncOutcomeView::Failed(_) => place is None,
            },
    {
        match self {
            SyncOutcome::Updated(path) => Some(path),
            SyncOutcome::Cloned(path) => Some(path),
            SyncOutcome::Failed(_) => None,
        }
    }
}

/// The first step for a repository whose URL has parsed: none where neither
/// the workspace nor the URL names the local copy.
pub open spec fn first_step(
    git_dir: Seq<char>,
    explicit: Option<Seq<char>>,
    url: RepositoryUrlView,
) -> Option<SyncView> {
    match local_identifier(explicit, url) {
        Some(identifier) => Some(
            SyncView::Probe { url: url.serialization, path: local_path(git_dir, identifier) },
        ),
        None => None,
    }
}

/// How the synchronisation of a repository ends before it has begun, where
/// the URL of the repository does not parse.
pub open spec fn unparsed(error: url::ParseError) -> SyncView {
    SyncView::Done(SyncOutcomeView::Failed(AppError::Url(error)))
}

/// Starts the synchronisation of a workspace's repository, if it is bound to
/// one. The URL of the repository is parsed first. Where it does not parse,
/// or names no local copy while the workspace names none either, the
/// synchronisation has failed before its first step: the run goes on.
pub fn locate(config: &Settings, workspace: &Workspace) -> (located: Option<Sync>)
    ensures
        match workspace@.vcs_repo {
            None => located is None,
            Some(repo) => located matches Some(sync) && match parsed_url(
                repo.repository_http_url,
            ) {
                Err(error) => sync@ == unparsed(error),
                Ok(url) => match first_step(config.repositories.git_dir@, repo.identifier, url) {
                    Some(first) => sync@ == first,
                    None => sync@ matches SyncView::Done(
                        SyncOutcomeView::Failed(AppError::General(_)),
                    ),
                },
            },
        },
{
    match &workspace.attributes.vcs_repo {
        None => None,
        Some(repo) => match parse_repository_url(repo.repository_http_url.as_str()) {
            Err(error) => Some(Sync::Done(SyncOutcome::Failed(error))),
            Ok(url) => match identifier(&repo.identifier, &url) {
                Some(name) => Some(clone(config, &url, name.as_str())),
                None => Some(
                    Sync::Done(
                        SyncOutcome::Failed(
                            AppError::General(general("the repository url has no path")),
                        ),
                    ),
                ),
            },
        },
    }
}

} // verus!
