use clean_workspace::error::AppError;
use clean_workspace::report::{
    build, save, Report, Save, UnlistedVariables, Variable, BIN_VERSION, REPORT_VERSION,
};
use clean_workspace::settings::{Query, QueryVariable, Repositories, Settings};
use clean_workspace::workspace::{Attributes, Workspace, WorkspaceVariables};

fn settings(output: &str) -> Settings {
    Settings {
        log: "info".to_string(),
        output: output.to_string(),
        query: Query { variables: None },
        repositories: Repositories { git_dir: "/repos".to_string() },
    }
}

fn workspace(id: &str) -> Workspace {
    Workspace {
        id: id.to_string(),
        attributes: Attributes { name: format!("name-{}", id), vcs_repo: None },
    }
}

fn disk_full() -> std::io::Error {
    std::io::Error::new(std::io::ErrorKind::Other, "disk full")
}

fn json_failure() -> serde_json::Error {
    serde_json::from_str::<serde_json::Value>("{").unwrap_err()
}

fn first_step() -> Save {
    save(&settings("out/report.json"), Ok("{}".to_string()))
}

#[test]
fn default_report_is_blank() {
    let report = Report::default();
    assert_eq!(report.report_version, "0.1.0");
    assert_eq!(report.report_version, REPORT_VERSION);
    assert_eq!(report.bin_version, BIN_VERSION);
    assert_eq!(report.query, None);
    assert!(report.workspaces.is_empty());
    assert!(report.missing_repositories.is_empty());
    assert!(report.unlisted_variables.is_empty());
}

#[test]
fn report_is_built_from_the_lists_as_they_are() {
    let query = Query {
        variables: Some(vec![QueryVariable { key: "mode".to_string(), value: "prod".to_string() }]),
    };
    let unlisted = UnlistedVariables {
        workspace: WorkspaceVariables { workspace: workspace("ws-2"), variables: vec![] },
        unlisted_variables: vec![Variable { id: "var-1".to_string(), key: "owner".to_string() }],
    };
    let report = build(
        Some(query.clone()),
        vec![workspace("ws-2"), workspace("ws-1")],
        vec![workspace("ws-3")],
        vec![unlisted.clone()],
    );
    assert_eq!(
        report,
        Report {
            report_version: "0.1.0".to_string(),
            bin_version: BIN_VERSION.to_string(),
            query: Some(query),
            workspaces: vec![workspace("ws-2"), workspace("ws-1")],
            missing_repositories: vec![workspace("ws-3")],
            unlisted_variables: vec![unlisted],
        }
    );
}

#[test]
fn building_twice_gives_the_same_report() {
    let once = build(None, vec![workspace("ws-1")], vec![workspace("ws-2")], vec![]);
    let twice = build(None, vec![workspace("ws-1")], vec![workspace("ws-2")], vec![]);
    assert_eq!(once, twice);
    assert_eq!(format!("{:?}", once), format!("{:?}", twice));
}

#[test]
fn report_is_written_beside_its_destination_first() {
    assert!(matches!(
        first_step(),
        Save::Write { path, contents, destination }
            if path == "out/report.json.tmp" && contents == "{}" && destination == "out/report.json"
    ));
}

#[test]
fn written_report_is_moved_into_place() {
    let state = first_step().advance(Ok(()));
    assert!(matches!(
        &state,
        Save::Rename { from, to } if from == "out/report.json.tmp" && to == "out/report.json"
    ));
    assert!(matches!(state.advance(Ok(())).outcome(), Some(Ok(()))));
}

#[test]
fn report_that_is_no_text_is_not_saved() {
    let state = save(&settings("report.json"), Err(json_failure()));
    assert!(matches!(state.outcome(), Some(Err(AppError::Json(_)))));
}

#[test]
fn failed_write_leaves_no_draft() {
    let state = first_step().advance(Err(disk_full()));
    assert!(matches!(
        &state,
        Save::Discard { path, reason: AppError::Io(_) } if path == "out/report.json.tmp"
    ));
    assert!(state.outcome().is_none());
    let state = first_step().advance(Err(disk_full())).advance(Ok(()));
    match state.outcome() {
        Some(Err(AppError::Io(error))) => assert_eq!(error.to_string(), "disk full"),
        other => panic!("unexpected outcome: {:?}", other),
    }
}

#[test]
fn failed_move_leaves_no_draft() {
    let state = first_step().advance(Ok(())).advance(Err(disk_full()));
    assert!(matches!(
        &state,
        Save::Discard { path, reason: AppError::Io(_) } if path == "out/report.json.tmp"
    ));
    let state = state.advance(Err(disk_full()));
    match state.outcome() {
        Some(Err(AppError::Io(error))) => assert_eq!(error.to_string(), "disk full"),
        other => panic!("unexpected outcome: {:?}", other),
    }
}

#[test]
fn ended_saving_stays_ended() {
    let state = first_step().advance(Ok(())).advance(Ok(())).advance(Err(disk_full()));
    assert!(matches!(state.outcome(), Some(Ok(()))));
}

#[test]
fn copy_of_a_report_is_the_report() {
    let unlisted = UnlistedVariables {
        workspace: WorkspaceVariables { workspace: workspace("ws-2"), variables: vec![] },
        unlisted_variables: vec![Variable { id: "var-1".to_string(), key: "owner".to_string() }],
    };
    let report = build(
        Some(Query { variables: Some(vec![]) }),
        vec![workspace("ws-2"), workspace("ws-1")],
        vec![workspace("ws-3")],
        vec![unlisted],
    );
    assert_eq!(report.clone(), report);
}
