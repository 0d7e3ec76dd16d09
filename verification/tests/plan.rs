use clean_workspace::error::AppError;
use clean_workspace::plan::{begin, finding, has_id, plan, record, Finding};
use clean_workspace::repo::SyncOutcome;
use clean_workspace::report::{Variable, BIN_VERSION};
use clean_workspace::scan::{scan, SourceFile};
use clean_workspace::settings::{Query, QueryVariable};
use clean_workspace::variable;
use clean_workspace::workspace::{Attributes, Workspace, WorkspaceVariables};

fn cloud_variable(id: &str, key: &str) -> variable::Variable {
    variable::Variable {
        id: id.to_string(),
        attributes: variable::Attributes {
            key: key.to_string(),
            value: None,
            category: "env".to_string(),
            sensitive: true,
        },
    }
}

fn entry(id: &str, keys: &[&str]) -> WorkspaceVariables {
    WorkspaceVariables {
        workspace: Workspace {
            id: id.to_string(),
            attributes: Attributes { name: id.to_string(), vcs_repo: None },
        },
        variables: keys
            .iter()
            .enumerate()
            .map(|(i, key)| cloud_variable(&format!("{}-var-{}", id, i), key))
            .collect(),
    }
}

fn scanned(text: &str) -> Finding {
    Finding::Scanned(scan(&vec![SourceFile {
        path: "variables.tf".to_string(),
        contents: Some(text.to_string()),
    }]))
}

fn missing() -> Finding {
    Finding::Missing(AppError::Git(git2::Error::from_str("unreachable remote")))
}

fn ids(workspaces: &Vec<Workspace>) -> Vec<&str> {
    workspaces.iter().map(|workspace| workspace.id.as_str()).collect()
}

#[test]
fn report_begins_blank() {
    let report = begin(&Query { variables: None });
    assert_eq!(report.query, None);
    assert_eq!(report.bin_version, BIN_VERSION);
    assert!(report.workspaces.is_empty());
    assert!(report.missing_repositories.is_empty());
    assert!(report.unlisted_variables.is_empty());
}

#[test]
fn report_echoes_the_query() {
    let query = Query {
        variables: Some(vec![QueryVariable { key: "mode".to_string(), value: "prod".to_string() }]),
    };
    assert_eq!(begin(&query).query, Some(query));
    let empty = Query { variables: Some(vec![]) };
    assert_eq!(begin(&empty).query, Some(empty));
}

#[test]
fn unbound_workspace_is_listed_alone() {
    let mut report = begin(&Query { variables: None });
    assert!(record(&mut report, &entry("ws-1", &["region"]), &Finding::Unbound));
    assert_eq!(ids(&report.workspaces), vec!["ws-1"]);
    assert!(report.missing_repositories.is_empty());
    assert!(report.unlisted_variables.is_empty());
}

#[test]
fn missing_repository_gives_no_unlisted_entry() {
    let mut report = begin(&Query { variables: None });
    assert!(record(&mut report, &entry("W1", &["region", "secret_key"]), &missing()));
    assert!(report.workspaces.is_empty());
    assert_eq!(ids(&report.missing_repositories), vec!["W1"]);
    assert!(report.unlisted_variables.is_empty());
}

#[test]
fn scanned_workspace_is_listed_with_its_unlisted_variables() {
    let mut report = begin(&Query { variables: None });
    let cloud = entry("W1", &["region", "instance_type", "secret_key"]);
    let found = scanned("variable \"region\" {}\nvariable \"instance_type\" {}\n");
    assert!(record(&mut report, &cloud, &found));
    assert_eq!(ids(&report.workspaces), vec!["W1"]);
    assert!(report.missing_repositories.is_empty());
    assert_eq!(report.unlisted_variables.len(), 1);
    assert_eq!(report.unlisted_variables[0].workspace, cloud);
    assert_eq!(
        report.unlisted_variables[0].unlisted_variables,
        vec![Variable { id: "W1-var-2".to_string(), key: "secret_key".to_string() }]
    );
}

#[test]
fn workspaces_are_reported_in_the_order_of_the_run() {
    let mut report = begin(&Query { variables: None });
    assert!(record(&mut report, &entry("ws-3", &["a"]), &scanned("variable \"a\" {}\n")));
    assert!(record(&mut report, &entry("ws-1", &[]), &missing()));
    assert!(record(&mut report, &entry("ws-2", &["b"]), &Finding::Unbound));
    assert!(record(&mut report, &entry("ws-5", &["c"]), &scanned("broken {")));
    assert!(record(&mut report, &entry("ws-4", &[]), &missing()));
    assert_eq!(ids(&report.workspaces), vec!["ws-3", "ws-2", "ws-5"]);
    assert_eq!(ids(&report.missing_repositories), vec!["ws-1", "ws-4"]);
    let reconciled: Vec<&str> = report
        .unlisted_variables
        .iter()
        .map(|entry| entry.workspace.workspace.id.as_str())
        .collect();
    assert_eq!(reconciled, vec!["ws-3", "ws-5"]);
    assert!(report.unlisted_variables[0].unlisted_variables.is_empty());
    assert_eq!(report.unlisted_variables[1].unlisted_variables.len(), 1);
}

#[test]
fn workspace_is_reported_once() {
    let mut report = begin(&Query { variables: None });
    assert!(record(&mut report, &entry("ws-1", &["a"]), &missing()));
    assert!(!record(&mut report, &entry("ws-1", &["a"]), &Finding::Unbound));
    assert!(!record(&mut report, &entry("ws-1", &["a"]), &scanned("variable {}\n")));
    assert!(record(&mut report, &entry("ws-2", &["a"]), &Finding::Unbound));
    assert!(!record(&mut report, &entry("ws-2", &["a"]), &missing()));
    assert_eq!(ids(&report.workspaces), vec!["ws-2"]);
    assert_eq!(ids(&report.missing_repositories), vec!["ws-1"]);
    assert!(report.unlisted_variables.is_empty());
}

#[test]
fn same_inputs_give_the_same_report() {
    let run = || {
        let mut report = begin(&Query { variables: None });
        record(&mut report, &entry("ws-1", &["a", "b"]), &scanned("variable \"a\" {}\n"));
        record(&mut report, &entry("ws-2", &[]), &missing());
        report
    };
    assert_eq!(run(), run());
}

#[test]
fn list_is_searched_by_identifier() {
    let list = vec![entry("ws-1", &[]).workspace, entry("ws-2", &[]).workspace];
    assert!(has_id(&list, &"ws-2".to_string()));
    assert!(!has_id(&list, &"ws-3".to_string()));
    assert!(!has_id(&vec![], &"ws-1".to_string()));
}

#[test]
fn run_reports_each_workspace_in_its_list() {
    let entries = vec![
        entry("W1", &["region", "instance_type", "secret_key"]),
        entry("W2", &["region"]),
        entry("W3", &[]),
        entry("W4", &["owner"]),
    ];
    let findings = vec![
        scanned("variable \"region\" {}\nvariable \"instance_type\" {}\n"),
        missing(),
        Finding::Unbound,
        scanned("variable \"owner\" {}\n"),
    ];
    let report = plan(&Query { variables: None }, &entries, &findings);
    assert_eq!(report.query, None);
    assert_eq!(ids(&report.workspaces), vec!["W1", "W3", "W4"]);
    assert_eq!(ids(&report.missing_repositories), vec!["W2"]);
    assert_eq!(report.unlisted_variables.len(), 2);
    assert_eq!(report.unlisted_variables[0].workspace, entries[0]);
    assert_eq!(
        report.unlisted_variables[0].unlisted_variables,
        vec![Variable { id: "W1-var-2".to_string(), key: "secret_key".to_string() }]
    );
    assert_eq!(report.unlisted_variables[1].workspace, entries[3]);
    assert!(report.unlisted_variables[1].unlisted_variables.is_empty());
}

#[test]
fn run_is_the_recording_of_each_finding() {
    let entries = vec![entry("ws-1", &["a"]), entry("ws-2", &["b"]), entry("ws-1", &["c"])];
    let findings = || vec![Finding::Unbound, missing(), missing()];
    let mut step_by_step = begin(&Query { variables: None });
    let found = findings();
    for (entry, finding) in entries.iter().zip(found.iter()) {
        record(&mut step_by_step, entry, finding);
    }
    let at_once = plan(&Query { variables: None }, &entries, &findings());
    assert_eq!(at_once, step_by_step);
    assert_eq!(ids(&at_once.workspaces), vec!["ws-1"]);
    assert_eq!(ids(&at_once.missing_repositories), vec!["ws-2"]);
}

#[test]
fn run_of_a_failed_clone_gives_no_unlisted_entry() {
    let entries = vec![entry("W1", &["region", "instance_type", "secret_key"])];
    let report = plan(&Query { variables: None }, &entries, &vec![missing()]);
    assert!(report.workspaces.is_empty());
    assert_eq!(ids(&report.missing_repositories), vec!["W1"]);
    assert!(report.unlisted_variables.is_empty());
}

#[test]
fn workspace_without_a_finding_is_not_reported() {
    let entries = vec![entry("ws-1", &[]), entry("ws-2", &[])];
    let report = plan(&Query { variables: None }, &entries, &vec![Finding::Unbound]);
    assert_eq!(ids(&report.workspaces), vec!["ws-1"]);
    assert!(report.missing_repositories.is_empty());
    let report = plan(&Query { variables: None }, &vec![], &vec![Finding::Unbound]);
    assert!(report.workspaces.is_empty());
}

#[test]
fn workspace_without_repository_is_unbound() {
    let files = vec![SourceFile {
        path: "variables.tf".to_string(),
        contents: Some("variable \"a\" {}\n".to_string()),
    }];
    assert!(matches!(finding(None, &files), Finding::Unbound));
}

#[test]
fn failed_synchronisation_means_a_missing_repository() {
    let files = vec![SourceFile {
        path: "variables.tf".to_string(),
        contents: Some("variable \"a\" {}\n".to_string()),
    }];
    let failed = SyncOutcome::Failed(AppError::Git(git2::Error::from_str("unreachable remote")));
    match finding(Some(failed), &files) {
        Finding::Missing(AppError::Git(error)) => assert_eq!(error.message(), "unreachable remote"),
        other => panic!("unexpected finding: {:?}", other),
    }
}

#[test]
fn local_copy_is_scanned() {
    let files = vec![
        SourceFile {
            path: "variables.tf".to_string(),
            contents: Some("variable \"a\" {}\n".to_string()),
        },
        SourceFile { path: "broken.tf".to_string(), contents: Some("variable {".to_string()) },
    ];
    for outcome in [
        SyncOutcome::Updated("/repos/infra".to_string()),
        SyncOutcome::Cloned("/repos/infra".to_string()),
    ] {
        match finding(Some(outcome), &files) {
            Finding::Scanned(scanned) => {
                assert_eq!(scanned.declared.keys(), &vec!["a".to_string()]);
                assert_eq!(scanned.warnings.len(), 1);
                assert_eq!(scanned.warnings[0].path, "broken.tf");
            }
            other => panic!("unexpected finding: {:?}", other),
        }
    }
}
