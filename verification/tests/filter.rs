use clean_workspace::filter::{is_met, is_retained, select, variable};
use clean_workspace::settings::{Query, QueryVariable};
use clean_workspace::variable::{Attributes, Variable};
use clean_workspace::workspace;
use clean_workspace::workspace::{Workspace, WorkspaceVariables};

fn cloud_variable(id: &str, key: &str, value: Option<&str>) -> Variable {
    Variable {
        id: id.to_string(),
        attributes: Attributes {
            key: key.to_string(),
            value: value.map(|text| text.to_string()),
            category: "terraform".to_string(),
            sensitive: value.is_none(),
        },
    }
}

fn entry(id: &str, variables: Vec<Variable>) -> WorkspaceVariables {
    WorkspaceVariables {
        workspace: Workspace {
            id: id.to_string(),
            attributes: workspace::Attributes { name: format!("name-{}", id), vcs_repo: None },
        },
        variables,
    }
}

fn predicate(key: &str, value: &str) -> QueryVariable {
    QueryVariable { key: key.to_string(), value: value.to_string() }
}

fn fleet() -> Vec<WorkspaceVariables> {
    vec![
        entry(
            "ws-1",
            vec![
                cloud_variable("var-1", "mode", Some("prod")),
                cloud_variable("var-2", "team", Some("core")),
            ],
        ),
        entry("ws-2", vec![cloud_variable("var-3", "mode", Some("prod"))]),
        entry(
            "ws-3",
            vec![
                cloud_variable("var-4", "team", Some("core")),
                cloud_variable("var-5", "mode", Some("prod")),
                cloud_variable("var-6", "mode", Some("test")),
            ],
        ),
        entry("ws-4", vec![]),
    ]
}

fn ids(entries: &Vec<WorkspaceVariables>) -> Vec<String> {
    entries.iter().map(|entry| entry.workspace.id.clone()).collect()
}

#[test]
fn query_without_predicates_selects_all() {
    let all = fleet();
    assert_eq!(select(&all, &Query { variables: None }), all);
    assert_eq!(select(&all, &Query { variables: Some(vec![]) }), all);
}

#[test]
fn empty_fleet_stays_empty() {
    let query = Query { variables: Some(vec![predicate("mode", "prod")]) };
    assert_eq!(select(&vec![], &query), vec![]);
}

#[test]
fn one_predicate_keeps_the_workspaces_that_meet_it() {
    let query = Query { variables: Some(vec![predicate("mode", "prod")]) };
    let kept = select(&fleet(), &query);
    assert_eq!(ids(&kept), vec!["ws-1", "ws-2", "ws-3"]);
    assert_eq!(kept[0], fleet()[0]);
}

#[test]
fn every_predicate_has_to_be_met() {
    let query =
        Query { variables: Some(vec![predicate("mode", "prod"), predicate("team", "core")]) };
    assert_eq!(ids(&select(&fleet(), &query)), vec!["ws-1", "ws-3"]);
}

#[test]
fn removing_the_only_match_drops_the_workspace() {
    let query =
        Query { variables: Some(vec![predicate("mode", "prod"), predicate("team", "core")]) };
    let with = entry(
        "ws-1",
        vec![
            cloud_variable("var-1", "mode", Some("prod")),
            cloud_variable("var-2", "team", Some("core")),
        ],
    );
    let without = entry("ws-1", vec![cloud_variable("var-1", "mode", Some("prod"))]);
    assert!(is_retained(&with, &query));
    assert!(!is_retained(&without, &query));
    assert_eq!(select(&vec![without], &query), vec![]);
}

#[test]
fn a_second_match_keeps_the_workspace() {
    let query = Query { variables: Some(vec![predicate("mode", "prod")]) };
    let twice = entry(
        "ws-1",
        vec![
            cloud_variable("var-1", "mode", Some("prod")),
            cloud_variable("var-2", "mode", Some("prod")),
        ],
    );
    let once = entry("ws-1", vec![cloud_variable("var-2", "mode", Some("prod"))]);
    assert!(is_retained(&twice, &query));
    assert!(is_retained(&once, &query));
}

#[test]
fn values_match_exactly() {
    let variables = vec![cloud_variable("var-1", "mode", Some("production"))];
    assert!(!is_met(&predicate("mode", "prod"), &variables));
    assert!(!is_met(&predicate("mode", "Production"), &variables));
    assert!(!is_met(&predicate("mod", "production"), &variables));
    assert!(is_met(&predicate("mode", "production"), &variables));
}

#[test]
fn key_and_value_have_to_match_in_one_variable() {
    let variables = vec![
        cloud_variable("var-1", "mode", Some("core")),
        cloud_variable("var-2", "team", Some("prod")),
    ];
    assert!(!is_met(&predicate("mode", "prod"), &variables));
}

#[test]
fn a_withheld_value_matches_nothing() {
    let variables = vec![cloud_variable("var-1", "token", None)];
    assert!(!is_met(&predicate("token", ""), &variables));
}

#[test]
fn filtering_in_place_gives_the_selection() {
    let query = Query { variables: Some(vec![predicate("team", "core")]) };
    let mut all = fleet();
    variable(&mut all, &query);
    assert_eq!(all, select(&fleet(), &query));
    assert_eq!(ids(&all), vec!["ws-1", "ws-3"]);
}
