use black_box::db_manager::lifecycle::{
    check_mqtt_user_exists, create_table_elements, create_table_mqtt_acl, create_table_mqtt_users,
    create_table_nodes, finish_discovery_mode, set_discovery_mode, set_external_interface_creds,
    set_mqtt_bb_creds, set_neutron_communicator_creds, table_exists,
};
use black_box::db_manager::{
    add_elements_to_element_table, add_node_to_mqtt_acl, add_node_to_mqtt_users, add_node_to_node_table,
    add_to_unregistered_table, create_node_object, edit_element_data_from_element_table, edit_node_info,
    edit_node_state, edit_node_state_global, remove_elements_from_elements_table, remove_from_mqtt_users,
    remove_from_unregistered_table, remove_node_from_mqtt_acl, remove_node_from_node_table,
    sanitize_db_from_blackbox, sanitize_db_from_mosquitto, Element,
};
use black_box::external_interface::{ElementInfoEdit, NodeInfoEdit};
use black_box::nodes::{unregister_node, ElementType};
use black_box::plan::{next_step, DbPlan, PlanProgress, SqlParam, StatementKind, StatementOutcome, Verdict};

fn param(p: &SqlParam) -> String {
    match p {
        SqlParam::Text(s) => format!("'{}'", s),
        SqlParam::Int(i) => format!("{}", i),
        SqlParam::Bool(b) => format!("{}", b),
    }
}

fn verdict(v: Verdict) -> &'static str {
    match v {
        Verdict::Continue => "continue",
        Verdict::Flag => "flag",
        Verdict::Abort => "abort",
        Verdict::Panic => "panic",
    }
}

/// Each statement as `sql | params | on error | on no rows`.
fn describe(p: &DbPlan) -> Vec<String> {
    p.statements
        .iter()
        .map(|s| {
            let ps: Vec<String> = s.params.iter().map(param).collect();
            format!("{} | {} | {} | {}", s.sql, ps.join(", "), verdict(s.on_error), verdict(s.on_no_rows))
        })
        .collect()
}

fn run(p: &DbPlan, outcomes: &[StatementOutcome]) -> PlanProgress {
    next_step(p, &outcomes.to_vec())
}

#[test]
fn empty_plan_succeeds_at_once() {
    let p = DbPlan { statements: Vec::new() };
    assert!(matches!(run(&p, &[]), PlanProgress::Finished(true)));
}

#[test]
fn plan_runs_statements_in_order() {
    let p = unregister_node("reg1");
    assert!(matches!(run(&p, &[]), PlanProgress::Run(0)));
    assert!(matches!(run(&p, &[StatementOutcome::Rows(1)]), PlanProgress::Run(1)));
    // Deleting nothing is no failure for these statements.
    assert!(matches!(run(&p, &[StatementOutcome::Rows(1), StatementOutcome::Rows(0)]), PlanProgress::Run(2)));
    let all = [StatementOutcome::Rows(1); 4];
    assert!(matches!(run(&p, &all), PlanProgress::Finished(true)));
}

#[test]
fn unregister_stops_at_first_error() {
    let p = unregister_node("reg1");
    assert!(matches!(run(&p, &[StatementOutcome::Rows(1), StatementOutcome::Failed]), PlanProgress::Finished(false)));
    assert!(matches!(run(&p, &[StatementOutcome::Failed]), PlanProgress::Finished(false)));
}

#[test]
fn unregister_node_statements() {
    assert_eq!(
        describe(&unregister_node("reg1")),
        vec![
            "DELETE FROM mqtt_users WHERE USERNAME = $1; | 'reg1' | abort | continue",
            "DELETE FROM mqtt_acl WHERE USERNAME = $1; | 'reg1' | abort | continue",
            "DELETE FROM blackbox_elements WHERE NODE_ID = $1; | 'reg1' | abort | continue",
            "DELETE FROM blackbox_nodes WHERE identifier = $1; | 'reg1' | abort | continue",
        ]
    );
}

#[test]
fn flagged_failure_goes_on_then_fails() {
    let node = NodeInfoEdit {
        identifier: "reg1".to_string(),
        name: "Kitchen".to_string(),
        category: "light".to_string(),
        elements: vec![ElementInfoEdit {
            address: "a1".to_string(),
            name: "Lamp".to_string(),
            category: String::new(),
            zone: String::new(),
        }],
    };
    let p = edit_node_info(&node);
    assert_eq!(
        describe(&p),
        vec![
            "UPDATE blackbox_nodes SET NAME = $1, CATEGORY = $2 WHERE identifier = $3; | 'Kitchen', 'light', 'reg1' | flag | continue",
            "UPDATE blackbox_elements SET NAME = $1 WHERE (node_id = $2 AND address = $3); | 'Lamp', 'reg1', 'a1' | flag | continue",
        ]
    );
    assert!(matches!(run(&p, &[StatementOutcome::Failed]), PlanProgress::Run(1)));
    assert!(matches!(run(&p, &[StatementOutcome::Failed, StatementOutcome::Rows(1)]), PlanProgress::Finished(false)));
    assert!(matches!(run(&p, &[StatementOutcome::Rows(1), StatementOutcome::Rows(0)]), PlanProgress::Finished(true)));
}

#[test]
fn panic_verdict_abandons() {
    let p = sanitize_db_from_blackbox();
    assert_eq!(
        describe(&p),
        vec!["DROP TABLE IF EXISTS blackbox_unregistered, blackbox_nodes, blackbox_elements; |  | panic | continue"]
    );
    assert!(matches!(run(&p, &[StatementOutcome::Failed]), PlanProgress::Abandon));
    assert!(matches!(run(&p, &[StatementOutcome::Rows(0)]), PlanProgress::Finished(true)));
    assert_eq!(
        describe(&sanitize_db_from_mosquitto()),
        vec!["DROP TABLE IF EXISTS mqtt_users, mqtt_acl; |  | panic | continue"]
    );
}

#[test]
fn unregistered_table_plans() {
    let p = add_to_unregistered_table("node7", "{\"x\":1}");
    assert_eq!(
        describe(&p),
        vec!["INSERT INTO blackbox_unregistered (client_id, elements_summary) VALUES ($1, $2) ON CONFLICT (client_id) DO NOTHING; | 'node7', '{\"x\":1}' | abort | abort"]
    );
    // A node already listed adds no row: not new.
    assert!(matches!(run(&p, &[StatementOutcome::Rows(0)]), PlanProgress::Finished(false)));
    assert!(matches!(run(&p, &[StatementOutcome::Rows(1)]), PlanProgress::Finished(true)));
    assert_eq!(
        describe(&remove_from_unregistered_table("node7")),
        vec!["DELETE FROM blackbox_unregistered WHERE CLIENT_ID = $1; | 'node7' | abort | continue"]
    );
}

#[test]
fn mqtt_user_and_acl_plans() {
    assert_eq!(
        describe(&add_node_to_mqtt_users("reg1", "HASH")),
        vec!["INSERT INTO mqtt_users (username, password, superuser) VALUES ($1, $2, $3); | 'reg1', 'HASH', false | abort | continue"]
    );
    assert_eq!(
        describe(&remove_from_mqtt_users("reg1")),
        vec!["DELETE FROM mqtt_users WHERE USERNAME = $1; | 'reg1' | abort | continue"]
    );
    assert_eq!(
        describe(&add_node_to_mqtt_acl(false, "reg1")),
        vec![
            "INSERT INTO mqtt_acl (username, topic, rw) VALUES ($1, $2, $3); | 'reg1', 'registered/%u', 3 | abort | abort",
            "INSERT INTO mqtt_acl (username, topic, rw) VALUES ($1, $2, $3); | 'reg1', 'registered', 4 | continue | continue",
            "INSERT INTO mqtt_acl (username, topic, rw) VALUES ($1, $2, $3); | 'reg1', 'registered', 1 | abort | abort",
        ]
    );
    assert_eq!(
        describe(&add_node_to_mqtt_acl(true, "unregistered_node")),
        vec![
            "INSERT INTO mqtt_acl (username, topic, rw) VALUES ($1, $2, $3); | 'unregistered_node', 'unregistered/%c', 3 | abort | abort",
            "INSERT INTO mqtt_acl (username, topic, rw) VALUES ($1, $2, $3); | 'unregistered_node', 'unregistered', 4 | continue | continue",
            "INSERT INTO mqtt_acl (username, topic, rw) VALUES ($1, $2, $3); | 'unregistered_node', 'unregistered', 1 | abort | abort",
        ]
    );
    assert_eq!(
        describe(&remove_node_from_mqtt_acl("reg1")),
        vec!["DELETE FROM mqtt_acl WHERE USERNAME = $1; | 'reg1' | abort | continue"]
    );
}

#[test]
fn node_table_plans() {
    let node = create_node_object("reg1", "Kitchen", "light", "[]");
    assert_eq!(node.id, 0);
    assert!(!node.state);
    assert_eq!(
        describe(&add_node_to_node_table(node)),
        vec!["INSERT INTO blackbox_nodes (identifier, name, category, elements_summary, state) VALUES ($1, $2, $3, $4, $5); | 'reg1', 'Kitchen', 'light', '[]', false | abort | abort"]
    );
    assert_eq!(
        describe(&remove_node_from_node_table("reg1")),
        vec!["DELETE FROM blackbox_nodes WHERE identifier = $1; | 'reg1' | abort | continue"]
    );
    assert_eq!(
        describe(&edit_node_state("reg1", true)),
        vec!["UPDATE blackbox_nodes SET state = $1 WHERE identifier = $2; | true, 'reg1' | abort | abort"]
    );
    assert_eq!(
        describe(&edit_node_state_global(false)),
        vec!["UPDATE blackbox_nodes SET state = $1; | false | abort | continue"]
    );
    // An empty nodes table is no failure.
    assert!(matches!(run(&edit_node_state_global(false), &[StatementOutcome::Rows(0)]), PlanProgress::Finished(true)));
    assert!(matches!(run(&edit_node_state_global(false), &[StatementOutcome::Failed]), PlanProgress::Finished(false)));
}

#[test]
fn element_table_plans() {
    let elements = vec![
        Element {
            node_id: "reg1".to_string(),
            address: "a1".to_string(),
            name: "Lamp".to_string(),
            element_type: ElementType::BasicSwitch,
            data: Some("false".to_string()),
        },
        Element {
            node_id: "reg1".to_string(),
            address: "a2".to_string(),
            name: "Sensor".to_string(),
            element_type: ElementType::DHT11,
            data: None,
        },
    ];
    let p = add_elements_to_element_table(elements);
    assert_eq!(
        describe(&p),
        vec![
            "INSERT INTO blackbox_elements (node_id, address, name, element_type, data) VALUES ($1, $2, $3, $4, $5); | 'reg1', 'a1', 'Lamp', 'BasicSwitch', 'false' | abort | continue",
            "INSERT INTO blackbox_elements (node_id, address, name, element_type, data) VALUES ($1, $2, $3, $4, $5); | 'reg1', 'a2', 'Sensor', 'DHT11', '' | abort | continue",
        ]
    );
    assert!(matches!(run(&p, &[StatementOutcome::Failed]), PlanProgress::Finished(false)));
    assert_eq!(
        describe(&remove_elements_from_elements_table("reg1")),
        vec!["DELETE FROM blackbox_elements WHERE NODE_ID = $1; | 'reg1' | abort | continue"]
    );
    assert_eq!(
        describe(&edit_element_data_from_element_table("reg1", "a1", "true")),
        vec!["UPDATE blackbox_elements SET DATA = $1 WHERE NODE_ID = $2 AND ADDRESS = $3; | 'true', 'reg1', 'a1' | abort | continue"]
    );
}

#[test]
fn table_plans() {
    assert_eq!(describe(&table_exists("blackbox_nodes")), vec!["SELECT 1 FROM blackbox_nodes LIMIT 1; |  | abort | continue"]);
    for p in [create_table_nodes(), create_table_elements(), create_table_mqtt_users(), create_table_mqtt_acl()] {
        assert_eq!(p.statements.len(), 1);
        assert!(p.statements[0].sql.starts_with("CREATE TABLE "));
        assert!(matches!(p.statements[0].on_error, Verdict::Abort));
    }
    assert!(create_table_nodes().statements[0].sql.starts_with("CREATE TABLE blackbox_nodes ("));
    assert!(create_table_mqtt_acl().statements[0].sql.contains("rw INTEGER NOT NULL"));
    let p = check_mqtt_user_exists("blackbox");
    assert_eq!(describe(&p), vec!["SELECT 1 FROM mqtt_users WHERE USERNAME='blackbox' LIMIT 1; |  | panic | abort"]);
    assert!(matches!(p.statements[0].kind, StatementKind::Query));
    assert!(matches!(run(&p, &[StatementOutcome::Rows(0)]), PlanProgress::Finished(false)));
    assert!(matches!(run(&p, &[StatementOutcome::Rows(1)]), PlanProgress::Finished(true)));
}

#[test]
fn hub_credentials_plan() {
    let c = set_mqtt_bb_creds(true, "pw").unwrap();
    assert!(c.hash.starts_with("PBKDF2$sha512$100000$"));
    let d = describe(&c.plan);
    assert_eq!(d.len(), 2);
    assert_eq!(d[0], "DELETE FROM mqtt_users WHERE USERNAME='blackbox'; |  | abort | continue");
    assert_eq!(
        d[1],
        format!("INSERT INTO mqtt_users (username, password, superuser) VALUES ($1, $2, $3); | 'blackbox', '{}', true | abort | continue", c.hash)
    );
    let c = set_mqtt_bb_creds(false, "pw").unwrap();
    assert!(c.plan.statements.is_empty());
}

#[test]
fn interface_credentials_plan() {
    let c = set_external_interface_creds(true, "pw").unwrap();
    let d = describe(&c.plan);
    assert_eq!(d.len(), 7);
    assert!(matches!(c.plan.statements[0].kind, StatementKind::Prepare));
    assert!(d[1].contains("'external_interface'") && d[1].contains(&c.hash) && d[1].contains("false"));
    let acl = "INSERT INTO mqtt_acl (username, topic, rw) VALUES ($1, $2, $3); | 'external_interface'";
    assert_eq!(d[2], format!("{}, 'external_interface/#', 3 | abort | continue", acl));
    assert_eq!(d[3], format!("{}, 'registered', 1 | abort | continue", acl));
    assert_eq!(d[4], format!("{}, 'registered', 4 | abort | continue", acl));
    assert_eq!(d[5], format!("{}, 'neutron_communicators', 2 | abort | continue", acl));
    assert_eq!(d[6], format!("{}, 'neutron_communicators/#', 2 | abort | continue", acl));
    assert!(set_external_interface_creds(false, "pw").unwrap().plan.statements.is_empty());
}

#[test]
fn communicator_credentials_plan() {
    let c = set_neutron_communicator_creds("neco1", "pw").unwrap();
    let d = describe(&c.plan);
    assert_eq!(d.len(), 6);
    let acl = "INSERT INTO mqtt_acl (username, topic, rw) VALUES ($1, $2, $3); | 'neco1'";
    assert_eq!(d[2], format!("{}, 'neutron_communicators/%u', 3 | abort | continue", acl));
    assert_eq!(d[3], format!("{}, 'neutron_communicators', 1 | abort | continue", acl));
    assert_eq!(d[4], format!("{}, 'neutron_communicators', 4 | abort | continue", acl));
    assert_eq!(d[5], format!("{}, 'external_interface', 2 | abort | continue", acl));
}

#[test]
fn discovery_switch() {
    let on = set_discovery_mode(true, "unregistered").unwrap();
    assert!(on.subscribe);
    assert!(describe(&on.users)[0].contains("'unregistered_node'"));
    assert_eq!(on.acl.statements.len(), 3);
    let off = set_discovery_mode(false, "").unwrap();
    assert!(!off.subscribe);
    assert_eq!(describe(&off.users), vec!["DELETE FROM mqtt_users WHERE USERNAME = $1; | 'unregistered_node' | abort | continue"]);
    assert_eq!(describe(&off.acl), vec!["DELETE FROM mqtt_acl WHERE USERNAME = $1; | 'unregistered_node' | abort | continue"]);

    let f = finish_discovery_mode(true, true, true);
    assert!(f.result);
    assert_eq!(
        describe(&f.plan)[0],
        "SET client_min_messages = ERROR; DROP TABLE IF EXISTS blackbox_unregistered; |  | panic | continue"
    );
    assert!(matches!(f.plan.statements[0].kind, StatementKind::Batch));
    assert!(f.plan.statements[1].sql.starts_with("CREATE TABLE blackbox_unregistered ("));
    let f = finish_discovery_mode(true, true, false);
    assert!(!f.result);
    assert!(f.plan.statements.is_empty());
    let f = finish_discovery_mode(false, false, true);
    assert!(!f.result);
    assert!(f.plan.statements.is_empty());
    let f = finish_discovery_mode(false, true, true);
    assert!(f.result);
    assert_eq!(f.plan.statements.len(), 1);
}
