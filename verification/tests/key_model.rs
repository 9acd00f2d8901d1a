use std::collections::{HashMap, HashSet};

use black_box::db_manager::lifecycle::set_discovery_mode;
use black_box::db_manager::{
    SQL_DELETE_ACL, SQL_DELETE_ELEMENTS, SQL_DELETE_MQTT_USER, SQL_DELETE_NODE, SQL_DELETE_UNREGISTERED,
    SQL_INSERT_ACL, SQL_INSERT_ELEMENT, SQL_INSERT_MQTT_USER, SQL_INSERT_NODE, SQL_INSERT_UNREGISTERED,
};
use black_box::nodes::{register_node, unregister_node, ElementType, NewElement, NewNode};
use black_box::plan::{DbPlan, SqlParam};

/// Keys with rows, per table, as the statements leave them.
type Keys = HashMap<&'static str, HashSet<String>>;

fn apply(keys: &mut Keys, plan: &DbPlan) {
    for st in &plan.statements {
        let key = match st.params.first() {
            Some(SqlParam::Text(s)) => s.clone(),
            _ => String::new(),
        };
        let (table, insert) = match st.sql.as_str() {
            s if s == SQL_INSERT_NODE => ("nodes", true),
            s if s == SQL_DELETE_NODE => ("nodes", false),
            s if s == SQL_INSERT_ELEMENT => ("elements", true),
            s if s == SQL_DELETE_ELEMENTS => ("elements", false),
            s if s == SQL_INSERT_MQTT_USER => ("users", true),
            s if s == SQL_DELETE_MQTT_USER => ("users", false),
            s if s == SQL_INSERT_ACL => ("acl", true),
            s if s == SQL_DELETE_ACL => ("acl", false),
            s if s == SQL_INSERT_UNREGISTERED => ("unregistered", true),
            s if s == SQL_DELETE_UNREGISTERED => ("unregistered", false),
            _ => continue,
        };
        let set = keys.entry(table).or_default();
        if insert {
            set.insert(key);
        } else {
            set.remove(&key);
        }
    }
}

fn start() -> Keys {
    let mut keys = Keys::new();
    for t in ["nodes", "elements", "users", "acl", "unregistered"] {
        keys.insert(t, HashSet::new());
    }
    keys.get_mut("nodes").unwrap().insert("regOTHER".to_string());
    keys.get_mut("users").unwrap().insert("blackbox".to_string());
    keys.get_mut("unregistered").unwrap().insert("client1".to_string());
    keys.get_mut("unregistered").unwrap().insert("client2".to_string());
    keys
}

#[test]
fn unregistering_undoes_registering() {
    let before = start();
    let mut keys = before.clone();
    let node = NewNode {
        identifier: "client1".to_string(),
        name: "Hall".to_string(),
        elements: vec![NewElement {
            address: "a1".to_string(),
            name: "Lamp".to_string(),
            element_type: ElementType::BasicSwitch,
            zone: String::new(),
        }],
    };
    let reg = register_node(node).unwrap();
    for p in &reg.plans {
        apply(&mut keys, p);
    }
    let id = reg.identifier.clone();
    for t in ["nodes", "elements", "users", "acl"] {
        assert!(keys[t].contains(&id), "{} holds the new node", t);
    }
    assert!(!keys["unregistered"].contains("client1"));
    assert!(keys["unregistered"].contains("client2"));

    apply(&mut keys, &unregister_node(&id));
    for t in ["nodes", "elements", "users", "acl"] {
        assert_eq!(keys[t], before[t], "{} is back as it was", t);
    }
    let mut expected = before["unregistered"].clone();
    expected.remove("client1");
    assert_eq!(keys["unregistered"], expected);
}

#[test]
fn discovery_off_undoes_on() {
    let before = start();
    let mut keys = before.clone();
    let on = set_discovery_mode(true, "unregistered").unwrap();
    apply(&mut keys, &on.users);
    apply(&mut keys, &on.acl);
    assert!(keys["users"].contains("unregistered_node"));
    assert!(keys["acl"].contains("unregistered_node"));
    let off = set_discovery_mode(false, "").unwrap();
    apply(&mut keys, &off.users);
    apply(&mut keys, &off.acl);
    assert_eq!(keys, before);
}
