//! What the statements the hub runs do to the keys its tables hold rows
//! for: node identifiers in the nodes and elements tables, user names in the
//! broker's users and access control tables, client ids of unregistered
//! nodes. Every insertion and deletion of those tables is keyed by its first
//! parameter.

use vstd::prelude::*;

use crate::plan::{SqlParamView, StatementView};

use super::{
    SQL_DELETE_ACL, SQL_DELETE_ELEMENTS, SQL_DELETE_MQTT_USER, SQL_DELETE_NODE, SQL_DELETE_UNREGISTERED,
    SQL_INSERT_ACL, SQL_INSERT_ELEMENT, SQL_INSERT_MQTT_USER, SQL_INSERT_NODE, SQL_INSERT_UNREGISTERED,
};

verus! {

/// The keys that have at least one row in each table.
pub struct TableKeys {
    pub nodes: Set<Seq<char>>,
    pub elements: Set<Seq<char>>,
    pub mqtt_users: Set<Seq<char>>,
    pub mqtt_acl: Set<Seq<char>>,
    pub unregistered: Set<Seq<char>>,
}

/// The key a statement inserts or deletes rows of: its first parameter.
pub open spec fn key_param(st: StatementView) -> Seq<char> {
    if st.params.len() > 0 {
        match st.params[0] {
            SqlParamView::Text(s) => s,
            _ => Seq::empty(),
        }
    } else {
        Seq::empty()
    }
}

/// The keys after a statement ran without error: an insertion adds a row
/// for its key, a deletion removes every row of its key; other statements
/// leave the keys as they are.
pub open spec fn apply_statement(k: TableKeys, st: StatementView) -> TableKeys {
    let key = key_param(st);
    let TableKeys { nodes, elements, mqtt_users, mqtt_acl, unregistered } = k;
    if st.sql == SQL_INSERT_NODE@ {
        TableKeys { nodes: nodes.insert(key), elements, mqtt_users, mqtt_acl, unregistered }
    } else if st.sql == SQL_DELETE_NODE@ {
        TableKeys { nodes: nodes.remove(key), elements, mqtt_users, mqtt_acl, unregistered }
    } else if st.sql == SQL_INSERT_ELEMENT@ {
        TableKeys { nodes, elements: elements.insert(key), mqtt_users, mqtt_acl, unregistered }
    } else if st.sql == SQL_DELETE_ELEMENTS@ {
        TableKeys { nodes, elements: elements.remove(key), mqtt_users, mqtt_acl, unregistered }
    } else if st.sql == SQL_INSERT_MQTT_USER@ {
        TableKeys { nodes, elements, mqtt_users: mqtt_users.insert(key), mqtt_acl, unregistered }
    } else if st.sql == SQL_DELETE_MQTT_USER@ {
        TableKeys { nodes, elements, mqtt_users: mqtt_users.remove(key), mqtt_acl, unregistered }
    } else if st.sql == SQL_INSERT_ACL@ {
        TableKeys { nodes, elements, mqtt_users, mqtt_acl: mqtt_acl.insert(key), unregistered }
    } else if st.sql == SQL_DELETE_ACL@ {
        TableKeys { nodes, elements, mqtt_users, mqtt_acl: mqtt_acl.remove(key), unregistered }
    } else if st.sql == SQL_INSERT_UNREGISTERED@ {
        TableKeys { nodes, elements, mqtt_users, mqtt_acl, unregistered: unregistered.insert(key) }
    } else if st.sql == SQL_DELETE_UNREGISTERED@ {
        TableKeys { nodes, elements, mqtt_users, mqtt_acl, unregistered: unregistered.remove(key) }
    } else {
        k
    }
}

/// The keys after every statement of a plan ran without error, in order.
pub open spec fn apply_plan(k: TableKeys, plan: Seq<StatementView>) -> TableKeys
    decreases plan.len(),
{
    if plan.len() == 0 {
        k
    } else {
        apply_plan(apply_statement(k, plan[0]), plan.drop_first())
    }
}

/// The keys after every statement of each plan ran without error, the
/// plans one after the other.
pub open spec fn apply_plans(k: TableKeys, plans: Seq<Seq<StatementView>>) -> TableKeys
    decreases plans.len(),
{
    if plans.len() == 0 {
        k
    } else {
        apply_plans(apply_plan(k, plans[0]), plans.drop_first())
    }
}

/// A plan of one statement.
pub proof fn lemma_apply_single(k: TableKeys, st: StatementView)
    ensures
        apply_plan(k, seq![st]) == apply_statement(k, st),
{
    reveal_with_fuel(apply_plan, 2);
    assert(seq![st].drop_first() =~= Seq::<StatementView>::empty());
}

/// A plan of three statements.
pub proof fn lemma_apply_three(k: TableKeys, a: StatementView, b: StatementView, c: StatementView)
    ensures
        apply_plan(k, seq![a, b, c]) == apply_statement(apply_statement(apply_statement(k, a), b), c),
{
    reveal_with_fuel(apply_plan, 4);
    assert(seq![a, b, c].drop_first() =~= seq![b, c]);
    assert(seq![b, c].drop_first() =~= seq![c]);
    assert(seq![c].drop_first() =~= Seq::<StatementView>::empty());
}

/// Running two plans one after the other is running their concatenation.
pub proof fn lemma_apply_plan_concat(k: TableKeys, a: Seq<StatementView>, b: Seq<StatementView>)
    ensures
        apply_plan(k, a + b) == apply_plan(apply_plan(k, a), b),
    decreases a.len(),
{
    if a.len() > 0 {
        assert((a + b).drop_first() =~= a.drop_first() + b);
        assert((a + b)[0] == a[0]);
        lemma_apply_plan_concat(apply_statement(k, a[0]), a.drop_first(), b);
    } else {
        assert(a + b =~= b);
    }
}

/// The keyed statements are told apart by their text.
pub proof fn lemma_keyed_sql_distinct()
    ensures
        SQL_INSERT_NODE@ != SQL_DELETE_NODE@,
        SQL_INSERT_NODE@ != SQL_INSERT_ELEMENT@,
        SQL_INSERT_NODE@ != SQL_DELETE_ELEMENTS@,
        SQL_INSERT_NODE@ != SQL_INSERT_MQTT_USER@,
        SQL_INSERT_NODE@ != SQL_DELETE_MQTT_USER@,
        SQL_INSERT_NODE@ != SQL_INSERT_ACL@,
        SQL_INSERT_NODE@ != SQL_DELETE_ACL@,
        SQL_INSERT_NODE@ != SQL_DELETE_UNREGISTERED@,
        SQL_DELETE_NODE@ != SQL_INSERT_ELEMENT@,
        SQL_DELETE_NODE@ != SQL_DELETE_ELEMENTS@,
        SQL_DELETE_NODE@ != SQL_INSERT_MQTT_USER@,
        SQL_DELETE_NODE@ != SQL_DELETE_MQTT_USER@,
        SQL_DELETE_NODE@ != SQL_INSERT_ACL@,
        SQL_DELETE_NODE@ != SQL_DELETE_ACL@,
        SQL_DELETE_NODE@ != SQL_DELETE_UNREGISTERED@,
        SQL_INSERT_ELEMENT@ != SQL_DELETE_ELEMENTS@,
        SQL_INSERT_ELEMENT@ != SQL_INSERT_MQTT_USER@,
        SQL_INSERT_ELEMENT@ != SQL_DELETE_MQTT_USER@,
        SQL_INSERT_ELEMENT@ != SQL_INSERT_ACL@,
        SQL_INSERT_ELEMENT@ != SQL_DELETE_ACL@,
        SQL_INSERT_ELEMENT@ != SQL_DELETE_UNREGISTERED@,
        SQL_DELETE_ELEMENTS@ != SQL_INSERT_MQTT_USER@,
        SQL_DELETE_ELEMENTS@ != SQL_DELETE_MQTT_USER@,
        SQL_DELETE_ELEMENTS@ != SQL_INSERT_ACL@,
        SQL_DELETE_ELEMENTS@ != SQL_DELETE_ACL@,
        SQL_DELETE_ELEMENTS@ != SQL_DELETE_UNREGISTERED@,
        SQL_INSERT_MQTT_USER@ != SQL_DELETE_MQTT_USER@,
        SQL_INSERT_MQTT_USER@ != SQL_INSERT_ACL@,
        SQL_INSERT_MQTT_USER@ != SQL_DELETE_ACL@,
        SQL_INSERT_MQTT_USER@ != SQL_DELETE_UNREGISTERED@,
        SQL_DELETE_MQTT_USER@ != SQL_INSERT_ACL@,
        SQL_DELETE_MQTT_USER@ != SQL_DELETE_ACL@,
        SQL_DELETE_MQTT_USER@ != SQL_DELETE_UNREGISTERED@,
        SQL_INSERT_ACL@ != SQL_DELETE_ACL@,
        SQL_INSERT_ACL@ != SQL_DELETE_UNREGISTERED@,
        SQL_DELETE_ACL@ != SQL_DELETE_UNREGISTERED@,
        SQL_INSERT_UNREGISTERED@ != SQL_DELETE_UNREGISTERED@,
{
    reveal_strlit("INSERT INTO blackbox_nodes (identifier, name, category, elements_summary, state) VALUES ($1, $2, $3, $4, $5);");
    assert(SQL_INSERT_NODE@ == "INSERT INTO blackbox_nodes (identifier, name, category, elements_summary, state) VALUES ($1, $2, $3, $4, $5);"@ && SQL_INSERT_NODE@.len() == 109);
    reveal_strlit("DELETE FROM blackbox_nodes WHERE identifier = $1;");
    assert(SQL_DELETE_NODE@ == "DELETE FROM blackbox_nodes WHERE identifier = $1;"@ && SQL_DELETE_NODE@.len() == 49);
    reveal_strlit("INSERT INTO blackbox_elements (node_id, address, name, element_type, data) VALUES ($1, $2, $3, $4, $5);");
    assert(SQL_INSERT_ELEMENT@ == "INSERT INTO blackbox_elements (node_id, address, name, element_type, data) VALUES ($1, $2, $3, $4, $5);"@ && SQL_INSERT_ELEMENT@.len() == 103);
    reveal_strlit("DELETE FROM blackbox_elements WHERE NODE_ID = $1;");
    assert(SQL_DELETE_ELEMENTS@ == "DELETE FROM blackbox_elements WHERE NODE_ID = $1;"@ && SQL_DELETE_ELEMENTS@.len() == 49);
    reveal_strlit("INSERT INTO mqtt_users (username, password, superuser) VALUES ($1, $2, $3);");
    assert(SQL_INSERT_MQTT_USER@ == "INSERT INTO mqtt_users (username, password, superuser) VALUES ($1, $2, $3);"@ && SQL_INSERT_MQTT_USER@.len() == 75);
    reveal_strlit("DELETE FROM mqtt_users WHERE USERNAME = $1;");
    assert(SQL_DELETE_MQTT_USER@ == "DELETE FROM mqtt_users WHERE USERNAME = $1;"@ && SQL_DELETE_MQTT_USER@.len() == 43);
    reveal_strlit("INSERT INTO mqtt_acl (username, topic, rw) VALUES ($1, $2, $3);");
    assert(SQL_INSERT_ACL@ == "INSERT INTO mqtt_acl (username, topic, rw) VALUES ($1, $2, $3);"@ && SQL_INSERT_ACL@.len() == 63);
    reveal_strlit("DELETE FROM mqtt_acl WHERE USERNAME = $1;");
    assert(SQL_DELETE_ACL@ == "DELETE FROM mqtt_acl WHERE USERNAME = $1;"@ && SQL_DELETE_ACL@.len() == 41);
    reveal_strlit("INSERT INTO blackbox_unregistered (client_id, elements_summary) VALUES ($1, $2) ON CONFLICT (client_id) DO NOTHING;");
    assert(SQL_INSERT_UNREGISTERED@ == "INSERT INTO blackbox_unregistered (client_id, elements_summary) VALUES ($1, $2) ON CONFLICT (client_id) DO NOTHING;"@ && SQL_INSERT_UNREGISTERED@.len() == 115);
    reveal_strlit("DELETE FROM blackbox_unregistered WHERE CLIENT_ID = $1;");
    assert(SQL_DELETE_UNREGISTERED@ == "DELETE FROM blackbox_unregistered WHERE CLIENT_ID = $1;"@ && SQL_DELETE_UNREGISTERED@.len() == 55);
    assert(SQL_DELETE_NODE@[21] != SQL_DELETE_ELEMENTS@[21]);
}

} // verus!
