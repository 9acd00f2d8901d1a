//! Registered and unregistered nodes: the messages sent to them, what
//! registering and unregistering a node does to the database.

use vstd::prelude::*;
use vstd::string::*;

use crate::credentials::{generate_mqtt_hash, generate_mqtt_password, generate_username, is_charset_string, PASS_LEN, USERNAME_LEN};
use crate::db_manager::lifecycle::is_hash_of;
use crate::db_manager::model::{
    apply_plan, apply_plans, apply_statement, lemma_apply_plan_concat, lemma_apply_single, lemma_apply_three, lemma_keyed_sql_distinct,
    TableKeys,
};
use crate::db_manager::{
    add_elements_to_element_table, add_node_to_mqtt_acl, add_node_to_mqtt_acl_spec,
    add_node_to_mqtt_users, add_node_to_mqtt_users_spec, add_node_to_node_table,
    add_node_to_node_table_spec, create_node_object, element_insert, remove_elements_from_elements_table,
    remove_elements_from_elements_table_spec, remove_from_mqtt_users, remove_from_mqtt_users_spec,
    remove_from_unregistered_table, remove_from_unregistered_table_spec, remove_node_from_mqtt_acl,
    remove_node_from_mqtt_acl_spec, remove_node_from_node_table, remove_node_from_node_table_spec,
};
use crate::messages::{OutgoingMessage, OutgoingMessageView};
use crate::mqtt_broker_manager::UNREGISTERED_TOPIC;
use crate::plan::{concat_plans, DbPlan, StatementView};

pub mod commands;
pub mod structs;

pub use commands::{
    announce_blackbox_online, announce_blackbox_online_messages, announce_discovery, node_message,
    restart_node, send_credentials, send_node_command, unregistered_notify,
};
pub use structs::{
    element_type_name, element_type_name_spec, Command, CommandType, Element, ElementSummaryListItem,
    ElementType, Node, UnregisteredNodeItem,
};

verus! {

/// Prefix of the identifiers given to registered nodes.
pub const REGISTERED_NODE_PREFIX: &'static str = "reg";

/// The data an element of each type starts with, so that the external
/// interface has something to show.
pub open spec fn default_element_data_spec(element_type: ElementType) -> Seq<char> {
    match element_type {
        ElementType::BasicSwitch => "false"@,
        ElementType::DHT11 => "{\"temp\": \"0\", \"hum\": \"0\"}"@,
        ElementType::Thermostat => "0"@,
    }
}

/// The data an element of the given type starts with.
pub fn default_element_data(element_type: ElementType) -> (d: String)
    ensures
        d@ == default_element_data_spec(element_type),
{
    match element_type {
        ElementType::BasicSwitch => String::from_str("false"),
        ElementType::DHT11 => String::from_str("{\"temp\": \"0\", \"hum\": \"0\"}"),
        ElementType::Thermostat => String::from_str("0"),
    }
}

/// An element of a node the external interface asks to register.
pub struct NewElement {
    pub address: String,
    pub name: String,
    pub element_type: ElementType,
    pub zone: String,
}

/// A node the external interface asks to register: its identifier while
/// unregistered, the name to give it and its elements.
pub struct NewNode {
    pub identifier: String,
    pub name: String,
    pub elements: Vec<NewElement>,
}

/// What registering a node takes: the identifier and password it gets, the
/// message that hands them to it, and the database plans to run after that
/// message is sent, in order, each whatever the others' outcomes.
pub struct Registration {
    pub identifier: String,
    pub password: String,
    /// The hash of the password, as stored for the broker.
    pub hash: String,
    pub credentials: OutgoingMessage,
    pub plans: Vec<DbPlan>,
}

/// The element row stored for an element of a newly registered node: it
/// belongs to the new identifier and starts with its type's default data.
pub open spec fn new_element_insert(identifier: Seq<char>, e: NewElement) -> StatementView {
    crate::plan::must_succeed(
        crate::db_manager::SQL_INSERT_ELEMENT@,
        seq![
            crate::db_manager::tv(identifier),
            crate::db_manager::tv(e.address@),
            crate::db_manager::tv(e.name@),
            crate::db_manager::tv(element_type_name_spec(e.element_type)),
            crate::db_manager::tv(default_element_data_spec(e.element_type)),
        ],
    )
}

fn element_rows(identifier: &str, elements: Vec<NewElement>) -> (rows: Vec<crate::db_manager::Element>)
    ensures
        rows@.map_values(|e: crate::db_manager::Element| element_insert(e)) == elements@.map_values(
            |e: NewElement| new_element_insert(identifier@, e),
        ),
{
    let ghost all = elements@;
    let mut rest = elements;
    let mut rows: Vec<crate::db_manager::Element> = Vec::new();
    let n = rest.len();
    let mut i: usize = 0;
    while i < n
        invariant
            n == all.len(),
            i <= n,
            rest@ == all.subrange(i as int, n as int),
            rows@.map_values(|e: crate::db_manager::Element| element_insert(e)) == all.subrange(0, i as int).map_values(
                |e: NewElement| new_element_insert(identifier@, e),
            ),
        decreases n - i,
    {
        assert(rest@[0] == all[i as int]);
        let e = rest.remove(0);
        let ghost ev = e;
        let data = default_element_data(e.element_type);
        let row = crate::db_manager::Element {
            node_id: identifier.to_owned(),
            address: e.address,
            name: e.name,
            element_type: e.element_type,
            data: Some(data),
        };
        assert(element_insert(row).params == new_element_insert(identifier@, ev).params);
        assert(element_insert(row) == new_element_insert(identifier@, ev));
        let ghost before = rows@.map_values(|e: crate::db_manager::Element| element_insert(e));
        rows.push(row);
        assert(rows@.map_values(|e: crate::db_manager::Element| element_insert(e)) =~= before.push(element_insert(row)));
        assert(all.subrange(0, i + 1) =~= all.subrange(0, i as int).push(all[i as int]));
        assert(all.subrange(0, i + 1).map_values(|e: NewElement| new_element_insert(identifier@, e)) =~= all.subrange(0, i as int).map_values(|e: NewElement| new_element_insert(identifier@, e)).push(new_element_insert(identifier@, ev)));
        assert(rest@ =~= all.subrange(i + 1, n as int));
        i = i + 1;
    }
    assert(all.subrange(0, n as int) =~= all);
    rows
}

/// The plans that store a newly registered node, in order: its elements, the
/// node (offline, with empty category and element summary), its MQTT user
/// with the hash of its password, its access control entries; then the
/// node leaves the table of unregistered nodes.
pub open spec fn registration_plans(node: NewNode, identifier: Seq<char>, hash: Seq<char>) -> Seq<Seq<StatementView>> {
    seq![
        node.elements@.map_values(|e: NewElement| new_element_insert(identifier, e)),
        seq![
            crate::plan::must_change(
                crate::db_manager::SQL_INSERT_NODE@,
                seq![
                    crate::db_manager::tv(identifier),
                    crate::db_manager::tv(node.name@),
                    crate::db_manager::tv(""@),
                    crate::db_manager::tv(""@),
                    crate::plan::SqlParamView::Bool(false),
                ],
            ),
        ],
        add_node_to_mqtt_users_spec(identifier, hash),
        add_node_to_mqtt_acl_spec(false, identifier),
        remove_from_unregistered_table_spec(node.identifier@),
    ]
}

/// Registers a node: it gets the identifier `reg<random user name>` and a
/// random password, sent to it on its unregistered topic as
/// `<identifier>:<password>`; then its elements, the node itself and its
/// MQTT account are stored and it leaves the unregistered list. `None`
/// when the random generator failed.
pub fn register_node(node: NewNode) -> (r: Option<Registration>)
    ensures
        r matches Some(reg) ==> {
            &&& reg.identifier@.take(REGISTERED_NODE_PREFIX@.len() as int) == REGISTERED_NODE_PREFIX@
            &&& is_charset_string(reg.identifier@.skip(REGISTERED_NODE_PREFIX@.len() as int), USERNAME_LEN as nat)
            &&& is_charset_string(reg.password@, PASS_LEN as nat)
            &&& reg.credentials@ == node_message(
                UNREGISTERED_TOPIC@ + "/"@ + node.identifier@,
                CommandType::ImplementCreds,
                reg.identifier@ + ":"@ + reg.password@,
                2,
            )
            &&& is_hash_of(reg.hash@, reg.password@)
            &&& reg.plans@.map_values(|p: DbPlan| p@) == registration_plans(node, reg.identifier@, reg.hash@)
        },
{
    let password = match generate_mqtt_password() {
        Some(p) => p,
        None => {
            return None;
        },
    };
    let hash = match generate_mqtt_hash(password.as_str()) {
        Some(h) => h,
        None => {
            return None;
        },
    };
    let username = match generate_username() {
        Some(u) => u,
        None => {
            return None;
        },
    };
    let mut identifier = String::from_str(REGISTERED_NODE_PREFIX);
    identifier.append(username.as_str());
    assert(identifier@.skip(REGISTERED_NODE_PREFIX@.len() as int) =~= username@);
    assert(identifier@.take(REGISTERED_NODE_PREFIX@.len() as int) =~= REGISTERED_NODE_PREFIX@);
    let credentials = send_credentials(node.identifier.as_str(), identifier.as_str(), password.as_str());
    let ghost nv = node;
    let NewNode { identifier: unreged_id, name, elements } = node;
    let mut plans: Vec<DbPlan> = Vec::new();
    plans.push(add_elements_to_element_table(element_rows(identifier.as_str(), elements)));
    plans.push(add_node_to_node_table(create_node_object(identifier.as_str(), name.as_str(), "", "")));
    plans.push(add_node_to_mqtt_users(identifier.as_str(), hash.as_str()));
    plans.push(add_node_to_mqtt_acl(false, identifier.as_str()));
    plans.push(remove_from_unregistered_table(unreged_id.as_str()));
    assert(plans@.map_values(|p: DbPlan| p@) =~= registration_plans(nv, identifier@, hash@));
    Some(Registration { identifier, password, hash, credentials, plans })
}

/// Unregistering a node removes, in order, its MQTT user, its access
/// control entries, its elements and the node itself, stopping at the
/// first removal the database rejects.
pub open spec fn unregister_node_spec(node_identifier: Seq<char>) -> Seq<StatementView> {
    remove_from_mqtt_users_spec(node_identifier) + remove_node_from_mqtt_acl_spec(node_identifier)
        + remove_elements_from_elements_table_spec(node_identifier) + remove_node_from_node_table_spec(
        node_identifier,
    )
}

/// Removes the node's information from the database, which keeps it from
/// using the broker; succeeds when every removal did.
pub fn unregister_node(node_identifier: &str) -> (p: DbPlan)
    ensures
        p@ == unregister_node_spec(node_identifier@),
{
    let p = concat_plans(remove_from_mqtt_users(node_identifier), remove_node_from_mqtt_acl(node_identifier));
    let p = concat_plans(p, remove_elements_from_elements_table(node_identifier));
    concat_plans(p, remove_node_from_node_table(node_identifier))
}

/// Unregistering a node succeeds exactly when each of the four removals
/// was run and the database reported no error for it.
pub proof fn lemma_unregister_node_succeeds_iff_no_error(
    node_identifier: Seq<char>,
    outcomes: Seq<crate::plan::StatementOutcome>,
)
    ensures
        crate::plan::succeeded(unregister_node_spec(node_identifier), outcomes) <==> (outcomes.len()
            >= 4 && forall|i: int| 0 <= i < 4 ==> #[trigger] outcomes[i] is Rows),
{
    let plan = unregister_node_spec(node_identifier);
    assert(plan.len() == 4);
    crate::plan::lemma_succeeded_iff_all_continue(plan, outcomes);
    assert forall|i: int| 0 <= i < 4 implies plan[i].on_error == crate::plan::Verdict::Abort
        && plan[i].on_no_rows == crate::plan::Verdict::Continue by {
    }
    if crate::plan::succeeded(plan, outcomes) {
        assert(3 < outcomes.len()) by {
            let _ = plan[3];
        }
        assert forall|i: int| 0 <= i < 4 implies #[trigger] outcomes[i] is Rows by {
            let _ = plan[i];
        }
    }
    if outcomes.len() >= 4 && forall|i: int| 0 <= i < 4 ==> #[trigger] outcomes[i] is Rows {
        assert forall|j: int| 0 <= j < plan.len() implies j < outcomes.len()
            && crate::plan::reaction(#[trigger] plan[j], outcomes[j]) is Continue by {
            assert(outcomes[j] is Rows);
        }
    }
}

/// Storing the rows of new elements adds a row for the node's identifier
/// to the elements table, when there is any element, and touches nothing
/// else.
proof fn lemma_apply_element_rows(k: TableKeys, identifier: Seq<char>, elems: Seq<NewElement>)
    ensures
        apply_plan(k, elems.map_values(|e: NewElement| new_element_insert(identifier, e))) == (TableKeys {
            nodes: k.nodes,
            elements: if elems.len() > 0 {
                k.elements.insert(identifier)
            } else {
                k.elements
            },
            mqtt_users: k.mqtt_users,
            mqtt_acl: k.mqtt_acl,
            unregistered: k.unregistered,
        }),
    decreases elems.len(),
{
    let plan = elems.map_values(|e: NewElement| new_element_insert(identifier, e));
    if elems.len() > 0 {
        lemma_keyed_sql_distinct();
        let k1 = apply_statement(k, plan[0]);
        assert(plan[0] == new_element_insert(identifier, elems[0]));
        assert(k1.elements == k.elements.insert(identifier));
        assert(plan.drop_first() =~= elems.drop_first().map_values(|e: NewElement| new_element_insert(identifier, e)));
        lemma_apply_element_rows(k1, identifier, elems.drop_first());
        assert(k1.elements.insert(identifier) =~= k1.elements);
    }
}

/// Unregistering a node undoes registering it. Once every statement of
/// the registration plans has run without error, the nodes, users and
/// access control tables (and the elements table, when the node has
/// elements) hold rows for the new identifier and the node's client id is
/// no longer listed as unregistered; once the statements that unregister
/// it have run too, no table holds a row for the identifier, and every
/// other key is where it was before registration.
pub proof fn lemma_unregister_undoes_register(keys: TableKeys, node: NewNode, identifier: Seq<char>, hash: Seq<char>)
    ensures
        ({
            let registered = apply_plans(keys, registration_plans(node, identifier, hash));
            let after = apply_plan(registered, unregister_node_spec(identifier));
            &&& registered.nodes == keys.nodes.insert(identifier)
            &&& registered.elements == (if node.elements@.len() > 0 {
                keys.elements.insert(identifier)
            } else {
                keys.elements
            })
            &&& registered.mqtt_users == keys.mqtt_users.insert(identifier)
            &&& registered.mqtt_acl == keys.mqtt_acl.insert(identifier)
            &&& registered.unregistered == keys.unregistered.remove(node.identifier@)
            &&& after.nodes == keys.nodes.remove(identifier)
            &&& after.elements == keys.elements.remove(identifier)
            &&& after.mqtt_users == keys.mqtt_users.remove(identifier)
            &&& after.mqtt_acl == keys.mqtt_acl.remove(identifier)
            &&& after.unregistered == keys.unregistered.remove(node.identifier@)
        }),
{
    lemma_keyed_sql_distinct();
    let plans = registration_plans(node, identifier, hash);
    reveal_with_fuel(apply_plans, 6);
    let k0 = apply_plan(keys, plans[0]);
    lemma_apply_element_rows(keys, identifier, node.elements@);
    let k1 = apply_plan(k0, plans[1]);
    lemma_apply_single(k0, plans[1][0]);
    assert(plans[1] =~= seq![plans[1][0]]);
    let k2 = apply_plan(k1, plans[2]);
    lemma_apply_single(k1, plans[2][0]);
    assert(plans[2] =~= seq![plans[2][0]]);
    let k3 = apply_plan(k2, plans[3]);
    let acl = plans[3];
    assert(acl =~= seq![acl[0], acl[1], acl[2]]);
    lemma_apply_three(k2, acl[0], acl[1], acl[2]);
    let k4 = apply_plan(k3, plans[4]);
    lemma_apply_single(k3, plans[4][0]);
    assert(plans[4] =~= seq![plans[4][0]]);
    assert(plans.drop_first().drop_first().drop_first().drop_first().drop_first() =~= Seq::<Seq<StatementView>>::empty());
    assert(apply_plans(keys, plans) == k4);
    assert(k3.mqtt_acl =~= keys.mqtt_acl.insert(identifier));

    let un = unregister_node_spec(identifier);
    let s0 = remove_from_mqtt_users_spec(identifier);
    let s1 = remove_node_from_mqtt_acl_spec(identifier);
    let s2 = remove_elements_from_elements_table_spec(identifier);
    let s3 = remove_node_from_node_table_spec(identifier);
    lemma_apply_plan_concat(k4, s0 + s1 + s2, s3);
    lemma_apply_plan_concat(k4, s0 + s1, s2);
    lemma_apply_plan_concat(k4, s0, s1);
    lemma_apply_single(k4, s0[0]);
    assert(s0 =~= seq![s0[0]]);
    let u0 = apply_plan(k4, s0);
    lemma_apply_single(u0, s1[0]);
    assert(s1 =~= seq![s1[0]]);
    let u1 = apply_plan(u0, s1);
    lemma_apply_single(u1, s2[0]);
    assert(s2 =~= seq![s2[0]]);
    let u2 = apply_plan(u1, s2);
    lemma_apply_single(u2, s3[0]);
    assert(s3 =~= seq![s3[0]]);
    let after = apply_plan(k4, un);
    assert(after.nodes =~= keys.nodes.remove(identifier));
    assert(after.elements =~= keys.elements.remove(identifier));
    assert(after.mqtt_users =~= keys.mqtt_users.remove(identifier));
    assert(after.mqtt_acl =~= keys.mqtt_acl.remove(identifier));
}

/// A registered node gets the access rights of a registered node: its
/// access control plan grants, under its new identifier, read and write on
/// `registered/%u` (its own topic), subscription to `registered` and reading
/// `registered`; no entry names an unregistered topic.
pub proof fn lemma_registration_acl_on_registered_topics(node: NewNode, identifier: Seq<char>, hash: Seq<char>)
    ensures
        registration_plans(node, identifier, hash)[3].len() == 3,
        forall|k: int| 0 <= k < 3 ==> {
            let st = #[trigger] registration_plans(node, identifier, hash)[3][k];
            &&& st.sql == crate::db_manager::SQL_INSERT_ACL@
            &&& st.params.len() == 3
            &&& st.params[0] == crate::plan::SqlParamView::Text(identifier)
        },
        registration_plans(node, identifier, hash)[3][0].params[1] == crate::plan::SqlParamView::Text("registered/%u"@),
        registration_plans(node, identifier, hash)[3][0].params[2] == crate::plan::SqlParamView::Int(3),
        registration_plans(node, identifier, hash)[3][1].params[1] == crate::plan::SqlParamView::Text("registered"@),
        registration_plans(node, identifier, hash)[3][1].params[2] == crate::plan::SqlParamView::Int(4),
        registration_plans(node, identifier, hash)[3][2].params[1] == crate::plan::SqlParamView::Text("registered"@),
        registration_plans(node, identifier, hash)[3][2].params[2] == crate::plan::SqlParamView::Int(1),
{
}

/// What registration stores, plan by plan: one element row per element of
/// the request, in order, each under the new identifier with its address,
/// name, type name and its type's starting data; the node under the new
/// identifier with the requested name, empty category and element summary,
/// offline, which must add a row; the MQTT user named by the new identifier
/// with the hash, not a superuser; its access control entries; and the
/// removal of the node's former client id from the unregistered nodes.
pub proof fn lemma_registration_stores_node(node: NewNode, identifier: Seq<char>, hash: Seq<char>)
    ensures
        registration_plans(node, identifier, hash).len() == 5,
        registration_plans(node, identifier, hash)[0].len() == node.elements@.len(),
        forall|k: int| 0 <= k < node.elements@.len() ==> {
            let st = #[trigger] registration_plans(node, identifier, hash)[0][k];
            let e = node.elements@[k];
            &&& st.kind == crate::plan::StatementKind::Execute
            &&& st.sql == crate::db_manager::SQL_INSERT_ELEMENT@
            &&& st.params == seq![
                crate::plan::SqlParamView::Text(identifier),
                crate::plan::SqlParamView::Text(e.address@),
                crate::plan::SqlParamView::Text(e.name@),
                crate::plan::SqlParamView::Text(element_type_name_spec(e.element_type)),
                crate::plan::SqlParamView::Text(default_element_data_spec(e.element_type)),
            ]
        },
        registration_plans(node, identifier, hash)[1].len() == 1,
        registration_plans(node, identifier, hash)[1][0].sql == crate::db_manager::SQL_INSERT_NODE@,
        registration_plans(node, identifier, hash)[1][0].params == seq![
            crate::plan::SqlParamView::Text(identifier),
            crate::plan::SqlParamView::Text(node.name@),
            crate::plan::SqlParamView::Text(Seq::empty()),
            crate::plan::SqlParamView::Text(Seq::empty()),
            crate::plan::SqlParamView::Bool(false),
        ],
        registration_plans(node, identifier, hash)[1][0].on_no_rows == crate::plan::Verdict::Abort,
        registration_plans(node, identifier, hash)[2].len() == 1,
        registration_plans(node, identifier, hash)[2][0].sql == crate::db_manager::SQL_INSERT_MQTT_USER@,
        registration_plans(node, identifier, hash)[2][0].params == seq![
            crate::plan::SqlParamView::Text(identifier),
            crate::plan::SqlParamView::Text(hash),
            crate::plan::SqlParamView::Bool(false),
        ],
        registration_plans(node, identifier, hash)[4].len() == 1,
        registration_plans(node, identifier, hash)[4][0].sql == crate::db_manager::SQL_DELETE_UNREGISTERED@,
        registration_plans(node, identifier, hash)[4][0].params == seq![crate::plan::SqlParamView::Text(node.identifier@)],
{
    reveal_strlit("");
    assert(""@ =~= Seq::<char>::empty());
    assert forall|k: int| 0 <= k < node.elements@.len() implies {
        let st = #[trigger] registration_plans(node, identifier, hash)[0][k];
        let e = node.elements@[k];
        &&& st.kind == crate::plan::StatementKind::Execute
        &&& st.sql == crate::db_manager::SQL_INSERT_ELEMENT@
        &&& st.params == seq![
            crate::plan::SqlParamView::Text(identifier),
            crate::plan::SqlParamView::Text(e.address@),
            crate::plan::SqlParamView::Text(e.name@),
            crate::plan::SqlParamView::Text(element_type_name_spec(e.element_type)),
            crate::plan::SqlParamView::Text(default_element_data_spec(e.element_type)),
        ]
    } by {
        assert(registration_plans(node, identifier, hash)[0][k] == new_element_insert(identifier, node.elements@[k]));
    }
}

} // verus!
