//! The hub's database: the tables it keeps (nodes, elements, unregistered
//! nodes) and the tables of the Mosquitto authentication plugin (users and
//! access control entries). Every operation is a `DbPlan`: the statements to
//! run and what their outcomes mean.

use vstd::prelude::*;
use vstd::string::*;

use crate::nodes::{element_type_name, element_type_name_spec, ElementType};
use crate::plan::{
    must_change, must_succeed, params1, params2, params3, params5, single, statement,
    statement_view, text_param, push_statement, no_params, DbPlan, SqlParam, SqlParamView, StatementKind,
    StatementView, Verdict,
};

pub mod lifecycle;
pub mod listing;
pub mod model;

verus! {

/// MQTT user name of unregistered nodes.
pub const MQTT_USERNAME_UNREGISTERED: &'static str = "unregistered_node";

/// Access right: read and write.
pub const MQTT_READ_WRITE: i32 = 3;

/// Access right: write only.
pub const MQTT_WRITE_ONLY: i32 = 2;

/// Access right: subscribe only.
pub const MQTT_SUBSCRIBE_ONLY: i32 = 4;

/// Access right: read only.
pub const MQTT_READ_ONLY: i32 = 1;

pub const SQL_INSERT_MQTT_USER: &'static str = "INSERT INTO mqtt_users (username, password, superuser) VALUES ($1, $2, $3);";
pub const SQL_DELETE_MQTT_USER: &'static str = "DELETE FROM mqtt_users WHERE USERNAME = $1;";
pub const SQL_INSERT_ACL: &'static str = "INSERT INTO mqtt_acl (username, topic, rw) VALUES ($1, $2, $3);";
pub const SQL_DELETE_ACL: &'static str = "DELETE FROM mqtt_acl WHERE USERNAME = $1;";
pub const SQL_INSERT_UNREGISTERED: &'static str = "INSERT INTO blackbox_unregistered (client_id, elements_summary) VALUES ($1, $2) ON CONFLICT (client_id) DO NOTHING;";
pub const SQL_DELETE_UNREGISTERED: &'static str = "DELETE FROM blackbox_unregistered WHERE CLIENT_ID = $1;";
pub const SQL_INSERT_NODE: &'static str = "INSERT INTO blackbox_nodes (identifier, name, category, elements_summary, state) VALUES ($1, $2, $3, $4, $5);";
pub const SQL_DELETE_NODE: &'static str = "DELETE FROM blackbox_nodes WHERE identifier = $1;";
pub const SQL_UPDATE_NODE_STATE: &'static str = "UPDATE blackbox_nodes SET state = $1 WHERE identifier = $2;";
pub const SQL_UPDATE_ALL_NODE_STATES: &'static str = "UPDATE blackbox_nodes SET state = $1;";
pub const SQL_UPDATE_NODE_INFO: &'static str = "UPDATE blackbox_nodes SET NAME = $1, CATEGORY = $2 WHERE identifier = $3;";
pub const SQL_UPDATE_ELEMENT_NAME: &'static str = "UPDATE blackbox_elements SET NAME = $1 WHERE (node_id = $2 AND address = $3);";
pub const SQL_INSERT_ELEMENT: &'static str = "INSERT INTO blackbox_elements (node_id, address, name, element_type, data) VALUES ($1, $2, $3, $4, $5);";
pub const SQL_DELETE_ELEMENTS: &'static str = "DELETE FROM blackbox_elements WHERE NODE_ID = $1;";
pub const SQL_UPDATE_ELEMENT_DATA: &'static str = "UPDATE blackbox_elements SET DATA = $1 WHERE NODE_ID = $2 AND ADDRESS = $3;";
pub const SQL_DROP_BLACKBOX_TABLES: &'static str = "DROP TABLE IF EXISTS blackbox_unregistered, blackbox_nodes, blackbox_elements;";
pub const SQL_DROP_MOSQUITTO_TABLES: &'static str = "DROP TABLE IF EXISTS mqtt_users, mqtt_acl;";

/// A node as stored in the nodes table.
pub struct Node {
    pub id: i64,
    pub identifier: String,
    pub name: String,
    pub category: String,
    pub elements_summary: String,
    pub state: bool,
}

/// An element as stored in the elements table.
pub struct Element {
    pub node_id: String,
    pub address: String,
    pub name: String,
    pub element_type: ElementType,
    pub data: Option<String>,
}

/// An unregistered node and its element summary.
pub struct UnregisteredNodeItem {
    pub client_id: String,
    pub elements_summary: String,
}

/// One entry of a node's element summary.
pub struct ElementSummaryListItem {
    pub address: String,
    pub element_type: ElementType,
}

/// A node that is not stored yet (its id is 0) and is offline.
pub fn create_node_object(identifier: &str, name: &str, category: &str, elements_summary: &str) -> (n: Node)
    ensures
        n.id == 0,
        n.identifier@ == identifier@,
        n.name@ == name@,
        n.category@ == category@,
        n.elements_summary@ == elements_summary@,
        !n.state,
{
    Node {
        id: 0,
        identifier: identifier.to_owned(),
        name: name.to_owned(),
        elements_summary: elements_summary.to_owned(),
        category: category.to_owned(),
        state: false,
    }
}

/// Text parameter value.
pub open spec fn tv(s: Seq<char>) -> SqlParamView {
    SqlParamView::Text(s)
}

/// Adds an entry for an unregistered node, unless one with the same client
/// id is there; the plan fails when no row was added.
pub open spec fn add_to_unregistered_table_spec(client_id: Seq<char>, elements_summary: Seq<char>) -> Seq<StatementView> {
    seq![must_change(SQL_INSERT_UNREGISTERED@, seq![tv(client_id), tv(elements_summary)])]
}

/// Adds an entry to the unregistered nodes table; succeeds only when a new
/// row was added.
pub fn add_to_unregistered_table(client_id: &str, elements_summary: &str) -> (p: DbPlan)
    ensures
        p@ == add_to_unregistered_table_spec(client_id@, elements_summary@),
{
    single(
        statement(
            StatementKind::Execute,
            String::from_str(SQL_INSERT_UNREGISTERED),
            params2(text_param(client_id), text_param(elements_summary)),
            Verdict::Abort,
            Verdict::Abort,
        ),
    )
}

/// Removes the unregistered nodes table's rows of `client_id`.
pub open spec fn remove_from_unregistered_table_spec(client_id: Seq<char>) -> Seq<StatementView> {
    seq![must_succeed(SQL_DELETE_UNREGISTERED@, seq![tv(client_id)])]
}

/// Removes the rows of `client_id` from the unregistered nodes table;
/// succeeds when the database reports no error.
pub fn remove_from_unregistered_table(client_id: &str) -> (p: DbPlan)
    ensures
        p@ == remove_from_unregistered_table_spec(client_id@),
{
    single(
        statement(
            StatementKind::Execute,
            String::from_str(SQL_DELETE_UNREGISTERED),
            params1(text_param(client_id)),
            Verdict::Abort,
            Verdict::Continue,
        ),
    )
}

/// Adds an MQTT user that is not a superuser.
pub open spec fn add_node_to_mqtt_users_spec(username: Seq<char>, hash: Seq<char>) -> Seq<StatementView> {
    seq![must_succeed(SQL_INSERT_MQTT_USER@, seq![tv(username), tv(hash), SqlParamView::Bool(false)])]
}

/// Adds the MQTT user `username` with the password hash `hash`; succeeds
/// when the database reports no error.
pub fn add_node_to_mqtt_users(username: &str, hash: &str) -> (p: DbPlan)
    ensures
        p@ == add_node_to_mqtt_users_spec(username@, hash@),
{
    single(
        statement(
            StatementKind::Execute,
            String::from_str(SQL_INSERT_MQTT_USER),
            params3(text_param(username), text_param(hash), SqlParam::Bool(false)),
            Verdict::Abort,
            Verdict::Continue,
        ),
    )
}

/// Removes the MQTT users named `username`.
pub open spec fn remove_from_mqtt_users_spec(username: Seq<char>) -> Seq<StatementView> {
    seq![must_succeed(SQL_DELETE_MQTT_USER@, seq![tv(username)])]
}

/// Removes the MQTT users named `username`; succeeds when the database
/// reports no error, whether or not a row was there.
pub fn remove_from_mqtt_users(username: &str) -> (p: DbPlan)
    ensures
        p@ == remove_from_mqtt_users_spec(username@),
{
    single(
        statement(
            StatementKind::Execute,
            String::from_str(SQL_DELETE_MQTT_USER),
            params1(text_param(username)),
            Verdict::Abort,
            Verdict::Continue,
        ),
    )
}

/// The topic a node may publish and subscribe to: `unregistered/%c` (the
/// client id) for an unregistered node, `registered/%u` (the user name)
/// for a registered one.
pub open spec fn acl_self_topic(unregistered: bool) -> Seq<char> {
    if unregistered {
        "unregistered/%c"@
    } else {
        "registered/%u"@
    }
}

/// The topic a node may only listen to.
pub open spec fn acl_global_topic(unregistered: bool) -> Seq<char> {
    if unregistered {
        "unregistered"@
    } else {
        "registered"@
    }
}

/// An access control entry.
pub open spec fn acl_entry(username: Seq<char>, topic: Seq<char>, rw: i32) -> Seq<SqlParamView> {
    seq![tv(username), tv(topic), SqlParamView::Int(rw)]
}

/// Three access control entries for a node: read and write on its own
/// topic (must add a row), subscribe on the common topic (any outcome), read
/// on the common topic (must add a row).
pub open spec fn add_node_to_mqtt_acl_spec(unregistered: bool, username: Seq<char>) -> Seq<StatementView> {
    seq![
        must_change(SQL_INSERT_ACL@, acl_entry(username, acl_self_topic(unregistered), MQTT_READ_WRITE)),
        statement_view(
            StatementKind::Execute,
            SQL_INSERT_ACL@,
            acl_entry(username, acl_global_topic(unregistered), MQTT_SUBSCRIBE_ONLY),
            Verdict::Continue,
            Verdict::Continue,
        ),
        must_change(SQL_INSERT_ACL@, acl_entry(username, acl_global_topic(unregistered), MQTT_READ_ONLY)),
    ]
}

/// An access control entry as a statement.
fn acl_insert(username: &str, topic: &str, rw: i32, on_error: Verdict, on_no_rows: Verdict) -> (st: crate::plan::Statement)
    ensures
        st@ == statement_view(StatementKind::Execute, SQL_INSERT_ACL@, acl_entry(username@, topic@, rw), on_error, on_no_rows),
{
    statement(
        StatementKind::Execute,
        String::from_str(SQL_INSERT_ACL),
        params3(text_param(username), text_param(topic), SqlParam::Int(rw)),
        on_error,
        on_no_rows,
    )
}

/// Adds the access control entries of a node (`unregistered` tells which
/// kind of node it is).
pub fn add_node_to_mqtt_acl(unregistered: bool, username: &str) -> (p: DbPlan)
    ensures
        p@ == add_node_to_mqtt_acl_spec(unregistered, username@),
{
    let (topic_self, topic_global) = if unregistered {
        ("unregistered/%c", "unregistered")
    } else {
        ("registered/%u", "registered")
    };
    let p = single(acl_insert(username, topic_self, MQTT_READ_WRITE, Verdict::Abort, Verdict::Abort));
    let p = push_statement(p, acl_insert(username, topic_global, MQTT_SUBSCRIBE_ONLY, Verdict::Continue, Verdict::Continue));
    let p = push_statement(p, acl_insert(username, topic_global, MQTT_READ_ONLY, Verdict::Abort, Verdict::Abort));
    assert(p@ =~= add_node_to_mqtt_acl_spec(unregistered, username@));
    p
}

/// Removes every access control entry of `username`.
pub open spec fn remove_node_from_mqtt_acl_spec(username: Seq<char>) -> Seq<StatementView> {
    seq![must_succeed(SQL_DELETE_ACL@, seq![tv(username)])]
}

/// Removes every access control entry of `username`; succeeds when the
/// database reports no error.
pub fn remove_node_from_mqtt_acl(username: &str) -> (p: DbPlan)
    ensures
        p@ == remove_node_from_mqtt_acl_spec(username@),
{
    single(
        statement(
            StatementKind::Execute,
            String::from_str(SQL_DELETE_ACL),
            params1(text_param(username)),
            Verdict::Abort,
            Verdict::Continue,
        ),
    )
}

/// Adds a node to the nodes table; the plan fails when no row was added.
pub open spec fn add_node_to_node_table_spec(node: Node) -> Seq<StatementView> {
    seq![
        must_change(
            SQL_INSERT_NODE@,
            seq![
                tv(node.identifier@),
                tv(node.name@),
                tv(node.category@),
                tv(node.elements_summary@),
                SqlParamView::Bool(node.state),
            ],
        ),
    ]
}

/// Adds a registered node to the nodes table; succeeds when a row was added.
pub fn add_node_to_node_table(node: Node) -> (p: DbPlan)
    ensures
        p@ == add_node_to_node_table_spec(node),
{
    single(
        statement(
            StatementKind::Execute,
            String::from_str(SQL_INSERT_NODE),
            params5(
                SqlParam::Text(node.identifier),
                SqlParam::Text(node.name),
                SqlParam::Text(node.category),
                SqlParam::Text(node.elements_summary),
                SqlParam::Bool(node.state),
            ),
            Verdict::Abort,
            Verdict::Abort,
        ),
    )
}

/// Removes the node `node_identifier` from the nodes table.
pub open spec fn remove_node_from_node_table_spec(node_identifier: Seq<char>) -> Seq<StatementView> {
    seq![must_succeed(SQL_DELETE_NODE@, seq![tv(node_identifier)])]
}

/// Removes the node `node_identifier` from the nodes table; succeeds when
/// the database reports no error.
pub fn remove_node_from_node_table(node_identifier: &str) -> (p: DbPlan)
    ensures
        p@ == remove_node_from_node_table_spec(node_identifier@),
{
    single(
        statement(
            StatementKind::Execute,
            String::from_str(SQL_DELETE_NODE),
            params1(text_param(node_identifier)),
            Verdict::Abort,
            Verdict::Continue,
        ),
    )
}

/// Sets the state of the node `node_identifier`; fails when no row changed.
pub open spec fn edit_node_state_spec(node_identifier: Seq<char>, new_state: bool) -> Seq<StatementView> {
    seq![must_change(SQL_UPDATE_NODE_STATE@, seq![SqlParamView::Bool(new_state), tv(node_identifier)])]
}

/// Sets the state of the node `node_identifier` to `new_state`; succeeds
/// when a row was changed.
pub fn edit_node_state(node_identifier: &str, new_state: bool) -> (p: DbPlan)
    ensures
        p@ == edit_node_state_spec(node_identifier@, new_state),
{
    single(
        statement(
            StatementKind::Execute,
            String::from_str(SQL_UPDATE_NODE_STATE),
            params2(SqlParam::Bool(new_state), text_param(node_identifier)),
            Verdict::Abort,
            Verdict::Abort,
        ),
    )
}

/// Sets the state of every node; fails only when the database reports an
/// error (an empty table is no failure).
pub open spec fn edit_node_state_global_spec(new_state: bool) -> Seq<StatementView> {
    seq![must_succeed(SQL_UPDATE_ALL_NODE_STATES@, seq![SqlParamView::Bool(new_state)])]
}

/// Sets the state of every node to `new_state`; succeeds when the database
/// reports no error.
pub fn edit_node_state_global(new_state: bool) -> (p: DbPlan)
    ensures
        p@ == edit_node_state_global_spec(new_state),
{
    single(
        statement(
            StatementKind::Execute,
            String::from_str(SQL_UPDATE_ALL_NODE_STATES),
            params1(SqlParam::Bool(new_state)),
            Verdict::Abort,
            Verdict::Continue,
        ),
    )
}

/// A statement whose error only marks the plan as failed.
pub open spec fn flag_on_error(sql: Seq<char>, params: Seq<SqlParamView>) -> StatementView {
    statement_view(StatementKind::Execute, sql, params, Verdict::Flag, Verdict::Continue)
}

/// The renaming of one element of `node`.
pub open spec fn element_rename(node_identifier: Seq<char>, e: crate::external_interface::ElementInfoEdit) -> StatementView {
    flag_on_error(SQL_UPDATE_ELEMENT_NAME@, seq![tv(e.name@), tv(node_identifier), tv(e.address@)])
}

/// Renames a node (and sets its category), then renames each listed element
/// of it, in order. Every statement is run; the plan fails when any of them
/// reported an error.
pub open spec fn edit_node_info_spec(node: crate::external_interface::NodeInfoEdit) -> Seq<StatementView> {
    seq![flag_on_error(SQL_UPDATE_NODE_INFO@, seq![tv(node.name@), tv(node.category@), tv(node.identifier@)])]
        + node.elements@.map_values(|e: crate::external_interface::ElementInfoEdit| element_rename(node.identifier@, e))
}

/// Updates the name and category of the node and the names of its listed
/// elements.
pub fn edit_node_info(node: &crate::external_interface::NodeInfoEdit) -> (p: DbPlan)
    ensures
        p@ == edit_node_info_spec(*node),
{
    let mut p = single(
        statement(
            StatementKind::Execute,
            String::from_str(SQL_UPDATE_NODE_INFO),
            params3(text_param(node.name.as_str()), text_param(node.category.as_str()), text_param(node.identifier.as_str())),
            Verdict::Flag,
            Verdict::Continue,
        ),
    );
    let ghost head = p@;
    let n = node.elements.len();
    let mut i: usize = 0;
    while i < n
        invariant
            n == node.elements@.len(),
            i <= n,
            head.len() == 1,
            p@ == head + node.elements@.subrange(0, i as int).map_values(
                |e: crate::external_interface::ElementInfoEdit| element_rename(node.identifier@, e),
            ),
            head == seq![flag_on_error(SQL_UPDATE_NODE_INFO@, seq![tv(node.name@), tv(node.category@), tv(node.identifier@)])],
        decreases n - i,
    {
        let e = &node.elements[i];
        let st = statement(
            StatementKind::Execute,
            String::from_str(SQL_UPDATE_ELEMENT_NAME),
            params3(text_param(e.name.as_str()), text_param(node.identifier.as_str()), text_param(e.address.as_str())),
            Verdict::Flag,
            Verdict::Continue,
        );
        let ghost before = p@;
        p = push_statement(p, st);
        assert(node.elements@.subrange(0, i + 1) =~= node.elements@.subrange(0, i as int).push(node.elements@[i as int]));
        assert(p@ =~= head + node.elements@.subrange(0, i + 1).map_values(
            |e: crate::external_interface::ElementInfoEdit| element_rename(node.identifier@, e),
        ));
        i = i + 1;
    }
    assert(node.elements@.subrange(0, n as int) =~= node.elements@);
    p
}

/// The row of one element to add.
pub open spec fn element_insert(e: Element) -> StatementView {
    must_succeed(
        SQL_INSERT_ELEMENT@,
        seq![
            tv(e.node_id@),
            tv(e.address@),
            tv(e.name@),
            tv(element_type_name_spec(e.element_type)),
            tv(match e.data {
                Some(d) => d@,
                None => Seq::<char>::empty(),
            }),
        ],
    )
}

/// Adds each element, in order, stopping at the first error. An element
/// without data is stored with empty data.
pub open spec fn add_elements_to_element_table_spec(elements: Seq<Element>) -> Seq<StatementView> {
    elements.map_values(|e: Element| element_insert(e))
}

/// Adds each element to the elements table, in order; fails at the first
/// insertion the database rejects.
pub fn add_elements_to_element_table(elements: Vec<Element>) -> (p: DbPlan)
    ensures
        p@ == add_elements_to_element_table_spec(elements@),
{
    let ghost all = elements@;
    let mut p = crate::plan::empty_plan();
    let mut rest = elements;
    let n = rest.len();
    let mut i: usize = 0;
    while i < n
        invariant
            n == all.len(),
            i <= n,
            rest@ == all.subrange(i as int, n as int),
            p@ == all.subrange(0, i as int).map_values(|e: Element| element_insert(e)),
        decreases n - i,
    {
        assert(rest@[0] == all[i as int]);
        let e = rest.remove(0);
        let ghost ev = e;
        let data = match e.data {
            Some(d) => d,
            None => String::new(),
        };
        let st = statement(
            StatementKind::Execute,
            String::from_str(SQL_INSERT_ELEMENT),
            params5(
                SqlParam::Text(e.node_id),
                SqlParam::Text(e.address),
                SqlParam::Text(e.name),
                SqlParam::Text(element_type_name(e.element_type)),
                SqlParam::Text(data),
            ),
            Verdict::Abort,
            Verdict::Continue,
        );
        assert(data@ == match ev.data {
            Some(d) => d@,
            None => Seq::<char>::empty(),
        });
        assert(st@.params == seq![tv(ev.node_id@), tv(ev.address@), tv(ev.name@), tv(element_type_name_spec(ev.element_type)), tv(data@)]);
        assert(st@.sql == SQL_INSERT_ELEMENT@);
        assert(element_insert(ev).params == seq![tv(ev.node_id@), tv(ev.address@), tv(ev.name@), tv(element_type_name_spec(ev.element_type)), tv(data@)]);
        assert(st@ == element_insert(ev));
        p = push_statement(p, st);
        assert(all.subrange(0, i + 1) =~= all.subrange(0, i as int).push(all[i as int]));
        assert(p@ =~= all.subrange(0, i + 1).map_values(|e: Element| element_insert(e)));
        assert(rest@ =~= all.subrange(i + 1, n as int));
        i = i + 1;
    }
    assert(all.subrange(0, n as int) =~= all);
    p
}

/// Removes every element of the node `node_id`.
pub open spec fn remove_elements_from_elements_table_spec(node_id: Seq<char>) -> Seq<StatementView> {
    seq![must_succeed(SQL_DELETE_ELEMENTS@, seq![tv(node_id)])]
}

/// Removes every element of the node `node_id`; succeeds when the database
/// reports no error.
pub fn remove_elements_from_elements_table(node_id: &str) -> (p: DbPlan)
    ensures
        p@ == remove_elements_from_elements_table_spec(node_id@),
{
    single(
        statement(
            StatementKind::Execute,
            String::from_str(SQL_DELETE_ELEMENTS),
            params1(text_param(node_id)),
            Verdict::Abort,
            Verdict::Continue,
        ),
    )
}

/// Sets the data of one element.
pub open spec fn edit_element_data_from_element_table_spec(
    node_identifier: Seq<char>,
    element_address: Seq<char>,
    data: Seq<char>,
) -> Seq<StatementView> {
    seq![must_succeed(SQL_UPDATE_ELEMENT_DATA@, seq![tv(data), tv(node_identifier), tv(element_address)])]
}

/// Sets the data of the element at `element_address` of the node
/// `node_identifier`; succeeds when the database reports no error.
pub fn edit_element_data_from_element_table(node_identifier: &str, element_address: &str, data: &str) -> (p: DbPlan)
    ensures
        p@ == edit_element_data_from_element_table_spec(node_identifier@, element_address@, data@),
{
    single(
        statement(
            StatementKind::Execute,
            String::from_str(SQL_UPDATE_ELEMENT_DATA),
            params3(text_param(data), text_param(node_identifier), text_param(element_address)),
            Verdict::Abort,
            Verdict::Continue,
        ),
    )
}

/// Drops the tables of the hub; a database error stops the program.
pub open spec fn sanitize_db_from_blackbox_spec() -> Seq<StatementView> {
    seq![statement_view(StatementKind::Execute, SQL_DROP_BLACKBOX_TABLES@, seq![], Verdict::Panic, Verdict::Continue)]
}

/// Drops every table the hub uses.
pub fn sanitize_db_from_blackbox() -> (p: DbPlan)
    ensures
        p@ == sanitize_db_from_blackbox_spec(),
{
    single(
        statement(
            StatementKind::Execute,
            String::from_str(SQL_DROP_BLACKBOX_TABLES),
            no_params(),
            Verdict::Panic,
            Verdict::Continue,
        ),
    )
}

/// Drops the tables made for Mosquitto; a database error stops the program.
pub open spec fn sanitize_db_from_mosquitto_spec() -> Seq<StatementView> {
    seq![statement_view(StatementKind::Execute, SQL_DROP_MOSQUITTO_TABLES@, seq![], Verdict::Panic, Verdict::Continue)]
}

/// Drops every table made for Mosquitto.
pub fn sanitize_db_from_mosquitto() -> (p: DbPlan)
    ensures
        p@ == sanitize_db_from_mosquitto_spec(),
{
    single(
        statement(
            StatementKind::Execute,
            String::from_str(SQL_DROP_MOSQUITTO_TABLES),
            no_params(),
            Verdict::Panic,
            Verdict::Continue,
        ),
    )
}

/// Editing a node's info updates the node, then renames every listed
/// element, one statement each, in the order listed: the plan has
/// `1 + elements.len()` statements; the first sets the node's name and
/// category by its identifier, and the `k`-th after it sets the name of
/// the `k`-th listed element of that node by its address. Every statement
/// is run; a failure only marks the plan as failed.
pub proof fn lemma_edit_node_info_renames_each_element(node: crate::external_interface::NodeInfoEdit)
    ensures
        edit_node_info_spec(node).len() == 1 + node.elements@.len(),
        edit_node_info_spec(node)[0].sql == SQL_UPDATE_NODE_INFO@,
        edit_node_info_spec(node)[0].params == seq![tv(node.name@), tv(node.category@), tv(node.identifier@)],
        forall|k: int| 0 <= k < node.elements@.len() ==> {
            let st = #[trigger] edit_node_info_spec(node)[k + 1];
            &&& st.kind == StatementKind::Execute
            &&& st.sql == SQL_UPDATE_ELEMENT_NAME@
            &&& st.params == seq![tv(node.elements@[k].name@), tv(node.identifier@), tv(node.elements@[k].address@)]
            &&& st.on_error == Verdict::Flag
            &&& st.on_no_rows == Verdict::Continue
        },
        forall|k: int| 0 <= k < edit_node_info_spec(node).len() ==> (#[trigger] edit_node_info_spec(node)[k]).on_error
            == Verdict::Flag,
{
}

} // verus!
