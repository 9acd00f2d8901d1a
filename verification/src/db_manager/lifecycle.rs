//! Setting the database up at start-up, the MQTT accounts of the hub, the
//! external interface and the neutron communicators, and switching node
//! discovery on and off.

use vstd::prelude::*;
use vstd::string::*;
use vstd::utf8::encode_utf8;

use crate::credentials::{generate_mqtt_hash, mqtt_hash_text, SALT_LEN};
use crate::mqtt_broker_manager::{NEUTRONCOMMUNICATOR_TOPIC, REGISTERED_TOPIC};
use crate::plan::{
    concat_plans, empty_plan, must_succeed, no_params, params3, single, statement,
    statement_view, text_param, push_statement, DbPlan, SqlParam, SqlParamView, Statement, StatementKind,
    StatementView, Verdict,
};
use crate::settings::NeutronCommunicator;

use super::model::{apply_plan, lemma_apply_single, lemma_apply_three, lemma_keyed_sql_distinct, TableKeys};
use crate::{BLACKBOX_MQTT_USERNAME, INTERFACE_MQTT_USERNAME};

use super::{
    acl_entry, add_node_to_mqtt_acl, add_node_to_mqtt_acl_spec, add_node_to_mqtt_users,
    add_node_to_mqtt_users_spec, remove_from_mqtt_users, remove_from_mqtt_users_spec,
    remove_node_from_mqtt_acl, remove_node_from_mqtt_acl_spec, tv, MQTT_READ_ONLY,
    MQTT_READ_WRITE, MQTT_SUBSCRIBE_ONLY, MQTT_USERNAME_UNREGISTERED, MQTT_WRITE_ONLY,
    SQL_INSERT_ACL, SQL_INSERT_MQTT_USER,
};

verus! {

pub const TABLE_BLACKBOX_UNREGISTERED: &'static str = "blackbox_unregistered";
pub const TABLE_BLACKBOX_NODES: &'static str = "blackbox_nodes";
pub const TABLE_BLACKBOX_ELEMENTS: &'static str = "blackbox_elements";
pub const TABLE_MQTT_USERS: &'static str = "mqtt_users";
pub const TABLE_MQTT_ACL: &'static str = "mqtt_acl";

pub const SQL_CREATE_NODES: &'static str = "CREATE TABLE blackbox_nodes (id SERIAL PRIMARY KEY, identifier TEXT NOT NULL, name TEXT NOT NULL, category TEXT NOT NULL, elements_summary TEXT NOT NULL, state BOOLEAN NOT NULL);";
pub const SQL_CREATE_ELEMENTS: &'static str = "CREATE TABLE blackbox_elements (node_id TEXT NOT NULL, address TEXT NOT NULL, name TEXT NOT NULL, element_type TEXT NOT NULL, data TEXT NOT NULL);";
pub const SQL_CREATE_MQTT_USERS: &'static str = "CREATE TABLE mqtt_users (id BIGSERIAL PRIMARY KEY, username TEXT NOT NULL, password TEXT NOT NULL, superuser BOOLEAN NOT NULL DEFAULT FALSE);";
pub const SQL_CREATE_MQTT_ACL: &'static str = "CREATE TABLE mqtt_acl (username TEXT NOT NULL, topic TEXT NOT NULL, rw INTEGER NOT NULL);";
pub const SQL_CREATE_UNREGISTERED: &'static str = "CREATE TABLE blackbox_unregistered (client_id TEXT PRIMARY KEY NOT NULL, elements_summary TEXT NOT NULL);";
pub const SQL_DROP_UNREGISTERED: &'static str = "SET client_min_messages = ERROR; DROP TABLE IF EXISTS blackbox_unregistered;";
pub const SQL_DELETE_BLACKBOX_USER: &'static str = "DELETE FROM mqtt_users WHERE USERNAME='blackbox';";

/// Probes whether a table exists: selecting from it succeeds.
pub open spec fn table_exists_spec(table_name: Seq<char>) -> Seq<StatementView> {
    seq![must_succeed("SELECT 1 FROM "@ + table_name + " LIMIT 1;"@, seq![])]
}

/// A plan that succeeds when the table `table_name` exists.
pub fn table_exists(table_name: &str) -> (p: DbPlan)
    ensures
        p@ == table_exists_spec(table_name@),
{
    let mut sql = String::from_str("SELECT 1 FROM ");
    sql.append(table_name);
    sql.append(" LIMIT 1;");
    single(statement(StatementKind::Execute, sql, no_params(), Verdict::Abort, Verdict::Continue))
}

/// A plan of one statement without parameters that must not fail.
pub open spec fn create_table_spec(sql: Seq<char>) -> Seq<StatementView> {
    seq![must_succeed(sql, seq![])]
}

fn create_table(sql: &str) -> (p: DbPlan)
    ensures
        p@ == create_table_spec(sql@),
{
    single(statement(StatementKind::Execute, String::from_str(sql), no_params(), Verdict::Abort, Verdict::Continue))
}

/// Creates the table of registered nodes.
pub fn create_table_nodes() -> (p: DbPlan)
    ensures
        p@ == create_table_spec(SQL_CREATE_NODES@),
{
    create_table(SQL_CREATE_NODES)
}

/// Creates the table of elements.
pub fn create_table_elements() -> (p: DbPlan)
    ensures
        p@ == create_table_spec(SQL_CREATE_ELEMENTS@),
{
    create_table(SQL_CREATE_ELEMENTS)
}

/// Creates the table of MQTT users.
pub fn create_table_mqtt_users() -> (p: DbPlan)
    ensures
        p@ == create_table_spec(SQL_CREATE_MQTT_USERS@),
{
    create_table(SQL_CREATE_MQTT_USERS)
}

/// Creates the table of MQTT access control entries.
pub fn create_table_mqtt_acl() -> (p: DbPlan)
    ensures
        p@ == create_table_spec(SQL_CREATE_MQTT_ACL@),
{
    create_table(SQL_CREATE_MQTT_ACL)
}

/// Looks the MQTT user `username` up: succeeds when it exists, fails when
/// it does not, and stops the program when the query fails.
pub open spec fn check_mqtt_user_exists_spec(username: Seq<char>) -> Seq<StatementView> {
    seq![
        statement_view(
            StatementKind::Query,
            "SELECT 1 FROM mqtt_users WHERE USERNAME='"@ + username + "' LIMIT 1;"@,
            seq![],
            Verdict::Panic,
            Verdict::Abort,
        ),
    ]
}

/// A plan that succeeds when the MQTT user `username` exists.
pub fn check_mqtt_user_exists(username: &str) -> (p: DbPlan)
    ensures
        p@ == check_mqtt_user_exists_spec(username@),
{
    let mut sql = String::from_str("SELECT 1 FROM mqtt_users WHERE USERNAME='");
    sql.append(username);
    sql.append("' LIMIT 1;");
    single(statement(StatementKind::Query, sql, no_params(), Verdict::Panic, Verdict::Abort))
}

/// `h` is a Mosquitto hash of `password` with some salt of `SALT_LEN` bytes.
pub open spec fn is_hash_of(h: Seq<char>, password: Seq<char>) -> bool {
    exists|salt: Seq<u8>| salt.len() == SALT_LEN && h == #[trigger] mqtt_hash_text(salt, encode_utf8(password))
}

/// The credentials of an account: the password hash and the plan that
/// stores them.
pub struct CredentialsSetup {
    pub plan: DbPlan,
    pub hash: String,
}

/// Preparing the access control insertion, which must succeed.
pub open spec fn prepare_acl_insert() -> StatementView {
    statement_view(StatementKind::Prepare, SQL_INSERT_ACL@, seq![], Verdict::Abort, Verdict::Continue)
}

fn prepare_acl() -> (st: Statement)
    ensures
        st@ == prepare_acl_insert(),
{
    statement(StatementKind::Prepare, String::from_str(SQL_INSERT_ACL), no_params(), Verdict::Abort, Verdict::Continue)
}

/// An access control entry that must be added without error.
pub open spec fn acl_insert_spec(username: Seq<char>, topic: Seq<char>, rw: i32) -> StatementView {
    must_succeed(SQL_INSERT_ACL@, acl_entry(username, topic, rw))
}

fn acl_insert(username: &str, topic: &str, rw: i32) -> (st: Statement)
    ensures
        st@ == acl_insert_spec(username@, topic@, rw),
{
    statement(
        StatementKind::Execute,
        String::from_str(SQL_INSERT_ACL),
        params3(text_param(username), text_param(topic), SqlParam::Int(rw)),
        Verdict::Abort,
        Verdict::Continue,
    )
}

/// The external interface's account: the user, then read and write on its
/// own topics, read and subscribe on the registered topic, write on the
/// neutron communicators' topics.
pub open spec fn external_interface_creds_spec(hash: Seq<char>) -> Seq<StatementView> {
    let u = INTERFACE_MQTT_USERNAME@;
    seq![prepare_acl_insert()] + add_node_to_mqtt_users_spec(u, hash) + seq![
        acl_insert_spec(u, "external_interface/#"@, MQTT_READ_WRITE),
        acl_insert_spec(u, REGISTERED_TOPIC@, MQTT_READ_ONLY),
        acl_insert_spec(u, REGISTERED_TOPIC@, MQTT_SUBSCRIBE_ONLY),
        acl_insert_spec(u, NEUTRONCOMMUNICATOR_TOPIC@, MQTT_WRITE_ONLY),
        acl_insert_spec(u, "neutron_communicators/#"@, MQTT_WRITE_ONLY),
    ]
}

/// Hashes the external interface's password and, when the hub and the
/// broker share a database, plans storing the account; otherwise the plan
/// is empty and the hash is for the operator to set up by hand. `None` when
/// the random generator failed.
pub fn set_external_interface_creds(using_same_db: bool, web_interface_mqtt_password: &str) -> (c: Option<CredentialsSetup>)
    ensures
        c matches Some(c) ==> is_hash_of(c.hash@, web_interface_mqtt_password@) && c.plan@ == (
        if using_same_db {
            external_interface_creds_spec(c.hash@)
        } else {
            Seq::empty()
        }),
{
    let hash = match generate_mqtt_hash(web_interface_mqtt_password) {
        Some(h) => h,
        None => {
            return None;
        },
    };
    if using_same_db {
        let p = single(prepare_acl());
        let p = concat_plans(p, add_node_to_mqtt_users(INTERFACE_MQTT_USERNAME, hash.as_str()));
        let p = push_statement(p, acl_insert(INTERFACE_MQTT_USERNAME, "external_interface/#", MQTT_READ_WRITE));
        let p = push_statement(p, acl_insert(INTERFACE_MQTT_USERNAME, REGISTERED_TOPIC, MQTT_READ_ONLY));
        let p = push_statement(p, acl_insert(INTERFACE_MQTT_USERNAME, REGISTERED_TOPIC, MQTT_SUBSCRIBE_ONLY));
        let p = push_statement(p, acl_insert(INTERFACE_MQTT_USERNAME, NEUTRONCOMMUNICATOR_TOPIC, MQTT_WRITE_ONLY));
        let p = push_statement(p, acl_insert(INTERFACE_MQTT_USERNAME, "neutron_communicators/#", MQTT_WRITE_ONLY));
        assert(p@ =~= external_interface_creds_spec(hash@));
        Some(CredentialsSetup { plan: p, hash })
    } else {
        Some(CredentialsSetup { plan: empty_plan(), hash })
    }
}

/// The hub's own account: any old one is removed, then the hub is added as
/// a superuser.
pub open spec fn mqtt_bb_creds_spec(hash: Seq<char>) -> Seq<StatementView> {
    seq![
        must_succeed(SQL_DELETE_BLACKBOX_USER@, seq![]),
        must_succeed(SQL_INSERT_MQTT_USER@, seq![tv(BLACKBOX_MQTT_USERNAME@), tv(hash), SqlParamView::Bool(true)]),
    ]
}

/// Hashes the hub's password and, when the hub and the broker share a
/// database, plans replacing the hub's account; otherwise the plan is empty.
/// `None` when the random generator failed.
pub fn set_mqtt_bb_creds(using_same_db: bool, bb_mqtt_password: &str) -> (c: Option<CredentialsSetup>)
    ensures
        c matches Some(c) ==> is_hash_of(c.hash@, bb_mqtt_password@) && c.plan@ == (
        if using_same_db {
            mqtt_bb_creds_spec(c.hash@)
        } else {
            Seq::empty()
        }),
{
    let hash = match generate_mqtt_hash(bb_mqtt_password) {
        Some(h) => h,
        None => {
            return None;
        },
    };
    if using_same_db {
        let p = single(statement(StatementKind::Execute, String::from_str(SQL_DELETE_BLACKBOX_USER), no_params(), Verdict::Abort, Verdict::Continue));
        let p = push_statement(p, statement(
            StatementKind::Execute,
            String::from_str(SQL_INSERT_MQTT_USER),
            params3(text_param(BLACKBOX_MQTT_USERNAME), text_param(hash.as_str()), SqlParam::Bool(true)),
            Verdict::Abort,
            Verdict::Continue,
        ));
        assert(p@ =~= mqtt_bb_creds_spec(hash@));
        Some(CredentialsSetup { plan: p, hash })
    } else {
        Some(CredentialsSetup { plan: empty_plan(), hash })
    }
}

/// A neutron communicator's account: the user, then read and write on its
/// own topic, read and subscribe on the communicators' topic, write on the
/// external interface's topic.
pub open spec fn neutron_communicator_creds_spec(username: Seq<char>, hash: Seq<char>) -> Seq<StatementView> {
    seq![prepare_acl_insert()] + add_node_to_mqtt_users_spec(username, hash) + seq![
        acl_insert_spec(username, "neutron_communicators/%u"@, MQTT_READ_WRITE),
        acl_insert_spec(username, NEUTRONCOMMUNICATOR_TOPIC@, MQTT_READ_ONLY),
        acl_insert_spec(username, NEUTRONCOMMUNICATOR_TOPIC@, MQTT_SUBSCRIBE_ONLY),
        acl_insert_spec(username, INTERFACE_MQTT_USERNAME@, MQTT_WRITE_ONLY),
    ]
}

/// Hashes a neutron communicator's password and plans storing its account.
/// `None` when the random generator failed.
pub fn set_neutron_communicator_creds(username: &str, password: &str) -> (c: Option<CredentialsSetup>)
    ensures
        c matches Some(c) ==> is_hash_of(c.hash@, password@) && c.plan@
            == neutron_communicator_creds_spec(username@, c.hash@),
{
    let hash = match generate_mqtt_hash(password) {
        Some(h) => h,
        None => {
            return None;
        },
    };
    let p = single(prepare_acl());
    let p = concat_plans(p, add_node_to_mqtt_users(username, hash.as_str()));
    let p = push_statement(p, acl_insert(username, "neutron_communicators/%u", MQTT_READ_WRITE));
    let p = push_statement(p, acl_insert(username, NEUTRONCOMMUNICATOR_TOPIC, MQTT_READ_ONLY));
    let p = push_statement(p, acl_insert(username, NEUTRONCOMMUNICATOR_TOPIC, MQTT_SUBSCRIBE_ONLY));
    let p = push_statement(p, acl_insert(username, INTERFACE_MQTT_USERNAME, MQTT_WRITE_ONLY));
    assert(p@ =~= neutron_communicator_creds_spec(username@, hash@));
    Some(CredentialsSetup { plan: p, hash })
}

/// The first half of switching discovery on or off: the subscription
/// change to make (on: subscribe to `unregistered/#`; off: unsubscribe from
/// it), and two independent plans for the account of unregistered nodes.
pub struct DiscoveryChange {
    pub subscribe: bool,
    pub users: DbPlan,
    pub acl: DbPlan,
}

/// Switching discovery on adds an account for unregistered nodes, with
/// their shared password, and its access control entries; switching it off
/// removes both. The two plans are run one after the other, whatever the
/// first one's outcome. `None` when the random generator failed.
pub fn set_discovery_mode(enable_discovery: bool, mqtt_unregistered_pass: &str) -> (d: Option<DiscoveryChange>)
    ensures
        !enable_discovery ==> d is Some,
        d matches Some(d) ==> {
            &&& d.subscribe == enable_discovery
            &&& enable_discovery ==> (exists|h: Seq<char>|
                is_hash_of(h, mqtt_unregistered_pass@) && d.users@
                    == #[trigger] add_node_to_mqtt_users_spec(MQTT_USERNAME_UNREGISTERED@, h))
            &&& enable_discovery ==> d.acl@ == add_node_to_mqtt_acl_spec(true, MQTT_USERNAME_UNREGISTERED@)
            &&& !enable_discovery ==> d.users@ == remove_from_mqtt_users_spec(MQTT_USERNAME_UNREGISTERED@)
            &&& !enable_discovery ==> d.acl@ == remove_node_from_mqtt_acl_spec(MQTT_USERNAME_UNREGISTERED@)
        },
{
    if enable_discovery {
        let hash = match generate_mqtt_hash(mqtt_unregistered_pass) {
            Some(h) => h,
            None => {
                return None;
            },
        };
        let users = add_node_to_mqtt_users(MQTT_USERNAME_UNREGISTERED, hash.as_str());
        assert(is_hash_of(hash@, mqtt_unregistered_pass@));
        Some(DiscoveryChange { subscribe: true, users, acl: add_node_to_mqtt_acl(true, MQTT_USERNAME_UNREGISTERED) })
    } else {
        Some(
            DiscoveryChange {
                subscribe: false,
                users: remove_from_mqtt_users(MQTT_USERNAME_UNREGISTERED),
                acl: remove_node_from_mqtt_acl(MQTT_USERNAME_UNREGISTERED),
            },
        )
    }
}

/// Dropping the table of unregistered nodes; an error stops the program.
pub open spec fn drop_unregistered_spec() -> StatementView {
    statement_view(StatementKind::Batch, SQL_DROP_UNREGISTERED@, seq![], Verdict::Panic, Verdict::Continue)
}

/// Creating the table of unregistered nodes; an error is only reported.
pub open spec fn create_unregistered_spec() -> StatementView {
    statement_view(StatementKind::Execute, SQL_CREATE_UNREGISTERED@, seq![], Verdict::Continue, Verdict::Continue)
}

/// The second half of switching discovery: what to run once the two plans
/// of `set_discovery_mode` are done, and the result of the switch.
pub struct DiscoveryFinish {
    pub plan: DbPlan,
    pub result: bool,
}

/// When both plans succeeded, the table of unregistered nodes is dropped
/// and, when switching on, created afresh. The switch succeeds, either way,
/// exactly when both plans did.
pub fn finish_discovery_mode(enable_discovery: bool, users_ok: bool, acl_ok: bool) -> (f: DiscoveryFinish)
    ensures
        f.result == (users_ok && acl_ok),
        f.plan@ == (if users_ok && acl_ok {
            if enable_discovery {
                seq![drop_unregistered_spec(), create_unregistered_spec()]
            } else {
                seq![drop_unregistered_spec()]
            }
        } else {
            Seq::empty()
        }),
{
    if users_ok && acl_ok {
        let p = single(statement(StatementKind::Batch, String::from_str(SQL_DROP_UNREGISTERED), no_params(), Verdict::Panic, Verdict::Continue));
        if enable_discovery {
            let p = push_statement(p, statement(StatementKind::Execute, String::from_str(SQL_CREATE_UNREGISTERED), no_params(), Verdict::Continue, Verdict::Continue));
            DiscoveryFinish { plan: p, result: true }
        } else {
            DiscoveryFinish { plan: p, result: true }
        }
    } else {
        DiscoveryFinish { plan: empty_plan(), result: false }
    }
}

/// What database initialisation needs to know.
pub struct InitConfig {
    /// The hub and the Mosquitto broker use the same database.
    pub bb_mqtt_same_db: bool,
    pub mqtt_blackbox_pass: String,
    pub web_interface_pass: String,
    pub neutron_communicators: Vec<NeutronCommunicator>,
}

/// The steps of database initialisation.
#[derive(Clone, Copy, Debug)]
pub enum InitStep {
    CheckNodesTable,
    CreateNodesTable,
    CheckElementsTable,
    CreateElementsTable,
    CheckUnregisteredTable,
    DisableDiscovery,
    CheckUsersTable,
    CreateUsersTable,
    CheckAclTable,
    CreateAclTable,
    CheckBlackboxUser,
    SetBlackboxCreds,
    CheckInterfaceUser,
    SetInterfaceCreds,
    CheckCommunicator(usize),
    SetCommunicatorCreds(usize),
    ResetNodeStates,
    /// Initialisation succeeded.
    Ready,
    /// Initialisation failed.
    Failed,
}

/// What the caller does for a step.
pub enum InitAction {
    /// Run the plan and report whether it succeeded.
    RunPlan(DbPlan),
    /// Switch discovery off (without an MQTT client); its result is ignored.
    DisableDiscovery,
    /// Initialisation is over, successfully or not.
    Finish(bool),
    /// The random generator failed: stop the program.
    Abandon,
}

/// A neutron communicator gets an account only with both a name and a
/// password.
pub open spec fn communicator_ready(c: NeutronCommunicator) -> bool {
    c.mqtt_password@.len() > 0 && c.mqtt_username@.len() > 0
}

/// The first communicator from `i` on that gets an account, or the number
/// of communicators when there is none.
pub open spec fn next_ready(comms: Seq<NeutronCommunicator>, i: int) -> int
    decreases comms.len() - i,
{
    if i < 0 || i >= comms.len() {
        comms.len() as int
    } else if communicator_ready(comms[i]) {
        i
    } else {
        next_ready(comms, i + 1)
    }
}

/// The step for the communicators from `i` on.
pub open spec fn communicator_step(comms: Seq<NeutronCommunicator>, i: int) -> InitStep {
    let j = next_ready(comms, i);
    if j < comms.len() {
        InitStep::CheckCommunicator(j as usize)
    } else {
        InitStep::ResetNodeStates
    }
}

/// The step after the table of unregistered nodes was dealt with: the MQTT
/// tables and accounts only when the broker shares the database.
pub open spec fn after_unregistered(same_db: bool) -> InitStep {
    if same_db {
        InitStep::CheckUsersTable
    } else {
        InitStep::ResetNodeStates
    }
}

/// The step after `step`, whose action had the outcome `ok`: a missing
/// table or account is created; a failed creation ends initialisation as
/// failed; an existing table of unregistered nodes is cleared by switching
/// discovery off.
pub open spec fn init_next(cfg: InitConfig, step: InitStep, ok: bool) -> InitStep {
    let comms = cfg.neutron_communicators@;
    match step {
        InitStep::CheckNodesTable => if ok { InitStep::CheckElementsTable } else { InitStep::CreateNodesTable },
        InitStep::CreateNodesTable => if ok { InitStep::CheckElementsTable } else { InitStep::Failed },
        InitStep::CheckElementsTable => if ok { InitStep::CheckUnregisteredTable } else { InitStep::CreateElementsTable },
        InitStep::CreateElementsTable => if ok { InitStep::CheckUnregisteredTable } else { InitStep::Failed },
        InitStep::CheckUnregisteredTable => if ok { InitStep::DisableDiscovery } else { after_unregistered(cfg.bb_mqtt_same_db) },
        InitStep::DisableDiscovery => after_unregistered(cfg.bb_mqtt_same_db),
        InitStep::CheckUsersTable => if ok { InitStep::CheckAclTable } else { InitStep::CreateUsersTable },
        InitStep::CreateUsersTable => if ok { InitStep::CheckAclTable } else { InitStep::Failed },
        InitStep::CheckAclTable => if ok { InitStep::CheckBlackboxUser } else { InitStep::CreateAclTable },
        InitStep::CreateAclTable => if ok { InitStep::CheckBlackboxUser } else { InitStep::Failed },
        InitStep::CheckBlackboxUser => if ok { InitStep::CheckInterfaceUser } else { InitStep::SetBlackboxCreds },
        InitStep::SetBlackboxCreds => if ok { InitStep::CheckInterfaceUser } else { InitStep::Failed },
        InitStep::CheckInterfaceUser => if ok { communicator_step(comms, 0) } else { InitStep::SetInterfaceCreds },
        InitStep::SetInterfaceCreds => if ok { communicator_step(comms, 0) } else { InitStep::Failed },
        InitStep::CheckCommunicator(j) => if ok { communicator_step(comms, j + 1) } else { InitStep::SetCommunicatorCreds(j) },
        InitStep::SetCommunicatorCreds(j) => if ok { communicator_step(comms, j + 1) } else { InitStep::Failed },
        InitStep::ResetNodeStates => InitStep::Ready,
        InitStep::Ready => InitStep::Ready,
        InitStep::Failed => InitStep::Failed,
    }
}

/// A step that can come up: a communicator step names a communicator that
/// gets an account.
pub open spec fn step_valid(cfg: InitConfig, step: InitStep) -> bool {
    match step {
        InitStep::CheckCommunicator(j) => j < cfg.neutron_communicators@.len() && communicator_ready(cfg.neutron_communicators@[j as int]),
        InitStep::SetCommunicatorCreds(j) => j < cfg.neutron_communicators@.len() && communicator_ready(cfg.neutron_communicators@[j as int]),
        _ => true,
    }
}

/// The plan of a step must be `plan`.
pub open spec fn runs(action: InitAction, plan: Seq<StatementView>) -> bool {
    action matches InitAction::RunPlan(p) && p@ == plan
}

/// The action of a step that stores new credentials: the plan for some hash
/// of the password, or stopping the program when no hash could be made.
pub open spec fn runs_creds(action: InitAction, password: Seq<char>, plan: spec_fn(Seq<char>) -> Seq<StatementView>) -> bool {
    action is Abandon || (action matches InitAction::RunPlan(p) && exists|h: Seq<char>|
        is_hash_of(h, password) && p@ == #[trigger] plan(h))
}

/// What the caller does for each step.
pub open spec fn action_matches(cfg: InitConfig, step: InitStep, action: InitAction) -> bool {
    let comms = cfg.neutron_communicators@;
    match step {
        InitStep::CheckNodesTable => runs(action, table_exists_spec(TABLE_BLACKBOX_NODES@)),
        InitStep::CreateNodesTable => runs(action, create_table_spec(SQL_CREATE_NODES@)),
        InitStep::CheckElementsTable => runs(action, table_exists_spec(TABLE_BLACKBOX_ELEMENTS@)),
        InitStep::CreateElementsTable => runs(action, create_table_spec(SQL_CREATE_ELEMENTS@)),
        InitStep::CheckUnregisteredTable => runs(action, table_exists_spec(TABLE_BLACKBOX_UNREGISTERED@)),
        InitStep::DisableDiscovery => action is DisableDiscovery,
        InitStep::CheckUsersTable => runs(action, table_exists_spec(TABLE_MQTT_USERS@)),
        InitStep::CreateUsersTable => runs(action, create_table_spec(SQL_CREATE_MQTT_USERS@)),
        InitStep::CheckAclTable => runs(action, table_exists_spec(TABLE_MQTT_ACL@)),
        InitStep::CreateAclTable => runs(action, create_table_spec(SQL_CREATE_MQTT_ACL@)),
        InitStep::CheckBlackboxUser => runs(action, check_mqtt_user_exists_spec(BLACKBOX_MQTT_USERNAME@)),
        InitStep::SetBlackboxCreds => runs_creds(
            action,
            cfg.mqtt_blackbox_pass@,
            |h: Seq<char>| mqtt_bb_creds_spec(h),
        ),
        InitStep::CheckInterfaceUser => runs(action, check_mqtt_user_exists_spec(INTERFACE_MQTT_USERNAME@)),
        InitStep::SetInterfaceCreds => runs_creds(
            action,
            cfg.web_interface_pass@,
            |h: Seq<char>| external_interface_creds_spec(h),
        ),
        InitStep::CheckCommunicator(j) => runs(
            action,
            check_mqtt_user_exists_spec(comms[j as int].mqtt_username@),
        ),
        InitStep::SetCommunicatorCreds(j) => runs_creds(
            action,
            comms[j as int].mqtt_password@,
            |h: Seq<char>| neutron_communicator_creds_spec(comms[j as int].mqtt_username@, h),
        ),
        InitStep::ResetNodeStates => runs(action, super::edit_node_state_global_spec(false)),
        InitStep::Ready => action == InitAction::Finish(true),
        InitStep::Failed => action == InitAction::Finish(false),
    }
}

proof fn lemma_next_ready_bounds(comms: Seq<NeutronCommunicator>, i: int)
    requires
        0 <= i,
    ensures
        i <= next_ready(comms, i) || next_ready(comms, i) == comms.len(),
        next_ready(comms, i) <= comms.len(),
        next_ready(comms, i) < comms.len() ==> communicator_ready(comms[next_ready(comms, i)]) && i <= next_ready(comms, i),
    decreases comms.len() - i,
{
    if i < comms.len() && !communicator_ready(comms[i]) {
        lemma_next_ready_bounds(comms, i + 1);
    }
}

/// The first communicator from `i` on that gets an account.
fn find_ready(comms: &Vec<NeutronCommunicator>, i: usize) -> (j: usize)
    ensures
        j == next_ready(comms@, i as int),
{
    let n = comms.len();
    let mut j = i;
    if j >= n {
        return n;
    }
    while j < n
        invariant
            n == comms@.len(),
            i <= j <= n,
            next_ready(comms@, i as int) == next_ready(comms@, j as int),
        decreases n - j,
    {
        let c = &comms[j];
        if !c.mqtt_password.as_str().is_empty() && !c.mqtt_username.as_str().is_empty() {
            return j;
        }
        j = j + 1;
    }
    j
}

fn communicator_step_exec(comms: &Vec<NeutronCommunicator>, i: usize) -> (s: InitStep)
    ensures
        s == communicator_step(comms@, i as int),
{
    let j = find_ready(comms, i);
    if j < comms.len() {
        InitStep::CheckCommunicator(j)
    } else {
        InitStep::ResetNodeStates
    }
}

fn creds_action(c: Option<CredentialsSetup>) -> (a: InitAction)
    ensures
        c is None ==> a is Abandon,
        c matches Some(c) ==> a matches InitAction::RunPlan(p) && p@ == c.plan@,
{
    match c {
        Some(c) => InitAction::RunPlan(c.plan),
        None => InitAction::Abandon,
    }
}

/// The action of a step.
pub fn init_action(cfg: &InitConfig, step: InitStep) -> (a: InitAction)
    requires
        step_valid(*cfg, step),
    ensures
        action_matches(*cfg, step, a),
{
    match step {
        InitStep::CheckNodesTable => InitAction::RunPlan(table_exists(TABLE_BLACKBOX_NODES)),
        InitStep::CreateNodesTable => InitAction::RunPlan(create_table_nodes()),
        InitStep::CheckElementsTable => InitAction::RunPlan(table_exists(TABLE_BLACKBOX_ELEMENTS)),
        InitStep::CreateElementsTable => InitAction::RunPlan(create_table_elements()),
        InitStep::CheckUnregisteredTable => InitAction::RunPlan(table_exists(TABLE_BLACKBOX_UNREGISTERED)),
        InitStep::DisableDiscovery => InitAction::DisableDiscovery,
        InitStep::CheckUsersTable => InitAction::RunPlan(table_exists(TABLE_MQTT_USERS)),
        InitStep::CreateUsersTable => InitAction::RunPlan(create_table_mqtt_users()),
        InitStep::CheckAclTable => InitAction::RunPlan(table_exists(TABLE_MQTT_ACL)),
        InitStep::CreateAclTable => InitAction::RunPlan(create_table_mqtt_acl()),
        InitStep::CheckBlackboxUser => InitAction::RunPlan(check_mqtt_user_exists(BLACKBOX_MQTT_USERNAME)),
        InitStep::SetBlackboxCreds => {
            let c = set_mqtt_bb_creds(true, cfg.mqtt_blackbox_pass.as_str());
            let ghost cv = c;
            let a = creds_action(c);
            proof {
                if let Some(cs) = cv {
                    let f = |h: Seq<char>| mqtt_bb_creds_spec(h);
                    assert(f(cs.hash@) == mqtt_bb_creds_spec(cs.hash@));
                }
            }
            a
        },
        InitStep::CheckInterfaceUser => InitAction::RunPlan(check_mqtt_user_exists(INTERFACE_MQTT_USERNAME)),
        InitStep::SetInterfaceCreds => {
            let c = set_external_interface_creds(true, cfg.web_interface_pass.as_str());
            let ghost cv = c;
            let a = creds_action(c);
            proof {
                if let Some(cs) = cv {
                    let f = |h: Seq<char>| external_interface_creds_spec(h);
                    assert(f(cs.hash@) == external_interface_creds_spec(cs.hash@));
                }
            }
            a
        },
        InitStep::CheckCommunicator(j) => InitAction::RunPlan(
            check_mqtt_user_exists(cfg.neutron_communicators[j].mqtt_username.as_str()),
        ),
        InitStep::SetCommunicatorCreds(j) => {
            let comm = &cfg.neutron_communicators[j];
            let c = set_neutron_communicator_creds(comm.mqtt_username.as_str(), comm.mqtt_password.as_str());
            let ghost cv = c;
            let a = creds_action(c);
            proof {
                if let Some(cs) = cv {
                    let f = |h: Seq<char>| neutron_communicator_creds_spec(cfg.neutron_communicators@[j as int].mqtt_username@, h);
                    assert(f(cs.hash@) == neutron_communicator_creds_spec(comm.mqtt_username@, cs.hash@));
                }
            }
            a
        },
        InitStep::ResetNodeStates => InitAction::RunPlan(super::edit_node_state_global(false)),
        InitStep::Ready => InitAction::Finish(true),
        InitStep::Failed => InitAction::Finish(false),
    }
}

/// Whether initialisation has stored the hub's MQTT credentials, once
/// `step` had the outcome `ok`: `stored` tells whether it had before.
pub fn init_record_hub_creds(stored: bool, step: InitStep, ok: bool) -> (r: bool)
    ensures
        r == (stored || (step is SetBlackboxCreds && ok)),
{
    match step {
        InitStep::SetBlackboxCreds => stored || ok,
        _ => stored,
    }
}

/// The hub's new MQTT password that a successful initialisation hands back
/// with the connection: the hub's password when initialisation stored the
/// hub's credentials in the broker's tables, otherwise empty (nothing new).
pub fn init_new_password(cfg: &InitConfig, hub_creds_stored: bool) -> (pw: String)
    ensures
        pw@ == (if hub_creds_stored {
            cfg.mqtt_blackbox_pass@
        } else {
            Seq::<char>::empty()
        }),
{
    if hub_creds_stored {
        cfg.mqtt_blackbox_pass.clone()
    } else {
        String::new()
    }
}

/// The first step of database initialisation and its action.
pub fn init_start(cfg: &InitConfig) -> (r: (InitStep, InitAction))
    ensures
        r.0 == InitStep::CheckNodesTable,
        action_matches(*cfg, r.0, r.1),
{
    (InitStep::CheckNodesTable, init_action(cfg, InitStep::CheckNodesTable))
}

/// After the action of `step` had the outcome `ok`: the next step and its
/// action.
pub fn init_step(cfg: &InitConfig, step: InitStep, ok: bool) -> (r: (InitStep, InitAction))
    requires
        step_valid(*cfg, step),
    ensures
        r.0 == init_next(*cfg, step, ok),
        step_valid(*cfg, r.0),
        action_matches(*cfg, r.0, r.1),
{
    let comms = &cfg.neutron_communicators;
    let n = comms.len();
    let next = match step {
        InitStep::CheckNodesTable => if ok { InitStep::CheckElementsTable } else { InitStep::CreateNodesTable },
        InitStep::CreateNodesTable => if ok { InitStep::CheckElementsTable } else { InitStep::Failed },
        InitStep::CheckElementsTable => if ok { InitStep::CheckUnregisteredTable } else { InitStep::CreateElementsTable },
        InitStep::CreateElementsTable => if ok { InitStep::CheckUnregisteredTable } else { InitStep::Failed },
        InitStep::CheckUnregisteredTable => if ok {
            InitStep::DisableDiscovery
        } else if cfg.bb_mqtt_same_db {
            InitStep::CheckUsersTable
        } else {
            InitStep::ResetNodeStates
        },
        InitStep::DisableDiscovery => if cfg.bb_mqtt_same_db {
            InitStep::CheckUsersTable
        } else {
            InitStep::ResetNodeStates
        },
        InitStep::CheckUsersTable => if ok { InitStep::CheckAclTable } else { InitStep::CreateUsersTable },
        InitStep::CreateUsersTable => if ok { InitStep::CheckAclTable } else { InitStep::Failed },
        InitStep::CheckAclTable => if ok { InitStep::CheckBlackboxUser } else { InitStep::CreateAclTable },
        InitStep::CreateAclTable => if ok { InitStep::CheckBlackboxUser } else { InitStep::Failed },
        InitStep::CheckBlackboxUser => if ok { InitStep::CheckInterfaceUser } else { InitStep::SetBlackboxCreds },
        InitStep::SetBlackboxCreds => if ok { InitStep::CheckInterfaceUser } else { InitStep::Failed },
        InitStep::CheckInterfaceUser => if ok { communicator_step_exec(comms, 0) } else { InitStep::SetInterfaceCreds },
        InitStep::SetInterfaceCreds => if ok { communicator_step_exec(comms, 0) } else { InitStep::Failed },
        InitStep::CheckCommunicator(j) => if ok {
            assert(j < n);
            communicator_step_exec(comms, j + 1)
        } else {
            InitStep::SetCommunicatorCreds(j)
        },
        InitStep::SetCommunicatorCreds(j) => if ok {
            assert(j < n);
            communicator_step_exec(comms, j + 1)
        } else {
            InitStep::Failed
        },
        InitStep::ResetNodeStates => InitStep::Ready,
        InitStep::Ready => InitStep::Ready,
        InitStep::Failed => InitStep::Failed,
    };
    proof {
        lemma_next_ready_bounds(comms@, 0);
        match step {
            InitStep::CheckCommunicator(j) => {
                lemma_next_ready_bounds(comms@, j + 1);
            },
            InitStep::SetCommunicatorCreds(j) => {
                lemma_next_ready_bounds(comms@, j + 1);
            },
            _ => {},
        }
    }
    (next, init_action(cfg, next))
}

/// Ends of database initialisation.
pub open spec fn is_final(step: InitStep) -> bool {
    step is Ready || step is Failed
}

/// How many steps at most are left before initialisation ends.
pub open spec fn init_rank(cfg: InitConfig, step: InitStep) -> nat {
    let l = cfg.neutron_communicators@.len();
    let b = 2 * l + 3;
    match step {
        InitStep::Ready => 0,
        InitStep::Failed => 0,
        InitStep::ResetNodeStates => 1,
        InitStep::SetCommunicatorCreds(j) => (1 + 2 * (l - j)) as nat,
        InitStep::CheckCommunicator(j) => (2 + 2 * (l - j)) as nat,
        InitStep::SetInterfaceCreds => b + 1,
        InitStep::CheckInterfaceUser => b + 2,
        InitStep::SetBlackboxCreds => b + 3,
        InitStep::CheckBlackboxUser => b + 4,
        InitStep::CreateAclTable => b + 5,
        InitStep::CheckAclTable => b + 6,
        InitStep::CreateUsersTable => b + 7,
        InitStep::CheckUsersTable => b + 8,
        InitStep::DisableDiscovery => b + 9,
        InitStep::CheckUnregisteredTable => b + 10,
        InitStep::CreateElementsTable => b + 11,
        InitStep::CheckElementsTable => b + 12,
        InitStep::CreateNodesTable => b + 13,
        InitStep::CheckNodesTable => b + 14,
    }
}

/// Initialisation always ends: every step before the end brings it
/// strictly closer to the end, whatever the outcome of its action.
pub proof fn lemma_init_terminates(cfg: InitConfig, step: InitStep, ok: bool)
    requires
        step_valid(cfg, step),
        cfg.neutron_communicators@.len() < usize::MAX,
        !is_final(step),
    ensures
        init_rank(cfg, init_next(cfg, step, ok)) < init_rank(cfg, step),
{
    let comms = cfg.neutron_communicators@;
    let l = comms.len();
    lemma_next_ready_bounds(comms, 0);
    match step {
        InitStep::CheckCommunicator(j) => {
            lemma_next_ready_bounds(comms, j + 1);
            let k = next_ready(comms, j + 1);
            if k < l {
                assert(j + 1 <= k);
                assert((k as usize) as int == k);
                assert(init_rank(cfg, InitStep::CheckCommunicator(k as usize)) == 2 + 2 * (l - k));
            }
            assert(init_rank(cfg, step) == 2 + 2 * (l - j));
        },
        InitStep::SetCommunicatorCreds(j) => {
            lemma_next_ready_bounds(comms, j + 1);
            let k = next_ready(comms, j + 1);
            if k < l {
                assert(j + 1 <= k);
                assert((k as usize) as int == k);
                assert(init_rank(cfg, InitStep::CheckCommunicator(k as usize)) == 2 + 2 * (l - k));
            }
            assert(init_rank(cfg, step) == 1 + 2 * (l - j));
        },
        _ => {
            let k = next_ready(comms, 0);
            if k < l {
                assert((k as usize) as int == k);
                assert(init_rank(cfg, InitStep::CheckCommunicator(k as usize)) == 2 + 2 * (l - k));
            }
        },
    }
}

/// Initialisation fails only right after creating a table or storing
/// credentials failed.
pub proof fn lemma_init_fails_only_after_failed_creation(cfg: InitConfig, step: InitStep, ok: bool)
    requires
        init_next(cfg, step, ok) is Failed,
        !(step is Failed),
    ensures
        !ok,
        step is CreateNodesTable || step is CreateElementsTable || step is CreateUsersTable
            || step is CreateAclTable || step is SetBlackboxCreds || step is SetInterfaceCreds
            || step is SetCommunicatorCreds,
{
    lemma_next_ready_bounds(cfg.neutron_communicators@, 0);
}

/// Initialisation succeeds only through resetting the nodes' states.
pub proof fn lemma_init_ready_only_after_reset(cfg: InitConfig, step: InitStep, ok: bool)
    requires
        init_next(cfg, step, ok) is Ready,
        !(step is Ready),
    ensures
        step is ResetNodeStates,
{
    lemma_next_ready_bounds(cfg.neutron_communicators@, 0);
}

/// The steps about the broker's tables and accounts.
pub open spec fn is_mqtt_step(step: InitStep) -> bool {
    step is CheckUsersTable || step is CreateUsersTable || step is CheckAclTable
        || step is CreateAclTable || step is CheckBlackboxUser || step is SetBlackboxCreds
        || step is CheckInterfaceUser || step is SetInterfaceCreds || step is CheckCommunicator
        || step is SetCommunicatorCreds
}

/// When the hub and the broker use different databases, initialisation
/// never touches the broker's tables or accounts: from a step that is not
/// about them, the next one is not either.
pub proof fn lemma_init_separate_db_skips_mqtt(cfg: InitConfig, step: InitStep, ok: bool)
    requires
        !cfg.bb_mqtt_same_db,
        !is_mqtt_step(step),
    ensures
        !is_mqtt_step(init_next(cfg, step, ok)),
{
}

/// Switching discovery on and then off again leaves no account for
/// unregistered nodes. Once the two plans that switch it on have run
/// without error, the broker holds a user and access control entries named
/// `unregistered_node`; once the two plans that switch it off have run
/// too, neither table holds a row of that name, and every other key is
/// where it was.
pub proof fn lemma_discovery_off_undoes_on(keys: TableKeys, hash: Seq<char>)
    ensures
        ({
            let u = MQTT_USERNAME_UNREGISTERED@;
            let on = apply_plan(apply_plan(keys, add_node_to_mqtt_users_spec(u, hash)), add_node_to_mqtt_acl_spec(true, u));
            let off = apply_plan(apply_plan(on, remove_from_mqtt_users_spec(u)), remove_node_from_mqtt_acl_spec(u));
            &&& on.mqtt_users == keys.mqtt_users.insert(u)
            &&& on.mqtt_acl == keys.mqtt_acl.insert(u)
            &&& off.mqtt_users == keys.mqtt_users.remove(u)
            &&& off.mqtt_acl == keys.mqtt_acl.remove(u)
            &&& off.nodes == keys.nodes
            &&& off.elements == keys.elements
            &&& off.unregistered == keys.unregistered
        }),
{
    lemma_keyed_sql_distinct();
    let u = MQTT_USERNAME_UNREGISTERED@;
    let users = add_node_to_mqtt_users_spec(u, hash);
    lemma_apply_single(keys, users[0]);
    assert(users =~= seq![users[0]]);
    let k1 = apply_plan(keys, users);
    let acl = add_node_to_mqtt_acl_spec(true, u);
    lemma_apply_three(k1, acl[0], acl[1], acl[2]);
    assert(acl =~= seq![acl[0], acl[1], acl[2]]);
    let on = apply_plan(k1, acl);
    assert(on.mqtt_acl =~= keys.mqtt_acl.insert(u));
    let r0 = remove_from_mqtt_users_spec(u);
    lemma_apply_single(on, r0[0]);
    assert(r0 =~= seq![r0[0]]);
    let k2 = apply_plan(on, r0);
    let r1 = remove_node_from_mqtt_acl_spec(u);
    lemma_apply_single(k2, r1[0]);
    assert(r1 =~= seq![r1[0]]);
    let off = apply_plan(k2, r1);
    assert(off.mqtt_users =~= keys.mqtt_users.remove(u));
    assert(off.mqtt_acl =~= keys.mqtt_acl.remove(u));
}

/// The last step of initialisation marks every node offline: its action
/// runs one statement, `UPDATE blackbox_nodes SET state = $1;`, with the
/// single parameter `false`.
pub proof fn lemma_init_reset_marks_offline(cfg: InitConfig, action: InitAction)
    requires
        action_matches(cfg, InitStep::ResetNodeStates, action),
    ensures
        action matches InitAction::RunPlan(p) && p@.len() == 1 && p@[0].sql == super::SQL_UPDATE_ALL_NODE_STATES@
            && p@[0].kind == StatementKind::Execute && p@[0].params == seq![SqlParamView::Bool(false)],
{
}

/// The statements that finish switching discovery: the table of
/// unregistered nodes is dropped by a batch that stops the program on
/// error, and, when switching on, created again by executing its creation.
pub proof fn lemma_finish_discovery_statements()
    ensures
        drop_unregistered_spec().kind == StatementKind::Batch,
        drop_unregistered_spec().sql == SQL_DROP_UNREGISTERED@,
        drop_unregistered_spec().params.len() == 0,
        drop_unregistered_spec().on_error == Verdict::Panic,
        create_unregistered_spec().kind == StatementKind::Execute,
        create_unregistered_spec().sql == SQL_CREATE_UNREGISTERED@,
        create_unregistered_spec().params.len() == 0,
{
}

/// Switching discovery on opens a shared account for unregistered nodes:
/// the user `unregistered_node` with the hash, not a superuser, and access
/// control entries on the unregistered topics only: read and write on
/// `unregistered/%c` (each client's own topic), subscription to and reading
/// of `unregistered`.
pub proof fn lemma_discovery_on_account(hash: Seq<char>)
    ensures
        add_node_to_mqtt_users_spec(MQTT_USERNAME_UNREGISTERED@, hash) == seq![
            must_succeed(SQL_INSERT_MQTT_USER@, seq![tv("unregistered_node"@), tv(hash), SqlParamView::Bool(false)]),
        ],
        add_node_to_mqtt_acl_spec(true, MQTT_USERNAME_UNREGISTERED@).len() == 3,
        forall|k: int| 0 <= k < 3 ==> {
            let st = #[trigger] add_node_to_mqtt_acl_spec(true, MQTT_USERNAME_UNREGISTERED@)[k];
            &&& st.sql == SQL_INSERT_ACL@
            &&& st.params.len() == 3
            &&& st.params[0] == tv("unregistered_node"@)
        },
        add_node_to_mqtt_acl_spec(true, MQTT_USERNAME_UNREGISTERED@)[0].params[1] == tv("unregistered/%c"@),
        add_node_to_mqtt_acl_spec(true, MQTT_USERNAME_UNREGISTERED@)[0].params[2] == SqlParamView::Int(3),
        add_node_to_mqtt_acl_spec(true, MQTT_USERNAME_UNREGISTERED@)[1].params[1] == tv("unregistered"@),
        add_node_to_mqtt_acl_spec(true, MQTT_USERNAME_UNREGISTERED@)[1].params[2] == SqlParamView::Int(4),
        add_node_to_mqtt_acl_spec(true, MQTT_USERNAME_UNREGISTERED@)[2].params[1] == tv("unregistered"@),
        add_node_to_mqtt_acl_spec(true, MQTT_USERNAME_UNREGISTERED@)[2].params[2] == SqlParamView::Int(1),
{
}

/// Each checking step of initialisation probes the table or account it is
/// named after: the table steps select from `blackbox_nodes`,
/// `blackbox_elements`, `blackbox_unregistered`, `mqtt_users` and
/// `mqtt_acl`, and the account steps look up the users `blackbox`,
/// `external_interface` and the communicator's name.
pub proof fn lemma_init_checks_probe_their_table(cfg: InitConfig, step: InitStep, action: InitAction)
    requires
        step_valid(cfg, step),
        action_matches(cfg, step, action),
    ensures
        step is CheckNodesTable ==> (action matches InitAction::RunPlan(p) && p@[0].sql
            == "SELECT 1 FROM "@ + "blackbox_nodes"@ + " LIMIT 1;"@),
        step is CheckElementsTable ==> (action matches InitAction::RunPlan(p) && p@[0].sql
            == "SELECT 1 FROM "@ + "blackbox_elements"@ + " LIMIT 1;"@),
        step is CheckUnregisteredTable ==> (action matches InitAction::RunPlan(p) && p@[0].sql
            == "SELECT 1 FROM "@ + "blackbox_unregistered"@ + " LIMIT 1;"@),
        step is CheckUsersTable ==> (action matches InitAction::RunPlan(p) && p@[0].sql
            == "SELECT 1 FROM "@ + "mqtt_users"@ + " LIMIT 1;"@),
        step is CheckAclTable ==> (action matches InitAction::RunPlan(p) && p@[0].sql
            == "SELECT 1 FROM "@ + "mqtt_acl"@ + " LIMIT 1;"@),
        step is CreateNodesTable ==> (action matches InitAction::RunPlan(p) && p@[0].sql == SQL_CREATE_NODES@),
        step is CreateElementsTable ==> (action matches InitAction::RunPlan(p) && p@[0].sql == SQL_CREATE_ELEMENTS@),
        step is CreateUsersTable ==> (action matches InitAction::RunPlan(p) && p@[0].sql == SQL_CREATE_MQTT_USERS@),
        step is CreateAclTable ==> (action matches InitAction::RunPlan(p) && p@[0].sql == SQL_CREATE_MQTT_ACL@),
        step is CheckBlackboxUser ==> (action matches InitAction::RunPlan(p) && p@[0].sql
            == "SELECT 1 FROM mqtt_users WHERE USERNAME='"@ + "blackbox"@ + "' LIMIT 1;"@),
        step is CheckInterfaceUser ==> (action matches InitAction::RunPlan(p) && p@[0].sql
            == "SELECT 1 FROM mqtt_users WHERE USERNAME='"@ + "external_interface"@ + "' LIMIT 1;"@),
        step matches InitStep::CheckCommunicator(j) ==> (action matches InitAction::RunPlan(p) && p@[0].sql
            == "SELECT 1 FROM mqtt_users WHERE USERNAME='"@ + cfg.neutron_communicators@[j as int].mqtt_username@
            + "' LIMIT 1;"@),
        step is SetBlackboxCreds ==> action is Abandon || (action matches InitAction::RunPlan(p) && p@.len() == 2
            && p@[1].sql == SQL_INSERT_MQTT_USER@ && p@[1].params[0] == tv("blackbox"@)
            && p@[1].params[2] == SqlParamView::Bool(true)),
        step is SetInterfaceCreds ==> action is Abandon || (action matches InitAction::RunPlan(p) && p@.len() == 7
            && p@[1].sql == SQL_INSERT_MQTT_USER@ && p@[1].params[0] == tv("external_interface"@)
            && p@[1].params[2] == SqlParamView::Bool(false)),
        step matches InitStep::SetCommunicatorCreds(j) ==> action is Abandon || (action matches InitAction::RunPlan(p)
            && p@.len() == 6 && p@[1].sql == SQL_INSERT_MQTT_USER@
            && p@[1].params[0] == tv(cfg.neutron_communicators@[j as int].mqtt_username@)
            && p@[1].params[2] == SqlParamView::Bool(false)),
{
    reveal_strlit("blackbox_nodes");
    reveal_strlit("blackbox_elements");
    reveal_strlit("blackbox_unregistered");
    reveal_strlit("mqtt_users");
    reveal_strlit("mqtt_acl");
    reveal_strlit("blackbox");
    reveal_strlit("external_interface");
    match action {
        InitAction::RunPlan(p) => {
            if step is SetBlackboxCreds {
                let h = choose|h: Seq<char>| is_hash_of(h, cfg.mqtt_blackbox_pass@) && p@ == #[trigger] mqtt_bb_creds_spec(h);
                assert(p@ == mqtt_bb_creds_spec(h));
            }
            if step is SetInterfaceCreds {
                let h = choose|h: Seq<char>| is_hash_of(h, cfg.web_interface_pass@) && p@ == #[trigger] external_interface_creds_spec(h);
                assert(p@ == external_interface_creds_spec(h));
            }
            if let InitStep::SetCommunicatorCreds(j) = step {
                let c = cfg.neutron_communicators@[j as int];
                let h = choose|h: Seq<char>| is_hash_of(h, c.mqtt_password@) && p@ == #[trigger] neutron_communicator_creds_spec(c.mqtt_username@, h);
                assert(p@ == neutron_communicator_creds_spec(c.mqtt_username@, h));
            }
        },
        _ => {},
    }
}

/// A missing table or account is created, and start-up goes on once it
/// exists: each check that finds nothing leads to the matching creation,
/// each check that finds it, or creation that succeeds, leads to the next
/// check; a failed creation ends start-up as failed; a leftover table of
/// unregistered nodes is cleared by switching discovery off; the broker's
/// tables are checked only when it shares the database.
pub proof fn lemma_init_creates_what_is_missing(cfg: InitConfig)
    ensures
        init_next(cfg, InitStep::CheckNodesTable, false) == InitStep::CreateNodesTable,
        init_next(cfg, InitStep::CheckNodesTable, true) == InitStep::CheckElementsTable,
        init_next(cfg, InitStep::CreateNodesTable, true) == InitStep::CheckElementsTable,
        init_next(cfg, InitStep::CreateNodesTable, false) == InitStep::Failed,
        init_next(cfg, InitStep::CheckElementsTable, false) == InitStep::CreateElementsTable,
        init_next(cfg, InitStep::CheckElementsTable, true) == InitStep::CheckUnregisteredTable,
        init_next(cfg, InitStep::CreateElementsTable, true) == InitStep::CheckUnregisteredTable,
        init_next(cfg, InitStep::CreateElementsTable, false) == InitStep::Failed,
        init_next(cfg, InitStep::CheckUnregisteredTable, true) == InitStep::DisableDiscovery,
        forall|ok: bool| #[trigger] init_next(cfg, InitStep::DisableDiscovery, ok) == (if cfg.bb_mqtt_same_db {
            InitStep::CheckUsersTable
        } else {
            InitStep::ResetNodeStates
        }),
        init_next(cfg, InitStep::CheckUnregisteredTable, false) == (if cfg.bb_mqtt_same_db {
            InitStep::CheckUsersTable
        } else {
            InitStep::ResetNodeStates
        }),
        init_next(cfg, InitStep::CheckUsersTable, false) == InitStep::CreateUsersTable,
        init_next(cfg, InitStep::CheckUsersTable, true) == InitStep::CheckAclTable,
        init_next(cfg, InitStep::CreateUsersTable, true) == InitStep::CheckAclTable,
        init_next(cfg, InitStep::CreateUsersTable, false) == InitStep::Failed,
        init_next(cfg, InitStep::CheckAclTable, false) == InitStep::CreateAclTable,
        init_next(cfg, InitStep::CheckAclTable, true) == InitStep::CheckBlackboxUser,
        init_next(cfg, InitStep::CreateAclTable, true) == InitStep::CheckBlackboxUser,
        init_next(cfg, InitStep::CreateAclTable, false) == InitStep::Failed,
        init_next(cfg, InitStep::CheckBlackboxUser, false) == InitStep::SetBlackboxCreds,
        init_next(cfg, InitStep::CheckBlackboxUser, true) == InitStep::CheckInterfaceUser,
        init_next(cfg, InitStep::SetBlackboxCreds, true) == InitStep::CheckInterfaceUser,
        init_next(cfg, InitStep::SetBlackboxCreds, false) == InitStep::Failed,
        init_next(cfg, InitStep::CheckInterfaceUser, false) == InitStep::SetInterfaceCreds,
        init_next(cfg, InitStep::SetInterfaceCreds, false) == InitStep::Failed,
        forall|j: usize| #[trigger] init_next(cfg, InitStep::CheckCommunicator(j), false) == InitStep::SetCommunicatorCreds(j),
        forall|j: usize| #[trigger] init_next(cfg, InitStep::SetCommunicatorCreds(j), false) == InitStep::Failed,
        forall|ok: bool| #[trigger] init_next(cfg, InitStep::ResetNodeStates, ok) == InitStep::Ready,
{
}

/// The communicators' accounts are checked in order, and exactly those with
/// both a name and a password: from position `i`, the next step checks the
/// first such communicator at or after `i`, and once none is left the node
/// states are reset.
pub proof fn lemma_init_checks_ready_communicators(comms: Seq<NeutronCommunicator>, i: int)
    requires
        0 <= i,
        comms.len() < usize::MAX,
    ensures
        communicator_step(comms, i) matches InitStep::CheckCommunicator(j) ==> {
            &&& i <= j < comms.len()
            &&& comms[j as int].mqtt_username@.len() > 0
            &&& comms[j as int].mqtt_password@.len() > 0
            &&& forall|k: int| i <= k < j ==> !communicator_ready(#[trigger] comms[k])
        },
        communicator_step(comms, i) is ResetNodeStates ==> forall|k: int| i <= k < comms.len() ==> !communicator_ready(
            #[trigger] comms[k],
        ),
        communicator_step(comms, i) is CheckCommunicator || communicator_step(comms, i) is ResetNodeStates,
    decreases comms.len() - i,
{
    lemma_next_ready_bounds(comms, i);
    if i < comms.len() && !communicator_ready(comms[i]) {
        lemma_init_checks_ready_communicators(comms, i + 1);
        assert(next_ready(comms, i) == next_ready(comms, i + 1));
    }
}

} // verus!
