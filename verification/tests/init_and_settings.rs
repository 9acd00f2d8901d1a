use black_box::bb_mqtt_using_same_db;
use black_box::db_manager::lifecycle::{
    init_new_password, init_record_hub_creds, init_start, init_step, InitAction, InitConfig, InitStep,
};
use black_box::mqtt_broker_manager::generate_mosquitto_conf;
use black_box::settings::{
    init, load_settings, LoadErrorKind, NeutronCommunicator, Settings, SettingsDatabase, SettingsMosquitto, SettingsMqttClient,
    SettingsNodes, SettingsWebInterface,
};

fn comm(user: &str, pass: &str) -> NeutronCommunicator {
    NeutronCommunicator { mqtt_username: user.to_string(), mqtt_password: pass.to_string() }
}

fn config(same_db: bool, comms: Vec<NeutronCommunicator>) -> InitConfig {
    InitConfig {
        bb_mqtt_same_db: same_db,
        mqtt_blackbox_pass: "bbpass".to_string(),
        web_interface_pass: "wipass".to_string(),
        neutron_communicators: comms,
    }
}

fn first_sql(a: &InitAction) -> String {
    match a {
        InitAction::RunPlan(p) => p.statements[0].sql.clone(),
        _ => panic!("expected a plan"),
    }
}

/// Runs initialisation with the given outcomes, returning the steps taken.
fn walk(cfg: &InitConfig, outcomes: &[bool]) -> (Vec<InitStep>, Vec<InitAction>) {
    let (mut step, action) = init_start(cfg);
    let mut steps = vec![step];
    let mut actions = vec![action];
    for &ok in outcomes {
        let (next, action) = init_step(cfg, step, ok);
        step = next;
        steps.push(step);
        actions.push(action);
    }
    (steps, actions)
}

#[test]
fn init_fresh_shared_database() {
    let cfg = config(true, vec![comm("skipped", ""), comm("neco1", "pw")]);
    let outcomes = [
        false, // nodes table missing
        true,  // created
        true,  // elements table there
        true,  // unregistered table left over
        true,  // discovery switched off
        true,  // users table there
        true,  // acl table there
        false, // hub user missing
        true,  // hub credentials stored
        true,  // interface user there
        false, // communicator neco1 missing
        true,  // its credentials stored
        false, // resetting node states changed nothing: ignored
    ];
    let (steps, actions) = walk(&cfg, &outcomes);
    let expected = [
        "CheckNodesTable", "CreateNodesTable", "CheckElementsTable", "CheckUnregisteredTable",
        "DisableDiscovery", "CheckUsersTable", "CheckAclTable", "CheckBlackboxUser", "SetBlackboxCreds",
        "CheckInterfaceUser", "CheckCommunicator(1)", "SetCommunicatorCreds(1)", "ResetNodeStates", "Ready",
    ];
    let got: Vec<String> = steps.iter().map(|s| format!("{:?}", s)).collect();
    assert_eq!(got, expected);
    assert_eq!(first_sql(&actions[0]), "SELECT 1 FROM blackbox_nodes LIMIT 1;");
    assert!(matches!(actions[4], InitAction::DisableDiscovery));
    assert_eq!(first_sql(&actions[10]), "SELECT 1 FROM mqtt_users WHERE USERNAME='neco1' LIMIT 1;");
    assert_eq!(first_sql(&actions[12]), "UPDATE blackbox_nodes SET state = $1;");
    assert!(matches!(actions[13], InitAction::Finish(true)));
}

/// The new password initialisation hands back after the given outcomes.
fn new_password(cfg: &InitConfig, outcomes: &[bool]) -> String {
    let (mut step, _) = init_start(cfg);
    let mut stored = false;
    for &ok in outcomes {
        stored = init_record_hub_creds(stored, step, ok);
        step = init_step(cfg, step, ok).0;
    }
    assert!(matches!(step, InitStep::Ready));
    init_new_password(cfg, stored)
}

#[test]
fn init_hands_back_new_hub_password() {
    let cfg = config(true, vec![]);
    // The hub's user was missing and got stored.
    assert_eq!(new_password(&cfg, &[true, true, false, true, true, false, true, true, true]), "bbpass");
    // Everything was there already.
    assert_eq!(new_password(&cfg, &[true, true, false, true, true, true, true, true]), "");
}

#[test]
fn init_fails_when_creation_fails() {
    let cfg = config(true, vec![]);
    let (steps, actions) = walk(&cfg, &[false, false]);
    assert!(matches!(steps[2], InitStep::Failed));
    assert!(matches!(actions[2], InitAction::Finish(false)));
}

#[test]
fn init_separate_database_skips_broker_tables() {
    let cfg = config(false, vec![comm("neco1", "pw")]);
    let (steps, _) = walk(&cfg, &[true, true, false, true]);
    let got: Vec<String> = steps.iter().map(|s| format!("{:?}", s)).collect();
    assert_eq!(got, ["CheckNodesTable", "CheckElementsTable", "CheckUnregisteredTable", "ResetNodeStates", "Ready"]);
}

#[test]
fn init_existing_accounts_are_kept() {
    let cfg = config(true, vec![comm("neco1", "pw")]);
    let (steps, _) = walk(&cfg, &[true, true, false, true, true, true, true, true, true]);
    let got: Vec<String> = steps.iter().map(|s| format!("{:?}", s)).collect();
    assert_eq!(
        got,
        [
            "CheckNodesTable", "CheckElementsTable", "CheckUnregisteredTable", "CheckUsersTable", "CheckAclTable",
            "CheckBlackboxUser", "CheckInterfaceUser", "CheckCommunicator(0)", "ResetNodeStates", "Ready",
        ]
    );
}

fn settings(db_pw: &str, mosq_pw: &str, mqtt_pw: &str, unreg_pw: &str, wi_pw: &str) -> Settings {
    Settings {
        mosquitto_broker_config: SettingsMosquitto {
            mosquitto_conf_save_location: "/etc/mosquitto/mosquitto.conf".to_string(),
            db_ip: "127.0.0.1".to_string(),
            db_port: "5432".to_string(),
            db_username: "postgres".to_string(),
            db_password: mosq_pw.to_string(),
            db_name: "postgres".to_string(),
        },
        database_settings: SettingsDatabase {
            db_ip: "127.0.0.1".to_string(),
            db_port: "5432".to_string(),
            db_username: "postgres".to_string(),
            db_password: db_pw.to_string(),
            db_name: "postgres".to_string(),
        },
        blackbox_mqtt_client: SettingsMqttClient {
            mqtt_ip: "127.0.0.1".to_string(),
            mqtt_port: "8883".to_string(),
            mqtt_password: mqtt_pw.to_string(),
            cafile: "/etc/BlackBox/ca.crt".to_string(),
        },
        nodes: SettingsNodes { mqtt_unregistered_node_password: unreg_pw.to_string() },
        external_interface_settings: SettingsWebInterface { mqtt_password: wi_pw.to_string() },
        neutron_communicators: vec![],
    }
}

#[test]
fn load_settings_fills_empty_fields() {
    let mut s = settings("", "", "", "", "");
    let saves = load_settings(&mut s, Some("filepw".to_string())).unwrap();
    assert_eq!(s.database_settings.db_password, "filepw");
    assert_eq!(s.mosquitto_broker_config.db_password, "filepw");
    assert_eq!(s.nodes.mqtt_unregistered_node_password, "unregistered");
    assert_eq!(s.blackbox_mqtt_client.mqtt_password.len(), 16);
    assert_eq!(saves.mqtt_password.as_deref(), Some(s.blackbox_mqtt_client.mqtt_password.as_str()));
    assert_eq!(s.external_interface_settings.mqtt_password.len(), 16);
    assert_eq!(saves.web_interface_password.as_deref(), Some(s.external_interface_settings.mqtt_password.as_str()));
}

#[test]
fn loading_again_changes_nothing() {
    let mut s = settings("", "", "", "", "");
    load_settings(&mut s, Some("filepw".to_string())).unwrap();
    let first = (
        s.database_settings.db_password.clone(),
        s.mosquitto_broker_config.db_password.clone(),
        s.blackbox_mqtt_client.mqtt_password.clone(),
        s.nodes.mqtt_unregistered_node_password.clone(),
        s.external_interface_settings.mqtt_password.clone(),
    );
    let saves = load_settings(&mut s, None).unwrap();
    assert!(saves.mqtt_password.is_none());
    assert!(saves.web_interface_password.is_none());
    let second = (
        s.database_settings.db_password.clone(),
        s.mosquitto_broker_config.db_password.clone(),
        s.blackbox_mqtt_client.mqtt_password.clone(),
        s.nodes.mqtt_unregistered_node_password.clone(),
        s.external_interface_settings.mqtt_password.clone(),
    );
    assert_eq!(first, second);
}

#[test]
fn saved_passwords_survive_reload() {
    let file = settings("", "", "", "", "");
    let mut first = settings("", "", "", "", "");
    let saves = load_settings(&mut first, Some("filepw".to_string())).unwrap();
    // Write the generated passwords back into the file.
    let mut written = file;
    written.blackbox_mqtt_client.mqtt_password = saves.mqtt_password.clone().unwrap();
    written.external_interface_settings.mqtt_password = saves.web_interface_password.clone().unwrap();
    let mut again = written;
    let saves_again = load_settings(&mut again, Some("filepw".to_string())).unwrap();
    assert!(saves_again.mqtt_password.is_none());
    assert!(saves_again.web_interface_password.is_none());
    assert_eq!(again.blackbox_mqtt_client.mqtt_password, first.blackbox_mqtt_client.mqtt_password);
    assert_eq!(again.external_interface_settings.mqtt_password, first.external_interface_settings.mqtt_password);
    assert_eq!(again.nodes.mqtt_unregistered_node_password, first.nodes.mqtt_unregistered_node_password);
    assert_eq!(again.database_settings.db_password, first.database_settings.db_password);
    assert_eq!(again.mosquitto_broker_config.db_password, first.mosquitto_broker_config.db_password);
}

#[test]
fn load_settings_keeps_set_fields() {
    let mut s = settings("dbpw", "", "mq", "unreg", "wi");
    let saves = load_settings(&mut s, None).unwrap();
    assert_eq!(s.database_settings.db_password, "dbpw");
    // The broker's password is only filled from the file.
    assert_eq!(s.mosquitto_broker_config.db_password, "");
    assert_eq!(s.blackbox_mqtt_client.mqtt_password, "mq");
    assert_eq!(s.nodes.mqtt_unregistered_node_password, "unreg");
    assert_eq!(s.external_interface_settings.mqtt_password, "wi");
    assert!(saves.mqtt_password.is_none());
    assert!(saves.web_interface_password.is_none());
}

#[test]
fn load_settings_keeps_broker_password() {
    let mut s = settings("", "mosqpw", "mq", "u", "wi");
    load_settings(&mut s, Some("filepw".to_string())).unwrap();
    assert_eq!(s.database_settings.db_password, "filepw");
    assert_eq!(s.mosquitto_broker_config.db_password, "mosqpw");
}

#[test]
fn load_settings_fails_without_database_password() {
    let mut s = settings("", "", "", "", "");
    assert!(matches!(load_settings(&mut s, None), Err(LoadErrorKind::InvalidData)));
    assert_eq!(s.blackbox_mqtt_client.mqtt_password, "");
}

#[test]
fn init_needs_a_settings_file() {
    assert!(init(false, Some(settings("a", "b", "c", "d", "e")), None).is_err());
    assert!(init(true, None, None).is_err());
    let l = init(true, Some(settings("a", "b", "c", "", "e")), None).unwrap();
    assert_eq!(l.settings.nodes.mqtt_unregistered_node_password, "unregistered");
}

#[test]
fn same_database_compares_address_port_and_name() {
    let s = settings("a", "b", "c", "d", "e");
    assert!(bb_mqtt_using_same_db(&s.mosquitto_broker_config, &s.database_settings));
    let mut other = settings("a", "b", "c", "d", "e");
    other.database_settings.db_port = "5433".to_string();
    assert!(!bb_mqtt_using_same_db(&s.mosquitto_broker_config, &other.database_settings));
    let mut other = settings("a", "b", "c", "d", "e");
    other.database_settings.db_username = "someone".to_string();
    assert!(bb_mqtt_using_same_db(&s.mosquitto_broker_config, &other.database_settings));
    let mut other = settings("a", "b", "c", "d", "e");
    other.database_settings.db_name = "bb".to_string();
    assert!(!bb_mqtt_using_same_db(&s.mosquitto_broker_config, &other.database_settings));
}

#[test]
fn mosquitto_configuration_text() {
    let s = settings("a", "secret", "c", "d", "e");
    let conf = generate_mosquitto_conf(&s.mosquitto_broker_config);
    let expected = format!("listener 8883\n
persistence false\n
log_type all\n
log_dest syslog\n
allow_anonymous false\n
cafile /mosquitto/config/ca.crt\n
certfile /mosquitto/config/server.crt\n
keyfile /mosquitto/config/server.key\n
require_certificate false\n
auth_plugin /mosquitto/config/auth-plug.so\n
auth_opt_backends postgres\n
auth_opt_host database_postgres\n
auth_opt_port {}\n
auth_opt_dbname {}\n
auth_opt_user {}\n
auth_opt_pass {}\n
auth_opt_userquery SELECT password FROM mqtt_users WHERE username = $1 limit 1\n
auth_opt_superquery SELECT COALESCE(COUNT(*),0) FROM mqtt_users WHERE username = $1 AND superuser = 1\n
auth_opt_aclquery SELECT topic FROM mqtt_acl WHERE (username = $1) AND (rw >= $2)",
        "5432", "postgres", "postgres", "secret");
    assert_eq!(conf, expected);
}
