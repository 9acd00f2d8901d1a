//! The hub's settings file: its structure, and what loading it fills in
//! when fields are left empty.

use vstd::prelude::*;
use vstd::string::*;

use crate::credentials::{generate_mqtt_password, is_charset_string, PASS_LEN};

verus! {

/// Where the settings file is.
pub const SETTINGS_FILE_LOCATION: &'static str = "/etc/BlackBox/settings.json";

/// Database and configuration settings of the Mosquitto broker.
pub struct SettingsMosquitto {
    pub mosquitto_conf_save_location: String,
    pub db_ip: String,
    pub db_port: String,
    pub db_username: String,
    pub db_password: String,
    pub db_name: String,
}

/// How the hub reaches the MQTT broker.
pub struct SettingsMqttClient {
    pub mqtt_ip: String,
    pub mqtt_port: String,
    pub mqtt_password: String,
    /// Certificate authority file the broker's certificate is checked against.
    pub cafile: String,
}

/// Settings about nodes.
pub struct SettingsNodes {
    pub mqtt_unregistered_node_password: String,
}

/// The hub's database.
pub struct SettingsDatabase {
    pub db_ip: String,
    pub db_port: String,
    pub db_username: String,
    pub db_password: String,
    pub db_name: String,
}

/// MQTT account of the external interface.
pub struct SettingsWebInterface {
    pub mqtt_password: String,
}

/// MQTT account of a neutron communicator.
pub struct NeutronCommunicator {
    pub mqtt_username: String,
    pub mqtt_password: String,
}

/// All settings.
pub struct Settings {
    pub mosquitto_broker_config: SettingsMosquitto,
    pub database_settings: SettingsDatabase,
    pub blackbox_mqtt_client: SettingsMqttClient,
    pub nodes: SettingsNodes,
    pub external_interface_settings: SettingsWebInterface,
    pub neutron_communicators: Vec<NeutronCommunicator>,
}

/// The password unregistered nodes use when the settings leave it empty.
pub const DEFAULT_UNREGISTERED_NODE_PASSWORD: &'static str = "unregistered";

/// The database password is to be read from its file: the settings leave
/// it empty.
pub fn needs_db_password_file(settings: &Settings) -> (r: bool)
    ensures
        r == (settings.database_settings.db_password@.len() == 0),
{
    settings.database_settings.db_password.as_str().is_empty()
}

/// Passwords generated while loading that are to be written back to the
/// settings file.
pub struct SettingsSaves {
    pub mqtt_password: Option<String>,
    pub web_interface_password: Option<String>,
}

/// Everything but the passwords is left as it was.
pub open spec fn same_except_passwords(a: Settings, b: Settings) -> bool {
    &&& a.mosquitto_broker_config.mosquitto_conf_save_location == b.mosquitto_broker_config.mosquitto_conf_save_location
    &&& a.mosquitto_broker_config.db_ip == b.mosquitto_broker_config.db_ip
    &&& a.mosquitto_broker_config.db_port == b.mosquitto_broker_config.db_port
    &&& a.mosquitto_broker_config.db_username == b.mosquitto_broker_config.db_username
    &&& a.mosquitto_broker_config.db_name == b.mosquitto_broker_config.db_name
    &&& a.database_settings.db_ip == b.database_settings.db_ip
    &&& a.database_settings.db_port == b.database_settings.db_port
    &&& a.database_settings.db_username == b.database_settings.db_username
    &&& a.database_settings.db_name == b.database_settings.db_name
    &&& a.blackbox_mqtt_client.mqtt_ip == b.blackbox_mqtt_client.mqtt_ip
    &&& a.blackbox_mqtt_client.mqtt_port == b.blackbox_mqtt_client.mqtt_port
    &&& a.blackbox_mqtt_client.cafile == b.blackbox_mqtt_client.cafile
    &&& a.neutron_communicators == b.neutron_communicators
}

/// The value a password field has after loading: as it was, or, when it
/// was empty, `filled`.
pub open spec fn filled_if_empty(before: Seq<char>, filled: Seq<char>) -> Seq<char> {
    if before.len() == 0 {
        filled
    } else {
        before
    }
}

/// What loading does to `before` when it succeeds, giving `after` and the
/// passwords to save.
pub open spec fn loaded(before: Settings, after: Settings, saves: SettingsSaves, db_file_password: Option<String>) -> bool {
    let fpw = match db_file_password {
        Some(p) => p@,
        None => Seq::empty(),
    };
    let db_empty = before.database_settings.db_password@.len() == 0;
    &&& same_except_passwords(before, after)
    &&& after.database_settings.db_password@ == filled_if_empty(before.database_settings.db_password@, fpw)
    &&& after.mosquitto_broker_config.db_password@ == (if db_empty {
        filled_if_empty(before.mosquitto_broker_config.db_password@, fpw)
    } else {
        before.mosquitto_broker_config.db_password@
    })
    &&& (before.blackbox_mqtt_client.mqtt_password@.len() == 0 ==> (saves.mqtt_password matches Some(p)
        && p@ == after.blackbox_mqtt_client.mqtt_password@ && is_charset_string(p@, PASS_LEN as nat)))
    &&& (before.blackbox_mqtt_client.mqtt_password@.len() > 0 ==> saves.mqtt_password is None
        && after.blackbox_mqtt_client.mqtt_password@ == before.blackbox_mqtt_client.mqtt_password@)
    &&& after.nodes.mqtt_unregistered_node_password@ == filled_if_empty(
        before.nodes.mqtt_unregistered_node_password@,
        DEFAULT_UNREGISTERED_NODE_PASSWORD@,
    )
    &&& (before.external_interface_settings.mqtt_password@.len() == 0 ==> (saves.web_interface_password matches Some(p)
        && p@ == after.external_interface_settings.mqtt_password@ && is_charset_string(p@, PASS_LEN as nat)))
    &&& (before.external_interface_settings.mqtt_password@.len() > 0 ==> saves.web_interface_password is None
        && after.external_interface_settings.mqtt_password@ == before.external_interface_settings.mqtt_password@)
}

/// The kind of error loading the settings reports, as `std::io::ErrorKind`
/// names it.
#[derive(Clone, Copy, Debug)]
pub enum LoadErrorKind {
    /// The settings cannot be used as they are: no database password is
    /// set and none could be read from its file.
    InvalidData,
    /// A password had to be generated and the system's entropy source
    /// failed.
    Other,
}

/// No database password: the settings leave it empty and its file gave none.
pub open spec fn db_password_missing(settings: Settings, db_file_password: Option<String>) -> bool {
    settings.database_settings.db_password@.len() == 0 && db_file_password is None
}

/// Fills in what the settings leave empty. An empty database password is
/// taken from its file (`db_file_password`), and then also serves the
/// broker's database when that one is empty too; without it loading fails
/// with an invalid-data error. An empty password of the hub or of the
/// external interface is generated and is to be saved; an empty password of
/// unregistered nodes becomes `unregistered`. When generating a password
/// fails, loading fails with an `Other` error. On failure nothing changes.
pub fn load_settings(settings: &mut Settings, db_file_password: Option<String>) -> (r: Result<SettingsSaves, LoadErrorKind>)
    ensures
        db_password_missing(*old(settings), db_file_password) ==> r matches Err(LoadErrorKind::InvalidData),
        r matches Err(LoadErrorKind::InvalidData) ==> db_password_missing(*old(settings), db_file_password),
        r matches Err(LoadErrorKind::Other) ==> (old(settings).blackbox_mqtt_client.mqtt_password@.len() == 0
            || old(settings).external_interface_settings.mqtt_password@.len() == 0),
        (!db_password_missing(*old(settings), db_file_password)
            && old(settings).blackbox_mqtt_client.mqtt_password@.len() > 0
            && old(settings).external_interface_settings.mqtt_password@.len() > 0) ==> r is Ok,
        r is Err ==> *final(settings) == *old(settings),
        r matches Ok(saves) ==> loaded(*old(settings), *final(settings), saves, db_file_password),
{
    let db_empty = settings.database_settings.db_password.as_str().is_empty();
    if db_empty && db_file_password.is_none() {
        return Err(LoadErrorKind::InvalidData);
    }
    let mqtt_password = if settings.blackbox_mqtt_client.mqtt_password.as_str().is_empty() {
        match generate_mqtt_password() {
            Some(p) => Some(p),
            None => {
                return Err(LoadErrorKind::Other);
            },
        }
    } else {
        None
    };
    let web_interface_password = if settings.external_interface_settings.mqtt_password.as_str().is_empty() {
        match generate_mqtt_password() {
            Some(p) => Some(p),
            None => {
                return Err(LoadErrorKind::Other);
            },
        }
    } else {
        None
    };
    if db_empty {
        match db_file_password {
            Some(pass) => {
                if settings.mosquitto_broker_config.db_password.as_str().is_empty() {
                    settings.mosquitto_broker_config.db_password = pass.clone();
                }
                settings.database_settings.db_password = pass;
            },
            None => {},
        }
    }
    match &mqtt_password {
        Some(p) => {
            settings.blackbox_mqtt_client.mqtt_password = p.clone();
        },
        None => {},
    }
    if settings.nodes.mqtt_unregistered_node_password.as_str().is_empty() {
        settings.nodes.mqtt_unregistered_node_password = String::from_str(DEFAULT_UNREGISTERED_NODE_PASSWORD);
    }
    match &web_interface_password {
        Some(p) => {
            settings.external_interface_settings.mqtt_password = p.clone();
        },
        None => {},
    }
    Ok(SettingsSaves { mqtt_password, web_interface_password })
}

/// `written` is the settings file `file` once the passwords that loading
/// generated (`saves`) were written back to it: each generated password in
/// its field, everything else as it was.
pub open spec fn saved_back(file: Settings, saves: SettingsSaves, written: Settings) -> bool {
    &&& same_except_passwords(file, written)
    &&& written.database_settings.db_password@ == file.database_settings.db_password@
    &&& written.mosquitto_broker_config.db_password@ == file.mosquitto_broker_config.db_password@
    &&& written.nodes.mqtt_unregistered_node_password@ == file.nodes.mqtt_unregistered_node_password@
    &&& written.blackbox_mqtt_client.mqtt_password@ == (match saves.mqtt_password {
        Some(p) => p@,
        None => file.blackbox_mqtt_client.mqtt_password@,
    })
    &&& written.external_interface_settings.mqtt_password@ == (match saves.web_interface_password {
        Some(p) => p@,
        None => file.external_interface_settings.mqtt_password@,
    })
}

/// The same database password file contents, or none both times.
pub open spec fn same_file_password(a: Option<String>, b: Option<String>) -> bool {
    match (a, b) {
        (Some(p), Some(q)) => p@ == q@,
        (None, None) => true,
        _ => false,
    }
}

/// Generated passwords are saved, not generated again: once a load of the
/// settings file succeeded and the passwords it generated were written back
/// to the file, loading the file again generates no password and gives the
/// same passwords of the hub, of the external interface and of unregistered
/// nodes as the first load, and the same everything else; with the same
/// database password file, the same database passwords too.
pub proof fn lemma_saved_passwords_survive_reload(
    file: Settings,
    first: Settings,
    saves: SettingsSaves,
    db_file_password: Option<String>,
    written: Settings,
    again: Settings,
    saves_again: SettingsSaves,
    db_file_password_again: Option<String>,
)
    requires
        loaded(file, first, saves, db_file_password),
        saved_back(file, saves, written),
        loaded(written, again, saves_again, db_file_password_again),
    ensures
        saves_again.mqtt_password is None,
        saves_again.web_interface_password is None,
        same_except_passwords(first, again),
        again.blackbox_mqtt_client.mqtt_password@ == first.blackbox_mqtt_client.mqtt_password@,
        again.external_interface_settings.mqtt_password@ == first.external_interface_settings.mqtt_password@,
        again.nodes.mqtt_unregistered_node_password@ == first.nodes.mqtt_unregistered_node_password@,
        same_file_password(db_file_password, db_file_password_again)
            ==> again.database_settings.db_password@ == first.database_settings.db_password@,
        same_file_password(db_file_password, db_file_password_again)
            ==> again.mosquitto_broker_config.db_password@ == first.mosquitto_broker_config.db_password@,
{
}

/// Settings once loaded, with the generated passwords to save.
pub struct LoadedSettings {
    pub settings: Settings,
    pub saves: SettingsSaves,
}

/// Loading the settings: fails when the settings file does not exist or
/// could not be read as settings (`parsed` is `None`); otherwise the empty
/// fields are filled in as `load_settings` does, failing as it does.
pub fn init(file_exists: bool, parsed: Option<Settings>, db_file_password: Option<String>) -> (r: Result<LoadedSettings, ()>)
    ensures
        !file_exists ==> r is Err,
        parsed is None ==> r is Err,
        (file_exists && parsed is Some && db_password_missing(parsed->0, db_file_password)) ==> r is Err,
        (file_exists && parsed is Some && !db_password_missing(parsed->0, db_file_password)
            && parsed->0.blackbox_mqtt_client.mqtt_password@.len() > 0
            && parsed->0.external_interface_settings.mqtt_password@.len() > 0) ==> r is Ok,
        (r is Err && file_exists && parsed is Some) ==> (db_password_missing(parsed->0, db_file_password)
            || parsed->0.blackbox_mqtt_client.mqtt_password@.len() == 0
            || parsed->0.external_interface_settings.mqtt_password@.len() == 0),
        r matches Ok(l) ==> parsed is Some && loaded(parsed->0, l.settings, l.saves, db_file_password),
{
    if !file_exists {
        return Err(());
    }
    match parsed {
        None => Err(()),
        Some(mut settings) => match load_settings(&mut settings, db_file_password) {
            Ok(saves) => Ok(LoadedSettings { settings, saves }),
            Err(_) => Err(()),
        },
    }
}

} // verus!
