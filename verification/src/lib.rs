//! BlackBox: the hub that registers IoT nodes, keeps their state in a
//! database and relays commands between the nodes and the external interface.

pub mod text;
pub mod plan;
pub mod credentials;
pub mod messages;
pub mod mqtt_broker_manager;
pub mod nodes;
pub mod external_interface;
pub mod neutron_communicator;
pub mod db_manager;
pub mod settings;
pub mod hub;

use vstd::prelude::*;

verus! {

/// MQTT user name of the hub itself.
pub const BLACKBOX_MQTT_USERNAME: &'static str = "blackbox";

/// MQTT user name of the external interface.
pub const INTERFACE_MQTT_USERNAME: &'static str = "external_interface";

/// Whether the broker and the hub use the same database server: same
/// address, port and database name.
pub fn bb_mqtt_using_same_db(
    mosquitto_broker_config: &settings::SettingsMosquitto,
    bb_db_settings: &settings::SettingsDatabase,
) -> (same: bool)
    ensures
        same == (mosquitto_broker_config.db_ip@ == bb_db_settings.db_ip@
            && mosquitto_broker_config.db_port@ == bb_db_settings.db_port@
            && mosquitto_broker_config.db_name@ == bb_db_settings.db_name@),
{
    text::str_eq(mosquitto_broker_config.db_ip.as_str(), bb_db_settings.db_ip.as_str())
        && text::str_eq(mosquitto_broker_config.db_port.as_str(), bb_db_settings.db_port.as_str())
        && text::str_eq(mosquitto_broker_config.db_name.as_str(), bb_db_settings.db_name.as_str())
}

} // verus!
