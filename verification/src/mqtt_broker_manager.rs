//! MQTT topics the hub uses, what it does once connected to the broker, and
//! the configuration file of the Mosquitto broker.

use vstd::prelude::*;
use vstd::string::*;

use crate::external_interface;
use crate::messages::{joined, message_view, sub_topic, OutgoingMessage, OutgoingMessageView, Payload, PayloadView};
use crate::nodes;
use crate::settings::SettingsMosquitto;

verus! {

/// Topic of registered nodes.
pub const REGISTERED_TOPIC: &'static str = "registered";

/// Topic of unregistered nodes.
pub const UNREGISTERED_TOPIC: &'static str = "unregistered";

/// Topic of the external interface; also its MQTT user name.
pub const WEBINTERFACE_TOPIC: &'static str = "external_interface";

/// Topic of the neutron communicators.
pub const NEUTRONCOMMUNICATOR_TOPIC: &'static str = "neutron_communicators";

/// Subscription filters, in the order `registered`, `unregistered`,
/// `external_interface`, `neutron_communicators`.
pub const TOPIC_REGISTERED_ALL: &'static str = "registered/#";
pub const TOPIC_UNREGISTERED_ALL: &'static str = "unregistered/#";
pub const TOPIC_EXTERNAL_INTERFACE_ALL: &'static str = "external_interface/#";
pub const TOPIC_NEUTRON_COMMUNICATORS_ALL: &'static str = "neutron_communicators/#";

/// Quality of service of every subscription.
pub const SUBSCRIPTION_QOS: i32 = 1;

/// A subscription to make: a topic filter and its quality of service.
pub struct Subscription {
    pub topic: String,
    pub qos: i32,
}

/// What to do once the connection to the broker succeeded.
pub struct ConnectActions {
    /// Messages to publish first, in order.
    pub publish: Vec<OutgoingMessage>,
    /// Then subscriptions to make, in order.
    pub subscribe: Vec<Subscription>,
}

/// Once connected: announce that the hub is online (to registered nodes and
/// to the external interface), then subscribe to the registered,
/// external-interface and neutron-communicator topics. The unregistered
/// topic is subscribed to only while discovery is on.
pub fn on_mqtt_connect_success() -> (actions: ConnectActions)
    ensures
        actions.publish@.map_values(|m: OutgoingMessage| m@) == nodes::announce_blackbox_online_messages(),
        actions.subscribe@.len() == 3,
        actions.subscribe@[0].topic@ == TOPIC_REGISTERED_ALL@,
        actions.subscribe@[1].topic@ == TOPIC_EXTERNAL_INTERFACE_ALL@,
        actions.subscribe@[2].topic@ == TOPIC_NEUTRON_COMMUNICATORS_ALL@,
        forall|i: int| 0 <= i < 3 ==> #[trigger] actions.subscribe@[i].qos == SUBSCRIPTION_QOS,
{
    let publish = nodes::announce_blackbox_online();
    let mut subscribe: Vec<Subscription> = Vec::new();
    subscribe.push(Subscription { topic: String::from_str(TOPIC_REGISTERED_ALL), qos: SUBSCRIPTION_QOS });
    subscribe.push(Subscription { topic: String::from_str(TOPIC_EXTERNAL_INTERFACE_ALL), qos: SUBSCRIPTION_QOS });
    subscribe.push(Subscription { topic: String::from_str(TOPIC_NEUTRON_COMMUNICATORS_ALL), qos: SUBSCRIPTION_QOS });
    ConnectActions { publish, subscribe }
}

/// Broker configuration up to the database port: listener, TLS files, and
/// the Postgres authentication plugin with its host.
pub const CONF_HEAD: &'static str = "listener 8883\n\npersistence false\n\nlog_type all\n\nlog_dest syslog\n\nallow_anonymous false\n\ncafile /mosquitto/config/ca.crt\n\ncertfile /mosquitto/config/server.crt\n\nkeyfile /mosquitto/config/server.key\n\nrequire_certificate false\n\nauth_plugin /mosquitto/config/auth-plug.so\n\nauth_opt_backends postgres\n\nauth_opt_host database_postgres\n\nauth_opt_port ";

/// Between the database port and the database name.
pub const CONF_DBNAME: &'static str = "\n\nauth_opt_dbname ";

/// Between the database name and the database user.
pub const CONF_USER: &'static str = "\n\nauth_opt_user ";

/// Between the database user and its password.
pub const CONF_PASS: &'static str = "\n\nauth_opt_pass ";

/// After the password: the queries the plugin runs for users, superusers
/// and access rights.
pub const CONF_TAIL: &'static str = "\n\nauth_opt_userquery SELECT password FROM mqtt_users WHERE username = $1 limit 1\n\nauth_opt_superquery SELECT COALESCE(COUNT(*),0) FROM mqtt_users WHERE username = $1 AND superuser = 1\n\nauth_opt_aclquery SELECT topic FROM mqtt_acl WHERE (username = $1) AND (rw >= $2)";

/// The broker configuration for a database reached at `port`, named `name`,
/// with account `user` / `pass`.
pub open spec fn mosquitto_conf_text(port: Seq<char>, name: Seq<char>, user: Seq<char>, pass: Seq<char>) -> Seq<char> {
    CONF_HEAD@ + port + CONF_DBNAME@ + name + CONF_USER@ + user + CONF_PASS@ + pass + CONF_TAIL@
}

/// The text of the Mosquitto configuration file for the given broker
/// settings; the file goes to `mosquitto_conf_save_location`.
pub fn generate_mosquitto_conf(settings: &SettingsMosquitto) -> (conf: String)
    ensures
        conf@ == mosquitto_conf_text(
            settings.db_port@,
            settings.db_name@,
            settings.db_username@,
            settings.db_password@,
        ),
{
    let mut conf = String::from_str(CONF_HEAD);
    conf.append(settings.db_port.as_str());
    conf.append(CONF_DBNAME);
    conf.append(settings.db_name.as_str());
    conf.append(CONF_USER);
    conf.append(settings.db_username.as_str());
    conf.append(CONF_PASS);
    conf.append(settings.db_password.as_str());
    conf.append(CONF_TAIL);
    conf
}

} // verus!
