//! Messages the hub sends to nodes.

use vstd::prelude::*;
use vstd::string::*;

use crate::external_interface;
use crate::messages::{joined, message_view, sub_topic, OutgoingMessage, OutgoingMessageView, Payload, PayloadView};
use crate::mqtt_broker_manager::{REGISTERED_TOPIC, UNREGISTERED_TOPIC};

use super::structs::{Command, CommandType};

verus! {

/// The value of a message carrying a node command.
pub open spec fn node_message(topic: Seq<char>, command: CommandType, data: Seq<char>, qos: i32) -> OutgoingMessageView {
    message_view(topic, PayloadView::Node(command, data), qos)
}

/// `command`, with no data, to the node `node_id` on its registered topic
/// `registered/<node_id>`, with quality of service `qos` (0, 1 or 2).
pub fn send_node_command(cmd: CommandType, node_id: &str, qos: i32) -> (m: OutgoingMessage)
    ensures
        m@ == node_message(REGISTERED_TOPIC@ + "/"@ + node_id@, cmd, ""@, qos),
{
    OutgoingMessage {
        topic: sub_topic(REGISTERED_TOPIC, node_id),
        payload: Payload::Node(Command::new(cmd, "")),
        qos,
    }
}

/// An `Announce` to every unregistered node, asking for element lists.
pub fn announce_discovery() -> (m: OutgoingMessage)
    ensures
        m@ == node_message(UNREGISTERED_TOPIC@, CommandType::Announce, ""@, 1),
{
    OutgoingMessage {
        topic: String::from_str(UNREGISTERED_TOPIC),
        payload: Payload::Node(Command::new(CommandType::Announce, "")),
        qos: 1,
    }
}

/// The messages that say the hub is online: an `Announce` on the registered
/// topic, then the online announcement to the external interface.
pub open spec fn announce_blackbox_online_messages() -> Seq<OutgoingMessageView> {
    seq![
        node_message(REGISTERED_TOPIC@, CommandType::Announce, ""@, 1),
        external_interface::announce_message(true),
    ]
}

/// Announces to registered nodes and to the external interface that the hub
/// is online.
pub fn announce_blackbox_online() -> (ms: Vec<OutgoingMessage>)
    ensures
        ms@.map_values(|m: OutgoingMessage| m@) == announce_blackbox_online_messages(),
{
    let mut ms: Vec<OutgoingMessage> = Vec::new();
    ms.push(
        OutgoingMessage {
            topic: String::from_str(REGISTERED_TOPIC),
            payload: Payload::Node(Command::new(CommandType::Announce, "")),
            qos: 1,
        },
    );
    let online = external_interface::announce_blackbox(true);
    ms.push(online.message);
    assert(ms@.map_values(|m: OutgoingMessage| m@) =~= announce_blackbox_online_messages());
    ms
}

/// Tells the node `node_id` to restart.
pub fn restart_node(node_id: &str) -> (m: OutgoingMessage)
    ensures
        m@ == node_message(REGISTERED_TOPIC@ + "/"@ + node_id@, CommandType::RestartDevice, ""@, 2),
{
    send_node_command(CommandType::RestartDevice, node_id, 2)
}

/// Tells the node `node_id` that it has been unregistered.
pub fn unregistered_notify(node_id: &str) -> (m: OutgoingMessage)
    ensures
        m@ == node_message(
            REGISTERED_TOPIC@ + "/"@ + node_id@,
            CommandType::UnregisterNotify,
            ""@,
            2,
        ),
{
    send_node_command(CommandType::UnregisterNotify, node_id, 2)
}

/// Sends an unregistered node, on `unregistered/<unreged_id>`, the
/// identifier and password it is to use from now on, as
/// `<reged_id>:<new_pass>`.
pub fn send_credentials(unreged_id: &str, reged_id: &str, new_pass: &str) -> (m: OutgoingMessage)
    ensures
        m@ == node_message(
            UNREGISTERED_TOPIC@ + "/"@ + unreged_id@,
            CommandType::ImplementCreds,
            reged_id@ + ":"@ + new_pass@,
            2,
        ),
{
    let payload = joined(reged_id, ":", new_pass);
    OutgoingMessage {
        topic: sub_topic(UNREGISTERED_TOPIC, unreged_id),
        payload: Payload::Node(Command::new(CommandType::ImplementCreds, payload.as_str())),
        qos: 2,
    }
}

} // verus!
