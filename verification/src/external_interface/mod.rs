//! Messages the hub sends to the external interface.

use vstd::prelude::*;
use vstd::string::*;

use crate::messages::{joined, message_view, OutgoingMessage, OutgoingMessageView, Payload, PayloadView};
use crate::mqtt_broker_manager::WEBINTERFACE_TOPIC;

pub mod structs;

pub use structs::{
    Command, CommandType, ElementInfoEdit, ElementsFiltered, ElementsFilteredView, NodeFiltered,
    NodeFilteredView, NodeInfoEdit, UnregisteredNode,
};

verus! {

/// A command carrying `data`.
pub fn new_command(command: CommandType, data: &str) -> (c: Command)
    ensures
        c.command == command,
        c.data@ == data@,
{
    Command { command, data: data.to_owned() }
}

/// The value of a message to the external interface.
pub open spec fn interface_message(command: CommandType, data: Seq<char>, qos: i32) -> OutgoingMessageView {
    message_view(WEBINTERFACE_TOPIC@, PayloadView::Interface(command, data), qos)
}

fn interface_command(command: CommandType, data: &str, qos: i32) -> (m: OutgoingMessage)
    ensures
        m@ == interface_message(command, data@, qos),
{
    OutgoingMessage {
        topic: String::from_str(WEBINTERFACE_TOPIC),
        payload: Payload::Interface(new_command(command, data)),
        qos,
    }
}

/// Tells the external interface about an unregistered node that announced
/// itself while discovery is on; `data` is the node and its elements.
pub fn add_to_unregistered_list(data: &str) -> (m: OutgoingMessage)
    ensures
        m@ == interface_message(CommandType::AddToUnregisteredList, data@, 1),
{
    interface_command(CommandType::AddToUnregisteredList, data, 1)
}

/// Tells the external interface that an unregistered node went offline.
pub fn remove_from_unregistered_list(data: &str) -> (m: OutgoingMessage)
    ensures
        m@ == interface_message(CommandType::RemoveFromUnregisteredList, data@, 1),
{
    interface_command(CommandType::RemoveFromUnregisteredList, data, 1)
}

/// Sends the list of registered nodes with their elements; `data_json` is
/// that list in JSON.
pub fn node_element_response(data_json: &str) -> (m: OutgoingMessage)
    ensures
        m@ == interface_message(CommandType::NodeElementList, data_json@, 1),
{
    interface_command(CommandType::NodeElementList, data_json, 1)
}

/// The announcement that the hub is online (`status`) or offline.
pub open spec fn announce_message(status: bool) -> OutgoingMessageView {
    interface_message(
        if status {
            CommandType::AnnounceOnline
        } else {
            CommandType::AnnounceOffline
        },
        ""@,
        2,
    )
}

/// An announcement of the hub's status and whether to publish it now.
pub struct Announcement {
    pub message: OutgoingMessage,
    pub publish: bool,
}

/// The announcement that the hub is online or offline. The online one is
/// published at once; the offline one is only handed back, to serve as the
/// hub's last will with the broker.
pub fn announce_blackbox(status: bool) -> (a: Announcement)
    ensures
        a.message@ == announce_message(status),
        a.publish == status,
{
    let cmd = if status {
        CommandType::AnnounceOnline
    } else {
        CommandType::AnnounceOffline
    };
    Announcement { message: interface_command(cmd, "", 2), publish: status }
}

/// Tells the external interface that a node changed state:
/// `<node_identifier>::<status>`.
pub fn node_status(node_identifier: &str, status: &str) -> (m: OutgoingMessage)
    ensures
        m@ == interface_message(CommandType::NodeStatus, node_identifier@ + "::"@ + status@, 1),
{
    let data = joined(node_identifier, "::", status);
    interface_command(CommandType::NodeStatus, data.as_str(), 1)
}

/// Tells the external interface that an element of a node changed state:
/// `<node_identifier>::<data>`.
pub fn element_state(node_identifier: &str, data: &str) -> (m: OutgoingMessage)
    ensures
        m@ == interface_message(CommandType::UpdateElementState, node_identifier@ + "::"@ + data@, 1),
{
    let text = joined(node_identifier, "::", data);
    interface_command(CommandType::UpdateElementState, text.as_str(), 1)
}

/// Confirms to the external interface that the node in `data` was registered.
pub fn node_registered(data: &str) -> (m: OutgoingMessage)
    ensures
        m@ == interface_message(CommandType::NodeRegistration, data@, 1),
{
    interface_command(CommandType::NodeRegistration, data, 1)
}

} // verus!
