//! Values of the nodes' protocol and of registered nodes and their elements.

use vstd::prelude::*;
use vstd::string::*;

verus! {

/// A command in the protocol between the hub and the nodes.
#[derive(Clone, Copy, Debug)]
pub enum CommandType {
    /// Sent to all unregistered nodes to request their element lists.
    Announce,
    /// Received when a node's state changes.
    AnnounceState,
    /// Sent to a node with the credentials it is to use.
    ImplementCreds,
    /// Sent to a node when it gets unregistered.
    UnregisterNotify,
    /// Received from a node with its element summary list.
    ElementSummary,
    /// Sent to a node to set an element's state.
    SetElementState,
    /// Received from a node when an element's state changed.
    UpdateElementState,
    /// Sent to a node to restart it.
    RestartDevice,
}

/// A command with its data.
pub struct Command {
    pub command: CommandType,
    pub data: String,
}

impl Command {
    /// A command carrying `data`.
    pub fn new(command: CommandType, data: &str) -> (c: Self)
        ensures
            c.command == command,
            c.data@ == data@,
    {
        Command { command, data: data.to_owned() }
    }
}

/// A registered node as the hub first stores it.
pub struct Node {
    pub identifier: String,
    pub name: String,
    pub state: bool,
}

impl Node {
    /// A node that is not online yet.
    pub fn new(identifier: &str, name: &str) -> (n: Self)
        ensures
            n.identifier@ == identifier@,
            n.name@ == name@,
            !n.state,
    {
        Node { identifier: identifier.to_owned(), name: name.to_owned(), state: false }
    }
}

/// Supported element types.
#[derive(Clone, Copy, Debug)]
pub enum ElementType {
    BasicSwitch,
    DHT11,
    Thermostat,
}

/// The name an element type is stored under.
pub open spec fn element_type_name_spec(t: ElementType) -> Seq<char> {
    match t {
        ElementType::BasicSwitch => "BasicSwitch"@,
        ElementType::DHT11 => "DHT11"@,
        ElementType::Thermostat => "Thermostat"@,
    }
}

/// The name an element type is stored under: the variant's name.
pub fn element_type_name(t: ElementType) -> (name: String)
    ensures
        name@ == element_type_name_spec(t),
{
    match t {
        ElementType::BasicSwitch => String::from_str("BasicSwitch"),
        ElementType::DHT11 => String::from_str("DHT11"),
        ElementType::Thermostat => String::from_str("Thermostat"),
    }
}

/// An element of a node being registered.
pub struct Element {
    pub node_identifier: String,
    pub address: String,
    pub name: String,
    pub element_type: ElementType,
    pub zone: String,
    pub data: String,
}

/// An unregistered node and its element summary.
pub struct UnregisteredNodeItem {
    pub client_id: String,
    pub elements_summary: String,
}

/// One entry of the element summary an unregistered node announces.
pub struct ElementSummaryListItem {
    pub address: String,
    pub element_type: ElementType,
}

} // verus!
