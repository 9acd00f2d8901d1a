//! Values of the protocol between the hub and the external interface.

use vstd::prelude::*;

verus! {

/// A command in the protocol between the hub and the external interface.
#[derive(Clone, Copy, Debug)]
pub enum CommandType {
    NodeElementList,
    DiscoveryEnable,
    DiscoveryDisable,
    /// From the hub to the external interface.
    AddToUnregisteredList,
    /// From the hub to the external interface.
    RemoveFromUnregisteredList,
    AnnounceOnline,
    AnnounceOffline,
    NodeRegistration,
    UnregisterNode,
    RestartNode,
    NodeStatus,
    UpdateNodeInfo,
    SetElementState,
    UpdateElementState,
    SystemShutdown,
    SystemReboot,
}

/// A command with its data.
pub struct Command {
    pub command: CommandType,
    pub data: String,
}

/// A request of the external interface to rename a node and its elements.
pub struct NodeInfoEdit {
    pub identifier: String,
    pub name: String,
    pub category: String,
    pub elements: Vec<ElementInfoEdit>,
}

/// The new name of one element of a node.
pub struct ElementInfoEdit {
    pub address: String,
    pub name: String,
    pub category: String,
    pub zone: String,
}

/// A registered node with its elements, as sent to the external interface.
pub struct NodeFiltered {
    pub identifier: String,
    pub name: String,
    pub category: String,
    pub state: bool,
    pub elements: Vec<ElementsFiltered>,
}

/// An element of a registered node, as sent to the external interface.
pub struct ElementsFiltered {
    pub node_identifier: String,
    pub address: String,
    pub name: String,
    pub element_type: String,
    pub category: String,
    pub zone: String,
    pub data: String,
}

/// An unregistered node and its element list, as sent to the external
/// interface.
pub struct UnregisteredNode {
    pub identifier: String,
    pub elements: String,
}

/// The mathematical value of an element sent to the external interface.
pub struct ElementsFilteredView {
    pub node_identifier: Seq<char>,
    pub address: Seq<char>,
    pub name: Seq<char>,
    pub element_type: Seq<char>,
    pub category: Seq<char>,
    pub zone: Seq<char>,
    pub data: Seq<char>,
}

impl View for ElementsFiltered {
    type V = ElementsFilteredView;

    open spec fn view(&self) -> ElementsFilteredView {
        ElementsFilteredView {
            node_identifier: self.node_identifier@,
            address: self.address@,
            name: self.name@,
            element_type: self.element_type@,
            category: self.category@,
            zone: self.zone@,
            data: self.data@,
        }
    }
}

/// The mathematical value of a node sent to the external interface.
pub struct NodeFilteredView {
    pub identifier: Seq<char>,
    pub name: Seq<char>,
    pub category: Seq<char>,
    pub state: bool,
    pub elements: Seq<ElementsFilteredView>,
}

impl View for NodeFiltered {
    type V = NodeFilteredView;

    open spec fn view(&self) -> NodeFilteredView {
        NodeFilteredView {
            identifier: self.identifier@,
            name: self.name@,
            category: self.category@,
            state: self.state,
            elements: self.elements@.map_values(|e: ElementsFiltered| e@),
        }
    }
}

} // verus!
