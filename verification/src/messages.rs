//! MQTT messages the hub publishes, as plain values: a topic, a command and
//! a quality of service. Turning the command into JSON bytes is left to the
//! caller that talks to the broker.

use vstd::prelude::*;
use vstd::string::*;

use crate::external_interface;
use crate::nodes;

verus! {

/// The command a message carries.
pub enum Payload {
    /// A command in the nodes' protocol.
    Node(nodes::Command),
    /// A command in the external interface's protocol.
    Interface(external_interface::Command),
}

/// The mathematical value of a payload: the command and its data text.
pub enum PayloadView {
    Node(nodes::CommandType, Seq<char>),
    Interface(external_interface::CommandType, Seq<char>),
}

impl View for Payload {
    type V = PayloadView;

    open spec fn view(&self) -> PayloadView {
        match self {
            Payload::Node(c) => PayloadView::Node(c.command, c.data@),
            Payload::Interface(c) => PayloadView::Interface(c.command, c.data@),
        }
    }
}

/// A message to publish.
pub struct OutgoingMessage {
    pub topic: String,
    pub payload: Payload,
    pub qos: i32,
}

/// The mathematical value of a message.
pub struct OutgoingMessageView {
    pub topic: Seq<char>,
    pub payload: PayloadView,
    pub qos: i32,
}

impl View for OutgoingMessage {
    type V = OutgoingMessageView;

    open spec fn view(&self) -> OutgoingMessageView {
        OutgoingMessageView { topic: self.topic@, payload: self.payload@, qos: self.qos }
    }
}

/// The value of a message with the given parts.
pub open spec fn message_view(topic: Seq<char>, payload: PayloadView, qos: i32) -> OutgoingMessageView {
    OutgoingMessageView { topic, payload, qos }
}

/// The topic `<base>/<id>`.
pub fn sub_topic(base: &str, id: &str) -> (topic: String)
    ensures
        topic@ == base@ + "/"@ + id@,
{
    let mut topic = String::from_str(base);
    topic.append("/");
    topic.append(id);
    topic
}

/// The concatenation `<a><sep><b>`.
pub fn joined(a: &str, sep: &str, b: &str) -> (s: String)
    ensures
        s@ == a@ + sep@ + b@,
{
    let mut s = String::from_str(a);
    s.append(sep);
    s.append(b);
    s
}

} // verus!
