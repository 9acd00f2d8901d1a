//! What the hub does with each MQTT message it receives: which topic it
//! came on, which command it carries, and what follows in the database and
//! on the broker. The payload's JSON is decoded by the caller.

use vstd::prelude::*;
use vstd::string::*;

use crate::db_manager::{
    add_to_unregistered_table, add_to_unregistered_table_spec, edit_element_data_from_element_table,
    edit_element_data_from_element_table_spec, edit_node_state, edit_node_state_spec,
    remove_from_unregistered_table, remove_from_unregistered_table_spec,
};
use crate::external_interface;
use crate::external_interface::{interface_message, UnregisteredNode};
use crate::messages::{OutgoingMessage, OutgoingMessageView};
use crate::mqtt_broker_manager::{REGISTERED_TOPIC, UNREGISTERED_TOPIC};
use crate::nodes;
use crate::nodes::{node_message, CommandType as NodeCommand};
use crate::plan::{DbPlan, StatementView};
use crate::text::{split, split_seq, str_eq};
use crate::INTERFACE_MQTT_USERNAME;

verus! {

/// Where a message came from, by the first part of its topic.
#[derive(Clone, Copy, Debug)]
pub enum TopicKind {
    Unregistered,
    Registered,
    ExternalInterface,
    Other,
}

/// The source of a message and the second part of its topic (a node's
/// identifier, for nodes' topics).
pub struct RoutedTopic {
    pub kind: TopicKind,
    pub node_id: String,
}

/// The source named by the first part of a topic.
pub open spec fn topic_kind_of(first: Seq<char>) -> TopicKind {
    if first == UNREGISTERED_TOPIC@ {
        TopicKind::Unregistered
    } else if first == REGISTERED_TOPIC@ {
        TopicKind::Registered
    } else if first == INTERFACE_MQTT_USERNAME@ {
        TopicKind::ExternalInterface
    } else {
        TopicKind::Other
    }
}

/// Splits a topic on `/`. A topic of one part is ignored (`None`); otherwise
/// the first part says where the message came from and the second is kept.
pub fn route_topic(topic: &str) -> (r: Option<RoutedTopic>)
    ensures
        (r is Some) == (split_seq(topic@, "/"@).len() > 1),
        r matches Some(rt) ==> rt.kind == topic_kind_of(split_seq(topic@, "/"@)[0])
            && rt.node_id@ == split_seq(topic@, "/"@)[1],
{
    proof {
        reveal_strlit("/");
    }
    let parts = split(topic, "/");
    let ghost views = parts@.map_values(|p: String| p@);
    if parts.len() <= 1 {
        return None;
    }
    assert(views[0] == parts@[0]@);
    assert(views[1] == parts@[1]@);
    let first = parts[0].as_str();
    let kind = if str_eq(first, UNREGISTERED_TOPIC) {
        TopicKind::Unregistered
    } else if str_eq(first, REGISTERED_TOPIC) {
        TopicKind::Registered
    } else if str_eq(first, INTERFACE_MQTT_USERNAME) {
        TopicKind::ExternalInterface
    } else {
        TopicKind::Other
    };
    Some(RoutedTopic { kind, node_id: parts[1].clone() })
}

/// What to do with a command from an unregistered node.
pub enum UnregisteredReaction {
    /// The node went offline: run the plan (its outcome does not matter),
    /// then publish the message.
    Forget { plan: DbPlan, message: OutgoingMessage },
    /// The node sent its element summary. Provided the data is an element
    /// summary list, run the plan; when it succeeded, the node is new: tell
    /// the external interface about it with `node`.
    List { plan: DbPlan, node: UnregisteredNode },
    /// Nothing to do.
    Ignore,
    /// A command unregistered nodes do not send.
    Unsupported,
}

/// Reacts to a command from the unregistered node `node_id`; `payload` is
/// the whole message as received.
pub fn handle_unregistered_command(node_id: &str, cmd: &nodes::Command, payload: &str) -> (r: UnregisteredReaction)
    ensures
        match cmd.command {
            NodeCommand::AnnounceState => if cmd.data@ == "false"@ {
                r matches UnregisteredReaction::Forget { plan, message } && plan@ == remove_from_unregistered_table_spec(node_id@)
                    && message@ == interface_message(external_interface::CommandType::RemoveFromUnregisteredList, node_id@, 1)
            } else {
                r is Ignore
            },
            NodeCommand::ElementSummary => r matches UnregisteredReaction::List { plan, node }
                && plan@ == add_to_unregistered_table_spec(node_id@, payload@) && node.identifier@ == node_id@
                && node.elements@ == cmd.data@,
            NodeCommand::ImplementCreds => r is Ignore,
            _ => r is Unsupported,
        },
{
    match cmd.command {
        NodeCommand::AnnounceState => {
            if str_eq(cmd.data.as_str(), "false") {
                UnregisteredReaction::Forget {
                    plan: remove_from_unregistered_table(node_id),
                    message: external_interface::remove_from_unregistered_list(node_id),
                }
            } else {
                UnregisteredReaction::Ignore
            }
        },
        NodeCommand::ElementSummary => UnregisteredReaction::List {
            plan: add_to_unregistered_table(node_id, payload),
            node: UnregisteredNode { identifier: node_id.to_owned(), elements: cmd.data.clone() },
        },
        NodeCommand::ImplementCreds => UnregisteredReaction::Ignore,
        _ => UnregisteredReaction::Unsupported,
    }
}

/// Once a listing plan ran: when it succeeded, the message that tells the
/// external interface about the node (`node_json` is the node in JSON).
pub fn after_listing(listed: bool, node_json: &str) -> (m: Option<OutgoingMessage>)
    ensures
        listed ==> (m matches Some(msg) && msg@ == interface_message(
            external_interface::CommandType::AddToUnregisteredList,
            node_json@,
            1,
        )),
        !listed ==> m is None,
{
    if listed {
        Some(external_interface::add_to_unregistered_list(node_json))
    } else {
        None
    }
}

/// Once the plans of a registration ran (`plans_ok` holds each one's
/// outcome): when every one succeeded, the node's information is in the
/// database and the message that confirms the registration of the node
/// described by `data` to the external interface; otherwise no message.
pub fn after_registration(data: &str, plans_ok: &Vec<bool>) -> (m: Option<OutgoingMessage>)
    ensures
        (m is Some) == (forall|i: int| 0 <= i < plans_ok@.len() ==> #[trigger] plans_ok@[i]),
        m matches Some(msg) ==> msg@ == interface_message(external_interface::CommandType::NodeRegistration, data@, 1),
{
    let n = plans_ok.len();
    let mut i: usize = 0;
    while i < n
        invariant
            n == plans_ok@.len(),
            i <= n,
            forall|k: int| 0 <= k < i ==> #[trigger] plans_ok@[k],
        decreases n - i,
    {
        if !plans_ok[i] {
            return None;
        }
        i = i + 1;
    }
    Some(external_interface::node_registered(data))
}

/// What to do with a command from a registered node.
pub enum RegisteredReaction {
    /// An element changed state: run the plan; when it succeeded, publish
    /// the message.
    UpdateElement { plan: DbPlan, message: OutgoingMessage },
    /// The node changed state: publish the message, then run the plan
    /// (its outcome does not matter).
    NodeState { message: OutgoingMessage, plan: DbPlan },
    /// The element state data has fewer than two `::`-separated parts.
    Malformed,
    /// Nothing to do.
    Ignore,
    /// A command registered nodes do not send.
    Unsupported,
}

/// Reacts to a command from the registered node `node_id`. An element
/// update carries `<address>::<data>`; a state announcement carries `true`
/// when the node is online, anything else counting as offline.
pub fn handle_registered_command(node_id: &str, cmd: &nodes::Command) -> (r: RegisteredReaction)
    ensures
        match cmd.command {
            NodeCommand::UpdateElementState => {
                let args = split_seq(cmd.data@, "::"@);
                if args.len() >= 2 {
                    r matches RegisteredReaction::UpdateElement { plan, message }
                        && plan@ == edit_element_data_from_element_table_spec(node_id@, args[0], args[1])
                        && message@ == interface_message(
                            external_interface::CommandType::UpdateElementState,
                            node_id@ + "::"@ + cmd.data@,
                            1,
                        )
                } else {
                    r is Malformed
                }
            },
            NodeCommand::AnnounceState => r matches RegisteredReaction::NodeState { message, plan }
                && message@ == interface_message(
                    external_interface::CommandType::NodeStatus,
                    node_id@ + "::"@ + cmd.data@,
                    1,
                ) && plan@ == edit_node_state_spec(node_id@, cmd.data@ == "true"@),
            NodeCommand::SetElementState => r is Ignore,
            NodeCommand::UnregisterNotify => r is Ignore,
            NodeCommand::RestartDevice => r is Ignore,
            _ => r is Unsupported,
        },
{
    match cmd.command {
        NodeCommand::UpdateElementState => {
            proof {
                reveal_strlit("::");
            }
            let args = split(cmd.data.as_str(), "::");
            let ghost views = args@.map_values(|p: String| p@);
            if args.len() < 2 {
                return RegisteredReaction::Malformed;
            }
            assert(views[0] == args@[0]@);
            assert(views[1] == args@[1]@);
            RegisteredReaction::UpdateElement {
                plan: edit_element_data_from_element_table(node_id, args[0].as_str(), args[1].as_str()),
                message: external_interface::element_state(node_id, cmd.data.as_str()),
            }
        },
        NodeCommand::AnnounceState => {
            let online = str_eq(cmd.data.as_str(), "true");
            RegisteredReaction::NodeState {
                message: external_interface::node_status(node_id, cmd.data.as_str()),
                plan: edit_node_state(node_id, online),
            }
        },
        NodeCommand::SetElementState => RegisteredReaction::Ignore,
        NodeCommand::UnregisterNotify => RegisteredReaction::Ignore,
        NodeCommand::RestartDevice => RegisteredReaction::Ignore,
        _ => RegisteredReaction::Unsupported,
    }
}

/// What the hub keeps between messages: whether discovery is on, and the
/// nodes waiting to be removed from the database.
pub struct HubState {
    pub discovery_mode: bool,
    pub unregister_queue: Vec<String>,
}

/// The mathematical value of the hub's state.
pub struct HubStateView {
    pub discovery_mode: bool,
    pub unregister_queue: Seq<Seq<char>>,
}

impl View for HubState {
    type V = HubStateView;

    open spec fn view(&self) -> HubStateView {
        HubStateView {
            discovery_mode: self.discovery_mode,
            unregister_queue: self.unregister_queue@.map_values(|s: String| s@),
        }
    }
}

/// The state at start-up: discovery off, nobody waiting.
pub fn new_hub_state() -> (s: HubState)
    ensures
        !s@.discovery_mode,
        s@.unregister_queue == Seq::<Seq<char>>::empty(),
{
    let s = HubState { discovery_mode: false, unregister_queue: Vec::new() };
    assert(s@.unregister_queue =~= Seq::<Seq<char>>::empty());
    s
}

/// What to do with a command from the external interface.
pub enum InterfaceReaction {
    /// Forward an element state to its node.
    SetElementState { data: String },
    /// Send the list of registered nodes with their elements.
    SendNodeElementList,
    /// Register the node described (in JSON) by `data`; once its plans ran,
    /// `after_registration` tells whether to confirm.
    RegisterNode { data: String },
    /// Publish the message.
    Notify { message: OutgoingMessage },
    /// Rename the node and elements described (in JSON) by `data`.
    UpdateNodeInfo { data: String },
    /// Switch discovery on (`set_discovery_mode`, then `finish_discovery_mode`),
    /// record the result, then announce discovery to unregistered nodes.
    EnableDiscovery,
    /// Switch discovery off, with the subscription change.
    DisableDiscovery,
    /// Shut the machine down.
    Shutdown,
    /// Reboot the machine.
    Reboot,
    /// Nothing to do.
    Ignore,
    /// A command the external interface does not send.
    Unsupported,
}

/// Reacts to a command from the external interface. Unregistering a node
/// notifies it and queues it for removal from the database; switching
/// discovery on is skipped while it is on; switching it off (or the
/// interface going offline) marks it off at once.
pub fn handle_interface_command(state: &mut HubState, cmd: &external_interface::Command) -> (r: InterfaceReaction)
    ensures
        match cmd.command {
            external_interface::CommandType::SetElementState => r matches InterfaceReaction::SetElementState { data } && data@ == cmd.data@,
            external_interface::CommandType::UpdateElementState => r is Ignore,
            external_interface::CommandType::NodeElementList => r is SendNodeElementList,
            external_interface::CommandType::NodeRegistration => r matches InterfaceReaction::RegisterNode { data } && data@ == cmd.data@,
            external_interface::CommandType::UnregisterNode => r matches InterfaceReaction::Notify { message } && message@ == node_message(
                REGISTERED_TOPIC@ + "/"@ + cmd.data@,
                NodeCommand::UnregisterNotify,
                ""@,
                2,
            ),
            external_interface::CommandType::RestartNode => r matches InterfaceReaction::Notify { message } && message@ == node_message(
                REGISTERED_TOPIC@ + "/"@ + cmd.data@,
                NodeCommand::RestartDevice,
                ""@,
                2,
            ),
            external_interface::CommandType::UpdateNodeInfo => r matches InterfaceReaction::UpdateNodeInfo { data } && data@ == cmd.data@,
            external_interface::CommandType::DiscoveryEnable => if old(state)@.discovery_mode {
                r is Ignore
            } else {
                r is EnableDiscovery
            },
            external_interface::CommandType::DiscoveryDisable => r is DisableDiscovery,
            external_interface::CommandType::AnnounceOffline => r is DisableDiscovery,
            external_interface::CommandType::AnnounceOnline => r matches InterfaceReaction::Notify { message } && message@ == external_interface::announce_message(true),
            external_interface::CommandType::SystemShutdown => r is Shutdown,
            external_interface::CommandType::SystemReboot => r is Reboot,
            _ => r is Unsupported,
        },
        final(state)@.discovery_mode == (match cmd.command {
            external_interface::CommandType::DiscoveryDisable => false,
            external_interface::CommandType::AnnounceOffline => false,
            _ => old(state)@.discovery_mode,
        }),
        final(state)@.unregister_queue == (match cmd.command {
            external_interface::CommandType::UnregisterNode => old(state)@.unregister_queue.push(cmd.data@),
            _ => old(state)@.unregister_queue,
        }),
{
    match cmd.command {
        external_interface::CommandType::SetElementState => InterfaceReaction::SetElementState { data: cmd.data.clone() },
        external_interface::CommandType::UpdateElementState => InterfaceReaction::Ignore,
        external_interface::CommandType::NodeElementList => InterfaceReaction::SendNodeElementList,
        external_interface::CommandType::NodeRegistration => InterfaceReaction::RegisterNode { data: cmd.data.clone() },
        external_interface::CommandType::UnregisterNode => {
            let message = nodes::unregistered_notify(cmd.data.as_str());
            let ghost before = state@.unregister_queue;
            state.unregister_queue.push(cmd.data.clone());
            assert(state@.unregister_queue =~= before.push(cmd.data@));
            InterfaceReaction::Notify { message }
        },
        external_interface::CommandType::RestartNode => InterfaceReaction::Notify { message: nodes::restart_node(cmd.data.as_str()) },
        external_interface::CommandType::UpdateNodeInfo => InterfaceReaction::UpdateNodeInfo { data: cmd.data.clone() },
        external_interface::CommandType::DiscoveryEnable => if state.discovery_mode {
            InterfaceReaction::Ignore
        } else {
            InterfaceReaction::EnableDiscovery
        },
        external_interface::CommandType::DiscoveryDisable => {
            state.discovery_mode = false;
            InterfaceReaction::DisableDiscovery
        },
        external_interface::CommandType::AnnounceOffline => {
            state.discovery_mode = false;
            InterfaceReaction::DisableDiscovery
        },
        external_interface::CommandType::AnnounceOnline => InterfaceReaction::Notify { message: external_interface::announce_blackbox(true).message },
        external_interface::CommandType::SystemShutdown => InterfaceReaction::Shutdown,
        external_interface::CommandType::SystemReboot => InterfaceReaction::Reboot,
        _ => InterfaceReaction::Unsupported,
    }
}

/// Records whether switching discovery on succeeded.
pub fn record_discovery_enabled(state: &mut HubState, result: bool)
    ensures
        final(state)@.discovery_mode == result,
        final(state)@.unregister_queue == old(state)@.unregister_queue,
{
    state.discovery_mode = result;
}

/// A pass over the nodes waiting to be removed: each is unregistered in
/// turn, from a copy of the queue taken at the start.
pub struct UnregisterPass {
    pub snapshot: Vec<String>,
    pub next: usize,
    pub populated: bool,
}

/// Starts a pass over the queue as it is now.
pub fn start_unregister_pass(state: &HubState) -> (p: UnregisterPass)
    ensures
        p.snapshot@.map_values(|s: String| s@) == state@.unregister_queue,
        p.next == 0,
        !p.populated,
{
    let n = state.unregister_queue.len();
    let mut snapshot: Vec<String> = Vec::new();
    let mut i: usize = 0;
    while i < n
        invariant
            n == state.unregister_queue@.len(),
            i <= n,
            snapshot@.map_values(|s: String| s@) == state@.unregister_queue.subrange(0, i as int),
        decreases n - i,
    {
        let ghost before = snapshot@.map_values(|s: String| s@);
        assert(state@.unregister_queue[i as int] == state.unregister_queue@[i as int]@);
        let c = state.unregister_queue[i].clone();
        assert(c@ == state@.unregister_queue[i as int]);
        snapshot.push(c);
        assert(snapshot@.map_values(|s: String| s@) =~= before.push(c@));
        assert(state@.unregister_queue.subrange(0, i + 1) =~= state@.unregister_queue.subrange(0, i as int).push(state@.unregister_queue[i as int]));
        i = i + 1;
    }
    assert(state@.unregister_queue.subrange(0, n as int) =~= state@.unregister_queue);
    UnregisterPass { snapshot, next: 0, populated: false }
}

/// The plan that unregisters the next node of the pass; `None` once every
/// node of the copy had its turn.
pub fn unregister_pass_plan(pass: &UnregisterPass) -> (p: Option<DbPlan>)
    ensures
        pass.next >= pass.snapshot@.len() ==> p is None,
        pass.next < pass.snapshot@.len() ==> (p matches Some(plan) && plan@
            == nodes::unregister_node_spec(pass.snapshot@[pass.next as int]@)),
{
    if pass.next < pass.snapshot.len() {
        Some(nodes::unregister_node(pass.snapshot[pass.next].as_str()))
    } else {
        None
    }
}

/// The queue without its first entry equal to `id`; unchanged when there
/// is none.
pub open spec fn remove_first(queue: Seq<Seq<char>>, id: Seq<char>) -> Seq<Seq<char>>
    decreases queue.len(),
{
    if queue.len() == 0 {
        queue
    } else if queue[0] == id {
        queue.drop_first()
    } else {
        seq![queue[0]] + remove_first(queue.drop_first(), id)
    }
}

/// What recording an outcome does to the queue: once the node `id` was
/// unregistered, its entry leaves the queue; after a failure it stays.
pub open spec fn record_step(queue: Seq<Seq<char>>, id: Seq<char>, ok: bool) -> Seq<Seq<char>> {
    if ok {
        remove_first(queue, id)
    } else {
        queue
    }
}

/// The queue after the unregistrations of `ids[i..]`, in order, had the
/// outcomes `oks[i..]`.
pub open spec fn pass_from(queue: Seq<Seq<char>>, ids: Seq<Seq<char>>, oks: Seq<bool>, i: int) -> Seq<Seq<char>>
    decreases ids.len() - i,
{
    if i < 0 || i >= ids.len() || i >= oks.len() {
        queue
    } else {
        pass_from(record_step(queue, ids[i], oks[i]), ids, oks, i + 1)
    }
}

/// The entries among the first `n` of `queue` whose unregistration failed,
/// in order.
pub open spec fn kept(queue: Seq<Seq<char>>, oks: Seq<bool>, n: int) -> Seq<Seq<char>>
    decreases n,
{
    if n <= 0 {
        Seq::empty()
    } else {
        kept(queue, oks, n - 1) + (if oks[n - 1] {
            Seq::empty()
        } else {
            seq![queue[n - 1]]
        })
    }
}

proof fn lemma_remove_first_concat(a: Seq<Seq<char>>, b: Seq<Seq<char>>, id: Seq<char>)
    requires
        !a.contains(id),
    ensures
        remove_first(a + b, id) == a + remove_first(b, id),
    decreases a.len(),
{
    if a.len() == 0 {
        assert(a + b =~= b);
        assert(a + remove_first(b, id) =~= remove_first(b, id));
    } else {
        assert((a + b)[0] == a[0]);
        assert(a[0] != id);
        assert((a + b).drop_first() =~= a.drop_first() + b);
        assert(!a.drop_first().contains(id)) by {
            if a.drop_first().contains(id) {
                let k = choose|k: int| 0 <= k < a.drop_first().len() && a.drop_first()[k] == id;
                assert(a[k + 1] == id);
            }
        }
        lemma_remove_first_concat(a.drop_first(), b, id);
        assert(seq![a[0]] + (a.drop_first() + remove_first(b, id)) =~= a + remove_first(b, id));
    }
}

proof fn lemma_remove_first_at(queue: Seq<Seq<char>>, id: Seq<char>, j: int)
    requires
        0 <= j < queue.len(),
        queue[j] == id,
        forall|k: int| 0 <= k < j ==> queue[k] != id,
    ensures
        remove_first(queue, id) == queue.remove(j),
{
    let a = queue.subrange(0, j);
    let b = queue.subrange(j, queue.len() as int);
    assert(queue =~= a + b);
    assert(!a.contains(id)) by {
        if a.contains(id) {
            let k = choose|k: int| 0 <= k < a.len() && a[k] == id;
            assert(queue[k] == id);
        }
    }
    lemma_remove_first_concat(a, b, id);
    assert(b[0] == id);
    assert(a + b.drop_first() =~= queue.remove(j));
}

proof fn lemma_remove_first_absent(queue: Seq<Seq<char>>, id: Seq<char>)
    requires
        !queue.contains(id),
    ensures
        remove_first(queue, id) == queue,
{
    lemma_remove_first_concat(queue, Seq::empty(), id);
    assert(queue + Seq::<Seq<char>>::empty() =~= queue);
}

/// Records the outcome of unregistering the node at position `next` of the
/// copy and moves on to the next one: on success the node's entry leaves
/// the queue. `true` when an entry was removed.
pub fn unregister_pass_record(pass: &mut UnregisterPass, state: &mut HubState, ok: bool) -> (removed: bool)
    requires
        old(pass).next < old(pass).snapshot@.len(),
    ensures
        final(pass).snapshot@ == old(pass).snapshot@,
        final(pass).next == old(pass).next + 1,
        final(pass).populated,
        final(state)@.discovery_mode == old(state)@.discovery_mode,
        final(state)@.unregister_queue == record_step(
            old(state)@.unregister_queue,
            old(pass).snapshot@[old(pass).next as int]@,
            ok,
        ),
        removed == (ok && old(state)@.unregister_queue.contains(old(pass).snapshot@[old(pass).next as int]@)),
{
    let id = pass.snapshot[pass.next].clone();
    let ghost q = state@.unregister_queue;
    let mut removed = false;
    if ok {
        let n = state.unregister_queue.len();
        let mut j: usize = 0;
        while j < n && !str_eq(state.unregister_queue[j].as_str(), id.as_str())
            invariant
                n == state.unregister_queue@.len(),
                q == state@.unregister_queue,
                j <= n,
                forall|k: int| 0 <= k < j ==> q[k] != id@,
            decreases n - j,
        {
            assert(q[j as int] == state.unregister_queue@[j as int]@);
            j = j + 1;
        }
        if j < n {
            assert(q[j as int] == state.unregister_queue@[j as int]@);
            proof {
                lemma_remove_first_at(q, id@, j as int);
            }
            let _gone = state.unregister_queue.remove(j);
            assert(state@.unregister_queue =~= q.remove(j as int));
            removed = true;
        } else {
            assert(!q.contains(id@)) by {
                if q.contains(id@) {
                    let k = choose|k: int| 0 <= k < q.len() && q[k] == id@;
                    assert(q[k] != id@);
                }
            }
            proof {
                lemma_remove_first_absent(q, id@);
            }
        }
    }
    let m = pass.snapshot.len();
    assert(pass.next < m);
    pass.next = pass.next + 1;
    pass.populated = true;
    removed
}

proof fn lemma_kept_from_first(queue: Seq<Seq<char>>, oks: Seq<bool>, n: int, id: Seq<char>)
    requires
        0 <= n <= queue.len(),
        n <= oks.len(),
        forall|k: int| 0 <= k < n ==> queue[k] != id,
    ensures
        !kept(queue, oks, n).contains(id),
    decreases n,
{
    if n > 0 {
        lemma_kept_from_first(queue, oks, n - 1, id);
        let a = kept(queue, oks, n - 1);
        let t: Seq<Seq<char>> = if oks[n - 1] {
            Seq::empty()
        } else {
            seq![queue[n - 1]]
        };
        if (a + t).contains(id) {
            let m = choose|m: int| 0 <= m < (a + t).len() && (a + t)[m] == id;
            if m < a.len() {
                assert(a[m] == id);
            } else {
                assert(t[m - a.len()] == queue[n - 1]);
            }
        }
    }
}

proof fn lemma_pass_from_kept(queue: Seq<Seq<char>>, oks: Seq<bool>, i: int)
    requires
        queue.no_duplicates(),
        oks.len() == queue.len(),
        0 <= i <= queue.len(),
    ensures
        pass_from(kept(queue, oks, i) + queue.subrange(i, queue.len() as int), queue, oks, i) == kept(
            queue,
            oks,
            queue.len() as int,
        ),
    decreases queue.len() - i,
{
    let n = queue.len() as int;
    let a = kept(queue, oks, i);
    let rest = queue.subrange(i, n);
    if i == n {
        assert(a + rest =~= a);
    } else {
        let id = queue[i];
        let next = kept(queue, oks, i + 1) + queue.subrange(i + 1, n);
        if oks[i] {
            assert forall|k: int| 0 <= k < i implies queue[k] != id by {
                assert(queue[k] != queue[i]);
            }
            lemma_kept_from_first(queue, oks, i, id);
            lemma_remove_first_concat(a, rest, id);
            assert(rest[0] == id);
            assert(rest.drop_first() =~= queue.subrange(i + 1, n));
            assert(kept(queue, oks, i + 1) =~= a);
            assert(record_step(a + rest, id, true) == next);
        } else {
            assert(kept(queue, oks, i + 1) == a + seq![queue[i]]);
            assert(next =~= a + rest);
        }
        lemma_pass_from_kept(queue, oks, i + 1);
    }
}

/// A pass over the queue as it stood, with no node queued twice, leaves
/// exactly the nodes whose unregistration failed, in their order: every
/// node that was unregistered leaves the queue. (A node queued twice whose
/// first unregistration succeeded and second failed stays queued once.)
pub proof fn lemma_pass_keeps_only_failures(queue: Seq<Seq<char>>, oks: Seq<bool>)
    requires
        queue.no_duplicates(),
        oks.len() == queue.len(),
    ensures
        pass_from(queue, queue, oks, 0) == kept(queue, oks, queue.len() as int),
{
    lemma_pass_from_kept(queue, oks, 0);
    assert(kept(queue, oks, 0) + queue.subrange(0, queue.len() as int) =~= queue);
}

} // verus!
