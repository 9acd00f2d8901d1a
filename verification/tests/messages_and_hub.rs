use black_box::db_manager::listing::{get_node_element_list, NodeRow};
use black_box::external_interface::{
    add_to_unregistered_list, announce_blackbox, element_state, new_command, node_element_response, node_registered,
    node_status, remove_from_unregistered_list, Command as InterfaceCommand, CommandType as InterfaceCommandType,
    ElementsFiltered,
};
use black_box::hub::{
    after_listing, after_registration, handle_interface_command, handle_registered_command, handle_unregistered_command, new_hub_state,
    record_discovery_enabled, route_topic, start_unregister_pass, unregister_pass_plan, unregister_pass_record,
    InterfaceReaction, RegisteredReaction, TopicKind, UnregisteredReaction,
};
use black_box::messages::{joined, sub_topic, OutgoingMessage, Payload};
use black_box::mqtt_broker_manager::on_mqtt_connect_success;
use black_box::neutron_communicator;
use black_box::nodes::{
    announce_blackbox_online, announce_discovery, default_element_data, element_type_name, register_node,
    restart_node, send_credentials, send_node_command, unregistered_notify, Command as NodeCommand,
    CommandType as NodeCommandType, ElementType, NewElement, NewNode, Node,
};

/// A message as `topic | command | data | qos`.
fn show(m: &OutgoingMessage) -> String {
    let (cmd, data) = match &m.payload {
        Payload::Node(c) => (format!("{:?}", c.command), c.data.clone()),
        Payload::Interface(c) => (format!("{:?}", c.command), c.data.clone()),
    };
    format!("{} | {} | {} | {}", m.topic, cmd, data, m.qos)
}

fn node_cmd(command: NodeCommandType, data: &str) -> NodeCommand {
    NodeCommand::new(command, data)
}

fn wi_cmd(command: InterfaceCommandType, data: &str) -> InterfaceCommand {
    new_command(command, data)
}

#[test]
fn constructors() {
    let c = NodeCommand::new(NodeCommandType::Announce, "x");
    assert!(matches!(c.command, NodeCommandType::Announce));
    assert_eq!(c.data, "x");
    let n = Node::new("reg1", "Lamp");
    assert_eq!(n.identifier, "reg1");
    assert_eq!(n.name, "Lamp");
    assert!(!n.state);
    let c = neutron_communicator::new_command(neutron_communicator::CommandType::RefreshUpdateManifest, "m");
    assert!(matches!(c.command, neutron_communicator::CommandType::RefreshUpdateManifest));
    assert_eq!(c.data, "m");
    assert_eq!(sub_topic("registered", "n1"), "registered/n1");
    assert_eq!(joined("a", "::", "b"), "a::b");
}

#[test]
fn element_defaults() {
    assert_eq!(default_element_data(ElementType::BasicSwitch), "false");
    assert_eq!(default_element_data(ElementType::DHT11), "{\"temp\": \"0\", \"hum\": \"0\"}");
    assert_eq!(default_element_data(ElementType::Thermostat), "0");
    assert_eq!(element_type_name(ElementType::DHT11), "DHT11");
    assert_eq!(element_type_name(ElementType::BasicSwitch), "BasicSwitch");
    assert_eq!(element_type_name(ElementType::Thermostat), "Thermostat");
}

#[test]
fn node_messages() {
    assert_eq!(show(&send_node_command(NodeCommandType::SetElementState, "n1", 1)), "registered/n1 | SetElementState |  | 1");
    assert_eq!(show(&announce_discovery()), "unregistered | Announce |  | 1");
    assert_eq!(show(&restart_node("n1")), "registered/n1 | RestartDevice |  | 2");
    assert_eq!(show(&unregistered_notify("n1")), "registered/n1 | UnregisterNotify |  | 2");
    assert_eq!(show(&send_credentials("u1", "regX", "pw")), "unregistered/u1 | ImplementCreds | regX:pw | 2");
    let online: Vec<String> = announce_blackbox_online().iter().map(show).collect();
    assert_eq!(online, vec!["registered | Announce |  | 1", "external_interface | AnnounceOnline |  | 2"]);
}

#[test]
fn interface_messages() {
    assert_eq!(show(&add_to_unregistered_list("d")), "external_interface | AddToUnregisteredList | d | 1");
    assert_eq!(show(&remove_from_unregistered_list("u1")), "external_interface | RemoveFromUnregisteredList | u1 | 1");
    assert_eq!(show(&node_element_response("[]")), "external_interface | NodeElementList | [] | 1");
    assert_eq!(show(&node_status("n1", "true")), "external_interface | NodeStatus | n1::true | 1");
    assert_eq!(show(&element_state("n1", "a1::on")), "external_interface | UpdateElementState | n1::a1::on | 1");
    assert_eq!(show(&node_registered("{}")), "external_interface | NodeRegistration | {} | 1");
    let on = announce_blackbox(true);
    assert!(on.publish);
    assert_eq!(show(&on.message), "external_interface | AnnounceOnline |  | 2");
    let off = announce_blackbox(false);
    assert!(!off.publish);
    assert_eq!(show(&off.message), "external_interface | AnnounceOffline |  | 2");
}

#[test]
fn connect_actions() {
    let a = on_mqtt_connect_success();
    let published: Vec<String> = a.publish.iter().map(show).collect();
    assert_eq!(published, vec!["registered | Announce |  | 1", "external_interface | AnnounceOnline |  | 2"]);
    let topics: Vec<&str> = a.subscribe.iter().map(|s| s.topic.as_str()).collect();
    assert_eq!(topics, vec!["registered/#", "external_interface/#", "neutron_communicators/#"]);
    assert!(a.subscribe.iter().all(|s| s.qos == 1));
}

#[test]
fn topics_are_routed() {
    let r = route_topic("unregistered/abc").unwrap();
    assert!(matches!(r.kind, TopicKind::Unregistered));
    assert_eq!(r.node_id, "abc");
    let r = route_topic("registered/reg1/extra").unwrap();
    assert!(matches!(r.kind, TopicKind::Registered));
    assert_eq!(r.node_id, "reg1");
    assert!(matches!(route_topic("external_interface/x").unwrap().kind, TopicKind::ExternalInterface));
    assert!(matches!(route_topic("neutron_communicators/x").unwrap().kind, TopicKind::Other));
    assert!(route_topic("registered").is_none());
    let r = route_topic("registered/").unwrap();
    assert_eq!(r.node_id, "");
}

#[test]
fn unregistered_commands() {
    match handle_unregistered_command("u1", &node_cmd(NodeCommandType::AnnounceState, "false"), "payload") {
        UnregisteredReaction::Forget { plan, message } => {
            assert_eq!(plan.statements[0].sql, "DELETE FROM blackbox_unregistered WHERE CLIENT_ID = $1;");
            assert_eq!(show(&message), "external_interface | RemoveFromUnregisteredList | u1 | 1");
        }
        _ => panic!("expected Forget"),
    }
    assert!(matches!(
        handle_unregistered_command("u1", &node_cmd(NodeCommandType::AnnounceState, "true"), "p"),
        UnregisteredReaction::Ignore
    ));
    match handle_unregistered_command("u1", &node_cmd(NodeCommandType::ElementSummary, "[]"), "whole") {
        UnregisteredReaction::List { plan, node } => {
            assert_eq!(plan.statements.len(), 1);
            assert!(plan.statements[0].sql.starts_with("INSERT INTO blackbox_unregistered"));
            assert_eq!(node.identifier, "u1");
            assert_eq!(node.elements, "[]");
        }
        _ => panic!("expected List"),
    }
    assert!(matches!(
        handle_unregistered_command("u1", &node_cmd(NodeCommandType::ImplementCreds, "x"), "p"),
        UnregisteredReaction::Ignore
    ));
    assert!(matches!(
        handle_unregistered_command("u1", &node_cmd(NodeCommandType::RestartDevice, ""), "p"),
        UnregisteredReaction::Unsupported
    ));
    assert_eq!(show(&after_listing(true, "{\"identifier\":\"u1\"}").unwrap()), "external_interface | AddToUnregisteredList | {\"identifier\":\"u1\"} | 1");
    assert!(after_listing(false, "x").is_none());
}

#[test]
fn registration_confirmed_only_when_stored() {
    assert_eq!(
        show(&after_registration("{\"identifier\":\"u1\"}", &vec![true; 5]).unwrap()),
        "external_interface | NodeRegistration | {\"identifier\":\"u1\"} | 1"
    );
    assert!(after_registration("{}", &vec![true, true, false, true, true]).is_none());
}

#[test]
fn registered_commands() {
    match handle_registered_command("reg1", &node_cmd(NodeCommandType::UpdateElementState, "a1::on")) {
        RegisteredReaction::UpdateElement { plan, message } => {
            let ps: Vec<String> = plan.statements[0]
                .params
                .iter()
                .map(|p| match p {
                    black_box::plan::SqlParam::Text(s) => s.clone(),
                    _ => String::from("?"),
                })
                .collect();
            assert_eq!(ps, vec!["on", "reg1", "a1"]);
            assert_eq!(show(&message), "external_interface | UpdateElementState | reg1::a1::on | 1");
        }
        _ => panic!("expected UpdateElement"),
    }
    assert!(matches!(
        handle_registered_command("reg1", &node_cmd(NodeCommandType::UpdateElementState, "no separator")),
        RegisteredReaction::Malformed
    ));
    match handle_registered_command("reg1", &node_cmd(NodeCommandType::AnnounceState, "true")) {
        RegisteredReaction::NodeState { message, plan } => {
            assert_eq!(show(&message), "external_interface | NodeStatus | reg1::true | 1");
            assert!(matches!(plan.statements[0].params[0], black_box::plan::SqlParam::Bool(true)));
        }
        _ => panic!("expected NodeState"),
    }
    match handle_registered_command("reg1", &node_cmd(NodeCommandType::AnnounceState, "restarting")) {
        RegisteredReaction::NodeState { plan, .. } => {
            assert!(matches!(plan.statements[0].params[0], black_box::plan::SqlParam::Bool(false)));
        }
        _ => panic!("expected NodeState"),
    }
    assert!(matches!(handle_registered_command("reg1", &node_cmd(NodeCommandType::SetElementState, "")), RegisteredReaction::Ignore));
    assert!(matches!(handle_registered_command("reg1", &node_cmd(NodeCommandType::Announce, "")), RegisteredReaction::Unsupported));
}

#[test]
fn interface_commands_and_discovery_state() {
    let mut st = new_hub_state();
    assert!(!st.discovery_mode);
    assert!(st.unregister_queue.is_empty());

    assert!(matches!(handle_interface_command(&mut st, &wi_cmd(InterfaceCommandType::DiscoveryEnable, "")), InterfaceReaction::EnableDiscovery));
    record_discovery_enabled(&mut st, true);
    assert!(st.discovery_mode);
    // While on, another request is skipped.
    assert!(matches!(handle_interface_command(&mut st, &wi_cmd(InterfaceCommandType::DiscoveryEnable, "")), InterfaceReaction::Ignore));
    assert!(matches!(handle_interface_command(&mut st, &wi_cmd(InterfaceCommandType::AnnounceOffline, "")), InterfaceReaction::DisableDiscovery));
    assert!(!st.discovery_mode);
    record_discovery_enabled(&mut st, true);
    assert!(matches!(handle_interface_command(&mut st, &wi_cmd(InterfaceCommandType::DiscoveryDisable, "")), InterfaceReaction::DisableDiscovery));
    assert!(!st.discovery_mode);

    match handle_interface_command(&mut st, &wi_cmd(InterfaceCommandType::UnregisterNode, "reg9")) {
        InterfaceReaction::Notify { message } => assert_eq!(show(&message), "registered/reg9 | UnregisterNotify |  | 2"),
        _ => panic!("expected Notify"),
    }
    assert_eq!(st.unregister_queue, vec!["reg9".to_string()]);
    match handle_interface_command(&mut st, &wi_cmd(InterfaceCommandType::RestartNode, "reg9")) {
        InterfaceReaction::Notify { message } => assert_eq!(show(&message), "registered/reg9 | RestartDevice |  | 2"),
        _ => panic!("expected Notify"),
    }
    match handle_interface_command(&mut st, &wi_cmd(InterfaceCommandType::AnnounceOnline, "")) {
        InterfaceReaction::Notify { message } => assert_eq!(show(&message), "external_interface | AnnounceOnline |  | 2"),
        _ => panic!("expected Notify"),
    }
    assert!(matches!(handle_interface_command(&mut st, &wi_cmd(InterfaceCommandType::NodeElementList, "")), InterfaceReaction::SendNodeElementList));
    match handle_interface_command(&mut st, &wi_cmd(InterfaceCommandType::NodeRegistration, "{}")) {
        InterfaceReaction::RegisterNode { data } => assert_eq!(data, "{}"),
        _ => panic!("expected RegisterNode"),
    }
    match handle_interface_command(&mut st, &wi_cmd(InterfaceCommandType::SetElementState, "n::a::1")) {
        InterfaceReaction::SetElementState { data } => assert_eq!(data, "n::a::1"),
        _ => panic!("expected SetElementState"),
    }
    match handle_interface_command(&mut st, &wi_cmd(InterfaceCommandType::UpdateNodeInfo, "{}")) {
        InterfaceReaction::UpdateNodeInfo { data } => assert_eq!(data, "{}"),
        _ => panic!("expected UpdateNodeInfo"),
    }
    assert!(matches!(handle_interface_command(&mut st, &wi_cmd(InterfaceCommandType::SystemShutdown, "")), InterfaceReaction::Shutdown));
    assert!(matches!(handle_interface_command(&mut st, &wi_cmd(InterfaceCommandType::SystemReboot, "")), InterfaceReaction::Reboot));
    assert!(matches!(handle_interface_command(&mut st, &wi_cmd(InterfaceCommandType::UpdateElementState, "")), InterfaceReaction::Ignore));
    assert!(matches!(handle_interface_command(&mut st, &wi_cmd(InterfaceCommandType::NodeStatus, "")), InterfaceReaction::Unsupported));
    assert_eq!(st.unregister_queue.len(), 1);
}

#[test]
fn unregister_pass_removes_each_unregistered_node() {
    let mut st = new_hub_state();
    for id in ["a", "b", "c"] {
        handle_interface_command(&mut st, &wi_cmd(InterfaceCommandType::UnregisterNode, id));
    }
    let mut pass = start_unregister_pass(&st);
    assert_eq!(pass.snapshot, vec!["a", "b", "c"]);
    assert!(!pass.populated);
    assert_eq!(unregister_pass_plan(&pass).unwrap().statements[0].params.len(), 1);
    // "a" fails: it stays queued.
    assert!(!unregister_pass_record(&mut pass, &mut st, false));
    assert!(pass.populated);
    // "b" and "c" succeed: both leave the queue.
    assert!(unregister_pass_record(&mut pass, &mut st, true));
    assert_eq!(st.unregister_queue, vec!["a", "c"]);
    assert!(unregister_pass_record(&mut pass, &mut st, true));
    assert_eq!(st.unregister_queue, vec!["a"]);
    assert!(unregister_pass_plan(&pass).is_none());
}

#[test]
fn unregister_pass_two_successes_in_a_row() {
    let mut st = new_hub_state();
    for id in ["a", "b", "c"] {
        handle_interface_command(&mut st, &wi_cmd(InterfaceCommandType::UnregisterNode, id));
    }
    let mut pass = start_unregister_pass(&st);
    for ok in [true, true, false] {
        unregister_pass_record(&mut pass, &mut st, ok);
    }
    assert_eq!(st.unregister_queue, vec!["c"]);
}

#[test]
fn unregister_pass_with_one_success() {
    let mut st = new_hub_state();
    for id in ["a", "b", "c"] {
        handle_interface_command(&mut st, &wi_cmd(InterfaceCommandType::UnregisterNode, id));
    }
    let mut pass = start_unregister_pass(&st);
    for ok in [false, true, false] {
        assert!(unregister_pass_plan(&pass).is_some());
        assert_eq!(unregister_pass_record(&mut pass, &mut st, ok), ok);
    }
    assert!(unregister_pass_plan(&pass).is_none());
    assert_eq!(st.unregister_queue, vec!["a", "c"]);
}

#[test]
fn unregister_pass_over_all() {
    let mut st = new_hub_state();
    handle_interface_command(&mut st, &wi_cmd(InterfaceCommandType::UnregisterNode, "x"));
    let mut pass = start_unregister_pass(&st);
    let plan = unregister_pass_plan(&pass).unwrap();
    assert_eq!(plan.statements.len(), 4);
    assert!(unregister_pass_record(&mut pass, &mut st, true));
    assert!(st.unregister_queue.is_empty());
    assert!(unregister_pass_plan(&pass).is_none());
}

fn el(node: &str, addr: &str) -> ElementsFiltered {
    ElementsFiltered {
        node_identifier: node.to_string(),
        address: addr.to_string(),
        name: format!("{}-{}", node, addr),
        element_type: "BasicSwitch".to_string(),
        category: String::new(),
        zone: String::new(),
        data: "false".to_string(),
    }
}

fn row(id: &str, state: bool) -> NodeRow {
    NodeRow { identifier: id.to_string(), name: format!("name-{}", id), category: "c".to_string(), state }
}

#[test]
fn node_element_list_groups_elements() {
    let list = get_node_element_list(
        Some(vec![row("n1", true), row("n2", false), row("n3", true)]),
        Some(vec![el("n2", "a"), el("n1", "b"), el("n2", "c"), el("zz", "d")]),
    )
    .unwrap();
    assert_eq!(list.len(), 3);
    assert_eq!(list[0].identifier, "n1");
    assert!(list[0].state);
    assert_eq!(list[0].name, "name-n1");
    let addrs = |i: usize| list[i].elements.iter().map(|e| e.address.clone()).collect::<Vec<_>>();
    assert_eq!(addrs(0), vec!["b"]);
    assert_eq!(addrs(1), vec!["a", "c"]);
    assert!(addrs(2).is_empty());
    assert!(get_node_element_list(None, Some(vec![el("n1", "a")])).is_none());
    let no_elements = get_node_element_list(Some(vec![row("n1", true)]), None).unwrap();
    assert!(no_elements[0].elements.is_empty());
}

#[test]
fn registering_a_node() {
    let node = NewNode {
        identifier: "unreg42".to_string(),
        name: "Hall".to_string(),
        elements: vec![
            NewElement { address: "a1".to_string(), name: "Lamp".to_string(), element_type: ElementType::BasicSwitch, zone: "z".to_string() },
            NewElement { address: "a2".to_string(), name: "Temp".to_string(), element_type: ElementType::DHT11, zone: "z".to_string() },
        ],
    };
    let reg = register_node(node).expect("random generator");
    assert!(reg.identifier.starts_with("reg"));
    assert_eq!(reg.identifier.len(), 13);
    assert!(reg.identifier[3..].chars().all(|c| c.is_ascii_alphanumeric()));
    assert_eq!(reg.password.len(), 16);
    assert_eq!(
        show(&reg.credentials),
        format!("unregistered/unreg42 | ImplementCreds | {}:{} | 2", reg.identifier, reg.password)
    );
    assert_eq!(reg.plans.len(), 5);
    let elements = &reg.plans[0].statements;
    assert_eq!(elements.len(), 2);
    assert!(elements[1].sql.starts_with("INSERT INTO blackbox_elements"));
    match &elements[1].params[4] {
        black_box::plan::SqlParam::Text(d) => assert_eq!(d, "{\"temp\": \"0\", \"hum\": \"0\"}"),
        _ => panic!("text expected"),
    }
    match &elements[0].params[0] {
        black_box::plan::SqlParam::Text(d) => assert_eq!(d, &reg.identifier),
        _ => panic!("text expected"),
    }
    assert!(reg.plans[1].statements[0].sql.starts_with("INSERT INTO blackbox_nodes"));
    assert!(reg.hash.starts_with("PBKDF2$sha512$100000$"));
    assert_eq!(reg.hash.len(), 126);
    match &reg.plans[2].statements[0].params[1] {
        black_box::plan::SqlParam::Text(h) => {
            assert_eq!(h, &reg.hash);
            assert!(!h.contains(&reg.password));
        }
        _ => panic!("text expected"),
    }
    assert_eq!(reg.plans[3].statements.len(), 3);
    match &reg.plans[4].statements[0].params[0] {
        black_box::plan::SqlParam::Text(id) => assert_eq!(id, "unreg42"),
        _ => panic!("text expected"),
    }
}
