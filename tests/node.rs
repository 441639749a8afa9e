use glommer::ids::{decimal_string, make_id};
use glommer::message::{
    neighbors_in, ActorMessage, GlommerBody, GlommerMessage, GlommerPayload, TopologyMap,
};
use glommer::node::MyActor;

fn request(src: &str, dest: &str, id: usize, payload: GlommerPayload) -> GlommerMessage<GlommerPayload> {
    GlommerMessage {
        src: src.to_string(),
        dest: dest.to_string(),
        body: GlommerBody { id: Some(id), in_reply_to: None, payload },
    }
}

fn init_payload(node: &str, nodes: &[&str]) -> GlommerPayload {
    GlommerPayload::Init {
        node_id: node.to_string(),
        node_ids: nodes.iter().map(|s| s.to_string()).collect(),
    }
}

fn ready_node(name: &str) -> MyActor {
    let mut node = MyActor::new();
    node.send_glommer_message(request("c0", name, 0, init_payload(name, &["n1", "n2"])))
        .expect("init is answered");
    node
}

fn sorted(mut v: Vec<i64>) -> Vec<i64> {
    v.sort();
    v
}

fn read_values(node: &mut MyActor) -> Vec<i64> {
    let r = node
        .send_glommer_message(request("c1", "n", 99, GlommerPayload::Read))
        .expect("read is answered");
    match r.body.payload {
        GlommerPayload::ReadOk { messages } => sorted(messages),
        _ => panic!("expected read_ok"),
    }
}

#[test]
fn init_replies_init_ok() {
    let mut node = MyActor::new();
    assert!(!node.is_initialized());
    let r = node
        .send_glommer_message(request("c1", "n1", 1, init_payload("n1", &["n1", "n2"])))
        .expect("init is answered");
    assert_eq!(r.body.payload.tag(), "init_ok");
    assert_eq!(r.body.in_reply_to, Some(1));
    assert_eq!(r.src, "n1");
    assert_eq!(r.dest, "c1");
    assert!(node.is_initialized());
    assert_eq!(node.node_id(), "n1");
}

#[test]
fn echo_returns_same_string() {
    let mut node = ready_node("n1");
    let r = node
        .send_glommer_message(request("c1", "n1", 2, GlommerPayload::Echo { echo: "hello".to_string() }))
        .expect("echo is answered");
    assert_eq!(r.body.in_reply_to, Some(2));
    match r.body.payload {
        GlommerPayload::EchoOk { echo } => assert_eq!(echo, "hello"),
        _ => panic!("expected echo_ok"),
    }
}

#[test]
fn broadcast_then_read_contains_value() {
    let mut node = ready_node("n1");
    let r = node
        .send_glommer_message(request("c1", "n1", 3, GlommerPayload::Broadcast { message: 42 }))
        .expect("broadcast is answered");
    assert_eq!(r.body.payload.tag(), "broadcast_ok");
    assert_eq!(r.body.in_reply_to, Some(3));
    assert!(read_values(&mut node).contains(&42));
}

#[test]
fn value_reaches_neighbor_through_gossip() {
    let topology: TopologyMap = vec![
        ("n1".to_string(), vec!["n2".to_string()]),
        ("n2".to_string(), vec!["n1".to_string()]),
    ];
    let mut n1 = ready_node("n1");
    let mut n2 = ready_node("n2");
    for node in [&mut n1, &mut n2] {
        let r = node
            .send_glommer_message(request("c1", "x", 4, GlommerPayload::Topology { topology: topology.clone() }))
            .expect("topology is answered");
        assert_eq!(r.body.payload.tag(), "topology_ok");
    }
    assert_eq!(n1.neighbor_ids(), vec!["n2".to_string()]);
    n1.send_glommer_message(request("c1", "n1", 5, GlommerPayload::Broadcast { message: 7 }));
    assert!(!read_values(&mut n2).contains(&7));
    let out = n1.gossip_round();
    assert_eq!(out.len(), 1);
    for m in out {
        assert_eq!(m.dest, "n2");
        assert_eq!(m.src, "n1");
        let reply = n2.send_glommer_message(m).expect("gossip is answered");
        assert_eq!(reply.body.payload.tag(), "gossip_ok");
        assert_eq!(reply.dest, "n1");
    }
    assert_eq!(read_values(&mut n2), vec![7]);
}

#[test]
fn repeated_broadcast_is_idempotent() {
    let mut node = ready_node("n1");
    for i in 0..5 {
        node.send_glommer_message(request("c1", "n1", 10 + i, GlommerPayload::Broadcast { message: -3 }));
    }
    assert_eq!(read_values(&mut node), vec![-3]);
    node.send_glommer_message(request("n2", "n1", 20, GlommerPayload::Gossip { messages: vec![-3, -3] }));
    assert_eq!(read_values(&mut node), vec![-3]);
}

#[test]
fn broadcasts_in_any_order_give_distinct_values() {
    let mut a = ready_node("n1");
    let mut b = ready_node("n1");
    let values = [5, 1, 5, i64::MAX, i64::MIN, 1, 0];
    for (i, v) in values.iter().enumerate() {
        a.send_glommer_message(request("c1", "n1", i, GlommerPayload::Broadcast { message: *v }));
    }
    for (i, v) in values.iter().rev().enumerate() {
        b.send_glommer_message(request("c1", "n1", i, GlommerPayload::Broadcast { message: *v }));
    }
    let expected = vec![i64::MIN, 0, 1, 5, i64::MAX];
    assert_eq!(read_values(&mut a), expected);
    assert_eq!(read_values(&mut b), expected);
}

#[test]
fn gossip_merges_values() {
    let mut node = ready_node("n1");
    node.send_glommer_message(request("c1", "n1", 1, GlommerPayload::Broadcast { message: 1 }));
    let r = node
        .send_glommer_message(request("n2", "n1", 2, GlommerPayload::Gossip { messages: vec![2, 3, 1] }))
        .expect("gossip is answered");
    assert_eq!(r.body.payload.tag(), "gossip_ok");
    assert_eq!(read_values(&mut node), vec![1, 2, 3]);
}

#[test]
fn generate_ids_are_distinct() {
    let mut n1 = ready_node("n1");
    let mut n2 = ready_node("n2");
    let mut seen = Vec::new();
    for node in [&mut n1, &mut n2] {
        for i in 0..20 {
            let r = node
                .send_glommer_message(request("c1", "x", i, GlommerPayload::Generate))
                .expect("generate is answered");
            match r.body.payload {
                GlommerPayload::GenerateOk { id } => {
                    assert!(!seen.contains(&id));
                    seen.push(id);
                }
                _ => panic!("expected generate_ok"),
            }
        }
    }
    assert_eq!(seen.len(), 40);
}

#[test]
fn generate_id_names_node_and_counter() {
    let mut node = ready_node("n1");
    assert_eq!(node.next_msg_id(), 1);
    let r = node
        .send_glommer_message(request("c1", "n1", 8, GlommerPayload::Generate))
        .expect("generate is answered");
    match r.body.payload {
        GlommerPayload::GenerateOk { id } => assert_eq!(id, "n1-1"),
        _ => panic!("expected generate_ok"),
    }
}

#[test]
fn message_ids_increase() {
    let mut node = MyActor::new();
    let mut last = None;
    let payloads = vec![
        init_payload("n1", &["n1"]),
        GlommerPayload::Echo { echo: "a".to_string() },
        GlommerPayload::Read,
        GlommerPayload::Generate,
    ];
    for (i, p) in payloads.into_iter().enumerate() {
        let r = node.send_glommer_message(request("c1", "n1", 100 + i, p)).expect("answered");
        assert_eq!(r.body.in_reply_to, Some(100 + i));
        let id = r.body.id.expect("replies carry an id");
        if let Some(prev) = last {
            assert!(id > prev);
        }
        last = Some(id);
    }
    assert_eq!(node.next_msg_id(), 4);
}

#[test]
fn requests_before_init_are_ignored() {
    let mut node = MyActor::new();
    assert!(node.send_glommer_message(request("c1", "n1", 1, GlommerPayload::Read)).is_none());
    assert!(node
        .send_glommer_message(request("c1", "n1", 2, GlommerPayload::Broadcast { message: 9 }))
        .is_none());
    assert_eq!(node.next_msg_id(), 0);
    assert!(node.known_values().is_empty());
}

#[test]
fn replies_from_peers_are_dropped() {
    let mut node = ready_node("n1");
    let before = node.next_msg_id();
    assert!(node.send_glommer_message(request("n2", "n1", 1, GlommerPayload::GossipOk)).is_none());
    assert!(node.send_glommer_message(request("n2", "n1", 2, GlommerPayload::BroadcastOk)).is_none());
    assert!(node
        .send_glommer_message(request("n2", "n1", 3, GlommerPayload::ReadOk { messages: vec![1] }))
        .is_none());
    assert_eq!(node.next_msg_id(), before);
    assert!(node.known_values().is_empty());
}

#[test]
fn topology_without_entry_gives_no_neighbors() {
    let mut node = ready_node("n3");
    let topology: TopologyMap = vec![("n1".to_string(), vec!["n2".to_string()])];
    node.send_glommer_message(request("c1", "n3", 1, GlommerPayload::Topology { topology }));
    assert!(node.neighbor_ids().is_empty());
    assert!(node.gossip_round().is_empty());
}

#[test]
fn neighbors_come_from_first_entry() {
    let topology: TopologyMap = vec![
        ("n2".to_string(), vec!["n9".to_string()]),
        ("n1".to_string(), vec!["n2".to_string(), "n3".to_string()]),
        ("n1".to_string(), vec!["n4".to_string()]),
    ];
    assert_eq!(
        neighbors_in(&topology, &"n1".to_string()),
        vec!["n2".to_string(), "n3".to_string()]
    );
}

#[test]
fn gossip_round_uses_consecutive_ids() {
    let mut node = ready_node("n1");
    let topology: TopologyMap =
        vec![("n1".to_string(), vec!["n2".to_string(), "n3".to_string(), "n4".to_string()])];
    node.send_glommer_message(request("c1", "n1", 1, GlommerPayload::Topology { topology }));
    node.send_glommer_message(request("c1", "n1", 2, GlommerPayload::Broadcast { message: 11 }));
    let start = node.next_msg_id();
    let out = node.gossip_round();
    let dests: Vec<&str> = out.iter().map(|m| m.dest.as_str()).collect();
    assert_eq!(dests, vec!["n2", "n3", "n4"]);
    for (i, m) in out.iter().enumerate() {
        assert_eq!(m.body.id, Some(start + i));
        assert_eq!(m.body.in_reply_to, None);
        match &m.body.payload {
            GlommerPayload::Gossip { messages } => assert_eq!(messages, &vec![11]),
            _ => panic!("expected gossip"),
        }
    }
    assert_eq!(node.next_msg_id(), start + 3);
}

#[test]
fn split_keeps_envelope() {
    let mut node = ready_node("n1");
    let m = GlommerMessage {
        src: "c7".to_string(),
        dest: "n1".to_string(),
        body: GlommerBody { id: Some(77), in_reply_to: Some(5), payload: GlommerPayload::Echo { echo: "x".to_string() } },
    };
    let r = node.send_glommer_message(m).expect("answered");
    assert_eq!(r.dest, "c7");
    assert_eq!(r.body.in_reply_to, Some(77));
    let header = GlommerMessage {
        src: "c8".to_string(),
        dest: "n1".to_string(),
        body: GlommerBody { id: None, in_reply_to: None, payload: () },
    };
    let r = node
        .handle(ActorMessage { message: header, payload: GlommerPayload::Echo { echo: "y".to_string() } })
        .expect("answered");
    assert_eq!(r.dest, "c8");
    assert_eq!(r.body.in_reply_to, None);
}

#[test]
fn decimal_and_ids() {
    assert_eq!(decimal_string(0), "0");
    assert_eq!(decimal_string(9), "9");
    assert_eq!(decimal_string(10), "10");
    assert_eq!(decimal_string(u64::MAX), "18446744073709551615");
    assert_eq!(make_id(&"n2".to_string(), 305), "n2-305");
    assert_eq!(make_id(&"".to_string(), 0), "-0");
}

#[test]
fn tags_match_wire_names() {
    assert_eq!(GlommerPayload::Generate.tag(), "generate");
    assert_eq!(GlommerPayload::TopologyOk.tag(), "topology_ok");
    assert_eq!(GlommerPayload::ReadOk { messages: vec![] }.tag(), "read_ok");
    assert_eq!(GlommerPayload::Gossip { messages: vec![] }.tag(), "gossip");
}
