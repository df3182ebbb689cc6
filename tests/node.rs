use echo_node::{Body, Message, Node, NodeError, Payload};
use std::collections::HashSet;

fn msg(src: &str, dst: &str, id: Option<usize>, payload: Payload) -> Message {
    Message {
        src: src.to_string(),
        dst: dst.to_string(),
        body: Body { id, in_reply_to: None, payload },
    }
}

fn init_node(node_id: &str, node_ids: &[&str]) -> Node {
    let init = msg(
        "c1",
        node_id,
        Some(1),
        Payload::Init {
            node_id: node_id.to_string(),
            node_ids: node_ids.iter().map(|s| s.to_string()).collect(),
        },
    );
    Node::from_init(init).unwrap().1
}

fn payload_of(r: Result<Message, NodeError>) -> Payload {
    r.unwrap().body.payload
}

#[test]
fn init_then_echo_scenario() {
    let init = msg(
        "c1",
        "n0",
        Some(1),
        Payload::Init { node_id: "n0".to_string(), node_ids: vec!["n0".to_string()] },
    );
    let (reply, mut node) = Node::from_init(init).unwrap();
    assert_eq!(
        reply,
        Message {
            src: "n0".to_string(),
            dst: "c1".to_string(),
            body: Body { id: None, in_reply_to: Some(1), payload: Payload::InitOk },
        }
    );
    let echo = msg("c1", "n0", Some(2), Payload::Echo { echo: "hi".to_string() });
    assert_eq!(
        node.process(echo).unwrap(),
        Message {
            src: "n0".to_string(),
            dst: "c1".to_string(),
            body: Body {
                id: Some(2),
                in_reply_to: Some(2),
                payload: Payload::EchoOk { echo: "hi".to_string() },
            },
        }
    );
}

#[test]
fn init_reply_comes_from_new_id() {
    let init = msg(
        "c7",
        "somewhere",
        None,
        Payload::Init { node_id: "n3".to_string(), node_ids: vec![] },
    );
    let (reply, node) = Node::from_init(init).unwrap();
    assert_eq!(reply.src, "n3");
    assert_eq!(reply.dst, "c7");
    assert_eq!(reply.body.id, None);
    assert_eq!(reply.body.in_reply_to, None);
    assert_eq!(node.id(), "n3");
    assert_eq!(node.counter(), 0);
    assert_eq!(node.message_count(), 0);
    assert_eq!(node.peer_count(), 0);
}

#[test]
fn from_init_rejects_other_payloads() {
    let echo = msg("c1", "n0", Some(1), Payload::Echo { echo: "x".to_string() });
    assert!(matches!(Node::from_init(echo), Err(NodeError::NotInit)));
    let read = msg("c1", "n0", Some(1), Payload::Read);
    assert!(matches!(Node::from_init(read), Err(NodeError::NotInit)));
}

#[test]
fn peers_are_deduplicated() {
    let node = init_node("n0", &["n0", "n1", "n0", "n2", "n1"]);
    assert_eq!(node.peer_count(), 3);
    assert!(node.has_peer(&"n1".to_string()));
    assert!(node.has_peer(&"n2".to_string()));
    assert!(!node.has_peer(&"n9".to_string()));
}

#[test]
fn second_init_is_refused_and_changes_nothing() {
    let mut node = init_node("n0", &["n0", "n1"]);
    node.process(msg("c1", "n0", Some(2), Payload::Add { delta: 4 })).unwrap();
    node.process(msg("c1", "n0", Some(3), Payload::Broadcast { message: 9 })).unwrap();
    let again = msg(
        "c2",
        "n0",
        Some(4),
        Payload::Init { node_id: "n5".to_string(), node_ids: vec!["n5".to_string()] },
    );
    let reply = node.process(again).unwrap();
    assert_eq!(reply.src, "n0");
    assert_eq!(reply.dst, "c2");
    assert_eq!(reply.body.id, None);
    assert_eq!(reply.body.in_reply_to, Some(4));
    assert_eq!(
        reply.body.payload,
        Payload::Error { code: 1002, text: "already initialized".to_string() }
    );
    assert_eq!(node.id(), "n0");
    assert_eq!(node.peer_count(), 2);
    assert!(!node.has_peer(&"n5".to_string()));
    assert_eq!(node.counter(), 4);
    assert_eq!(node.message_count(), 1);
    assert!(node.has_message(9));
}

#[test]
fn echo_returns_same_string() {
    let mut node = init_node("n0", &["n0"]);
    for s in ["", "hello world", "ünïcødé ✓", "  spaces\tand\nnewlines "] {
        let r = node.process(msg("c1", "n0", Some(10), Payload::Echo { echo: s.to_string() }));
        assert_eq!(payload_of(r), Payload::EchoOk { echo: s.to_string() });
    }
}

#[test]
fn generate_ids_are_unique_and_well_formed() {
    let mut node = init_node("n0", &["n0"]);
    let n = 10_000;
    let mut seen = HashSet::new();
    for i in 0..n {
        let reply = node.process(msg("c1", "n0", Some(i), Payload::Generate)).unwrap();
        assert_eq!(reply.body.id, Some(i));
        assert_eq!(reply.body.in_reply_to, Some(i));
        match reply.body.payload {
            Payload::GenerateOk { id } => {
                assert_eq!(id.len(), 36);
                for (k, c) in id.chars().enumerate() {
                    if k == 8 || k == 13 || k == 18 || k == 23 {
                        assert_eq!(c, '-');
                    } else {
                        assert!(c.is_ascii_hexdigit() && !c.is_ascii_uppercase());
                    }
                }
                assert_eq!(id.chars().nth(14), Some('4'));
                seen.insert(id);
            }
            other => panic!("unexpected payload {:?}", other),
        }
    }
    assert_eq!(seen.len(), n);
}

#[test]
fn handle_hands_out_given_id() {
    let mut node = init_node("n0", &["n0"]);
    let r = node.handle(msg("c1", "n0", Some(3), Payload::Generate), "abc".to_string());
    assert_eq!(payload_of(r), Payload::GenerateOk { id: "abc".to_string() });
}

#[test]
fn broadcast_twice_keeps_one_value() {
    let mut node = init_node("n0", &["n0"]);
    let r1 = node.process(msg("c1", "n0", Some(1), Payload::Broadcast { message: 42 }));
    assert_eq!(payload_of(r1), Payload::BroadcastOk);
    assert_eq!(node.message_count(), 1);
    let r2 = node.process(msg("c1", "n0", Some(2), Payload::Broadcast { message: 42 }));
    assert_eq!(payload_of(r2), Payload::BroadcastOk);
    assert_eq!(node.message_count(), 1);
    assert!(node.has_message(42));
    node.process(msg("c1", "n0", Some(3), Payload::Broadcast { message: 7 })).unwrap();
    assert_eq!(node.message_count(), 2);
}

#[test]
fn read_before_add_is_zero() {
    let mut node = init_node("n0", &["n0"]);
    let r = node.process(msg("c1", "n0", Some(1), Payload::Read));
    assert_eq!(payload_of(r), Payload::ReadOk { value: 0 });
}

#[test]
fn adds_sum_up_in_read() {
    let mut node = init_node("n0", &["n0"]);
    let deltas = [3usize, 0, 10, 1, 1000];
    for (i, d) in deltas.iter().enumerate() {
        let r = node.process(msg("c1", "n0", Some(i), Payload::Add { delta: *d }));
        assert_eq!(payload_of(r), Payload::AddOk);
    }
    let r = node.process(msg("c1", "n0", Some(99), Payload::Read)).unwrap();
    assert_eq!(r.body.id, Some(99));
    assert_eq!(r.body.in_reply_to, Some(99));
    assert_eq!(r.body.payload, Payload::ReadOk { value: 1014 });
}

#[test]
fn add_past_largest_counter_wraps() {
    let mut node = init_node("n0", &["n0"]);
    node.process(msg("c1", "n0", None, Payload::Add { delta: usize::MAX })).unwrap();
    assert_eq!(node.counter(), usize::MAX);
    node.process(msg("c1", "n0", None, Payload::Add { delta: 2 })).unwrap();
    assert_eq!(node.counter(), 1);
}

#[test]
fn destination_mismatch_changes_nothing() {
    let mut node = init_node("n0", &["n0", "n1"]);
    let reply = node.process(msg("c1", "n1", Some(5), Payload::Add { delta: 8 })).unwrap();
    assert_eq!(reply.src, "n0");
    assert_eq!(reply.dst, "c1");
    assert_eq!(reply.body.id, None);
    assert_eq!(reply.body.in_reply_to, Some(5));
    assert_eq!(
        reply.body.payload,
        Payload::Error { code: 1001, text: "destination mismatch".to_string() }
    );
    assert_eq!(node.counter(), 0);
    let r = node.process(msg("c1", "n1", Some(6), Payload::Broadcast { message: 1 }));
    assert!(matches!(payload_of(r), Payload::Error { code: 1001, .. }));
    assert_eq!(node.message_count(), 0);
    let r = node.process(msg("c1", "n1", Some(7), Payload::InitOk));
    assert!(matches!(payload_of(r), Payload::Error { code: 1001, .. }));
}

#[test]
fn topology_is_acknowledged_and_ignored() {
    let mut node = init_node("n0", &["n0", "n1"]);
    node.process(msg("c1", "n0", Some(1), Payload::Add { delta: 2 })).unwrap();
    let topology = vec![
        ("n0".to_string(), vec!["n1".to_string()]),
        ("n1".to_string(), vec!["n0".to_string(), "n7".to_string()]),
    ];
    let r = node.process(msg("c1", "n0", Some(2), Payload::Topology { topology })).unwrap();
    assert_eq!(r.body.id, Some(2));
    assert_eq!(r.body.in_reply_to, Some(2));
    assert_eq!(r.body.payload, Payload::TopologyOk);
    assert_eq!(node.peer_count(), 2);
    assert!(!node.has_peer(&"n7".to_string()));
    node.process(msg("c1", "n0", Some(3), Payload::Add { delta: 5 })).unwrap();
    let r = node.process(msg("c1", "n0", Some(4), Payload::Read));
    assert_eq!(payload_of(r), Payload::ReadOk { value: 7 });
}

#[test]
fn reply_types_are_unrecognized() {
    let mut node = init_node("n0", &["n0"]);
    let replies = vec![
        Payload::InitOk,
        Payload::EchoOk { echo: "x".to_string() },
        Payload::GenerateOk { id: "x".to_string() },
        Payload::BroadcastOk,
        Payload::TopologyOk,
        Payload::ReadOk { value: 1 },
        Payload::AddOk,
        Payload::Error { code: 1, text: "x".to_string() },
    ];
    for p in replies {
        let r = node.process(msg("c1", "n0", Some(1), p));
        assert!(matches!(r, Err(NodeError::UnrecognizedType)));
    }
    assert_eq!(node.counter(), 0);
}
