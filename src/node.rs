use vstd::prelude::*;
use std::collections::HashSet;
use crate::ident::{generate_uuid, is_uuid_text};
use crate::message::{
    outcome_view, strings_view, Body, BodyView, Message, MessageView, NodeError, Payload,
    PayloadView,
};

verus! {

broadcast use vstd::std_specs::hash::group_hash_axioms;

/// Error code of a reply to a message addressed to another node.
pub const DESTINATION_MISMATCH: usize = 1001;

/// Error code of a reply to an `Init` received after initialization.
pub const ALREADY_INITIALIZED: usize = 1002;

/// Text of the destination-mismatch error.
pub open spec fn destination_mismatch_text() -> Seq<char> {
    "destination mismatch"@
}

/// Text of the duplicate-initialization error.
pub open spec fn already_initialized_text() -> Seq<char> {
    "already initialized"@
}

/// An initialized node: identity, peers and the local state that messages
/// change.
pub struct Node {
    id: String,
    node_ids: Vec<String>,
    messages: HashSet<usize>,
    g_counter: usize,
}

/// Mathematical model of a [`Node`].
pub struct NodeView {
    /// The node's own id.
    pub id: Seq<char>,
    /// The ids of all nodes of the cluster.
    pub peers: Set<Seq<char>>,
    /// The values received by broadcast.
    pub messages: Set<usize>,
    /// The counter that `Add` advances and `Read` reports.
    pub counter: usize,
}

impl View for Node {
    type V = NodeView;

    closed spec fn view(&self) -> NodeView {
        NodeView {
            id: self.id@,
            peers: strings_view(self.node_ids@).to_set(),
            messages: self.messages@,
            counter: self.g_counter,
        }
    }
}

/// The state of a node right after it handled `Init { node_id, node_ids }`.
pub open spec fn initial_state(node_id: Seq<char>, node_ids: Seq<Seq<char>>) -> NodeView {
    NodeView { id: node_id, peers: node_ids.to_set(), messages: Set::empty(), counter: 0 }
}

/// The reply to an `Init` message that makes a node `node_id`.
pub open spec fn init_reply(m: MessageView, node_id: Seq<char>) -> MessageView {
    MessageView {
        src: node_id,
        dst: m.src,
        body: BodyView { id: None, in_reply_to: m.body.id, payload: PayloadView::InitOk },
    }
}

/// An error reply from `n` to the sender of `m`.
pub open spec fn error_reply(n: NodeView, m: MessageView, code: usize, text: Seq<char>) -> MessageView {
    MessageView {
        src: n.id,
        dst: m.src,
        body: BodyView {
            id: None,
            in_reply_to: m.body.id,
            payload: PayloadView::Error { code, text },
        },
    }
}

/// A successful reply from `n` to the sender of `m`: it carries the request's
/// sequence number both as its own and as the one it answers.
pub open spec fn ok_reply(n: NodeView, m: MessageView, payload: PayloadView) -> MessageView {
    MessageView {
        src: n.id,
        dst: m.src,
        body: BodyView { id: m.body.id, in_reply_to: m.body.id, payload },
    }
}

/// Whether handling `m` at `n` draws a fresh identifier.
pub open spec fn wants_fresh_id(n: NodeView, m: MessageView) -> bool {
    m.dst == n.id && m.body.payload is Generate
}

/// What node `n` does with message `m`: its next state and its reply, where
/// `fresh` is the identifier that a `Generate` hands out.
pub open spec fn step(n: NodeView, m: MessageView, fresh: Seq<char>) -> (NodeView, Result<MessageView, NodeError>) {
    if m.dst != n.id {
        (n, Ok(error_reply(n, m, DESTINATION_MISMATCH, destination_mismatch_text())))
    } else {
        match m.body.payload {
            PayloadView::Init { .. } => (
                n,
                Ok(error_reply(n, m, ALREADY_INITIALIZED, already_initialized_text())),
            ),
            PayloadView::Echo { echo } => (n, Ok(ok_reply(n, m, PayloadView::EchoOk { echo }))),
            PayloadView::Generate => (n, Ok(ok_reply(n, m, PayloadView::GenerateOk { id: fresh }))),
            PayloadView::Broadcast { message } => (
                NodeView { messages: n.messages.insert(message), ..n },
                Ok(ok_reply(n, m, PayloadView::BroadcastOk)),
            ),
            PayloadView::Read => (n, Ok(ok_reply(n, m, PayloadView::ReadOk { value: n.counter }))),
            PayloadView::Topology { .. } => (n, Ok(ok_reply(n, m, PayloadView::TopologyOk))),
            PayloadView::Add { delta } => (
                NodeView { counter: n.counter.wrapping_add(delta), ..n },
                Ok(ok_reply(n, m, PayloadView::AddOk)),
            ),
            _ => (n, Err(NodeError::UnrecognizedType)),
        }
    }
}

/// Whether `s` occurs in `v`.
fn contains_string(v: &Vec<String>, s: &String) -> (r: bool)
    ensures
        r == strings_view(v@).contains(s@),
{
    let mut i: usize = 0;
    while i < v.len()
        invariant
            i <= v.len(),
            forall|j: int| 0 <= j < i ==> v@[j]@ != s@,
        decreases v.len() - i,
    {
        if v[i] == *s {
            assert(strings_view(v@)[i as int] == s@);
            return true;
        }
        i += 1;
    }
    proof {
        if strings_view(v@).contains(s@) {
            let k = choose|k: int| 0 <= k < v@.len() && strings_view(v@)[k] == s@;
            assert(v@[k]@ == s@);
        }
    }
    false
}

impl Node {
    /// The node's invariant: no peer id is listed twice.
    pub closed spec fn wf(&self) -> bool {
        strings_view(self.node_ids@).no_duplicates()
    }

    /// Makes a node out of an `Init` message, with the reply to it.
    pub fn from_init(msg: Message) -> (r: Result<(Message, Node), NodeError>)
        ensures
            match msg@.body.payload {
                PayloadView::Init { node_id, node_ids } => {
                    &&& r is Ok
                    &&& r->Ok_0.0@ == init_reply(msg@, node_id)
                    &&& r->Ok_0.1.wf()
                    &&& r->Ok_0.1@ == initial_state(node_id, node_ids)
                },
                _ => r == Err::<(Message, Node), NodeError>(NodeError::NotInit),
            },
    {
        match msg.body.payload {
            Payload::Init { node_id, node_ids } => {
                let mut peers: Vec<String> = Vec::new();
                let mut i: usize = 0;
                while i < node_ids.len()
                    invariant
                        i <= node_ids.len(),
                        strings_view(peers@).no_duplicates(),
                        strings_view(peers@).to_set() == strings_view(node_ids@.take(i as int)).to_set(),
                    decreases node_ids.len() - i,
                {
                    let ghost before = strings_view(peers@);
                    let ghost x = node_ids@[i as int]@;
                    proof {
                        assert(strings_view(node_ids@.take(i + 1)) =~= strings_view(node_ids@.take(i as int)).push(x));
                        before.lemma_push_to_set_commute(x);
                        strings_view(node_ids@.take(i as int)).lemma_push_to_set_commute(x);
                    }
                    if !contains_string(&peers, &node_ids[i]) {
                        peers.push(node_ids[i].clone());
                        assert(strings_view(peers@) =~= before.push(x));
                    } else {
                        assert(before.to_set().insert(x) =~= before.to_set());
                    }
                    i += 1;
                }
                assert(node_ids@.take(i as int) == node_ids@);
                let reply = Message {
                    src: node_id.clone(),
                    dst: msg.src,
                    body: Body { id: None, in_reply_to: msg.body.id, payload: Payload::InitOk },
                };
                let node = Node { id: node_id, node_ids: peers, messages: HashSet::new(), g_counter: 0 };
                Ok((reply, node))
            },
            _ => Err(NodeError::NotInit),
        }
    }

    /// An error reply from this node to `dst`, answering sequence number `req`.
    fn error_reply(&self, dst: String, req: Option<usize>, code: usize, text: &str) -> (r: Message)
        ensures
            r@ == (MessageView {
                src: self@.id,
                dst: dst@,
                body: BodyView {
                    id: None,
                    in_reply_to: req,
                    payload: PayloadView::Error { code, text: text@ },
                },
            }),
    {
        Message {
            src: self.id.clone(),
            dst,
            body: Body { id: None, in_reply_to: req, payload: Payload::Error { code, text: text.to_owned() } },
        }
    }

    /// A successful reply from this node to `dst`, answering sequence number
    /// `req` and carrying it as its own.
    fn ok_reply(&self, dst: String, req: Option<usize>, payload: Payload) -> (r: Message)
        ensures
            r@ == (MessageView {
                src: self@.id,
                dst: dst@,
                body: BodyView { id: req, in_reply_to: req, payload: payload@ },
            }),
    {
        Message { src: self.id.clone(), dst, body: Body { id: req, in_reply_to: req, payload } }
    }

    /// Handles one message, with `fresh_id` as the identifier that a
    /// `Generate` hands out.
    pub fn handle(&mut self, msg: Message, fresh_id: String) -> (r: Result<Message, NodeError>)
        requires
            old(self).wf(),
        ensures
            final(self).wf(),
            (final(self)@, outcome_view(r)) == step(old(self)@, msg@, fresh_id@),
    {
        proof {
            reveal_strlit("destination mismatch");
            reveal_strlit("already initialized");
        }
        if msg.dst != self.id {
            return Ok(self.error_reply(msg.src, msg.body.id, DESTINATION_MISMATCH, "destination mismatch"));
        }
        let req = msg.body.id;
        match msg.body.payload {
            Payload::Init { .. } => Ok(self.error_reply(msg.src, req, ALREADY_INITIALIZED, "already initialized")),
            Payload::Echo { echo } => Ok(self.ok_reply(msg.src, req, Payload::EchoOk { echo })),
            Payload::Generate => Ok(self.ok_reply(msg.src, req, Payload::GenerateOk { id: fresh_id })),
            Payload::Broadcast { message } => {
                self.messages.insert(message);
                Ok(self.ok_reply(msg.src, req, Payload::BroadcastOk))
            },
            Payload::Read => {
                let value = self.g_counter;
                Ok(self.ok_reply(msg.src, req, Payload::ReadOk { value }))
            },
            Payload::Topology { .. } => Ok(self.ok_reply(msg.src, req, Payload::TopologyOk)),
            Payload::Add { delta } => {
                self.g_counter = self.g_counter.wrapping_add(delta);
                Ok(self.ok_reply(msg.src, req, Payload::AddOk))
            },
            _ => Err(NodeError::UnrecognizedType),
        }
    }

    /// Handles one message; a `Generate` hands out a freshly drawn random
    /// identifier.
    pub fn process(&mut self, msg: Message) -> (r: Result<Message, NodeError>)
        requires
            old(self).wf(),
        ensures
            final(self).wf(),
            !wants_fresh_id(old(self)@, msg@) ==> (final(self)@, outcome_view(r)) == step(old(self)@, msg@, Seq::empty()),
            wants_fresh_id(old(self)@, msg@) ==> exists|fresh: Seq<char>|
                #[trigger] is_uuid_text(fresh) && (final(self)@, outcome_view(r)) == step(old(self)@, msg@, fresh),
    {
        let fresh = if msg.dst == self.id && matches!(msg.body.payload, Payload::Generate) {
            generate_uuid()
        } else {
            String::new()
        };
        let r = self.handle(msg, fresh);
        r
    }

    /// The node's own id.
    pub fn id(&self) -> (r: &String)
        ensures
            r@ == self@.id,
    {
        &self.id
    }

    /// The number of distinct peer ids.
    pub fn peer_count(&self) -> (r: usize)
        requires
            self.wf(),
        ensures
            r == self@.peers.len(),
    {
        proof {
            strings_view(self.node_ids@).unique_seq_to_set();
        }
        self.node_ids.len()
    }

    /// Whether `peer` is one of the cluster's node ids.
    pub fn has_peer(&self, peer: &String) -> (r: bool)
        ensures
            r == self@.peers.contains(peer@),
    {
        contains_string(&self.node_ids, peer)
    }

    /// The current counter value.
    pub fn counter(&self) -> (r: usize)
        ensures
            r == self@.counter,
    {
        self.g_counter
    }

    /// The number of distinct values received by broadcast.
    pub fn message_count(&self) -> (r: usize)
        ensures
            r == self@.messages.len(),
    {
        self.messages.len()
    }

    /// Whether `value` was received by broadcast.
    pub fn has_message(&self, value: usize) -> (r: bool)
        ensures
            r == self@.messages.contains(value),
    {
        self.messages.contains(&value)
    }
}

} // verus!
