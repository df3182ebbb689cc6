use vstd::prelude::*;

verus! {

/// The payload of a message: one variant per request and per reply.
#[derive(Debug, Clone, PartialEq, Eq)]
pub enum Payload {
    Echo { echo: String },
    EchoOk { echo: String },
    Init { node_id: String, node_ids: Vec<String> },
    InitOk,
    Generate,
    GenerateOk { id: String },
    Broadcast { message: usize },
    BroadcastOk,
    /// Adjacency lists, one `(node, neighbours)` pair per node.
    Topology { topology: Vec<(String, Vec<String>)> },
    TopologyOk,
    Read,
    ReadOk { value: usize },
    Add { delta: usize },
    AddOk,
    Error { code: usize, text: String },
}

/// Correlation metadata and payload of a message.
#[derive(Debug, Clone, PartialEq, Eq)]
pub struct Body {
    /// The sender's sequence number for this message.
    pub id: Option<usize>,
    /// The sequence number of the message this one answers.
    pub in_reply_to: Option<usize>,
    pub payload: Payload,
}

/// The envelope: sender, recipient and body.
#[derive(Debug, Clone, PartialEq, Eq)]
pub struct Message {
    pub src: String,
    pub dst: String,
    pub body: Body,
}

/// Failures that stop the node: the input broke the protocol it speaks.
#[derive(Debug, Clone, Copy, PartialEq, Eq, Structural)]
pub enum NodeError {
    /// The first message was not an `Init`.
    NotInit,
    /// A message of a type the node never receives (a reply type).
    UnrecognizedType,
}

/// Mathematical model of a [`Payload`]: strings as character sequences.
pub enum PayloadView {
    Echo { echo: Seq<char> },
    EchoOk { echo: Seq<char> },
    Init { node_id: Seq<char>, node_ids: Seq<Seq<char>> },
    InitOk,
    Generate,
    GenerateOk { id: Seq<char> },
    Broadcast { message: usize },
    BroadcastOk,
    Topology { topology: Seq<(Seq<char>, Seq<Seq<char>>)> },
    TopologyOk,
    Read,
    ReadOk { value: usize },
    Add { delta: usize },
    AddOk,
    Error { code: usize, text: Seq<char> },
}

/// Mathematical model of a [`Body`].
pub struct BodyView {
    pub id: Option<usize>,
    pub in_reply_to: Option<usize>,
    pub payload: PayloadView,
}

/// Mathematical model of a [`Message`].
pub struct MessageView {
    pub src: Seq<char>,
    pub dst: Seq<char>,
    pub body: BodyView,
}

/// The character sequences of a list of strings.
pub open spec fn strings_view(v: Seq<String>) -> Seq<Seq<char>> {
    v.map_values(|s: String| s@)
}

/// The model of a topology table.
pub open spec fn topology_view(t: Seq<(String, Vec<String>)>) -> Seq<(Seq<char>, Seq<Seq<char>>)> {
    t.map_values(|p: (String, Vec<String>)| (p.0@, strings_view(p.1@)))
}

impl View for Payload {
    type V = PayloadView;

    open spec fn view(&self) -> PayloadView {
        match self {
            Payload::Echo { echo } => PayloadView::Echo { echo: echo@ },
            Payload::EchoOk { echo } => PayloadView::EchoOk { echo: echo@ },
            Payload::Init { node_id, node_ids } => PayloadView::Init {
                node_id: node_id@,
                node_ids: strings_view(node_ids@),
            },
            Payload::InitOk => PayloadView::InitOk,
            Payload::Generate => PayloadView::Generate,
            Payload::GenerateOk { id } => PayloadView::GenerateOk { id: id@ },
            Payload::Broadcast { message } => PayloadView::Broadcast { message: *message },
            Payload::BroadcastOk => PayloadView::BroadcastOk,
            Payload::Topology { topology } => PayloadView::Topology {
                topology: topology_view(topology@),
            },
            Payload::TopologyOk => PayloadView::TopologyOk,
            Payload::Read => PayloadView::Read,
            Payload::ReadOk { value } => PayloadView::ReadOk { value: *value },
            Payload::Add { delta } => PayloadView::Add { delta: *delta },
            Payload::AddOk => PayloadView::AddOk,
            Payload::Error { code, text } => PayloadView::Error { code: *code, text: text@ },
        }
    }
}

impl View for Body {
    type V = BodyView;

    open spec fn view(&self) -> BodyView {
        BodyView { id: self.id, in_reply_to: self.in_reply_to, payload: self.payload@ }
    }
}

impl View for Message {
    type V = MessageView;

    open spec fn view(&self) -> MessageView {
        MessageView { src: self.src@, dst: self.dst@, body: self.body@ }
    }
}

/// The model of an outcome of message handling.
pub open spec fn outcome_view(r: Result<Message, NodeError>) -> Result<MessageView, NodeError> {
    match r {
        Ok(m) => Ok(m@),
        Err(e) => Err(e),
    }
}

} // verus!
