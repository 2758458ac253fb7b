//! The closed set of message payloads: requests that a node serves and the
//! replies it sends back.

use std::collections::HashMap;
use vstd::prelude::*;

verus! {

/// What a message carries, tagged by its kind.
#[derive(Debug, Clone, PartialEq, Eq)]
pub enum Payload {
    Add { delta: usize },
    AddOk,
    Echo { echo: String },
    EchoOk { echo: String },
    Init { node_id: String, node_ids: Vec<String> },
    InitOk,
    Generate,
    GenerateOk { id: String },
    Broadcast { message: usize },
    BroadcastOk,
    Read,
    ReadOk { value: usize },
    ReadLogOk { messages: Vec<usize> },
    TopologyOk,
    Topology { topology: HashMap<String, Vec<String>> },
}

/// The mathematical value of a payload: strings as character sequences,
/// vectors as sequences, the topology as a map.
pub enum PayloadView {
    Add { delta: usize },
    AddOk,
    Echo { echo: Seq<char> },
    EchoOk { echo: Seq<char> },
    Init { node_id: Seq<char>, node_ids: Seq<Seq<char>> },
    InitOk,
    Generate,
    GenerateOk { id: Seq<char> },
    Broadcast { message: usize },
    BroadcastOk,
    Read,
    ReadOk { value: usize },
    ReadLogOk { messages: Seq<usize> },
    TopologyOk,
    Topology { topology: Map<String, Vec<String>> },
}

impl View for Payload {
    type V = PayloadView;

    open spec fn view(&self) -> PayloadView {
        match self {
            Payload::Add { delta } => PayloadView::Add { delta: *delta },
            Payload::AddOk => PayloadView::AddOk,
            Payload::Echo { echo } => PayloadView::Echo { echo: echo@ },
            Payload::EchoOk { echo } => PayloadView::EchoOk { echo: echo@ },
            Payload::Init { node_id, node_ids } => PayloadView::Init {
                node_id: node_id@,
                node_ids: node_ids@.map_values(|s: String| s@),
            },
            Payload::InitOk => PayloadView::InitOk,
            Payload::Generate => PayloadView::Generate,
            Payload::GenerateOk { id } => PayloadView::GenerateOk { id: id@ },
            Payload::Broadcast { message } => PayloadView::Broadcast { message: *message },
            Payload::BroadcastOk => PayloadView::BroadcastOk,
            Payload::Read => PayloadView::Read,
            Payload::ReadOk { value } => PayloadView::ReadOk { value: *value },
            Payload::ReadLogOk { messages } => PayloadView::ReadLogOk { messages: messages@ },
            Payload::TopologyOk => PayloadView::TopologyOk,
            Payload::Topology { topology } => PayloadView::Topology { topology: topology@ },
        }
    }
}

impl PayloadView {
    /// A reply that this node never asked for and so never accepts.
    pub open spec fn is_unexpected_reply(self) -> bool {
        ||| self is EchoOk
        ||| self is GenerateOk
        ||| self is AddOk
        ||| self is BroadcastOk
        ||| self is ReadOk
        ||| self is ReadLogOk
        ||| self is TopologyOk
    }
}

impl Payload {
    /// Tells whether this payload is a reply that the node does not accept.
    pub fn is_unexpected_reply(&self) -> (r: bool)
        ensures
            r == self@.is_unexpected_reply(),
    {
        match self {
            Payload::EchoOk { .. } | Payload::GenerateOk { .. } | Payload::AddOk
            | Payload::BroadcastOk | Payload::ReadOk { .. } | Payload::ReadLogOk { .. }
            | Payload::TopologyOk => true,
            _ => false,
        }
    }
}

} // verus!
