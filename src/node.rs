//! The node's state and the step function that serves one inbound message.

use crate::message::{reply_view, Body, Message, MessageView};
use crate::payload::{Payload, PayloadView};
use std::collections::HashMap;
use vstd::prelude::*;

verus! {

/// Which data the node's `read` reports.
#[derive(Debug, Clone, Copy, PartialEq, Eq, Structural)]
pub enum Workload {
    /// `add` accumulates into a counter, and `read` reports it.
    Counter,
    /// `broadcast` appends to a log, and `read` reports the whole log.
    Log,
}

/// Why the node refused a message.
#[derive(Debug, Clone, Copy, PartialEq, Eq, Structural)]
pub enum StepError {
    /// The message is a reply to a request that this node never sends.
    UnexpectedReply,
}

/// The state of one node.
pub struct EchoNode {
    /// The identifier that the next reply will carry.
    pub id: usize,
    /// The counter of the counter workload.
    pub value: usize,
    /// The values broadcast to this node, in arrival order.
    pub log: Vec<usize>,
    /// The neighbours of each node, as set by the last topology message.
    pub known: HashMap<String, Vec<String>>,
    /// Which data `read` reports.
    pub workload: Workload,
}

/// The mathematical value of a node.
pub struct NodeView {
    pub next_id: usize,
    pub value: usize,
    pub log: Seq<usize>,
    pub topology: Map<String, Vec<String>>,
    pub workload: Workload,
}

impl View for EchoNode {
    type V = NodeView;

    open spec fn view(&self) -> NodeView {
        NodeView {
            next_id: self.id,
            value: self.value,
            log: self.log@,
            topology: self.known@,
            workload: self.workload,
        }
    }
}

/// A node that has served no message yet.
pub open spec fn initial_node(workload: Workload) -> NodeView {
    NodeView {
        next_id: 0,
        value: 0,
        log: Seq::empty(),
        topology: Map::empty(),
        workload,
    }
}

/// How serving payload `p` changes the node's data (its identifier aside).
pub open spec fn apply_payload(n: NodeView, p: PayloadView) -> NodeView {
    match p {
        PayloadView::Add { delta } => if n.workload == Workload::Counter {
            NodeView { value: (n.value + delta) as usize, ..n }
        } else {
            n
        },
        PayloadView::Broadcast { message } => if n.workload == Workload::Log {
            NodeView { log: n.log.push(message), ..n }
        } else {
            n
        },
        PayloadView::Topology { topology } => NodeView { topology, ..n },
        _ => n,
    }
}

/// The payload of the reply to `p`, if any; `fresh` is the identifier that
/// answers a `generate` request.
pub open spec fn reply_payload(n: NodeView, p: PayloadView, fresh: Seq<char>) -> Option<PayloadView> {
    match p {
        PayloadView::Echo { echo } => Some(PayloadView::EchoOk { echo }),
        PayloadView::Init { .. } => Some(PayloadView::InitOk),
        PayloadView::Generate => Some(PayloadView::GenerateOk { id: fresh }),
        PayloadView::Add { .. } => Some(PayloadView::AddOk),
        PayloadView::Broadcast { .. } => Some(PayloadView::BroadcastOk),
        PayloadView::Read => Some(
            match n.workload {
                Workload::Counter => PayloadView::ReadOk { value: n.value },
                Workload::Log => PayloadView::ReadLogOk { messages: n.log },
            },
        ),
        PayloadView::Topology { .. } => Some(PayloadView::TopologyOk),
        _ => None,
    }
}

/// The node after serving `m`, and the outcome: the reply, if any, or the
/// error that refuses `m`.
pub open spec fn step_spec(n: NodeView, m: MessageView, fresh: Seq<char>) -> (NodeView, Result<Option<MessageView>, StepError>) {
    if m.body.payload.is_unexpected_reply() {
        (n, Err(StepError::UnexpectedReply))
    } else {
        let after = apply_payload(n, m.body.payload);
        let reply = match reply_payload(n, m.body.payload, fresh) {
            Some(p) => Some(reply_view(m, n.next_id, p)),
            None => None,
        };
        (NodeView { next_id: (n.next_id + 1) as usize, ..after }, Ok(reply))
    }
}

/// Serving `m` overflows no counter of the node.
pub open spec fn can_serve(n: NodeView, m: MessageView) -> bool {
    &&& n.next_id < usize::MAX
    &&& (m.body.payload is Add && n.workload == Workload::Counter)
        ==> n.value + m.body.payload->Add_delta <= usize::MAX
}

/// The mathematical value of a step's outcome.
pub open spec fn outcome_view(r: Result<Option<Message>, StepError>) -> Result<Option<MessageView>, StepError> {
    match r {
        Ok(Some(m)) => Ok(Some(m@)),
        Ok(None) => Ok(None),
        Err(e) => Err(e),
    }
}

impl EchoNode {
    /// A node of the given workload that has served no message yet.
    pub fn new(workload: Workload) -> (r: EchoNode)
        ensures
            r@ == initial_node(workload),
    {
        let r = EchoNode { id: 0, value: 0, log: Vec::new(), known: HashMap::new(), workload };
        assert(r@.log =~= Seq::<usize>::empty());
        r
    }

    /// Serves one message, answering a `generate` request with `fresh_id`.
    /// A reply that the node never asked for is refused and leaves the node
    /// as it was; any other message advances the reply identifier by one.
    pub fn respond(&mut self, input: Message, fresh_id: String) -> (r: Result<Option<Message>, StepError>)
        requires
            can_serve(old(self)@, input@),
        ensures
            (final(self)@, outcome_view(r)) == step_spec(old(self)@, input@, fresh_id@),
    {
        if input.body.payload.is_unexpected_reply() {
            return Err(StepError::UnexpectedReply);
        }
        let Message { src, dest, body } = input;
        let request_id = body.id;
        let payload: Option<Payload> = match body.payload {
            Payload::Echo { echo } => Some(Payload::EchoOk { echo }),
            Payload::Init { .. } => Some(Payload::InitOk),
            Payload::Generate => Some(Payload::GenerateOk { id: fresh_id }),
            Payload::Add { delta } => {
                if self.workload == Workload::Counter {
                    self.value = self.value + delta;
                }
                Some(Payload::AddOk)
            },
            Payload::Broadcast { message } => {
                if self.workload == Workload::Log {
                    self.log.push(message);
                }
                Some(Payload::BroadcastOk)
            },
            Payload::Read => Some(
                match self.workload {
                    Workload::Counter => Payload::ReadOk { value: self.value },
                    Workload::Log => Payload::ReadLogOk { messages: copy_log(&self.log) },
                },
            ),
            Payload::Topology { topology } => {
                self.known = topology;
                Some(Payload::TopologyOk)
            },
            _ => None,
        };
        let reply = match payload {
            Some(p) => Some(
                Message {
                    src: dest,
                    dest: src,
                    body: Body { id: Some(self.id), in_reply_to: request_id, payload: p },
                },
            ),
            None => None,
        };
        self.id = self.id + 1;
        Ok(reply)
    }

    /// Serves one message, answering a `generate` request with a freshly
    /// drawn unique identifier. The outcome is that of `respond` for some
    /// identifier of 36 characters; for any other request it does not depend
    /// on the identifier at all.
    pub fn step(&mut self, input: Message) -> (r: Result<Option<Message>, StepError>)
        requires
            can_serve(old(self)@, input@),
        ensures
            exists|fresh: Seq<char>|
                fresh.len() == 36
                && (final(self)@, outcome_view(r)) == #[trigger] step_spec(old(self)@, input@, fresh),
            !(input@.body.payload is Generate)
                ==> (final(self)@, outcome_view(r)) == step_spec(old(self)@, input@, Seq::empty()),
    {
        let is_generate = match &input.body.payload {
            Payload::Generate => true,
            _ => false,
        };
        let fresh_id = if is_generate {
            fresh_unique_id()
        } else {
            String::new()
        };
        let ghost fresh = fresh_id@;
        let ghost before = self@;
        let ghost request = input@;
        let r = self.respond(input, fresh_id);
        proof {
            if !is_generate {
                let any_id = Seq::new(36, |i: int| '0');
                assert(step_spec(before, request, fresh) == step_spec(before, request, Seq::empty()));
                assert(step_spec(before, request, fresh) == step_spec(before, request, any_id));
            }
        }
        r
    }
}

/// A copy of the log, element for element.
fn copy_log(log: &Vec<usize>) -> (r: Vec<usize>)
    ensures
        r@ == log@,
{
    let mut r: Vec<usize> = Vec::new();
    let mut i: usize = 0;
    while i < log.len()
        invariant
            i <= log@.len(),
            r@ == log@.subrange(0, i as int),
        decreases log@.len() - i,
    {
        r.push(log[i]);
        i = i + 1;
        assert(r@ =~= log@.subrange(0, i as int));
    }
    assert(log@.subrange(0, log@.len() as int) =~= log@);
    r
}

/// Relies on uuid's `Uuid::new_v4` and its `Display` impl: a random
/// version 4 identifier in hyphenated form, which has 36 characters.
#[verifier::external_body]
fn fresh_unique_id() -> (r: String)
    ensures
        r@.len() == 36,
{
    uuid::Uuid::new_v4().to_string()
}

} // verus!
