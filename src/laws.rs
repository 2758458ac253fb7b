//! Properties of the step function that hold over every state and message.

use crate::message::MessageView;
use crate::node::{initial_node, step_spec, NodeView, StepError, Workload};
use crate::payload::PayloadView;
use vstd::prelude::*;

verus! {

/// The node after serving `msgs` in order from `n`, the message at position
/// `i` being answered, if it is a `generate` request, with `fresh[i]`.
pub open spec fn run(n: NodeView, msgs: Seq<MessageView>, fresh: Seq<Seq<char>>) -> NodeView
    decreases msgs.len(),
{
    if msgs.len() == 0 {
        n
    } else {
        let before = run(n, msgs.drop_last(), fresh);
        step_spec(before, msgs.last(), fresh[msgs.len() - 1]).0
    }
}

/// An `echo` request is answered, in any state, by an `echo_ok` that carries
/// the same text and names the request's identifier in `in_reply_to`.
pub proof fn lemma_echo_answers_verbatim(n: NodeView, m: MessageView, fresh: Seq<char>)
    requires
        m.body.payload is Echo,
    ensures
        step_spec(n, m, fresh).1 matches Ok(Some(r))
            && r.body.payload == (PayloadView::EchoOk { echo: m.body.payload->Echo_echo })
            && r.body.in_reply_to == m.body.id,
{
}

/// Serving a message advances the reply identifier by exactly one, whatever
/// the message; a refused message leaves the node as it was.
pub proof fn lemma_id_advances_by_one(n: NodeView, m: MessageView, fresh: Seq<char>)
    requires
        n.next_id < usize::MAX,
    ensures
        step_spec(n, m, fresh).1 is Ok ==> step_spec(n, m, fresh).0.next_id == n.next_id + 1,
        step_spec(n, m, fresh).1 is Err ==> step_spec(n, m, fresh).0 == n,
{
}

/// From a new node, after a run of messages none of which is refused, the
/// reply identifier equals the number of messages served.
pub proof fn lemma_id_counts_messages(w: Workload, msgs: Seq<MessageView>, fresh: Seq<Seq<char>>)
    requires
        msgs.len() < usize::MAX,
        forall|i: int| 0 <= i < msgs.len() ==> !(#[trigger] msgs[i]).body.payload.is_unexpected_reply(),
    ensures
        run(initial_node(w), msgs, fresh).next_id == msgs.len(),
    decreases msgs.len(),
{
    if msgs.len() > 0 {
        let prefix = msgs.drop_last();
        assert forall|i: int| 0 <= i < prefix.len() implies !(#[trigger] prefix[i]).body.payload.is_unexpected_reply() by {
            assert(prefix[i] == msgs[i]);
        }
        lemma_id_counts_messages(w, prefix, fresh);
        assert(!msgs[msgs.len() - 1].body.payload.is_unexpected_reply());
    }
}

/// Every reply goes back where the request came from: its source and
/// destination are the request's destination and source, it carries the
/// node's current identifier, and it answers the request's identifier.
pub proof fn lemma_reply_swaps_endpoints(n: NodeView, m: MessageView, fresh: Seq<char>)
    ensures
        step_spec(n, m, fresh).1 matches Ok(Some(r)) ==> {
            &&& r.src == m.dest
            &&& r.dest == m.src
            &&& r.body.id == Some(n.next_id)
            &&& r.body.in_reply_to == m.body.id
        },
{
}

/// Of two `topology` messages served in turn, only the second map is kept.
pub proof fn lemma_topology_last_write_wins(
    n: NodeView,
    m1: MessageView,
    m2: MessageView,
    fresh1: Seq<char>,
    fresh2: Seq<char>,
)
    requires
        m1.body.payload is Topology,
        m2.body.payload is Topology,
    ensures
        step_spec(step_spec(n, m1, fresh1).0, m2, fresh2).0.topology
            == m2.body.payload->Topology_topology,
{
}

/// A reply that the node never asked for (anything but `init_ok`) is
/// refused with `UnexpectedReply`: no reply, and the node is unchanged.
pub proof fn lemma_unexpected_reply_refused(n: NodeView, m: MessageView, fresh: Seq<char>)
    requires
        m.body.payload is EchoOk || m.body.payload is GenerateOk || m.body.payload is AddOk
            || m.body.payload is BroadcastOk || m.body.payload is ReadOk
            || m.body.payload is ReadLogOk || m.body.payload is TopologyOk,
    ensures
        step_spec(n, m, fresh) == (n, Err::<Option<MessageView>, StepError>(StepError::UnexpectedReply)),
{
}

/// An `init_ok` is accepted silently: no reply, no error, and the reply
/// identifier still advances by one.
pub proof fn lemma_init_ok_is_silent(n: NodeView, m: MessageView, fresh: Seq<char>)
    requires
        m.body.payload is InitOk,
        n.next_id < usize::MAX,
    ensures
        step_spec(n, m, fresh).1 == Ok::<Option<MessageView>, StepError>(None),
        step_spec(n, m, fresh).0.next_id == n.next_id + 1,
{
}

} // verus!
