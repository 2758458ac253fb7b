//! The envelope that carries a payload from one node to another.

use crate::payload::{Payload, PayloadView};
use vstd::prelude::*;

verus! {

/// The identification metadata of a message and what it carries.
#[derive(Debug, Clone, PartialEq, Eq)]
pub struct Body {
    /// The sender's identifier for this message, written `msg_id` on the wire.
    pub id: Option<usize>,
    /// The `msg_id` of the request that this message answers.
    pub in_reply_to: Option<usize>,
    pub payload: Payload,
}

/// One directed message: where it comes from, where it goes, and its body.
#[derive(Debug, Clone, PartialEq, Eq)]
pub struct Message {
    pub src: String,
    pub dest: String,
    pub body: Body,
}

/// The mathematical value of a body.
pub struct BodyView {
    pub id: Option<usize>,
    pub in_reply_to: Option<usize>,
    pub payload: PayloadView,
}

/// The mathematical value of a message: its endpoints as character sequences.
pub struct MessageView {
    pub src: Seq<char>,
    pub dest: Seq<char>,
    pub body: BodyView,
}

impl View for Body {
    type V = BodyView;

    open spec fn view(&self) -> BodyView {
        BodyView { id: self.id, in_reply_to: self.in_reply_to, payload: self.payload@ }
    }
}

impl View for Message {
    type V = MessageView;

    open spec fn view(&self) -> MessageView {
        MessageView { src: self.src@, dest: self.dest@, body: self.body@ }
    }
}

/// The reply to `request` that carries `payload` under the identifier `id`:
/// source and destination swapped, and linked to the request's identifier.
pub open spec fn reply_view(request: MessageView, id: usize, payload: PayloadView) -> MessageView {
    MessageView {
        src: request.dest,
        dest: request.src,
        body: BodyView { id: Some(id), in_reply_to: request.body.id, payload },
    }
}

} // verus!
