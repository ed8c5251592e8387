//! The two-stage pipeline: the intake context serves inbound transport
//! events against the camera it exclusively owns, and the emission context
//! drains a single-producer/single-consumer queue of response messages.
//!
//! Every device-originated message carries this node's identity and is
//! addressed to the controller. The queue delivers messages in exactly the
//! order the intake context enqueued them.

use std::collections::VecDeque;

use vstd::prelude::*;

use crate::camera::Camera;
use crate::dispatch::{dispatch_post, handle_flock_message};
use crate::message::{Message, Payload};

verus! {

/// The node's fixed identity, constructed once at process start from the
/// environment: who device-originated messages come from and where they go.
pub struct NodeIdentity {
    pub client_id: String,
    pub controller_topic: String,
}

/// What the inbound transport hands the intake context: a connection
/// notice, a decoded message, a message that failed to decode (with the
/// decoder's report), or traffic of no interest.
pub enum TransportEvent {
    Connected,
    Received(Message),
    DecodeFailure(String),
    Other,
}

/// Serve one inbound transport event: connection notices are announced,
/// decode failures are answered with an error rather than dropped, decoded
/// messages go through the dispatcher, and anything else is ignored. Every
/// response is enveloped with this node's identity, addressed to the
/// controller.
pub fn intake_step(ident: &NodeIdentity, cam: &mut Camera, event: TransportEvent) -> (r: Option<
    Message,
>)
    requires
        old(cam).inv(),
        old(cam).idle(),
        old(cam)@.acquired < u64::MAX,
    ensures
        final(cam).inv(),
        final(cam).idle(),
        r matches Some(m) ==> m.client_id@ == ident.client_id@ && m.recipient@
            == ident.controller_topic@,
        match event {
            TransportEvent::Connected => (r matches Some(m) && *m.payload is Connected)
                && final(cam)@ == old(cam)@,
            TransportEvent::DecodeFailure(report) => (r matches Some(m) && *m.payload matches
                Payload::Error(text) && text@ == report@) && final(cam)@ == old(cam)@,
            TransportEvent::Received(msg) => match r {
                Some(m) => (*msg.payload) matches Payload::Instruction(instruction)
                    && dispatch_post(old(cam)@, final(cam)@, instruction, Some(*m.payload)),
                None => ((*msg.payload) matches Payload::Instruction(instruction) ==> dispatch_post(
                    old(cam)@,
                    final(cam)@,
                    instruction,
                    None,
                )) && (!((*msg.payload) is Instruction) ==> final(cam)@ == old(cam)@),
            },
            TransportEvent::Other => r is None && final(cam)@ == old(cam)@,
        },
{
    let payload: Option<Payload> = match event {
        TransportEvent::Connected => Some(Payload::Connected),
        TransportEvent::Received(msg) => handle_flock_message(cam, msg),
        TransportEvent::DecodeFailure(report) => Some(Payload::Error(report)),
        TransportEvent::Other => None,
    };
    match payload {
        Some(p) => Some(
            Message::new(ident.client_id.clone(), ident.controller_topic.clone(), p),
        ),
        None => None,
    }
}

/// The single-producer/single-consumer queue of response messages between
/// the intake context and the emission context. The view is the pending
/// messages, oldest first.
pub struct ResponseQueue {
    q: VecDeque<Message>,
}

impl View for ResponseQueue {
    type V = Seq<Message>;

    closed spec fn view(&self) -> Seq<Message> {
        self.q@
    }
}

impl ResponseQueue {
    /// An empty queue.
    pub fn new() -> (r: Self)
        ensures
            r@ == Seq::<Message>::empty(),
    {
        let q = ResponseQueue { q: VecDeque::new() };
        proof {
            assert(q@ =~= Seq::<Message>::empty());
        }
        q
    }

    /// The intake context appends one response; nothing already pending
    /// moves. Enqueueing never blocks the intake context.
    pub fn enqueue(&mut self, m: Message)
        ensures
            final(self)@ == old(self)@.push(m),
    {
        self.q.push_back(m);
    }

    /// The emission context takes the oldest pending response; the rest
    /// keep their order.
    pub fn dequeue(&mut self) -> (r: Option<Message>)
        ensures
            old(self)@.len() == 0 ==> r is None && final(self)@ == old(self)@,
            old(self)@.len() > 0 ==> (r matches Some(m) && m == old(self)@[0]) && final(self)@
                == old(self)@.drop_first(),
    {
        let r = self.q.pop_front();
        proof {
            if old(self)@.len() > 0 {
                assert(self@ =~= old(self)@.drop_first());
            }
        }
        r
    }

    /// How many responses are pending.
    pub fn len(&self) -> (r: usize)
        ensures
            r == self@.len(),
    {
        self.q.len()
    }
}

/// The queue's contents after the intake context enqueues a run of
/// responses, oldest first.
pub open spec fn enqueue_all(q: Seq<Message>, ms: Seq<Message>) -> Seq<Message>
    decreases ms.len(),
{
    if ms.len() == 0 {
        q
    } else {
        enqueue_all(q.push(ms[0]), ms.drop_first())
    }
}

/// First-in/first-out law: after the intake context enqueues any run of
/// responses, the queue holds what was already pending followed by that run
/// in enqueue order — and since dequeueing always takes the head, the
/// emission context observes responses in exactly the order they were
/// enqueued.
pub proof fn lemma_fifo_order(q: Seq<Message>, ms: Seq<Message>)
    ensures
        enqueue_all(q, ms) == q + ms,
    decreases ms.len(),
{
    if ms.len() == 0 {
        assert(q + ms =~= q);
    } else {
        lemma_fifo_order(q.push(ms[0]), ms.drop_first());
        assert(q.push(ms[0]) + ms.drop_first() =~= q + ms);
    }
}

} // verus!
