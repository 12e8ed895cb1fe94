//! The dispatcher: which messages the controller answers by itself and which
//! it hands to the handler of its user.

pub mod switch;

use crate::ctl::switch::IncomingMsg;
use crate::ds::{Header, OfMsg, OfMsgView, OfPayload, OfPayloadView, Type, Version};
use vstd::prelude::*;

verus! {

/// What the dispatcher does with a message.
#[derive(Debug, PartialEq, Eq, Clone)]
pub enum Dispatch {
    /// The controller answers by itself: the message is to be written to the
    /// session that the event came from. The handler does not see the event.
    Reply(OfMsg),
    /// The event goes to the handler.
    Deliver,
}

/// The mathematical value of `Dispatch`.
pub enum DispatchView {
    /// The controller answers by itself.
    Reply(OfMsgView),
    /// The event goes to the handler.
    Deliver,
}

impl View for Dispatch {
    type V = DispatchView;

    open spec fn view(&self) -> DispatchView {
        match self {
            Dispatch::Reply(m) => DispatchView::Reply(m@),
            Dispatch::Deliver => DispatchView::Deliver,
        }
    }
}

/// The message without a body that the controller sends by itself: version
/// 1.3, the given type, length eight and the transaction id of the event.
pub open spec fn spec_reply(ttype: Type, payload: OfPayloadView, xid: u32) -> OfMsgView {
    OfMsgView { header: Header { version: Version::V1_3, ttype, length: 8, xid }, payload }
}

/// What the dispatcher does with a message: a hello is answered with a
/// hello, an echo request with an echo reply, both under the transaction id
/// of the message and without a body; everything else goes to the handler.
pub open spec fn spec_dispatch(m: OfMsgView) -> DispatchView {
    match m.header.ttype {
        Type::Hello => DispatchView::Reply(spec_reply(Type::Hello, OfPayloadView::Hello, m.header.xid)),
        Type::EchoRequest => DispatchView::Reply(
            spec_reply(Type::EchoReply, OfPayloadView::EchoReply(Seq::empty()), m.header.xid),
        ),
        _ => DispatchView::Deliver,
    }
}

/// The hello that answers a hello.
pub fn handle_hello(msg: &IncomingMsg) -> (res: OfMsg)
    ensures
        res@ == spec_reply(Type::Hello, OfPayloadView::Hello, msg.msg.header.xid),
        res@.wf(),
        res@.wire().len() == 8,
{
    let payload = OfPayload::Hello;
    assert(payload@.wire().len() == 0);
    let res = OfMsg::generate(msg.msg.header().xid(), payload);
    proof {
        res.header.lemma_lengths();
    }
    res
}

/// The echo reply that answers an echo request.
pub fn handle_echo_request(msg: &IncomingMsg) -> (res: OfMsg)
    ensures
        res@ == spec_reply(Type::EchoReply, OfPayloadView::EchoReply(Seq::empty()), msg.msg.header.xid),
        res@.wf(),
        res@.wire().len() == 8,
{
    let payload = OfPayload::EchoReply(Vec::new());
    assert(payload@.wire().len() == 0);
    let res = OfMsg::generate(msg.msg.header().xid(), payload);
    proof {
        res.header.lemma_lengths();
    }
    res
}

/// Decides what to do with one message.
pub fn dispatch(msg: &IncomingMsg) -> (res: Dispatch)
    ensures
        res@ == spec_dispatch(msg.msg@),
{
    match msg.msg.header().ttype() {
        Type::Hello => Dispatch::Reply(handle_hello(msg)),
        Type::EchoRequest => Dispatch::Reply(handle_echo_request(msg)),
        _ => Dispatch::Deliver,
    }
}

/// Decides what to do with each message of a run, in the order of the run:
/// the decision at each place is that for the message at the same place.
pub fn dispatch_all(msgs: &Vec<IncomingMsg>) -> (res: Vec<Dispatch>)
    ensures
        res@.len() == msgs@.len(),
        forall|i: int| 0 <= i < msgs@.len() ==> (#[trigger] res@[i])@ == spec_dispatch(msgs@[i].msg@),
{
    let mut out: Vec<Dispatch> = Vec::new();
    let mut i: usize = 0;
    while i < msgs.len()
        invariant
            i <= msgs@.len(),
            out@.len() == i,
            forall|k: int| 0 <= k < i ==> (#[trigger] out@[k])@ == spec_dispatch(msgs@[k].msg@),
        decreases msgs@.len() - i,
    {
        let d = dispatch(&msgs[i]);
        out.push(d);
        i = i + 1;
    }
    out
}

/// The decisions for a run of messages, in order.
pub open spec fn spec_dispatch_seq(s: Seq<OfMsgView>) -> Seq<DispatchView> {
    s.map_values(|m: OfMsgView| spec_dispatch(m))
}

/// Messages are handled in the order in which they arrive: the decisions for
/// a run followed by another are those for the first followed by those for
/// the second, and the decision for a message does not depend on what came
/// before or after it.
pub proof fn lemma_dispatch_in_order(a: Seq<OfMsgView>, b: Seq<OfMsgView>)
    ensures
        spec_dispatch_seq(a + b) =~= spec_dispatch_seq(a) + spec_dispatch_seq(b),
        spec_dispatch_seq(a).len() == a.len(),
        forall|i: int| 0 <= i < a.len() ==> #[trigger] spec_dispatch_seq(a + b)[i] == spec_dispatch(a[i]),
{
    assert forall|i: int| 0 <= i < a.len() implies #[trigger] spec_dispatch_seq(a + b)[i]
        == spec_dispatch(a[i]) by {
        assert((a + b)[i] == a[i]);
    }
}

/// An answer that the controller gives by itself is eight bytes on the
/// wire and carries the transaction id of the message that it answers.
pub proof fn lemma_reply_shape(m: OfMsgView)
    ensures
        spec_dispatch(m) matches DispatchView::Reply(r) ==> r.wf() && r.wire().len() == 8
            && r.header.xid == m.header.xid,
{
    if let DispatchView::Reply(r) = spec_dispatch(m) {
        r.header.lemma_lengths();
    }
}

} // verus!
