//! The directional handshake: ordering of mailbox writes and semaphore
//! signals.
//!
//! Each message is delivered by a strict two-phase rendezvous: the bytes are
//! written into the slot, `ready` is released, and the writer blocks on
//! `consumed` before anything else touches the mailbox. The session is
//! planned as the exact sequence of these steps, so the ordering guarantees
//! are properties of the plan itself.

use crate::message::{Message, MessageView};
use vstd::prelude::*;

verus! {

/// One step the driver thread performs against the mailbox or a semaphore.
#[derive(Debug)]
pub enum HandshakeAction {
    /// Copy these bytes into the launcher's slot of the shared memory.
    WriteMailbox(Vec<u8>),
    /// Release the `ready` semaphore by exactly one.
    SignalReady,
    /// Block until the peer releases the `consumed` semaphore.
    WaitConsumed,
}

/// Mathematical model of a driver step.
pub enum HandshakeActionView {
    WriteMailbox(Seq<u8>),
    SignalReady,
    WaitConsumed,
}

impl View for HandshakeAction {
    type V = HandshakeActionView;

    open spec fn view(&self) -> HandshakeActionView {
        match self {
            HandshakeAction::WriteMailbox(bytes) => HandshakeActionView::WriteMailbox(bytes@),
            HandshakeAction::SignalReady => HandshakeActionView::SignalReady,
            HandshakeAction::WaitConsumed => HandshakeActionView::WaitConsumed,
        }
    }
}

/// The driver's steps for a sequence of messages: for each message in turn,
/// write its bytes, signal `ready`, wait for `consumed`.
pub open spec fn spec_session_actions(msgs: Seq<MessageView>) -> Seq<HandshakeActionView> {
    Seq::new(
        3 * msgs.len(),
        |i: int|
            if i % 3 == 0 {
                HandshakeActionView::WriteMailbox(msgs[i / 3].encoded())
            } else if i % 3 == 1 {
                HandshakeActionView::SignalReady
            } else {
                HandshakeActionView::WaitConsumed
            },
    )
}

/// Plans the driver's steps for the session's messages.
pub fn plan_session_actions(msgs: &Vec<Message>) -> (acts: Vec<HandshakeAction>)
    requires
        forall|i: int| 0 <= i < msgs@.len() ==> (#[trigger] msgs@[i]@).wf(),
    ensures
        acts@.map_values(|a: HandshakeAction| a@) == spec_session_actions(
            msgs@.map_values(|m: Message| m@),
        ),
{
    let ghost views = msgs@.map_values(|m: Message| m@);
    let mut acts: Vec<HandshakeAction> = Vec::new();
    let n = msgs.len();
    let mut i: usize = 0;
    while i < n
        invariant
            n == msgs@.len(),
            i <= n,
            views == msgs@.map_values(|m: Message| m@),
            forall|k: int| 0 <= k < msgs@.len() ==> (#[trigger] msgs@[k]@).wf(),
            acts@.map_values(|a: HandshakeAction| a@) == spec_session_actions(
                views.take(i as int),
            ),
        decreases n - i,
    {
        let ghost entry = acts@;
        let bytes = msgs[i].encode();
        let write_action = HandshakeAction::WriteMailbox(bytes);
        proof {
            assert(write_action@ == HandshakeActionView::WriteMailbox(msgs@[i as int]@.encoded()));
        }
        acts.push(write_action);
        acts.push(HandshakeAction::SignalReady);
        acts.push(HandshakeAction::WaitConsumed);
        proof {
            let f = |a: HandshakeAction| a@;
            let prev = spec_session_actions(views.take(i as int));
            let next = spec_session_actions(views.take(i + 1));
            let cur = acts@;
            assert(entry.map_values(f) == prev);
            assert(entry.len() == prev.len() == 3 * i);
            assert(cur.len() == 3 * i + 3 && next.len() == 3 * i + 3);
            assert forall|j: int| 0 <= j < next.len() implies cur.map_values(f)[j] == next[j] by {
                assert(cur.map_values(f)[j] == f(cur[j]));
                if j < 3 * i {
                    assert(cur[j] == entry[j]);
                    assert(f(entry[j]) == prev[j]);
                    assert(0 <= j / 3 < i) by (nonlinear_arith)
                        requires
                            0 <= j < 3 * i,
                    ;
                    assert(views.take(i as int)[j / 3] == views.take(i + 1)[j / 3]);
                    assert(prev[j] == next[j]);
                } else {
                    assert(j / 3 == i && j % 3 == j - 3 * i) by (nonlinear_arith)
                        requires
                            3 * i <= j < 3 * i + 3,
                    ;
                    assert(views.take(i + 1)[i as int] == msgs@[i as int]@);
                    if j == 3 * i {
                        assert(cur[j] == write_action);
                    } else if j == 3 * i + 1 {
                        assert(cur[j] == HandshakeAction::SignalReady);
                    } else {
                        assert(cur[j] == HandshakeAction::WaitConsumed);
                    }
                }
            }
            assert(cur.map_values(f) =~= next);
        }
        i = i + 1;
    }
    assert(views.take(n as int) =~= views);
    acts
}

/// The write at a plan position carries exactly the bytes of the message the
/// position belongs to.
pub proof fn lemma_write_carries_message(msgs: Seq<MessageView>, k: int)
    requires
        0 <= k < msgs.len(),
    ensures
        spec_session_actions(msgs)[3 * k] == HandshakeActionView::WriteMailbox(msgs[k].encoded()),
{
    assert((3 * k) % 3 == 0 && (3 * k) / 3 == k) by (nonlinear_arith);
}

/// A write is never the last step: the very next step of the plan signals
/// `ready`, so the mailbox is handed to the peer only through the signal
/// that follows its write.
pub proof fn lemma_write_precedes_signal(msgs: Seq<MessageView>, i: int)
    requires
        0 <= i < spec_session_actions(msgs).len(),
        spec_session_actions(msgs)[i] is WriteMailbox,
    ensures
        i + 1 < spec_session_actions(msgs).len(),
        spec_session_actions(msgs)[i + 1] is SignalReady,
        spec_session_actions(msgs)[i + 2] is WaitConsumed,
{
    assert(i % 3 == 0);
    assert((i + 1) % 3 == 1);
    assert((i + 2) % 3 == 2);
}

/// No overlap: between any two writes of the plan the driver waits for
/// `consumed`, so a new message never overwrites the slot before the peer
/// has consumed the previous one.
pub proof fn lemma_consumed_between_writes(msgs: Seq<MessageView>, i: int, j: int)
    requires
        0 <= i < j < spec_session_actions(msgs).len(),
        spec_session_actions(msgs)[i] is WriteMailbox,
        spec_session_actions(msgs)[j] is WriteMailbox,
    ensures
        i + 2 < j,
        spec_session_actions(msgs)[i + 2] is WaitConsumed,
{
    assert(i % 3 == 0);
    assert(j % 3 == 0);
    assert((i + 2) % 3 == 2);
}

} // verus!
