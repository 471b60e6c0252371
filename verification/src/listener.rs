//! The game message listener: the reversed handshake the game uses to
//! signal the launcher.
//!
//! A background loop waits on the game's `ready`-equivalent semaphore and
//! immediately answers on the `consumed`-equivalent one; no payload is read
//! in this direction. The loop checks a cooperative stop signal once per
//! iteration, before the next blocking wait, so it observes a stop only at
//! the top of an iteration — after the stop is issued, one more release of
//! the game-side semaphore lets the pending wait return and the very next
//! iteration terminates.

use vstd::prelude::*;

verus! {

/// What one listener iteration does.
#[derive(Clone, Copy, Debug, PartialEq, Eq, Structural)]
pub enum ListenerAction {
    /// Wait for the game's signal, then immediately acknowledge it.
    AwaitAndAcknowledge,
    /// Leave the loop and close the listener's handles.
    Terminate,
}

/// One iteration's decision: terminate exactly when the stop signal has
/// been observed, otherwise serve one more rendezvous.
pub fn listener_step(stop_requested: bool) -> (a: ListenerAction)
    ensures
        a == (if stop_requested {
            ListenerAction::Terminate
        } else {
            ListenerAction::AwaitAndAcknowledge
        }),
{
    if stop_requested {
        ListenerAction::Terminate
    } else {
        ListenerAction::AwaitAndAcknowledge
    }
}

/// The actions a listener performs when its iterations observe the given
/// stop values in turn: one rendezvous per unobserved stop, then a single
/// terminating step at the first observed stop.
pub open spec fn spec_listener_actions(stops: Seq<bool>) -> Seq<ListenerAction>
    decreases stops.len(),
{
    if stops.len() == 0 {
        Seq::empty()
    } else if stops[0] {
        seq![ListenerAction::Terminate]
    } else {
        seq![ListenerAction::AwaitAndAcknowledge] + spec_listener_actions(stops.drop_first())
    }
}

/// Shutdown: once the stop signal is the next thing an iteration observes,
/// the listener terminates in that one step — after `k` unobserved stops it
/// has served exactly `k` rendezvous and its last action is `Terminate`.
pub proof fn lemma_listener_stops(stops: Seq<bool>, k: int)
    requires
        0 <= k < stops.len(),
        stops[k],
        forall|i: int| 0 <= i < k ==> !stops[i],
    ensures
        spec_listener_actions(stops).len() == k + 1,
        spec_listener_actions(stops)[k] == ListenerAction::Terminate,
        forall|i: int|
            0 <= i < k ==> spec_listener_actions(stops)[i] == ListenerAction::AwaitAndAcknowledge,
    decreases k,
{
    if k == 0 {
    } else {
        assert(!stops[0]);
        lemma_listener_stops(stops.drop_first(), k - 1);
        let rest = spec_listener_actions(stops.drop_first());
        assert(spec_listener_actions(stops) =~= seq![ListenerAction::AwaitAndAcknowledge] + rest);
    }
}

/// Replays a listener run over the stop values its iterations observe,
/// stopping at the first observed stop.
pub fn listener_actions(stops: &Vec<bool>) -> (acts: Vec<ListenerAction>)
    ensures
        acts@ == spec_listener_actions(stops@),
{
    let n = stops.len();
    let mut acts: Vec<ListenerAction> = Vec::new();
    let mut i: usize = 0;
    while i < n
        invariant
            n == stops@.len(),
            i <= n,
            forall|j: int| 0 <= j < i ==> !stops@[j],
            acts@.len() == i,
            forall|j: int| 0 <= j < i ==> acts@[j] == ListenerAction::AwaitAndAcknowledge,
        decreases n - i,
    {
        let a = listener_step(stops[i]);
        acts.push(a);
        if stops[i] {
            proof {
                lemma_listener_stops(stops@, i as int);
                assert(acts@ =~= spec_listener_actions(stops@));
            }
            return acts;
        }
        i = i + 1;
    }
    proof {
        lemma_listener_never_stops(stops@);
        assert(acts@ =~= spec_listener_actions(stops@));
    }
    acts
}

/// A run that never observes a stop serves one rendezvous per iteration.
proof fn lemma_listener_never_stops(stops: Seq<bool>)
    requires
        forall|i: int| 0 <= i < stops.len() ==> !stops[i],
    ensures
        spec_listener_actions(stops).len() == stops.len(),
        forall|i: int|
            0 <= i < stops.len() ==> spec_listener_actions(stops)[i]
                == ListenerAction::AwaitAndAcknowledge,
    decreases stops.len(),
{
    if stops.len() > 0 {
        lemma_listener_never_stops(stops.drop_first());
        let rest = spec_listener_actions(stops.drop_first());
        assert(spec_listener_actions(stops) =~= seq![ListenerAction::AwaitAndAcknowledge] + rest);
    }
}

} // verus!
