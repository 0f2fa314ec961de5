//! The decisions of the receive loop. Whoever drives the loop awaits the
//! next inbound event, hands it to `receive_step`, and performs the action
//! that comes back; the loop runs until the state is `Stopped`.
use vstd::prelude::*;
use crate::handles::{HandleRegistry, publish_model};

verus! {

/// The outcome of one poll of the session for its next event.
pub enum InboundEvent<M> {
    /// Nothing arrived; poll again at once.
    Empty,
    /// A message arrived.
    Message(M),
    /// The session has ended.
    Stop,
    /// The poll failed abnormally, with its panic text where there was one.
    Fault(Option<String>),
}

#[derive(Clone, Copy, Debug, PartialEq, Eq, Structural)]
pub enum LoopState {
    Running,
    Stopped,
}

/// What the driver of the loop does after a step.
#[derive(Debug, PartialEq, Eq)]
pub enum LoopAction {
    /// Poll again without calling back.
    Repoll,
    /// Call the consumer back with this message token, then poll again.
    Deliver(u64),
    /// Log the failure of one poll, then poll again.
    LogFault(Option<String>),
    /// Exit the loop; no further polls or callbacks.
    Finish,
}

/// The state after `e` arrives in state `s`: `Stop` ends the loop for good.
pub open spec fn next_state<M>(s: LoopState, e: InboundEvent<M>) -> LoopState {
    if s is Stopped || e is Stop {
        LoopState::Stopped
    } else {
        LoopState::Running
    }
}

/// The message handed to the consumer when `e` arrives in state `s`.
pub open spec fn emitted<M>(s: LoopState, e: InboundEvent<M>) -> Option<M> {
    if s is Running && e is Message {
        Some(e->Message_0)
    } else {
        None
    }
}

/// The messages that the loop hands to the consumer, in order, when
/// `events` arrive one after another starting in state `s`.
pub open spec fn run_output<M>(s: LoopState, events: Seq<InboundEvent<M>>) -> Seq<M>
    decreases events.len(),
{
    if events.len() == 0 {
        Seq::empty()
    } else {
        let rest = run_output(next_state(s, events[0]), events.drop_first());
        match emitted(s, events[0]) {
            Some(m) => seq![m] + rest,
            None => rest,
        }
    }
}

/// The state of the loop after `events` arrive starting in state `s`.
pub open spec fn run_state<M>(s: LoopState, events: Seq<InboundEvent<M>>) -> LoopState
    decreases events.len(),
{
    if events.len() == 0 {
        s
    } else {
        run_state(next_state(s, events[0]), events.drop_first())
    }
}

/// The payloads of the `Message` events of `events`, in order.
pub open spec fn messages_of<M>(events: Seq<InboundEvent<M>>) -> Seq<M>
    decreases events.len(),
{
    if events.len() == 0 {
        Seq::empty()
    } else if events[0] is Message {
        seq![events[0]->Message_0] + messages_of(events.drop_first())
    } else {
        messages_of(events.drop_first())
    }
}

/// One iteration of the receive loop. A message is published in `handles`
/// and its token delivered; an empty poll repolls; a fault is reported for
/// logging and the loop goes on; `Stop` finishes. Once stopped, nothing is
/// delivered any more.
pub fn receive_step<M>(state: LoopState, event: InboundEvent<M>, handles: &mut HandleRegistry<M>) -> (r: (LoopState, LoopAction))
    requires
        old(handles).wf(),
        old(handles).model().has_room(),
    ensures
        final(handles).wf(),
        r.0 == next_state(state, event),
        match emitted(state, event) {
            Some(m) => {
                &&& r.1 == LoopAction::Deliver(old(handles).model().next)
                &&& final(handles).model() == publish_model(old(handles).model(), m)
            },
            None => {
                &&& final(handles).model() == old(handles).model()
                &&& r.1 == match (state, event) {
                    (LoopState::Stopped, _) => LoopAction::Finish,
                    (_, InboundEvent::Empty) => LoopAction::Repoll,
                    (_, InboundEvent::Fault(text)) => LoopAction::LogFault(text),
                    _ => LoopAction::Finish,
                }
            },
        },
{
    match state {
        LoopState::Stopped => (LoopState::Stopped, LoopAction::Finish),
        LoopState::Running => match event {
            InboundEvent::Empty => (LoopState::Running, LoopAction::Repoll),
            InboundEvent::Message(m) => {
                let t = handles.publish(m);
                (LoopState::Running, LoopAction::Deliver(t))
            },
            InboundEvent::Stop => (LoopState::Stopped, LoopAction::Finish),
            InboundEvent::Fault(text) => (LoopState::Running, LoopAction::LogFault(text)),
        },
    }
}

/// Once stopped, the loop stays stopped and hands out nothing, whatever
/// events arrive.
pub proof fn lemma_stopped_is_silent<M>(events: Seq<InboundEvent<M>>)
    ensures
        run_output(LoopState::Stopped, events) == Seq::<M>::empty(),
        run_state(LoopState::Stopped, events) == LoopState::Stopped,
    decreases events.len(),
{
    if events.len() > 0 {
        lemma_stopped_is_silent(events.drop_first());
    }
}

/// A loop fed `events`, whose first `Stop` stands at index `k`, hands the
/// consumer exactly the messages before that `Stop`, in order, and ends
/// stopped: nothing reaches the consumer after `Stop`.
pub proof fn lemma_delivers_messages_until_stop<M>(events: Seq<InboundEvent<M>>, k: int)
    requires
        0 <= k < events.len(),
        events[k] is Stop,
        forall|j: int| 0 <= j < k ==> !(#[trigger] events[j] is Stop),
    ensures
        run_output(LoopState::Running, events) == messages_of(events.take(k)),
        run_state(LoopState::Running, events) == LoopState::Stopped,
        run_output(LoopState::Stopped, events.skip(k + 1)) == Seq::<M>::empty(),
    decreases k,
{
    lemma_stopped_is_silent(events.skip(k + 1));
    let rest = events.drop_first();
    if k == 0 {
        lemma_stopped_is_silent(rest);
        assert(events.take(0) =~= Seq::<InboundEvent<M>>::empty());
    } else {
        assert forall|j: int| 0 <= j < k - 1 implies !(#[trigger] rest[j] is Stop) by {
            assert(rest[j] == events[j + 1]);
        }
        assert(rest[k - 1] == events[k]);
        lemma_delivers_messages_until_stop(rest, k - 1);
        assert(events.take(k).drop_first() =~= rest.take(k - 1));
        assert(events.take(k)[0] == events[0]);
        assert(!(events[0] is Stop));
    }
}

/// A fault on one poll changes nothing: inserting it anywhere among `events`
/// leaves the delivered messages and the final state as they were.
pub proof fn lemma_fault_is_isolated<M>(s: LoopState, events: Seq<InboundEvent<M>>, k: int, text: Option<String>)
    requires
        0 <= k <= events.len(),
    ensures
        run_output(s, events.insert(k, InboundEvent::Fault(text))) == run_output(s, events),
        run_state(s, events.insert(k, InboundEvent::Fault(text))) == run_state(s, events),
    decreases k,
{
    let faulty = events.insert(k, InboundEvent::Fault(text));
    if k == 0 {
        assert(faulty.drop_first() =~= events);
    } else {
        assert(faulty[0] == events[0]);
        assert(faulty.drop_first() =~= events.drop_first().insert(k - 1, InboundEvent::Fault(text)));
        lemma_fault_is_isolated(next_state(s, events[0]), events.drop_first(), k - 1, text);
    }
}

} // verus!
