//! The bridge's long-lived state object and the callback capabilities that
//! its consumer implements.
use std::sync::Arc;
use vstd::prelude::*;
use crate::phase::{RegistrationPhase, is_ready, ready_in};
use crate::handles::{HandleRegistry, Registry, publish_model, reclaim_model, reclaimed};

verus! {

/// Called back with inbound messages and with the outcome of start-up.
pub trait MsgReceiver<S>: Send + Sync {
    /// One inbound message, as a token of a handle registry.
    fn receieved_msg(&self, msg: u64);

    /// Start-up finished: whether the session is registered, and the state.
    fn native_ready(&self, is_ready: bool, state: Arc<NativePushState<S>>);
}

/// Called back once with the outcome of a gateway lookup: exactly one of
/// `gateway` and `error` is present.
pub trait CarrierHandler: Send + Sync {
    fn got_gateway(&self, gateway: Option<String>, error: Option<String>);
}

/// A shared reference to a push session, handed to the consumer.
pub struct NativePushState<S> {
    state: Arc<S>,
}

/// Relies on `Arc::clone`: the new reference points at the same value.
#[verifier::external_body]
fn share<S>(a: &Arc<S>) -> (r: Arc<S>)
    ensures
        r == *a,
{
    Arc::clone(a)
}

impl<S> NativePushState<S> {
    /// The session that this state refers to.
    pub closed spec fn session(&self) -> Arc<S> {
        self.state
    }

    pub fn new(state: Arc<S>) -> (r: Self)
        ensures
            r.session() == state,
    {
        NativePushState { state }
    }

    /// The shared reference to the session, for polling it.
    pub fn shared_session(&self) -> (r: &Arc<S>)
        ensures
            *r == self.session(),
    {
        &self.state
    }

    /// Publishes a fresh shared reference to the session in `handles` and
    /// returns its token; the bridge keeps its own reference.
    pub fn get_state(&self, handles: &mut HandleRegistry<Arc<S>>) -> (t: u64)
        requires
            old(handles).wf(),
            old(handles).model().has_room(),
        ensures
            final(handles).wf(),
            t == old(handles).model().next,
            final(handles).model() == publish_model(old(handles).model(), self.session()),
    {
        let shared = share(&self.state);
        handles.publish(shared)
    }
}

/// Start-up of a constructed session: wraps it in a shared bridge state and
/// evaluates readiness once, giving what the receiver is called back with.
pub fn ready_state<S>(session: Arc<S>, phase: RegistrationPhase) -> (r: (bool, Arc<NativePushState<S>>))
    ensures
        r.0 == ready_in(phase),
        r.1.session() == session,
{
    let state = Arc::new(NativePushState::new(session));
    (is_ready(phase), state)
}

/// Two state handles taken one after the other are distinct tokens, and
/// each, reclaimed on its own, gives a reference to the same session.
pub proof fn lemma_state_handles_distinct<S>(r: Registry<Arc<S>>, s: Arc<S>)
    requires
        r.wf(),
        r.next + 1 < u64::MAX,
    ensures
        ({
            let first = r.next;
            let r1 = publish_model(r, s);
            let second = r1.next;
            let r2 = publish_model(r1, s);
            &&& first != second
            &&& reclaimed(r2, first) == Some(s)
            &&& reclaimed(r2, second) == Some(s)
            &&& reclaimed(reclaim_model(r2, first), second) == Some(s)
            &&& reclaimed(reclaim_model(r2, second), first) == Some(s)
        }),
{
}

} // verus!
