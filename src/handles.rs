//! Opaque handles: integer tokens that stand for values handed across the
//! boundary. A token is published once and reclaimed at most once; a second
//! reclaim, or one of a token never published, yields nothing.
use std::collections::HashMap;
use vstd::prelude::*;

verus! {

broadcast use vstd::std_specs::hash::group_hash_axioms;

/// The abstract state of a registry: the next token to hand out and the
/// values that are published and not yet reclaimed.
pub struct Registry<T> {
    pub next: u64,
    pub live: Map<u64, T>,
}

impl<T> Registry<T> {
    /// Every live token was handed out before `next`.
    pub open spec fn wf(self) -> bool {
        forall|t: u64| #[trigger] self.live.contains_key(t) ==> t < self.next
    }

    /// Another token can still be handed out.
    pub open spec fn has_room(self) -> bool {
        self.next < u64::MAX
    }
}

/// The registry after `v` is published under the token `r.next`.
pub open spec fn publish_model<T>(r: Registry<T>, v: T) -> Registry<T> {
    Registry { next: (r.next + 1) as u64, live: r.live.insert(r.next, v) }
}

/// The registry after `t` is reclaimed: `t` is no longer live.
pub open spec fn reclaim_model<T>(r: Registry<T>, t: u64) -> Registry<T> {
    Registry { next: r.next, live: r.live.remove(t) }
}

/// What reclaiming `t` hands back: the value published under it, if it is live.
pub open spec fn reclaimed<T>(r: Registry<T>, t: u64) -> Option<T> {
    if r.live.contains_key(t) {
        Some(r.live[t])
    } else {
        None
    }
}

/// Values published under integer tokens, each reclaimable once.
pub struct HandleRegistry<T> {
    next: u64,
    live: HashMap<u64, T>,
}

impl<T> HandleRegistry<T> {
    pub closed spec fn model(&self) -> Registry<T> {
        Registry { next: self.next, live: self.live@ }
    }

    pub open spec fn wf(&self) -> bool {
        self.model().wf()
    }

    /// An empty registry; the first token handed out is 1.
    pub fn new() -> (r: Self)
        ensures
            r.wf(),
            r.model().next == 1,
            r.model().live == Map::<u64, T>::empty(),
    {
        HandleRegistry { next: 1, live: HashMap::new() }
    }

    /// The token that the next publish hands out.
    pub fn next_token(&self) -> (r: u64)
        ensures
            r == self.model().next,
    {
        self.next
    }

    /// Whether another value can be published.
    pub fn has_room(&self) -> (r: bool)
        ensures
            r == self.model().has_room(),
    {
        self.next < u64::MAX
    }

    /// Number of values published and not yet reclaimed.
    pub fn live_count(&self) -> (r: usize)
        ensures
            r == self.model().live.len(),
    {
        self.live.len()
    }

    /// Relinquishes `v` and returns a fresh token that stands for it.
    pub fn publish(&mut self, v: T) -> (t: u64)
        requires
            old(self).wf(),
            old(self).model().has_room(),
        ensures
            final(self).wf(),
            t == old(self).model().next,
            !old(self).model().live.contains_key(t),
            final(self).model() == publish_model(old(self).model(), v),
    {
        let t = self.next;
        self.live.insert(t, v);
        self.next = self.next + 1;
        proof {
            assert forall|k: u64| #[trigger] self.live@.contains_key(k) implies k < self.next by {
                if k != t {
                    assert(old(self).model().live.contains_key(k));
                }
            }
        }
        t
    }

    /// Takes back the value published under `t`; a token that is not live
    /// (never published, or reclaimed already) gives `None`.
    pub fn reclaim(&mut self, t: u64) -> (r: Option<T>)
        requires
            old(self).wf(),
        ensures
            final(self).wf(),
            r == reclaimed(old(self).model(), t),
            final(self).model() == reclaim_model(old(self).model(), t),
    {
        self.live.remove(&t)
    }
}

/// A token reclaimed right after it was published gives back exactly the
/// published value; reclaiming it a second time gives nothing.
pub proof fn lemma_reclaim_after_publish<T>(r: Registry<T>, v: T)
    requires
        r.wf(),
        r.has_room(),
    ensures
        reclaimed(publish_model(r, v), r.next) == Some(v),
        reclaimed(reclaim_model(publish_model(r, v), r.next), r.next) == None::<T>,
        reclaim_model(publish_model(r, v), r.next).live == r.live,
{
    assert(!r.live.contains_key(r.next));
    assert(reclaim_model(publish_model(r, v), r.next).live =~= r.live);
}

} // verus!
