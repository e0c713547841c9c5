//! Broadcast-and-barrier shutdown protocol.
//!
//! One drain pair binds a single `Signal` owner to any number of `Watch`
//! clones. Requesting a drain broadcasts a retained state change; each
//! subscriber that observes it (or that ignores it deliberately) holds a
//! release capability, and the drain completes only once every subscription
//! and every capability has been given up. This module holds the verified
//! state machine of that protocol: how many watch clones and release
//! capabilities are outstanding, whether the drain was requested, and when
//! the drain counts as complete. The suspension points themselves (waiting
//! for the broadcast, waiting for the barrier) are runtime plumbing and live
//! outside the verified library.

use vstd::prelude::*;

verus! {

/// The state of one drain pair.
///
/// `watches` counts the live `Watch` clones (each keeps the completion
/// barrier open even before it subscribes); `capabilities` counts the
/// outstanding release capabilities handed to subscribers. The pair is
/// single-use: `drain_requested` moves from `false` to `true` exactly once.
#[derive(Clone, Copy, PartialEq, Eq, Structural, Debug)]
pub struct DrainState {
    pub drain_requested: bool,
    pub watches: u64,
    pub capabilities: u64,
}

/// A drain is complete exactly when it was requested and no watch clone or
/// release capability is still outstanding.
pub open spec fn spec_resolved(s: DrainState) -> bool {
    s.drain_requested && s.watches == 0 && s.capabilities == 0
}

/// The successor state after one capability is released.
pub open spec fn spec_release(s: DrainState) -> DrainState {
    DrainState { capabilities: (s.capabilities - 1) as u64, ..s }
}

/// Creates a fresh drain pair: one signal owner bound to one watch clone,
/// with no drain requested and no capability issued yet.
pub fn channel() -> (s: DrainState)
    ensures
        s == (DrainState { drain_requested: false, watches: 1, capabilities: 0 }),
{
    DrainState { drain_requested: false, watches: 1, capabilities: 0 }
}

impl DrainState {
    /// Duplicates a watch clone.
    pub fn clone_watch(&mut self)
        requires
            old(self).watches >= 1,
            old(self).watches < u64::MAX,
        ensures
            *final(self) == (DrainState { watches: (old(self).watches + 1) as u64, ..*old(self) }),
    {
        self.watches = self.watches + 1;
    }

    /// Drops a watch clone without ever subscribing; the clone stops holding
    /// the completion barrier open.
    pub fn drop_watch(&mut self)
        requires
            old(self).watches >= 1,
        ensures
            *final(self) == (DrainState { watches: (old(self).watches - 1) as u64, ..*old(self) }),
    {
        self.watches = self.watches - 1;
    }

    /// Requests the drain: broadcasts the retained state change to every
    /// watch clone, present or future. Completion is separate: the request
    /// is satisfied only once `spec_resolved` holds.
    pub fn drain(&mut self)
        requires
            !old(self).drain_requested,
        ensures
            *final(self) == (DrainState { drain_requested: true, ..*old(self) }),
    {
        self.drain_requested = true;
    }

    /// A watch clone observes the broadcast (which, being a retained state
    /// change, it cannot miss) and trades its subscription for a release
    /// capability.
    pub fn signaled(&mut self)
        requires
            old(self).watches >= 1,
            old(self).drain_requested,
            old(self).capabilities < u64::MAX,
        ensures
            *final(self) == (DrainState {
                watches: (old(self).watches - 1) as u64,
                capabilities: (old(self).capabilities + 1) as u64,
                ..*old(self)
            }),
    {
        self.watches = self.watches - 1;
        self.capabilities = self.capabilities + 1;
    }

    /// A watch clone takes a release capability immediately, without waiting
    /// for any broadcast: its task must finish unconditionally before the
    /// drain may complete.
    pub fn ignore_signaled(&mut self)
        requires
            old(self).watches >= 1,
            old(self).capabilities < u64::MAX,
        ensures
            *final(self) == (DrainState {
                watches: (old(self).watches - 1) as u64,
                capabilities: (old(self).capabilities + 1) as u64,
                ..*old(self)
            }),
    {
        self.watches = self.watches - 1;
        self.capabilities = self.capabilities + 1;
    }

    /// Gives one release capability back, unblocking the barrier by one.
    pub fn release(&mut self)
        requires
            old(self).capabilities >= 1,
        ensures
            *final(self) == spec_release(*old(self)),
    {
        self.capabilities = self.capabilities - 1;
    }

    /// Runs an operation to completion, then releases the capability,
    /// handing the operation's own result through unchanged.
    pub fn release_after<T>(&mut self, op_result: T) -> (r: T)
        requires
            old(self).capabilities >= 1,
        ensures
            r == op_result,
            *final(self) == spec_release(*old(self)),
    {
        self.release();
        op_result
    }

    /// One watch clone races an operation against the drain broadcast.
    ///
    /// The operation's own result is handed through unchanged whether or not
    /// the drain fired first. The returned count says how often the
    /// wind-down callback ran: exactly once when the drain fired during the
    /// operation, zero times otherwise. Either way the clone's subscription
    /// ends, and no capability stays outstanding on its account.
    pub fn watch<T>(&mut self, drain_fired_first: bool, op_result: T) -> (r: (T, u64))
        requires
            old(self).watches >= 1,
            old(self).capabilities < u64::MAX,
            drain_fired_first ==> old(self).drain_requested,
        ensures
            r.0 == op_result,
            r.1 == (if drain_fired_first { 1u64 } else { 0u64 }),
            *final(self) == (DrainState { watches: (old(self).watches - 1) as u64, ..*old(self) }),
    {
        if drain_fired_first {
            self.signaled();
            let res = self.release_after(op_result);
            (res, 1)
        } else {
            self.drop_watch();
            (op_result, 0)
        }
    }

    /// Whether the drain has completed: requested, with every subscription
    /// and capability given up.
    pub fn is_resolved(&self) -> (r: bool)
        ensures
            r == spec_resolved(*self),
    {
        self.drain_requested && self.watches == 0 && self.capabilities == 0
    }
}

/// Law: a drain completes exactly when it was requested and the count of
/// outstanding holders (watch clones still subscribed plus release
/// capabilities not yet given back) has reached zero. In particular, a pair
/// whose every watch clone was dropped resolves as soon as the drain is
/// requested.
pub proof fn lemma_resolution_barrier(s: DrainState)
    ensures
        spec_resolved(s) <==> (s.drain_requested && s.watches + s.capabilities == 0),
{
}

/// Law: with the drain requested and two capabilities outstanding, the drain
/// is not complete, is still not complete after the first release, and is
/// complete after the second — so completion waits for every capability, and
/// the order of the two releases cannot matter, releases being
/// indistinguishable in the state.
pub proof fn lemma_release_order_immaterial(s: DrainState)
    requires
        s.drain_requested,
        s.watches == 0,
        s.capabilities == 2,
    ensures
        !spec_resolved(s),
        !spec_resolved(spec_release(s)),
        spec_resolved(spec_release(spec_release(s))),
{
}

} // verus!

