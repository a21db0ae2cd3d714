//! The store: mutable execution context shared by every call made
//! through the instances built against it.

use vstd::prelude::*;

verus! {

/// Owns the one embedder-defined context value reachable by every
/// host function during a call, and the call-nesting counter: the
/// number of boundary crossings currently on the stack, incremented
/// on entry to any cross-boundary call and restored on every exit
/// path. The counter is bookkeeping for diagnostics and guard rails,
/// not a concurrency primitive: a store is driven by one thread at a
/// time.
pub struct Store<C> {
    pub ctx: C,
    pub depth: u64,
    /// Ghost tally of host-function invocations made through this
    /// store, ever. It lets contracts pin down that the embedder
    /// context is touched only by host functions: whenever a call
    /// leaves the tally unchanged, it leaves the context unchanged.
    pub host_steps: Ghost<int>,
    /// Ghost record of the failures host functions have reported
    /// through this store, ever: the message of each, in order. It
    /// lets contracts pin down that a host's reported failure is
    /// never swallowed: whenever a call grows this record, it
    /// returns that very failure as a trap.
    pub host_failures: Ghost<Seq<Seq<char>>>,
}

impl<C> Store<C> {
    /// A fresh store owning `context`, with no call in flight.
    pub fn new(context: C) -> (s: Store<C>)
        ensures
            s.ctx == context,
            s.depth == 0,
            s.host_steps@ == 0,
            s.host_failures@ == Seq::<Seq<char>>::empty(),
    {
        Store { ctx: context, depth: 0, host_steps: Ghost(0), host_failures: Ghost(Seq::empty()) }
    }

    /// The embedder context. While a call is in flight the context is
    /// also handed, exclusively, to the active host function; Rust's
    /// borrow rules keep the two accesses apart.
    pub fn context(&self) -> (r: &C)
        ensures
            *r == self.ctx,
    {
        &self.ctx
    }

    /// Exclusive access to the embedder context between calls.
    pub fn context_mut(&mut self) -> (r: &mut C)
        ensures
            *r == old(self).ctx,
            final(self).ctx == *final(r),
            final(self).depth == old(self).depth,
            final(self).host_steps == old(self).host_steps,
            final(self).host_failures == old(self).host_failures,
    {
        &mut self.ctx
    }

    /// The number of cross-boundary calls currently in flight.
    pub fn call_depth(&self) -> (r: u64)
        ensures
            r == self.depth,
    {
        self.depth
    }
}

} // verus!
