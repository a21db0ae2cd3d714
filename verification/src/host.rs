//! Host-supplied functions: what the embedder registers to satisfy a
//! module's imports, callable from guest code.

use vstd::prelude::*;
use crate::value::Value;
use crate::signature::Signature;

verus! {

/// What a host function does next, reported after it is begun or
/// resumed.
#[derive(Debug)]
pub enum HostStep {
    /// Return these results to the guest.
    Return(Vec<Value>),
    /// Report a failure; the dispatcher propagates it as a trap that
    /// aborts the call in flight.
    Fail { message: String },
    /// Re-enter the guest: look up the export with this name on the
    /// instance being called and invoke it with these arguments. The
    /// host function is resumed with the nested call's results.
    CallExport { name: String, args: Vec<Value> },
}

/// The behaviour of a host function, implemented by the embedder.
///
/// A host function runs in steps: `begin` receives the guest's
/// arguments, and whenever a step asked for a nested export call,
/// `resume` receives that call's results. Each step gets exclusive
/// access to the store's embedder context for exactly its own
/// duration — the call-scoped view a host function has of the world
/// is these two borrowed arguments, so nothing of it can be kept
/// beyond the call.
///
/// Nothing is assumed of an implementation: the dispatcher checks the
/// kinds of everything a host function returns against its declared
/// signature, and a failure or ill-typed step aborts only the call in
/// flight.
pub trait HostLogic<C> {
    /// Start handling a guest call with `args`.
    fn begin(&self, context: &mut C, args: Vec<Value>) -> HostStep;

    /// Continue after a nested export call returned `results`.
    fn resume(&self, context: &mut C, results: Vec<Value>) -> HostStep;
}

/// A host function as registered by the embedder: its declared
/// signature next to its behaviour. Linking consumes it into exactly
/// one instance's import table.
#[derive(Debug)]
pub struct HostFunction<H> {
    pub sig: Signature,
    pub logic: H,
}

impl<H> HostFunction<H> {
    /// A host function from its signature and behaviour.
    pub fn new(sig: Signature, logic: H) -> (f: HostFunction<H>)
        ensures
            f.sig == sig,
            f.logic == logic,
    {
        HostFunction { sig, logic }
    }
}

} // verus!
