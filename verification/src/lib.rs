//! An embedding layer for sandboxed guest modules.
//!
//! Given a guest module (its declared imports and exports plus opaque
//! compiled code), an ordered list of host-supplied functions, and a
//! store holding embedder state, this crate links the module into a
//! live instance and mediates typed, reentrant calls across the
//! host/guest boundary in both directions.
//!
//! The execution engine that actually runs guest code is an external
//! collaborator: the embedder implements [`engine::ExecutionEngine`]
//! for it, and the dispatcher here drives it step by step, marshaling
//! values, validating types at every crossing, and keeping the
//! store's call-nesting bookkeeping balanced on every exit path.

pub mod value;
pub mod signature;
pub mod module;
pub mod store;
pub mod engine;
pub mod host;
pub mod link;
pub mod instance;
pub mod dispatch;
