//! The execution-engine collaborator: the external component that
//! parses and runs guest code. The embedder implements
//! [`ExecutionEngine`] for it; the dispatcher drives it step by step
//! and validates every value that crosses the boundary, so nothing
//! here is taken on trust.

use vstd::prelude::*;
use crate::value::RawValue;
use crate::module::{ImportDecl, ExportDecl};

verus! {

/// Malformed or unsupported guest code, reported while loading a
/// module.
#[derive(Debug)]
pub struct LoadError {
    pub message: String,
}

/// A fault raised by guest code: a diagnostic for the embedder, and
/// whether the engine considers the instance's shared state corrupted
/// (in which case the instance is poisoned and refuses further
/// calls).
#[derive(Debug)]
pub struct TrapInfo {
    pub message: String,
    pub corrupts_instance: bool,
}

/// One step of guest progress, reported by the engine for its
/// innermost running activation.
#[derive(Debug)]
pub enum GuestStep {
    /// The activation returned these results (wire form).
    Returned(Vec<RawValue>),
    /// The activation faulted.
    Trapped(TrapInfo),
    /// The activation reached a call site of the import with this
    /// declaration index, passing these arguments (wire form); the
    /// engine suspends until the dispatcher resumes it with the
    /// import's results.
    CallImport { index: usize, args: Vec<RawValue> },
}

/// The external execution engine.
///
/// The engine owns every running guest context; this crate refers to
/// a context by the handle `instantiate` issued. Nested activations
/// are the engine's own bookkeeping: `start_call` opens a new
/// activation (possibly while others are suspended at import call
/// sites), and `resume_with` resumes the innermost suspended one.
///
/// No behaviour of the engine is assumed: the dispatcher checks every
/// reported step, so a misbehaving engine can only make calls fail,
/// never break the typing or bookkeeping guarantees of this crate.
pub trait ExecutionEngine {
    /// Parse and validate raw guest code, reporting its declared
    /// imports and exports in declaration order.
    fn parse(&mut self, bytes: &Vec<u8>) -> Result<(Vec<ImportDecl>, Vec<ExportDecl>), LoadError>;

    /// Build a running guest context from compiled code, running any
    /// startup code; on success, issue a handle for it. `import_count`
    /// is the number of import slots the context may call through.
    fn instantiate(&mut self, code: &Vec<u8>, import_count: usize) -> Result<u64, TrapInfo>;

    /// Open a new activation of the export with declaration index
    /// `export_index` in context `guest`, and run it to its next
    /// boundary event.
    fn start_call(&mut self, guest: u64, export_index: usize, args: Vec<RawValue>) -> GuestStep;

    /// Hand the innermost suspended activation of context `guest` the
    /// results of the import call it is waiting on, and run it to its
    /// next boundary event.
    fn resume_with(&mut self, guest: u64, results: Vec<RawValue>) -> GuestStep;
}

} // verus!
