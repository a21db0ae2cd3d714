//! Guest modules: an immutable description of what a module requires
//! (imports) and offers (exports), next to its opaque compiled code.

use vstd::prelude::*;
use crate::signature::Signature;
use crate::engine::{ExecutionEngine, LoadError};

verus! {

/// A function the guest requires the host to supply, identified by
/// name and signature.
#[derive(Debug)]
pub struct ImportDecl {
    pub name: String,
    pub sig: Signature,
}

/// A function the guest makes callable by the host, identified by
/// name and signature.
#[derive(Debug)]
pub struct ExportDecl {
    pub name: String,
    pub sig: Signature,
}

/// A parsed, validated guest module: its declared imports and exports
/// in declaration order, plus the compiled code the execution engine
/// runs. Immutable after creation; may be instantiated many times.
#[derive(Debug)]
pub struct Module {
    pub imports: Vec<ImportDecl>,
    pub exports: Vec<ExportDecl>,
    pub code: Vec<u8>,
}

impl Module {
    /// A module from its declared imports, exports and compiled code.
    pub fn new(imports: Vec<ImportDecl>, exports: Vec<ExportDecl>, code: Vec<u8>) -> (m: Module)
        ensures
            m.imports == imports,
            m.exports == exports,
            m.code == code,
    {
        Module { imports, exports, code }
    }

    /// Load a module from raw bytes (textual or binary guest code):
    /// the engine parses and validates them, reporting the declared
    /// imports and exports; the bytes themselves stay opaque here and
    /// are kept for the engine to run.
    pub fn load<E: ExecutionEngine>(engine: &mut E, bytes: Vec<u8>) -> (r: Result<
        Module,
        LoadError,
    >)
        ensures
            r matches Ok(m) ==> m.code == bytes,
    {
        match engine.parse(&bytes) {
            Ok((imports, exports)) => Ok(Module { imports, exports, code: bytes }),
            Err(e) => Err(e),
        }
    }
}

} // verus!
