use guestlink::dispatch::{CallError, DEPTH_LIMIT};
use guestlink::engine::{ExecutionEngine, GuestStep, LoadError, TrapInfo};
use guestlink::host::{HostFunction, HostLogic, HostStep};
use guestlink::instance::instantiate;
use guestlink::module::{ExportDecl, ImportDecl, Module};
use guestlink::signature::Signature;
use guestlink::store::Store;
use guestlink::value::{RawValue, Value};

/// An engine whose single export immediately calls its single
/// import, every time it is started.
struct BouncingEngine {
    starts: u64,
}

impl ExecutionEngine for BouncingEngine {
    fn parse(
        &mut self,
        _bytes: &Vec<u8>,
    ) -> Result<(Vec<ImportDecl>, Vec<ExportDecl>), LoadError> {
        Err(LoadError { message: "unsupported byte form".to_string() })
    }

    fn instantiate(&mut self, _code: &Vec<u8>, _import_count: usize) -> Result<u64, TrapInfo> {
        Ok(1)
    }

    fn start_call(&mut self, _guest: u64, _export: usize, _args: Vec<RawValue>) -> GuestStep {
        self.starts += 1;
        GuestStep::CallImport { index: 0, args: vec![] }
    }

    fn resume_with(&mut self, _guest: u64, _results: Vec<RawValue>) -> GuestStep {
        GuestStep::Returned(vec![])
    }
}

/// A host function that re-enters the guest on every invocation:
/// together with `BouncingEngine` this recurses without bound.
struct Recurse;

impl HostLogic<u32> for Recurse {
    fn begin(&self, context: &mut u32, _args: Vec<Value>) -> HostStep {
        *context += 1;
        HostStep::CallExport { name: "loopy".to_string(), args: vec![] }
    }

    fn resume(&self, _context: &mut u32, _results: Vec<Value>) -> HostStep {
        HostStep::Return(vec![])
    }
}

#[test]
fn runaway_reentrancy_is_cut_off_and_unwound() {
    let mut engine = BouncingEngine { starts: 0 };
    let module = Module::new(
        vec![ImportDecl { name: "rec".to_string(), sig: Signature::new(vec![], vec![]) }],
        vec![ExportDecl { name: "loopy".to_string(), sig: Signature::new(vec![], vec![]) }],
        vec![],
    );
    let supplied = vec![HostFunction::new(Signature::new(vec![], vec![]), Recurse)];
    let mut inst = instantiate(&module, &mut engine, supplied).expect("must link");
    let mut store = Store::new(0u32);
    let loopy = inst.get_export(&"loopy".to_string()).expect("loopy is exported");
    match loopy.call(&mut inst, &mut store, &mut engine, vec![]) {
        Err(CallError::Trap { message, corrupts_instance }) => {
            assert_eq!(message, "call depth limit exceeded");
            assert!(!corrupts_instance);
        },
        _ => panic!("expected the depth guard to trap"),
    }
    // Every open frame was unwound and the instance is still usable.
    assert_eq!(store.call_depth(), 0);
    assert!(!inst.poisoned);
    // The guard cut in before the stack could outgrow the limit.
    assert!(engine.starts <= DEPTH_LIMIT);
    assert!(*store.context() > 0);
}

#[test]
fn a_parse_failure_surfaces_as_a_load_error() {
    let mut engine = BouncingEngine { starts: 0 };
    match Module::load(&mut engine, vec![0xff]) {
        Err(e) => assert_eq!(e.message, "unsupported byte form"),
        Ok(_) => panic!("BouncingEngine parses nothing"),
    }
}

#[test]
fn store_hands_out_its_context() {
    let mut store = Store::new(41i64);
    assert_eq!(*store.context(), 41);
    *store.context_mut() += 1;
    assert_eq!(*store.context(), 42);
    assert_eq!(store.call_depth(), 0);
}
