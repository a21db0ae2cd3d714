//! The dispatcher distrusts its collaborators: a misbehaving engine
//! or host function can only make the call in flight fail, never
//! smuggle an ill-typed value across the boundary or unbalance the
//! store's bookkeeping.

use guestlink::dispatch::CallError;
use guestlink::engine::{ExecutionEngine, GuestStep, LoadError, TrapInfo};
use guestlink::host::{HostFunction, HostLogic, HostStep};
use guestlink::instance::{instantiate, InstantiateError};
use guestlink::module::{ExportDecl, ImportDecl, Module};
use guestlink::signature::Signature;
use guestlink::store::Store;
use guestlink::value::{RawValue, Value, ValueKind};

/// What the scripted engine does when its one export is started.
enum Script {
    StartupTrap,
    ReturnWrongKind,
    CallBogusImport,
    CallImportZero,
}

struct RoguesEngine {
    script: Script,
}

impl ExecutionEngine for RoguesEngine {
    fn parse(
        &mut self,
        _bytes: &Vec<u8>,
    ) -> Result<(Vec<ImportDecl>, Vec<ExportDecl>), LoadError> {
        Err(LoadError { message: "unused".to_string() })
    }

    fn instantiate(&mut self, _code: &Vec<u8>, _import_count: usize) -> Result<u64, TrapInfo> {
        match self.script {
            Script::StartupTrap => Err(TrapInfo {
                message: "start function trapped".to_string(),
                corrupts_instance: false,
            }),
            _ => Ok(0),
        }
    }

    fn start_call(&mut self, _guest: u64, _export: usize, _args: Vec<RawValue>) -> GuestStep {
        match self.script {
            Script::StartupTrap => unreachable!("never instantiated"),
            // The export promises an i32 but the engine hands back an i64.
            Script::ReturnWrongKind => GuestStep::Returned(vec![RawValue {
                kind: ValueKind::I64,
                bits: 5,
            }]),
            Script::CallBogusImport => GuestStep::CallImport { index: 99, args: vec![] },
            Script::CallImportZero => GuestStep::CallImport { index: 0, args: vec![] },
        }
    }

    fn resume_with(&mut self, _guest: u64, _results: Vec<RawValue>) -> GuestStep {
        GuestStep::Returned(vec![RawValue { kind: ValueKind::I32, bits: 1 }])
    }
}

/// A host function whose declared signature promises `() -> ()` but
/// whose behaviour misdelivers, one way per variant.
enum BadHost {
    ReturnsWrongKind,
    CallsUnknownExport,
    Fails,
}

impl HostLogic<()> for BadHost {
    fn begin(&self, _context: &mut (), _args: Vec<Value>) -> HostStep {
        match self {
            BadHost::ReturnsWrongKind => HostStep::Return(vec![Value::I32(1)]),
            BadHost::CallsUnknownExport => HostStep::CallExport {
                name: "nowhere".to_string(),
                args: vec![],
            },
            BadHost::Fails => HostStep::Fail { message: "host gave up".to_string() },
        }
    }

    fn resume(&self, _context: &mut (), _results: Vec<Value>) -> HostStep {
        HostStep::Return(vec![])
    }
}

fn one_export_module() -> Module {
    Module::new(
        vec![ImportDecl { name: "imp".to_string(), sig: Signature::new(vec![], vec![]) }],
        vec![ExportDecl {
            name: "exp".to_string(),
            sig: Signature::new(vec![], vec![ValueKind::I32]),
        }],
        vec![],
    )
}

fn expect_trap(script: Script, host: BadHost, wanted: &str) {
    let mut engine = RoguesEngine { script };
    let module = one_export_module();
    let supplied = vec![HostFunction::new(Signature::new(vec![], vec![]), host)];
    let mut inst = instantiate(&module, &mut engine, supplied).expect("must link");
    let mut store = Store::new(());
    let exp = inst.get_export(&"exp".to_string()).expect("exp is exported");
    match exp.call(&mut inst, &mut store, &mut engine, vec![]) {
        Err(CallError::Trap { message, corrupts_instance }) => {
            assert_eq!(message, wanted);
            assert!(!corrupts_instance);
        },
        other => panic!("expected a trap, got {:?}", other.map(|_| ())),
    }
    assert_eq!(store.call_depth(), 0);
    assert!(!inst.poisoned);
}

#[test]
fn a_startup_fault_is_reported_and_nothing_is_instantiated() {
    let mut engine = RoguesEngine { script: Script::StartupTrap };
    let module = one_export_module();
    let supplied = vec![HostFunction::new(Signature::new(vec![], vec![]), BadHost::Fails)];
    match instantiate(&module, &mut engine, supplied) {
        Err(InstantiateError::InstantiationTrap { message }) => {
            assert_eq!(message, "start function trapped");
        },
        _ => panic!("expected InstantiationTrap"),
    }
}

#[test]
fn an_engine_returning_the_wrong_kind_is_caught() {
    expect_trap(
        Script::ReturnWrongKind,
        BadHost::Fails,
        "engine returned ill-typed results",
    );
}

#[test]
fn an_engine_calling_a_bogus_import_slot_is_caught() {
    expect_trap(
        Script::CallBogusImport,
        BadHost::Fails,
        "guest called an import slot that does not exist",
    );
}

#[test]
fn a_host_returning_the_wrong_kind_is_caught() {
    expect_trap(
        Script::CallImportZero,
        BadHost::ReturnsWrongKind,
        "host function returned ill-typed results",
    );
}

#[test]
fn a_host_calling_an_unknown_export_is_caught() {
    expect_trap(
        Script::CallImportZero,
        BadHost::CallsUnknownExport,
        "host function called an export that does not exist",
    );
}

#[test]
fn a_host_failure_aborts_the_call_as_a_trap() {
    expect_trap(Script::CallImportZero, BadHost::Fails, "host gave up");
}
