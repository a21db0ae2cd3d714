//! Instances: the result of linking a module against host functions,
//! exposing the module's exports as callable handles.

use vstd::prelude::*;
use crate::signature::sig_matches;
use crate::module::{Module, ExportDecl};
use crate::engine::ExecutionEngine;
use crate::host::HostFunction;
use crate::link::{LinkError, links_ok, link_error_describes, sigs_of, validate_imports};

verus! {

/// Why instantiation failed. Either way, no instance is produced:
/// instantiation is all-or-nothing.
#[derive(Debug)]
pub enum InstantiateError {
    /// The supplied host functions do not satisfy the module's
    /// declared imports.
    Link(LinkError),
    /// Linking succeeded, but the guest's startup code faulted.
    InstantiationTrap { message: String },
}

/// A live, callable product of linking: the resolved import table
/// (host functions bound to import slots, in declared order), the
/// export lookup, and the engine's handle for the running guest
/// context. Borrows the store for every call; owns neither it nor
/// the module.
#[derive(Debug)]
pub struct Instance<H> {
    pub import_table: Vec<HostFunction<H>>,
    pub exports: Vec<ExportDecl>,
    pub guest: u64,
    pub poisoned: bool,
}

/// A callable handle for one export: its position in the instance's
/// export list. Looking a handle up never executes guest code — a
/// handle is pure data, and only calling it runs anything.
#[derive(Clone, Copy, PartialEq, Eq, Structural, Debug)]
pub struct ExportHandle {
    pub index: usize,
}

/// Two export lists declare the same functions: same length, names
/// and signatures slot by slot.
pub open spec fn exports_like(a: Seq<ExportDecl>, b: Seq<ExportDecl>) -> bool {
    &&& a.len() == b.len()
    &&& forall|i: int|
        0 <= i < a.len() ==> {
            &&& (#[trigger] a[i]).name@ == b[i].name@
            &&& sig_matches(a[i].sig, b[i].sig)
        }
}

/// A fresh copy of an export list.
fn copy_exports(e: &Vec<ExportDecl>) -> (r: Vec<ExportDecl>)
    ensures
        exports_like(r@, e@),
{
    let mut r: Vec<ExportDecl> = Vec::new();
    let mut i: usize = 0;
    while i < e.len()
        invariant
            i <= e@.len(),
            r@.len() == i,
            forall|j: int|
                0 <= j < i ==> {
                    &&& (#[trigger] r@[j]).name@ == e@[j].name@
                    &&& sig_matches(r@[j].sig, e@[j].sig)
                },
        decreases e@.len() - i,
    {
        r.push(ExportDecl { name: e[i].name.clone(), sig: e[i].sig.duplicate() });
        i += 1;
    }
    r
}

/// Link `module` against `host_functions` inside the engine, and
/// build a live instance.
///
/// Succeeds exactly when every declared import is matched, in
/// declaration order, by a supplied host function of structurally
/// equal signature and the guest's startup code runs without
/// faulting. On a link failure the first offending slot is reported
/// and nothing is instantiated. Supplied entries beyond the required
/// count are ignored — a deliberate leniency, mirroring the common
/// embedding convention of passing imports positionally.
pub fn instantiate<H, E: ExecutionEngine>(
    module: &Module,
    engine: &mut E,
    host_functions: Vec<HostFunction<H>>,
) -> (r: Result<Instance<H>, InstantiateError>)
    ensures
        r matches Ok(inst) ==> {
            &&& links_ok(module.imports@, sigs_of(host_functions@))
            &&& inst.import_table@ == host_functions@.take(module.imports@.len() as int)
            &&& exports_like(inst.exports@, module.exports@)
            &&& !inst.poisoned
        },
        r matches Err(InstantiateError::Link(e)) ==> link_error_describes(
            e,
            module.imports@,
            sigs_of(host_functions@),
        ),
        !links_ok(module.imports@, sigs_of(host_functions@)) <==> r matches Err(
            InstantiateError::Link(_),
        ),
{
    match validate_imports(&module.imports, &host_functions) {
        Err(e) => Err(InstantiateError::Link(e)),
        Ok(()) => {
            let mut table = host_functions;
            table.truncate(module.imports.len());
            match engine.instantiate(&module.code, table.len()) {
                Err(t) => Err(InstantiateError::InstantiationTrap { message: t.message }),
                Ok(id) => Ok(
                    Instance {
                        import_table: table,
                        exports: copy_exports(&module.exports),
                        guest: id,
                        poisoned: false,
                    },
                ),
            }
        },
    }
}

impl<H> Instance<H> {
    /// Some export of this instance bears this name.
    pub open spec fn has_export_named(self, name: Seq<char>) -> bool {
        exists|i: int|
            0 <= i < self.exports@.len() && (#[trigger] self.exports@[i]).name@ == name
    }

    /// `idx` is the first export slot bearing this name.
    pub open spec fn is_first_export_named(self, name: Seq<char>, idx: int) -> bool {
        &&& 0 <= idx < self.exports@.len()
        &&& self.exports@[idx].name@ == name
        &&& forall|j: int| 0 <= j < idx ==> (#[trigger] self.exports@[j]).name@ != name
    }

    /// Look up the export bearing `name`.
    ///
    /// Pure: reads only the export list, never the engine, so the
    /// lookup cannot execute guest code. Returns the first slot with
    /// that name, or `None` exactly when no export bears it.
    pub fn get_export(&self, name: &String) -> (r: Option<ExportHandle>)
        ensures
            r matches Some(h) ==> self.is_first_export_named(name@, h.index as int),
            r is None <==> !self.has_export_named(name@),
    {
        let mut i: usize = 0;
        while i < self.exports.len()
            invariant
                i <= self.exports@.len(),
                forall|j: int| 0 <= j < i ==> (#[trigger] self.exports@[j]).name@ != name@,
            decreases self.exports@.len() - i,
        {
            if self.exports[i].name == *name {
                return Some(ExportHandle { index: i });
            }
            i += 1;
        }
        None
    }
}

/// Export lookup is idempotent: two handles obtained for the same
/// name on the same instance are equal, so they behave identically
/// under every later call.
pub proof fn lemma_get_export_deterministic<H>(
    inst: Instance<H>,
    name: Seq<char>,
    h1: ExportHandle,
    h2: ExportHandle,
)
    requires
        inst.is_first_export_named(name, h1.index as int),
        inst.is_first_export_named(name, h2.index as int),
    ensures
        h1 == h2,
{
    if h1.index < h2.index {
        assert(inst.exports@[h1.index as int].name@ != name);
    }
    if h2.index < h1.index {
        assert(inst.exports@[h2.index as int].name@ != name);
    }
}

} // verus!
