//! The call dispatcher: mediates typed, reentrant calls across the
//! host/guest boundary in both directions.
//!
//! A host-to-guest call runs as one loop over an explicit frame
//! stack. The engine reports each boundary event of its innermost
//! activation; a guest's import call pushes a host frame and begins
//! the bound host function; a host function's re-entrant export call
//! pushes a guest frame and opens a nested activation. Every frame
//! is one crossing, mirrored in the store's nesting counter, which
//! is restored on every exit path. The dispatcher itself never
//! touches the store's embedder context: the context is handed only
//! to host functions, one step at a time, so no two frames ever see
//! it at once.
//!
//! A trap, a host failure, or an ill-typed value at any crossing
//! unwinds every open frame and aborts the whole call in flight; the
//! instance stays usable unless the engine flagged the trap as
//! corrupting, in which case the instance is poisoned and every
//! later call fails fast.

use vstd::prelude::*;
use vstd::string::StringExecFns;
use crate::value::{Value, ValueKind, values_typed, kinds_of, check_kinds, kinds_vec,
    marshal_values, unmarshal_values};
use crate::signature::copy_kinds;
use crate::store::Store;
use crate::engine::{ExecutionEngine, GuestStep};
use crate::host::{HostLogic, HostStep};
use crate::instance::{Instance, ExportHandle};
use crate::module::ExportDecl;

verus! {

/// The most boundary crossings that may be open at once; one more
/// is refused as a trap, a guard rail against runaway recursion.
pub const DEPTH_LIMIT: u64 = 1024;

/// The most boundary events one call may process; one more is
/// refused as a trap, a guard rail against a host/guest pair that
/// ping-pongs forever.
pub const STEP_LIMIT: u64 = 1000000;

/// Why a call through an export handle failed.
#[derive(Debug)]
pub enum CallError {
    /// The caller's arguments do not fit the export's signature: a
    /// caller programming error, reported rather than coerced.
    TypeMismatch { export: String, expected: Vec<ValueKind>, actual: Vec<ValueKind> },
    /// Guest code faulted, a host function failed, or a value that
    /// crossed the boundary was ill-typed; only the call in flight
    /// was aborted. `corrupts_instance` echoes whether the engine
    /// flagged shared state as corrupted (and the instance is now
    /// poisoned).
    Trap { message: String, corrupts_instance: bool },
    /// The instance was poisoned by an earlier corrupting trap; it
    /// refuses all further calls.
    Poisoned,
}

/// One open boundary crossing.
enum Frame {
    /// A guest activation, with the result kinds its caller awaits.
    GuestFrame { results: Vec<ValueKind> },
    /// A host activation of the import with this slot index.
    HostFrame { import: usize },
}

/// Whose event the dispatcher is about to process.
enum Turn {
    FromGuest(GuestStep),
    FromHost(HostStep),
}

spec fn frame_is_guest(f: Frame) -> bool {
    f matches Frame::GuestFrame { .. }
}

spec fn frame_results(f: Frame) -> Seq<ValueKind> {
    match f {
        Frame::GuestFrame { results } => results@,
        Frame::HostFrame { .. } => Seq::empty(),
    }
}

spec fn frame_import(f: Frame) -> int {
    match f {
        Frame::GuestFrame { .. } => 0,
        Frame::HostFrame { import } => import as int,
    }
}

/// Drop every open frame from the nesting counter and report a
/// non-corrupting trap: the shared way every abnormal exit unwinds.
fn abort_call<C>(store: &mut Store<C>, open_frames: usize, message: &str) -> (e: CallError)
    requires
        open_frames as u64 <= old(store).depth,
    ensures
        final(store).depth == old(store).depth - open_frames as u64,
        final(store).ctx == old(store).ctx,
        final(store).host_steps == old(store).host_steps,
        final(store).host_failures == old(store).host_failures,
        e matches CallError::Trap { corrupts_instance: false, .. },
{
    store.depth = store.depth - open_frames as u64;
    CallError::Trap { message: String::from_str(message), corrupts_instance: false }
}

impl ExportHandle {
    /// Call the export this handle names.
    ///
    /// The arguments must fit the export's declared parameter kinds
    /// exactly (checked, not coerced); on success the results fit
    /// its declared result kinds exactly. The store's nesting
    /// counter is restored on every exit path, the instance's
    /// linkage is never altered, and its embedder context is touched
    /// only by the host functions the guest calls — never by the
    /// dispatcher itself. The instance is poisoned exactly when the
    /// engine flags a trap as corrupting. A failure a host function
    /// reports is never swallowed: it comes back as a non-corrupting
    /// trap carrying that failure's message (the store's ghost
    /// failure record pins this down), and a call entered with the
    /// nesting counter already at the depth limit is refused as a
    /// non-corrupting trap that changes nothing.
    pub fn call<C, E: ExecutionEngine, H: HostLogic<C>>(
        &self,
        inst: &mut Instance<H>,
        store: &mut Store<C>,
        engine: &mut E,
        args: Vec<Value>,
    ) -> (r: Result<Vec<Value>, CallError>)
        requires
            self.index < old(inst).exports@.len(),
        ensures
            final(store).depth == old(store).depth,
            final(inst).exports@ == old(inst).exports@,
            final(inst).import_table@ == old(inst).import_table@,
            final(inst).guest == old(inst).guest,
            (r matches Err(CallError::Poisoned)) <==> old(inst).poisoned,
            old(inst).poisoned ==> *final(inst) == *old(inst) && *final(store) == *old(store),
            (r matches Err(CallError::TypeMismatch { .. })) <==> (!old(inst).poisoned
                && !values_typed(args@, old(inst).exports@[self.index as int].sig.params@)),
            r matches Err(CallError::TypeMismatch { export, expected, actual }) ==> {
                &&& export@ == old(inst).exports@[self.index as int].name@
                &&& expected@ == old(inst).exports@[self.index as int].sig.params@
                &&& actual@ == kinds_of(args@)
                &&& *final(inst) == *old(inst)
                &&& *final(store) == *old(store)
            },
            r matches Ok(vals) ==> values_typed(
                vals@,
                old(inst).exports@[self.index as int].sig.results@,
            ),
            final(inst).poisoned <==> (old(inst).poisoned || (r matches Err(
                CallError::Trap { corrupts_instance: true, .. },
            ))),
            old(inst).import_table@.len() == 0 && !old(inst).poisoned ==> final(store).ctx
                == old(store).ctx,
            final(store).host_steps@ >= old(store).host_steps@,
            final(store).host_steps@ == old(store).host_steps@ ==> final(store).ctx == old(
                store,
            ).ctx,
            !old(inst).poisoned && values_typed(
                args@,
                old(inst).exports@[self.index as int].sig.params@,
            ) && old(store).depth >= DEPTH_LIMIT ==> ((r matches Err(
                CallError::Trap { corrupts_instance: false, .. },
            )) && *final(store) == *old(store) && *final(inst) == *old(inst)),
            final(store).host_failures@.len() >= old(store).host_failures@.len(),
            final(store).host_failures@.len() <= old(store).host_failures@.len() + 1,
            final(store).host_failures@.len() == old(store).host_failures@.len()
                ==> final(store).host_failures@ == old(store).host_failures@,
            final(store).host_failures@.len() > old(store).host_failures@.len() ==> {
                &&& final(store).host_failures@.drop_last() == old(store).host_failures@
                &&& (r matches Err(CallError::Trap { message, corrupts_instance: false })
                    && message@ == final(store).host_failures@.last())
            },
    {
        if inst.poisoned {
            return Err(CallError::Poisoned);
        }
        if !check_kinds(&args, &inst.exports[self.index].sig.params) {
            return Err(
                CallError::TypeMismatch {
                    export: inst.exports[self.index].name.clone(),
                    expected: copy_kinds(&inst.exports[self.index].sig.params),
                    actual: kinds_vec(&args),
                },
            );
        }
        if store.depth >= DEPTH_LIMIT {
            let e = abort_call(store, 0, "call depth limit exceeded");
            return Err(e);
        }

        let ghost depth0 = store.depth;
        let ghost ctx0 = store.ctx;
        let ghost steps0 = store.host_steps@;
        let ghost failures0 = store.host_failures@;
        let ghost exports0: Seq<ExportDecl> = inst.exports@;
        let ghost table0 = inst.import_table@;
        let ghost guest0 = inst.guest;

        let mut frames: Vec<Frame> = Vec::new();
        frames.push(Frame::GuestFrame { results: copy_kinds(&inst.exports[self.index].sig.results) });
        store.depth = store.depth + 1;
        let mut step = Turn::FromGuest(
            engine.start_call(inst.guest, self.index, marshal_values(&args)),
        );
        let mut fuel: u64 = STEP_LIMIT;

        loop
            invariant
                depth0 == old(store).depth,
                ctx0 == old(store).ctx,
                exports0 == old(inst).exports@,
                table0 == old(inst).import_table@,
                guest0 == old(inst).guest,
                !old(inst).poisoned,
                values_typed(args@, exports0[self.index as int].sig.params@),
                self.index < exports0.len(),
                inst.poisoned == false,
                inst.exports@ == exports0,
                inst.import_table@ == table0,
                inst.guest == guest0,
                frames@.len() >= 1,
                store.depth == depth0 + frames@.len(),
                depth0 + frames@.len() <= DEPTH_LIMIT,
                forall|i: int|
                    0 <= i < frames@.len() ==> (frame_is_guest(#[trigger] frames@[i]) <==> i % 2
                        == 0),
                frame_is_guest(frames@[0]),
                frame_results(frames@[0]) == exports0[self.index as int].sig.results@,
                forall|i: int|
                    0 <= i < frames@.len() && !frame_is_guest(#[trigger] frames@[i]) ==> 0
                        <= frame_import(frames@[i]) < table0.len(),
                (step matches Turn::FromGuest(_)) ==> frame_is_guest(
                    frames@[frames@.len() - 1],
                ),
                (step matches Turn::FromHost(_)) ==> !frame_is_guest(
                    frames@[frames@.len() - 1],
                ),
                table0.len() == 0 ==> store.ctx == ctx0,
                steps0 == old(store).host_steps@,
                store.host_steps@ >= steps0,
                store.host_steps@ == steps0 ==> store.ctx == ctx0,
                failures0 == old(store).host_failures@,
                store.host_failures@ == failures0,
            decreases fuel,
        {
            if fuel == 0 {
                let e = abort_call(store, frames.len(), "boundary step limit exceeded");
                return Err(e);
            }
            fuel = fuel - 1;
            match step {
                Turn::FromGuest(gs) => match gs {
                    GuestStep::Returned(raw) => {
                        let popped = frames.pop();
                        store.depth = store.depth - 1;
                        let results_kinds: Vec<ValueKind> = match popped {
                            Some(Frame::GuestFrame { results }) => results,
                            _ => {
                                proof {
                                    assert(false);
                                }
                                Vec::new()
                            },
                        };
                        match unmarshal_values(&raw, &results_kinds) {
                            None => {
                                let e = abort_call(
                                    store,
                                    frames.len(),
                                    "engine returned ill-typed results",
                                );
                                return Err(e);
                            },
                            Some(vals) => {
                                if frames.len() == 0 {
                                    return Ok(vals);
                                }
                                let top = frames.len() - 1;
                                let j: usize = match &frames[top] {
                                    Frame::HostFrame { import } => *import,
                                    _ => {
                                        proof {
                                            assert(false);
                                        }
                                        0
                                    },
                                };
                                store.host_steps = Ghost(store.host_steps@ + 1);
                                step = Turn::FromHost(
                                    inst.import_table[j].logic.resume(&mut store.ctx, vals),
                                );
                            },
                        }
                    },
                    GuestStep::Trapped(info) => {
                        store.depth = store.depth - frames.len() as u64;
                        if info.corrupts_instance {
                            inst.poisoned = true;
                        }
                        return Err(
                            CallError::Trap {
                                message: info.message,
                                corrupts_instance: info.corrupts_instance,
                            },
                        );
                    },
                    GuestStep::CallImport { index, args: raw_args } => {
                        if index >= inst.import_table.len() {
                            let e = abort_call(
                                store,
                                frames.len(),
                                "guest called an import slot that does not exist",
                            );
                            return Err(e);
                        }
                        match unmarshal_values(&raw_args, &inst.import_table[index].sig.params) {
                            None => {
                                let e = abort_call(
                                    store,
                                    frames.len(),
                                    "guest passed ill-typed arguments to an import",
                                );
                                return Err(e);
                            },
                            Some(vals) => {
                                if store.depth >= DEPTH_LIMIT {
                                    let e = abort_call(
                                        store,
                                        frames.len(),
                                        "call depth limit exceeded",
                                    );
                                    return Err(e);
                                }
                                frames.push(Frame::HostFrame { import: index });
                                store.depth = store.depth + 1;
                                store.host_steps = Ghost(store.host_steps@ + 1);
                                step = Turn::FromHost(
                                    inst.import_table[index].logic.begin(&mut store.ctx, vals),
                                );
                            },
                        }
                    },
                },
                Turn::FromHost(hs) => match hs {
                    HostStep::Return(vals) => {
                        let top = frames.len() - 1;
                        let j: usize = match &frames[top] {
                            Frame::HostFrame { import } => *import,
                            _ => {
                                proof {
                                    assert(false);
                                }
                                0
                            },
                        };
                        if !check_kinds(&vals, &inst.import_table[j].sig.results) {
                            let e = abort_call(
                                store,
                                frames.len(),
                                "host function returned ill-typed results",
                            );
                            return Err(e);
                        }
                        let _ = frames.pop();
                        store.depth = store.depth - 1;
                        step = Turn::FromGuest(
                            engine.resume_with(inst.guest, marshal_values(&vals)),
                        );
                    },
                    HostStep::Fail { message } => {
                        store.host_failures = Ghost(store.host_failures@.push(message@));
                        proof {
                            assert(store.host_failures@.drop_last() =~= failures0);
                        }
                        store.depth = store.depth - frames.len() as u64;
                        return Err(
                            CallError::Trap { message, corrupts_instance: false },
                        );
                    },
                    HostStep::CallExport { name, args: call_args } => {
                        match inst.get_export(&name) {
                            None => {
                                let e = abort_call(
                                    store,
                                    frames.len(),
                                    "host function called an export that does not exist",
                                );
                                return Err(e);
                            },
                            Some(h) => {
                                if !check_kinds(&call_args, &inst.exports[h.index].sig.params) {
                                    let e = abort_call(
                                        store,
                                        frames.len(),
                                        "host function passed ill-typed arguments to an export",
                                    );
                                    return Err(e);
                                }
                                if store.depth >= DEPTH_LIMIT {
                                    let e = abort_call(
                                        store,
                                        frames.len(),
                                        "call depth limit exceeded",
                                    );
                                    return Err(e);
                                }
                                frames.push(
                                    Frame::GuestFrame {
                                        results: copy_kinds(&inst.exports[h.index].sig.results),
                                    },
                                );
                                store.depth = store.depth + 1;
                                step = Turn::FromGuest(
                                    engine.start_call(
                                        inst.guest,
                                        h.index,
                                        marshal_values(&call_args),
                                    ),
                                );
                            },
                        }
                    },
                },
            }
        }
    }
}

} // verus!
