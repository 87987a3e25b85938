use vstd::prelude::*;
use vstd::string::StringExecFns;
use crate::descriptor::BootstrapDescriptor;
use crate::descriptor::MainWorkerOptions;
use crate::descriptor::WorkerCallbackSlot;
use crate::errors::ErrorKind;
use crate::errors::HostError;
use crate::module_ref::ModuleReference;
use crate::permissions::PermissionSet;
use crate::script::Op;
use crate::script::Script;
use crate::script::lemma_op_size_pos;
use crate::script::lemma_queue_size_push;
use crate::script::queue_size;
use crate::script::script_is_done;
use crate::script::script_size;

verus! {

/// The engine-internal task state that the host drives: the unit
/// whose turn is running, the three task queues of the cooperative
/// scheduler, and the output written so far. The scheduler is
/// single-threaded: exactly one unit runs at a time, and switches
/// happen only between operations.
#[verifier::ext_equal]
pub struct LoopState {
    pub current: Script,
    pub microtasks: Seq<Script>,
    pub timers: Seq<Script>,
    pub pending_io: Seq<Script>,
    pub output: Seq<String>,
}

/// Total weight of the engine state; every delivered operation lowers
/// it by one, which is why the drain reaches quiescence.
pub open spec fn loop_measure(s: LoopState) -> nat {
    script_size(s.current) + queue_size(s.microtasks) + queue_size(s.timers) + queue_size(
        s.pending_io,
    )
}

/// Quiescence: no turn is running and no timer, pending I/O
/// completion, or microtask remains schedulable.
pub open spec fn is_quiescent(s: LoopState) -> bool {
    &&& s.current is Done
    &&& s.microtasks.len() == 0
    &&& s.timers.len() == 0
    &&& s.pending_io.len() == 0
}

/// A failure as the model records it: the kind, and the content of
/// the message the host reports.
pub struct FailureModel {
    pub kind: ErrorKind,
    pub message: Seq<char>,
}

/// Whether one operation is fatal, given the callback slot configured
/// for auxiliary-context requests. The only slot this embedding ever
/// installs rejects the request, so a spawn attempt is never a silent
/// no-op and never a successful spawn.
pub open spec fn op_failure(slot: WorkerCallbackSlot, op: Op) -> Option<FailureModel> {
    match op {
        Op::SpawnAuxContext => match slot {
            WorkerCallbackSlot::RejectUnsupported => Some(
                FailureModel {
                    kind: ErrorKind::UnsupportedCapability,
                    message: "auxiliary execution contexts are not supported in this embedding"@,
                },
            ),
        },
        Op::Fail(m) => Some(FailureModel { kind: ErrorKind::Execution, message: m@ }),
        _ => None,
    }
}

/// Effect of one non-fatal operation on the queues and the output;
/// `s.current` has already been advanced past the operation.
pub open spec fn op_effect(s: LoopState, op: Op) -> LoopState {
    match op {
        Op::Log(m) => LoopState {
            current: s.current,
            microtasks: s.microtasks,
            timers: s.timers,
            pending_io: s.pending_io,
            output: s.output.push(m),
        },
        Op::ScheduleTimer(t) => LoopState {
            current: s.current,
            microtasks: s.microtasks,
            timers: s.timers.push(*t),
            pending_io: s.pending_io,
            output: s.output,
        },
        Op::SchedulePendingIo(t) => LoopState {
            current: s.current,
            microtasks: s.microtasks,
            timers: s.timers,
            pending_io: s.pending_io.push(*t),
            output: s.output,
        },
        Op::QueueMicrotask(t) => LoopState {
            current: s.current,
            microtasks: s.microtasks.push(*t),
            timers: s.timers,
            pending_io: s.pending_io,
            output: s.output,
        },
        Op::SpawnAuxContext => s,
        Op::Fail(_) => s,
    }
}

/// State of `s` with the running unit advanced past its first
/// operation.
pub open spec fn advanced(s: LoopState, rest: Script) -> LoopState {
    LoopState {
        current: rest,
        microtasks: s.microtasks,
        timers: s.timers,
        pending_io: s.pending_io,
        output: s.output,
    }
}

/// Outcome of one turn run to completion.
pub struct TurnModel {
    pub state: LoopState,
    pub failure: Option<FailureModel>,
}

/// One turn, run to completion: the operations of the running unit
/// execute in order, and nothing is delivered from the queues. This is
/// the run-to-completion guarantee of the cooperative scheduler: the
/// entry module's top-level execution is atomic from the driver's
/// point of view.
pub open spec fn run_turn(slot: WorkerCallbackSlot, s: LoopState) -> TurnModel
    decreases s.current,
{
    match s.current {
        Script::Done => TurnModel { state: s, failure: None },
        Script::Step(op, rest) => match op_failure(slot, op) {
            Some(f) => TurnModel { state: advanced(s, *rest), failure: Some(f) },
            None => run_turn(slot, op_effect(advanced(s, *rest), op)),
        },
    }
}

/// Outcome of draining the event loop.
pub struct DrainModel {
    pub output: Seq<String>,
    pub failure: Option<FailureModel>,
}

/// The exhaustive drain: deliver the rest of the running turn, then
/// microtasks to exhaustion, then timers, then pending I/O
/// completions, until nothing remains schedulable or a fatal error
/// surfaces. Microtasks queued during a turn run before the next
/// macrotask turn begins.
pub open spec fn drain(slot: WorkerCallbackSlot, s: LoopState) -> DrainModel
    decreases loop_measure(s),
    via drain_decreases
{
    match s.current {
        Script::Step(op, rest) => match op_failure(slot, op) {
            Some(f) => DrainModel { output: s.output, failure: Some(f) },
            None => drain(slot, op_effect(advanced(s, *rest), op)),
        },
        Script::Done => {
            if s.microtasks.len() > 0 {
                drain(
                    slot,
                    LoopState {
                        current: s.microtasks[0],
                        microtasks: s.microtasks.drop_first(),
                        timers: s.timers,
                        pending_io: s.pending_io,
                        output: s.output,
                    },
                )
            } else if s.timers.len() > 0 {
                drain(
                    slot,
                    LoopState {
                        current: s.timers[0],
                        microtasks: s.microtasks,
                        timers: s.timers.drop_first(),
                        pending_io: s.pending_io,
                        output: s.output,
                    },
                )
            } else if s.pending_io.len() > 0 {
                drain(
                    slot,
                    LoopState {
                        current: s.pending_io[0],
                        microtasks: s.microtasks,
                        timers: s.timers,
                        pending_io: s.pending_io.drop_first(),
                        output: s.output,
                    },
                )
            } else {
                DrainModel { output: s.output, failure: None }
            }
        },
    }
}

#[via_fn]
proof fn drain_decreases(slot: WorkerCallbackSlot, s: LoopState) {
    match s.current {
        Script::Step(op, rest) => {
            if op_failure(slot, op) is None {
                lemma_step_lowers_measure(s, op, *rest);
            }
        },
        Script::Done => {},
    }
}

/// After a drain returns success nothing remains schedulable, so a
/// subsequent drain is a no-op: it returns success at once, delivers
/// nothing and writes nothing.
pub proof fn lemma_quiescent_drain_is_no_op(slot: WorkerCallbackSlot, s: LoopState)
    requires
        is_quiescent(s),
    ensures
        drain(slot, s) == (DrainModel { output: s.output, failure: None }),
{
}

/// Run-to-completion ordering: once a turn has finished and
/// microtasks are queued, the drain delivers the first microtask
/// before any timer or pending I/O completion of the next round.
pub proof fn lemma_microtasks_run_first(slot: WorkerCallbackSlot, s: LoopState)
    requires
        s.current is Done,
        s.microtasks.len() > 0,
    ensures
        drain(slot, s) == drain(
            slot,
            LoopState {
                current: s.microtasks[0],
                microtasks: s.microtasks.drop_first(),
                timers: s.timers,
                pending_io: s.pending_io,
                output: s.output,
            },
        ),
{
}

/// An auxiliary-context request is rejected through the configured
/// callback slot: the run fails with `UnsupportedCapability`, nothing
/// more is written, and no context is spawned — never a silent no-op
/// and never a successful spawn. This holds whenever the request is
/// the next operation, whatever the queues hold, both during the
/// entry turn and during the drain.
pub proof fn lemma_aux_context_rejected(slot: WorkerCallbackSlot, s: LoopState)
    requires
        s.current matches Script::Step(op, _) && op is SpawnAuxContext,
    ensures
        drain(slot, s).failure matches Some(f) && f.kind == ErrorKind::UnsupportedCapability,
        drain(slot, s).output == s.output,
        run_turn(slot, s).failure matches Some(f) && f.kind == ErrorKind::UnsupportedCapability,
        run_turn(slot, s).state.output == s.output,
{
}

/// Delivering one non-fatal operation lowers the total weight of the
/// engine state by exactly one.
pub proof fn lemma_step_lowers_measure(s: LoopState, op: Op, rest: Script)
    requires
        s.current matches Script::Step(o, r) && o == op && *r == rest,
    ensures
        loop_measure(op_effect(advanced(s, rest), op)) + 1 == loop_measure(s),
{
    lemma_op_size_pos(op);
    match op {
        Op::Log(_) => {},
        Op::ScheduleTimer(t) => {
            lemma_queue_size_push(s.timers, *t);
        },
        Op::SchedulePendingIo(t) => {
            lemma_queue_size_push(s.pending_io, *t);
        },
        Op::QueueMicrotask(t) => {
            lemma_queue_size_push(s.microtasks, *t);
        },
        Op::SpawnAuxContext => {},
        Op::Fail(_) => {},
    }
}

/// Where the host driver stands in its run: one engine instance goes
/// from Bootstrapped through Running to Completed or Failed, and is
/// never reused.
#[derive(Clone, Copy, PartialEq, Eq, Structural, Debug)]
pub enum DriverPhase {
    Bootstrapped,
    Running,
    Completed,
    Failed,
}

/// One live engine instance, bound to one bootstrap descriptor, one
/// permission set and one entry module for its whole lifetime.
pub struct EngineHandle {
    pub descriptor: BootstrapDescriptor,
    pub permissions: PermissionSet,
    pub module: ModuleReference,
    pub module_body: Script,
    pub phase: DriverPhase,
    pub current: Script,
    pub microtasks: Vec<Script>,
    pub timers: Vec<Script>,
    pub pending_io: Vec<Script>,
    pub output: Vec<String>,
}

fn unsupported_error() -> (r: HostError)
    ensures
        r.kind == ErrorKind::UnsupportedCapability,
        r.message@ == "auxiliary execution contexts are not supported in this embedding"@,
{
    HostError {
        kind: ErrorKind::UnsupportedCapability,
        message: String::from_str(
            "auxiliary execution contexts are not supported in this embedding",
        ),
    }
}

fn configuration_error() -> (r: HostError)
    ensures
        r.kind == ErrorKind::Configuration,
{
    HostError {
        kind: ErrorKind::Configuration,
        message: String::from_str("bootstrap descriptor is malformed"),
    }
}

impl EngineHandle {
    /// The callback slot the engine consults for auxiliary-context
    /// requests.
    pub open spec fn slot(self) -> WorkerCallbackSlot {
        self.descriptor.create_worker_slot
    }

    /// The engine-internal task state as the model sees it.
    pub open spec fn model(self) -> LoopState {
        LoopState {
            current: self.current,
            microtasks: self.microtasks@,
            timers: self.timers@,
            pending_io: self.pending_io@,
            output: self.output@,
        }
    }

    /// The state the entry turn starts from: the entry module's body
    /// is the running unit.
    pub open spec fn entry_start(self) -> LoopState {
        LoopState {
            current: self.module_body,
            microtasks: self.microtasks@,
            timers: self.timers@,
            pending_io: self.pending_io@,
            output: self.output@,
        }
    }

    /// Whether nothing remains schedulable.
    pub fn engine_is_quiescent(&self) -> (r: bool)
        ensures
            r == is_quiescent(self.model()),
    {
        script_is_done(&self.current) && self.microtasks.len() == 0 && self.timers.len() == 0
            && self.pending_io.len() == 0
    }

    /// Bootstrap: constructs one engine instance bound to the entry
    /// module's locator, the permission grants and the descriptor.
    /// `module_body` is the entry module's engine-observable
    /// behaviour, as the loader of the descriptor's strategy supplies
    /// it. A malformed descriptor is fatal: a `Configuration` error
    /// comes back and no partial engine is left behind.
    pub fn bootstrap_from_options(
        module: ModuleReference,
        permissions: PermissionSet,
        options: MainWorkerOptions,
        module_body: Script,
    ) -> (r: Result<EngineHandle, HostError>)
        ensures
            r is Ok <==> options.0.is_well_formed(),
            r matches Ok(h) ==> {
                &&& h.descriptor == options.0
                &&& h.permissions == permissions
                &&& h.module == module
                &&& h.module_body == module_body
                &&& h.phase == DriverPhase::Bootstrapped
                &&& h.current is Done
                &&& h.microtasks@.len() == 0
                &&& h.timers@.len() == 0
                &&& h.pending_io@.len() == 0
                &&& h.output@.len() == 0
            },
            r matches Err(e) ==> e.kind == ErrorKind::Configuration,
    {
        let descriptor = options.into_inner();
        if descriptor.cpu_count < 1 {
            return Err(configuration_error());
        }
        Ok(
            EngineHandle {
                descriptor,
                permissions,
                module,
                module_body,
                phase: DriverPhase::Bootstrapped,
                current: Script::Done,
                microtasks: Vec::new(),
                timers: Vec::new(),
                pending_io: Vec::new(),
                output: Vec::new(),
            },
        )
    }

    /// Runs the entry module's top-level execution as one atomic turn.
    /// Work it schedules (timers, pending I/O, microtasks) is queued,
    /// not delivered; the driver observes only completion or failure.
    pub fn execute_entry_module(&mut self) -> (r: Result<(), HostError>)
        requires
            old(self).phase == DriverPhase::Bootstrapped,
        ensures
            ({
                let t = run_turn(old(self).slot(), old(self).entry_start());
                &&& final(self).descriptor == old(self).descriptor
                &&& final(self).permissions == old(self).permissions
                &&& final(self).module == old(self).module
                &&& final(self).module_body is Done
                &&& final(self).model() == t.state
                &&& match t.failure {
                    None => r is Ok && final(self).phase == DriverPhase::Running,
                    Some(f) => r matches Err(e) && e.kind == f.kind && e.message@ == f.message
                        && final(self).phase == DriverPhase::Failed,
                }
            }),
    {
        let ghost slot0 = self.slot();
        let ghost start = self.entry_start();
        let mut body = Script::Done;
        core::mem::swap(&mut body, &mut self.module_body);
        self.current = body;
        self.phase = DriverPhase::Running;
        assert(self.model() =~= start);
        while !script_is_done(&self.current)
            invariant
                self.phase == DriverPhase::Running,
                self.descriptor == old(self).descriptor,
                self.permissions == old(self).permissions,
                self.module == old(self).module,
                self.module_body is Done,
                slot0 == old(self).slot(),
                start == old(self).entry_start(),
                run_turn(slot0, self.model()) == run_turn(slot0, start),
            decreases script_size(self.current),
        {
            let ghost prev = self.model();
            let mut cur = Script::Done;
            core::mem::swap(&mut cur, &mut self.current);
            match cur {
                Script::Done => {
                    proof {
                        assert(false);
                    }
                },
                Script::Step(op, rest) => {
                    let ghost gop = op;
                    let ghost grest = *rest;
                    proof {
                        lemma_op_size_pos(gop);
                    }
                    self.current = *rest;
                    match op {
                        Op::Log(m) => {
                            self.output.push(m);
                        },
                        Op::ScheduleTimer(t) => {
                            self.timers.push(*t);
                        },
                        Op::SchedulePendingIo(t) => {
                            self.pending_io.push(*t);
                        },
                        Op::QueueMicrotask(t) => {
                            self.microtasks.push(*t);
                        },
                        Op::SpawnAuxContext => {
                            self.phase = DriverPhase::Failed;
                            assert(self.model() =~= advanced(prev, grest));
                            return Err(unsupported_error());
                        },
                        Op::Fail(m) => {
                            self.phase = DriverPhase::Failed;
                            assert(self.model() =~= advanced(prev, grest));
                            return Err(HostError { kind: ErrorKind::Execution, message: m });
                        },
                    }
                    proof {
                        assert(self.model() =~= op_effect(advanced(prev, grest), gop));
                        assert(run_turn(slot0, prev) == run_turn(slot0, self.model()));
                    }
                },
            }
        }
        assert(run_turn(slot0, self.model()) == (TurnModel {
            state: self.model(),
            failure: None,
        }));
        Ok(())
    }

    /// The exhaustive drain: repeatedly delivers microtasks to
    /// exhaustion, then timer callbacks, then pending I/O completions,
    /// until nothing remains schedulable or an uncaught error
    /// surfaces. On success the engine is quiescent, so a further call
    /// returns success at once and delivers nothing. The
    /// wait-for-inspector mode is a configuration point this embedding
    /// keeps disabled: with no inspector attached the loop must not be
    /// held open, so the flag must be false.
    pub fn run_event_loop(&mut self, wait_for_inspector: bool) -> (r: Result<(), HostError>)
        requires
            !wait_for_inspector,
            old(self).phase == DriverPhase::Running || old(self).phase
                == DriverPhase::Completed,
        ensures
            ({
                let d = drain(old(self).slot(), old(self).model());
                &&& final(self).descriptor == old(self).descriptor
                &&& final(self).permissions == old(self).permissions
                &&& final(self).module == old(self).module
                &&& final(self).module_body == old(self).module_body
                &&& final(self).output@ == d.output
                &&& match d.failure {
                    None => r is Ok && final(self).phase == DriverPhase::Completed
                        && is_quiescent(final(self).model()),
                    Some(f) => r matches Err(e) && e.kind == f.kind && e.message@ == f.message
                        && final(self).phase == DriverPhase::Failed,
                }
            }),
    {
        let ghost slot0 = self.slot();
        let ghost start = self.model();
        while !self.engine_is_quiescent()
            invariant
                self.phase == old(self).phase,
                self.descriptor == old(self).descriptor,
                self.permissions == old(self).permissions,
                self.module == old(self).module,
                self.module_body == old(self).module_body,
                slot0 == old(self).slot(),
                start == old(self).model(),
                drain(slot0, self.model()) == drain(slot0, start),
            decreases loop_measure(self.model()),
        {
            let ghost prev = self.model();
            let mut cur = Script::Done;
            core::mem::swap(&mut cur, &mut self.current);
            match cur {
                Script::Done => {
                    if self.microtasks.len() > 0 {
                        let t = self.microtasks.remove(0);
                        self.current = t;
                        proof {
                            assert(prev.microtasks.remove(0) =~= prev.microtasks.drop_first());
                            assert(self.model() =~= (LoopState {
                                current: prev.microtasks[0],
                                microtasks: prev.microtasks.drop_first(),
                                timers: prev.timers,
                                pending_io: prev.pending_io,
                                output: prev.output,
                            }));
                        }
                    } else if self.timers.len() > 0 {
                        let t = self.timers.remove(0);
                        self.current = t;
                        proof {
                            assert(prev.timers.remove(0) =~= prev.timers.drop_first());
                            assert(self.model() =~= (LoopState {
                                current: prev.timers[0],
                                microtasks: prev.microtasks,
                                timers: prev.timers.drop_first(),
                                pending_io: prev.pending_io,
                                output: prev.output,
                            }));
                        }
                    } else {
                        let t = self.pending_io.remove(0);
                        self.current = t;
                        proof {
                            assert(prev.pending_io.remove(0) =~= prev.pending_io.drop_first());
                            assert(self.model() =~= (LoopState {
                                current: prev.pending_io[0],
                                microtasks: prev.microtasks,
                                timers: prev.timers,
                                pending_io: prev.pending_io.drop_first(),
                                output: prev.output,
                            }));
                        }
                    }
                    proof {
                        assert(drain(slot0, prev) == drain(slot0, self.model()));
                    }
                },
                Script::Step(op, rest) => {
                    let ghost gop = op;
                    let ghost grest = *rest;
                    proof {
                        lemma_step_lowers_measure(prev, gop, grest);
                    }
                    self.current = *rest;
                    match op {
                        Op::Log(m) => {
                            self.output.push(m);
                        },
                        Op::ScheduleTimer(t) => {
                            self.timers.push(*t);
                        },
                        Op::SchedulePendingIo(t) => {
                            self.pending_io.push(*t);
                        },
                        Op::QueueMicrotask(t) => {
                            self.microtasks.push(*t);
                        },
                        Op::SpawnAuxContext => {
                            self.phase = DriverPhase::Failed;
                            return Err(unsupported_error());
                        },
                        Op::Fail(m) => {
                            self.phase = DriverPhase::Failed;
                            return Err(HostError { kind: ErrorKind::Execution, message: m });
                        },
                    }
                    proof {
                        assert(self.model() =~= op_effect(advanced(prev, grest), gop));
                        assert(drain(slot0, prev) == drain(slot0, self.model()));
                    }
                },
            }
        }
        proof {
            lemma_quiescent_drain_is_no_op(slot0, self.model());
        }
        self.phase = DriverPhase::Completed;
        Ok(())
    }
}

} // verus!
