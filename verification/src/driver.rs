use vstd::prelude::*;
use crate::descriptor::MainWorkerOptions;
use crate::engine::EngineHandle;
use crate::engine::LoopState;
use crate::engine::drain;
use crate::engine::run_turn;
use crate::errors::ErrorKind;
use crate::errors::HostError;
use crate::module_ref::resolve_entry_path;
use crate::module_ref::spec_resolvable;
use crate::permissions::PermissionSet;
use crate::script::Script;

verus! {

/// What one whole run reduces to in the model: the output the engine
/// wrote and, if the run did not complete, the kind of the error that
/// ended it.
pub struct RunModel {
    pub output: Seq<String>,
    pub failure: Option<ErrorKind>,
}

/// The outcome of one run, as a function of its inputs alone: resolve
/// the entry path, bootstrap, run the entry turn, then drain the
/// event loop. Each failure is terminal and short-circuits everything
/// behind it.
pub open spec fn spec_run_outcome(
    path: Seq<u8>,
    base: Seq<u8>,
    options: MainWorkerOptions,
    body: Script,
) -> RunModel {
    if !spec_resolvable(path, base) {
        RunModel { output: Seq::empty(), failure: Some(ErrorKind::Resolution) }
    } else if !options.0.is_well_formed() {
        RunModel { output: Seq::empty(), failure: Some(ErrorKind::Configuration) }
    } else {
        let slot = options.0.create_worker_slot;
        let start = LoopState {
            current: body,
            microtasks: Seq::empty(),
            timers: Seq::empty(),
            pending_io: Seq::empty(),
            output: Seq::empty(),
        };
        let t = run_turn(slot, start);
        match t.failure {
            Some(f) => RunModel { output: t.state.output, failure: Some(f.kind) },
            None => {
                let d = drain(slot, t.state);
                match d.failure {
                    Some(f) => RunModel { output: d.output, failure: Some(f.kind) },
                    None => RunModel { output: d.output, failure: None },
                }
            },
        }
    }
}

/// What one run hands back to its caller: the output the engine
/// wrote, and completion or the terminal error.
pub struct RunReport {
    pub output: Vec<String>,
    pub outcome: Result<(), HostError>,
}

/// One whole run: resolves the entry path against `base_dir` into a
/// canonical module reference, bootstraps one engine instance from
/// the options and the (allow-all, in this embedding) permission set,
/// executes the entry module's top-level turn, and drains the event
/// loop to quiescence. `module_body` is the entry module's
/// engine-observable behaviour, as the loader supplies it. Exactly
/// one run per engine instance; every error is terminal.
pub fn run_host(
    entry_path: &[u8],
    base_dir: &[u8],
    options: MainWorkerOptions,
    permissions: PermissionSet,
    module_body: Script,
) -> (r: RunReport)
    ensures
        ({
            let m = spec_run_outcome(entry_path@, base_dir@, options, module_body);
            &&& r.output@ == m.output
            &&& match m.failure {
                None => r.outcome is Ok,
                Some(k) => r.outcome matches Err(e) && e.kind == k,
            }
        }),
{
    let module = match resolve_entry_path(entry_path, base_dir) {
        Err(e) => {
            return RunReport { output: Vec::new(), outcome: Err(e) };
        },
        Ok(m) => m,
    };
    let mut handle = match EngineHandle::bootstrap_from_options(
        module,
        permissions,
        options,
        module_body,
    ) {
        Err(e) => {
            return RunReport { output: Vec::new(), outcome: Err(e) };
        },
        Ok(h) => h,
    };
    proof {
        assert(handle.entry_start() =~= (LoopState {
            current: module_body,
            microtasks: Seq::empty(),
            timers: Seq::empty(),
            pending_io: Seq::empty(),
            output: Seq::empty(),
        }));
    }
    match handle.execute_entry_module() {
        Err(e) => {
            let EngineHandle { output, .. } = handle;
            return RunReport { output, outcome: Err(e) };
        },
        Ok(u) => u,
    };
    match handle.run_event_loop(false) {
        Err(e) => {
            let EngineHandle { output, .. } = handle;
            RunReport { output, outcome: Err(e) }
        },
        Ok(_) => {
            let EngineHandle { output, .. } = handle;
            RunReport { output, outcome: Ok(()) }
        },
    }
}

/// Single-run determinism: the outcome of a run is a function of the
/// entry module, the entry path and the configuration alone. Two runs
/// given the same inputs write the same output and either both
/// complete or both fail with the same error kind. The permission
/// table of this embedding is fixed to allow-all, so it cannot flip
/// an outcome; script-level nondeterminism has no place in the model.
pub proof fn lemma_single_run_determinism(
    path1: Seq<u8>,
    base1: Seq<u8>,
    options1: MainWorkerOptions,
    body1: Script,
    path2: Seq<u8>,
    base2: Seq<u8>,
    options2: MainWorkerOptions,
    body2: Script,
)
    requires
        path1 == path2,
        base1 == base2,
        options1 == options2,
        body1 == body2,
    ensures
        spec_run_outcome(path1, base1, options1, body1) == spec_run_outcome(
            path2,
            base2,
            options2,
            body2,
        ),
{
}

/// Resolution failure short-circuits bootstrap: an entry path that
/// does not canonicalize ends the run with a Resolution error before
/// any engine-side effect — no engine instance is constructed and the
/// output stays empty.
pub proof fn lemma_resolution_failure_short_circuits(
    path: Seq<u8>,
    base: Seq<u8>,
    options: MainWorkerOptions,
    body: Script,
)
    requires
        !spec_resolvable(path, base),
    ensures
        spec_run_outcome(path, base, options, body).failure == Some(ErrorKind::Resolution),
        spec_run_outcome(path, base, options, body).output == Seq::<String>::empty(),
{
}

} // verus!
