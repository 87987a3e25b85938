use my_runtime::descriptor::LoaderStrategy;
use my_runtime::descriptor::MainWorkerOptions;
use my_runtime::descriptor::WorkerCallbackSlot;
use my_runtime::driver::run_host;
use my_runtime::driver::RunReport;
use my_runtime::engine::DriverPhase;
use my_runtime::engine::EngineHandle;
use my_runtime::errors::ErrorKind;
use my_runtime::module_ref::resolve_entry_path;
use my_runtime::module_ref::ModuleReference;
use my_runtime::module_ref::UrlScheme;
use my_runtime::permissions::PermissionClass;
use my_runtime::permissions::PermissionGrants;
use my_runtime::permissions::PermissionSet;
use my_runtime::script::Op;
use my_runtime::script::Script;

fn script_of(ops: Vec<Op>) -> Script {
    let mut s = Script::Done;
    for op in ops.into_iter().rev() {
        s = Script::Step(op, Box::new(s));
    }
    s
}

fn log(m: &str) -> Op {
    Op::Log(m.to_string())
}

fn run(body: Script) -> RunReport {
    run_host(
        b"/srv/app/rest.js",
        b"/",
        MainWorkerOptions::default(),
        PermissionSet::allow_all(),
        body,
    )
}

#[test]
fn default_descriptor_is_well_formed() {
    let options = MainWorkerOptions::default();
    let d = options.into_inner();
    assert_eq!(d.cpu_count, 1);
    assert!(d.extensions.is_empty());
    assert!(!d.inspector_attached);
    assert!(d.args.is_empty());
    assert!(!d.debug_flag);
    assert!(!d.enable_testing_features);
    assert!(d.location.is_none());
    assert!(!d.no_color);
    assert!(!d.is_tty);
    assert!(!d.unstable);
    assert_eq!(d.runtime_version, "x");
    assert_eq!(d.ts_version, "x");
    assert_eq!(d.user_agent, "my_runtime 0.1");
    assert!(d.tls_certificate_override.is_none());
    assert!(d.seed.is_none());
    assert_eq!(d.module_loader, LoaderStrategy::FileSystem);
    assert_eq!(d.create_worker_slot, WorkerCallbackSlot::RejectUnsupported);
    assert_eq!(d.worker_preload_slot, WorkerCallbackSlot::RejectUnsupported);
    assert!(!d.should_break_on_first_statement);
    assert_eq!(d.stores.blob_entries, 0);
    assert_eq!(d.stores.broadcast_channels, 0);
    assert_eq!(d.stores.shared_buffers, 0);
    assert_eq!(d.stores.compiled_modules, 0);
}

#[test]
fn options_borrow_matches_inner() {
    let options = MainWorkerOptions::default();
    assert_eq!(options.options().cpu_count, 1);
    assert_eq!(options.options().user_agent, "my_runtime 0.1");
}

#[test]
fn allow_all_grants_every_class() {
    let p = PermissionSet::allow_all();
    assert!(p.allows(PermissionClass::FileSystemRead));
    assert!(p.allows(PermissionClass::FileSystemWrite));
    assert!(p.allows(PermissionClass::Network));
    assert!(p.allows(PermissionClass::Environment));
    assert!(p.allows(PermissionClass::Subprocess));
    assert!(p.allows(PermissionClass::SystemInfo));
}

#[test]
fn granted_table_decides_per_class() {
    let p = PermissionSet::Granted(PermissionGrants {
        file_system_read: true,
        file_system_write: false,
        network: false,
        environment: true,
        subprocess: false,
        system_info: false,
    });
    assert!(p.allows(PermissionClass::FileSystemRead));
    assert!(!p.allows(PermissionClass::FileSystemWrite));
    assert!(!p.allows(PermissionClass::Network));
    assert!(p.allows(PermissionClass::Environment));
    assert!(!p.allows(PermissionClass::Subprocess));
}

#[test]
fn resolve_empty_path_is_resolution_error() {
    match resolve_entry_path(b"", b"/srv/app") {
        Err(e) => assert_eq!(e.kind, ErrorKind::Resolution),
        Ok(_) => panic!("empty path must not resolve"),
    }
}

#[test]
fn resolve_unknown_scheme_is_resolution_error() {
    match resolve_entry_path(b"ftp://host/mod.js", b"/srv/app") {
        Err(e) => assert_eq!(e.kind, ErrorKind::Resolution),
        Ok(_) => panic!("unknown scheme must not resolve"),
    }
}

#[test]
fn resolve_absolute_path_gives_file_locator() {
    let m = resolve_entry_path(b"/srv/app/rest.js", b"/ignored").unwrap();
    assert_eq!(m.scheme, UrlScheme::File);
    assert_eq!(m.path, b"/srv/app/rest.js".to_vec());
}

#[test]
fn resolve_relative_path_joins_base_directory() {
    let m = resolve_entry_path(b"src/rest.js", b"/srv/app").unwrap();
    assert_eq!(m.scheme, UrlScheme::File);
    assert_eq!(m.path, b"/srv/app/src/rest.js".to_vec());
}

#[test]
fn resolve_relative_path_needs_usable_base() {
    match resolve_entry_path(b"src/rest.js", b"") {
        Err(e) => assert_eq!(e.kind, ErrorKind::Resolution),
        Ok(_) => panic!("relative path without a base must not resolve"),
    }
    match resolve_entry_path(b"src/rest.js", b"relative/base") {
        Err(e) => assert_eq!(e.kind, ErrorKind::Resolution),
        Ok(_) => panic!("relative base must not resolve"),
    }
}

#[test]
fn resolve_file_url_keeps_absolute_path() {
    let m = resolve_entry_path(b"file:///srv/app/rest.js", b"/").unwrap();
    assert_eq!(m.scheme, UrlScheme::File);
    assert_eq!(m.path, b"/srv/app/rest.js".to_vec());
}

#[test]
fn resolve_file_url_without_absolute_path_fails() {
    match resolve_entry_path(b"file://rest.js", b"/") {
        Err(e) => assert_eq!(e.kind, ErrorKind::Resolution),
        Ok(_) => panic!("file locator without absolute path must not resolve"),
    }
}

#[test]
fn resolve_network_urls() {
    let m = resolve_entry_path(b"http://example.com/mod.js", b"/").unwrap();
    assert_eq!(m.scheme, UrlScheme::Http);
    assert_eq!(m.path, b"example.com/mod.js".to_vec());
    let m = resolve_entry_path(b"https://example.com/mod.js", b"/").unwrap();
    assert_eq!(m.scheme, UrlScheme::Https);
    assert_eq!(m.path, b"example.com/mod.js".to_vec());
    match resolve_entry_path(b"https://", b"/") {
        Err(e) => assert_eq!(e.kind, ErrorKind::Resolution),
        Ok(_) => panic!("empty authority must not resolve"),
    }
}

#[test]
fn bootstrap_rejects_malformed_descriptor() {
    let mut options = MainWorkerOptions::default();
    options.0.cpu_count = 0;
    let module = ModuleReference {
        scheme: UrlScheme::File,
        path: b"/srv/app/rest.js".to_vec(),
    };
    match EngineHandle::bootstrap_from_options(
        module,
        PermissionSet::allow_all(),
        options,
        Script::Done,
    ) {
        Err(e) => assert_eq!(e.kind, ErrorKind::Configuration),
        Ok(_) => panic!("malformed descriptor must not bootstrap"),
    }
}

#[test]
fn end_to_end_log_then_timer() {
    let body = script_of(vec![
        log("ok"),
        Op::ScheduleTimer(Box::new(script_of(vec![log("done")]))),
    ]);
    let report = run(body);
    assert!(report.outcome.is_ok());
    assert_eq!(report.output, vec!["ok".to_string(), "done".to_string()]);
}

#[test]
fn run_with_unresolvable_path_short_circuits() {
    let report = run_host(
        b"",
        b"/",
        MainWorkerOptions::default(),
        PermissionSet::allow_all(),
        script_of(vec![log("never")]),
    );
    match report.outcome {
        Err(e) => assert_eq!(e.kind, ErrorKind::Resolution),
        Ok(_) => panic!("unresolvable path must fail the run"),
    }
    assert!(report.output.is_empty());
}

#[test]
fn drain_is_exhaustive_and_second_drain_is_no_op() {
    let module = ModuleReference {
        scheme: UrlScheme::File,
        path: b"/srv/app/rest.js".to_vec(),
    };
    let body = script_of(vec![
        Op::ScheduleTimer(Box::new(script_of(vec![
            log("t"),
            Op::QueueMicrotask(Box::new(script_of(vec![log("m")]))),
        ]))),
        Op::SchedulePendingIo(Box::new(script_of(vec![log("io")]))),
    ]);
    let mut handle = EngineHandle::bootstrap_from_options(
        module,
        PermissionSet::allow_all(),
        MainWorkerOptions::default(),
        body,
    )
    .unwrap();
    assert_eq!(handle.phase, DriverPhase::Bootstrapped);
    handle.execute_entry_module().unwrap();
    assert_eq!(handle.phase, DriverPhase::Running);
    handle.run_event_loop(false).unwrap();
    assert_eq!(handle.phase, DriverPhase::Completed);
    assert!(matches!(handle.current, Script::Done));
    assert!(handle.microtasks.is_empty());
    assert!(handle.timers.is_empty());
    assert!(handle.pending_io.is_empty());
    let drained = handle.output.clone();
    handle.run_event_loop(false).unwrap();
    assert_eq!(handle.phase, DriverPhase::Completed);
    assert_eq!(handle.output, drained);
}

#[test]
fn aux_context_request_ends_the_run() {
    let body = script_of(vec![log("before"), Op::SpawnAuxContext, log("after")]);
    let report = run(body);
    match report.outcome {
        Err(e) => {
            assert_eq!(e.kind, ErrorKind::UnsupportedCapability);
            assert_eq!(
                e.describe().as_str(),
                "auxiliary execution contexts are not supported in this embedding"
            );
        },
        Ok(_) => panic!("an auxiliary-context request must never succeed"),
    }
    assert_eq!(report.output, vec!["before".to_string()]);
}

#[test]
fn aux_context_request_in_timer_callback_also_ends_the_run() {
    let body = script_of(vec![Op::ScheduleTimer(Box::new(script_of(vec![
        Op::SpawnAuxContext,
    ])))]);
    let report = run(body);
    match report.outcome {
        Err(e) => assert_eq!(e.kind, ErrorKind::UnsupportedCapability),
        Ok(_) => panic!("an auxiliary-context request must never succeed"),
    }
}

#[test]
fn uncaught_failure_is_execution_error() {
    let body = script_of(vec![log("early"), Op::Fail("boom".to_string())]);
    let report = run(body);
    match report.outcome {
        Err(e) => {
            assert_eq!(e.kind, ErrorKind::Execution);
            assert_eq!(e.message, "boom");
        },
        Ok(_) => panic!("an uncaught failure must fail the run"),
    }
    assert_eq!(report.output, vec!["early".to_string()]);
}

#[test]
fn microtasks_run_before_macrotasks() {
    let body = script_of(vec![
        Op::ScheduleTimer(Box::new(script_of(vec![log("timer")]))),
        Op::QueueMicrotask(Box::new(script_of(vec![log("micro")]))),
    ]);
    let report = run(body);
    assert!(report.outcome.is_ok());
    assert_eq!(
        report.output,
        vec!["micro".to_string(), "timer".to_string()]
    );
}

#[test]
fn timers_run_before_pending_io() {
    let body = script_of(vec![
        Op::SchedulePendingIo(Box::new(script_of(vec![log("io")]))),
        Op::ScheduleTimer(Box::new(script_of(vec![log("timer")]))),
    ]);
    let report = run(body);
    assert!(report.outcome.is_ok());
    assert_eq!(report.output, vec!["timer".to_string(), "io".to_string()]);
}

#[test]
fn microtask_queued_by_macrotask_runs_before_next_macrotask() {
    let body = script_of(vec![
        Op::ScheduleTimer(Box::new(script_of(vec![
            Op::QueueMicrotask(Box::new(script_of(vec![log("m")]))),
            log("t1"),
        ]))),
        Op::ScheduleTimer(Box::new(script_of(vec![log("t2")]))),
    ]);
    let report = run(body);
    assert!(report.outcome.is_ok());
    assert_eq!(
        report.output,
        vec!["t1".to_string(), "m".to_string(), "t2".to_string()]
    );
}

#[test]
fn drain_reaches_work_scheduled_by_scheduled_work() {
    let body = script_of(vec![Op::ScheduleTimer(Box::new(script_of(vec![
        log("a"),
        Op::ScheduleTimer(Box::new(script_of(vec![log("b")]))),
    ])))]);
    let report = run(body);
    assert!(report.outcome.is_ok());
    assert_eq!(report.output, vec!["a".to_string(), "b".to_string()]);
}

#[test]
fn two_runs_on_equal_inputs_agree() {
    let make = || {
        script_of(vec![
            log("ok"),
            Op::ScheduleTimer(Box::new(script_of(vec![log("done")]))),
        ])
    };
    let first = run(make());
    let second = run(make());
    assert_eq!(first.output, second.output);
    assert_eq!(first.outcome.is_ok(), second.outcome.is_ok());
}

#[test]
fn two_failing_runs_agree_on_the_error_kind() {
    let make = || script_of(vec![Op::Fail("boom".to_string())]);
    let first = run(make());
    let second = run(make());
    let first_kind = match first.outcome {
        Err(e) => e.kind,
        Ok(_) => panic!("run must fail"),
    };
    let second_kind = match second.outcome {
        Err(e) => e.kind,
        Ok(_) => panic!("run must fail"),
    };
    assert_eq!(first_kind, second_kind);
    assert_eq!(first.output, second.output);
}
