use vstd::prelude::*;
use vstd::string::StringExecFns;

verus! {

/// One callback slot for auxiliary execution contexts. This embedding
/// excludes auxiliary contexts by policy, so the only callback it ever
/// installs rejects the request; the variant is explicit so that the
/// engine model can show the rejection is deliberate, never a silent
/// no-op.
#[derive(Clone, Copy, PartialEq, Eq, Structural, Debug)]
pub enum WorkerCallbackSlot {
    RejectUnsupported,
}

/// How the engine is to load modules. This embedding uses the
/// filesystem-backed default loader, with no caching and no remote
/// fetch.
#[derive(Clone, Copy, PartialEq, Eq, Structural, Debug)]
pub enum LoaderStrategy {
    FileSystem,
}

/// Per-instance storage for cross-context primitives, counted by how
/// many entries each store holds. A fresh descriptor provisions all of
/// them empty.
#[derive(Clone, Copy, PartialEq, Eq, Structural, Debug)]
pub struct CrossContextStores {
    pub blob_entries: usize,
    pub broadcast_channels: usize,
    pub shared_buffers: usize,
    pub compiled_modules: usize,
}

/// The immutable bootstrap descriptor: identity metadata, execution
/// environment flags, a resource hint, the module-loading strategy and
/// the auxiliary-context callback slots. It is constructed once and
/// consumed, never mutated, by bootstrap.
pub struct BootstrapDescriptor {
    pub args: Vec<String>,
    pub cpu_count: usize,
    pub debug_flag: bool,
    pub enable_testing_features: bool,
    pub location: Option<String>,
    pub no_color: bool,
    pub is_tty: bool,
    pub runtime_version: String,
    pub ts_version: String,
    pub unstable: bool,
    pub user_agent: String,
    pub extensions: Vec<String>,
    pub tls_certificate_override: Option<Vec<String>>,
    pub seed: Option<u64>,
    pub module_loader: LoaderStrategy,
    pub create_worker_slot: WorkerCallbackSlot,
    pub worker_preload_slot: WorkerCallbackSlot,
    pub inspector_attached: bool,
    pub should_break_on_first_statement: bool,
    pub stores: CrossContextStores,
}

impl BootstrapDescriptor {
    /// A descriptor the engine can be bootstrapped from: the embedding
    /// drives the engine on a single logical core, so the resource hint
    /// must name at least one.
    pub open spec fn is_well_formed(self) -> bool {
        self.cpu_count >= 1
    }
}

/// The options one main worker is bootstrapped from, wrapping the
/// descriptor that the engine consumes.
pub struct MainWorkerOptions(pub BootstrapDescriptor);

impl MainWorkerOptions {
    /// Hands the wrapped descriptor over to bootstrap.
    pub fn into_inner(self) -> (r: BootstrapDescriptor)
        ensures
            r == self.0,
    {
        self.0
    }

    /// Borrows the wrapped descriptor.
    pub fn options(&self) -> (r: &BootstrapDescriptor)
        ensures
            r == &self.0,
    {
        &self.0
    }
}

impl Default for MainWorkerOptions {
    /// The configuration builder: produces the default descriptor of
    /// this embedding. Construction is pure and never fails; every
    /// field is pinned below, so two invocations build the same
    /// configuration.
    fn default() -> (r: MainWorkerOptions)
        ensures
            r.0.args@ =~= Seq::<String>::empty(),
            r.0.cpu_count == 1,
            !r.0.debug_flag,
            !r.0.enable_testing_features,
            r.0.location is None,
            !r.0.no_color,
            !r.0.is_tty,
            r.0.runtime_version@ == "x"@,
            r.0.ts_version@ == "x"@,
            !r.0.unstable,
            r.0.user_agent@ == "my_runtime 0.1"@,
            r.0.extensions@ =~= Seq::<String>::empty(),
            r.0.tls_certificate_override is None,
            r.0.seed is None,
            r.0.module_loader == LoaderStrategy::FileSystem,
            r.0.create_worker_slot == WorkerCallbackSlot::RejectUnsupported,
            r.0.worker_preload_slot == WorkerCallbackSlot::RejectUnsupported,
            !r.0.inspector_attached,
            !r.0.should_break_on_first_statement,
            r.0.stores == (CrossContextStores {
                blob_entries: 0,
                broadcast_channels: 0,
                shared_buffers: 0,
                compiled_modules: 0,
            }),
            r.0.is_well_formed(),
    {
        MainWorkerOptions(BootstrapDescriptor {
            args: Vec::new(),
            cpu_count: 1,
            debug_flag: false,
            enable_testing_features: false,
            location: None,
            no_color: false,
            is_tty: false,
            runtime_version: String::from_str("x"),
            ts_version: String::from_str("x"),
            unstable: false,
            user_agent: String::from_str("my_runtime 0.1"),
            extensions: Vec::new(),
            tls_certificate_override: None,
            seed: None,
            module_loader: LoaderStrategy::FileSystem,
            create_worker_slot: WorkerCallbackSlot::RejectUnsupported,
            worker_preload_slot: WorkerCallbackSlot::RejectUnsupported,
            inspector_attached: false,
            should_break_on_first_statement: false,
            stores: CrossContextStores {
                blob_entries: 0,
                broadcast_channels: 0,
                shared_buffers: 0,
                compiled_modules: 0,
            },
        })
    }
}

} // verus!
