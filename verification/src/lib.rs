//! An embedding host for a sandboxed script-execution engine. The
//! crate assembles an immutable bootstrap descriptor, resolves the
//! entry module's path into a canonical locator, bootstraps one
//! engine instance per process, executes the entry module's top-level
//! turn, and drains the engine's event loop to quiescence — with the
//! host/engine contract stated and proved: safe configuration
//! defaults, run-to-completion ordering of microtasks and macrotasks,
//! an exhaustive terminating drain, deterministic outcomes, and the
//! deliberate rejection of auxiliary execution contexts.

pub mod descriptor;
pub mod driver;
pub mod engine;
pub mod errors;
pub mod module_ref;
pub mod permissions;
pub mod script;
