use vstd::prelude::*;

verus! {

/// The error taxonomy of the host. Every failure of a run falls under
/// exactly one of these kinds, and each kind is terminal for the run:
/// nothing is retried and nothing is recovered locally.
#[derive(Clone, Copy, PartialEq, Eq, Structural, Debug)]
pub enum ErrorKind {
    /// A malformed bootstrap descriptor was handed to the engine.
    Configuration,
    /// The entry path could not be canonicalized into a module reference.
    Resolution,
    /// The entry module, or a callback delivered by the event loop,
    /// surfaced an uncaught error.
    Execution,
    /// The entry module asked for an auxiliary execution context,
    /// which this embedding rejects by policy.
    UnsupportedCapability,
}

/// A terminal error of one run: its kind together with a human-readable
/// message for the diagnostic stream.
#[derive(Debug)]
pub struct HostError {
    pub kind: ErrorKind,
    pub message: String,
}

impl HostError {
    /// The message, for a caller that reports the error.
    pub fn describe(&self) -> (r: &String)
        ensures
            r == &self.message,
    {
        &self.message
    }
}

} // verus!
