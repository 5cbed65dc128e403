//! Error taxonomy of the engine: resolution-time failures surfaced to the
//! caller, enqueue rejection, defensive update rejection, and the per-job
//! terminal error classification.
use vstd::prelude::*;

verus! {

/// Classification of a job's terminal failure state. `AlreadyDownloaded`
/// is the distinguished idempotent-skip variant: it occupies the same
/// terminal slot as the failures but is counted separately in aggregates.
#[derive(Clone, Copy, Debug, PartialEq, Eq, Structural)]
pub enum ErrorKind {
    AlreadyDownloaded,
    Protocol,
    Conversion,
    Unknown,
}

impl ErrorKind {
    /// A skip is not a failure for aggregate reporting purposes.
    pub open spec fn spec_is_skip(self) -> bool {
        self is AlreadyDownloaded
    }

    #[verifier::when_used_as_spec(spec_is_skip)]
    pub fn is_skip(self) -> (r: bool)
        ensures
            r == self.spec_is_skip(),
    {
        match self {
            ErrorKind::AlreadyDownloaded => true,
            _ => false,
        }
    }
}

/// Malformed or unsupported input; surfaced immediately, no job created.
#[derive(Clone, Copy, Debug, PartialEq, Eq, Structural)]
pub enum ResolveError {
    InvalidUri,
}

/// The track id is already tracked by the store; surfaced to the caller,
/// not fatal.
#[derive(Clone, Copy, Debug, PartialEq, Eq, Structural)]
pub enum EnqueueError {
    DuplicateJob,
}

/// A requested state transition is not permitted by the state machine.
/// This is a defensive check for implementer bugs, not a user-facing error.
#[derive(Clone, Copy, Debug, PartialEq, Eq, Structural)]
pub enum UpdateError {
    InvalidTransition,
}

} // verus!
