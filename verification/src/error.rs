use vstd::prelude::*;

verus! {

/// The error kinds a broker operation can surface on the wire.
///
/// Each kind maps onto one member of the bus's standard error family; the
/// unverified shell attaches the human-readable message.
#[derive(Clone, Copy, Debug, PartialEq, Eq, Structural)]
pub enum ErrorKind {
    /// Missing or mismatched sender identity, or the policy authority
    /// answered "not authorized".
    AccessDenied,
    /// The policy authority could not construct a subject for the caller.
    AuthFailed,
    /// The policy authority reported a bad or missing sender.
    InconsistentMessage,
    /// Empty argument vector, unsupported target user, or a bad signal
    /// number.
    InvalidArgs,
    /// An attempt to mutate a session's configuration after its child has
    /// been started.
    FileExists,
    /// An operation that needs a running child found none.
    FileNotFound,
    /// Pseudo-terminal allocation or process launch failed.
    SpawnFailed,
    /// A kernel call failed.
    IoError,
}

} // verus!
