//! Error taxonomy shared by every lifecycle action.

use vstd::prelude::*;

verus! {

/// Why an action failed. Every error is terminal for the invocation: the
/// caller reports it and exits without retrying.
#[derive(Clone, Copy, Debug, PartialEq, Eq, Structural)]
pub enum GovError {
    /// A required identity or parameter is missing (for example a council
    /// mint was requested but the realm has none configured).
    ConfigurationError,
    /// An expected remote account is absent.
    NotFoundError,
    /// Account bytes do not match the expected layout or carry an
    /// unexpected tag.
    DecodeError,
    /// The ledger refused a submitted transaction.
    RemoteRejection,
    /// Mutually required parameters were both absent, or the remote state
    /// has a shape this tool does not support.
    UsageError,
}

} // verus!
