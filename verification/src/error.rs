use vstd::prelude::*;

verus! {

/// Why an operation failed.
#[derive(Clone, Copy, Debug, PartialEq, Eq, Structural)]
pub enum Error {
    /// The transport backend could not carry out a raw register access.
    Transport,
    /// The controller answered, but not as the protocol allows: it was busy,
    /// rejected the command, framed a block wrongly or is in the wrong mode.
    Protocol,
    /// A bounded wait ran out.
    Timeout,
    /// The caller passed a malformed argument; nothing was sent.
    InvalidArgument,
    /// The surroundings do not allow the operation: no cable is connected,
    /// the host is not recognised, or no session is open.
    PreconditionFailed,
}

} // verus!
