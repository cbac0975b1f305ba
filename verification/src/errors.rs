//! The error taxonomy of the engine.

use vstd::prelude::*;

verus! {

/// Every way an operation can be rejected. A rejected operation mutates
/// nothing: each public method of the engine is all-or-nothing.
#[derive(Clone, Copy, Debug, PartialEq, Eq, Structural)]
pub enum LotError {
    /// Construction attempted over already-initialized host state (raised by
    /// the host shell, which alone can see whether state exists).
    AlreadyInitialized,
    /// A syntactically malformed account identifier.
    InvalidIdentity,
    /// A privileged operation was called by a non-council identity.
    Unauthorized,
    /// The operation is not permitted in the current lifecycle status.
    InvalidState,
    /// The attached amount is below the ticket price.
    InsufficientDeposit,
    /// The targeted charity is not registered.
    UnknownCharity,
    /// A status transition to the status already in force.
    NoSameStatus,
    /// A pot or vote-count accumulation would overflow.
    ArithmeticOverflow,
    /// Resolution attempted with an empty participant ledger.
    EmptyParticipants,
    /// Resolution attempted with an empty charity registry.
    EmptyRegistry,
}

} // verus!
