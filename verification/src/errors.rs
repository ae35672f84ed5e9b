use vstd::prelude::*;

verus! {

/// Why a vault operation was refused.
///
/// Every failure is terminal for the call that raised it: the operation
/// aborts with no state change and no value movement. `TooEarly` becomes
/// retryable once the deadline has passed; the other kinds require the
/// caller to change its inputs or identity.
#[derive(Clone, Copy, Debug, PartialEq, Eq, Structural)]
pub enum TimelockError {
    /// Creation was requested with a deadline not in the future.
    InvalidUnlockTime,
    /// Withdrawal was attempted before the vault's unlock time.
    TooEarly,
    /// Withdrawal was attempted by an identity that is neither the
    /// vault's owner nor its recipient.
    Unauthorized,
    /// The value-transfer step could not complete, e.g. the depositor's
    /// balance does not cover the requested amount.
    TransferFailure,
    /// A vault for the given (owner, recipient, unlock time) triple
    /// already exists: the derived storage slot is create-only.
    AlreadyInitialized,
}

} // verus!
