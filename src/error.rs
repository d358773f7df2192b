use vstd::prelude::*;

verus! {

/// Every way an operation of this library can fail.
#[derive(Clone, Copy, Debug, PartialEq, Eq, Structural)]
pub enum PrereqError {
    /// Derivation inputs are missing or invalid (no program address, bad program id).
    Configuration,
    /// The balance cannot cover the fee, or nothing would be left to transfer.
    InsufficientBalance,
    /// A transfer of zero units was asked for.
    InvalidAmount,
    /// An instruction argument is longer than a 32-bit length prefix can state.
    Encoding,
    /// A call to the ledger failed.
    Network,
    /// The ledger refused the submitted transaction.
    RemoteRejection,
    /// The transaction was broadcast but its confirmation was not observed.
    Unconfirmed,
}

} // verus!
