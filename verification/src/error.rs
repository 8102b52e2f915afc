//! The ways a transfer can fail.

use vstd::prelude::*;

verus! {

/// Why a transfer was abandoned. Each failure ends the whole transfer.
#[derive(Clone, Copy, Debug, PartialEq, Eq, Structural)]
pub enum TransferError {
    /// The destination does not parse, or is encoded for another network.
    InvalidAddress,
    /// The public key or a signature from the signing service is malformed.
    InvalidKeyMaterial,
    /// The unspent outputs hold `have` satoshi, and `need`, which is `amount` plus `fee`,
    /// is more.
    InsufficientFunds { have: u128, need: u128, amount: u64, fee: u64 },
    /// The data about a spent output does not allow a signature digest, or a witness
    /// is too large to be held.
    SighashComputationFailure,
    /// A call to an outside service failed.
    ExternalServiceFailure,
    /// The fee did not settle within the allowed rounds, a fee left the range of
    /// satoshi amounts, or a reply came that was not asked for.
    InternalInconsistency,
}

} // verus!
