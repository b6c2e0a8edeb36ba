use vstd::prelude::*;

verus! {

/// Reasons an escrow operation aborts before or instead of moving any balance.
///
/// The first four variants are the protocol's own checks; the remaining ones
/// model aborts that the host ledger or the asset-transfer service reports
/// (an occupied record address, a missing record, an inconsistent
/// balance-holder account, a short balance, a balance that would overflow).
#[derive(Clone, Copy, Debug, PartialEq, Eq, Structural)]
pub enum EscrowError {
    /// A create argument (`receive` or the deposit amount) is zero.
    InvalidAmount,
    /// The supplied maker is not the record's maker.
    InvalidMaker,
    /// The supplied deposited-asset identifier is not the record's.
    InvalidMintA,
    /// The supplied requested-asset identifier is not the record's.
    InvalidMintB,
    /// A record for the same maker and seed already exists.
    RecordInUse,
    /// No live record exists where the request pointed.
    RecordMissing,
    /// A supplied balance-holder account has the wrong owner or asset.
    AccountMismatch,
    /// The paying balance-holder holds less than the amount to move.
    InsufficientFunds,
    /// A receiving balance would exceed the largest representable amount.
    BalanceOverflow,
}

} // verus!
