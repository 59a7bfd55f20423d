use vstd::prelude::*;

verus! {

/// Every way a vault operation can fail. Each failure is detected before
/// any state mutation is committed, so a caller that receives one of these
/// can rely on all balances and the vault record being unchanged.
#[derive(Clone, Copy, Debug, PartialEq, Eq, Structural)]
pub enum VaultError {
    /// A creation attempt found the vault record already occupied.
    AlreadyInitialized,
    /// The withdrawal caller is not the recorded authority, or the recorded
    /// bump does not re-derive to the address being operated on.
    Unauthorized,
    /// The withdrawal amount exceeds the vault's currently held value.
    InsufficientFunds,
    /// The deposit amount exceeds the depositor's spendable value.
    InsufficientCallerFunds,
    /// Crediting the destination would overflow its balance.
    ArithmeticOverflow,
    /// No bump byte yields a valid deterministic address for the vault.
    DerivationFailed,
}

} // verus!
