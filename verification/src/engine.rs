use vstd::prelude::*;

use crate::errors::VaultError;
use crate::principal::PrincipalId;
use crate::registry::{spec_authenticated, RegistryView, VaultRegistry};

verus! {

/// What a deposit does to the vault's held value and the depositor's
/// spendable value: it fails when the depositor cannot cover the amount or
/// when the vault's balance would overflow, and otherwise moves exactly
/// `amount` from the depositor into the vault.
pub open spec fn spec_deposit(vault_held: u64, depositor_funds: u64, amount: u64) -> (u64, u64, Result<
    (),
    VaultError,
>) {
    if depositor_funds < amount {
        (vault_held, depositor_funds, Err(VaultError::InsufficientCallerFunds))
    } else if vault_held + amount > u64::MAX {
        (vault_held, depositor_funds, Err(VaultError::ArithmeticOverflow))
    } else {
        ((vault_held + amount) as u64, (depositor_funds - amount) as u64, Ok(()))
    }
}

/// What a withdrawal does to the vault's held value and the receiver's
/// funds: it fails `Unauthorized` unless the claimed authority authenticates
/// against the registry for the operated address, fails `InsufficientFunds`
/// when the amount exceeds the held value, fails `ArithmeticOverflow` when
/// crediting the receiver would overflow, and otherwise moves exactly
/// `amount` from the vault to the receiver.
pub open spec fn spec_withdraw(
    reg: RegistryView,
    claimed: Seq<u8>,
    operated_address: Seq<u8>,
    vault_held: u64,
    receiver_funds: u64,
    amount: u64,
) -> (u64, u64, Result<(), VaultError>) {
    if !spec_authenticated(reg, claimed, operated_address) {
        (vault_held, receiver_funds, Err(VaultError::Unauthorized))
    } else if vault_held < amount {
        (vault_held, receiver_funds, Err(VaultError::InsufficientFunds))
    } else if receiver_funds + amount > u64::MAX {
        (vault_held, receiver_funds, Err(VaultError::ArithmeticOverflow))
    } else {
        ((vault_held - amount) as u64, (receiver_funds + amount) as u64, Ok(()))
    }
}

/// Credit the vault with `amount` out of the depositor's own funds. Open to
/// any principal: no authority check is made. Both cells change together or
/// neither does.
pub fn deposit(vault_held: &mut u64, depositor_funds: &mut u64, amount: u64) -> (r: Result<
    (),
    VaultError,
>)
    ensures
        (*final(vault_held), *final(depositor_funds), r) == spec_deposit(
            *old(vault_held),
            *old(depositor_funds),
            amount,
        ),
        r is Ok ==> *old(vault_held) + *old(depositor_funds) == *final(vault_held)
            + *final(depositor_funds),
        r is Err ==> *final(vault_held) == *old(vault_held) && *final(depositor_funds)
            == *old(depositor_funds),
{
    if *depositor_funds < amount {
        return Err(VaultError::InsufficientCallerFunds);
    }
    if u64::MAX - *vault_held < amount {
        return Err(VaultError::ArithmeticOverflow);
    }
    *depositor_funds = *depositor_funds - amount;
    *vault_held = *vault_held + amount;
    Ok(())
}

/// Debit the vault by `amount` and credit the receiver, after the claimed
/// authority has been authenticated against the registry. The receiver is
/// deliberately unvalidated beyond being a destination whose funds cell is
/// supplied. Both cells change together or neither does.
pub fn withdraw(
    registry: &VaultRegistry,
    claimed: &PrincipalId,
    operated_address: &PrincipalId,
    vault_held: &mut u64,
    receiver_funds: &mut u64,
    amount: u64,
) -> (r: Result<(), VaultError>)
    ensures
        (*final(vault_held), *final(receiver_funds), r) == spec_withdraw(
            registry@,
            claimed@,
            operated_address@,
            *old(vault_held),
            *old(receiver_funds),
            amount,
        ),
        r is Ok ==> *old(vault_held) + *old(receiver_funds) == *final(vault_held)
            + *final(receiver_funds),
        r is Err ==> *final(vault_held) == *old(vault_held) && *final(receiver_funds)
            == *old(receiver_funds),
{
    if !registry.authenticate(claimed, operated_address) {
        return Err(VaultError::Unauthorized);
    }
    if *vault_held < amount {
        return Err(VaultError::InsufficientFunds);
    }
    if u64::MAX - *receiver_funds < amount {
        return Err(VaultError::ArithmeticOverflow);
    }
    *vault_held = *vault_held - amount;
    *receiver_funds = *receiver_funds + amount;
    Ok(())
}

/// A deposit the depositor can cover, and that does not overflow the vault,
/// succeeds and moves exactly `amount`: the vault's held value grows by
/// `amount`, the depositor's funds shrink by `amount`, and the total value
/// across the two is conserved.
pub proof fn lemma_deposit_moves_exactly(vault_held: u64, depositor_funds: u64, amount: u64)
    requires
        amount <= depositor_funds,
        vault_held + amount <= u64::MAX,
    ensures
        ({
            let (vh, df, r) = spec_deposit(vault_held, depositor_funds, amount);
            &&& r == Ok::<(), VaultError>(())
            &&& vh == vault_held + amount
            &&& df == depositor_funds - amount
            &&& vh + df == vault_held + depositor_funds
        }),
{
}

/// A withdrawal claimed by anyone but the recorded authority fails with
/// `Unauthorized` and changes no balance, whatever address, amount, or
/// funds it was attempted with.
pub proof fn lemma_withdraw_rejects_wrong_authority(
    reg: RegistryView,
    claimed: Seq<u8>,
    operated_address: Seq<u8>,
    vault_held: u64,
    receiver_funds: u64,
    amount: u64,
)
    requires
        reg.record matches Some(v) ==> claimed != v.authority,
    ensures
        spec_withdraw(reg, claimed, operated_address, vault_held, receiver_funds, amount) == (
            vault_held,
            receiver_funds,
            Err::<(), VaultError>(VaultError::Unauthorized),
        ),
{
}

/// A withdrawal of more than the vault's held value fails with
/// `InsufficientFunds` and changes no balance, even for the authenticated
/// authority.
pub proof fn lemma_withdraw_rejects_overdraw(
    reg: RegistryView,
    claimed: Seq<u8>,
    operated_address: Seq<u8>,
    vault_held: u64,
    receiver_funds: u64,
    amount: u64,
)
    requires
        amount > vault_held,
    ensures
        spec_authenticated(reg, claimed, operated_address) ==> spec_withdraw(
            reg,
            claimed,
            operated_address,
            vault_held,
            receiver_funds,
            amount,
        ) == (vault_held, receiver_funds, Err::<(), VaultError>(VaultError::InsufficientFunds)),
{
}

/// Every successful withdrawal moves exactly `amount`: the vault's held
/// value shrinks by `amount`, the receiver's funds grow by `amount`, and
/// the total value across the two is conserved.
pub proof fn lemma_withdraw_moves_exactly(
    reg: RegistryView,
    claimed: Seq<u8>,
    operated_address: Seq<u8>,
    vault_held: u64,
    receiver_funds: u64,
    amount: u64,
)
    ensures
        spec_withdraw(reg, claimed, operated_address, vault_held, receiver_funds, amount).2 is Ok
            ==> ({
            let (vh, rf, r) = spec_withdraw(
                reg,
                claimed,
                operated_address,
                vault_held,
                receiver_funds,
                amount,
            );
            &&& vh == vault_held - amount
            &&& rf == receiver_funds + amount
            &&& vh + rf == vault_held + receiver_funds
        }),
{
}

} // verus!
