//! Balances and the movement of funds between them.

use vstd::prelude::*;
use crate::error::EscrowError;
use crate::identity::Pubkey;

verus! {

/// A balance of one asset and the identity that holds it.
#[derive(Clone, Copy, Debug, PartialEq, Eq)]
pub struct TokenAccount {
    pub address: Pubkey,
    pub amount: u64,
}

impl TokenAccount {
    /// This account with `amount` taken out of it.
    pub open spec fn debited(self, amount: u64) -> TokenAccount
        recommends
            amount <= self.amount,
    {
        TokenAccount { amount: (self.amount - amount) as u64, ..self }
    }

    /// This account with `amount` paid into it.
    pub open spec fn credited(self, amount: u64) -> TokenAccount
        recommends
            self.amount + amount <= u64::MAX,
    {
        TokenAccount { amount: (self.amount + amount) as u64, ..self }
    }
}

/// Two holdings between which funds can move: they belong to different
/// holders, and together they hold no more than a balance can express.
pub open spec fn can_hold_together(a: TokenAccount, b: TokenAccount) -> bool {
    &&& a.address != b.address
    &&& a.amount + b.amount <= u64::MAX
}

/// Tests `can_hold_together`.
pub fn check_hold_together(a: &TokenAccount, b: &TokenAccount) -> (r: bool)
    ensures
        r == can_hold_together(*a, *b),
{
    a.address != b.address && a.amount <= u64::MAX - b.amount
}

/// Moves `amount` from one holding to another, or fails without touching
/// either if the source holds less than that.
pub fn transfer(from: &mut TokenAccount, to: &mut TokenAccount, amount: u64) -> (r: Result<
    (),
    EscrowError,
>)
    requires
        can_hold_together(*old(from), *old(to)),
    ensures
        r is Ok <==> amount <= old(from).amount,
        r is Ok ==> *final(from) == old(from).debited(amount) && *final(to) == old(to).credited(
            amount,
        ),
        r is Err ==> r == Err::<(), EscrowError>(EscrowError::InsufficientFunds) && *final(from)
            == *old(from) && *final(to) == *old(to),
        can_hold_together(*final(from), *final(to)),
        final(from).amount + final(to).amount == old(from).amount + old(to).amount,
{
    if from.amount < amount {
        return Err(EscrowError::InsufficientFunds);
    }
    from.amount = from.amount - amount;
    to.amount = to.amount + amount;
    Ok(())
}

/// Pays `amount` out of a vault to `destination`. The vault must hold at
/// least that much, so this cannot fail. Only the escrow operations pay out
/// of a vault.
pub(crate) fn pay_out(vault: &mut TokenAccount, destination: &mut TokenAccount, amount: u64)
    requires
        can_hold_together(*old(vault), *old(destination)),
        amount <= old(vault).amount,
    ensures
        *final(vault) == old(vault).debited(amount),
        *final(destination) == old(destination).credited(amount),
        can_hold_together(*final(vault), *final(destination)),
{
    let moved = transfer(vault, destination, amount);
    assert(moved is Ok);
}

} // verus!
