//! The accounts that each operation works on, with the guard that says who
//! may ask for it and where the funds may go.

use vstd::prelude::*;
use crate::custody::{can_hold_together, check_hold_together, TokenAccount};
use crate::error::EscrowError;
use crate::identity::Pubkey;
use crate::state::{Escrow, EscrowStatus};

verus! {

/// The custody rule: `vault` is the vault of `escrow`, and it holds exactly
/// the locked amount while the escrow is active and nothing once the escrow
/// has reached a final state.
pub open spec fn in_custody(escrow: Escrow, vault: TokenAccount) -> bool {
    &&& vault.address == escrow.vault
    &&& vault.amount == if escrow.status == EscrowStatus::Active {
        escrow.amount
    } else {
        0
    }
}

/// Tests `in_custody`.
pub fn check_custody(escrow: &Escrow, vault: &TokenAccount) -> (r: bool)
    ensures
        r == in_custody(*escrow, *vault),
{
    let owed = if escrow.is_active() {
        escrow.amount
    } else {
        0
    };
    vault.address == escrow.vault && vault.amount == owed
}

/// What a cancellation works on: the caller, the escrow, its vault and the
/// account that is to be paid back.
#[derive(Clone, Debug, PartialEq, Eq)]
pub struct CancelEscrow {
    /// The caller.
    pub authority: Pubkey,
    pub escrow: Escrow,
    pub vault: TokenAccount,
    /// The account the funds are to go back to.
    pub authority_token_account: TokenAccount,
}

impl CancelEscrow {
    /// The record is sound, the vault is in custody for it, and the vault
    /// and the account to be paid are different holdings.
    pub open spec fn wf(&self) -> bool {
        &&& self.escrow.wf()
        &&& in_custody(self.escrow, self.vault)
        &&& can_hold_together(self.vault, self.authority_token_account)
    }

    /// Tests `wf`.
    pub fn is_wf(&self) -> (r: bool)
        ensures
            r == self.wf(),
    {
        self.escrow.is_wf() && check_custody(&self.escrow, &self.vault) && check_hold_together(
            &self.vault,
            &self.authority_token_account,
        )
    }

    /// Why the guard turns a cancellation away, if it does: the caller
    /// must be the depositor, and the account to be paid back must be the
    /// depositor's.
    pub open spec fn guard_refusal(&self) -> Option<EscrowError> {
        if self.authority != self.escrow.authority || self.authority_token_account.address
            != self.escrow.authority {
            Some(EscrowError::InvalidAuthority)
        } else {
            None
        }
    }

    /// The guard of a cancellation.
    pub fn authorize(&self) -> (r: Result<(), EscrowError>)
        ensures
            r is Ok <==> self.guard_refusal() is None,
            r matches Err(e) ==> self.guard_refusal() == Some(e),
    {
        if self.authority != self.escrow.authority {
            return Err(EscrowError::InvalidAuthority);
        }
        if self.authority_token_account.address != self.escrow.authority {
            return Err(EscrowError::InvalidAuthority);
        }
        Ok(())
    }
}

/// What an expiry claim works on: the caller, the escrow, its vault and
/// the account that is to be paid back.
#[derive(Clone, Debug, PartialEq, Eq)]
pub struct ClaimExpiredEscrow {
    /// The caller; anyone may make the claim.
    pub caller: Pubkey,
    pub escrow: Escrow,
    pub vault: TokenAccount,
    /// The account the funds are to go back to.
    pub authority_token_account: TokenAccount,
}

impl ClaimExpiredEscrow {
    /// The record is sound, the vault is in custody for it, and the vault
    /// and the account to be paid are different holdings.
    pub open spec fn wf(&self) -> bool {
        &&& self.escrow.wf()
        &&& in_custody(self.escrow, self.vault)
        &&& can_hold_together(self.vault, self.authority_token_account)
    }

    /// Tests `wf`.
    pub fn is_wf(&self) -> (r: bool)
        ensures
            r == self.wf(),
    {
        self.escrow.is_wf() && check_custody(&self.escrow, &self.vault) && check_hold_together(
            &self.vault,
            &self.authority_token_account,
        )
    }

    /// Why the guard turns an expiry claim away, if it does: the account
    /// to be paid back must be the depositor's. Who the caller is does not
    /// matter.
    pub open spec fn guard_refusal(&self) -> Option<EscrowError> {
        if self.authority_token_account.address != self.escrow.authority {
            Some(EscrowError::InvalidAuthority)
        } else {
            None
        }
    }

    /// The guard of an expiry claim.
    pub fn authorize(&self) -> (r: Result<(), EscrowError>)
        ensures
            r is Ok <==> self.guard_refusal() is None,
            r matches Err(e) ==> self.guard_refusal() == Some(e),
    {
        if self.authority_token_account.address != self.escrow.authority {
            return Err(EscrowError::InvalidAuthority);
        }
        Ok(())
    }
}

/// What a release works on: the caller, the escrow, its vault and the
/// account that is to be paid.
#[derive(Clone, Debug, PartialEq, Eq)]
pub struct ReleaseEscrow {
    /// The caller.
    pub authority: Pubkey,
    pub escrow: Escrow,
    pub vault: TokenAccount,
    /// The account the funds are to go to.
    pub recipient_token_account: TokenAccount,
}

impl ReleaseEscrow {
    /// The record is sound, the vault is in custody for it, and the vault
    /// and the account to be paid are different holdings.
    pub open spec fn wf(&self) -> bool {
        &&& self.escrow.wf()
        &&& in_custody(self.escrow, self.vault)
        &&& can_hold_together(self.vault, self.recipient_token_account)
    }

    /// Tests `wf`.
    pub fn is_wf(&self) -> (r: bool)
        ensures
            r == self.wf(),
    {
        self.escrow.is_wf() && check_custody(&self.escrow, &self.vault) && check_hold_together(
            &self.vault,
            &self.recipient_token_account,
        )
    }

    /// Why the guard turns a release away, if it does: the caller must be
    /// the depositor, which is looked at first, and the account to be paid
    /// must be the recipient's.
    pub open spec fn guard_refusal(&self) -> Option<EscrowError> {
        if self.authority != self.escrow.authority {
            Some(EscrowError::InvalidAuthority)
        } else if self.recipient_token_account.address != self.escrow.recipient {
            Some(EscrowError::InvalidRecipient)
        } else {
            None
        }
    }

    /// The guard of a release.
    pub fn authorize(&self) -> (r: Result<(), EscrowError>)
        ensures
            r is Ok <==> self.guard_refusal() is None,
            r matches Err(e) ==> self.guard_refusal() == Some(e),
    {
        if self.authority != self.escrow.authority {
            return Err(EscrowError::InvalidAuthority);
        }
        if self.recipient_token_account.address != self.escrow.recipient {
            return Err(EscrowError::InvalidRecipient);
        }
        Ok(())
    }
}

/// What the creation of an escrow works on: the caller, the place where
/// the record will stand, the vault, the account that funds it and the
/// asset.
#[derive(Clone, Debug, PartialEq, Eq)]
pub struct InitializeEscrow {
    /// The caller, who becomes the depositor.
    pub authority: Pubkey,
    /// What stands at the place that belongs to the depositor and the
    /// identifier: nothing as long as the identifier is unused.
    pub escrow: Option<Escrow>,
    pub vault: TokenAccount,
    /// The account the funds are taken from.
    pub authority_token_account: TokenAccount,
    /// The asset to be locked.
    pub mint: Pubkey,
    /// The bump seed of the record's derived address.
    pub bump: u8,
}

impl InitializeEscrow {
    /// The vault and the funding account are different holdings; a vault
    /// without a record is empty; a record that is already there is sound
    /// and the vault is in custody for it.
    pub open spec fn wf(&self) -> bool {
        &&& can_hold_together(self.vault, self.authority_token_account)
        &&& match self.escrow {
            Some(escrow) => escrow.wf() && in_custody(escrow, self.vault),
            None => self.vault.amount == 0,
        }
    }

    /// Tests `wf`.
    pub fn is_wf(&self) -> (r: bool)
        ensures
            r == self.wf(),
    {
        let existing = match &self.escrow {
            Some(escrow) => escrow.is_wf() && check_custody(escrow, &self.vault),
            None => self.vault.amount == 0,
        };
        check_hold_together(&self.vault, &self.authority_token_account) && existing
    }

    /// Why the guard turns a creation away, if it does: the account that
    /// funds the escrow must be the caller's.
    pub open spec fn guard_refusal(&self) -> Option<EscrowError> {
        if self.authority_token_account.address != self.authority {
            Some(EscrowError::InvalidAuthority)
        } else {
            None
        }
    }

    /// The guard of a creation.
    pub fn authorize(&self) -> (r: Result<(), EscrowError>)
        ensures
            r is Ok <==> self.guard_refusal() is None,
            r matches Err(e) ==> self.guard_refusal() == Some(e),
    {
        if self.authority_token_account.address != self.authority {
            return Err(EscrowError::InvalidAuthority);
        }
        Ok(())
    }
}

} // verus!
