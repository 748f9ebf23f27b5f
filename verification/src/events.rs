//! The notices that successful operations hand out.

use vstd::prelude::*;
use crate::identity::Pubkey;
use crate::state::Escrow;

verus! {

/// Notice that an escrow was created and funded.
#[derive(Clone, Debug, PartialEq, Eq)]
pub struct EscrowCreated {
    pub escrow_id: String,
    pub authority: Pubkey,
    pub recipient: Pubkey,
    pub amount: u64,
    pub timeout: i64,
}

/// Notice that an escrow was paid out to its recipient.
#[derive(Clone, Debug, PartialEq, Eq)]
pub struct EscrowReleased {
    pub escrow_id: String,
    pub recipient: Pubkey,
    pub amount: u64,
}

/// Notice that the depositor took an escrow back before its timeout.
#[derive(Clone, Debug, PartialEq, Eq)]
pub struct EscrowCancelled {
    pub escrow_id: String,
    pub authority: Pubkey,
    pub amount: u64,
}

/// Notice that an escrow ran out and went back to the depositor.
#[derive(Clone, Debug, PartialEq, Eq)]
pub struct EscrowExpired {
    pub escrow_id: String,
    pub authority: Pubkey,
    pub amount: u64,
}

impl EscrowCreated {
    /// The notice that belongs to the creation of `escrow`.
    pub open spec fn of(escrow: Escrow) -> EscrowCreated {
        EscrowCreated {
            escrow_id: escrow.escrow_id,
            authority: escrow.authority,
            recipient: escrow.recipient,
            amount: escrow.amount,
            timeout: escrow.timeout_timestamp,
        }
    }

    /// Writes the notice for a newly created escrow.
    pub fn record(escrow: &Escrow) -> (event: EscrowCreated)
        ensures
            event == EscrowCreated::of(*escrow),
    {
        EscrowCreated {
            escrow_id: escrow.escrow_id.clone(),
            authority: escrow.authority,
            recipient: escrow.recipient,
            amount: escrow.amount,
            timeout: escrow.timeout_timestamp,
        }
    }
}

impl EscrowReleased {
    /// The notice that belongs to the release of `escrow`.
    pub open spec fn of(escrow: Escrow) -> EscrowReleased {
        EscrowReleased {
            escrow_id: escrow.escrow_id,
            recipient: escrow.recipient,
            amount: escrow.amount,
        }
    }

    /// Writes the notice for a released escrow.
    pub fn record(escrow: &Escrow) -> (event: EscrowReleased)
        ensures
            event == EscrowReleased::of(*escrow),
    {
        EscrowReleased {
            escrow_id: escrow.escrow_id.clone(),
            recipient: escrow.recipient,
            amount: escrow.amount,
        }
    }
}

impl EscrowCancelled {
    /// The notice that belongs to the cancellation of `escrow`.
    pub open spec fn of(escrow: Escrow) -> EscrowCancelled {
        EscrowCancelled {
            escrow_id: escrow.escrow_id,
            authority: escrow.authority,
            amount: escrow.amount,
        }
    }

    /// Writes the notice for a cancelled escrow.
    pub fn record(escrow: &Escrow) -> (event: EscrowCancelled)
        ensures
            event == EscrowCancelled::of(*escrow),
    {
        EscrowCancelled {
            escrow_id: escrow.escrow_id.clone(),
            authority: escrow.authority,
            amount: escrow.amount,
        }
    }
}

impl EscrowExpired {
    /// The notice that belongs to the expiry of `escrow`.
    pub open spec fn of(escrow: Escrow) -> EscrowExpired {
        EscrowExpired {
            escrow_id: escrow.escrow_id,
            authority: escrow.authority,
            amount: escrow.amount,
        }
    }

    /// Writes the notice for an expired escrow.
    pub fn record(escrow: &Escrow) -> (event: EscrowExpired)
        ensures
            event == EscrowExpired::of(*escrow),
    {
        EscrowExpired {
            escrow_id: escrow.escrow_id.clone(),
            authority: escrow.authority,
            amount: escrow.amount,
        }
    }
}

} // verus!
