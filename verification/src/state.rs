//! The record of an escrow and its lifecycle.

use vstd::prelude::*;
use vstd::std_specs::iter::IteratorSpec;
use crate::identity::Pubkey;

verus! {

/// The longest escrow identifier, in characters.
pub const MAX_ESCROW_ID_LEN: usize = 50;

/// Where an escrow stands in its lifecycle.
///
/// `Active` is the only state an escrow starts in and the only one it can
/// leave; the other three are final.
#[derive(Clone, Copy, Debug, PartialEq, Eq, Structural)]
pub enum EscrowStatus {
    Active,
    Released,
    Cancelled,
    Expired,
}

impl EscrowStatus {
    /// A final state: released, cancelled or expired.
    pub open spec fn is_terminal(self) -> bool {
        self != EscrowStatus::Active
    }

    /// Whether an escrow in state `self` may be found in state `next` after
    /// one operation: it stays where it is, or it leaves `Active` for a
    /// final state.
    pub open spec fn may_become(self, next: EscrowStatus) -> bool {
        self == next || (self == EscrowStatus::Active && next.is_terminal())
    }
}

/// The record of one escrow: who locked how much of which asset for whom,
/// until when, and what became of it.
#[derive(Clone, Debug, PartialEq, Eq)]
pub struct Escrow {
    /// The depositor: the party that funded the escrow.
    pub authority: Pubkey,
    /// The party the funds are released to.
    pub recipient: Pubkey,
    /// The quantity locked at creation.
    pub amount: u64,
    /// The asset held.
    pub mint: Pubkey,
    /// The custody balance that holds the funds.
    pub vault: Pubkey,
    /// From this time on the depositor can no longer cancel, and anyone may
    /// have the funds returned to the depositor.
    pub timeout_timestamp: i64,
    /// The depositor's own name for this escrow.
    pub escrow_id: String,
    pub status: EscrowStatus,
    pub created_at: i64,
    pub released_at: Option<i64>,
    pub cancelled_at: Option<i64>,
    pub expired_at: Option<i64>,
    /// The bump seed of the record's derived address.
    pub bump: u8,
}

impl Escrow {
    /// The terminal time stamps say the same as the status: none is set
    /// while the escrow is active, and afterwards exactly the one that
    /// belongs to the final state.
    pub open spec fn stamps_match_status(&self) -> bool {
        &&& self.released_at is Some <==> self.status == EscrowStatus::Released
        &&& self.cancelled_at is Some <==> self.status == EscrowStatus::Cancelled
        &&& self.expired_at is Some <==> self.status == EscrowStatus::Expired
    }

    /// What holds of every escrow record.
    pub open spec fn wf(&self) -> bool {
        &&& self.amount > 0
        &&& self.escrow_id@.len() <= MAX_ESCROW_ID_LEN
        &&& self.stamps_match_status()
    }

    /// The record as it stands after a terminal transition to `status` at
    /// time `now`: the status and the time stamp of that status are set,
    /// nothing else changes.
    pub open spec fn settled(self, status: EscrowStatus, now: i64) -> Escrow {
        match status {
            EscrowStatus::Active => self,
            EscrowStatus::Released => Escrow { status, released_at: Some(now), ..self },
            EscrowStatus::Cancelled => Escrow { status, cancelled_at: Some(now), ..self },
            EscrowStatus::Expired => Escrow { status, expired_at: Some(now), ..self },
        }
    }

    /// Whether the escrow can still be released, cancelled or expired.
    pub fn is_active(&self) -> (r: bool)
        ensures
            r == (self.status == EscrowStatus::Active),
    {
        self.status == EscrowStatus::Active
    }

    /// Tests `wf`.
    pub fn is_wf(&self) -> (r: bool)
        ensures
            r == self.wf(),
    {
        let stamps = match self.status {
            EscrowStatus::Active => self.released_at.is_none() && self.cancelled_at.is_none()
                && self.expired_at.is_none(),
            EscrowStatus::Released => self.released_at.is_some() && self.cancelled_at.is_none()
                && self.expired_at.is_none(),
            EscrowStatus::Cancelled => self.released_at.is_none() && self.cancelled_at.is_some()
                && self.expired_at.is_none(),
            EscrowStatus::Expired => self.released_at.is_none() && self.cancelled_at.is_none()
                && self.expired_at.is_some(),
        };
        self.amount > 0 && escrow_id_fits(self.escrow_id.as_str()) && stamps
    }
}

/// Whether an identifier is short enough for a record.
pub fn escrow_id_fits(id: &str) -> (r: bool)
    ensures
        r == (id@.len() <= MAX_ESCROW_ID_LEN),
{
    broadcast use vstd::string::axiom_spec_iter, vstd::string::next_postcondition;

    let mut seen: usize = 0;
    let mut rest = id.chars();
    loop
        invariant
            seen <= MAX_ESCROW_ID_LEN,
            seen + rest.remaining().len() == id@.len(),
        decreases MAX_ESCROW_ID_LEN - seen,
    {
        match rest.next() {
            None => {
                return true;
            },
            Some(_) => {
                if seen == MAX_ESCROW_ID_LEN {
                    return false;
                }
                seen = seen + 1;
            },
        }
    }
}

} // verus!
