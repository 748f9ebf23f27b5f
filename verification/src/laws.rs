//! What holds of every step of an escrow, proved from the definitions of
//! the steps.

use vstd::prelude::*;
use crate::accounts::{CancelEscrow, ClaimExpiredEscrow, InitializeEscrow, ReleaseEscrow};
use crate::error::EscrowError;
use crate::events::{EscrowCancelled, EscrowExpired, EscrowReleased};
use crate::identity::Pubkey;
use crate::instructions::{
    cancel_step, claim_expired_step, initialize_step, new_escrow, release_step,
};
use crate::state::{EscrowStatus, MAX_ESCROW_ID_LEN};

verus! {

/// The status of an escrow only ever moves from active to one of the three
/// final states, and each operation leads to its own: a release to
/// released, a cancellation to cancelled, an expiry claim to expired. An
/// operation that is refused leaves the status alone, and an escrow in a
/// final state keeps it whatever is tried.
pub proof fn law_status_only_leaves_active(
    release: ReleaseEscrow,
    cancel: CancelEscrow,
    claim: ClaimExpiredEscrow,
    now: i64,
)
    ensures
        release.escrow.status.may_become(release_step(release, now).0.escrow.status),
        cancel.escrow.status.may_become(cancel_step(cancel, now).0.escrow.status),
        claim.escrow.status.may_become(claim_expired_step(claim, now).0.escrow.status),
        release_step(release, now).0.escrow.status == if release_step(release, now).1 is Ok {
            EscrowStatus::Released
        } else {
            release.escrow.status
        },
        cancel_step(cancel, now).0.escrow.status == if cancel_step(cancel, now).1 is Ok {
            EscrowStatus::Cancelled
        } else {
            cancel.escrow.status
        },
        claim_expired_step(claim, now).0.escrow.status == if claim_expired_step(claim, now).1 is Ok {
            EscrowStatus::Expired
        } else {
            claim.escrow.status
        },
        release_step(release, now).1 is Ok ==> release.escrow.status == EscrowStatus::Active,
        cancel_step(cancel, now).1 is Ok ==> cancel.escrow.status == EscrowStatus::Active,
        claim_expired_step(claim, now).1 is Ok ==> claim.escrow.status == EscrowStatus::Active,
{
}

/// An escrow begins active, with exactly the locked amount in its vault:
/// a creation that goes through takes the amount from the depositor's
/// account and puts it into the vault, and one that is refused changes
/// nothing.
pub proof fn law_creation_funds_the_vault(
    ctx: InitializeEscrow,
    amount: u64,
    recipient: Pubkey,
    timeout_timestamp: i64,
    escrow_id: String,
    now: i64,
)
    requires
        ctx.wf(),
        amount > 0,
        escrow_id@.len() <= MAX_ESCROW_ID_LEN,
    ensures
        ({
            let escrow = new_escrow(ctx, amount, recipient, timeout_timestamp, escrow_id, now);
            let (after, outcome) = initialize_step(ctx, escrow);
            &&& after.wf()
            &&& escrow.status == EscrowStatus::Active
            &&& outcome is Ok ==> {
                &&& after.escrow == Some(escrow)
                &&& after.vault.amount == amount
                &&& after.authority_token_account.amount == ctx.authority_token_account.amount
                    - amount
            }
            &&& outcome is Err ==> after == ctx
        }),
{
}

/// The vault of an escrow holds exactly the locked amount while the escrow
/// is active and nothing from the moment it reaches a final state. No
/// operation, refused or not, breaks this.
pub proof fn law_vault_balance(
    release: ReleaseEscrow,
    cancel: CancelEscrow,
    claim: ClaimExpiredEscrow,
    now: i64,
)
    requires
        release.wf(),
        cancel.wf(),
        claim.wf(),
    ensures
        release.escrow.status == EscrowStatus::Active ==> release.vault.amount
            == release.escrow.amount,
        release.escrow.status.is_terminal() ==> release.vault.amount == 0,
        release_step(release, now).0.wf(),
        cancel_step(cancel, now).0.wf(),
        claim_expired_step(claim, now).0.wf(),
        release_step(release, now).1 is Ok ==> {
            &&& release_step(release, now).0.vault.amount == 0
            &&& release_step(release, now).0.recipient_token_account.amount
                == release.recipient_token_account.amount + release.escrow.amount
        },
        cancel_step(cancel, now).1 is Ok ==> {
            &&& cancel_step(cancel, now).0.vault.amount == 0
            &&& cancel_step(cancel, now).0.authority_token_account.amount
                == cancel.authority_token_account.amount + cancel.escrow.amount
        },
        claim_expired_step(claim, now).1 is Ok ==> {
            &&& claim_expired_step(claim, now).0.vault.amount == 0
            &&& claim_expired_step(claim, now).0.authority_token_account.amount
                == claim.authority_token_account.amount + claim.escrow.amount
        },
{
}

/// The depositor can release an active escrow to its recipient at any
/// time, before the timeout or after it.
pub proof fn law_release_ignores_time(ctx: ReleaseEscrow, now: i64)
    requires
        ctx.wf(),
        ctx.guard_refusal() is None,
        ctx.escrow.status == EscrowStatus::Active,
    ensures
        release_step(ctx, now).1 == Ok::<EscrowReleased, EscrowError>(
            EscrowReleased::of(ctx.escrow),
        ),
        release_step(ctx, now).0.escrow.status == EscrowStatus::Released,
        release_step(ctx, now).0.escrow.released_at == Some(now),
{
}

/// The depositor's cancellation of an active escrow goes through exactly
/// when it comes before the timeout. From the timeout on it is refused as
/// expired, and nothing changes.
pub proof fn law_cancel_before_timeout(ctx: CancelEscrow, now: i64)
    requires
        ctx.wf(),
        ctx.guard_refusal() is None,
        ctx.escrow.status == EscrowStatus::Active,
    ensures
        cancel_step(ctx, now).1 is Ok <==> now < ctx.escrow.timeout_timestamp,
        now < ctx.escrow.timeout_timestamp ==> cancel_step(ctx, now).0.escrow.status
            == EscrowStatus::Cancelled,
        now >= ctx.escrow.timeout_timestamp ==> cancel_step(ctx, now) == (
            ctx,
            Err::<EscrowCancelled, EscrowError>(EscrowError::EscrowExpired),
        ),
{
}

/// An expiry claim on an active escrow goes through exactly when the
/// timeout has come, whoever makes it. Before the timeout it is refused as
/// not yet expired, and nothing changes.
pub proof fn law_claim_from_timeout(ctx: ClaimExpiredEscrow, now: i64, anyone: Pubkey)
    requires
        ctx.wf(),
        ctx.guard_refusal() is None,
        ctx.escrow.status == EscrowStatus::Active,
    ensures
        claim_expired_step(ctx, now).1 is Ok <==> now >= ctx.escrow.timeout_timestamp,
        now >= ctx.escrow.timeout_timestamp ==> claim_expired_step(ctx, now).0.escrow.status
            == EscrowStatus::Expired,
        now < ctx.escrow.timeout_timestamp ==> claim_expired_step(ctx, now) == (
            ctx,
            Err::<EscrowExpired, EscrowError>(EscrowError::EscrowNotExpired),
        ),
        claim_expired_step((ClaimExpiredEscrow { caller: anyone, ..ctx }), now).1
            == claim_expired_step(ctx, now).1,
{
}

/// Once an escrow has reached a final state every further release,
/// cancellation or expiry claim fails and changes nothing: not the record,
/// not the vault, not the account that was to be paid. Where the guard has
/// nothing to object, the refusal is that the escrow is not active.
pub proof fn law_final_states_are_final(
    release: ReleaseEscrow,
    cancel: CancelEscrow,
    claim: ClaimExpiredEscrow,
    now: i64,
)
    requires
        release.escrow.status.is_terminal(),
        cancel.escrow.status.is_terminal(),
        claim.escrow.status.is_terminal(),
    ensures
        release_step(release, now).0 == release,
        cancel_step(cancel, now).0 == cancel,
        claim_expired_step(claim, now).0 == claim,
        release_step(release, now).1 is Err,
        cancel_step(cancel, now).1 is Err,
        claim_expired_step(claim, now).1 is Err,
        release.guard_refusal() is None ==> release_step(release, now).1 == Err::<
            EscrowReleased,
            EscrowError,
        >(EscrowError::NotActive),
        cancel.guard_refusal() is None ==> cancel_step(cancel, now).1 == Err::<
            EscrowCancelled,
            EscrowError,
        >(EscrowError::NotActive),
        claim.guard_refusal() is None ==> claim_expired_step(claim, now).1 == Err::<
            EscrowExpired,
            EscrowError,
        >(EscrowError::NotActive),
{
}

} // verus!
