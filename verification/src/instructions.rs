//! The four operations of an escrow: creation, release, cancellation and
//! expiry claim.

use vstd::prelude::*;
use crate::accounts::{CancelEscrow, ClaimExpiredEscrow, InitializeEscrow, ReleaseEscrow};
use crate::custody::{pay_out, transfer};
use crate::error::EscrowError;
use crate::events::{EscrowCancelled, EscrowCreated, EscrowExpired, EscrowReleased};
use crate::identity::Pubkey;
use crate::state::{Escrow, EscrowStatus, MAX_ESCROW_ID_LEN};

verus! {

/// Why a cancellation at time `now` is refused, if it is. The checks are
/// made in this order: the guard lets the caller and the account to be paid
/// back through; the escrow is active; the timeout has not come.
pub open spec fn cancel_refusal(ctx: CancelEscrow, now: i64) -> Option<EscrowError> {
    if ctx.guard_refusal() is Some {
        ctx.guard_refusal()
    } else if ctx.escrow.status != EscrowStatus::Active {
        Some(EscrowError::NotActive)
    } else if now >= ctx.escrow.timeout_timestamp {
        Some(EscrowError::EscrowExpired)
    } else {
        None
    }
}

/// The accounts after a cancellation at time `now` went through: the
/// locked amount has moved from the vault to the depositor's account and
/// the record is marked cancelled.
pub open spec fn cancelled(ctx: CancelEscrow, now: i64) -> CancelEscrow {
    CancelEscrow {
        escrow: ctx.escrow.settled(EscrowStatus::Cancelled, now),
        vault: ctx.vault.debited(ctx.escrow.amount),
        authority_token_account: ctx.authority_token_account.credited(ctx.escrow.amount),
        ..ctx
    }
}

/// A cancellation at time `now`, as a step from the accounts before to the
/// accounts after and the outcome.
pub open spec fn cancel_step(ctx: CancelEscrow, now: i64) -> (
    CancelEscrow,
    Result<EscrowCancelled, EscrowError>,
) {
    match cancel_refusal(ctx, now) {
        Some(e) => (ctx, Err(e)),
        None => (cancelled(ctx, now), Ok(EscrowCancelled::of(ctx.escrow))),
    }
}

/// Cancels an active escrow before its timeout and returns the funds to the
/// depositor. Only the depositor may do this.
pub fn cancel_escrow(ctx: &mut CancelEscrow, now: i64) -> (r: Result<
    EscrowCancelled,
    EscrowError,
>)
    requires
        old(ctx).wf(),
    ensures
        (*final(ctx), r) == cancel_step(*old(ctx), now),
        final(ctx).wf(),
        old(ctx).escrow.status.may_become(final(ctx).escrow.status),
{
    match ctx.authorize() {
        Ok(()) => {},
        Err(e) => {
            return Err(e);
        },
    }
    if !ctx.escrow.is_active() {
        return Err(EscrowError::NotActive);
    }
    if now >= ctx.escrow.timeout_timestamp {
        return Err(EscrowError::EscrowExpired);
    }
    let amount = ctx.escrow.amount;
    pay_out(&mut ctx.vault, &mut ctx.authority_token_account, amount);
    ctx.escrow.status = EscrowStatus::Cancelled;
    ctx.escrow.cancelled_at = Some(now);
    Ok(EscrowCancelled::record(&ctx.escrow))
}

/// Why an expiry claim at time `now` is refused, if it is. The checks are
/// made in this order: the guard lets the account to be paid back through;
/// the escrow is active; the timeout has come.
pub open spec fn claim_expired_refusal(ctx: ClaimExpiredEscrow, now: i64) -> Option<EscrowError> {
    if ctx.guard_refusal() is Some {
        ctx.guard_refusal()
    } else if ctx.escrow.status != EscrowStatus::Active {
        Some(EscrowError::NotActive)
    } else if now < ctx.escrow.timeout_timestamp {
        Some(EscrowError::EscrowNotExpired)
    } else {
        None
    }
}

/// The accounts after an expiry claim at time `now` went through: the
/// locked amount has moved from the vault to the depositor's account and
/// the record is marked expired.
pub open spec fn expired(ctx: ClaimExpiredEscrow, now: i64) -> ClaimExpiredEscrow {
    ClaimExpiredEscrow {
        escrow: ctx.escrow.settled(EscrowStatus::Expired, now),
        vault: ctx.vault.debited(ctx.escrow.amount),
        authority_token_account: ctx.authority_token_account.credited(ctx.escrow.amount),
        ..ctx
    }
}

/// An expiry claim at time `now`, as a step from the accounts before to the
/// accounts after and the outcome.
pub open spec fn claim_expired_step(ctx: ClaimExpiredEscrow, now: i64) -> (
    ClaimExpiredEscrow,
    Result<EscrowExpired, EscrowError>,
) {
    match claim_expired_refusal(ctx, now) {
        Some(e) => (ctx, Err(e)),
        None => (expired(ctx, now), Ok(EscrowExpired::of(ctx.escrow))),
    }
}

/// Returns the funds of an active escrow to the depositor once the timeout
/// has come. Anyone may do this.
pub fn claim_expired_escrow(ctx: &mut ClaimExpiredEscrow, now: i64) -> (r: Result<
    EscrowExpired,
    EscrowError,
>)
    requires
        old(ctx).wf(),
    ensures
        (*final(ctx), r) == claim_expired_step(*old(ctx), now),
        final(ctx).wf(),
        old(ctx).escrow.status.may_become(final(ctx).escrow.status),
{
    match ctx.authorize() {
        Ok(()) => {},
        Err(e) => {
            return Err(e);
        },
    }
    if !ctx.escrow.is_active() {
        return Err(EscrowError::NotActive);
    }
    if now < ctx.escrow.timeout_timestamp {
        return Err(EscrowError::EscrowNotExpired);
    }
    let amount = ctx.escrow.amount;
    pay_out(&mut ctx.vault, &mut ctx.authority_token_account, amount);
    ctx.escrow.status = EscrowStatus::Expired;
    ctx.escrow.expired_at = Some(now);
    Ok(EscrowExpired::record(&ctx.escrow))
}

/// Why a release is refused, if it is. The checks are made in this order:
/// the guard lets the caller and the account to be paid through; the escrow
/// is active. The time plays no part.
pub open spec fn release_refusal(ctx: ReleaseEscrow) -> Option<EscrowError> {
    if ctx.guard_refusal() is Some {
        ctx.guard_refusal()
    } else if ctx.escrow.status != EscrowStatus::Active {
        Some(EscrowError::NotActive)
    } else {
        None
    }
}

/// The accounts after a release at time `now` went through: the locked
/// amount has moved from the vault to the recipient's account and the
/// record is marked released.
pub open spec fn released(ctx: ReleaseEscrow, now: i64) -> ReleaseEscrow {
    ReleaseEscrow {
        escrow: ctx.escrow.settled(EscrowStatus::Released, now),
        vault: ctx.vault.debited(ctx.escrow.amount),
        recipient_token_account: ctx.recipient_token_account.credited(ctx.escrow.amount),
        ..ctx
    }
}

/// A release at time `now`, as a step from the accounts before to the
/// accounts after and the outcome.
pub open spec fn release_step(ctx: ReleaseEscrow, now: i64) -> (
    ReleaseEscrow,
    Result<EscrowReleased, EscrowError>,
) {
    match release_refusal(ctx) {
        Some(e) => (ctx, Err(e)),
        None => (released(ctx, now), Ok(EscrowReleased::of(ctx.escrow))),
    }
}

/// Pays an active escrow out to its recipient, before or after the
/// timeout. Only the depositor may do this.
pub fn release_escrow(ctx: &mut ReleaseEscrow, now: i64) -> (r: Result<
    EscrowReleased,
    EscrowError,
>)
    requires
        old(ctx).wf(),
    ensures
        (*final(ctx), r) == release_step(*old(ctx), now),
        final(ctx).wf(),
        old(ctx).escrow.status.may_become(final(ctx).escrow.status),
{
    match ctx.authorize() {
        Ok(()) => {},
        Err(e) => {
            return Err(e);
        },
    }
    if !ctx.escrow.is_active() {
        return Err(EscrowError::NotActive);
    }
    let amount = ctx.escrow.amount;
    pay_out(&mut ctx.vault, &mut ctx.recipient_token_account, amount);
    ctx.escrow.status = EscrowStatus::Released;
    ctx.escrow.released_at = Some(now);
    Ok(EscrowReleased::record(&ctx.escrow))
}

/// Why the creation of an escrow of `amount` is refused, if it is. The
/// checks are made in this order: the guard lets the funding account
/// through; the identifier is unused for this depositor; the funding
/// account holds the amount.
pub open spec fn initialize_refusal(ctx: InitializeEscrow, amount: u64) -> Option<EscrowError> {
    if ctx.guard_refusal() is Some {
        ctx.guard_refusal()
    } else if ctx.escrow is Some {
        Some(EscrowError::DuplicateId)
    } else if ctx.authority_token_account.amount < amount {
        Some(EscrowError::InsufficientFunds)
    } else {
        None
    }
}

/// The record of an escrow created at time `now`.
pub open spec fn new_escrow(
    ctx: InitializeEscrow,
    amount: u64,
    recipient: Pubkey,
    timeout_timestamp: i64,
    escrow_id: String,
    now: i64,
) -> Escrow {
    Escrow {
        authority: ctx.authority,
        recipient,
        amount,
        mint: ctx.mint,
        vault: ctx.vault.address,
        timeout_timestamp,
        escrow_id,
        status: EscrowStatus::Active,
        created_at: now,
        released_at: None,
        cancelled_at: None,
        expired_at: None,
        bump: ctx.bump,
    }
}

/// The accounts after the creation of `escrow` went through: the record
/// stands and its amount has moved from the depositor's account to the
/// vault.
pub open spec fn initialized(ctx: InitializeEscrow, escrow: Escrow) -> InitializeEscrow {
    InitializeEscrow {
        escrow: Some(escrow),
        vault: ctx.vault.credited(escrow.amount),
        authority_token_account: ctx.authority_token_account.debited(escrow.amount),
        ..ctx
    }
}

/// The creation of `escrow`, as a step from the accounts before to the
/// accounts after and the outcome.
pub open spec fn initialize_step(ctx: InitializeEscrow, escrow: Escrow) -> (
    InitializeEscrow,
    Result<EscrowCreated, EscrowError>,
) {
    match initialize_refusal(ctx, escrow.amount) {
        Some(e) => (ctx, Err(e)),
        None => (initialized(ctx, escrow), Ok(EscrowCreated::of(escrow))),
    }
}

/// Creates an escrow of `amount` for `recipient_pubkey` under the
/// depositor's identifier `escrow_id` and locks the funds in its vault.
pub fn initialize_escrow(
    ctx: &mut InitializeEscrow,
    amount: u64,
    recipient_pubkey: Pubkey,
    timeout_timestamp: i64,
    escrow_id: String,
    now: i64,
) -> (r: Result<EscrowCreated, EscrowError>)
    requires
        old(ctx).wf(),
        amount > 0,
        escrow_id@.len() <= MAX_ESCROW_ID_LEN,
    ensures
        (*final(ctx), r) == initialize_step(
            *old(ctx),
            new_escrow(*old(ctx), amount, recipient_pubkey, timeout_timestamp, escrow_id, now),
        ),
        final(ctx).wf(),
{
    match ctx.authorize() {
        Ok(()) => {},
        Err(e) => {
            return Err(e);
        },
    }
    if ctx.escrow.is_some() {
        return Err(EscrowError::DuplicateId);
    }
    match transfer(&mut ctx.authority_token_account, &mut ctx.vault, amount) {
        Ok(()) => {},
        Err(e) => {
            return Err(e);
        },
    }
    let escrow = Escrow {
        authority: ctx.authority,
        recipient: recipient_pubkey,
        amount,
        mint: ctx.mint,
        vault: ctx.vault.address,
        timeout_timestamp,
        escrow_id,
        status: EscrowStatus::Active,
        created_at: now,
        released_at: None,
        cancelled_at: None,
        expired_at: None,
        bump: ctx.bump,
    };
    let event = EscrowCreated::record(&escrow);
    ctx.escrow = Some(escrow);
    Ok(event)
}

} // verus!
