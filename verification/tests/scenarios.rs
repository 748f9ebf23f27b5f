use flutterbye_escrow::accounts::{
    CancelEscrow, ClaimExpiredEscrow, InitializeEscrow, ReleaseEscrow,
};
use flutterbye_escrow::custody::TokenAccount;
use flutterbye_escrow::error::EscrowError;
use flutterbye_escrow::events::{EscrowCancelled, EscrowCreated, EscrowExpired, EscrowReleased};
use flutterbye_escrow::identity::Pubkey;
use flutterbye_escrow::instructions::{
    cancel_escrow, claim_expired_escrow, initialize_escrow, release_escrow,
};
use flutterbye_escrow::state::{Escrow, EscrowStatus};

const T0: i64 = 1_700_000_000;

fn key(tag: u8) -> Pubkey {
    Pubkey::new_from_array([tag; 32])
}

fn depositor() -> Pubkey {
    key(1)
}

fn recipient() -> Pubkey {
    key(2)
}

fn vault() -> Pubkey {
    key(3)
}

fn mint() -> Pubkey {
    key(4)
}

/// Creates an escrow of 1000 with timeout T0 + 100 at T0, out of a
/// depositor balance of 5000.
fn created() -> (Escrow, TokenAccount, TokenAccount) {
    let mut ctx = InitializeEscrow {
        authority: depositor(),
        escrow: None,
        vault: TokenAccount { address: vault(), amount: 0 },
        authority_token_account: TokenAccount { address: depositor(), amount: 5000 },
        mint: mint(),
        bump: 254,
    };
    assert!(ctx.is_wf());
    let event = initialize_escrow(&mut ctx, 1000, recipient(), T0 + 100, "order-1".to_string(), T0);
    assert_eq!(
        event,
        Ok(EscrowCreated {
            escrow_id: "order-1".to_string(),
            authority: depositor(),
            recipient: recipient(),
            amount: 1000,
            timeout: T0 + 100,
        })
    );
    assert!(ctx.is_wf());
    (ctx.escrow.unwrap(), ctx.vault, ctx.authority_token_account)
}

#[test]
fn create_locks_the_amount_in_the_vault() {
    let (escrow, vault_account, depositor_account) = created();
    assert_eq!(
        escrow,
        Escrow {
            authority: depositor(),
            recipient: recipient(),
            amount: 1000,
            mint: mint(),
            vault: vault(),
            timeout_timestamp: T0 + 100,
            escrow_id: "order-1".to_string(),
            status: EscrowStatus::Active,
            created_at: T0,
            released_at: None,
            cancelled_at: None,
            expired_at: None,
            bump: 254,
        }
    );
    assert_eq!(vault_account, TokenAccount { address: vault(), amount: 1000 });
    assert_eq!(depositor_account, TokenAccount { address: depositor(), amount: 4000 });
}

#[test]
fn create_then_release_pays_the_recipient() {
    let (escrow, vault_account, _) = created();
    let mut ctx = ReleaseEscrow {
        authority: depositor(),
        escrow,
        vault: vault_account,
        recipient_token_account: TokenAccount { address: recipient(), amount: 70 },
    };
    assert!(ctx.is_wf());
    let event = release_escrow(&mut ctx, T0 + 1);
    assert_eq!(
        event,
        Ok(EscrowReleased {
            escrow_id: "order-1".to_string(),
            recipient: recipient(),
            amount: 1000,
        })
    );
    assert_eq!(ctx.recipient_token_account.amount, 1070);
    assert_eq!(ctx.vault.amount, 0);
    assert_eq!(ctx.escrow.status, EscrowStatus::Released);
    assert_eq!(ctx.escrow.released_at, Some(T0 + 1));
    assert_eq!(ctx.escrow.cancelled_at, None);
    assert_eq!(ctx.escrow.expired_at, None);
    assert!(ctx.is_wf());
}

#[test]
fn create_then_cancel_before_timeout_pays_the_depositor() {
    let (escrow, vault_account, depositor_account) = created();
    let mut ctx = CancelEscrow {
        authority: depositor(),
        escrow,
        vault: vault_account,
        authority_token_account: depositor_account,
    };
    assert!(ctx.is_wf());
    let event = cancel_escrow(&mut ctx, T0 + 50);
    assert_eq!(
        event,
        Ok(EscrowCancelled {
            escrow_id: "order-1".to_string(),
            authority: depositor(),
            amount: 1000,
        })
    );
    assert_eq!(ctx.authority_token_account.amount, 5000);
    assert_eq!(ctx.vault.amount, 0);
    assert_eq!(ctx.escrow.status, EscrowStatus::Cancelled);
    assert_eq!(ctx.escrow.cancelled_at, Some(T0 + 50));
    assert_eq!(ctx.escrow.released_at, None);
    assert_eq!(ctx.escrow.expired_at, None);
    assert!(ctx.is_wf());
}

#[test]
fn cancel_after_timeout_fails_and_changes_nothing() {
    let (escrow, vault_account, depositor_account) = created();
    let mut ctx = CancelEscrow {
        authority: depositor(),
        escrow,
        vault: vault_account,
        authority_token_account: depositor_account,
    };
    let before = ctx.clone();
    assert_eq!(cancel_escrow(&mut ctx, T0 + 150), Err(EscrowError::EscrowExpired));
    assert_eq!(ctx, before);
    assert_eq!(ctx.vault.amount, 1000);
    assert_eq!(ctx.escrow.status, EscrowStatus::Active);
    assert_eq!(ctx.authority_token_account.amount, 4000);
}

#[test]
fn claim_expired_after_timeout_by_an_unrelated_caller() {
    let (escrow, vault_account, depositor_account) = created();
    let mut cancel = CancelEscrow {
        authority: depositor(),
        escrow,
        vault: vault_account,
        authority_token_account: depositor_account,
    };
    assert_eq!(cancel_escrow(&mut cancel, T0 + 150), Err(EscrowError::EscrowExpired));
    let mut ctx = ClaimExpiredEscrow {
        caller: key(99),
        escrow: cancel.escrow,
        vault: cancel.vault,
        authority_token_account: cancel.authority_token_account,
    };
    assert!(ctx.is_wf());
    let event = claim_expired_escrow(&mut ctx, T0 + 150);
    assert_eq!(
        event,
        Ok(EscrowExpired {
            escrow_id: "order-1".to_string(),
            authority: depositor(),
            amount: 1000,
        })
    );
    assert_eq!(ctx.authority_token_account.amount, 5000);
    assert_eq!(ctx.vault.amount, 0);
    assert_eq!(ctx.escrow.status, EscrowStatus::Expired);
    assert_eq!(ctx.escrow.expired_at, Some(T0 + 150));
    assert_eq!(ctx.escrow.released_at, None);
    assert_eq!(ctx.escrow.cancelled_at, None);
    assert!(ctx.is_wf());
}

#[test]
fn second_release_fails_without_a_second_payout() {
    let (escrow, vault_account, _) = created();
    let mut ctx = ReleaseEscrow {
        authority: depositor(),
        escrow,
        vault: vault_account,
        recipient_token_account: TokenAccount { address: recipient(), amount: 0 },
    };
    assert!(release_escrow(&mut ctx, T0 + 10).is_ok());
    let after_first = ctx.clone();
    assert_eq!(release_escrow(&mut ctx, T0 + 20), Err(EscrowError::NotActive));
    assert_eq!(ctx, after_first);
    assert_eq!(ctx.recipient_token_account.amount, 1000);
    assert_eq!(ctx.vault.amount, 0);
    assert_eq!(ctx.escrow.status, EscrowStatus::Released);
    assert_eq!(ctx.escrow.released_at, Some(T0 + 10));
}
