//! A custodial escrow: a depositor locks an amount of one asset for a
//! recipient until a timeout. The depositor can release it to the recipient
//! at any time or take it back before the timeout; from the timeout on
//! anyone can have it returned to the depositor.
//!
//! The operations in [`instructions`] work on plain values: the record of
//! the escrow, the balances they move and the time of the call. Each one
//! is a verified step from the accounts before to the accounts after and
//! an event or a refusal; [`laws`] states what holds of every such step.

pub mod accounts;
pub mod address;
pub mod custody;
pub mod error;
pub mod events;
pub mod identity;
pub mod instructions;
pub mod laws;
pub mod state;

pub use accounts::{CancelEscrow, ClaimExpiredEscrow, InitializeEscrow, ReleaseEscrow};
pub use custody::TokenAccount;
pub use error::EscrowError;
pub use events::{EscrowCancelled, EscrowCreated, EscrowExpired, EscrowReleased};
pub use identity::Pubkey;
pub use instructions::{
    cancel_escrow, claim_expired_escrow, initialize_escrow, release_escrow,
};
pub use state::{Escrow, EscrowStatus};
