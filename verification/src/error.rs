//! The refusals of the escrow operations.

use vstd::prelude::*;

verus! {

/// Why an operation on an escrow was refused.
///
/// Every refusal is decided before anything is changed: an operation that
/// returns one of these leaves the record and all balances as they were.
#[derive(Clone, Copy, Debug, PartialEq, Eq, Structural)]
pub enum EscrowError {
    /// The escrow has already been released, cancelled or expired.
    NotActive,
    /// A cancellation was asked for at or after the timeout.
    EscrowExpired,
    /// An expiry claim was made before the timeout.
    EscrowNotExpired,
    /// The account to be paid is not the recipient on record.
    InvalidRecipient,
    /// The caller, or the account to be paid back, is not the depositor on record.
    InvalidAuthority,
    /// The depositor holds less than the amount to be locked.
    InsufficientFunds,
    /// The depositor already has an escrow under this identifier.
    DuplicateId,
}

impl EscrowError {
    /// The text of the message that belongs to each error.
    pub open spec fn message_text(self) -> Seq<char> {
        match self {
            EscrowError::NotActive => "Escrow is not active"@,
            EscrowError::EscrowExpired => "Escrow has expired"@,
            EscrowError::EscrowNotExpired => "Escrow has not expired yet"@,
            EscrowError::InvalidRecipient => "Invalid recipient"@,
            EscrowError::InvalidAuthority => "Invalid authority"@,
            EscrowError::InsufficientFunds => "Insufficient funds"@,
            EscrowError::DuplicateId => "Escrow id already in use"@,
        }
    }

    /// A human-readable description of the error.
    pub fn message(&self) -> (text: String)
        ensures
            text@ == self.message_text(),
    {
        match self {
            EscrowError::NotActive => "Escrow is not active".to_owned(),
            EscrowError::EscrowExpired => "Escrow has expired".to_owned(),
            EscrowError::EscrowNotExpired => "Escrow has not expired yet".to_owned(),
            EscrowError::InvalidRecipient => "Invalid recipient".to_owned(),
            EscrowError::InvalidAuthority => "Invalid authority".to_owned(),
            EscrowError::InsufficientFunds => "Insufficient funds".to_owned(),
            EscrowError::DuplicateId => "Escrow id already in use".to_owned(),
        }
    }
}

} // verus!
