//! The conditions under which an operation is refused.

use vstd::prelude::*;

verus! {

/// Why an operation was refused. A refused operation changes nothing.
#[derive(Clone, Copy, Debug, PartialEq, Eq, Structural)]
pub enum PrismError {
    /// The caller does not own the root identity.
    Unauthorized,
    /// The context does not belong to the root that was presented.
    ContextMismatch,
    /// The context was revoked before.
    ContextAlreadyRevoked,
    /// The context is revoked and can no longer be used.
    ContextRevoked,
    /// The amount is above the context's ceiling for one transaction.
    ExceedsTransactionLimit,
    /// The running total would leave the 64-bit range.
    SpendingOverflow,
    /// The privacy level is above 4.
    InvalidPrivacyLevel,
    /// The context type is above 5.
    InvalidContextType,
    /// The hash supplied is not the digest of the root's address.
    InvalidRootHash,
    /// A record is already stored at the address of the record to create.
    AddressInUse,
    /// The root's context counter is at the end of the 16-bit range.
    CounterOverflow,
    /// No record is stored at an address where the operation needs one.
    AccountNotInitialized,
    /// An address presented is not the one derived for that record.
    InvalidSeeds,
}

impl PrismError {
    /// The sentence that goes with each condition.
    pub open spec fn text(&self) -> Seq<char> {
        match self {
            PrismError::Unauthorized => "Unauthorized: You don't own this identity"@,
            PrismError::ContextMismatch => "Context mismatch: Context doesn't belong to this root"@,
            PrismError::ContextAlreadyRevoked => "Context already revoked"@,
            PrismError::ContextRevoked => "Context is revoked and cannot be used"@,
            PrismError::ExceedsTransactionLimit => "Amount exceeds transaction limit for this context"@,
            PrismError::SpendingOverflow => "Spending overflow: Total spent would exceed u64 max"@,
            PrismError::InvalidPrivacyLevel => "Invalid privacy level: Must be 0-4"@,
            PrismError::InvalidContextType => "Invalid context type: Must be 0-5"@,
            PrismError::InvalidRootHash => "Invalid root identity hash: Hash does not match root identity PDA"@,
            PrismError::AddressInUse => "Address in use: A record is already stored at the derived address"@,
            PrismError::CounterOverflow => "Counter overflow: The root identity cannot hold more contexts"@,
            PrismError::AccountNotInitialized => "Account not initialized: No record is stored at the address"@,
            PrismError::InvalidSeeds => "Invalid seeds: The address is not the one derived for the record"@,
        }
    }

    /// The sentence that goes with this condition.
    pub fn message(&self) -> (m: &'static str)
        ensures
            m@ == self.text(),
    {
        match self {
            PrismError::Unauthorized => "Unauthorized: You don't own this identity",
            PrismError::ContextMismatch => "Context mismatch: Context doesn't belong to this root",
            PrismError::ContextAlreadyRevoked => "Context already revoked",
            PrismError::ContextRevoked => "Context is revoked and cannot be used",
            PrismError::ExceedsTransactionLimit => "Amount exceeds transaction limit for this context",
            PrismError::SpendingOverflow => "Spending overflow: Total spent would exceed u64 max",
            PrismError::InvalidPrivacyLevel => "Invalid privacy level: Must be 0-4",
            PrismError::InvalidContextType => "Invalid context type: Must be 0-5",
            PrismError::InvalidRootHash => "Invalid root identity hash: Hash does not match root identity PDA",
            PrismError::AddressInUse => "Address in use: A record is already stored at the derived address",
            PrismError::CounterOverflow => "Counter overflow: The root identity cannot hold more contexts",
            PrismError::AccountNotInitialized => "Account not initialized: No record is stored at the address",
            PrismError::InvalidSeeds => "Invalid seeds: The address is not the one derived for the record",
        }
    }
}

} // verus!
