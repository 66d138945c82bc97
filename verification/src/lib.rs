//! Compartmentalised identities: one root identity per owner, and disposable
//! context identities derived from it, each with a spending ceiling, a running
//! total and a one-way revocation flag.

pub mod accounts;
pub mod address;
pub mod commitment;
pub mod context;
pub mod derivation;
pub mod error;
pub mod laws;
pub mod records;
pub mod registry;
pub mod spending;

pub use accounts::{
    CheckSpendingLimit, ContextAccount, CreateContext, CreateRootIdentity, RecordSpending,
    RevokeContext, RootAccount, UpdatePrivacyLevel, VerifyCommitment,
};
pub use address::Address;
pub use commitment::{hash_root_identity, verify_commitment, verify_commitment_at};
pub use context::{
    create_context, create_context_at, create_context_encrypted, create_context_encrypted_at,
    revoke_context, revoke_context_at,
};
pub use derivation::{find_context_address, find_root_address, PROGRAM_ID};
pub use error::PrismError;
pub use records::{
    ContextCreated, ContextIdentity, ContextRevoked, ContextType, PrivacyLevel,
    PrivacyLevelUpdated, RootIdentity, RootIdentityCreated, SpendingRecorded,
};
pub use registry::{
    create_root_identity, create_root_identity_at, update_privacy_level, update_privacy_level_at,
};
pub use spending::{
    check_spending_limit, check_spending_limit_at, record_spending, record_spending_at,
};
