//! The two persistent records, the enumerations that name their small integer
//! fields, and the notifications the operations hand back.

use crate::address::{zero_address, Address};
use vstd::prelude::*;

verus! {

/// The highest privacy level a root identity can have.
pub const MAX_PRIVACY_LEVEL: u8 = 4;

/// The highest context type a context identity can have.
pub const MAX_CONTEXT_TYPE: u8 = 5;

/// The one long-lived identity of an owner.
#[derive(Clone, Copy, Debug, PartialEq, Eq)]
pub struct RootIdentity {
    /// The principal that owns this identity.
    pub owner: Address,
    /// When the record was created.
    pub created_at: i64,
    /// 0 is maximum anonymity, 4 is fully public.
    pub privacy_level: u8,
    /// How many contexts were created under this root; the next context's index.
    pub context_count: u16,
    /// The bump found when the record's address was derived.
    pub bump: u8,
}

impl RootIdentity {
    /// Bytes a stored root identity takes: an 8-byte header, the owner, the
    /// creation time, the privacy level, the counter and the bump.
    pub const SIZE: usize = 8 + 32 + 8 + 1 + 2 + 1;

    /// What holds of every stored root identity.
    pub open spec fn wf(&self) -> bool {
        self.privacy_level <= MAX_PRIVACY_LEVEL
    }
}

/// A disposable identity derived from a root.
///
/// Its link to the root is either the root's address (a plain context) or a
/// digest of that address with a commitment (an encrypted context), never both.
#[derive(Clone, Copy, Debug, PartialEq, Eq)]
pub struct ContextIdentity {
    /// The root's address; all zero in an encrypted context.
    pub root_identity: Address,
    /// The digest of the root's address, in an encrypted context.
    pub root_identity_hash: Option<[u8; 32]>,
    /// The commitment stored at creation, in an encrypted context.
    pub encryption_commitment: Option<[u8; 32]>,
    /// 0 to 5; see `ContextType`.
    pub context_type: u8,
    /// When the record was created.
    pub created_at: i64,
    /// The ceiling for one transaction.
    pub max_per_transaction: u64,
    /// The sum of all amounts recorded so far.
    pub total_spent: u64,
    /// Whether the context was revoked; never reset.
    pub revoked: bool,
    /// The root's context counter at the moment of creation.
    pub context_index: u16,
    /// The bump found when the record's address was derived.
    pub bump: u8,
}

impl ContextIdentity {
    /// Bytes a stored context identity takes: an 8-byte header, the root's
    /// address, the optional digest and commitment with one flag byte each,
    /// the type, the creation time, the ceiling, the total, the revocation
    /// flag, the index and the bump.
    pub const SIZE: usize = 8 + 32 + 33 + 33 + 1 + 8 + 8 + 8 + 1 + 2 + 1;

    /// Whether the link to the root is a digest and a commitment.
    pub open spec fn is_encrypted(&self) -> bool {
        self.root_identity_hash is Some
    }

    /// What holds of every stored context identity.
    pub open spec fn wf(&self) -> bool {
        &&& self.context_type <= MAX_CONTEXT_TYPE
        &&& self.root_identity_hash is Some <==> self.encryption_commitment is Some
        &&& self.root_identity_hash is Some ==> self.root_identity == zero_address()
    }
}

/// What a context is used for.
#[derive(Clone, Copy, Debug, PartialEq, Eq, Structural)]
pub enum ContextType {
    DeFi,
    Social,
    Gaming,
    Professional,
    Temporary,
    Public,
}

impl ContextType {
    /// The number stored for this type.
    pub open spec fn spec_code(&self) -> u8 {
        match self {
            ContextType::DeFi => 0,
            ContextType::Social => 1,
            ContextType::Gaming => 2,
            ContextType::Professional => 3,
            ContextType::Temporary => 4,
            ContextType::Public => 5,
        }
    }

    /// The number stored for this type.
    pub fn code(&self) -> (c: u8)
        ensures
            c == self.spec_code(),
            c <= MAX_CONTEXT_TYPE,
    {
        match self {
            ContextType::DeFi => 0,
            ContextType::Social => 1,
            ContextType::Gaming => 2,
            ContextType::Professional => 3,
            ContextType::Temporary => 4,
            ContextType::Public => 5,
        }
    }

    /// The type a stored number stands for, if it stands for one.
    pub fn from_code(code: u8) -> (t: Option<ContextType>)
        ensures
            t is Some <==> code <= MAX_CONTEXT_TYPE,
            t matches Some(ty) ==> ty.spec_code() == code,
    {
        match code {
            0 => Some(ContextType::DeFi),
            1 => Some(ContextType::Social),
            2 => Some(ContextType::Gaming),
            3 => Some(ContextType::Professional),
            4 => Some(ContextType::Temporary),
            5 => Some(ContextType::Public),
            _ => None,
        }
    }
}

/// How much of a root identity is disclosed.
#[derive(Clone, Copy, Debug, PartialEq, Eq, Structural)]
pub enum PrivacyLevel {
    Maximum,
    High,
    Medium,
    Low,
    Public,
}

impl PrivacyLevel {
    /// The number stored for this level.
    pub open spec fn spec_code(&self) -> u8 {
        match self {
            PrivacyLevel::Maximum => 0,
            PrivacyLevel::High => 1,
            PrivacyLevel::Medium => 2,
            PrivacyLevel::Low => 3,
            PrivacyLevel::Public => 4,
        }
    }

    /// The number stored for this level.
    pub fn code(&self) -> (c: u8)
        ensures
            c == self.spec_code(),
            c <= MAX_PRIVACY_LEVEL,
    {
        match self {
            PrivacyLevel::Maximum => 0,
            PrivacyLevel::High => 1,
            PrivacyLevel::Medium => 2,
            PrivacyLevel::Low => 3,
            PrivacyLevel::Public => 4,
        }
    }

    /// The level a stored number stands for, if it stands for one.
    pub fn from_code(code: u8) -> (l: Option<PrivacyLevel>)
        ensures
            l is Some <==> code <= MAX_PRIVACY_LEVEL,
            l matches Some(level) ==> level.spec_code() == code,
    {
        match code {
            0 => Some(PrivacyLevel::Maximum),
            1 => Some(PrivacyLevel::High),
            2 => Some(PrivacyLevel::Medium),
            3 => Some(PrivacyLevel::Low),
            4 => Some(PrivacyLevel::Public),
            _ => None,
        }
    }
}

/// Told when a root identity was created.
#[derive(Clone, Copy, Debug, PartialEq, Eq)]
pub struct RootIdentityCreated {
    pub owner: Address,
    pub privacy_level: u8,
    pub timestamp: i64,
}

/// Told when a context was created, plain or encrypted.
#[derive(Clone, Copy, Debug, PartialEq, Eq)]
pub struct ContextCreated {
    pub root_identity: Address,
    pub context_identity: Address,
    pub context_type: u8,
    pub max_per_transaction: u64,
    pub context_index: u16,
    pub timestamp: i64,
}

/// Told when a context was revoked. `root_identity` is what the context
/// stores: all zero for an encrypted context.
#[derive(Clone, Copy, Debug, PartialEq, Eq)]
pub struct ContextRevoked {
    pub root_identity: Address,
    pub context_identity: Address,
    pub context_type: u8,
    pub total_spent: u64,
    pub timestamp: i64,
}

/// Told when an amount was added to a context's running total.
#[derive(Clone, Copy, Debug, PartialEq, Eq)]
pub struct SpendingRecorded {
    pub context_identity: Address,
    pub amount: u64,
    pub total_spent: u64,
    pub timestamp: i64,
}

/// Told when a root identity's privacy level was overwritten.
#[derive(Clone, Copy, Debug, PartialEq, Eq)]
pub struct PrivacyLevelUpdated {
    pub root_identity: Address,
    pub old_level: u8,
    pub new_level: u8,
    pub timestamp: i64,
}

} // verus!
