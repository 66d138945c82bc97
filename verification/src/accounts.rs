//! The records an operation is handed, and the checks every operation makes
//! on them before it looks at its own arguments.
//!
//! An operation names the authenticated caller and the addresses it works on.
//! Each address comes with what is stored there, if anything. The address of a
//! stored record must be the one derived for it, with the bump kept in the
//! record; the address of a record to be created must be the derived one and
//! must be vacant.

use crate::address::{derived_view, Address};
use crate::derivation::{context_address, find_context_address};
use crate::error::PrismError;
use crate::records::{ContextIdentity, RootIdentity};
use vstd::prelude::*;

verus! {

/// An address and the root identity stored there, if one is.
#[derive(Clone, Copy, Debug, PartialEq, Eq)]
pub struct RootAccount {
    pub key: Address,
    pub data: Option<RootIdentity>,
}

/// An address and the context identity stored there, if one is.
#[derive(Clone, Copy, Debug, PartialEq, Eq)]
pub struct ContextAccount {
    pub key: Address,
    pub data: Option<ContextIdentity>,
}

/// What creating a root identity works on.
#[derive(Clone, Copy, Debug, PartialEq, Eq)]
pub struct CreateRootIdentity {
    /// The authenticated caller, who becomes the owner.
    pub user: Address,
    /// Where the new record goes.
    pub root_identity: RootAccount,
}

/// What creating a context, plain or encrypted, works on.
#[derive(Clone, Copy, Debug, PartialEq, Eq)]
pub struct CreateContext {
    /// The authenticated caller.
    pub user: Address,
    /// The caller's root identity.
    pub root_identity: RootAccount,
    /// Where the new record goes.
    pub context_identity: ContextAccount,
}

/// What revoking a context works on.
#[derive(Clone, Copy, Debug, PartialEq, Eq)]
pub struct RevokeContext {
    /// The authenticated caller.
    pub user: Address,
    /// The caller's root identity.
    pub root_identity: RootAccount,
    /// The context to revoke.
    pub context_identity: ContextAccount,
}

/// What verifying a commitment works on.
#[derive(Clone, Copy, Debug, PartialEq, Eq)]
pub struct VerifyCommitment {
    /// The context whose commitment is checked.
    pub context_identity: ContextAccount,
    /// The root the context is derived from.
    pub root_identity: RootAccount,
    /// The authenticated caller.
    pub user: Address,
}

/// What checking an amount against a context's ceiling works on.
#[derive(Clone, Copy, Debug, PartialEq, Eq)]
pub struct CheckSpendingLimit {
    /// The context to spend through.
    pub context_identity: ContextAccount,
    /// The root the context is derived from.
    pub root_identity: RootAccount,
    /// The authenticated caller.
    pub user: Address,
}

/// What recording an amount works on.
#[derive(Clone, Copy, Debug, PartialEq, Eq)]
pub struct RecordSpending {
    /// The authenticated caller.
    pub user: Address,
    /// The caller's root identity.
    pub root_identity: RootAccount,
    /// The context spent through.
    pub context_identity: ContextAccount,
}

/// What overwriting a privacy level works on.
#[derive(Clone, Copy, Debug, PartialEq, Eq)]
pub struct UpdatePrivacyLevel {
    /// The authenticated caller.
    pub user: Address,
    /// The caller's root identity.
    pub root_identity: RootAccount,
}

/// Why a stored root identity is not accepted, if it is not. `derived` is the
/// derivation from the caller's address. With `owned`, the record's owner
/// must be the caller.
pub open spec fn root_refusal(
    user: Address,
    root: RootAccount,
    derived: Option<(Seq<u8>, u8)>,
    owned: bool,
) -> Option<PrismError> {
    match root.data {
        None => Some(PrismError::AccountNotInitialized),
        Some(record) => if derived != Some((root.key@, record.bump)) {
            Some(PrismError::InvalidSeeds)
        } else if owned && record.owner@ != user@ {
            Some(PrismError::Unauthorized)
        } else {
            None
        },
    }
}

/// Why a stored context identity is not accepted, if it is not. `derived` is
/// the derivation from the root's address and the record's own index. With
/// `linked`, a plain context must name the root presented.
pub open spec fn context_refusal(
    root_key: Address,
    context: ContextAccount,
    derived: Option<(Seq<u8>, u8)>,
    linked: bool,
) -> Option<PrismError> {
    match context.data {
        None => Some(PrismError::AccountNotInitialized),
        Some(record) => if derived != Some((context.key@, record.bump)) {
            Some(PrismError::InvalidSeeds)
        } else if linked && !record.is_encrypted() && record.root_identity@ != root_key@ {
            Some(PrismError::ContextMismatch)
        } else {
            None
        },
    }
}

/// Why a record cannot be created at an address, if it cannot. `derived` is
/// the derivation for the new record.
pub open spec fn vacancy_refusal(
    key: Address,
    occupied: bool,
    derived: Option<(Seq<u8>, u8)>,
) -> Option<PrismError> {
    match derived {
        None => Some(PrismError::InvalidSeeds),
        Some((address, _)) => if address != key@ {
            Some(PrismError::InvalidSeeds)
        } else if occupied {
            Some(PrismError::AddressInUse)
        } else {
            None
        },
    }
}

/// Whether a derivation gave this address with this bump.
pub fn derived_is(derived: &Option<(Address, u8)>, key: &Address, bump: u8) -> (r: bool)
    ensures
        r == (derived_view(*derived) == Some((key@, bump))),
{
    match derived {
        None => false,
        Some((address, found)) => address.same(key) && *found == bump,
    }
}

/// Checks a stored root identity against the caller and the derivation from
/// the caller's address.
pub fn check_root(
    user: &Address,
    root: &RootAccount,
    derived: &Option<(Address, u8)>,
    owned: bool,
) -> (r: Result<RootIdentity, PrismError>)
    ensures
        match root_refusal(*user, *root, derived_view(*derived), owned) {
            Some(e) => r == Err::<RootIdentity, PrismError>(e),
            None => root.data is Some && r == Ok::<RootIdentity, PrismError>(root.data->0),
        },
{
    match root.data {
        None => Err(PrismError::AccountNotInitialized),
        Some(record) => {
            if !derived_is(derived, &root.key, record.bump) {
                Err(PrismError::InvalidSeeds)
            } else if owned && !record.owner.same(user) {
                Err(PrismError::Unauthorized)
            } else {
                Ok(record)
            }
        },
    }
}

/// Checks a stored context identity against the root presented and the
/// derivation from the root's address and the record's index.
pub fn check_context(
    root_key: &Address,
    context: &ContextAccount,
    derived: &Option<(Address, u8)>,
    linked: bool,
) -> (r: Result<ContextIdentity, PrismError>)
    ensures
        match context_refusal(*root_key, *context, derived_view(*derived), linked) {
            Some(e) => r == Err::<ContextIdentity, PrismError>(e),
            None => context.data is Some && r == Ok::<ContextIdentity, PrismError>(
                context.data->0,
            ),
        },
{
    match context.data {
        None => Err(PrismError::AccountNotInitialized),
        Some(record) => {
            if !derived_is(derived, &context.key, record.bump) {
                Err(PrismError::InvalidSeeds)
            } else if linked && record.root_identity_hash.is_none()
                && !record.root_identity.same(root_key) {
                Err(PrismError::ContextMismatch)
            } else {
                Ok(record)
            }
        },
    }
}

/// Checks the address of a record to be created: it must be the derived one
/// and vacant. Gives the bump of the derivation.
pub fn check_vacancy(key: &Address, occupied: bool, derived: &Option<(Address, u8)>) -> (r: Result<
    u8,
    PrismError,
>)
    ensures
        match vacancy_refusal(*key, occupied, derived_view(*derived)) {
            Some(e) => r == Err::<u8, PrismError>(e),
            None => *derived matches Some((_, bump)) && r == Ok::<u8, PrismError>(bump),
        },
{
    match derived {
        None => Err(PrismError::InvalidSeeds),
        Some((address, bump)) => {
            if !address.same(key) {
                Err(PrismError::InvalidSeeds)
            } else if occupied {
                Err(PrismError::AddressInUse)
            } else {
                Ok(*bump)
            }
        },
    }
}

/// The derivation for the next context of a root: from the root's address and
/// its counter. `None` where no root identity is stored.
pub open spec fn next_context_address(root: RootAccount) -> Option<(Seq<u8>, u8)> {
    match root.data {
        Some(record) => context_address(root.key@, record.context_count),
        None => None,
    }
}

/// The derivation for a stored context: from the root's address and the
/// context's own index. `None` where no context identity is stored.
pub open spec fn stored_context_address(root_key: Address, context: ContextAccount) -> Option<
    (Seq<u8>, u8),
> {
    match context.data {
        Some(record) => context_address(root_key@, record.context_index),
        None => None,
    }
}

/// Derives the address of the next context of a root, where a root identity
/// is stored.
pub fn find_next_context(root: &RootAccount) -> (found: Option<(Address, u8)>)
    ensures
        derived_view(found) == next_context_address(*root),
{
    match root.data {
        Some(record) => find_context_address(&root.key, record.context_count),
        None => None,
    }
}

/// Derives the address of a stored context from the root's address and the
/// context's own index, where a context identity is stored.
pub fn find_stored_context(root_key: &Address, context: &ContextAccount) -> (found: Option<
    (Address, u8),
>)
    ensures
        derived_view(found) == stored_context_address(*root_key, *context),
{
    match context.data {
        Some(record) => find_context_address(root_key, record.context_index),
        None => None,
    }
}

/// Why an operation on a stored context is refused before it looks at the
/// context's state, if it is: first the root identity, then the context.
/// With `authorised`, the caller must own the root and a plain context must
/// name it.
pub open spec fn located_refusal(
    user: Address,
    root: RootAccount,
    context: ContextAccount,
    root_derived: Option<(Seq<u8>, u8)>,
    context_derived: Option<(Seq<u8>, u8)>,
    authorised: bool,
) -> Option<PrismError> {
    let first = root_refusal(user, root, root_derived, authorised);
    if first is Some {
        first
    } else {
        context_refusal(root.key, context, context_derived, authorised)
    }
}

/// Checks the root identity and then the context of an operation on a stored
/// context, and gives the context identity that is stored.
pub fn locate(
    user: &Address,
    root: &RootAccount,
    context: &ContextAccount,
    root_derived: &Option<(Address, u8)>,
    context_derived: &Option<(Address, u8)>,
    authorised: bool,
) -> (r: Result<ContextIdentity, PrismError>)
    ensures
        match located_refusal(
            *user,
            *root,
            *context,
            derived_view(*root_derived),
            derived_view(*context_derived),
            authorised,
        ) {
            Some(e) => r == Err::<ContextIdentity, PrismError>(e),
            None => context.data is Some && r == Ok::<ContextIdentity, PrismError>(
                context.data->Some_0,
            ),
        },
{
    match check_root(user, root, root_derived, authorised) {
        Ok(_) => check_context(&root.key, context, context_derived, authorised),
        Err(e) => Err(e),
    }
}

} // verus!
