//! Root identities: creating the one of an owner, and overwriting its privacy
//! level.

use crate::accounts::{
    check_root, check_vacancy, root_refusal, vacancy_refusal, CreateRootIdentity, RootAccount,
    UpdatePrivacyLevel,
};
use crate::address::{derived_view, Address};
use crate::derivation::{find_root_address, root_address};
use crate::error::PrismError;
use crate::records::{PrivacyLevelUpdated, RootIdentity, RootIdentityCreated, MAX_PRIVACY_LEVEL};
use vstd::prelude::*;

verus! {

/// Why a root identity is not created, if it is not: the address of the new
/// record comes first, then the privacy level.
pub open spec fn root_creation_refusal(
    ctx: CreateRootIdentity,
    derived: Option<(Seq<u8>, u8)>,
    privacy_level: u8,
) -> Option<PrismError> {
    let vacancy = vacancy_refusal(ctx.root_identity.key, ctx.root_identity.data is Some, derived);
    if vacancy is Some {
        vacancy
    } else if privacy_level > MAX_PRIVACY_LEVEL {
        Some(PrismError::InvalidPrivacyLevel)
    } else {
        None
    }
}

/// The accounts after the caller's root identity was created.
pub open spec fn after_root_creation(
    ctx: CreateRootIdentity,
    bump: u8,
    privacy_level: u8,
    now: i64,
) -> CreateRootIdentity {
    CreateRootIdentity {
        user: ctx.user,
        root_identity: RootAccount {
            key: ctx.root_identity.key,
            data: Some(
                RootIdentity {
                    owner: ctx.user,
                    created_at: now,
                    privacy_level,
                    context_count: 0,
                    bump,
                },
            ),
        },
    }
}

/// Creates the caller's root identity, given the derivation from the
/// caller's address.
///
/// The new record is owned by the caller and has no contexts. A refusal
/// changes nothing.
pub fn create_root_identity_at(
    ctx: &mut CreateRootIdentity,
    derived: &Option<(Address, u8)>,
    privacy_level: u8,
    now: i64,
) -> (r: Result<RootIdentityCreated, PrismError>)
    ensures
        match root_creation_refusal(*old(ctx), derived_view(*derived), privacy_level) {
            Some(e) => r == Err::<RootIdentityCreated, PrismError>(e) && *final(ctx) == *old(ctx),
            None => *derived matches Some((_, bump)) && *final(ctx) == after_root_creation(
                *old(ctx),
                bump,
                privacy_level,
                now,
            ) && r == Ok::<RootIdentityCreated, PrismError>(
                RootIdentityCreated { owner: old(ctx).user, privacy_level, timestamp: now },
            ),
        },
{
    let occupied = ctx.root_identity.data.is_some();
    let bump = match check_vacancy(&ctx.root_identity.key, occupied, derived) {
        Ok(bump) => bump,
        Err(e) => {
            return Err(e);
        },
    };
    if privacy_level > MAX_PRIVACY_LEVEL {
        return Err(PrismError::InvalidPrivacyLevel);
    }
    ctx.root_identity.data = Some(
        RootIdentity { owner: ctx.user, created_at: now, privacy_level, context_count: 0, bump },
    );
    Ok(RootIdentityCreated { owner: ctx.user, privacy_level, timestamp: now })
}

/// Creates the caller's root identity.
///
/// Derives the record's address from the caller's, then does what
/// `create_root_identity_at` does with it.
pub fn create_root_identity(ctx: &mut CreateRootIdentity, privacy_level: u8, now: i64) -> (r: Result<
    RootIdentityCreated,
    PrismError,
>)
    ensures
        match root_creation_refusal(*old(ctx), root_address(old(ctx).user@), privacy_level) {
            Some(e) => r == Err::<RootIdentityCreated, PrismError>(e) && *final(ctx) == *old(ctx),
            None => root_address(old(ctx).user@) matches Some((_, bump)) && *final(ctx)
                == after_root_creation(*old(ctx), bump, privacy_level, now) && r == Ok::<
                RootIdentityCreated,
                PrismError,
            >(RootIdentityCreated { owner: old(ctx).user, privacy_level, timestamp: now }),
        },
{
    let derived = find_root_address(&ctx.user);
    create_root_identity_at(ctx, &derived, privacy_level, now)
}

/// Why a privacy level is not overwritten, if it is not: the root identity
/// comes first, then the new level.
pub open spec fn update_refusal(
    ctx: UpdatePrivacyLevel,
    derived: Option<(Seq<u8>, u8)>,
    new_privacy_level: u8,
) -> Option<PrismError> {
    let first = root_refusal(ctx.user, ctx.root_identity, derived, true);
    if first is Some {
        first
    } else if new_privacy_level > MAX_PRIVACY_LEVEL {
        Some(PrismError::InvalidPrivacyLevel)
    } else {
        None
    }
}

/// The accounts after the privacy level was overwritten: nothing else has
/// changed.
pub open spec fn after_update(ctx: UpdatePrivacyLevel, new_privacy_level: u8) -> UpdatePrivacyLevel {
    UpdatePrivacyLevel {
        user: ctx.user,
        root_identity: RootAccount {
            key: ctx.root_identity.key,
            data: Some(
                RootIdentity { privacy_level: new_privacy_level, ..ctx.root_identity.data->Some_0 },
            ),
        },
    }
}

/// What is told of a privacy level that was overwritten.
pub open spec fn update_event(
    ctx: UpdatePrivacyLevel,
    new_privacy_level: u8,
    now: i64,
) -> PrivacyLevelUpdated {
    PrivacyLevelUpdated {
        root_identity: ctx.root_identity.key,
        old_level: ctx.root_identity.data->Some_0.privacy_level,
        new_level: new_privacy_level,
        timestamp: now,
    }
}

/// Overwrites the privacy level of the caller's root identity, given the
/// derivation from the caller's address. A refusal changes nothing.
pub fn update_privacy_level_at(
    ctx: &mut UpdatePrivacyLevel,
    derived: &Option<(Address, u8)>,
    new_privacy_level: u8,
    now: i64,
) -> (r: Result<PrivacyLevelUpdated, PrismError>)
    ensures
        match update_refusal(*old(ctx), derived_view(*derived), new_privacy_level) {
            Some(e) => r == Err::<PrivacyLevelUpdated, PrismError>(e) && *final(ctx) == *old(ctx),
            None => *final(ctx) == after_update(*old(ctx), new_privacy_level) && r == Ok::<
                PrivacyLevelUpdated,
                PrismError,
            >(update_event(*old(ctx), new_privacy_level, now)),
        },
{
    let root = match check_root(&ctx.user, &ctx.root_identity, derived, true) {
        Ok(root) => root,
        Err(e) => {
            return Err(e);
        },
    };
    if new_privacy_level > MAX_PRIVACY_LEVEL {
        return Err(PrismError::InvalidPrivacyLevel);
    }
    ctx.root_identity.data = Some(RootIdentity { privacy_level: new_privacy_level, ..root });
    Ok(
        PrivacyLevelUpdated {
            root_identity: ctx.root_identity.key,
            old_level: root.privacy_level,
            new_level: new_privacy_level,
            timestamp: now,
        },
    )
}

/// Overwrites the privacy level of the caller's root identity.
///
/// Derives the record's address from the caller's, then does what
/// `update_privacy_level_at` does with it.
pub fn update_privacy_level(ctx: &mut UpdatePrivacyLevel, new_privacy_level: u8, now: i64) -> (r:
    Result<PrivacyLevelUpdated, PrismError>)
    ensures
        match update_refusal(*old(ctx), root_address(old(ctx).user@), new_privacy_level) {
            Some(e) => r == Err::<PrivacyLevelUpdated, PrismError>(e) && *final(ctx) == *old(ctx),
            None => *final(ctx) == after_update(*old(ctx), new_privacy_level) && r == Ok::<
                PrivacyLevelUpdated,
                PrismError,
            >(update_event(*old(ctx), new_privacy_level, now)),
        },
{
    let derived = find_root_address(&ctx.user);
    update_privacy_level_at(ctx, &derived, new_privacy_level, now)
}

} // verus!
