//! Creating contexts under a root, plain or encrypted, and revoking them.

use crate::accounts::{
    check_root, check_vacancy, find_next_context, find_stored_context, locate, located_refusal,
    next_context_address, root_refusal, stored_context_address, vacancy_refusal, ContextAccount,
    CreateContext, RevokeContext, RootAccount,
};
use crate::address::{bytes_equal, derived_view, sha256, zero_address, Address};
use crate::commitment::hash_root_identity;
use crate::derivation::{find_root_address, root_address};
use crate::error::PrismError;
use crate::records::{
    ContextCreated, ContextIdentity, ContextRevoked, RootIdentity, MAX_CONTEXT_TYPE,
};
use vstd::prelude::*;

verus! {

/// Why a context is not created, if it is not. The checks come in this order:
/// the root identity, the address of the new record, the context type, the
/// digest (`digest_matches`; always true for a plain context), the counter.
pub open spec fn creation_refusal(
    ctx: CreateContext,
    root_derived: Option<(Seq<u8>, u8)>,
    context_derived: Option<(Seq<u8>, u8)>,
    context_type: u8,
    digest_matches: bool,
) -> Option<PrismError> {
    let root = root_refusal(ctx.user, ctx.root_identity, root_derived, true);
    let vacancy = vacancy_refusal(
        ctx.context_identity.key,
        ctx.context_identity.data is Some,
        context_derived,
    );
    if root is Some {
        root
    } else if vacancy is Some {
        vacancy
    } else if context_type > MAX_CONTEXT_TYPE {
        Some(PrismError::InvalidContextType)
    } else if !digest_matches {
        Some(PrismError::InvalidRootHash)
    } else if ctx.root_identity.data->Some_0.context_count == u16::MAX {
        Some(PrismError::CounterOverflow)
    } else {
        None
    }
}

/// The accounts after a context was created with the given link to its root.
pub open spec fn after_creation(
    ctx: CreateContext,
    bump: u8,
    link: Address,
    digest: Option<[u8; 32]>,
    commitment: Option<[u8; 32]>,
    context_type: u8,
    max_per_transaction: u64,
    now: i64,
) -> CreateContext {
    let root = ctx.root_identity.data->Some_0;
    CreateContext {
        user: ctx.user,
        root_identity: RootAccount {
            key: ctx.root_identity.key,
            data: Some(
                RootIdentity { context_count: (root.context_count + 1) as u16, ..root },
            ),
        },
        context_identity: ContextAccount {
            key: ctx.context_identity.key,
            data: Some(
                ContextIdentity {
                    root_identity: link,
                    root_identity_hash: digest,
                    encryption_commitment: commitment,
                    context_type,
                    created_at: now,
                    max_per_transaction,
                    total_spent: 0,
                    revoked: false,
                    context_index: root.context_count,
                    bump,
                },
            ),
        },
    }
}

/// What is told of a context that was created.
pub open spec fn creation_event(
    ctx: CreateContext,
    context_type: u8,
    max_per_transaction: u64,
    now: i64,
) -> ContextCreated {
    ContextCreated {
        root_identity: ctx.root_identity.key,
        context_identity: ctx.context_identity.key,
        context_type,
        max_per_transaction,
        context_index: ctx.root_identity.data->Some_0.context_count,
        timestamp: now,
    }
}

/// The checks and the writes that both kinds of creation share.
fn create_linked(
    ctx: &mut CreateContext,
    root_derived: &Option<(Address, u8)>,
    context_derived: &Option<(Address, u8)>,
    context_type: u8,
    max_per_transaction: u64,
    digest_matches: bool,
    link: Address,
    digest: Option<[u8; 32]>,
    commitment: Option<[u8; 32]>,
    now: i64,
) -> (r: Result<ContextCreated, PrismError>)
    ensures
        match creation_refusal(
            *old(ctx),
            derived_view(*root_derived),
            derived_view(*context_derived),
            context_type,
            digest_matches,
        ) {
            Some(e) => r == Err::<ContextCreated, PrismError>(e) && *final(ctx) == *old(ctx),
            None => *context_derived matches Some((_, bump)) && *final(ctx) == after_creation(
                *old(ctx),
                bump,
                link,
                digest,
                commitment,
                context_type,
                max_per_transaction,
                now,
            ) && r == Ok::<ContextCreated, PrismError>(
                creation_event(*old(ctx), context_type, max_per_transaction, now),
            ),
        },
{
    let root = match check_root(&ctx.user, &ctx.root_identity, root_derived, true) {
        Ok(root) => root,
        Err(e) => {
            return Err(e);
        },
    };
    let occupied = ctx.context_identity.data.is_some();
    let bump = match check_vacancy(&ctx.context_identity.key, occupied, context_derived) {
        Ok(bump) => bump,
        Err(e) => {
            return Err(e);
        },
    };
    if context_type > MAX_CONTEXT_TYPE {
        return Err(PrismError::InvalidContextType);
    }
    if !digest_matches {
        return Err(PrismError::InvalidRootHash);
    }
    if root.context_count == u16::MAX {
        return Err(PrismError::CounterOverflow);
    }
    let index = root.context_count;
    ctx.context_identity.data = Some(
        ContextIdentity {
            root_identity: link,
            root_identity_hash: digest,
            encryption_commitment: commitment,
            context_type,
            created_at: now,
            max_per_transaction,
            total_spent: 0,
            revoked: false,
            context_index: index,
            bump,
        },
    );
    ctx.root_identity.data = Some(RootIdentity { context_count: index + 1, ..root });
    Ok(
        ContextCreated {
            root_identity: ctx.root_identity.key,
            context_identity: ctx.context_identity.key,
            context_type,
            max_per_transaction,
            context_index: index,
            timestamp: now,
        },
    )
}

/// Creates a plain context under the caller's root, given the derivation from
/// the caller's address and the derivation for the new record.
///
/// The new context names the root by its address, has spent nothing, is not
/// revoked, and takes the root's counter as its index; the counter goes up by
/// one. A refusal changes nothing.
pub fn create_context_at(
    ctx: &mut CreateContext,
    root_derived: &Option<(Address, u8)>,
    context_derived: &Option<(Address, u8)>,
    context_type: u8,
    max_per_transaction: u64,
    now: i64,
) -> (r: Result<ContextCreated, PrismError>)
    ensures
        match creation_refusal(
            *old(ctx),
            derived_view(*root_derived),
            derived_view(*context_derived),
            context_type,
            true,
        ) {
            Some(e) => r == Err::<ContextCreated, PrismError>(e) && *final(ctx) == *old(ctx),
            None => *context_derived matches Some((_, bump)) && *final(ctx) == after_creation(
                *old(ctx),
                bump,
                old(ctx).root_identity.key,
                None,
                None,
                context_type,
                max_per_transaction,
                now,
            ) && r == Ok::<ContextCreated, PrismError>(
                creation_event(*old(ctx), context_type, max_per_transaction, now),
            ),
        },
{
    let link = ctx.root_identity.key;
    create_linked(
        ctx,
        root_derived,
        context_derived,
        context_type,
        max_per_transaction,
        true,
        link,
        None,
        None,
        now,
    )
}

/// Creates a plain context under the caller's root.
///
/// Derives the root's address from the caller and the new record's address
/// from the root's address and counter, then does what `create_context_at`
/// does with the two.
pub fn create_context(
    ctx: &mut CreateContext,
    context_type: u8,
    max_per_transaction: u64,
    now: i64,
) -> (r: Result<ContextCreated, PrismError>)
    ensures
        match creation_refusal(
            *old(ctx),
            root_address(old(ctx).user@),
            next_context_address(old(ctx).root_identity),
            context_type,
            true,
        ) {
            Some(e) => r == Err::<ContextCreated, PrismError>(e) && *final(ctx) == *old(ctx),
            None => next_context_address(old(ctx).root_identity) matches Some((_, bump))
                && *final(ctx) == after_creation(
                *old(ctx),
                bump,
                old(ctx).root_identity.key,
                None,
                None,
                context_type,
                max_per_transaction,
                now,
            ) && r == Ok::<ContextCreated, PrismError>(
                creation_event(*old(ctx), context_type, max_per_transaction, now),
            ),
        },
{
    let root_derived = find_root_address(&ctx.user);
    let context_derived = find_next_context(&ctx.root_identity);
    create_context_at(ctx, &root_derived, &context_derived, context_type, max_per_transaction, now)
}

/// Creates an encrypted context under the caller's root, given the two
/// derivations and the digest of the root's address.
///
/// The digest supplied must be the digest given. The new context stores the
/// digest and the commitment, and the all-zero address in place of the
/// root's; the rest is as for a plain context. A refusal changes nothing.
pub fn create_context_encrypted_at(
    ctx: &mut CreateContext,
    root_derived: &Option<(Address, u8)>,
    context_derived: &Option<(Address, u8)>,
    root_digest: &[u8; 32],
    context_type: u8,
    max_per_transaction: u64,
    root_identity_hash: [u8; 32],
    encryption_commitment: [u8; 32],
    now: i64,
) -> (r: Result<ContextCreated, PrismError>)
    ensures
        match creation_refusal(
            *old(ctx),
            derived_view(*root_derived),
            derived_view(*context_derived),
            context_type,
            root_identity_hash@ == root_digest@,
        ) {
            Some(e) => r == Err::<ContextCreated, PrismError>(e) && *final(ctx) == *old(ctx),
            None => *context_derived matches Some((_, bump)) && *final(ctx) == after_creation(
                *old(ctx),
                bump,
                zero_address(),
                Some(root_identity_hash),
                Some(encryption_commitment),
                context_type,
                max_per_transaction,
                now,
            ) && r == Ok::<ContextCreated, PrismError>(
                creation_event(*old(ctx), context_type, max_per_transaction, now),
            ),
        },
{
    let digest_matches = bytes_equal(root_digest, &root_identity_hash);
    create_linked(
        ctx,
        root_derived,
        context_derived,
        context_type,
        max_per_transaction,
        digest_matches,
        Address::zero(),
        Some(root_identity_hash),
        Some(encryption_commitment),
        now,
    )
}

/// Creates an encrypted context under the caller's root.
///
/// Derives the two addresses as `create_context` does, computes the SHA-256
/// digest of the root's address, then does what `create_context_encrypted_at`
/// does with them: the context is created only if the digest supplied is that
/// digest.
pub fn create_context_encrypted(
    ctx: &mut CreateContext,
    context_type: u8,
    max_per_transaction: u64,
    root_identity_hash: [u8; 32],
    encryption_commitment: [u8; 32],
    now: i64,
) -> (r: Result<ContextCreated, PrismError>)
    ensures
        match creation_refusal(
            *old(ctx),
            root_address(old(ctx).user@),
            next_context_address(old(ctx).root_identity),
            context_type,
            root_identity_hash@ == sha256(old(ctx).root_identity.key@),
        ) {
            Some(e) => r == Err::<ContextCreated, PrismError>(e) && *final(ctx) == *old(ctx),
            None => next_context_address(old(ctx).root_identity) matches Some((_, bump))
                && *final(ctx) == after_creation(
                *old(ctx),
                bump,
                zero_address(),
                Some(root_identity_hash),
                Some(encryption_commitment),
                context_type,
                max_per_transaction,
                now,
            ) && r == Ok::<ContextCreated, PrismError>(
                creation_event(*old(ctx), context_type, max_per_transaction, now),
            ),
        },
{
    let root_derived = find_root_address(&ctx.user);
    let context_derived = find_next_context(&ctx.root_identity);
    let root_digest = hash_root_identity(&ctx.root_identity.key);
    create_context_encrypted_at(
        ctx,
        &root_derived,
        &context_derived,
        &root_digest,
        context_type,
        max_per_transaction,
        root_identity_hash,
        encryption_commitment,
        now,
    )
}

/// Why a context is not revoked, if it is not.
pub open spec fn revocation_refusal(
    ctx: RevokeContext,
    root_derived: Option<(Seq<u8>, u8)>,
    context_derived: Option<(Seq<u8>, u8)>,
) -> Option<PrismError> {
    let first = located_refusal(
        ctx.user,
        ctx.root_identity,
        ctx.context_identity,
        root_derived,
        context_derived,
        true,
    );
    if first is Some {
        first
    } else if ctx.context_identity.data->Some_0.revoked {
        Some(PrismError::ContextAlreadyRevoked)
    } else {
        None
    }
}

/// The accounts after the context was revoked: only the flag has changed.
pub open spec fn after_revocation(ctx: RevokeContext) -> RevokeContext {
    RevokeContext {
        context_identity: ContextAccount {
            key: ctx.context_identity.key,
            data: Some(ContextIdentity { revoked: true, ..ctx.context_identity.data->Some_0 }),
        },
        ..ctx
    }
}

/// What is told of a context that was revoked: the link it stores, its
/// address, its type and its final total.
pub open spec fn revocation_event(ctx: RevokeContext, now: i64) -> ContextRevoked {
    let record = ctx.context_identity.data->Some_0;
    ContextRevoked {
        root_identity: record.root_identity,
        context_identity: ctx.context_identity.key,
        context_type: record.context_type,
        total_spent: record.total_spent,
        timestamp: now,
    }
}

/// Revokes a context of the caller's root, given the derivation from the
/// caller's address and the derivation for the context.
///
/// Sets the flag and nothing else; a context that is revoked already is
/// refused. A refusal changes nothing.
pub fn revoke_context_at(
    ctx: &mut RevokeContext,
    root_derived: &Option<(Address, u8)>,
    context_derived: &Option<(Address, u8)>,
    now: i64,
) -> (r: Result<ContextRevoked, PrismError>)
    ensures
        match revocation_refusal(
            *old(ctx),
            derived_view(*root_derived),
            derived_view(*context_derived),
        ) {
            Some(e) => r == Err::<ContextRevoked, PrismError>(e) && *final(ctx) == *old(ctx),
            None => *final(ctx) == after_revocation(*old(ctx)) && r == Ok::<
                ContextRevoked,
                PrismError,
            >(revocation_event(*old(ctx), now)),
        },
{
    let record = match locate(
        &ctx.user,
        &ctx.root_identity,
        &ctx.context_identity,
        root_derived,
        context_derived,
        true,
    ) {
        Ok(record) => record,
        Err(e) => {
            return Err(e);
        },
    };
    if record.revoked {
        return Err(PrismError::ContextAlreadyRevoked);
    }
    ctx.context_identity.data = Some(ContextIdentity { revoked: true, ..record });
    Ok(
        ContextRevoked {
            root_identity: record.root_identity,
            context_identity: ctx.context_identity.key,
            context_type: record.context_type,
            total_spent: record.total_spent,
            timestamp: now,
        },
    )
}

/// Revokes a context of the caller's root.
///
/// Derives the root's address from the caller, and the context's from the
/// root's address and the context's index, then does what `revoke_context_at`
/// does with the two.
pub fn revoke_context(ctx: &mut RevokeContext, now: i64) -> (r: Result<ContextRevoked, PrismError>)
    ensures
        match revocation_refusal(
            *old(ctx),
            root_address(old(ctx).user@),
            stored_context_address(old(ctx).root_identity.key, old(ctx).context_identity),
        ) {
            Some(e) => r == Err::<ContextRevoked, PrismError>(e) && *final(ctx) == *old(ctx),
            None => *final(ctx) == after_revocation(*old(ctx)) && r == Ok::<
                ContextRevoked,
                PrismError,
            >(revocation_event(*old(ctx), now)),
        },
{
    let root_derived = find_root_address(&ctx.user);
    let context_derived = find_stored_context(&ctx.root_identity.key, &ctx.context_identity);
    revoke_context_at(ctx, &root_derived, &context_derived, now)
}

} // verus!
