//! The digest that links an encrypted context to its root, and the check of a
//! commitment against the one a context stores.

use crate::accounts::{
    find_stored_context, locate, located_refusal, stored_context_address, ContextAccount,
    VerifyCommitment,
};
use crate::address::{bytes_equal, derived_view, digest_of, sha256, Address};
use crate::derivation::{find_root_address, root_address};
use crate::error::PrismError;
use vstd::prelude::*;

verus! {

/// The SHA-256 digest of a root identity's address.
pub fn hash_root_identity(root: &Address) -> (digest: [u8; 32])
    ensures
        digest@ == sha256(root@),
{
    digest_of(&root.bytes)
}

/// Why a commitment is not looked at, if it is not: the root identity and
/// the context must be stored where they are derived. Nobody has to own them.
pub open spec fn verification_refusal(
    ctx: VerifyCommitment,
    root_derived: Option<(Seq<u8>, u8)>,
    context_derived: Option<(Seq<u8>, u8)>,
) -> Option<PrismError> {
    located_refusal(
        ctx.user,
        ctx.root_identity,
        ctx.context_identity,
        root_derived,
        context_derived,
        false,
    )
}

/// Whether a commitment and a binding key are the ones of a context: the
/// context stores a commitment, the commitment is that one, and the binding
/// key is the context's own address.
pub open spec fn commitment_holds(
    context: ContextAccount,
    commitment: [u8; 32],
    binding_key: Address,
) -> bool {
    match context.data {
        Some(record) => match record.encryption_commitment {
            Some(stored) => stored@ == commitment@ && binding_key@ == context.key@,
            None => false,
        },
        None => false,
    }
}

/// Checks a commitment and a binding key against a context, given the
/// derivation from the caller's address and the derivation for the context.
/// Changes nothing. A context without a commitment gives `false`, not an
/// error.
pub fn verify_commitment_at(
    ctx: &VerifyCommitment,
    root_derived: &Option<(Address, u8)>,
    context_derived: &Option<(Address, u8)>,
    commitment: [u8; 32],
    binding_key: Address,
) -> (r: Result<bool, PrismError>)
    ensures
        match verification_refusal(
            *ctx,
            derived_view(*root_derived),
            derived_view(*context_derived),
        ) {
            Some(e) => r == Err::<bool, PrismError>(e),
            None => r == Ok::<bool, PrismError>(
                commitment_holds(ctx.context_identity, commitment, binding_key),
            ),
        },
{
    let record = match locate(
        &ctx.user,
        &ctx.root_identity,
        &ctx.context_identity,
        root_derived,
        context_derived,
        false,
    ) {
        Ok(record) => record,
        Err(e) => {
            return Err(e);
        },
    };
    match record.encryption_commitment {
        Some(stored) => Ok(
            bytes_equal(&stored, &commitment) && binding_key.same(&ctx.context_identity.key),
        ),
        None => Ok(false),
    }
}

/// Checks a commitment and a binding key against a context.
///
/// Derives the two addresses, then does what `verify_commitment_at` does
/// with them.
pub fn verify_commitment(ctx: &VerifyCommitment, commitment: [u8; 32], binding_key: Address) -> (r:
    Result<bool, PrismError>)
    ensures
        match verification_refusal(
            *ctx,
            root_address(ctx.user@),
            stored_context_address(ctx.root_identity.key, ctx.context_identity),
        ) {
            Some(e) => r == Err::<bool, PrismError>(e),
            None => r == Ok::<bool, PrismError>(
                commitment_holds(ctx.context_identity, commitment, binding_key),
            ),
        },
{
    let root_derived = find_root_address(&ctx.user);
    let context_derived = find_stored_context(&ctx.root_identity.key, &ctx.context_identity);
    verify_commitment_at(ctx, &root_derived, &context_derived, commitment, binding_key)
}

} // verus!
