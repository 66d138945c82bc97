//! What holds across operations, proved from the operations' own contracts.
//!
//! Every statement here is over the functions that the contracts use: the
//! refusal of an operation, and the accounts after it. A derivation is a
//! parameter wherever the statement holds whatever the derivation gave.

use crate::accounts::{
    located_refusal, next_context_address, CheckSpendingLimit, ContextAccount, CreateContext,
    CreateRootIdentity, RecordSpending, RevokeContext, RootAccount, UpdatePrivacyLevel,
};
use crate::address::{sha256, zero_address, Address};
use crate::commitment::commitment_holds;
use crate::context::{after_creation, after_revocation, creation_refusal, revocation_refusal};
use crate::derivation::root_address;
use crate::error::PrismError;
use crate::records::MAX_PRIVACY_LEVEL;
use crate::registry::{after_root_creation, after_update, root_creation_refusal, update_refusal};
use crate::spending::{after_recording, check_refusal, recording_refusal};
use vstd::prelude::*;

verus! {

/// A root identity is created once. Where the address presented is the one
/// derived for the caller and nothing is stored there, creation with a
/// privacy level of at most 4 is accepted; on the accounts it leaves, a second
/// creation is refused because the address is in use, whatever level it asks
/// for.
pub proof fn root_identity_is_created_once(
    ctx: CreateRootIdentity,
    derived: Option<(Seq<u8>, u8)>,
    privacy_level: u8,
    now: i64,
    second_level: u8,
)
    requires
        privacy_level <= MAX_PRIVACY_LEVEL,
        ctx.root_identity.data is None,
        derived matches Some((address, _)) && address == ctx.root_identity.key@,
    ensures
        root_creation_refusal(ctx, derived, privacy_level) is None,
        root_creation_refusal(
            after_root_creation(ctx, derived->Some_0.1, privacy_level, now),
            derived,
            second_level,
        ) == Some(PrismError::AddressInUse),
{
}

/// One creation of a context under a root, plain or encrypted: the account
/// presented for the new record and the arguments of the call.
pub struct Creation {
    /// The account presented for the new record.
    pub context_identity: ContextAccount,
    pub context_type: u8,
    pub max_per_transaction: u64,
    /// The digest and the commitment of an encrypted creation.
    pub encrypted: Option<([u8; 32], [u8; 32])>,
    pub now: i64,
}

/// The accounts that a creation leaves when it is called on a root account by
/// a caller, if it is accepted.
pub open spec fn creation_step(user: Address, root: RootAccount, call: Creation) -> Option<
    CreateContext,
> {
    let ctx = CreateContext {
        user,
        root_identity: root,
        context_identity: call.context_identity,
    };
    let refusal = creation_refusal(
        ctx,
        root_address(user@),
        next_context_address(root),
        call.context_type,
        match call.encrypted {
            Some((digest, _)) => digest@ == sha256(root.key@),
            None => true,
        },
    );
    if refusal is Some {
        None
    } else {
        let bump = next_context_address(root)->Some_0.1;
        Some(
            match call.encrypted {
                Some((digest, commitment)) => after_creation(
                    ctx,
                    bump,
                    zero_address(),
                    Some(digest),
                    Some(commitment),
                    call.context_type,
                    call.max_per_transaction,
                    call.now,
                ),
                None => after_creation(
                    ctx,
                    bump,
                    root.key,
                    None,
                    None,
                    call.context_type,
                    call.max_per_transaction,
                    call.now,
                ),
            },
        )
    }
}

/// The root account after a sequence of creations by one caller, each called
/// on the root account that the one before it left.
pub open spec fn root_after(user: Address, root: RootAccount, calls: Seq<Creation>) -> RootAccount
    decreases calls.len(),
{
    if calls.len() == 0 {
        root
    } else {
        let before = root_after(user, root, calls.drop_last());
        match creation_step(user, before, calls.last()) {
            Some(after) => after.root_identity,
            None => before,
        }
    }
}

/// The indices of the contexts that a sequence of creations made, in the
/// order of the calls.
pub open spec fn indices_assigned(user: Address, root: RootAccount, calls: Seq<Creation>) -> Seq<
    u16,
>
    decreases calls.len(),
{
    if calls.len() == 0 {
        Seq::empty()
    } else {
        let before = root_after(user, root, calls.drop_last());
        let earlier = indices_assigned(user, root, calls.drop_last());
        match creation_step(user, before, calls.last()) {
            Some(after) => earlier.push(after.context_identity.data->Some_0.context_index),
            None => earlier,
        }
    }
}

/// Contexts are numbered in the order of their creation. Over any sequence of
/// creations under one root, the accepted ones get the indices that follow
/// the root's counter one by one, and the counter ends as its start plus the
/// number of accepted creations. From a root identity that was just created
/// the indices are 0, 1, 2 and so on, and the counter is their number.
pub proof fn context_indices_count_up(user: Address, root: RootAccount, calls: Seq<Creation>)
    ensures
        root_after(user, root, calls).key == root.key,
        root.data is None ==> root_after(user, root, calls) == root && indices_assigned(
            user,
            root,
            calls,
        ).len() == 0,
        root.data matches Some(start) ==> {
            let made = indices_assigned(user, root, calls);
            &&& root_after(user, root, calls).data matches Some(end) && end.context_count
                == start.context_count + made.len()
            &&& forall|i: int| 0 <= i < made.len() ==> made[i] == start.context_count + i
        },
        root.data matches Some(start) && start.context_count == 0 ==> {
            let made = indices_assigned(user, root, calls);
            &&& root_after(user, root, calls).data->Some_0.context_count == made.len()
            &&& forall|i: int| 0 <= i < made.len() ==> made[i] == i
        },
    decreases calls.len(),
{
    if calls.len() > 0 {
        context_indices_count_up(user, root, calls.drop_last());
    }
}

/// An amount is recorded exactly when it is within the ceiling and the total
/// stays in range. On accounts that are accepted, with a context that is not
/// revoked, recording is accepted if and only if the amount is at most the
/// ceiling for one transaction and the total plus the amount fits in 64 bits;
/// the total it leaves is then the old total plus the amount.
pub proof fn recording_is_accepted_within_bounds(
    ctx: RecordSpending,
    root_derived: Option<(Seq<u8>, u8)>,
    context_derived: Option<(Seq<u8>, u8)>,
    amount: u64,
)
    requires
        located_refusal(
            ctx.user,
            ctx.root_identity,
            ctx.context_identity,
            root_derived,
            context_derived,
            true,
        ) is None,
        !ctx.context_identity.data->Some_0.revoked,
    ensures
        ({
            let record = ctx.context_identity.data->Some_0;
            &&& recording_refusal(ctx, root_derived, context_derived, amount) is None <==> (amount
                <= record.max_per_transaction && record.total_spent + amount <= u64::MAX)
            &&& recording_refusal(ctx, root_derived, context_derived, amount) is None
                ==> after_recording(ctx, amount).context_identity.data->Some_0.total_spent
                == record.total_spent + amount
        }),
{
}

/// Revocation is final. On the accounts that an accepted revocation leaves,
/// with the same root and the same derivations, every check and every
/// recording of an amount is refused because the context is revoked, and a
/// second revocation is refused because it is revoked already.
pub proof fn revoked_context_is_closed(
    ctx: RevokeContext,
    root_derived: Option<(Seq<u8>, u8)>,
    context_derived: Option<(Seq<u8>, u8)>,
    amount: u64,
)
    requires
        revocation_refusal(ctx, root_derived, context_derived) is None,
    ensures
        ({
            let after = after_revocation(ctx);
            &&& check_refusal(
                CheckSpendingLimit {
                    context_identity: after.context_identity,
                    root_identity: after.root_identity,
                    user: after.user,
                },
                root_derived,
                context_derived,
                amount,
            ) == Some(PrismError::ContextRevoked)
            &&& recording_refusal(
                RecordSpending {
                    user: after.user,
                    root_identity: after.root_identity,
                    context_identity: after.context_identity,
                },
                root_derived,
                context_derived,
                amount,
            ) == Some(PrismError::ContextRevoked)
            &&& revocation_refusal(after, root_derived, context_derived) == Some(
                PrismError::ContextAlreadyRevoked,
            )
        }),
{
}

/// No operation reopens a context. Whatever is presented with a stored
/// context that is revoked: a check or a recording that reaches the
/// context's state is refused because it is revoked, a revocation because it
/// is revoked already, and a creation at its address is refused; so each of
/// them leaves the context as it is.
pub proof fn revoked_stays_revoked(
    user: Address,
    root: RootAccount,
    context: ContextAccount,
    root_derived: Option<(Seq<u8>, u8)>,
    context_derived: Option<(Seq<u8>, u8)>,
    amount: u64,
    context_type: u8,
    digest_matches: bool,
)
    requires
        context.data matches Some(record) && record.revoked,
    ensures
        check_refusal(
            CheckSpendingLimit { context_identity: context, root_identity: root, user },
            root_derived,
            context_derived,
            amount,
        ) is Some,
        recording_refusal(
            RecordSpending { user, root_identity: root, context_identity: context },
            root_derived,
            context_derived,
            amount,
        ) is Some,
        revocation_refusal(
            RevokeContext { user, root_identity: root, context_identity: context },
            root_derived,
            context_derived,
        ) is Some,
        creation_refusal(
            CreateContext { user, root_identity: root, context_identity: context },
            root_derived,
            context_derived,
            context_type,
            digest_matches,
        ) is Some,
        located_refusal(user, root, context, root_derived, context_derived, false) is None
            ==> check_refusal(
            CheckSpendingLimit { context_identity: context, root_identity: root, user },
            root_derived,
            context_derived,
            amount,
        ) == Some(PrismError::ContextRevoked),
        located_refusal(user, root, context, root_derived, context_derived, true) is None ==> {
            &&& recording_refusal(
                RecordSpending { user, root_identity: root, context_identity: context },
                root_derived,
                context_derived,
                amount,
            ) == Some(PrismError::ContextRevoked)
            &&& revocation_refusal(
                RevokeContext { user, root_identity: root, context_identity: context },
                root_derived,
                context_derived,
            ) == Some(PrismError::ContextAlreadyRevoked)
        },
{
}

/// An encrypted context is created exactly when the digest supplied is the
/// digest of the root's address. Where a creation would be accepted with the
/// right digest, it is accepted if and only if the digest matches, and is
/// refused as an invalid root hash if it does not.
pub proof fn encrypted_creation_needs_the_digest(
    ctx: CreateContext,
    root_derived: Option<(Seq<u8>, u8)>,
    context_derived: Option<(Seq<u8>, u8)>,
    context_type: u8,
    digest_matches: bool,
)
    requires
        creation_refusal(ctx, root_derived, context_derived, context_type, true) is None,
    ensures
        creation_refusal(ctx, root_derived, context_derived, context_type, digest_matches)
            is None <==> digest_matches,
        !digest_matches ==> creation_refusal(
            ctx,
            root_derived,
            context_derived,
            context_type,
            digest_matches,
        ) == Some(PrismError::InvalidRootHash),
{
}

/// The commitment of an encrypted context verifies for that commitment and
/// that context alone. On the context that an encrypted creation leaves, a
/// commitment and a binding key hold if and only if the commitment is the one
/// stored at creation and the binding key is the context's address; on the
/// context that a plain creation leaves, none holds.
pub proof fn commitment_is_bound_to_its_context(
    ctx: CreateContext,
    bump: u8,
    digest: [u8; 32],
    stored: [u8; 32],
    context_type: u8,
    max_per_transaction: u64,
    now: i64,
    commitment: [u8; 32],
    binding_key: Address,
)
    ensures
        commitment_holds(
            after_creation(
                ctx,
                bump,
                zero_address(),
                Some(digest),
                Some(stored),
                context_type,
                max_per_transaction,
                now,
            ).context_identity,
            commitment,
            binding_key,
        ) <==> (commitment@ == stored@ && binding_key@ == ctx.context_identity.key@),
        !commitment_holds(
            after_creation(
                ctx,
                bump,
                ctx.root_identity.key,
                None,
                None,
                context_type,
                max_per_transaction,
                now,
            ).context_identity,
            commitment,
            binding_key,
        ),
{
}

/// Stored records stay well formed. A root identity that is created is well
/// formed, and so is a context that is created, plain or encrypted; what an
/// accepted operation leaves of a well-formed record is well formed.
pub proof fn records_stay_well_formed(
    create_root: CreateRootIdentity,
    update: UpdatePrivacyLevel,
    create: CreateContext,
    revoke: RevokeContext,
    record: RecordSpending,
    derived: Option<(Seq<u8>, u8)>,
    context_derived: Option<(Seq<u8>, u8)>,
    bump: u8,
    level: u8,
    context_type: u8,
    digest_matches: bool,
    digest: [u8; 32],
    commitment: [u8; 32],
    amount: u64,
    max_per_transaction: u64,
    now: i64,
)
    ensures
        root_creation_refusal(create_root, derived, level) is None ==> after_root_creation(
            create_root,
            bump,
            level,
            now,
        ).root_identity.data->Some_0.wf(),
        update_refusal(update, derived, level) is None ==> after_update(
            update,
            level,
        ).root_identity.data->Some_0.wf(),
        creation_refusal(create, derived, context_derived, context_type, digest_matches)
            is None ==> {
            let plain = after_creation(
                create,
                bump,
                create.root_identity.key,
                None,
                None,
                context_type,
                max_per_transaction,
                now,
            );
            let encrypted = after_creation(
                create,
                bump,
                zero_address(),
                Some(digest),
                Some(commitment),
                context_type,
                max_per_transaction,
                now,
            );
            &&& plain.context_identity.data->Some_0.wf()
            &&& encrypted.context_identity.data->Some_0.wf()
            &&& create.root_identity.data->Some_0.wf()
                ==> plain.root_identity.data->Some_0.wf()
            &&& plain.root_identity == encrypted.root_identity
        },
        revocation_refusal(revoke, derived, context_derived) is None
            && revoke.context_identity.data->Some_0.wf() ==> after_revocation(
            revoke,
        ).context_identity.data->Some_0.wf(),
        recording_refusal(record, derived, context_derived, amount) is None
            && record.context_identity.data->Some_0.wf() ==> after_recording(
            record,
            amount,
        ).context_identity.data->Some_0.wf(),
{
}

} // verus!
