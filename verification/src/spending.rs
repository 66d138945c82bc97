//! The ceiling for one transaction and the running total of a context.

use crate::accounts::{
    find_stored_context, locate, located_refusal, stored_context_address, CheckSpendingLimit,
    ContextAccount, RecordSpending,
};
use crate::address::{derived_view, Address};
use crate::derivation::{find_root_address, root_address};
use crate::error::PrismError;
use crate::records::{ContextIdentity, SpendingRecorded};
use vstd::prelude::*;

verus! {

/// Why an amount may not be spent through a context identity, if it may not:
/// the context is revoked, or the amount is above its ceiling.
pub open spec fn limit_refusal(record: ContextIdentity, amount: u64) -> Option<PrismError> {
    if record.revoked {
        Some(PrismError::ContextRevoked)
    } else if amount > record.max_per_transaction {
        Some(PrismError::ExceedsTransactionLimit)
    } else {
        None
    }
}

/// Why the check of an amount is refused, if it is.
pub open spec fn check_refusal(
    ctx: CheckSpendingLimit,
    root_derived: Option<(Seq<u8>, u8)>,
    context_derived: Option<(Seq<u8>, u8)>,
    amount: u64,
) -> Option<PrismError> {
    let first = located_refusal(
        ctx.user,
        ctx.root_identity,
        ctx.context_identity,
        root_derived,
        context_derived,
        false,
    );
    if first is Some {
        first
    } else {
        limit_refusal(ctx.context_identity.data->Some_0, amount)
    }
}

/// Why an amount is not recorded, if it is not.
pub open spec fn recording_refusal(
    ctx: RecordSpending,
    root_derived: Option<(Seq<u8>, u8)>,
    context_derived: Option<(Seq<u8>, u8)>,
    amount: u64,
) -> Option<PrismError> {
    let first = located_refusal(
        ctx.user,
        ctx.root_identity,
        ctx.context_identity,
        root_derived,
        context_derived,
        true,
    );
    let record = ctx.context_identity.data->Some_0;
    if first is Some {
        first
    } else if limit_refusal(record, amount) is Some {
        limit_refusal(record, amount)
    } else if record.total_spent + amount > u64::MAX {
        Some(PrismError::SpendingOverflow)
    } else {
        None
    }
}

/// The accounts after an amount was recorded: only the total has changed.
pub open spec fn after_recording(ctx: RecordSpending, amount: u64) -> RecordSpending {
    let record = ctx.context_identity.data->Some_0;
    RecordSpending {
        context_identity: ContextAccount {
            key: ctx.context_identity.key,
            data: Some(
                ContextIdentity { total_spent: (record.total_spent + amount) as u64, ..record },
            ),
        },
        ..ctx
    }
}

/// What is told of an amount that was recorded.
pub open spec fn recording_event(ctx: RecordSpending, amount: u64, now: i64) -> SpendingRecorded {
    SpendingRecorded {
        context_identity: ctx.context_identity.key,
        amount,
        total_spent: (ctx.context_identity.data->Some_0.total_spent + amount) as u64,
        timestamp: now,
    }
}

/// Checks an amount against a context identity: it must not be revoked, and
/// the amount must not be above its ceiling.
pub fn within_limit(record: &ContextIdentity, amount: u64) -> (r: Result<(), PrismError>)
    ensures
        match limit_refusal(*record, amount) {
            Some(e) => r == Err::<(), PrismError>(e),
            None => r == Ok::<(), PrismError>(()),
        },
{
    if record.revoked {
        Err(PrismError::ContextRevoked)
    } else if amount > record.max_per_transaction {
        Err(PrismError::ExceedsTransactionLimit)
    } else {
        Ok(())
    }
}

/// Checks whether an amount may be spent through a context, given the
/// derivation from the caller's address and the derivation for the context.
/// Changes nothing.
pub fn check_spending_limit_at(
    ctx: &CheckSpendingLimit,
    root_derived: &Option<(Address, u8)>,
    context_derived: &Option<(Address, u8)>,
    amount: u64,
) -> (r: Result<(), PrismError>)
    ensures
        match check_refusal(
            *ctx,
            derived_view(*root_derived),
            derived_view(*context_derived),
            amount,
        ) {
            Some(e) => r == Err::<(), PrismError>(e),
            None => r == Ok::<(), PrismError>(()),
        },
{
    match locate(
        &ctx.user,
        &ctx.root_identity,
        &ctx.context_identity,
        root_derived,
        context_derived,
        false,
    ) {
        Ok(record) => within_limit(&record, amount),
        Err(e) => Err(e),
    }
}

/// Checks whether an amount may be spent through a context.
///
/// Derives the two addresses, then does what `check_spending_limit_at` does
/// with them.
pub fn check_spending_limit(ctx: &CheckSpendingLimit, amount: u64) -> (r: Result<(), PrismError>)
    ensures
        match check_refusal(
            *ctx,
            root_address(ctx.user@),
            stored_context_address(ctx.root_identity.key, ctx.context_identity),
            amount,
        ) {
            Some(e) => r == Err::<(), PrismError>(e),
            None => r == Ok::<(), PrismError>(()),
        },
{
    let root_derived = find_root_address(&ctx.user);
    let context_derived = find_stored_context(&ctx.root_identity.key, &ctx.context_identity);
    check_spending_limit_at(ctx, &root_derived, &context_derived, amount)
}

/// Adds an amount to a context's running total, given the derivation from the
/// caller's address and the derivation for the context.
///
/// The amount must pass the check of `within_limit`, and the new total must
/// fit in 64 bits. A refusal changes nothing.
pub fn record_spending_at(
    ctx: &mut RecordSpending,
    root_derived: &Option<(Address, u8)>,
    context_derived: &Option<(Address, u8)>,
    amount: u64,
    now: i64,
) -> (r: Result<SpendingRecorded, PrismError>)
    ensures
        match recording_refusal(
            *old(ctx),
            derived_view(*root_derived),
            derived_view(*context_derived),
            amount,
        ) {
            Some(e) => r == Err::<SpendingRecorded, PrismError>(e) && *final(ctx) == *old(ctx),
            None => *final(ctx) == after_recording(*old(ctx), amount) && r == Ok::<
                SpendingRecorded,
                PrismError,
            >(recording_event(*old(ctx), amount, now)),
        },
{
    let record = match locate(
        &ctx.user,
        &ctx.root_identity,
        &ctx.context_identity,
        root_derived,
        context_derived,
        true,
    ) {
        Ok(record) => record,
        Err(e) => {
            return Err(e);
        },
    };
    match within_limit(&record, amount) {
        Ok(_) => {},
        Err(e) => {
            return Err(e);
        },
    }
    let total = match record.total_spent.checked_add(amount) {
        Some(total) => total,
        None => {
            return Err(PrismError::SpendingOverflow);
        },
    };
    ctx.context_identity.data = Some(ContextIdentity { total_spent: total, ..record });
    Ok(
        SpendingRecorded {
            context_identity: ctx.context_identity.key,
            amount,
            total_spent: total,
            timestamp: now,
        },
    )
}

/// Adds an amount to a context's running total.
///
/// Derives the two addresses, then does what `record_spending_at` does with
/// them.
pub fn record_spending(ctx: &mut RecordSpending, amount: u64, now: i64) -> (r: Result<
    SpendingRecorded,
    PrismError,
>)
    ensures
        match recording_refusal(
            *old(ctx),
            root_address(old(ctx).user@),
            stored_context_address(old(ctx).root_identity.key, old(ctx).context_identity),
            amount,
        ) {
            Some(e) => r == Err::<SpendingRecorded, PrismError>(e) && *final(ctx) == *old(ctx),
            None => *final(ctx) == after_recording(*old(ctx), amount) && r == Ok::<
                SpendingRecorded,
                PrismError,
            >(recording_event(*old(ctx), amount, now)),
        },
{
    let root_derived = find_root_address(&ctx.user);
    let context_derived = find_stored_context(&ctx.root_identity.key, &ctx.context_identity);
    record_spending_at(ctx, &root_derived, &context_derived, amount, now)
}

} // verus!
