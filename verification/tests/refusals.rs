use prism::{
    check_spending_limit_at, create_context_at, create_context_encrypted,
    create_context_encrypted_at, create_root_identity, create_root_identity_at,
    find_context_address, find_root_address, hash_root_identity, record_spending,
    record_spending_at, revoke_context, revoke_context_at, update_privacy_level,
    update_privacy_level_at, verify_commitment, verify_commitment_at, Address,
    CheckSpendingLimit, ContextAccount, ContextIdentity, ContextType, CreateContext,
    CreateRootIdentity, PrismError, PrivacyLevel, RecordSpending, RevokeContext, RootAccount,
    RootIdentity, UpdatePrivacyLevel, VerifyCommitment,
};

fn key(tag: u8) -> Address {
    Address { bytes: [tag; 32] }
}

fn root_of(user: Address, count: u16) -> RootAccount {
    RootAccount {
        key: key(100),
        data: Some(RootIdentity {
            owner: user,
            created_at: 1,
            privacy_level: 2,
            context_count: count,
            bump: 255,
        }),
    }
}

fn plain_context(root: Address, max: u64, total: u64) -> ContextAccount {
    ContextAccount {
        key: key(200),
        data: Some(ContextIdentity {
            root_identity: root,
            root_identity_hash: None,
            encryption_commitment: None,
            context_type: 0,
            created_at: 2,
            max_per_transaction: max,
            total_spent: total,
            revoked: false,
            context_index: 0,
            bump: 254,
        }),
    }
}

const ROOT_AT: Option<(Address, u8)> = Some((Address { bytes: [100; 32] }, 255));
const CONTEXT_AT: Option<(Address, u8)> = Some((Address { bytes: [200; 32] }, 254));

#[test]
fn caller_must_own_the_root() {
    let user = key(1);
    let root = root_of(key(2), 0);
    let mut update = UpdatePrivacyLevel { user, root_identity: root };
    assert_eq!(update_privacy_level_at(&mut update, &ROOT_AT, 1, 9), Err(PrismError::Unauthorized));
    assert_eq!(update.root_identity, root);

    let context = plain_context(root.key, 10, 0);
    let mut spend = RecordSpending { user, root_identity: root, context_identity: context };
    assert_eq!(
        record_spending_at(&mut spend, &ROOT_AT, &CONTEXT_AT, 1, 9),
        Err(PrismError::Unauthorized)
    );
    let mut revoke = RevokeContext { user, root_identity: root, context_identity: context };
    assert_eq!(revoke_context_at(&mut revoke, &ROOT_AT, &CONTEXT_AT, 9), Err(PrismError::Unauthorized));
    let mut create = CreateContext {
        user,
        root_identity: root,
        context_identity: ContextAccount { key: key(200), data: None },
    };
    assert_eq!(
        create_context_at(&mut create, &ROOT_AT, &CONTEXT_AT, 0, 1, 9),
        Err(PrismError::Unauthorized)
    );
    assert_eq!(create.context_identity.data, None);
}

#[test]
fn reading_needs_no_ownership() {
    let user = key(1);
    let root = root_of(key(2), 1);
    let context = plain_context(key(77), 10, 0);
    let check = CheckSpendingLimit { context_identity: context, root_identity: root, user };
    assert_eq!(check_spending_limit_at(&check, &ROOT_AT, &CONTEXT_AT, 10), Ok(()));
    let verify = VerifyCommitment { context_identity: context, root_identity: root, user };
    assert_eq!(
        verify_commitment_at(&verify, &ROOT_AT, &CONTEXT_AT, [0; 32], context.key),
        Ok(false)
    );
}

#[test]
fn plain_context_must_name_the_root() {
    let user = key(1);
    let root = root_of(user, 1);
    let context = plain_context(key(77), 10, 0);
    let mut spend = RecordSpending { user, root_identity: root, context_identity: context };
    assert_eq!(
        record_spending_at(&mut spend, &ROOT_AT, &CONTEXT_AT, 1, 9),
        Err(PrismError::ContextMismatch)
    );
    assert_eq!(spend.context_identity, context);
    let mut revoke = RevokeContext { user, root_identity: root, context_identity: context };
    assert_eq!(
        revoke_context_at(&mut revoke, &ROOT_AT, &CONTEXT_AT, 9),
        Err(PrismError::ContextMismatch)
    );
    assert_eq!(revoke.context_identity, context);
}

#[test]
fn amount_above_the_ceiling_is_refused() {
    let user = key(1);
    let root = root_of(user, 1);
    let context = plain_context(root.key, 1000, 600);
    let mut spend = RecordSpending { user, root_identity: root, context_identity: context };
    assert_eq!(
        record_spending_at(&mut spend, &ROOT_AT, &CONTEXT_AT, 1001, 9),
        Err(PrismError::ExceedsTransactionLimit)
    );
    assert_eq!(spend.context_identity.data.unwrap().total_spent, 600);
    let told = record_spending_at(&mut spend, &ROOT_AT, &CONTEXT_AT, 1000, 9).unwrap();
    assert_eq!(told.total_spent, 1600);
    assert_eq!(told.amount, 1000);
    assert_eq!(told.timestamp, 9);
    assert_eq!(spend.context_identity.data.unwrap().total_spent, 1600);
    let told = record_spending_at(&mut spend, &ROOT_AT, &CONTEXT_AT, 0, 10).unwrap();
    assert_eq!(told.total_spent, 1600);
}

#[test]
fn total_never_wraps() {
    let user = key(1);
    let root = root_of(user, 1);
    let context = plain_context(root.key, u64::MAX, u64::MAX - 5);
    let mut spend = RecordSpending { user, root_identity: root, context_identity: context };
    assert_eq!(
        record_spending_at(&mut spend, &ROOT_AT, &CONTEXT_AT, 6, 9),
        Err(PrismError::SpendingOverflow)
    );
    assert_eq!(spend.context_identity, context);
    assert_eq!(
        record_spending_at(&mut spend, &ROOT_AT, &CONTEXT_AT, 5, 9).unwrap().total_spent,
        u64::MAX
    );
    assert_eq!(
        record_spending_at(&mut spend, &ROOT_AT, &CONTEXT_AT, 1, 9),
        Err(PrismError::SpendingOverflow)
    );
    assert_eq!(record_spending_at(&mut spend, &ROOT_AT, &CONTEXT_AT, 0, 9).unwrap().total_spent, u64::MAX);
}

#[test]
fn counter_stops_at_the_end_of_its_range() {
    let user = key(1);
    let vacant = ContextAccount { key: key(200), data: None };
    let mut last = CreateContext { user, root_identity: root_of(user, 65534), context_identity: vacant };
    let told = create_context_at(&mut last, &ROOT_AT, &CONTEXT_AT, 0, 1, 9).unwrap();
    assert_eq!(told.context_index, 65534);
    assert_eq!(last.root_identity.data.unwrap().context_count, 65535);

    let full = root_of(user, 65535);
    let mut ctx = CreateContext { user, root_identity: full, context_identity: vacant };
    assert_eq!(
        create_context_at(&mut ctx, &ROOT_AT, &CONTEXT_AT, 0, 1, 9),
        Err(PrismError::CounterOverflow)
    );
    assert_eq!(ctx.root_identity, full);
    assert_eq!(ctx.context_identity, vacant);
    let digest = [3u8; 32];
    assert_eq!(
        create_context_encrypted_at(&mut ctx, &ROOT_AT, &CONTEXT_AT, &digest, 0, 1, digest, [4; 32], 9),
        Err(PrismError::CounterOverflow)
    );
    assert_eq!(ctx.context_identity, vacant);
}

#[test]
fn context_type_above_five_is_refused() {
    let user = key(1);
    let vacant = ContextAccount { key: key(200), data: None };
    let mut ctx = CreateContext { user, root_identity: root_of(user, 0), context_identity: vacant };
    assert_eq!(
        create_context_at(&mut ctx, &ROOT_AT, &CONTEXT_AT, 6, 1, 9),
        Err(PrismError::InvalidContextType)
    );
    assert_eq!(
        create_context_at(&mut ctx, &ROOT_AT, &CONTEXT_AT, 255, 1, 9),
        Err(PrismError::InvalidContextType)
    );
    let digest = [3u8; 32];
    assert_eq!(
        create_context_encrypted_at(&mut ctx, &ROOT_AT, &CONTEXT_AT, &digest, 6, 1, [0; 32], [4; 32], 9),
        Err(PrismError::InvalidContextType)
    );
    assert_eq!(ctx.context_identity, vacant);
    assert_eq!(create_context_at(&mut ctx, &ROOT_AT, &CONTEXT_AT, 5, 1, 9).unwrap().context_type, 5);
}

#[test]
fn wrong_digest_writes_nothing() {
    let user = key(1);
    let (root_key, _) = find_root_address(&user).unwrap();
    let mut create_root =
        CreateRootIdentity { user, root_identity: RootAccount { key: root_key, data: None } };
    create_root_identity(&mut create_root, 2, 1).unwrap();
    let root = create_root.root_identity;
    let (context_key, _) = find_context_address(&root.key, 0).unwrap();
    let vacant = ContextAccount { key: context_key, data: None };
    let mut ctx = CreateContext { user, root_identity: root, context_identity: vacant };

    let mut digest = hash_root_identity(&root.key);
    assert_eq!(
        create_context_encrypted(&mut ctx, 0, 1, root.key.bytes, [4; 32], 9),
        Err(PrismError::InvalidRootHash)
    );
    digest[31] ^= 1;
    assert_eq!(
        create_context_encrypted(&mut ctx, 0, 1, digest, [4; 32], 9),
        Err(PrismError::InvalidRootHash)
    );
    assert_eq!(ctx.root_identity, root);
    assert_eq!(ctx.context_identity, vacant);
    digest[31] ^= 1;
    assert!(create_context_encrypted(&mut ctx, 0, 1, digest, [4; 32], 9).is_ok());
}

#[test]
fn digest_is_compared_with_the_one_given() {
    let user = key(1);
    let vacant = ContextAccount { key: key(200), data: None };
    let mut ctx = CreateContext { user, root_identity: root_of(user, 3), context_identity: vacant };
    let digest = [9u8; 32];
    assert_eq!(
        create_context_encrypted_at(&mut ctx, &ROOT_AT, &CONTEXT_AT, &digest, 0, 1, [8; 32], [4; 32], 9),
        Err(PrismError::InvalidRootHash)
    );
    let told =
        create_context_encrypted_at(&mut ctx, &ROOT_AT, &CONTEXT_AT, &digest, 1, 2, digest, [4; 32], 9)
            .unwrap();
    assert_eq!(told.context_index, 3);
    let stored = ctx.context_identity.data.unwrap();
    assert_eq!(stored.root_identity, Address::zero());
    assert_eq!(stored.root_identity_hash, Some(digest));
    assert_eq!(stored.encryption_commitment, Some([4; 32]));
    assert_eq!(stored.bump, 254);
    assert_eq!(ctx.root_identity.data.unwrap().context_count, 4);
}

#[test]
fn missing_records_are_refused() {
    let user = key(1);
    let nothing = RootAccount { key: key(100), data: None };
    let mut update = UpdatePrivacyLevel { user, root_identity: nothing };
    assert_eq!(update_privacy_level(&mut update, 1, 9), Err(PrismError::AccountNotInitialized));
    assert_eq!(
        update_privacy_level_at(&mut update, &ROOT_AT, 1, 9),
        Err(PrismError::AccountNotInitialized)
    );
    let root = root_of(user, 1);
    let absent = ContextAccount { key: key(200), data: None };
    let mut spend = RecordSpending { user, root_identity: root, context_identity: absent };
    assert_eq!(
        record_spending_at(&mut spend, &ROOT_AT, &None, 1, 9),
        Err(PrismError::AccountNotInitialized)
    );
    let verify = VerifyCommitment { context_identity: absent, root_identity: root, user };
    assert_eq!(
        verify_commitment_at(&verify, &ROOT_AT, &None, [0; 32], key(200)),
        Err(PrismError::AccountNotInitialized)
    );
}

#[test]
fn addresses_must_be_the_derived_ones() {
    let user = key(1);
    let root = root_of(user, 1);
    let context = plain_context(root.key, 10, 0);

    let mut update = UpdatePrivacyLevel { user, root_identity: root };
    assert_eq!(update_privacy_level(&mut update, 1, 9), Err(PrismError::InvalidSeeds));
    assert_eq!(update_privacy_level_at(&mut update, &None, 1, 9), Err(PrismError::InvalidSeeds));
    let other_bump = Some((key(100), 250));
    assert_eq!(
        update_privacy_level_at(&mut update, &other_bump, 1, 9),
        Err(PrismError::InvalidSeeds)
    );
    let elsewhere = Some((key(101), 255));
    assert_eq!(
        update_privacy_level_at(&mut update, &elsewhere, 1, 9),
        Err(PrismError::InvalidSeeds)
    );

    let mut revoke = RevokeContext { user, root_identity: root, context_identity: context };
    assert_eq!(revoke_context(&mut revoke, 9), Err(PrismError::InvalidSeeds));
    assert_eq!(revoke_context_at(&mut revoke, &ROOT_AT, &ROOT_AT, 9), Err(PrismError::InvalidSeeds));
    let mut spend = RecordSpending { user, root_identity: root, context_identity: context };
    assert_eq!(record_spending(&mut spend, 1, 9), Err(PrismError::InvalidSeeds));
    let verify = VerifyCommitment { context_identity: context, root_identity: root, user };
    assert_eq!(verify_commitment(&verify, [0; 32], context.key), Err(PrismError::InvalidSeeds));

    let mut create =
        CreateRootIdentity { user, root_identity: RootAccount { key: key(100), data: None } };
    assert_eq!(create_root_identity(&mut create, 1, 9), Err(PrismError::InvalidSeeds));
    assert_eq!(create_root_identity_at(&mut create, &None, 1, 9), Err(PrismError::InvalidSeeds));
    assert_eq!(create.root_identity.data, None);
}

#[test]
fn occupied_address_is_refused_before_the_arguments() {
    let user = key(1);
    let root = root_of(user, 0);
    let mut create = CreateRootIdentity { user, root_identity: root };
    assert_eq!(create_root_identity_at(&mut create, &ROOT_AT, 9, 9), Err(PrismError::AddressInUse));
    assert_eq!(create.root_identity, root);

    let taken = plain_context(root.key, 10, 3);
    let mut ctx = CreateContext { user, root_identity: root, context_identity: taken };
    assert_eq!(
        create_context_at(&mut ctx, &ROOT_AT, &CONTEXT_AT, 9, 1, 9),
        Err(PrismError::AddressInUse)
    );
    assert_eq!(ctx.context_identity, taken);
    assert_eq!(ctx.root_identity, root);
}

#[test]
fn privacy_level_above_four_is_refused() {
    let user = key(1);
    let vacant = RootAccount { key: key(100), data: None };
    let mut create = CreateRootIdentity { user, root_identity: vacant };
    assert_eq!(
        create_root_identity_at(&mut create, &ROOT_AT, 5, 9),
        Err(PrismError::InvalidPrivacyLevel)
    );
    assert_eq!(create.root_identity, vacant);
    let told = create_root_identity_at(&mut create, &ROOT_AT, 4, 9).unwrap();
    assert_eq!(told.privacy_level, 4);
    assert_eq!(create.root_identity.data.unwrap().bump, 255);
    assert_eq!(create.root_identity.data.unwrap().context_count, 0);
}

#[test]
fn codes_name_types_and_levels() {
    assert_eq!(ContextType::from_code(0), Some(ContextType::DeFi));
    assert_eq!(ContextType::from_code(1), Some(ContextType::Social));
    assert_eq!(ContextType::from_code(2), Some(ContextType::Gaming));
    assert_eq!(ContextType::from_code(3), Some(ContextType::Professional));
    assert_eq!(ContextType::from_code(4), Some(ContextType::Temporary));
    assert_eq!(ContextType::from_code(5), Some(ContextType::Public));
    assert_eq!(ContextType::from_code(6), None);
    assert_eq!(ContextType::Temporary.code(), 4);
    assert_eq!(PrivacyLevel::from_code(0), Some(PrivacyLevel::Maximum));
    assert_eq!(PrivacyLevel::from_code(1), Some(PrivacyLevel::High));
    assert_eq!(PrivacyLevel::from_code(2), Some(PrivacyLevel::Medium));
    assert_eq!(PrivacyLevel::from_code(3), Some(PrivacyLevel::Low));
    assert_eq!(PrivacyLevel::from_code(4), Some(PrivacyLevel::Public));
    assert_eq!(PrivacyLevel::from_code(5), None);
    assert_eq!(PrivacyLevel::Low.code(), 3);
    assert_eq!(RootIdentity::SIZE, 52);
    assert_eq!(ContextIdentity::SIZE, 135);
}

#[test]
fn every_refusal_has_its_sentence() {
    assert_eq!(PrismError::Unauthorized.message(), "Unauthorized: You don't own this identity");
    assert_eq!(
        PrismError::ContextMismatch.message(),
        "Context mismatch: Context doesn't belong to this root"
    );
    assert_eq!(PrismError::ContextAlreadyRevoked.message(), "Context already revoked");
    assert_eq!(PrismError::ContextRevoked.message(), "Context is revoked and cannot be used");
    assert_eq!(
        PrismError::ExceedsTransactionLimit.message(),
        "Amount exceeds transaction limit for this context"
    );
    assert_eq!(
        PrismError::SpendingOverflow.message(),
        "Spending overflow: Total spent would exceed u64 max"
    );
    assert_eq!(PrismError::InvalidPrivacyLevel.message(), "Invalid privacy level: Must be 0-4");
    assert_eq!(PrismError::InvalidContextType.message(), "Invalid context type: Must be 0-5");
    assert_eq!(
        PrismError::InvalidRootHash.message(),
        "Invalid root identity hash: Hash does not match root identity PDA"
    );
    assert_eq!(
        PrismError::AddressInUse.message(),
        "Address in use: A record is already stored at the derived address"
    );
    assert_eq!(
        PrismError::CounterOverflow.message(),
        "Counter overflow: The root identity cannot hold more contexts"
    );
    assert_eq!(
        PrismError::AccountNotInitialized.message(),
        "Account not initialized: No record is stored at the address"
    );
    assert_eq!(
        PrismError::InvalidSeeds.message(),
        "Invalid seeds: The address is not the one derived for the record"
    );
}
