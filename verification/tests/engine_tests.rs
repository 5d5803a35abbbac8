//! End-to-end create and update flows over the account model.

use token_metadata::account::NativeAccountData;
use token_metadata::account::Pubkey;
use token_metadata::config::EngineConfig;
use token_metadata::create::process_create_metadata_accounts;
use token_metadata::create::process_create_metadata_accounts_logic;
use token_metadata::decode::meta_deser_unchecked;
use token_metadata::error::MetadataError;
use token_metadata::state::Collection;
use token_metadata::state::CollectionDetails;
use token_metadata::state::Creator;
use token_metadata::state::Data;
use token_metadata::state::Key;
use token_metadata::state::Metadata;
use token_metadata::state::TokenStandard;
use token_metadata::state::UseMethod;
use token_metadata::state::Uses;
use token_metadata::state::MAX_METADATA_LEN;
use token_metadata::update::process_update_metadata_accounts;

const RENT: u64 = 1_000_000;

fn pk(n: u8) -> Pubkey {
    Pubkey { bytes: [n; 32] }
}

fn program_id() -> Pubkey {
    pk(11)
}

fn token_program() -> Pubkey {
    pk(12)
}

fn config() -> EngineConfig {
    EngineConfig { token_program_ids: vec![token_program()], seed_authority: pk(13) }
}

fn mint_account(mint_key: Pubkey, authority: Pubkey) -> NativeAccountData {
    let mut data = vec![1u8, 0, 0, 0];
    data.extend_from_slice(&authority.bytes);
    data.extend_from_slice(&[0u8; 46]);
    NativeAccountData { key: mint_key, daltons: 0, data, program_id: token_program(), is_signer: false }
}

fn signer(key: Pubkey) -> NativeAccountData {
    NativeAccountData { key, daltons: 10 * RENT, data: Vec::new(), program_id: pk(0), is_signer: true }
}

fn metadata_slot(mint_key: &Pubkey) -> NativeAccountData {
    let sdk_pid = solana_pubkey::Pubkey::new_from_array(program_id().bytes);
    let (address, _bump) = solana_pubkey::Pubkey::find_program_address(
        &[b"metadata", &program_id().bytes, &mint_key.bytes],
        &sdk_pid,
    );
    let key = Pubkey { bytes: *address.as_array() };
    NativeAccountData { key, daltons: 0, data: Vec::new(), program_id: pk(0), is_signer: false }
}

fn sample_data(creators: Option<Vec<Creator>>) -> Data {
    Data {
        name: b"Asset".to_vec(),
        symbol: b"AST".to_vec(),
        uri: b"https://example.com/a".to_vec(),
        seller_fee_basis_points: 500,
        creators,
        collection: None,
        uses: None,
    }
}

fn created_record(
    data: Data,
    is_mutable: bool,
    details: Option<CollectionDetails>,
) -> (NativeAccountData, Metadata) {
    let mint_key = pk(30);
    let authority = pk(31);
    let mut slot = metadata_slot(&mint_key);
    let mint = mint_account(mint_key, authority);
    let mint_authority = signer(authority);
    let mut payer = signer(pk(32));
    let update_authority = signer(pk(33));
    process_create_metadata_accounts(
        &program_id(),
        &mut slot,
        &mint,
        &mint_authority,
        &mut payer,
        &update_authority,
        &config(),
        RENT,
        data,
        is_mutable,
        details,
    )
    .expect("create");
    let record = Metadata::safe_deserialize(&slot.data).expect("decode created record");
    (slot, record)
}

#[test]
fn create_with_unverified_creators_succeeds() {
    let creators = vec![
        Creator { address: pk(1), verified: false, share: 60 },
        Creator { address: pk(2), verified: false, share: 40 },
    ];
    let (slot, record) = created_record(sample_data(Some(creators)), true, None);
    assert_eq!(slot.data.len(), MAX_METADATA_LEN);
    assert_eq!(record.key, Key::Metadata);
    assert_eq!(record.mint.bytes, [30; 32]);
    assert_eq!(record.update_authority.bytes, [33; 32]);
    assert!(record.is_mutable);
    assert_eq!(record.token_standard, Some(TokenStandard::Fungible));
    let cs = record.data.creators.as_ref().unwrap();
    assert_eq!(cs.len(), 2);
    assert_eq!(cs[0].share, 60);
    assert_eq!(cs[1].share, 40);
    // Names are stored right-padded with zero bytes to their maxima.
    assert_eq!(record.data.name.len(), 32);
    assert_eq!(&record.data.name[..5], b"Asset");
    assert!(record.data.name[5..].iter().all(|b| *b == 0));
    assert_eq!(record.data.symbol.len(), 10);
    assert_eq!(record.data.uri.len(), 200);
}

#[test]
fn create_with_verified_creator_signed_by_payer_only_rejects() {
    let mint_key = pk(30);
    let authority = pk(31);
    let mut slot = metadata_slot(&mint_key);
    let mint = mint_account(mint_key, authority);
    let mint_authority = signer(authority);
    let mut payer = signer(pk(32));
    // The update authority is the payer, not creator A, and A did not
    // sign: the verified flag cannot be granted, and the rejection is
    // this one even though the share sum is off too — the per-creator
    // check fires inside the walk, before the sum is judged.
    let update_authority = signer(pk(32));
    let data = sample_data(Some(vec![Creator { address: pk(1), verified: true, share: 60 }]));
    let err = process_create_metadata_accounts(
        &program_id(),
        &mut slot,
        &mint,
        &mint_authority,
        &mut payer,
        &update_authority,
        &config(),
        RENT,
        data,
        true,
        None,
    )
    .unwrap_err();
    assert_eq!(err, MetadataError::CannotVerifyAnotherCreator);
}

#[test]
fn create_rejects_wrong_derived_address_before_any_decode() {
    let mint_key = pk(30);
    let wrong_mint = pk(40);
    let authority = pk(31);
    // The slot sits at the address derived for another mint, and its
    // bytes would not even decode: the derivation mismatch must win.
    let mut slot = metadata_slot(&wrong_mint);
    slot.data = vec![0xEE; MAX_METADATA_LEN];
    let mint = mint_account(mint_key, authority);
    let mint_authority = signer(authority);
    let mut payer = signer(pk(32));
    let update_authority = signer(pk(33));
    let err = process_create_metadata_accounts(
        &program_id(),
        &mut slot,
        &mint,
        &mint_authority,
        &mut payer,
        &update_authority,
        &config(),
        RENT,
        sample_data(None),
        true,
        None,
    )
    .unwrap_err();
    assert_eq!(err, MetadataError::InvalidMetadataKey);
    assert_eq!(slot.data, vec![0xEE; MAX_METADATA_LEN]);
}

#[test]
fn create_funds_the_slot_from_the_payer() {
    let mint_key = pk(30);
    let authority = pk(31);
    let mut slot = metadata_slot(&mint_key);
    let mint = mint_account(mint_key, authority);
    let mint_authority = signer(authority);
    let mut payer = signer(pk(32));
    let update_authority = signer(pk(33));
    process_create_metadata_accounts(
        &program_id(),
        &mut slot,
        &mint,
        &mint_authority,
        &mut payer,
        &update_authority,
        &config(),
        RENT,
        sample_data(None),
        true,
        None,
    )
    .expect("create");
    assert_eq!(slot.daltons, RENT);
    assert_eq!(payer.daltons, 9 * RENT);
    assert_eq!(slot.program_id.bytes, program_id().bytes);
}

#[test]
fn create_rejects_unfunded_payer() {
    let mint_key = pk(30);
    let authority = pk(31);
    let mut slot = metadata_slot(&mint_key);
    let mint = mint_account(mint_key, authority);
    let mint_authority = signer(authority);
    let mut payer = signer(pk(32));
    payer.daltons = RENT - 1;
    let update_authority = signer(pk(33));
    let err = process_create_metadata_accounts(
        &program_id(),
        &mut slot,
        &mint,
        &mint_authority,
        &mut payer,
        &update_authority,
        &config(),
        RENT,
        sample_data(None),
        true,
        None,
    )
    .unwrap_err();
    assert_eq!(err, MetadataError::NotRentExempt);
}

#[test]
fn create_rejects_foreign_mint_owner_and_wrong_authority() {
    let mint_key = pk(30);
    let authority = pk(31);
    let mut slot = metadata_slot(&mint_key);
    let mut mint = mint_account(mint_key, authority);
    mint.program_id = pk(50);
    let mint_authority = signer(authority);
    let mut payer = signer(pk(32));
    let update_authority = signer(pk(33));
    let err = process_create_metadata_accounts(
        &program_id(),
        &mut slot,
        &mint,
        &mint_authority,
        &mut payer,
        &update_authority,
        &config(),
        RENT,
        sample_data(None),
        true,
        None,
    )
    .unwrap_err();
    assert_eq!(err, MetadataError::IncorrectOwner);

    let mut slot = metadata_slot(&mint_key);
    let mint = mint_account(mint_key, authority);
    let impostor = signer(pk(44));
    let err = process_create_metadata_accounts(
        &program_id(),
        &mut slot,
        &mint,
        &impostor,
        &mut payer,
        &update_authority,
        &config(),
        RENT,
        sample_data(None),
        true,
        None,
    )
    .unwrap_err();
    assert_eq!(err, MetadataError::InvalidMintAuthority);

    let mut slot = metadata_slot(&mint_key);
    let mut unsigned = signer(authority);
    unsigned.is_signer = false;
    let err = process_create_metadata_accounts(
        &program_id(),
        &mut slot,
        &mint,
        &unsigned,
        &mut payer,
        &update_authority,
        &config(),
        RENT,
        sample_data(None),
        true,
        None,
    )
    .unwrap_err();
    assert_eq!(err, MetadataError::NotMintAuthority);
}

#[test]
fn seed_authority_bootstraps_foreign_mint_as_mutable() {
    let mint_key = pk(30);
    let mint_owner_authority = pk(31);
    let mut slot = metadata_slot(&mint_key);
    let mint = mint_account(mint_key, mint_owner_authority);
    // The designated seed identity signs instead of the mint's own
    // authority; the record is forced mutable and the mint's existing
    // authority becomes the update authority.
    let seed = signer(pk(13));
    let mut payer = signer(pk(32));
    let update_authority = signer(pk(33));
    process_create_metadata_accounts_logic(
        &program_id(),
        &mut slot,
        &mint,
        &seed,
        &mut payer,
        &update_authority,
        &config(),
        RENT,
        sample_data(None),
        false,
        false,
        true,
        None,
        None,
    )
    .expect("seeded create");
    let record = Metadata::safe_deserialize(&slot.data).unwrap();
    assert!(record.is_mutable);
    assert_eq!(record.update_authority.bytes, [31; 32]);
}

#[test]
fn create_records_collection_details_with_reset_payload() {
    let (_, record) = created_record(
        sample_data(None),
        true,
        Some(CollectionDetails::V1 { size: 77 }),
    );
    match record.collection_details.unwrap() {
        CollectionDetails::V1 { size } => assert_eq!(size, 0),
        CollectionDetails::V2 { .. } => panic!("wrong details version"),
    }
}

#[test]
fn create_rejects_verified_collection() {
    let mint_key = pk(30);
    let authority = pk(31);
    let mut slot = metadata_slot(&mint_key);
    let mint = mint_account(mint_key, authority);
    let mint_authority = signer(authority);
    let mut payer = signer(pk(32));
    let update_authority = signer(pk(33));
    let mut data = sample_data(None);
    data.collection = Some(Collection { verified: true, key: pk(3) });
    let err = process_create_metadata_accounts(
        &program_id(),
        &mut slot,
        &mint,
        &mint_authority,
        &mut payer,
        &update_authority,
        &config(),
        RENT,
        data,
        true,
        None,
    )
    .unwrap_err();
    assert_eq!(err, MetadataError::CollectionCannotBeVerifiedInThisInstruction);
}

fn update_authority_account() -> NativeAccountData {
    signer(pk(33))
}

#[test]
fn update_data_on_immutable_record_rejects() {
    let (mut slot, _) = created_record(sample_data(None), false, None);
    let before = slot.data.clone();
    let err = process_update_metadata_accounts(
        &program_id(),
        &mut slot,
        &update_authority_account(),
        Some(sample_data(None)),
        None,
        None,
        None,
    )
    .unwrap_err();
    assert_eq!(err, MetadataError::DataIsImmutable);
    assert_eq!(slot.data, before);
}

#[test]
fn update_requires_the_stored_authority_as_signer() {
    let (mut slot, _) = created_record(sample_data(None), true, None);
    let err = process_update_metadata_accounts(
        &program_id(),
        &mut slot,
        &signer(pk(44)),
        None,
        None,
        Some(true),
        None,
    )
    .unwrap_err();
    assert_eq!(err, MetadataError::UpdateAuthorityIncorrect);
    let mut unsigned = update_authority_account();
    unsigned.is_signer = false;
    let err = process_update_metadata_accounts(
        &program_id(),
        &mut slot,
        &unsigned,
        None,
        None,
        Some(true),
        None,
    )
    .unwrap_err();
    assert_eq!(err, MetadataError::UpdateAuthorityIsNotSigner);
}

#[test]
fn update_collection_rules_against_verified_existing() {
    // Build a record whose collection is verified: create it
    // unverified, then flip the stored bytes' verified flag by
    // writing through an update that re-states it... a verified
    // collection can only enter through the dedicated verification
    // path, so craft the record bytes directly instead.
    let (mut slot, mut record) = created_record(sample_data(None), true, None);
    record.collection = Some(Collection { verified: true, key: pk(3) });
    record.save(&mut slot.data).unwrap();

    // Incoming identical verified value: no-op confirmation.
    let mut d = sample_data(None);
    d.collection = Some(Collection { verified: true, key: pk(3) });
    process_update_metadata_accounts(
        &program_id(),
        &mut slot,
        &update_authority_account(),
        Some(d),
        None,
        None,
        None,
    )
    .expect("identical verified collection is a no-op");

    // Incoming verified value with another target: rejects.
    let mut d = sample_data(None);
    d.collection = Some(Collection { verified: true, key: pk(4) });
    let err = process_update_metadata_accounts(
        &program_id(),
        &mut slot,
        &update_authority_account(),
        Some(d),
        None,
        None,
        None,
    )
    .unwrap_err();
    assert_eq!(err, MetadataError::CollectionCannotBeVerifiedInThisInstruction);

    // Incoming absent collection: the implicit clear rejects too.
    let d = sample_data(None);
    let err = process_update_metadata_accounts(
        &program_id(),
        &mut slot,
        &update_authority_account(),
        Some(d),
        None,
        None,
        None,
    )
    .unwrap_err();
    assert_eq!(err, MetadataError::CannotUpdateVerifiedCollection);
}

#[test]
fn update_clears_unverified_collection() {
    let (mut slot, mut record) = created_record(sample_data(None), true, None);
    record.collection = Some(Collection { verified: false, key: pk(3) });
    record.save(&mut slot.data).unwrap();
    let d = sample_data(None);
    process_update_metadata_accounts(
        &program_id(),
        &mut slot,
        &update_authority_account(),
        Some(d),
        None,
        None,
        None,
    )
    .expect("clearing an unverified collection");
    let record = Metadata::safe_deserialize(&slot.data).unwrap();
    assert!(record.collection.is_none());
}

#[test]
fn primary_sale_flips_only_to_true() {
    let (mut slot, _) = created_record(sample_data(None), true, None);
    process_update_metadata_accounts(
        &program_id(),
        &mut slot,
        &update_authority_account(),
        None,
        None,
        Some(true),
        None,
    )
    .expect("false to true");
    assert!(Metadata::safe_deserialize(&slot.data).unwrap().primary_sale_happened);
    let before = slot.data.clone();
    let err = process_update_metadata_accounts(
        &program_id(),
        &mut slot,
        &update_authority_account(),
        None,
        None,
        Some(false),
        None,
    )
    .unwrap_err();
    assert_eq!(err, MetadataError::PrimarySaleCanOnlyBeFlippedToTrue);
    assert_eq!(slot.data, before);
    // Re-stating true is a no-op that succeeds.
    process_update_metadata_accounts(
        &program_id(),
        &mut slot,
        &update_authority_account(),
        None,
        None,
        Some(true),
        None,
    )
    .expect("true to true");
}

#[test]
fn is_mutable_flips_only_to_false() {
    let (mut slot, _) = created_record(sample_data(None), true, None);
    // true -> true is a no-op that succeeds.
    process_update_metadata_accounts(
        &program_id(),
        &mut slot,
        &update_authority_account(),
        None,
        None,
        None,
        Some(true),
    )
    .expect("true to true");
    process_update_metadata_accounts(
        &program_id(),
        &mut slot,
        &update_authority_account(),
        None,
        None,
        None,
        Some(false),
    )
    .expect("true to false");
    assert!(!Metadata::safe_deserialize(&slot.data).unwrap().is_mutable);
    // false -> false is a no-op that succeeds.
    process_update_metadata_accounts(
        &program_id(),
        &mut slot,
        &update_authority_account(),
        None,
        None,
        None,
        Some(false),
    )
    .expect("false to false");
    let err = process_update_metadata_accounts(
        &program_id(),
        &mut slot,
        &update_authority_account(),
        None,
        None,
        None,
        Some(true),
    )
    .unwrap_err();
    assert_eq!(err, MetadataError::IsMutableCanOnlyBeFlippedToFalse);
}

#[test]
fn update_hands_over_the_authority() {
    let (mut slot, _) = created_record(sample_data(None), true, None);
    process_update_metadata_accounts(
        &program_id(),
        &mut slot,
        &update_authority_account(),
        None,
        Some(pk(55)),
        None,
        None,
    )
    .expect("handover");
    let record = Metadata::safe_deserialize(&slot.data).unwrap();
    assert_eq!(record.update_authority.bytes, [55; 32]);
    // The old authority is now rejected.
    let err = process_update_metadata_accounts(
        &program_id(),
        &mut slot,
        &update_authority_account(),
        None,
        None,
        Some(true),
        None,
    )
    .unwrap_err();
    assert_eq!(err, MetadataError::UpdateAuthorityIncorrect);
}

#[test]
fn update_zero_fills_stale_tail_and_keeps_trailer() {
    let creators: Vec<Creator> = (1..=5u8)
        .map(|n| Creator { address: pk(n), verified: false, share: 20 })
        .collect();
    let (mut slot, _) = created_record(sample_data(Some(creators)), true, None);
    // Mark the reserved trailer byte, then shrink the creators list.
    let last = slot.data.len() - 1;
    slot.data[last] = 1;
    let d = sample_data(Some(vec![Creator { address: pk(1), verified: false, share: 100 }]));
    process_update_metadata_accounts(
        &program_id(),
        &mut slot,
        &update_authority_account(),
        Some(d),
        None,
        None,
        None,
    )
    .expect("shrinking update");
    let record = Metadata::safe_deserialize(&slot.data).unwrap();
    assert_eq!(record.data.creators.as_ref().unwrap().len(), 1);
    // Everything between the record's bytes and the trailer is zero.
    let encoded = token_metadata::encode::encode_metadata(&record);
    assert!(slot.data[encoded.len()..last].iter().all(|b| *b == 0));
    // The trailer byte survived the rewrite untouched.
    assert_eq!(slot.data[last], 1);
}

#[test]
fn update_rejects_garbage_record() {
    let mut slot = metadata_slot(&pk(30));
    slot.data = vec![9u8; MAX_METADATA_LEN];
    slot.program_id = program_id();
    let err = process_update_metadata_accounts(
        &program_id(),
        &mut slot,
        &update_authority_account(),
        None,
        None,
        None,
        None,
    )
    .unwrap_err();
    assert_eq!(err, MetadataError::DataTypeMismatch);
}

#[test]
fn update_rejects_foreign_owner() {
    let (mut slot, _) = created_record(sample_data(None), true, None);
    slot.program_id = pk(50);
    let err = process_update_metadata_accounts(
        &program_id(),
        &mut slot,
        &update_authority_account(),
        None,
        None,
        None,
        None,
    )
    .unwrap_err();
    assert_eq!(err, MetadataError::IncorrectOwner);
}

#[test]
fn uses_survive_create_and_freeze_after_consumption() {
    let mint_key = pk(30);
    let authority = pk(31);
    let mut slot = metadata_slot(&mint_key);
    let mint = mint_account(mint_key, authority);
    let mint_authority = signer(authority);
    let mut payer = signer(pk(32));
    let update_authority = signer(pk(33));
    let mut data = sample_data(None);
    data.uses = Some(Uses { use_method: UseMethod::Multiple, remaining: 9, total: 9 });
    process_create_metadata_accounts(
        &program_id(),
        &mut slot,
        &mint,
        &mint_authority,
        &mut payer,
        &update_authority,
        &config(),
        RENT,
        data,
        true,
        None,
    )
    .expect("create with uses");
    let mut record = Metadata::safe_deserialize(&slot.data).unwrap();
    assert_eq!(record.uses.unwrap().total, 9);
    // Simulate a consumed use, then try to change the counters.
    record.uses = Some(Uses { use_method: UseMethod::Multiple, remaining: 8, total: 9 });
    record.save(&mut slot.data).unwrap();
    let mut d = sample_data(None);
    d.uses = Some(Uses { use_method: UseMethod::Multiple, remaining: 9, total: 9 });
    let err = process_update_metadata_accounts(
        &program_id(),
        &mut slot,
        &update_authority_account(),
        Some(d),
        None,
        None,
        None,
    )
    .unwrap_err();
    assert_eq!(err, MetadataError::CannotChangeUsesAfterFirstUse);
}

#[test]
fn lenient_decode_of_created_record_equals_strict() {
    let (slot, record) = created_record(sample_data(None), true, None);
    let lenient = meta_deser_unchecked(&slot.data).unwrap();
    assert_eq!(
        token_metadata::encode::encode_metadata(&lenient),
        token_metadata::encode::encode_metadata(&record)
    );
}
