//! The create orchestrator: derive the record's address, make sure the
//! backing storage exists, and validate and persist the initial record.

use vstd::prelude::*;

use crate::account::AccountView;
use crate::account::NativeAccountData;
use crate::account::Pubkey;
use crate::assertions::assert_collection_update_is_valid;
use crate::assertions::assert_data_valid;
use crate::assertions::assert_mint_authority_matches_mint;
use crate::assertions::assert_owner_in;
use crate::assertions::assert_valid_use;
use crate::assertions::collection_update_allowed;
use crate::assertions::data_valid_verdict;
use crate::assertions::uses_update_verdict;
use crate::codec::parse_strict;
use crate::codec::ser_metadata;
use crate::config::EngineConfig;
use crate::config::EngineConfigView;
use crate::error::MetadataError;
use crate::lifecycle::create_or_allocate_account_raw;
use crate::lifecycle::get_mint_authority;
use crate::lifecycle::parse_mint_authority;
use crate::pda::find_metadata_address;
use crate::pda::metadata_seed;
use crate::pda::pda_address;
use crate::pda::pda_found;
use crate::state::CollectionDetails;
use crate::state::CollectionDetailsView;
use crate::state::Data;
use crate::state::DataView;
use crate::state::Key;
use crate::state::Metadata;
use crate::state::MetadataView;
use crate::state::TokenStandard;
use crate::state::wf_metadata;
use crate::state::MAX_METADATA_LEN;
use crate::state::MAX_NAME_LENGTH;
use crate::state::MAX_SYMBOL_LENGTH;
use crate::state::MAX_URI_LENGTH;
use crate::utils::puff_out_data_fields;
use crate::utils::puffed;

verus! {

/// Whether an account's owner is one of the given program identities.
pub open spec fn owned_by_any(program_id: Seq<u8>, ids: Seq<Seq<u8>>) -> bool {
    exists|i: int| 0 <= i < ids.len() && ids[i] == program_id
}

/// The collection-size descriptor as it is stored on create: incoming
/// versions are honored, but their payloads are reset.
pub open spec fn normalized_details(o: Option<CollectionDetailsView>) -> Option<
    CollectionDetailsView,
> {
    match o {
        None => None,
        Some(CollectionDetailsView::V1 { size }) => Some(CollectionDetailsView::V1 { size: 0 }),
        Some(CollectionDetailsView::V2 { padding }) => Some(
            CollectionDetailsView::V2 { padding: Seq::new(8, |i: int| 0u8) },
        ),
    }
}

/// The record a successful create persists.
pub open spec fn created_metadata(
    data: DataView,
    mint: Seq<u8>,
    update_authority: Seq<u8>,
    existing: MetadataView,
    is_mutable: bool,
    add_token_standard: bool,
    token_standard_override: Option<TokenStandard>,
    collection_details: Option<CollectionDetailsView>,
) -> MetadataView {
    MetadataView {
        key: Key::Metadata,
        update_authority,
        mint,
        data: DataView {
            name: puffed(data.name, MAX_NAME_LENGTH as int),
            symbol: puffed(data.symbol, MAX_SYMBOL_LENGTH as int),
            uri: puffed(data.uri, MAX_URI_LENGTH as int),
            seller_fee_basis_points: data.seller_fee_basis_points,
            creators: data.creators,
            collection: None,
            uses: None,
        },
        primary_sale_happened: existing.primary_sale_happened,
        is_mutable,
        token_standard: if add_token_standard {
            match token_standard_override {
                Some(t) => Some(t),
                None => Some(TokenStandard::Fungible),
            }
        } else {
            None
        },
        collection: data.collection,
        collection_details: normalized_details(collection_details),
        uses: data.uses,
    }
}

/// What a create decides, step by step: derive and compare the
/// address, ensure the storage, load the prior state, check the mint
/// authority (with the seed exemption), the mint's owner, and the
/// requested data, and persist the populated record. `derived` is the
/// outcome of the address derivation.
pub open spec fn process_create_verdict(
    program_id: Seq<u8>,
    metadata_account: AccountView,
    mint_info: AccountView,
    mint_authority_info: AccountView,
    payer: AccountView,
    update_authority_info: AccountView,
    config: EngineConfigView,
    rent_minimum: u64,
    derived: Option<Seq<u8>>,
    data: DataView,
    allow_direct_creator_writes: bool,
    is_mutable: bool,
    add_token_standard: bool,
    collection_details: Option<CollectionDetailsView>,
    token_standard_override: Option<TokenStandard>,
) -> Result<MetadataView, MetadataError> {
    let derive_ok = derived matches Some(a) && metadata_account.key == a;
    if !derive_ok {
        Err(MetadataError::InvalidMetadataKey)
    } else {
        let fresh = metadata_account.data.len() == 0;
        let missing = create_missing_funds(rent_minimum, metadata_account.daltons);
        if fresh && missing > payer.daltons {
            Err(MetadataError::NotRentExempt)
        } else {
            let stored = if fresh {
                Seq::<u8>::new(MAX_METADATA_LEN as nat, |i: int| 0u8)
            } else {
                metadata_account.data
            };
            let owner_now = if fresh {
                program_id
            } else {
                metadata_account.program_id
            };
            if stored.len() < MAX_METADATA_LEN {
                Err(MetadataError::InvalidAccountData)
            } else {
                match parse_strict(stored) {
                    None => Err(MetadataError::DataTypeMismatch),
                    Some(existing) => if owner_now != program_id {
                        Err(MetadataError::IncorrectOwner)
                    } else {
                        match parse_mint_authority(mint_info.data) {
                            Err(e) => Err(e),
                            Ok(existing_authority) => {
                                let seeded = mint_authority_info.key == config.seed_authority
                                    && mint_authority_info.is_signer;
                                let update_authority_key = if seeded {
                                    match existing_authority {
                                        Some(a) => a,
                                        None => update_authority_info.key,
                                    }
                                } else {
                                    update_authority_info.key
                                };
                                let effective_mutable = if seeded {
                                    true
                                } else {
                                    is_mutable
                                };
                                let authority_mismatch = match existing_authority {
                                    None => true,
                                    Some(k) => k != mint_authority_info.key,
                                };
                                if !seeded && authority_mismatch {
                                    Err(MetadataError::InvalidMintAuthority)
                                } else if !seeded && !mint_authority_info.is_signer {
                                    Err(MetadataError::NotMintAuthority)
                                } else if !owned_by_any(
                                    mint_info.program_id,
                                    config.token_program_ids,
                                ) {
                                    Err(MetadataError::IncorrectOwner)
                                } else {
                                    match data_valid_verdict(
                                        data,
                                        update_authority_key,
                                        existing,
                                        allow_direct_creator_writes,
                                        update_authority_info.is_signer,
                                    ) {
                                        Some(e) => Err(e),
                                        None => match uses_update_verdict(data.uses, None) {
                                            Some(e) => Err(e),
                                            None => if !collection_update_allowed(
                                                None,
                                                data.collection,
                                            ) {
                                                Err(
                                                    MetadataError::CollectionCannotBeVerifiedInThisInstruction,
                                                )
                                            } else {
                                                Ok(
                                                    created_metadata(
                                                        data,
                                                        mint_info.key,
                                                        update_authority_key,
                                                        existing,
                                                        effective_mutable,
                                                        add_token_standard,
                                                        token_standard_override,
                                                        collection_details,
                                                    ),
                                                )
                                            },
                                        },
                                    }
                                }
                            },
                        }
                    },
                }
            }
        }
    }
}

/// The state a create that allocated fresh storage but rejected a
/// later check leaves behind: the slot is funded, zeroed and assigned,
/// and holds no record; nothing else moved.
pub open spec fn allocated_then_rejected(
    pre: AccountView,
    post: AccountView,
    payer_pre: AccountView,
    payer_post: AccountView,
    program_id: Seq<u8>,
    rent_minimum: u64,
) -> bool {
    let missing = create_missing_funds(rent_minimum, pre.daltons);
    &&& post == AccountView {
        daltons: (pre.daltons + missing) as u64,
        data: Seq::<u8>::new(MAX_METADATA_LEN as nat, |i: int| 0u8),
        program_id,
        ..pre
    }
    &&& payer_post == AccountView { daltons: (payer_pre.daltons - missing) as u64, ..payer_pre }
}

/// The funds a fresh slot still needs to reach the rent-exempt floor.
pub open spec fn create_missing_funds(rent_minimum: u64, daltons: u64) -> u64 {
    let required = if rent_minimum > 1 {
        rent_minimum
    } else {
        1u64
    };
    if required > daltons {
        (required - daltons) as u64
    } else {
        0u64
    }
}

/// The new state of the record account after a successful create.
pub open spec fn create_success_state(
    pre: AccountView,
    post: AccountView,
    payer_pre: AccountView,
    payer_post: AccountView,
    program_id: Seq<u8>,
    rent_minimum: u64,
    m: MetadataView,
) -> bool {
    let fresh = pre.data.len() == 0;
    let missing = create_missing_funds(rent_minimum, pre.daltons);
    &&& post.key == pre.key
    &&& post.is_signer == pre.is_signer
    &&& post.data.len() == if fresh {
        MAX_METADATA_LEN as int
    } else {
        pre.data.len() as int
    }
    &&& post.data.subrange(0, ser_metadata(m).len() as int) == ser_metadata(m)
    &&& if fresh {
        &&& post.program_id == program_id
        &&& post.daltons == pre.daltons + missing
        &&& payer_post == AccountView { daltons: (payer_pre.daltons - missing) as u64, ..payer_pre }
        &&& forall|i: int| ser_metadata(m).len() <= i < post.data.len() ==> post.data[i] == 0
    } else {
        &&& post.program_id == pre.program_id
        &&& post.daltons == pre.daltons
        &&& payer_post == payer_pre
        &&& post.data.skip(ser_metadata(m).len() as int) == pre.data.skip(
            ser_metadata(m).len() as int,
        )
    }
}

/// Creates and persists a record, with the outcome of the address
/// derivation handed in as a plain value: for every derivation outcome
/// this function returns exactly what [`process_create_verdict`] says.
#[verifier::loop_isolation(false)]
#[verifier::rlimit(100)]
pub fn create_metadata_record(
    program_id: &Pubkey,
    metadata_account_info: &mut NativeAccountData,
    mint_info: &NativeAccountData,
    mint_authority_info: &NativeAccountData,
    payer_account_info: &mut NativeAccountData,
    update_authority_info: &NativeAccountData,
    config: &EngineConfig,
    rent_minimum: u64,
    derived: Option<Pubkey>,
    data: Data,
    allow_direct_creator_writes: bool,
    is_mutable: bool,
    add_token_standard: bool,
    collection_details: Option<CollectionDetails>,
    token_standard_override: Option<TokenStandard>,
) -> (r: Result<(), MetadataError>)
    ensures
        ({
            let verdict = process_create_verdict(
                program_id@,
                old(metadata_account_info)@,
                mint_info@,
                mint_authority_info@,
                old(payer_account_info)@,
                update_authority_info@,
                config@,
                rent_minimum,
                view_opt_key(derived),
                data@,
                allow_direct_creator_writes,
                is_mutable,
                add_token_standard,
                view_opt_details(collection_details),
                token_standard_override,
            );
            match verdict {
                Ok(m) => r is Ok && create_success_state(
                    old(metadata_account_info)@,
                    final(metadata_account_info)@,
                    old(payer_account_info)@,
                    final(payer_account_info)@,
                    program_id@,
                    rent_minimum,
                    m,
                ),
                Err(e) => r == Err::<(), MetadataError>(e) && ((*final(metadata_account_info)
                    == *old(metadata_account_info)
                    && *final(payer_account_info) == *old(payer_account_info)) || (old(
                    metadata_account_info,
                )@.data.len() == 0 && (view_opt_key(derived) matches Some(a) && old(
                    metadata_account_info,
                )@.key == a) && allocated_then_rejected(
                    old(metadata_account_info)@,
                    final(metadata_account_info)@,
                    old(payer_account_info)@,
                    final(payer_account_info)@,
                    program_id@,
                    rent_minimum,
                ))),
            }
        }),
{
    let derived_key = match derived {
        Some(k) => k,
        None => {
            return Err(MetadataError::InvalidMetadataKey);
        },
    };
    if !metadata_account_info.key.equals(&derived_key) {
        return Err(MetadataError::InvalidMetadataKey);
    }
    let ghost dv = data@;
    create_or_allocate_account_raw(
        *program_id,
        metadata_account_info,
        payer_account_info,
        MAX_METADATA_LEN,
        rent_minimum,
    )?;
    if metadata_account_info.data.len() < MAX_METADATA_LEN {
        return Err(MetadataError::InvalidAccountData);
    }
    let mut metadata = match Metadata::from_account_info(metadata_account_info, program_id) {
        Ok(m) => m,
        Err(e) => {
            return Err(e);
        },
    };
    let ghost existing_view = metadata@;
    let existing_mint_authority = match get_mint_authority(mint_info) {
        Ok(a) => a,
        Err(e) => {
            return Err(e);
        },
    };
    let seeded = mint_authority_info.key.equals(&config.seed_authority)
        && mint_authority_info.is_signer;
    let mut update_authority_key = update_authority_info.key;
    let mut effective_mutable = is_mutable;
    if seeded {
        if let Some(auth) = &existing_mint_authority {
            update_authority_key = *auth;
        }
        effective_mutable = true;
    } else {
        match assert_mint_authority_matches_mint(&existing_mint_authority, mint_authority_info) {
            Ok(()) => {},
            Err(e) => {
                return Err(e);
            },
        }
    }
    match assert_owner_in(mint_info, &config.token_program_ids) {
        Ok(()) => {},
        Err(e) => {
            proof {
                lemma_owned_by_any_view(config.token_program_ids@, mint_info@.program_id);
            }
            return Err(e);
        },
    }
    proof {
        lemma_owned_by_any_view(config.token_program_ids@, mint_info@.program_id);
    }
    match assert_data_valid(
        &data,
        &update_authority_key,
        &metadata,
        allow_direct_creator_writes,
        update_authority_info.is_signer,
    ) {
        Ok(()) => {},
        Err(e) => {
            return Err(e);
        },
    }
    let data_collection = data.collection;
    let data_uses = data.uses;
    match assert_valid_use(&data_uses, &None) {
        Ok(()) => {},
        Err(e) => {
            return Err(e);
        },
    }
    match assert_collection_update_is_valid(&None, &data_collection) {
        Ok(()) => {},
        Err(e) => {
            return Err(e);
        },
    }
    metadata.mint = mint_info.key;
    metadata.key = Key::Metadata;
    metadata.data = data;
    metadata.data.collection = None;
    metadata.data.uses = None;
    metadata.is_mutable = effective_mutable;
    metadata.update_authority = update_authority_key;
    metadata.uses = data_uses;
    metadata.collection = data_collection;
    metadata.collection_details = match collection_details {
        Some(CollectionDetails::V1 { size: _ }) => Some(CollectionDetails::V1 { size: 0 }),
        Some(CollectionDetails::V2 { padding: _ }) => Some(
            CollectionDetails::V2 { padding: [0u8; 8] },
        ),
        None => None,
    };
    metadata.token_standard = if add_token_standard {
        match token_standard_override {
            Some(t) => Some(t),
            None => Some(TokenStandard::Fungible),
        }
    } else {
        None
    };
    puff_out_data_fields(&mut metadata);
    proof {
        assert(wf_metadata(metadata@));
        assert(metadata@ =~= created_metadata(
            dv,
            mint_info@.key,
            update_authority_key@,
            existing_view,
            effective_mutable,
            add_token_standard,
            token_standard_override,
            view_opt_details(collection_details),
        ));
    }
    let ghost pre_save = metadata_account_info@.data;
    // The buffer is large enough and the record well formed, so the
    // write cannot fail.
    let _save_ok = metadata.save(&mut metadata_account_info.data);
    proof {
        let ser = ser_metadata(metadata@);
        assert(metadata_account_info@.data.subrange(0, ser.len() as int) =~= ser);
        assert(metadata_account_info@.data.skip(ser.len() as int) =~= pre_save.skip(
            ser.len() as int,
        ));
        if old(metadata_account_info)@.data.len() == 0 {
            assert forall|i: int|
                ser.len() <= i < metadata_account_info@.data.len() implies metadata_account_info@
                .data[i] == 0 by {
                assert(metadata_account_info@.data[i] == pre_save[i]);
            }
            assert(final(payer_account_info)@ =~= AccountView {
                daltons: (old(payer_account_info)@.daltons - create_missing_funds(
                    rent_minimum,
                    old(metadata_account_info)@.daltons,
                )) as u64,
                ..old(payer_account_info)@
            });
        }
    }
    Ok(())
}

/// Creates a new record account: derives the canonical address for
/// the mint and hands the outcome to [`create_metadata_record`].
/// Whenever the derivation finds an address — which is itself a pure
/// function of the seeds — the result is exactly what
/// [`process_create_verdict`] says; only when no bump exists at all
/// does the call degrade to the same rejection an address mismatch
/// gets.
pub fn process_create_metadata_accounts_logic(
    program_id: &Pubkey,
    metadata_account_info: &mut NativeAccountData,
    mint_info: &NativeAccountData,
    mint_authority_info: &NativeAccountData,
    payer_account_info: &mut NativeAccountData,
    update_authority_info: &NativeAccountData,
    config: &EngineConfig,
    rent_minimum: u64,
    data: Data,
    allow_direct_creator_writes: bool,
    is_mutable: bool,
    add_token_standard: bool,
    collection_details: Option<CollectionDetails>,
    token_standard_override: Option<TokenStandard>,
) -> (r: Result<(), MetadataError>)
    ensures
        ({
            let verdict = process_create_verdict(
                program_id@,
                old(metadata_account_info)@,
                mint_info@,
                mint_authority_info@,
                old(payer_account_info)@,
                update_authority_info@,
                config@,
                rent_minimum,
                Some(pda_address(seq![metadata_seed(), program_id@, mint_info.key@], program_id@)),
                data@,
                allow_direct_creator_writes,
                is_mutable,
                add_token_standard,
                view_opt_details(collection_details),
                token_standard_override,
            );
            &&& (r is Ok ==> (verdict matches Ok(m) && create_success_state(
                old(metadata_account_info)@,
                final(metadata_account_info)@,
                old(payer_account_info)@,
                final(payer_account_info)@,
                program_id@,
                rent_minimum,
                m,
            )))
            &&& (r matches Err(e) ==> e == MetadataError::InvalidMetadataKey || verdict == Err::<
                MetadataView,
                MetadataError,
            >(e))
            &&& (verdict is Err ==> r is Err)
            &&& (r is Err ==> (*final(metadata_account_info) == *old(metadata_account_info)
                && *final(payer_account_info) == *old(payer_account_info)) || (old(
                metadata_account_info,
            )@.data.len() == 0 && pda_found(
                seq![metadata_seed(), program_id@, mint_info.key@],
                program_id@,
            ) && old(metadata_account_info)@.key == pda_address(
                seq![metadata_seed(), program_id@, mint_info.key@],
                program_id@,
            ) && allocated_then_rejected(
                old(metadata_account_info)@,
                final(metadata_account_info)@,
                old(payer_account_info)@,
                final(payer_account_info)@,
                program_id@,
                rent_minimum,
            )))
            &&& (pda_found(seq![metadata_seed(), program_id@, mint_info.key@], program_id@) ==> ((r
                is Ok <==> verdict is Ok) && (verdict matches Err(e) ==> r == Err::<
                (),
                MetadataError,
            >(e))))
        }),
{
    let derived = match find_metadata_address(program_id, &mint_info.key) {
        Some((address, _bump)) => Some(address),
        None => None,
    };
    create_metadata_record(
        program_id,
        metadata_account_info,
        mint_info,
        mint_authority_info,
        payer_account_info,
        update_authority_info,
        config,
        rent_minimum,
        derived,
        data,
        allow_direct_creator_writes,
        is_mutable,
        add_token_standard,
        collection_details,
        token_standard_override,
    )
}

/// Processes a create request as the instruction surface exposes it:
/// no direct creator writes, and a token standard is always recorded.
pub fn process_create_metadata_accounts(
    program_id: &Pubkey,
    metadata_account_info: &mut NativeAccountData,
    mint_info: &NativeAccountData,
    mint_authority_info: &NativeAccountData,
    payer_account_info: &mut NativeAccountData,
    update_authority_info: &NativeAccountData,
    config: &EngineConfig,
    rent_minimum: u64,
    data: Data,
    is_mutable: bool,
    collection_details: Option<CollectionDetails>,
) -> (r: Result<(), MetadataError>)
    ensures
        ({
            let verdict = process_create_verdict(
                program_id@,
                old(metadata_account_info)@,
                mint_info@,
                mint_authority_info@,
                old(payer_account_info)@,
                update_authority_info@,
                config@,
                rent_minimum,
                Some(pda_address(seq![metadata_seed(), program_id@, mint_info.key@], program_id@)),
                data@,
                false,
                is_mutable,
                true,
                view_opt_details(collection_details),
                None,
            );
            &&& (r is Ok ==> (verdict matches Ok(m) && create_success_state(
                old(metadata_account_info)@,
                final(metadata_account_info)@,
                old(payer_account_info)@,
                final(payer_account_info)@,
                program_id@,
                rent_minimum,
                m,
            )))
            &&& (r matches Err(e) ==> e == MetadataError::InvalidMetadataKey || verdict == Err::<
                MetadataView,
                MetadataError,
            >(e))
            &&& (verdict is Err ==> r is Err)
            &&& (r is Err ==> (*final(metadata_account_info) == *old(metadata_account_info)
                && *final(payer_account_info) == *old(payer_account_info)) || (old(
                metadata_account_info,
            )@.data.len() == 0 && pda_found(
                seq![metadata_seed(), program_id@, mint_info.key@],
                program_id@,
            ) && old(metadata_account_info)@.key == pda_address(
                seq![metadata_seed(), program_id@, mint_info.key@],
                program_id@,
            ) && allocated_then_rejected(
                old(metadata_account_info)@,
                final(metadata_account_info)@,
                old(payer_account_info)@,
                final(payer_account_info)@,
                program_id@,
                rent_minimum,
            )))
            &&& (pda_found(seq![metadata_seed(), program_id@, mint_info.key@], program_id@) ==> ((r
                is Ok <==> verdict is Ok) && (verdict matches Err(e) ==> r == Err::<
                (),
                MetadataError,
            >(e))))
        }),
{
    process_create_metadata_accounts_logic(
        program_id,
        metadata_account_info,
        mint_info,
        mint_authority_info,
        payer_account_info,
        update_authority_info,
        config,
        rent_minimum,
        data,
        false,
        is_mutable,
        true,
        collection_details,
        None,
    )
}

/// The value of an optional address.
pub open spec fn view_opt_key(o: Option<Pubkey>) -> Option<Seq<u8>> {
    match o {
        Some(k) => Some(k@),
        None => None,
    }
}

/// The value of an optional collection-size descriptor.
pub open spec fn view_opt_details(o: Option<CollectionDetails>) -> Option<CollectionDetailsView> {
    match o {
        Some(d) => Some(d@),
        None => None,
    }
}

/// Membership among the configured programs, read off the view.
proof fn lemma_owned_by_any_view(ks: Seq<Pubkey>, program_id: Seq<u8>)
    ensures
        (exists|i: int| 0 <= i < ks.len() && (#[trigger] ks[i])@ == program_id) <==> owned_by_any(
            program_id,
            crate::config::view_pubkeys(ks),
        ),
{
    let ids = crate::config::view_pubkeys(ks);
    if exists|i: int| 0 <= i < ks.len() && (#[trigger] ks[i])@ == program_id {
        let i = choose|i: int| 0 <= i < ks.len() && (#[trigger] ks[i])@ == program_id;
        assert(ids[i] == program_id);
    }
    if owned_by_any(program_id, ids) {
        let i = choose|i: int| 0 <= i < ids.len() && ids[i] == program_id;
        assert((ks[i])@ == program_id);
    }
}

} // verus!
