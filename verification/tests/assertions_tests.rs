//! The authorization assertions, case by case.

use token_metadata::account::NativeAccountData;
use token_metadata::account::Pubkey;
use token_metadata::assertions::assert_collection_update_is_valid;
use token_metadata::assertions::assert_data_valid;
use token_metadata::assertions::assert_mint_authority_matches_mint;
use token_metadata::assertions::assert_owned_by;
use token_metadata::assertions::assert_owner_in;
use token_metadata::assertions::assert_update_authority_is_correct;
use token_metadata::assertions::assert_valid_use;
use token_metadata::error::MetadataError;
use token_metadata::state::Collection;
use token_metadata::state::Creator;
use token_metadata::state::Data;
use token_metadata::state::Metadata;
use token_metadata::state::UseMethod;
use token_metadata::state::Uses;

fn pk(n: u8) -> Pubkey {
    Pubkey { bytes: [n; 32] }
}

fn data_with_creators(creators: Option<Vec<Creator>>) -> Data {
    Data {
        name: b"Name".to_vec(),
        symbol: b"SYM".to_vec(),
        uri: b"uri".to_vec(),
        seller_fee_basis_points: 100,
        creators,
        collection: None,
        uses: None,
    }
}

fn fresh_record() -> Metadata {
    Metadata::empty()
}

fn record_with_creators(creators: Vec<Creator>) -> Metadata {
    let mut m = Metadata::empty();
    m.data.creators = Some(creators);
    m
}

#[test]
fn shares_must_sum_to_exactly_100() {
    let authority = pk(9);
    let existing = fresh_record();
    for (a, b, want_ok) in [(60u8, 40u8, true), (60, 39, false), (60, 41, false)] {
        let d = data_with_creators(Some(vec![
            Creator { address: pk(1), verified: false, share: a },
            Creator { address: pk(2), verified: false, share: b },
        ]));
        let r = assert_data_valid(&d, &authority, &existing, false, true);
        if want_ok {
            assert!(r.is_ok());
        } else {
            assert_eq!(r.unwrap_err(), MetadataError::ShareTotalMustBe100);
        }
    }
}

#[test]
fn share_sum_overflow_is_its_own_error() {
    let d = data_with_creators(Some(vec![
        Creator { address: pk(1), verified: false, share: 200 },
        Creator { address: pk(2), verified: false, share: 200 },
    ]));
    assert_eq!(
        assert_data_valid(&d, &pk(9), &fresh_record(), false, true).unwrap_err(),
        MetadataError::NumericalOverflowError
    );
}

#[test]
fn name_symbol_uri_and_basis_points_bounds() {
    let authority = pk(9);
    let existing = fresh_record();
    let mut d = data_with_creators(None);
    d.name = vec![b'a'; 33];
    assert_eq!(
        assert_data_valid(&d, &authority, &existing, false, true).unwrap_err(),
        MetadataError::NameTooLong
    );
    let mut d = data_with_creators(None);
    d.symbol = vec![b'a'; 11];
    assert_eq!(
        assert_data_valid(&d, &authority, &existing, false, true).unwrap_err(),
        MetadataError::SymbolTooLong
    );
    let mut d = data_with_creators(None);
    d.uri = vec![b'a'; 201];
    assert_eq!(
        assert_data_valid(&d, &authority, &existing, false, true).unwrap_err(),
        MetadataError::UriTooLong
    );
    let mut d = data_with_creators(None);
    d.seller_fee_basis_points = 10001;
    assert_eq!(
        assert_data_valid(&d, &authority, &existing, false, true).unwrap_err(),
        MetadataError::InvalidBasisPoints
    );
    let mut d = data_with_creators(None);
    d.seller_fee_basis_points = 10000;
    assert!(assert_data_valid(&d, &authority, &existing, false, true).is_ok());
}

#[test]
fn creators_list_shape_is_checked() {
    let authority = pk(9);
    let existing = fresh_record();
    let too_many: Vec<Creator> = (1..=6u8)
        .map(|n| Creator { address: pk(n), verified: false, share: if n == 1 { 95 } else { 1 } })
        .collect();
    assert_eq!(
        assert_data_valid(&data_with_creators(Some(too_many)), &authority, &existing, false, true)
            .unwrap_err(),
        MetadataError::CreatorsTooLong
    );
    assert_eq!(
        assert_data_valid(&data_with_creators(Some(Vec::new())), &authority, &existing, false, true)
            .unwrap_err(),
        MetadataError::CreatorsMustBeAtleastOne
    );
    let dup = vec![
        Creator { address: pk(1), verified: false, share: 50 },
        Creator { address: pk(1), verified: false, share: 50 },
    ];
    assert_eq!(
        assert_data_valid(&data_with_creators(Some(dup)), &authority, &existing, false, true)
            .unwrap_err(),
        MetadataError::DuplicateCreatorAddress
    );
}

#[test]
fn cannot_verify_another_creator() {
    // A creator unknown to the record cannot arrive verified unless
    // its own address is the authenticated update authority.
    let d = data_with_creators(Some(vec![Creator { address: pk(1), verified: true, share: 100 }]));
    assert_eq!(
        assert_data_valid(&d, &pk(9), &fresh_record(), false, true).unwrap_err(),
        MetadataError::CannotVerifyAnotherCreator
    );
    let d = data_with_creators(Some(vec![Creator { address: pk(1), verified: true, share: 100 }]));
    assert!(assert_data_valid(&d, &pk(1), &fresh_record(), false, true).is_ok());
    // Without the authority's signature even the right address fails.
    let d = data_with_creators(Some(vec![Creator { address: pk(1), verified: true, share: 100 }]));
    assert_eq!(
        assert_data_valid(&d, &pk(1), &fresh_record(), false, false).unwrap_err(),
        MetadataError::CannotVerifyAnotherCreator
    );
    // The authorization check precedes the sum test: a wrong sum does
    // not mask an unauthorized verified flag.
    let d = data_with_creators(Some(vec![Creator { address: pk(1), verified: true, share: 60 }]));
    assert_eq!(
        assert_data_valid(&d, &pk(9), &fresh_record(), false, true).unwrap_err(),
        MetadataError::CannotVerifyAnotherCreator
    );
}

#[test]
fn override_flag_skips_signature_checks_but_not_share_sum() {
    let d = data_with_creators(Some(vec![Creator { address: pk(1), verified: true, share: 100 }]));
    assert!(assert_data_valid(&d, &pk(9), &fresh_record(), true, true).is_ok());
    let d = data_with_creators(Some(vec![Creator { address: pk(1), verified: true, share: 99 }]));
    assert_eq!(
        assert_data_valid(&d, &pk(9), &fresh_record(), true, true).unwrap_err(),
        MetadataError::ShareTotalMustBe100
    );
}

#[test]
fn verified_creator_keeps_flag_across_updates() {
    let existing = record_with_creators(vec![
        Creator { address: pk(1), verified: true, share: 100 },
    ]);
    // Re-stating the verified entry is fine.
    let d = data_with_creators(Some(vec![Creator { address: pk(1), verified: true, share: 100 }]));
    assert!(assert_data_valid(&d, &pk(9), &existing, false, true).is_ok());
    // Silently clearing it is not.
    let d = data_with_creators(Some(vec![Creator { address: pk(1), verified: false, share: 100 }]));
    assert_eq!(
        assert_data_valid(&d, &pk(9), &existing, false, true).unwrap_err(),
        MetadataError::CannotUnverifyAnotherCreator
    );
    // Dropping it from the list is not either.
    let d = data_with_creators(Some(vec![Creator { address: pk(2), verified: false, share: 100 }]));
    assert_eq!(
        assert_data_valid(&d, &pk(9), &existing, false, true).unwrap_err(),
        MetadataError::CannotUnverifyAnotherCreator
    );
    // Removing the whole list while a creator is verified is not.
    let d = data_with_creators(None);
    assert_eq!(
        assert_data_valid(&d, &pk(9), &existing, false, true).unwrap_err(),
        MetadataError::CannotRemoveVerifiedCreator
    );
    // The creator's own signature may clear its flag.
    let d = data_with_creators(Some(vec![Creator { address: pk(1), verified: false, share: 100 }]));
    assert!(assert_data_valid(&d, &pk(1), &existing, false, true).is_ok());
}

#[test]
fn collection_update_rules() {
    let x = Collection { verified: true, key: pk(3) };
    let x_again = Collection { verified: true, key: pk(3) };
    let y = Collection { verified: true, key: pk(4) };
    let unverified = Collection { verified: false, key: pk(3) };
    // Identical verified value: pure no-op confirmation.
    assert!(assert_collection_update_is_valid(&Some(x), &Some(x_again)).is_ok());
    // A different verified target rejects.
    assert_eq!(
        assert_collection_update_is_valid(&Some(x), &Some(y)).unwrap_err(),
        MetadataError::CollectionCannotBeVerifiedInThisInstruction
    );
    // Verifying over an unverified or absent value rejects.
    assert_eq!(
        assert_collection_update_is_valid(&Some(unverified), &Some(x)).unwrap_err(),
        MetadataError::CollectionCannotBeVerifiedInThisInstruction
    );
    assert_eq!(
        assert_collection_update_is_valid(&None, &Some(y)).unwrap_err(),
        MetadataError::CollectionCannotBeVerifiedInThisInstruction
    );
    // Unverified incoming over unverified existing is fine.
    assert!(assert_collection_update_is_valid(&Some(unverified), &Some(Collection {
        verified: false,
        key: pk(5)
    }))
    .is_ok());
    assert!(assert_collection_update_is_valid(&None, &None).is_ok());
    // Clearing a verified collection rejects.
    assert_eq!(
        assert_collection_update_is_valid(&Some(x), &None).unwrap_err(),
        MetadataError::CollectionCannotBeVerifiedInThisInstruction
    );
}

#[test]
fn uses_frozen_after_first_consumption() {
    let used = Uses { use_method: UseMethod::Multiple, remaining: 3, total: 9 };
    let untouched = Uses { use_method: UseMethod::Multiple, remaining: 9, total: 9 };
    // Once a use was consumed, the method tag is frozen ...
    let incoming = Uses { use_method: UseMethod::Burn, remaining: 3, total: 9 };
    assert_eq!(
        assert_valid_use(&Some(incoming), &Some(used)).unwrap_err(),
        MetadataError::CannotChangeUseMethodAfterFirstUse
    );
    // ... and so are the counters.
    let incoming = Uses { use_method: UseMethod::Multiple, remaining: 3, total: 5 };
    assert_eq!(
        assert_valid_use(&Some(incoming), &Some(used)).unwrap_err(),
        MetadataError::CannotChangeUsesAfterFirstUse
    );
    let incoming = Uses { use_method: UseMethod::Multiple, remaining: 2, total: 9 };
    assert_eq!(
        assert_valid_use(&Some(incoming), &Some(used)).unwrap_err(),
        MetadataError::CannotChangeUsesAfterFirstUse
    );
    // Before any consumption everything may change.
    let incoming = Uses { use_method: UseMethod::Single, remaining: 1, total: 1 };
    assert!(assert_valid_use(&Some(incoming), &Some(untouched)).is_ok());
    assert!(assert_valid_use(&None, &Some(used)).is_ok());
    assert!(assert_valid_use(&Some(used), &None).is_ok());
    // A descriptor whose remaining count exceeds its total never holds.
    let inconsistent = Uses { use_method: UseMethod::Multiple, remaining: 10, total: 9 };
    assert_eq!(
        assert_valid_use(&Some(inconsistent), &None).unwrap_err(),
        MetadataError::InvalidUseMethod
    );
}

#[test]
fn update_authority_identity_and_signature() {
    let mut m = Metadata::empty();
    m.update_authority = pk(7);
    let good = NativeAccountData { key: pk(7), daltons: 0, data: Vec::new(), program_id: pk(0), is_signer: true };
    assert!(assert_update_authority_is_correct(&m, &good).is_ok());
    let wrong = NativeAccountData { key: pk(8), daltons: 0, data: Vec::new(), program_id: pk(0), is_signer: true };
    assert_eq!(
        assert_update_authority_is_correct(&m, &wrong).unwrap_err(),
        MetadataError::UpdateAuthorityIncorrect
    );
    let unsigned = NativeAccountData { key: pk(7), daltons: 0, data: Vec::new(), program_id: pk(0), is_signer: false };
    assert_eq!(
        assert_update_authority_is_correct(&m, &unsigned).unwrap_err(),
        MetadataError::UpdateAuthorityIsNotSigner
    );
}

#[test]
fn mint_authority_must_match_and_sign() {
    let signer = NativeAccountData { key: pk(5), daltons: 0, data: Vec::new(), program_id: pk(0), is_signer: true };
    assert!(assert_mint_authority_matches_mint(&Some(pk(5)), &signer).is_ok());
    assert_eq!(
        assert_mint_authority_matches_mint(&None, &signer).unwrap_err(),
        MetadataError::InvalidMintAuthority
    );
    assert_eq!(
        assert_mint_authority_matches_mint(&Some(pk(6)), &signer).unwrap_err(),
        MetadataError::InvalidMintAuthority
    );
    let unsigned = NativeAccountData { key: pk(5), daltons: 0, data: Vec::new(), program_id: pk(0), is_signer: false };
    assert_eq!(
        assert_mint_authority_matches_mint(&Some(pk(5)), &unsigned).unwrap_err(),
        MetadataError::NotMintAuthority
    );
}

#[test]
fn ownership_checks() {
    let account = NativeAccountData { key: pk(1), daltons: 0, data: Vec::new(), program_id: pk(20), is_signer: false };
    assert!(assert_owned_by(&account, &pk(20)).is_ok());
    assert_eq!(
        assert_owned_by(&account, &pk(21)).unwrap_err(),
        MetadataError::IncorrectOwner
    );
    assert!(assert_owner_in(&account, &vec![pk(19), pk(20)]).is_ok());
    assert_eq!(
        assert_owner_in(&account, &vec![pk(19), pk(21)]).unwrap_err(),
        MetadataError::IncorrectOwner
    );
    assert_eq!(
        assert_owner_in(&account, &Vec::new()).unwrap_err(),
        MetadataError::IncorrectOwner
    );
}
