//! Byte-level behavior of the record codec.

use token_metadata::account::Pubkey;
use token_metadata::decode::meta_deser_unchecked;
use token_metadata::encode::encode_metadata;
use token_metadata::error::MetadataError;
use token_metadata::state::Collection;
use token_metadata::state::CollectionDetails;
use token_metadata::state::Creator;
use token_metadata::state::Data;
use token_metadata::state::Key;
use token_metadata::state::Metadata;
use token_metadata::state::TokenStandard;
use token_metadata::state::UseMethod;
use token_metadata::state::Uses;
use token_metadata::state::MAX_METADATA_LEN;

fn pk(n: u8) -> Pubkey {
    Pubkey { bytes: [n; 32] }
}

fn sample_data(creators: Option<Vec<Creator>>) -> Data {
    Data {
        name: b"Asset".to_vec(),
        symbol: b"AST".to_vec(),
        uri: b"https://example.com/asset".to_vec(),
        seller_fee_basis_points: 500,
        creators,
        collection: None,
        uses: None,
    }
}

fn sample_record() -> Metadata {
    let mut m = Metadata::empty();
    m.key = Key::Metadata;
    m.update_authority = pk(7);
    m.mint = pk(9);
    m.data = sample_data(Some(vec![
        Creator { address: pk(1), verified: false, share: 60 },
        Creator { address: pk(2), verified: true, share: 40 },
    ]));
    m.primary_sale_happened = true;
    m.is_mutable = true;
    m.token_standard = Some(TokenStandard::NonFungible);
    m.collection = Some(Collection { verified: true, key: pk(3) });
    m.collection_details = Some(CollectionDetails::V1 { size: 0 });
    m.uses = Some(Uses { use_method: UseMethod::Multiple, remaining: 4, total: 9 });
    m
}

#[test]
fn encode_decode_roundtrip_bytes() {
    let m = sample_record();
    let bytes = encode_metadata(&m);
    let decoded = Metadata::safe_deserialize(&bytes).expect("strict decode");
    let bytes2 = encode_metadata(&decoded);
    assert_eq!(bytes, bytes2);
}

#[test]
fn roundtrip_preserves_fields() {
    let m = sample_record();
    let bytes = encode_metadata(&m);
    let d = Metadata::safe_deserialize(&bytes).unwrap();
    assert_eq!(d.key, Key::Metadata);
    assert_eq!(d.update_authority.bytes, [7; 32]);
    assert_eq!(d.mint.bytes, [9; 32]);
    assert_eq!(d.data.name, b"Asset".to_vec());
    assert_eq!(d.data.symbol, b"AST".to_vec());
    assert_eq!(d.data.uri, b"https://example.com/asset".to_vec());
    assert_eq!(d.data.seller_fee_basis_points, 500);
    let cs = d.data.creators.as_ref().unwrap();
    assert_eq!(cs.len(), 2);
    assert_eq!(cs[0].address.bytes, [1; 32]);
    assert!(!cs[0].verified);
    assert_eq!(cs[0].share, 60);
    assert_eq!(cs[1].share, 40);
    assert!(cs[1].verified);
    assert!(d.primary_sale_happened);
    assert!(d.is_mutable);
    assert_eq!(d.token_standard, Some(TokenStandard::NonFungible));
    let c = d.collection.unwrap();
    assert!(c.verified);
    assert_eq!(c.key.bytes, [3; 32]);
    match d.collection_details.unwrap() {
        CollectionDetails::V1 { size } => assert_eq!(size, 0),
        CollectionDetails::V2 { .. } => panic!("wrong details version"),
    }
    let u = d.uses.unwrap();
    assert_eq!(u.use_method, UseMethod::Multiple);
    assert_eq!(u.remaining, 4);
    assert_eq!(u.total, 9);
}

#[test]
fn encode_matches_reference_serializer() {
    // The layout must agree byte for byte with the ecosystem's
    // standard little-endian, length-prefixed serialization.
    let m = sample_record();
    let ours = encode_metadata(&m);
    let reference = borsh::to_vec(&(
        1u8,
        [7u8; 32],
        [9u8; 32],
        b"Asset".to_vec(),
        b"AST".to_vec(),
        b"https://example.com/asset".to_vec(),
        500u16,
        Some(vec![([1u8; 32], false, 60u8), ([2u8; 32], true, 40u8)]),
        true,
        true,
        Some(1u8),
        Some((true, [3u8; 32])),
        Some((1u8, 4u64, 9u64)),
        Some((0u8, 0u64)),
    ))
    .unwrap();
    assert_eq!(ours, reference);
}

#[test]
fn lenient_decode_of_zeroed_account_is_empty_record() {
    let zeros = vec![0u8; MAX_METADATA_LEN];
    let m = meta_deser_unchecked(&zeros).expect("zeroed buffer decodes");
    assert_eq!(m.key, Key::Uninitialized);
    assert_eq!(m.update_authority.bytes, [0; 32]);
    assert!(m.data.creators.is_none());
    assert!(m.token_standard.is_none());
    assert!(m.collection.is_none());
    assert!(m.collection_details.is_none());
    assert!(m.uses.is_none());
}

#[test]
fn lenient_decode_resets_coupled_blocks_on_corrupt_collection() {
    // A collection block with valid bytes that fail type constraints
    // (a flag byte that is neither 0 nor 1) must reset the token
    // standard, the collection and the uses block together, even
    // though the token-standard and uses bytes are well formed.
    let mut m = sample_record();
    m.data.creators = None;
    m.data.name = Vec::new();
    m.data.symbol = Vec::new();
    m.data.uri = Vec::new();
    let mut bytes = encode_metadata(&m);
    // Prefix: 1 + 32 + 32 + (4 + 4 + 4 + 2 + 1) + 1 + 1 = 82; the
    // token standard takes 2 bytes; the collection flag sits after
    // the option tag at 84.
    assert_eq!(bytes[84], 1);
    bytes[85] = 7;
    let d = meta_deser_unchecked(&bytes).expect("prefix still decodes");
    assert!(d.token_standard.is_none());
    assert!(d.collection.is_none());
    assert!(d.uses.is_none());
    assert_eq!(d.update_authority.bytes, [7; 32]);
    assert!(d.primary_sale_happened);
}

#[test]
fn lenient_decode_keeps_middle_blocks_on_corrupt_size_block() {
    // The collection-size descriptor fails on its own: the three
    // coupled blocks stay.
    let mut m = sample_record();
    m.data.creators = None;
    m.data.name = Vec::new();
    m.data.symbol = Vec::new();
    m.data.uri = Vec::new();
    let mut bytes = encode_metadata(&m);
    // 82 (prefix) + 2 (standard) + 34 (collection) + 18 (uses) = 136.
    assert_eq!(bytes[136], 1);
    bytes[136] = 9;
    let d = meta_deser_unchecked(&bytes).expect("prefix still decodes");
    assert_eq!(d.token_standard, Some(TokenStandard::NonFungible));
    assert!(d.collection.is_some());
    assert!(d.uses.is_some());
    assert!(d.collection_details.is_none());
}

#[test]
fn strict_decode_rejects_unknown_discriminator() {
    let mut bytes = encode_metadata(&sample_record());
    bytes[0] = 5;
    assert_eq!(
        Metadata::safe_deserialize(&bytes).unwrap_err(),
        MetadataError::DataTypeMismatch
    );
}

#[test]
fn strict_decode_rejects_empty_buffer() {
    let bytes: Vec<u8> = Vec::new();
    assert_eq!(
        Metadata::safe_deserialize(&bytes).unwrap_err(),
        MetadataError::DataTypeMismatch
    );
}

#[test]
fn lenient_decode_rejects_truncated_prefix() {
    let bytes = vec![1u8; 40];
    assert_eq!(
        meta_deser_unchecked(&bytes).unwrap_err(),
        MetadataError::DataTypeMismatch
    );
}

#[test]
fn account_type_check_accepts_uninitialized_tag() {
    let zeros = vec![0u8; MAX_METADATA_LEN];
    assert!(Metadata::is_correct_account_type(&zeros, Key::Metadata, 0));
    assert!(Metadata::is_correct_account_type(
        &zeros,
        Key::Metadata,
        MAX_METADATA_LEN
    ));
    assert!(!Metadata::is_correct_account_type(&zeros, Key::Metadata, 5));
    let empty: Vec<u8> = Vec::new();
    assert!(!Metadata::is_correct_account_type(&empty, Key::Metadata, 0));
}

#[test]
fn tag_decoders_reject_unknown_values() {
    assert_eq!(Key::from_u8(2), None);
    assert_eq!(TokenStandard::from_u8(2), None);
    assert_eq!(UseMethod::from_u8(3), None);
    assert_eq!(Key::from_u8(1), Some(Key::Metadata));
    assert_eq!(TokenStandard::from_u8(0), Some(TokenStandard::Fungible));
    assert_eq!(UseMethod::from_u8(2), Some(UseMethod::Single));
}
