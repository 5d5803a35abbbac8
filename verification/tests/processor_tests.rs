//! The simple-schema processor and the address derivation.

use token_metadata::account::NativeAccountData;
use token_metadata::account::Pubkey;
use token_metadata::error::MetadataError;
use token_metadata::pda::derive_metadata_pda;
use token_metadata::processor::decode_token_instruction;
use token_metadata::processor::decode_token_metadata;
use token_metadata::processor::encode_token_metadata;
use token_metadata::processor::Processor;
use token_metadata::state::TokenMetadata;

const RENT: u64 = 500_000;

fn pk(n: u8) -> Pubkey {
    Pubkey { bytes: [n; 32] }
}

fn program_id() -> Pubkey {
    pk(11)
}

fn instruction_bytes(tag: u8, name: &[u8], symbol: &[u8], uri: &[u8]) -> Vec<u8> {
    let mut v = vec![tag];
    for field in [name, symbol, uri] {
        v.extend_from_slice(&(field.len() as u32).to_le_bytes());
        v.extend_from_slice(field);
    }
    v
}

fn initialized(
    name: &[u8],
    symbol: &[u8],
    uri: &[u8],
) -> (NativeAccountData, NativeAccountData, NativeAccountData) {
    let mint = NativeAccountData::new(82, pk(12));
    let mint = NativeAccountData { key: pk(30), ..mint };
    let (address, _bump) = derive_metadata_pda(&mint.key, &program_id()).expect("derivation");
    let mut slot = NativeAccountData { key: address, daltons: 0, data: Vec::new(), program_id: pk(0), is_signer: false };
    let mut authority = NativeAccountData { key: pk(33), daltons: 10 * RENT, data: Vec::new(), program_id: pk(0), is_signer: true };
    Processor::process(
        &program_id(),
        &mut slot,
        &mint,
        &mut authority,
        &instruction_bytes(0, name, symbol, uri),
        RENT,
    )
    .expect("initialize");
    (slot, mint, authority)
}

#[test]
fn initialize_writes_the_record_and_funds_the_slot() {
    let (slot, mint, authority) = initialized(b"Name", b"SYM", b"uri");
    assert_eq!(slot.daltons, RENT);
    assert_eq!(authority.daltons, 9 * RENT);
    assert_eq!(slot.program_id.bytes, program_id().bytes);
    assert_eq!(slot.data.len(), 1 + 32 + 4 + 4 + 4 + 3 + 3 + 4 + 32);
    let record = decode_token_metadata(&slot.data).expect("decode");
    assert_eq!(record.mint.bytes, mint.key.bytes);
    assert_eq!(record.name, b"Name".to_vec());
    assert_eq!(record.symbol, b"SYM".to_vec());
    assert_eq!(record.uri, b"uri".to_vec());
    assert_eq!(record.authority.bytes, [33; 32]);
}

#[test]
fn initialize_rejects_occupied_slot_and_wrong_address() {
    let (mut slot, mint, _) = initialized(b"Name", b"SYM", b"uri");
    let mut authority = NativeAccountData { key: pk(33), daltons: 10 * RENT, data: Vec::new(), program_id: pk(0), is_signer: true };
    let err = Processor::process(
        &program_id(),
        &mut slot,
        &mint,
        &mut authority,
        &instruction_bytes(0, b"Name", b"SYM", b"uri"),
        RENT,
    )
    .unwrap_err();
    assert_eq!(err, MetadataError::AlreadyInitialized);

    let mut wrong = NativeAccountData { key: pk(44), daltons: 0, data: Vec::new(), program_id: pk(0), is_signer: false };
    let err = Processor::process(
        &program_id(),
        &mut wrong,
        &mint,
        &mut authority,
        &instruction_bytes(0, b"Name", b"SYM", b"uri"),
        RENT,
    )
    .unwrap_err();
    assert_eq!(err, MetadataError::InvalidPda);
}

#[test]
fn update_changes_fields_under_the_stored_authority() {
    let (mut slot, mint, mut authority) = initialized(b"Name", b"SYM", b"uri");
    Processor::process(
        &program_id(),
        &mut slot,
        &mint,
        &mut authority,
        &instruction_bytes(1, b"Other", b"OTH", b"u2"),
        RENT,
    )
    .expect("update");
    let record = decode_token_metadata(&slot.data).unwrap();
    assert_eq!(record.name, b"Other".to_vec());
    assert_eq!(record.symbol, b"OTH".to_vec());
    assert_eq!(record.uri, b"u2".to_vec());
}

#[test]
fn update_rejects_wrong_authority_and_uninitialized_record() {
    let (mut slot, mint, _) = initialized(b"Name", b"SYM", b"uri");
    let mut impostor = NativeAccountData { key: pk(44), daltons: 0, data: Vec::new(), program_id: pk(0), is_signer: true };
    let err = Processor::process(
        &program_id(),
        &mut slot,
        &mint,
        &mut impostor,
        &instruction_bytes(1, b"Other", b"OTH", b"u2"),
        RENT,
    )
    .unwrap_err();
    assert_eq!(err, MetadataError::InvalidAuthority);

    // A record whose fields are empty counts as not initialized.
    let empty = TokenMetadata {
        mint: pk(30),
        name: Vec::new(),
        symbol: Vec::new(),
        uri: Vec::new(),
        authority: pk(33),
    };
    slot.data = encode_token_metadata(&empty);
    let mut authority = NativeAccountData { key: pk(33), daltons: 0, data: Vec::new(), program_id: pk(0), is_signer: true };
    let err = Processor::process(
        &program_id(),
        &mut slot,
        &mint,
        &mut authority,
        &instruction_bytes(1, b"Other", b"OTH", b"u2"),
        RENT,
    )
    .unwrap_err();
    assert_eq!(err, MetadataError::NotInitialized);
}

#[test]
fn update_requires_the_authority_to_sign() {
    let (mut slot, mint, _) = initialized(b"Name", b"SYM", b"uri");
    let mut unsigned = NativeAccountData { key: pk(33), daltons: 0, data: Vec::new(), program_id: pk(0), is_signer: false };
    let err = Processor::process(
        &program_id(),
        &mut slot,
        &mint,
        &mut unsigned,
        &instruction_bytes(1, b"Other", b"OTH", b"u2"),
        RENT,
    )
    .unwrap_err();
    assert_eq!(err, MetadataError::UpdateAuthorityIsNotSigner);
    // The record is untouched.
    let record = decode_token_metadata(&slot.data).unwrap();
    assert_eq!(record.name, b"Name".to_vec());
}

#[test]
fn field_bounds_are_checked_before_anything_else() {
    let mint = NativeAccountData { key: pk(30), ..NativeAccountData::new(82, pk(12)) };
    let mut slot = NativeAccountData { key: pk(44), daltons: 0, data: Vec::new(), program_id: pk(0), is_signer: false };
    let mut authority = NativeAccountData { key: pk(33), daltons: 10 * RENT, data: Vec::new(), program_id: pk(0), is_signer: true };
    let long_name = vec![b'a'; 33];
    let err = Processor::process(
        &program_id(),
        &mut slot,
        &mint,
        &mut authority,
        &instruction_bytes(0, &long_name, b"SYM", b"uri"),
        RENT,
    )
    .unwrap_err();
    assert_eq!(err, MetadataError::NameTooLong);
}

#[test]
fn instruction_decoding_is_strict() {
    // Unknown tag.
    assert_eq!(
        decode_token_instruction(&instruction_bytes(2, b"a", b"b", b"c")).unwrap_err(),
        MetadataError::InstructionUnpackError
    );
    // Trailing bytes.
    let mut bytes = instruction_bytes(0, b"a", b"b", b"c");
    bytes.push(0);
    assert_eq!(
        decode_token_instruction(&bytes).unwrap_err(),
        MetadataError::InstructionUnpackError
    );
    // Truncated payload.
    let bytes = instruction_bytes(0, b"a", b"b", b"c");
    let truncated = bytes[..bytes.len() - 1].to_vec();
    assert_eq!(
        decode_token_instruction(&truncated).unwrap_err(),
        MetadataError::InstructionUnpackError
    );
    // An empty payload.
    assert_eq!(
        decode_token_instruction(&Vec::new()).unwrap_err(),
        MetadataError::InstructionUnpackError
    );
}

#[test]
fn token_record_roundtrip_matches_reference_serializer() {
    let record = TokenMetadata {
        mint: pk(30),
        name: b"Name".to_vec(),
        symbol: b"SYM".to_vec(),
        uri: b"uri".to_vec(),
        authority: pk(33),
    };
    let ours = encode_token_metadata(&record);
    let reference = borsh::to_vec(&(
        [30u8; 32],
        b"Name".to_vec(),
        b"SYM".to_vec(),
        b"uri".to_vec(),
        [33u8; 32],
    ))
    .unwrap();
    assert_eq!(ours, reference);
    let back = decode_token_metadata(&ours).unwrap();
    assert_eq!(encode_token_metadata(&back), ours);
}

#[test]
fn derivation_matches_the_ledger_sdk_and_depends_on_the_mint() {
    let (ours, bump) = derive_metadata_pda(&pk(30), &program_id()).expect("derivation");
    let sdk_pid = solana_pubkey::Pubkey::new_from_array(program_id().bytes);
    let (sdk, sdk_bump) =
        solana_pubkey::Pubkey::find_program_address(&[b"metadata", &[30u8; 32]], &sdk_pid);
    assert_eq!(ours.bytes, *sdk.as_array());
    assert_eq!(bump, sdk_bump);
    // The derived address is not the mint handed back, and another
    // mint gives another address.
    assert_ne!(ours.bytes, [30u8; 32]);
    let (other, _) = derive_metadata_pda(&pk(31), &program_id()).unwrap();
    assert_ne!(ours.bytes, other.bytes);

}
