//! The simple-schema processor: initialize and update a record that
//! holds only the mint, the three string fields and the authority.

use vstd::prelude::*;

use crate::account::AccountView;
use crate::account::NativeAccountData;
use crate::account::Pubkey;
use crate::codec::parse_bytes32;
use crate::codec::parse_u8;
use crate::codec::parse_vec_bytes;
use crate::codec::ser_bytes;
use crate::decode::read_prefixed_bytes;
use crate::decode::read_pubkey;
use crate::decode::read_u8;
use crate::encode::push_prefixed_bytes;
use crate::encode::push_pubkey;
use crate::error::MetadataError;
use crate::instruction::TokenInstruction;
use crate::instruction::TokenInstructionView;
use crate::pda::derive_metadata_pda;
use crate::pda::metadata_seed;
use crate::pda::pda_address;
use crate::pda::pda_found;
use crate::state::TokenMetadata;
use crate::state::TokenMetadataView;
use crate::state::MAX_NAME_LENGTH;
use crate::state::MAX_SYMBOL_LENGTH;
use crate::state::MAX_URI_LENGTH;

verus! {

// ----------------------------------------------------------------------
// The simple-schema binary format
// ----------------------------------------------------------------------

/// The bytes a simple-schema record is stored as.
pub open spec fn ser_token_metadata(t: TokenMetadataView) -> Seq<u8> {
    t.mint + ser_bytes(t.name) + ser_bytes(t.symbol) + ser_bytes(t.uri) + t.authority
}

/// The record a buffer decodes to; trailing bytes are ignored.
pub open spec fn parse_token_metadata(s: Seq<u8>) -> Option<TokenMetadataView> {
    match parse_bytes32(s, 0) {
        Some((mint, a)) => match parse_vec_bytes(s, a) {
            Some((name, b)) => match parse_vec_bytes(s, b) {
                Some((symbol, c)) => match parse_vec_bytes(s, c) {
                    Some((uri, d)) => match parse_bytes32(s, d) {
                        Some((authority, _)) => Some(
                            TokenMetadataView { mint, name, symbol, uri, authority },
                        ),
                        None => None,
                    },
                    None => None,
                },
                None => None,
            },
            None => None,
        },
        None => None,
    }
}

/// The instruction a payload decodes to: a variant tag and the three
/// string fields, with no bytes left over.
pub open spec fn parse_token_instruction(s: Seq<u8>) -> Option<TokenInstructionView> {
    match parse_u8(s, 0) {
        Some((tag, a)) => if tag == 0 || tag == 1 {
            match parse_vec_bytes(s, a) {
                Some((name, b)) => match parse_vec_bytes(s, b) {
                    Some((symbol, c)) => match parse_vec_bytes(s, c) {
                        Some((uri, d)) => if d == s.len() {
                            if tag == 0 {
                                Some(TokenInstructionView::Initialize { name, symbol, uri })
                            } else {
                                Some(TokenInstructionView::Update { name, symbol, uri })
                            }
                        } else {
                            None
                        },
                        None => None,
                    },
                    None => None,
                },
                None => None,
            }
        } else {
            None
        },
        None => None,
    }
}

/// Encodes a simple-schema record.
pub fn encode_token_metadata(t: &TokenMetadata) -> (r: Vec<u8>)
    requires
        t.name@.len() <= u32::MAX,
        t.symbol@.len() <= u32::MAX,
        t.uri@.len() <= u32::MAX,
    ensures
        r@ == ser_token_metadata(t@),
{
    let mut v: Vec<u8> = Vec::new();
    push_pubkey(&mut v, &t.mint);
    push_prefixed_bytes(&mut v, &t.name);
    push_prefixed_bytes(&mut v, &t.symbol);
    push_prefixed_bytes(&mut v, &t.uri);
    push_pubkey(&mut v, &t.authority);
    proof {
        assert(v@ =~= ser_token_metadata(t@));
    }
    v
}

/// Decodes a simple-schema record from a buffer.
pub fn decode_token_metadata(data: &Vec<u8>) -> (r: Result<TokenMetadata, MetadataError>)
    ensures
        match r {
            Ok(t) => parse_token_metadata(data@) == Some(t@),
            Err(e) => parse_token_metadata(data@) is None && e == MetadataError::DataTypeMismatch,
        },
{
    match read_pubkey(data, 0) {
        Some((mint, a)) => match read_prefixed_bytes(data, a) {
            Some((name, b)) => match read_prefixed_bytes(data, b) {
                Some((symbol, c)) => match read_prefixed_bytes(data, c) {
                    Some((uri, d)) => match read_pubkey(data, d) {
                        Some((authority, _)) => Ok(
                            TokenMetadata { mint, name, symbol, uri, authority },
                        ),
                        None => Err(MetadataError::DataTypeMismatch),
                    },
                    None => Err(MetadataError::DataTypeMismatch),
                },
                None => Err(MetadataError::DataTypeMismatch),
            },
            None => Err(MetadataError::DataTypeMismatch),
        },
        None => Err(MetadataError::DataTypeMismatch),
    }
}

/// Decodes an instruction payload, rejecting unknown tags, malformed
/// fields and trailing bytes alike.
pub fn decode_token_instruction(data: &Vec<u8>) -> (r: Result<TokenInstruction, MetadataError>)
    ensures
        match r {
            Ok(t) => parse_token_instruction(data@) == Some(t@),
            Err(e) => parse_token_instruction(data@) is None && e
                == MetadataError::InstructionUnpackError,
        },
{
    match read_u8(data, 0) {
        Some((tag, a)) => {
            if tag > 1 {
                return Err(MetadataError::InstructionUnpackError);
            }
            match read_prefixed_bytes(data, a) {
                Some((name, b)) => match read_prefixed_bytes(data, b) {
                    Some((symbol, c)) => match read_prefixed_bytes(data, c) {
                        Some((uri, d)) => {
                            if d != data.len() {
                                return Err(MetadataError::InstructionUnpackError);
                            }
                            if tag == 0 {
                                Ok(TokenInstruction::Initialize { name, symbol, uri })
                            } else {
                                Ok(TokenInstruction::Update { name, symbol, uri })
                            }
                        },
                        None => Err(MetadataError::InstructionUnpackError),
                    },
                    None => Err(MetadataError::InstructionUnpackError),
                },
                None => Err(MetadataError::InstructionUnpackError),
            }
        },
        None => Err(MetadataError::InstructionUnpackError),
    }
}

// ----------------------------------------------------------------------
// Verdicts
// ----------------------------------------------------------------------

/// The first length bound a set of string fields violates, if any.
pub open spec fn fields_verdict(name: Seq<u8>, symbol: Seq<u8>, uri: Seq<u8>) -> Option<
    MetadataError,
> {
    if name.len() > MAX_NAME_LENGTH {
        Some(MetadataError::NameTooLong)
    } else if symbol.len() > MAX_SYMBOL_LENGTH {
        Some(MetadataError::SymbolTooLong)
    } else if uri.len() > MAX_URI_LENGTH {
        Some(MetadataError::UriTooLong)
    } else {
        None
    }
}

/// The size of the account an initialize allocates.
pub open spec fn initialize_account_size(name: Seq<u8>, symbol: Seq<u8>, uri: Seq<u8>) -> int {
    1 + 32 + 4 + name.len() as int + 4 + symbol.len() as int + 4 + uri.len() as int + 32
}

/// What an initialize decides: the fields must respect their bounds,
/// the slot must still be empty, the supplied account must sit at the
/// derived address, and the authority must carry the rent.
pub open spec fn initialize_verdict(
    program_id: Seq<u8>,
    metadata_account: AccountView,
    mint_account: AccountView,
    authority: AccountView,
    name: Seq<u8>,
    symbol: Seq<u8>,
    uri: Seq<u8>,
    rent_minimum: u64,
    derived: Option<Seq<u8>>,
) -> Result<TokenMetadataView, MetadataError> {
    match fields_verdict(name, symbol, uri) {
        Some(e) => Err(e),
        None => if metadata_account.data.len() != 0 {
            Err(MetadataError::AlreadyInitialized)
        } else if !(derived matches Some(a) && a == metadata_account.key) {
            Err(MetadataError::InvalidPda)
        } else if authority.daltons < rent_minimum {
            Err(MetadataError::NotRentExempt)
        } else if metadata_account.daltons + rent_minimum > u64::MAX {
            Err(MetadataError::NumericalOverflowError)
        } else {
            Ok(
                TokenMetadataView {
                    mint: mint_account.key,
                    name,
                    symbol,
                    uri,
                    authority: authority.key,
                },
            )
        },
    }
}

/// What an update decides: the fields must respect their bounds, the
/// account must sit at the derived address and hold an initialized
/// record, and the stored authority must be the caller and must have
/// signed the call.
pub open spec fn simple_update_verdict(
    program_id: Seq<u8>,
    metadata_account: AccountView,
    authority: AccountView,
    name: Seq<u8>,
    symbol: Seq<u8>,
    uri: Seq<u8>,
    derived: Option<Seq<u8>>,
) -> Result<TokenMetadataView, MetadataError> {
    match fields_verdict(name, symbol, uri) {
        Some(e) => Err(e),
        None => if !(derived matches Some(a) && a == metadata_account.key) {
            Err(MetadataError::InvalidPda)
        } else {
            match parse_token_metadata(metadata_account.data) {
                None => Err(MetadataError::DataTypeMismatch),
                Some(tm) => if tm.name.len() == 0 || tm.symbol.len() == 0 || tm.uri.len() == 0 {
                    Err(MetadataError::NotInitialized)
                } else if tm.authority != authority.key {
                    Err(MetadataError::InvalidAuthority)
                } else if !authority.is_signer {
                    Err(MetadataError::UpdateAuthorityIsNotSigner)
                } else {
                    let new_tm = TokenMetadataView { name, symbol, uri, ..tm };
                    if ser_token_metadata(new_tm).len() > metadata_account.data.len() {
                        Err(MetadataError::InvalidAccountData)
                    } else {
                        Ok(new_tm)
                    }
                },
            }
        },
    }
}

/// What a dispatched instruction decides.
pub open spec fn process_verdict(
    program_id: Seq<u8>,
    metadata_account: AccountView,
    mint_account: AccountView,
    authority: AccountView,
    instruction_data: Seq<u8>,
    rent_minimum: u64,
    derived: Option<Seq<u8>>,
) -> Result<TokenMetadataView, MetadataError> {
    match parse_token_instruction(instruction_data) {
        None => Err(MetadataError::InstructionUnpackError),
        Some(TokenInstructionView::Initialize { name, symbol, uri }) => initialize_verdict(
            program_id,
            metadata_account,
            mint_account,
            authority,
            name,
            symbol,
            uri,
            rent_minimum,
            derived,
        ),
        Some(TokenInstructionView::Update { name, symbol, uri }) => simple_update_verdict(
            program_id,
            metadata_account,
            authority,
            name,
            symbol,
            uri,
            derived,
        ),
    }
}

/// The account states a successfully dispatched instruction leaves
/// behind: an initialize allocates, funds and writes the fresh record;
/// an update rewrites the record's bytes in place and moves no funds.
pub open spec fn process_success_state(
    program_id: Seq<u8>,
    pre_ma: AccountView,
    post_ma: AccountView,
    mint: AccountView,
    pre_auth: AccountView,
    post_auth: AccountView,
    instruction_data: Seq<u8>,
    rent_minimum: u64,
) -> bool {
    match parse_token_instruction(instruction_data) {
        Some(TokenInstructionView::Initialize { name, symbol, uri }) => {
            let tm = TokenMetadataView {
                mint: mint.key,
                name,
                symbol,
                uri,
                authority: pre_auth.key,
            };
            &&& post_ma.data.len() == initialize_account_size(name, symbol, uri)
            &&& post_ma.data.subrange(0, ser_token_metadata(tm).len() as int)
                == ser_token_metadata(tm)
            &&& post_ma.program_id == program_id
            &&& post_ma.daltons == pre_ma.daltons + rent_minimum
            &&& post_ma.key == pre_ma.key
            &&& post_auth == AccountView {
                daltons: (pre_auth.daltons - rent_minimum) as u64,
                ..pre_auth
            }
        },
        Some(TokenInstructionView::Update { name, symbol, uri }) => {
            &&& simple_update_verdict(
                program_id,
                pre_ma,
                pre_auth,
                name,
                symbol,
                uri,
                Some(pre_ma.key),
            ) matches Ok(tm) && post_ma.data.subrange(0, ser_token_metadata(tm).len() as int)
                == ser_token_metadata(tm) && post_ma.data.skip(ser_token_metadata(tm).len() as int)
                == pre_ma.data.skip(ser_token_metadata(tm).len() as int)
            &&& post_ma.data.len() == pre_ma.data.len()
            &&& post_ma.key == pre_ma.key
            &&& post_ma.daltons == pre_ma.daltons
            &&& post_ma.program_id == pre_ma.program_id
            &&& post_auth == pre_auth
        },
        None => false,
    }
}

// ----------------------------------------------------------------------
// The processor
// ----------------------------------------------------------------------

/// The simple-schema program's entry points.
pub struct Processor;

impl Processor {
    /// Validates the string fields for length.
    fn validate_metadata_fields(name: &Vec<u8>, symbol: &Vec<u8>, uri: &Vec<u8>) -> (r: Result<
        (),
        MetadataError,
    >)
        ensures
            match r {
                Ok(()) => fields_verdict(name@, symbol@, uri@) is None,
                Err(e) => fields_verdict(name@, symbol@, uri@) == Some(e),
            },
    {
        if name.len() > MAX_NAME_LENGTH {
            return Err(MetadataError::NameTooLong);
        }
        if symbol.len() > MAX_SYMBOL_LENGTH {
            return Err(MetadataError::SymbolTooLong);
        }
        if uri.len() > MAX_URI_LENGTH {
            return Err(MetadataError::UriTooLong);
        }
        Ok(())
    }

    /// Initializes a fresh record: allocates the derived slot, funds
    /// it from the authority, and writes the record's bytes, with the
    /// derivation outcome handed in as a plain value.
    #[verifier::loop_isolation(false)]
    pub fn process_initialize(
        program_id: &Pubkey,
        metadata_account: &mut NativeAccountData,
        mint_account: &NativeAccountData,
        authority: &mut NativeAccountData,
        name: Vec<u8>,
        symbol: Vec<u8>,
        uri: Vec<u8>,
        rent_minimum: u64,
        derived: Option<Pubkey>,
    ) -> (r: Result<(), MetadataError>)
        ensures
            ({
                let verdict = initialize_verdict(
                    program_id@,
                    old(metadata_account)@,
                    mint_account@,
                    old(authority)@,
                    name@,
                    symbol@,
                    uri@,
                    rent_minimum,
                    crate::create::view_opt_key(derived),
                );
                match verdict {
                    Ok(tm) => {
                        &&& r is Ok
                        &&& final(metadata_account).data@.len() == initialize_account_size(
                            name@,
                            symbol@,
                            uri@,
                        )
                        &&& final(metadata_account).data@.subrange(
                            0,
                            ser_token_metadata(tm).len() as int,
                        ) == ser_token_metadata(tm)
                        &&& final(metadata_account).data@.last() == 0
                        &&& final(metadata_account).program_id == *program_id
                        &&& final(metadata_account).daltons == old(metadata_account).daltons
                            + rent_minimum
                        &&& final(metadata_account).key == old(metadata_account).key
                        &&& final(metadata_account).is_signer == old(metadata_account).is_signer
                        &&& final(authority).daltons == old(authority).daltons - rent_minimum
                        &&& final(authority).key == old(authority).key
                        &&& final(authority).data == old(authority).data
                        &&& final(authority).program_id == old(authority).program_id
                        &&& final(authority).is_signer == old(authority).is_signer
                    },
                    Err(e) => r == Err::<(), MetadataError>(e) && *final(metadata_account) == *old(
                        metadata_account,
                    ) && *final(authority) == *old(authority),
                }
            }),
    {
        Self::validate_metadata_fields(&name, &symbol, &uri)?;
        if metadata_account.data.len() != 0 {
            return Err(MetadataError::AlreadyInitialized);
        }
        let derived_key = match derived {
            Some(k) => k,
            None => {
                return Err(MetadataError::InvalidPda);
            },
        };
        if !derived_key.equals(&metadata_account.key) {
            return Err(MetadataError::InvalidPda);
        }
        if authority.daltons < rent_minimum {
            return Err(MetadataError::NotRentExempt);
        }
        if rent_minimum > u64::MAX - metadata_account.daltons {
            return Err(MetadataError::NumericalOverflowError);
        }
        authority.daltons = authority.daltons - rent_minimum;
        metadata_account.daltons = metadata_account.daltons + rent_minimum;
        let data_size: usize = 1 + 32 + 4 + name.len() + 4 + symbol.len() + 4 + uri.len() + 32;
        let metadata = TokenMetadata {
            mint: mint_account.key,
            name,
            symbol,
            uri,
            authority: authority.key,
        };
        let bytes = encode_token_metadata(&metadata);
        let mut data: Vec<u8> = Vec::new();
        let mut i: usize = 0;
        while i < data_size
            invariant
                i <= data_size,
                bytes@.len() == data_size - 1,
                data@.len() == i,
                forall|t: int|
                    0 <= t < i ==> data@[t] == (if t < bytes@.len() {
                        bytes@[t]
                    } else {
                        0u8
                    }),
            decreases data_size - i,
        {
            if i < bytes.len() {
                data.push(bytes[i]);
            } else {
                data.push(0);
            }
            i += 1;
        }
        metadata_account.data = data;
        metadata_account.program_id = *program_id;
        proof {
            assert(final(metadata_account).data@.subrange(
                0,
                ser_token_metadata(metadata@).len() as int,
            ) =~= ser_token_metadata(metadata@));
        }
        Ok(())
    }

    /// Updates an initialized record's string fields in place, with
    /// the derivation outcome handed in as a plain value.
    #[verifier::loop_isolation(false)]
    pub fn process_update(
        program_id: &Pubkey,
        metadata_account: &mut NativeAccountData,
        authority: &NativeAccountData,
        name: Vec<u8>,
        symbol: Vec<u8>,
        uri: Vec<u8>,
        derived: Option<Pubkey>,
    ) -> (r: Result<(), MetadataError>)
        ensures
            ({
                let verdict = simple_update_verdict(
                    program_id@,
                    old(metadata_account)@,
                    authority@,
                    name@,
                    symbol@,
                    uri@,
                    crate::create::view_opt_key(derived),
                );
                match verdict {
                    Ok(tm) => {
                        &&& r is Ok
                        &&& final(metadata_account).data@.len() == old(
                            metadata_account,
                        ).data@.len()
                        &&& final(metadata_account).data@.subrange(
                            0,
                            ser_token_metadata(tm).len() as int,
                        ) == ser_token_metadata(tm)
                        &&& final(metadata_account).data@.skip(ser_token_metadata(tm).len() as int)
                            == old(metadata_account).data@.skip(ser_token_metadata(tm).len() as int)
                        &&& final(metadata_account).key == old(metadata_account).key
                        &&& final(metadata_account).daltons == old(metadata_account).daltons
                        &&& final(metadata_account).program_id == old(metadata_account).program_id
                        &&& final(metadata_account).is_signer == old(metadata_account).is_signer
                    },
                    Err(e) => r == Err::<(), MetadataError>(e) && *final(metadata_account) == *old(
                        metadata_account,
                    ),
                }
            }),
    {
        Self::validate_metadata_fields(&name, &symbol, &uri)?;
        let derived_key = match derived {
            Some(k) => k,
            None => {
                return Err(MetadataError::InvalidPda);
            },
        };
        if !derived_key.equals(&metadata_account.key) {
            return Err(MetadataError::InvalidPda);
        }
        let mut metadata = match decode_token_metadata(&metadata_account.data) {
            Ok(t) => t,
            Err(e) => {
                return Err(e);
            },
        };
        if metadata.name.len() == 0 || metadata.symbol.len() == 0 || metadata.uri.len() == 0 {
            return Err(MetadataError::NotInitialized);
        }
        if !metadata.authority.equals(&authority.key) {
            return Err(MetadataError::InvalidAuthority);
        }
        if !authority.is_signer {
            return Err(MetadataError::UpdateAuthorityIsNotSigner);
        }
        metadata.name = name;
        metadata.symbol = symbol;
        metadata.uri = uri;
        let bytes = encode_token_metadata(&metadata);
        if bytes.len() > metadata_account.data.len() {
            return Err(MetadataError::InvalidAccountData);
        }
        let mut i: usize = 0;
        while i < bytes.len()
            invariant
                i <= bytes@.len(),
                bytes@.len() <= metadata_account.data@.len(),
                metadata_account.data@.len() == old(metadata_account).data@.len(),
                metadata_account.key == old(metadata_account).key,
                metadata_account.daltons == old(metadata_account).daltons,
                metadata_account.program_id == old(metadata_account).program_id,
                metadata_account.is_signer == old(metadata_account).is_signer,
                metadata_account.data@ == bytes@.take(i as int) + old(metadata_account).data@.skip(
                    i as int,
                ),
            decreases bytes@.len() - i,
        {
            metadata_account.data.set(i, bytes[i]);
            proof {
                assert(metadata_account.data@ =~= bytes@.take(i + 1) + old(
                    metadata_account,
                ).data@.skip(i + 1));
            }
            i += 1;
        }
        proof {
            assert(final(metadata_account).data@.subrange(0, bytes@.len() as int) =~= bytes@);
            assert(final(metadata_account).data@.skip(bytes@.len() as int) =~= old(
                metadata_account,
            ).data@.skip(bytes@.len() as int));
        }
        Ok(())
    }

    /// Decodes and dispatches one instruction against the given
    /// accounts. The record account's address is derived from the
    /// mint; a payload that does not decode is rejected whole.
    pub fn process(
        program_id: &Pubkey,
        metadata_account: &mut NativeAccountData,
        mint_account: &NativeAccountData,
        authority: &mut NativeAccountData,
        instruction_data: &Vec<u8>,
        rent_minimum: u64,
    ) -> (r: Result<(), MetadataError>)
        ensures
            ({
                let verdict = process_verdict(
                    program_id@,
                    old(metadata_account)@,
                    mint_account@,
                    old(authority)@,
                    instruction_data@,
                    rent_minimum,
                    Some(pda_address(seq![metadata_seed(), mint_account.key@], program_id@)),
                );
                &&& (verdict is Err ==> r is Err)
                &&& (r matches Err(e) ==> e == MetadataError::InvalidPda || verdict == Err::<
                    TokenMetadataView,
                    MetadataError,
                >(e))
                &&& (r is Err ==> *final(metadata_account) == *old(metadata_account)
                    && *final(authority) == *old(authority))
                &&& (r is Ok ==> verdict is Ok && process_success_state(
                    program_id@,
                    old(metadata_account)@,
                    final(metadata_account)@,
                    mint_account@,
                    old(authority)@,
                    final(authority)@,
                    instruction_data@,
                    rent_minimum,
                ))
                &&& (pda_found(seq![metadata_seed(), mint_account.key@], program_id@) ==> ((r is Ok
                    <==> verdict is Ok) && (verdict matches Err(e) ==> r == Err::<
                    (),
                    MetadataError,
                >(e))))
            }),
    {
        let instruction = match decode_token_instruction(instruction_data) {
            Ok(t) => t,
            Err(e) => {
                return Err(e);
            },
        };
        let derived = match derive_metadata_pda(&mint_account.key, program_id) {
            Some((address, _bump)) => Some(address),
            None => None,
        };
        match instruction {
            TokenInstruction::Initialize { name, symbol, uri } => Self::process_initialize(
                program_id,
                metadata_account,
                mint_account,
                authority,
                name,
                symbol,
                uri,
                rent_minimum,
                derived,
            ),
            TokenInstruction::Update { name, symbol, uri } => Self::process_update(
                program_id,
                metadata_account,
                authority,
                name,
                symbol,
                uri,
                derived,
            ),
        }
    }
}

} // verus!
