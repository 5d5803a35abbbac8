//! The account lifecycle: funding and allocating the backing storage,
//! reading the collaborating mint account, and the zero-then-write
//! rewrite that keeps stale trailing bytes out of the record.

use vstd::prelude::*;

use crate::account::NativeAccountData;
use crate::account::Pubkey;
use crate::codec::ser_metadata;
use crate::encode::encode_metadata;
use crate::error::MetadataError;
use crate::state::Metadata;
use crate::state::wf_metadata;
use crate::state::MAX_METADATA_LEN;

verus! {

/// Ensures the backing storage exists: a slot that already has data
/// keeps everything as it is; an empty slot is funded up to the
/// rent-exempt minimum from the payer, allocated to the given size
/// with zeroed bytes, and assigned to the owning program.
#[verifier::loop_isolation(false)]
pub fn create_or_allocate_account_raw(
    program_id: Pubkey,
    new_account: &mut NativeAccountData,
    payer: &mut NativeAccountData,
    size: usize,
    rent_minimum: u64,
) -> (r: Result<(), MetadataError>)
    ensures
        old(new_account).data@.len() > 0 ==> r is Ok && *final(new_account) == *old(new_account)
            && *final(payer) == *old(payer),
        old(new_account).data@.len() == 0 ==> {
            let required = if rent_minimum > 1 {
                rent_minimum
            } else {
                1
            };
            let missing = if required > old(new_account).daltons {
                (required - old(new_account).daltons) as u64
            } else {
                0
            };
            if missing > old(payer).daltons {
                r == Err::<(), MetadataError>(MetadataError::NotRentExempt) && *final(new_account)
                    == *old(new_account) && *final(payer) == *old(payer)
            } else {
                &&& r is Ok
                &&& final(payer).daltons == old(payer).daltons - missing
                &&& final(payer).key == old(payer).key
                &&& final(payer).data == old(payer).data
                &&& final(payer).program_id == old(payer).program_id
                &&& final(payer).is_signer == old(payer).is_signer
                &&& final(new_account).daltons == old(new_account).daltons + missing
                &&& final(new_account).data@ == Seq::<u8>::new(size as nat, |i: int| 0u8)
                &&& final(new_account).program_id == program_id
                &&& final(new_account).key == old(new_account).key
                &&& final(new_account).is_signer == old(new_account).is_signer
            }
        },
{
    if new_account.data.len() > 0 {
        return Ok(());
    }
    let required: u64 = if rent_minimum > 1 {
        rent_minimum
    } else {
        1
    };
    let missing: u64 = if required > new_account.daltons {
        required - new_account.daltons
    } else {
        0
    };
    if missing > payer.daltons {
        return Err(MetadataError::NotRentExempt);
    }
    payer.daltons = payer.daltons - missing;
    new_account.daltons = new_account.daltons + missing;
    let mut data: Vec<u8> = Vec::new();
    let mut i: usize = 0;
    while i < size
        invariant
            i <= size,
            data@ == Seq::<u8>::new(i as nat, |j: int| 0u8),
        decreases size - i,
    {
        data.push(0);
        proof {
            assert(data@ =~= Seq::<u8>::new((i + 1) as nat, |j: int| 0u8));
        }
        i += 1;
    }
    new_account.data = data;
    new_account.program_id = program_id;
    Ok(())
}

/// Rewrites the record over fully zeroed storage: every byte up to the
/// reserved trailer is cleared first, so no stale tail of an earlier,
/// longer creators list survives, and the trailer byte itself is
/// carried over untouched.
#[verifier::loop_isolation(false)]
pub fn clean_write_metadata(metadata: &Metadata, metadata_account: &mut NativeAccountData) -> (r:
    Result<(), MetadataError>)
    requires
        wf_metadata(metadata@),
        old(metadata_account).data@.len() >= MAX_METADATA_LEN,
    ensures
        r is Ok,
        final(metadata_account).key == old(metadata_account).key,
        final(metadata_account).daltons == old(metadata_account).daltons,
        final(metadata_account).program_id == old(metadata_account).program_id,
        final(metadata_account).is_signer == old(metadata_account).is_signer,
        final(metadata_account).data@.len() == old(metadata_account).data@.len(),
        final(metadata_account).data@.subrange(0, ser_metadata(metadata@).len() as int)
            == ser_metadata(metadata@),
        forall|i: int|
            ser_metadata(metadata@).len() <= i < final(metadata_account).data@.len() - 1
                ==> final(metadata_account).data@[i] == 0,
        final(metadata_account).data@.last() == old(metadata_account).data@.last(),
{
    let bytes = encode_metadata(metadata);
    let end = metadata_account.data.len() - 1;
    let mut i: usize = 0;
    while i < end
        invariant
            i <= end,
            end == metadata_account.data@.len() - 1,
            metadata_account.data@.len() == old(metadata_account).data@.len(),
            metadata_account.key == old(metadata_account).key,
            metadata_account.daltons == old(metadata_account).daltons,
            metadata_account.program_id == old(metadata_account).program_id,
            metadata_account.is_signer == old(metadata_account).is_signer,
            forall|t: int|
                0 <= t < i ==> metadata_account.data@[t] == (if t < bytes@.len() {
                    bytes@[t]
                } else {
                    0u8
                }),
            forall|t: int|
                i <= t < metadata_account.data@.len() ==> metadata_account.data@[t] == old(
                    metadata_account,
                ).data@[t],
        decreases end - i,
    {
        if i < bytes.len() {
            metadata_account.data.set(i, bytes[i]);
        } else {
            metadata_account.data.set(i, 0);
        }
        i += 1;
    }
    proof {
        assert(final(metadata_account).data@.subrange(0, ser_metadata(metadata@).len() as int)
            =~= ser_metadata(metadata@));
    }
    Ok(())
}

/// The mint's authority option as the mint account's buffer states
/// it: a 4-byte presence tag, then the 32-byte address. A buffer too
/// short or with an unknown tag is malformed.
pub open spec fn parse_mint_authority(data: Seq<u8>) -> Result<Option<Seq<u8>>, MetadataError> {
    if data.len() < 36 {
        Err(MetadataError::InvalidAccountData)
    } else if data.subrange(0, 4) == seq![0u8, 0u8, 0u8, 0u8] {
        Ok(None)
    } else if data.subrange(0, 4) == seq![1u8, 0u8, 0u8, 0u8] {
        Ok(Some(data.subrange(4, 36)))
    } else {
        Err(MetadataError::InvalidAccountData)
    }
}

/// Reads the mint's authority option out of the collaborating mint
/// account's buffer.
#[verifier::loop_isolation(false)]
pub fn get_mint_authority(account_info: &NativeAccountData) -> (r: Result<
    Option<Pubkey>,
    MetadataError,
>)
    ensures
        match r {
            Ok(o) => parse_mint_authority(account_info.data@) == Ok::<
                Option<Seq<u8>>,
                MetadataError,
            >(match o {
                Some(k) => Some(k@),
                None => None,
            }),
            Err(e) => parse_mint_authority(account_info.data@) == Err::<
                Option<Seq<u8>>,
                MetadataError,
            >(e),
        },
{
    let data = &account_info.data;
    if data.len() < 36 {
        return Err(MetadataError::InvalidAccountData);
    }
    let tag_is_none = data[0] == 0 && data[1] == 0 && data[2] == 0 && data[3] == 0;
    let tag_is_some = data[0] == 1 && data[1] == 0 && data[2] == 0 && data[3] == 0;
    proof {
        assert(data@.subrange(0, 4) =~= seq![data@[0], data@[1], data@[2], data@[3]]);
    }
    if tag_is_none {
        return Ok(None);
    }
    if !tag_is_some {
        return Err(MetadataError::InvalidAccountData);
    }
    let mut bytes = [0u8; 32];
    let mut i: usize = 0;
    while i < 32
        invariant
            i <= 32,
            data@.len() >= 36,
            forall|t: int| 0 <= t < i ==> bytes@[t] == data@[4 + t],
        decreases 32 - i,
    {
        bytes[i] = data[4 + i];
        i += 1;
    }
    proof {
        assert(bytes@ =~= data@.subrange(4, 36));
    }
    Ok(Some(Pubkey { bytes }))
}

/// Reads the mint's decimals byte out of the collaborating mint
/// account's buffer; a buffer too short to hold it is malformed.
pub fn get_mint_decimals(account_info: &NativeAccountData) -> (r: Result<u8, MetadataError>)
    ensures
        match r {
            Ok(d) => account_info.data@.len() > 44 && d == account_info.data@[44],
            Err(e) => e == MetadataError::InvalidAccountData && account_info.data@.len() <= 44,
        },
{
    if account_info.data.len() <= 44 {
        return Err(MetadataError::InvalidAccountData);
    }
    Ok(account_info.data[44])
}

} // verus!
