//! The update orchestrator: load and authenticate the existing record,
//! validate every requested change against it, apply the one-way flag
//! transitions, and rewrite the record over zeroed storage.

use vstd::prelude::*;

use crate::account::AccountView;
use crate::account::NativeAccountData;
use crate::account::Pubkey;
use crate::assertions::assert_collection_update_is_valid;
use crate::assertions::assert_data_valid;
use crate::assertions::assert_update_authority_is_correct;
use crate::assertions::assert_valid_use;
use crate::assertions::collection_update_allowed;
use crate::assertions::data_valid_verdict;
use crate::assertions::uses_update_verdict;
use crate::codec::parse_strict;
use crate::codec::ser_metadata;
use crate::error::MetadataError;
use crate::state::CollectionView;
use crate::state::Data;
use crate::state::DataView;
use crate::state::Metadata;
use crate::state::MetadataView;
use crate::state::wf_data;
use crate::state::wf_metadata;
use crate::state::MAX_METADATA_LEN;
use crate::state::MAX_NAME_LENGTH;
use crate::state::MAX_SYMBOL_LENGTH;
use crate::state::MAX_URI_LENGTH;
use crate::utils::puff_out_data_fields;
use crate::utils::puffed;

verus! {

/// The value of an optional data block.
pub open spec fn view_opt_data(o: Option<Data>) -> Option<DataView> {
    match o {
        Some(d) => Some(d@),
        None => None,
    }
}

/// The value of an optional address.
pub open spec fn view_opt_authority(o: Option<Pubkey>) -> Option<Seq<u8>> {
    match o {
        Some(k) => Some(k@),
        None => None,
    }
}

/// A record with its string fields padded to their stored widths.
pub open spec fn puffed_metadata(m: MetadataView) -> MetadataView {
    MetadataView {
        data: DataView {
            name: puffed(m.data.name, MAX_NAME_LENGTH as int),
            symbol: puffed(m.data.symbol, MAX_SYMBOL_LENGTH as int),
            uri: puffed(m.data.uri, MAX_URI_LENGTH as int),
            ..m.data
        },
        ..m
    }
}

/// What writing a new data block over the record decides: the record
/// must still be mutable, the block must pass the central validity
/// check, a collection value may only change as the collection rule
/// allows — an absent incoming collection clears only an unverified
/// one — and the uses descriptor must pass its immutability rule.
pub open spec fn update_data_step(
    m: MetadataView,
    d: DataView,
    update_authority_key: Seq<u8>,
    update_authority_is_signer: bool,
) -> Result<MetadataView, MetadataError> {
    if !m.is_mutable {
        Err(MetadataError::DataIsImmutable)
    } else {
        match data_valid_verdict(d, update_authority_key, m, false, update_authority_is_signer) {
            Some(e) => Err(e),
            None => {
                let collection_step: Result<Option<CollectionView>, MetadataError> = if d.collection
                    is Some {
                    if collection_update_allowed(m.collection, d.collection) {
                        Ok(d.collection)
                    } else {
                        Err(MetadataError::CollectionCannotBeVerifiedInThisInstruction)
                    }
                } else {
                    match m.collection {
                        Some(c) => if c.verified {
                            Err(MetadataError::CannotUpdateVerifiedCollection)
                        } else {
                            Ok(None)
                        },
                        None => Ok(None),
                    }
                };
                match collection_step {
                    Err(e) => Err(e),
                    Ok(new_collection) => match uses_update_verdict(d.uses, m.uses) {
                        Some(e) => Err(e),
                        None => Ok(
                            MetadataView {
                                data: DataView { collection: None, uses: None, ..d },
                                collection: new_collection,
                                uses: d.uses,
                                ..m
                            },
                        ),
                    },
                }
            },
        }
    }
}

/// What the one-way flag transitions decide: the update authority may
/// be handed over freely, the primary-sale flag may only be flipped to
/// true, and the mutability flag may only be flipped to false.
pub open spec fn update_flags_step(
    m: MetadataView,
    new_update_authority: Option<Seq<u8>>,
    primary_sale_happened: Option<bool>,
    is_mutable: Option<bool>,
) -> Result<MetadataView, MetadataError> {
    let m1 = match new_update_authority {
        Some(a) => MetadataView { update_authority: a, ..m },
        None => m,
    };
    match primary_sale_happened {
        Some(v) => if v || !m1.primary_sale_happened {
            match is_mutable {
                Some(w) => if !w || m1.is_mutable {
                    Ok(MetadataView { primary_sale_happened: v, is_mutable: w, ..m1 })
                } else {
                    Err(MetadataError::IsMutableCanOnlyBeFlippedToFalse)
                },
                None => Ok(MetadataView { primary_sale_happened: v, ..m1 }),
            }
        } else {
            Err(MetadataError::PrimarySaleCanOnlyBeFlippedToTrue)
        },
        None => match is_mutable {
            Some(w) => if !w || m1.is_mutable {
                Ok(MetadataView { is_mutable: w, ..m1 })
            } else {
                Err(MetadataError::IsMutableCanOnlyBeFlippedToFalse)
            },
            None => Ok(m1),
        },
    }
}

/// What an update decides, step by step: decode the genuine record,
/// check the account's owner and the update authority's identity and
/// signature, validate and apply the requested data block, apply the
/// flag transitions, and persist the padded result.
pub open spec fn process_update_verdict(
    program_id: Seq<u8>,
    metadata_account: AccountView,
    update_authority_info: AccountView,
    optional_data: Option<DataView>,
    new_update_authority: Option<Seq<u8>>,
    primary_sale_happened: Option<bool>,
    is_mutable: Option<bool>,
) -> Result<MetadataView, MetadataError> {
    match parse_strict(metadata_account.data) {
        None => Err(MetadataError::DataTypeMismatch),
        Some(m) => if metadata_account.program_id != program_id {
            Err(MetadataError::IncorrectOwner)
        } else if m.update_authority != update_authority_info.key {
            Err(MetadataError::UpdateAuthorityIncorrect)
        } else if !update_authority_info.is_signer {
            Err(MetadataError::UpdateAuthorityIsNotSigner)
        } else {
            let after_data = match optional_data {
                None => Ok(m),
                Some(d) => update_data_step(
                    m,
                    d,
                    update_authority_info.key,
                    update_authority_info.is_signer,
                ),
            };
            match after_data {
                Err(e) => Err(e),
                Ok(m1) => match update_flags_step(
                    m1,
                    new_update_authority,
                    primary_sale_happened,
                    is_mutable,
                ) {
                    Err(e) => Err(e),
                    Ok(m2) => Ok(puffed_metadata(m2)),
                },
            }
        },
    }
}

/// Updates an existing record in place. Every check runs against the
/// proposed next state before any byte of the account changes; the
/// rewrite is the last step and zeroes everything up to the reserved
/// trailer byte first.
#[verifier::loop_isolation(false)]
#[verifier::rlimit(100)]
pub fn process_update_metadata_accounts(
    program_id: &Pubkey,
    metadata_account_info: &mut NativeAccountData,
    update_authority_info: &NativeAccountData,
    optional_data: Option<Data>,
    update_authority: Option<Pubkey>,
    primary_sale_happened: Option<bool>,
    is_mutable: Option<bool>,
) -> (r: Result<(), MetadataError>)
    requires
        old(metadata_account_info).data@.len() >= MAX_METADATA_LEN,
        parse_strict(old(metadata_account_info).data@) matches Some(m) ==> wf_data(m.data),
    ensures
        ({
            let verdict = process_update_verdict(
                program_id@,
                old(metadata_account_info)@,
                update_authority_info@,
                view_opt_data(optional_data),
                view_opt_authority(update_authority),
                primary_sale_happened,
                is_mutable,
            );
            match verdict {
                Ok(m) => {
                    &&& r is Ok
                    &&& final(metadata_account_info).key == old(metadata_account_info).key
                    &&& final(metadata_account_info).daltons == old(metadata_account_info).daltons
                    &&& final(metadata_account_info).program_id == old(
                        metadata_account_info,
                    ).program_id
                    &&& final(metadata_account_info).is_signer == old(
                        metadata_account_info,
                    ).is_signer
                    &&& final(metadata_account_info).data@.len() == old(
                        metadata_account_info,
                    ).data@.len()
                    &&& final(metadata_account_info).data@.subrange(
                        0,
                        ser_metadata(m).len() as int,
                    ) == ser_metadata(m)
                    &&& forall|i: int|
                        ser_metadata(m).len() <= i < final(metadata_account_info).data@.len() - 1
                            ==> final(metadata_account_info).data@[i] == 0
                    &&& final(metadata_account_info).data@.last() == old(
                        metadata_account_info,
                    ).data@.last()
                },
                Err(e) => r == Err::<(), MetadataError>(e) && *final(metadata_account_info) == *old(
                    metadata_account_info,
                ),
            }
        }),
{
    let ghost odv = view_opt_data(optional_data);
    let mut metadata = match Metadata::from_account_info(metadata_account_info, program_id) {
        Ok(m) => m,
        Err(e) => {
            return Err(e);
        },
    };
    proof {
        crate::codec::lemma_parse_lenient_wf(metadata_account_info@.data);
    }
    match assert_update_authority_is_correct(&metadata, update_authority_info) {
        Ok(()) => {},
        Err(e) => {
            return Err(e);
        },
    }
    match optional_data {
        Some(data) => {
            if !metadata.is_mutable {
                return Err(MetadataError::DataIsImmutable);
            }
            match assert_data_valid(
                &data,
                &update_authority_info.key,
                &metadata,
                false,
                update_authority_info.is_signer,
            ) {
                Ok(()) => {},
                Err(e) => {
                    return Err(e);
                },
            }
            let data_collection = data.collection;
            let data_uses = data.uses;
            if data_collection.is_some() {
                match assert_collection_update_is_valid(&metadata.collection, &data_collection) {
                    Ok(()) => {},
                    Err(e) => {
                        return Err(e);
                    },
                }
            } else if let Some(collection) = &metadata.collection {
                if collection.verified {
                    return Err(MetadataError::CannotUpdateVerifiedCollection);
                }
            }
            match assert_valid_use(&data_uses, &metadata.uses) {
                Ok(()) => {},
                Err(e) => {
                    return Err(e);
                },
            }
            metadata.data = data;
            metadata.data.collection = None;
            metadata.data.uses = None;
            metadata.collection = data_collection;
            metadata.uses = data_uses;
        },
        None => {},
    }
    if let Some(val) = update_authority {
        metadata.update_authority = val;
    }
    if let Some(val) = primary_sale_happened {
        if val || !metadata.primary_sale_happened {
            metadata.primary_sale_happened = val;
        } else {
            return Err(MetadataError::PrimarySaleCanOnlyBeFlippedToTrue);
        }
    }
    if let Some(val) = is_mutable {
        if !val || metadata.is_mutable {
            metadata.is_mutable = val;
        } else {
            return Err(MetadataError::IsMutableCanOnlyBeFlippedToFalse);
        }
    }
    puff_out_data_fields(&mut metadata);
    proof {
        assert(wf_metadata(metadata@));
        let verdict = process_update_verdict(
            program_id@,
            old(metadata_account_info)@,
            update_authority_info@,
            odv,
            view_opt_authority(update_authority),
            primary_sale_happened,
            is_mutable,
        );
        assert(verdict matches Ok(m) && metadata@ =~= m);
    }
    // The account keeps its fixed size and the record is well formed,
    // so the rewrite cannot fail.
    let _write_ok = crate::lifecycle::clean_write_metadata(&metadata, metadata_account_info);
    Ok(())
}

} // verus!
