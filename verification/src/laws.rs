//! The engine's standing guarantees, stated and proved once, over the
//! same spec functions its contracts use.

use vstd::prelude::*;

use crate::assertions::creator_check;
use crate::assertions::data_valid_verdict;
use crate::assertions::creators_loop_verdict;
use crate::assertions::lemma_share_sum_prefix;
use crate::assertions::has_duplicate_creator;
use crate::assertions::lookup_creator;
use crate::assertions::share_sum;
use crate::codec::parse_strict;
use crate::codec::ser_metadata;
use crate::error::MetadataError;
use crate::roundtrip::lemma_metadata_roundtrip;
use crate::state::CreatorView;
use crate::state::DataView;
use crate::state::MetadataView;
use crate::state::wf_metadata;
use crate::state::MAX_CREATOR_LIMIT;
use crate::state::MAX_NAME_LENGTH;
use crate::state::MAX_SYMBOL_LENGTH;
use crate::state::MAX_URI_LENGTH;
use crate::update::update_flags_step;

verus! {

/// The string and numeric bounds of a data block all hold.
pub open spec fn data_bounds_ok(d: DataView) -> bool {
    &&& d.name.len() <= MAX_NAME_LENGTH
    &&& d.symbol.len() <= MAX_SYMBOL_LENGTH
    &&& d.uri.len() <= MAX_URI_LENGTH
    &&& d.seller_fee_basis_points <= 10000
}

/// The creators list has an acceptable shape: within the size cap,
/// non-empty, and free of duplicate addresses.
pub open spec fn creators_shape_ok(cs: Seq<CreatorView>) -> bool {
    &&& cs.len() <= MAX_CREATOR_LIMIT
    &&& cs.len() > 0
    &&& !has_duplicate_creator(cs)
}

/// Creator shares must sum to exactly 100, or the request is rejected:
/// a validated creators list always sums to 100, and whenever only the
/// sum is at fault — every other shape check passes, the sum stays
/// within the counter, and no per-creator authorization fires first —
/// the rejection is exactly the share-sum error, at 99 and 101 as much
/// as anywhere else.
pub proof fn law_shares_sum_to_100(
    d: DataView,
    update_authority: Seq<u8>,
    existing: MetadataView,
    allow_direct_creator_writes: bool,
    update_authority_is_signer: bool,
)
    ensures
        d.creators matches Some(cs) ==> (data_valid_verdict(
            d,
            update_authority,
            existing,
            allow_direct_creator_writes,
            update_authority_is_signer,
        ) is None ==> share_sum(cs) == 100),
        d.creators matches Some(cs) ==> ((data_bounds_ok(d) && creators_shape_ok(cs) && share_sum(
            cs,
        ) <= 255 && share_sum(cs) != 100 && (allow_direct_creator_writes || forall|t: int|
            0 <= t < cs.len() ==> creator_check(
                #[trigger] cs[t],
                existing.data.creators,
                update_authority,
                update_authority_is_signer,
            ) is None)) ==> data_valid_verdict(
            d,
            update_authority,
            existing,
            allow_direct_creator_writes,
            update_authority_is_signer,
        ) == Some(MetadataError::ShareTotalMustBe100)),
{
    match d.creators {
        Some(cs) => {
            if data_bounds_ok(d) && creators_shape_ok(cs) && share_sum(cs) <= 255 && share_sum(cs)
                != 100 && (allow_direct_creator_writes || forall|t: int|
                0 <= t < cs.len() ==> creator_check(
                    #[trigger] cs[t],
                    existing.data.creators,
                    update_authority,
                    update_authority_is_signer,
                ) is None) {
                assert(cs.take(0) =~= Seq::<CreatorView>::empty());
                lemma_loop_accepts(
                    cs,
                    existing.data.creators,
                    update_authority,
                    allow_direct_creator_writes,
                    update_authority_is_signer,
                    0,
                );
            }
        },
        None => {},
    }
}

/// A walk that never overflows and never trips a per-creator check
/// accepts: the whole-list sum bounds every prefix.
proof fn lemma_loop_accepts(
    cs: Seq<CreatorView>,
    existing: Option<Seq<CreatorView>>,
    update_authority: Seq<u8>,
    allow_direct_creator_writes: bool,
    update_authority_is_signer: bool,
    i: int,
)
    requires
        0 <= i <= cs.len(),
        share_sum(cs) <= 255,
        allow_direct_creator_writes || forall|t: int|
            i <= t < cs.len() ==> creator_check(
                #[trigger] cs[t],
                existing,
                update_authority,
                update_authority_is_signer,
            ) is None,
    ensures
        creators_loop_verdict(
            cs,
            existing,
            update_authority,
            allow_direct_creator_writes,
            update_authority_is_signer,
            i,
            share_sum(cs.take(i)),
        ) is None,
    decreases cs.len() - i,
{
    if i < cs.len() {
        assert(cs.take(i + 1).drop_last() =~= cs.take(i));
        assert(cs.take(i + 1).last() == cs[i]);
        lemma_share_sum_prefix(cs, i + 1);
        lemma_loop_accepts(
            cs,
            existing,
            update_authority,
            allow_direct_creator_writes,
            update_authority_is_signer,
            i + 1,
        );
    }
}

/// Whether this creator entry may carry `verified: true`: its own
/// authenticated signature is the update authority, or the record
/// already shows this address as a verified creator.
pub open spec fn verification_justified(
    c: CreatorView,
    existing: MetadataView,
    update_authority: Seq<u8>,
    update_authority_is_signer: bool,
) -> bool {
    ||| (update_authority_is_signer && c.address == update_authority)
    ||| match existing.data.creators {
        Some(ecs) => match lookup_creator(ecs, c.address) {
            Some(prev) => prev.verified,
            None => false,
        },
        None => false,
    }
}

proof fn lemma_loop_none_each(
    cs: Seq<CreatorView>,
    existing: Option<Seq<CreatorView>>,
    update_authority: Seq<u8>,
    update_authority_is_signer: bool,
    i: int,
    total: int,
)
    requires
        0 <= i <= cs.len(),
        creators_loop_verdict(
            cs,
            existing,
            update_authority,
            false,
            update_authority_is_signer,
            i,
            total,
        ) is None,
    ensures
        forall|t: int|
            i <= t < cs.len() ==> creator_check(
                #[trigger] cs[t],
                existing,
                update_authority,
                update_authority_is_signer,
            ) is None,
    decreases cs.len() - i,
{
    if i < cs.len() {
        lemma_loop_none_each(
            cs,
            existing,
            update_authority,
            update_authority_is_signer,
            i + 1,
            total + cs[i].share,
        );
    }
}

proof fn lemma_loop_first_is_verify(
    cs: Seq<CreatorView>,
    existing: Option<Seq<CreatorView>>,
    update_authority: Seq<u8>,
    update_authority_is_signer: bool,
    i: int,
)
    requires
        0 <= i <= cs.len(),
        share_sum(cs) <= 255,
        forall|t: int|
            i <= t < cs.len() ==> (creator_check(
                #[trigger] cs[t],
                existing,
                update_authority,
                update_authority_is_signer,
            ) is None || creator_check(
                cs[t],
                existing,
                update_authority,
                update_authority_is_signer,
            ) == Some(MetadataError::CannotVerifyAnotherCreator)),
        exists|t: int|
            i <= t < cs.len() && creator_check(
                #[trigger] cs[t],
                existing,
                update_authority,
                update_authority_is_signer,
            ) == Some(MetadataError::CannotVerifyAnotherCreator),
    ensures
        creators_loop_verdict(
            cs,
            existing,
            update_authority,
            false,
            update_authority_is_signer,
            i,
            share_sum(cs.take(i)),
        ) == Some(MetadataError::CannotVerifyAnotherCreator),
    decreases cs.len() - i,
{
    assert(cs.take(i + 1).drop_last() =~= cs.take(i));
    assert(cs.take(i + 1).last() == cs[i]);
    lemma_share_sum_prefix(cs, i + 1);
    if creator_check(cs[i], existing, update_authority, update_authority_is_signer) is None {
        let w = choose|t: int|
            i <= t < cs.len() && creator_check(
                #[trigger] cs[t],
                existing,
                update_authority,
                update_authority_is_signer,
            ) == Some(MetadataError::CannotVerifyAnotherCreator);
        assert(w != i);
        lemma_loop_first_is_verify(
            cs,
            existing,
            update_authority,
            update_authority_is_signer,
            i + 1,
        );
    }
}

/// A creator's verified flag can be raised only under that creator's
/// own authenticated signature as the update authority, or under the
/// privileged override: a validated request justifies every verified
/// entry, and a well-shaped request carrying an unjustified verified
/// flag is rejected with exactly the cannot-verify error, whatever its
/// shares sum to — the per-creator check fires before the sum is
/// judged.
pub proof fn law_verification_needs_signature(
    d: DataView,
    update_authority: Seq<u8>,
    existing: MetadataView,
    update_authority_is_signer: bool,
)
    ensures
        d.creators matches Some(cs) ==> (data_valid_verdict(
            d,
            update_authority,
            existing,
            false,
            update_authority_is_signer,
        ) is None ==> forall|i: int|
            0 <= i < cs.len() && (#[trigger] cs[i]).verified ==> verification_justified(
                cs[i],
                existing,
                update_authority,
                update_authority_is_signer,
            )),
        d.creators matches Some(cs) ==> ((data_bounds_ok(d) && creators_shape_ok(cs) && share_sum(
            cs,
        ) <= 255 && (forall|t: int|
            0 <= t < cs.len() ==> (creator_check(
                #[trigger] cs[t],
                existing.data.creators,
                update_authority,
                update_authority_is_signer,
            ) is None || creator_check(
                cs[t],
                existing.data.creators,
                update_authority,
                update_authority_is_signer,
            ) == Some(MetadataError::CannotVerifyAnotherCreator))) && (exists|t: int|
            0 <= t < cs.len() && creator_check(
                #[trigger] cs[t],
                existing.data.creators,
                update_authority,
                update_authority_is_signer,
            ) == Some(MetadataError::CannotVerifyAnotherCreator))) ==> data_valid_verdict(
            d,
            update_authority,
            existing,
            false,
            update_authority_is_signer,
        ) == Some(MetadataError::CannotVerifyAnotherCreator)),
{
    match d.creators {
        Some(cs) => {
            if data_valid_verdict(d, update_authority, existing, false, update_authority_is_signer)
                is None {
                lemma_loop_none_each(
                    cs,
                    existing.data.creators,
                    update_authority,
                    update_authority_is_signer,
                    0,
                    0,
                );
                assert forall|i: int|
                    0 <= i < cs.len() && (#[trigger] cs[i]).verified implies verification_justified(
                    cs[i],
                    existing,
                    update_authority,
                    update_authority_is_signer,
                ) by {
                    assert(creator_check(
                        cs[i],
                        existing.data.creators,
                        update_authority,
                        update_authority_is_signer,
                    ) is None);
                }
            }
            if data_bounds_ok(d) && creators_shape_ok(cs) && share_sum(cs) <= 255 && (forall|t: int|
                0 <= t < cs.len() ==> (creator_check(
                    #[trigger] cs[t],
                    existing.data.creators,
                    update_authority,
                    update_authority_is_signer,
                ) is None || creator_check(
                    cs[t],
                    existing.data.creators,
                    update_authority,
                    update_authority_is_signer,
                ) == Some(MetadataError::CannotVerifyAnotherCreator))) && (exists|t: int|
                0 <= t < cs.len() && creator_check(
                    #[trigger] cs[t],
                    existing.data.creators,
                    update_authority,
                    update_authority_is_signer,
                ) == Some(MetadataError::CannotVerifyAnotherCreator)) {
                assert(cs.take(0) =~= Seq::<CreatorView>::empty());
                lemma_loop_first_is_verify(
                    cs,
                    existing.data.creators,
                    update_authority,
                    update_authority_is_signer,
                    0,
                );
            }
        },
        None => {},
    }
}

/// The mutability flag moves one way: a request to flip it from false
/// to true is always rejected with exactly the one-way error, flipping
/// true to false always succeeds, and writing the value a record
/// already has succeeds as a no-op — whatever else the request does to
/// the authority.
pub proof fn law_is_mutable_one_way(
    m: MetadataView,
    new_update_authority: Option<Seq<u8>>,
    requested: bool,
)
    ensures
        (!m.is_mutable && requested) ==> update_flags_step(
            m,
            new_update_authority,
            None,
            Some(requested),
        ) == Err::<MetadataView, MetadataError>(MetadataError::IsMutableCanOnlyBeFlippedToFalse),
        (m.is_mutable || !requested) ==> (update_flags_step(
            m,
            new_update_authority,
            None,
            Some(requested),
        ) matches Ok(m2) && m2.is_mutable == requested),
{
}

/// The primary-sale flag moves one way: a request to flip it from true
/// to false is always rejected with exactly the one-way error, and
/// flipping false to true, or re-stating the current value, succeeds —
/// whatever else the request does to the authority.
pub proof fn law_primary_sale_one_way(
    m: MetadataView,
    new_update_authority: Option<Seq<u8>>,
    requested: bool,
)
    ensures
        (m.primary_sale_happened && !requested) ==> update_flags_step(
            m,
            new_update_authority,
            Some(requested),
            None,
        ) == Err::<MetadataView, MetadataError>(
            MetadataError::PrimarySaleCanOnlyBeFlippedToTrue,
        ),
        (requested || !m.primary_sale_happened) ==> (update_flags_step(
            m,
            new_update_authority,
            Some(requested),
            None,
        ) matches Ok(m2) && m2.primary_sale_happened == requested),
{
}

/// Encode then decode then encode again gives the same bytes: for any
/// well-formed record, the strict decode of its encoding is a record
/// with the identical encoding, byte for byte, zero padding included.
pub proof fn law_encode_roundtrip(m: MetadataView)
    requires
        wf_metadata(m),
    ensures
        parse_strict(ser_metadata(m)) matches Some(m2) && ser_metadata(m2) == ser_metadata(m),
{
    lemma_metadata_roundtrip(m);
}

/// The record a successful create decides on is well formed, and any
/// buffer that opens with its bytes — the created account does —
/// decodes strictly back to exactly that record: what was persisted
/// is what every later operation will see.
pub proof fn law_created_record_reloads(
    program_id: Seq<u8>,
    metadata_account: crate::account::AccountView,
    mint_info: crate::account::AccountView,
    mint_authority_info: crate::account::AccountView,
    payer: crate::account::AccountView,
    update_authority_info: crate::account::AccountView,
    config: crate::config::EngineConfigView,
    rent_minimum: u64,
    derived: Option<Seq<u8>>,
    data: DataView,
    allow_direct_creator_writes: bool,
    is_mutable: bool,
    add_token_standard: bool,
    collection_details: Option<crate::state::CollectionDetailsView>,
    token_standard_override: Option<crate::state::TokenStandard>,
    s: Seq<u8>,
)
    requires
        mint_info.key.len() == 32,
        update_authority_info.key.len() == 32,
        data.creators matches Some(cs) ==> forall|t: int|
            0 <= t < cs.len() ==> crate::state::wf_creator(#[trigger] cs[t]),
        data.collection matches Some(c) ==> crate::state::wf_collection(c),
        crate::create::process_create_verdict(
            program_id,
            metadata_account,
            mint_info,
            mint_authority_info,
            payer,
            update_authority_info,
            config,
            rent_minimum,
            derived,
            data,
            allow_direct_creator_writes,
            is_mutable,
            add_token_standard,
            collection_details,
            token_standard_override,
        ) matches Ok(m) && ser_metadata(m).len() <= s.len() && s.subrange(
            0,
            ser_metadata(m).len() as int,
        ) == ser_metadata(m),
    ensures
        crate::create::process_create_verdict(
            program_id,
            metadata_account,
            mint_info,
            mint_authority_info,
            payer,
            update_authority_info,
            config,
            rent_minimum,
            derived,
            data,
            allow_direct_creator_writes,
            is_mutable,
            add_token_standard,
            collection_details,
            token_standard_override,
        ) matches Ok(m) && parse_strict(s) == Some(m) && wf_metadata(m),
{
    let m = crate::create::process_create_verdict(
        program_id,
        metadata_account,
        mint_info,
        mint_authority_info,
        payer,
        update_authority_info,
        config,
        rent_minimum,
        derived,
        data,
        allow_direct_creator_writes,
        is_mutable,
        add_token_standard,
        collection_details,
        token_standard_override,
    ).unwrap();
    assert(wf_metadata(m)) by {
        assert(Seq::new(8, |i: int| 0u8).len() == 8);
    }
    crate::roundtrip::lemma_parse_ser_metadata(s, m);
}

} // verus!
