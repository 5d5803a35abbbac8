//! The authorization assertions: pure predicates over the current
//! record, the requested change, and the caller's identity facts. Each
//! one either accepts or rejects with one specific error, and the
//! verdict is fixed by the spec functions here.

use vstd::prelude::*;

use crate::account::NativeAccountData;
use crate::account::Pubkey;
use crate::error::MetadataError;
use crate::state::Collection;
use crate::state::Creator;
use crate::state::CreatorView;
use crate::state::Data;
use crate::state::DataView;
use crate::state::Metadata;
use crate::state::MetadataView;
use crate::state::Uses;
use crate::state::view_creators;
use crate::state::MAX_CREATOR_LIMIT;
use crate::state::MAX_NAME_LENGTH;
use crate::state::MAX_SYMBOL_LENGTH;
use crate::state::MAX_URI_LENGTH;

verus! {

// ----------------------------------------------------------------------
// Collection updates
// ----------------------------------------------------------------------

/// Whether a generic update may write this collection value: a verified
/// incoming value must be the byte-identical confirmation of an already
/// verified collection; an unverified (or absent) incoming value may
/// only replace an unverified (or absent) one.
pub open spec fn collection_update_allowed(
    existing: Option<crate::state::CollectionView>,
    incoming: Option<crate::state::CollectionView>,
) -> bool {
    let incoming_verified = match incoming {
        Some(c) => c.verified,
        None => false,
    };
    let existing_verified = match existing {
        Some(c) => c.verified,
        None => false,
    };
    if incoming_verified {
        existing_verified && existing.unwrap().key == incoming.unwrap().key
    } else {
        !existing_verified
    }
}

/// Checks whether the collection update is allowed, based on the
/// `verified` status of the existing and the incoming value.
pub fn assert_collection_update_is_valid(
    existing: &Option<Collection>,
    incoming: &Option<Collection>,
) -> (r: Result<(), MetadataError>)
    ensures
        r is Ok <==> collection_update_allowed(view_opt_collection(*existing), view_opt_collection(*incoming)),
        r is Err ==> r == Err::<(), MetadataError>(
            MetadataError::CollectionCannotBeVerifiedInThisInstruction,
        ),
{
    let incoming_verified = match incoming {
        Some(c) => c.verified,
        None => false,
    };
    let existing_verified = match existing {
        Some(c) => c.verified,
        None => false,
    };
    let valid_update = if incoming_verified {
        match (existing, incoming) {
            (Some(e), Some(i)) => existing_verified && e.key.equals(&i.key),
            _ => false,
        }
    } else {
        !existing_verified
    };
    if !valid_update {
        return Err(MetadataError::CollectionCannotBeVerifiedInThisInstruction);
    }
    Ok(())
}

/// The value of an optional collection reference.
pub open spec fn view_opt_collection(o: Option<Collection>) -> Option<
    crate::state::CollectionView,
> {
    match o {
        Some(c) => Some(c@),
        None => None,
    }
}

// ----------------------------------------------------------------------
// Uses updates
// ----------------------------------------------------------------------

/// The rejection, if any, for writing `incoming` over `current`: an
/// incoming descriptor must keep its remaining count within its total,
/// and once the descriptor exists and any use has been consumed,
/// neither the method tag nor the counters may change.
pub open spec fn uses_update_verdict(incoming: Option<Uses>, current: Option<Uses>) -> Option<
    MetadataError,
> {
    if incoming matches Some(u) && u.remaining > u.total {
        Some(MetadataError::InvalidUseMethod)
    } else {
        match (incoming, current) {
            (Some(i), Some(c)) => if i.use_method != c.use_method && c.total != c.remaining {
                Some(MetadataError::CannotChangeUseMethodAfterFirstUse)
            } else if i.total != c.total && c.total != c.remaining {
                Some(MetadataError::CannotChangeUsesAfterFirstUse)
            } else if i.remaining != c.remaining && c.total != c.remaining {
                Some(MetadataError::CannotChangeUsesAfterFirstUse)
            } else {
                None
            },
            _ => None,
        }
    }
}

/// Checks whether the requested uses descriptor may replace the
/// current one.
pub fn assert_valid_use(incoming: &Option<Uses>, current: &Option<Uses>) -> (r: Result<
    (),
    MetadataError,
>)
    ensures
        match r {
            Ok(()) => uses_update_verdict(*incoming, *current) is None,
            Err(e) => uses_update_verdict(*incoming, *current) == Some(e),
        },
{
    if let Some(u) = incoming {
        if u.remaining > u.total {
            return Err(MetadataError::InvalidUseMethod);
        }
    }
    match (incoming, current) {
        (Some(i), Some(c)) => {
            if i.use_method != c.use_method && c.total != c.remaining {
                Err(MetadataError::CannotChangeUseMethodAfterFirstUse)
            } else if i.total != c.total && c.total != c.remaining {
                Err(MetadataError::CannotChangeUsesAfterFirstUse)
            } else if i.remaining != c.remaining && c.total != c.remaining {
                Err(MetadataError::CannotChangeUsesAfterFirstUse)
            } else {
                Ok(())
            }
        },
        _ => Ok(()),
    }
}

// ----------------------------------------------------------------------
// Identity assertions
// ----------------------------------------------------------------------

/// Checks that the record's stored update authority matches the given
/// account, and that the account signed the call.
pub fn assert_update_authority_is_correct(
    metadata: &Metadata,
    update_authority_info: &NativeAccountData,
) -> (r: Result<(), MetadataError>)
    ensures
        match r {
            Ok(()) => metadata.update_authority@ == update_authority_info.key@
                && update_authority_info.is_signer,
            Err(e) => (e == MetadataError::UpdateAuthorityIncorrect && metadata.update_authority@
                != update_authority_info.key@) || (e == MetadataError::UpdateAuthorityIsNotSigner
                && metadata.update_authority@ == update_authority_info.key@
                && !update_authority_info.is_signer),
        },
{
    if !metadata.update_authority.equals(&update_authority_info.key) {
        return Err(MetadataError::UpdateAuthorityIncorrect);
    }
    if !update_authority_info.is_signer {
        return Err(MetadataError::UpdateAuthorityIsNotSigner);
    }
    Ok(())
}

/// Checks that the mint's authority option is present, names the given
/// account, and that the account signed the call.
pub fn assert_mint_authority_matches_mint(
    mint_authority: &Option<Pubkey>,
    mint_authority_info: &NativeAccountData,
) -> (r: Result<(), MetadataError>)
    ensures
        match r {
            Ok(()) => {
                &&& mint_authority matches Some(k) && k@ == mint_authority_info.key@
                &&& mint_authority_info.is_signer
            },
            Err(e) => (e == MetadataError::InvalidMintAuthority && match mint_authority {
                Some(k) => k@ != mint_authority_info.key@,
                None => true,
            }) || (e == MetadataError::NotMintAuthority && (mint_authority matches Some(k) && k@
                == mint_authority_info.key@) && !mint_authority_info.is_signer),
        },
{
    match mint_authority {
        None => {
            return Err(MetadataError::InvalidMintAuthority);
        },
        Some(key) => {
            if !mint_authority_info.key.equals(key) {
                return Err(MetadataError::InvalidMintAuthority);
            }
        },
    }
    if !mint_authority_info.is_signer {
        return Err(MetadataError::NotMintAuthority);
    }
    Ok(())
}

/// Checks that the account is owned by one of the given programs.
pub fn assert_owner_in(account: &NativeAccountData, owners: &Vec<Pubkey>) -> (r: Result<
    (),
    MetadataError,
>)
    ensures
        r is Ok <==> exists|i: int|
            0 <= i < owners@.len() && (#[trigger] owners@[i])@ == account.program_id@,
        r is Err ==> r == Err::<(), MetadataError>(MetadataError::IncorrectOwner),
{
    let mut i: usize = 0;
    while i < owners.len()
        invariant
            i <= owners@.len(),
            forall|j: int| 0 <= j < i ==> (#[trigger] owners@[j])@ != account.program_id@,
        decreases owners@.len() - i,
    {
        if owners[i].equals(&account.program_id) {
            return Ok(());
        }
        i += 1;
    }
    Err(MetadataError::IncorrectOwner)
}

/// Checks that the account is owned by the given program.
pub fn assert_owned_by(account: &NativeAccountData, owner: &Pubkey) -> (r: Result<
    (),
    MetadataError,
>)
    ensures
        r is Ok <==> account.program_id@ == owner@,
        r is Err ==> r == Err::<(), MetadataError>(MetadataError::IncorrectOwner),
{
    if account.program_id.equals(owner) {
        Ok(())
    } else {
        Err(MetadataError::IncorrectOwner)
    }
}

// ----------------------------------------------------------------------
// Data validity
// ----------------------------------------------------------------------

/// Two creators of the list share one address.
pub open spec fn has_duplicate_creator(cs: Seq<CreatorView>) -> bool {
    exists|i: int, j: int| 0 <= i < j < cs.len() && cs[i].address == cs[j].address
}

/// The sum of all creator shares, as an unbounded integer.
pub open spec fn share_sum(cs: Seq<CreatorView>) -> int
    decreases cs.len(),
{
    if cs.len() == 0 {
        0
    } else {
        share_sum(cs.drop_last()) + cs.last().share
    }
}

/// Whether some creator of the list carries this address.
pub open spec fn has_creator(cs: Seq<CreatorView>, address: Seq<u8>) -> bool {
    exists|i: int| 0 <= i < cs.len() && (#[trigger] cs[i]).address == address
}

/// The stored entry for an address, taking the last occurrence.
pub open spec fn lookup_creator(cs: Seq<CreatorView>, address: Seq<u8>) -> Option<CreatorView>
    decreases cs.len(),
{
    if cs.len() == 0 {
        None
    } else if cs.last().address == address {
        Some(cs.last())
    } else {
        lookup_creator(cs.drop_last(), address)
    }
}

/// The rejection, if any, for one requested creator: its verified flag
/// may move freely only under the creator's own authenticated
/// signature; otherwise it must match the flag the record already
/// shows, and a creator absent from the record cannot arrive verified.
pub open spec fn creator_check(
    c: CreatorView,
    existing: Option<Seq<CreatorView>>,
    update_authority: Seq<u8>,
    update_authority_is_signer: bool,
) -> Option<MetadataError> {
    if update_authority_is_signer && c.address == update_authority {
        None
    } else {
        match existing {
            Some(ecs) => match lookup_creator(ecs, c.address) {
                Some(prev) => if c.verified && !prev.verified {
                    Some(MetadataError::CannotVerifyAnotherCreator)
                } else if !c.verified && prev.verified {
                    Some(MetadataError::CannotUnverifyAnotherCreator)
                } else {
                    None
                },
                None => if c.verified {
                    Some(MetadataError::CannotVerifyAnotherCreator)
                } else {
                    None
                },
            },
            None => if c.verified {
                Some(MetadataError::CannotVerifyAnotherCreator)
            } else {
                None
            },
        }
    }
}

/// The outcome of walking the requested creators in list order with a
/// running share accumulator, starting at index `i` with `total`
/// already accumulated: each entry's share is added first — the 8-bit
/// counter rejects on the spot when it would overflow — and then,
/// unless direct creator writes are allowed, the entry's verified flag
/// is checked against the record. The first rejection decides.
pub open spec fn creators_loop_verdict(
    cs: Seq<CreatorView>,
    existing: Option<Seq<CreatorView>>,
    update_authority: Seq<u8>,
    allow_direct_creator_writes: bool,
    update_authority_is_signer: bool,
    i: int,
    total: int,
) -> Option<MetadataError>
    decreases cs.len() - i,
{
    if i < 0 || i >= cs.len() {
        None
    } else if total + cs[i].share > 255 {
        Some(MetadataError::NumericalOverflowError)
    } else if !allow_direct_creator_writes && creator_check(
        cs[i],
        existing,
        update_authority,
        update_authority_is_signer,
    ) is Some {
        creator_check(cs[i], existing, update_authority, update_authority_is_signer)
    } else {
        creators_loop_verdict(
            cs,
            existing,
            update_authority,
            allow_direct_creator_writes,
            update_authority_is_signer,
            i + 1,
            total + cs[i].share,
        )
    }
}

/// The first verified existing creator at or after index `j` that the
/// request silently drops, if any: one that is not the authenticated
/// update authority and does not appear in the new list.
pub open spec fn first_removed_verified(
    ecs: Seq<CreatorView>,
    cs: Seq<CreatorView>,
    update_authority: Seq<u8>,
    update_authority_is_signer: bool,
    j: int,
) -> Option<MetadataError>
    decreases ecs.len() - j,
{
    if j < 0 || j >= ecs.len() {
        None
    } else {
        if !(update_authority_is_signer && ecs[j].address == update_authority) && !has_creator(
            cs,
            ecs[j].address,
        ) && ecs[j].verified {
            Some(MetadataError::CannotUnverifyAnotherCreator)
        } else {
            first_removed_verified(ecs, cs, update_authority, update_authority_is_signer, j + 1)
        }
    }
}

/// Some existing creator is currently verified.
pub open spec fn any_verified(ecs: Seq<CreatorView>) -> bool {
    exists|i: int| 0 <= i < ecs.len() && (#[trigger] ecs[i]).verified
}

/// The central validity verdict for a requested data block against the
/// existing record: `None` accepts, `Some` names the one rejection.
/// The checks run in a fixed order and the first violated one decides;
/// the per-creator authorization runs inside the accumulation walk, so
/// an unauthorized verified flag rejects before the sum is judged.
pub open spec fn data_valid_verdict(
    d: DataView,
    update_authority: Seq<u8>,
    existing: MetadataView,
    allow_direct_creator_writes: bool,
    update_authority_is_signer: bool,
) -> Option<MetadataError> {
    if d.name.len() > MAX_NAME_LENGTH {
        Some(MetadataError::NameTooLong)
    } else if d.symbol.len() > MAX_SYMBOL_LENGTH {
        Some(MetadataError::SymbolTooLong)
    } else if d.uri.len() > MAX_URI_LENGTH {
        Some(MetadataError::UriTooLong)
    } else if d.seller_fee_basis_points > 10000 {
        Some(MetadataError::InvalidBasisPoints)
    } else {
        match d.creators {
            None => match existing.data.creators {
                Some(ecs) => if any_verified(ecs) {
                    Some(MetadataError::CannotRemoveVerifiedCreator)
                } else {
                    None
                },
                None => None,
            },
            Some(cs) => if cs.len() > MAX_CREATOR_LIMIT {
                Some(MetadataError::CreatorsTooLong)
            } else if cs.len() == 0 {
                Some(MetadataError::CreatorsMustBeAtleastOne)
            } else if has_duplicate_creator(cs) {
                Some(MetadataError::DuplicateCreatorAddress)
            } else {
                match creators_loop_verdict(
                    cs,
                    existing.data.creators,
                    update_authority,
                    allow_direct_creator_writes,
                    update_authority_is_signer,
                    0,
                    0,
                ) {
                    Some(e) => Some(e),
                    None => if share_sum(cs) != 100 {
                        Some(MetadataError::ShareTotalMustBe100)
                    } else if allow_direct_creator_writes {
                        None
                    } else {
                        match existing.data.creators {
                            Some(ecs) => first_removed_verified(
                                ecs,
                                cs,
                                update_authority,
                                update_authority_is_signer,
                                0,
                            ),
                            None => None,
                        }
                    },
                }
            },
        }
    }
}

/// A prefix of the list never out-sums the whole list.
pub proof fn lemma_share_sum_prefix(cs: Seq<CreatorView>, j: int)
    requires
        0 <= j <= cs.len(),
    ensures
        share_sum(cs.take(j)) <= share_sum(cs),
        share_sum(cs) >= 0,
    decreases cs.len(),
{
    if cs.len() == 0 {
        assert(cs.take(j) =~= cs);
    } else if j == cs.len() {
        assert(cs.take(j) =~= cs);
        lemma_share_sum_prefix(cs.drop_last(), cs.len() - 1);
    } else {
        assert(cs.drop_last().take(j) =~= cs.take(j));
        lemma_share_sum_prefix(cs.drop_last(), j);
    }
}

/// Finds the stored entry for an address, taking the last occurrence.
fn find_creator(cs: &Vec<Creator>, address: &Pubkey) -> (r: Option<Creator>)
    ensures
        match r {
            Some(c) => lookup_creator(view_creators(cs@), address@) == Some(c@),
            None => lookup_creator(view_creators(cs@), address@) is None,
        },
{
    let ghost csv = view_creators(cs@);
    let mut j: usize = cs.len();
    proof {
        assert(csv.take(j as int) =~= csv);
    }
    while j > 0
        invariant
            j <= cs@.len(),
            csv == view_creators(cs@),
            lookup_creator(csv, address@) == lookup_creator(csv.take(j as int), address@),
        decreases j,
    {
        proof {
            assert(csv.take(j as int).last() == csv[j - 1]);
            assert(csv.take(j as int).drop_last() =~= csv.take(j - 1));
        }
        if cs[j - 1].address.equals(address) {
            return Some(cs[j - 1]);
        }
        j -= 1;
    }
    proof {
        assert(csv.take(0) =~= Seq::<CreatorView>::empty());
    }
    None
}

/// Validates a requested data block against the existing record and
/// the caller's identity facts; the one pure entry point for every
/// shape and creator-authorization rule.
#[verifier::loop_isolation(false)]
pub fn assert_data_valid(
    data: &Data,
    update_authority: &Pubkey,
    existing_metadata: &Metadata,
    allow_direct_creator_writes: bool,
    update_authority_is_signer: bool,
) -> (r: Result<(), MetadataError>)
    ensures
        match r {
            Ok(()) => data_valid_verdict(
                data@,
                update_authority@,
                existing_metadata@,
                allow_direct_creator_writes,
                update_authority_is_signer,
            ) is None,
            Err(e) => data_valid_verdict(
                data@,
                update_authority@,
                existing_metadata@,
                allow_direct_creator_writes,
                update_authority_is_signer,
            ) == Some(e),
        },
{
    if data.name.len() > MAX_NAME_LENGTH {
        return Err(MetadataError::NameTooLong);
    }
    if data.symbol.len() > MAX_SYMBOL_LENGTH {
        return Err(MetadataError::SymbolTooLong);
    }
    if data.uri.len() > MAX_URI_LENGTH {
        return Err(MetadataError::UriTooLong);
    }
    if data.seller_fee_basis_points > 10000 {
        return Err(MetadataError::InvalidBasisPoints);
    }
    let creators = match &data.creators {
        Some(creators) => creators,
        None => {
            match &existing_metadata.data.creators {
                Some(existing_creators) => {
                    let ghost ecsv = view_creators(existing_creators@);
                    proof {
                        assert(existing_metadata@.data.creators == Some(ecsv));
                    }
                    let mut i: usize = 0;
                    while i < existing_creators.len()
                        invariant
                            i <= ecsv.len(),
                            ecsv == view_creators(existing_creators@),
                            forall|t: int| 0 <= t < i ==> !(#[trigger] ecsv[t]).verified,
                        decreases ecsv.len() - i,
                    {
                        if existing_creators[i].verified {
                            proof {
                                assert(ecsv[i as int].verified);
                                assert(any_verified(ecsv));
                            }
                            return Err(MetadataError::CannotRemoveVerifiedCreator);
                        }
                        i += 1;
                    }
                    proof {
                        assert(!any_verified(ecsv));
                    }
                    return Ok(());
                },
                None => {
                    return Ok(());
                },
            }
        },
    };
    let ghost csv = view_creators(creators@);
    proof {
        assert(data@.creators == Some(csv));
    }
    if creators.len() > MAX_CREATOR_LIMIT {
        return Err(MetadataError::CreatorsTooLong);
    }
    if creators.len() == 0 {
        return Err(MetadataError::CreatorsMustBeAtleastOne);
    }
    // Reject duplicate addresses before anything is summed.
    let mut i: usize = 1;
    while i < creators.len()
        invariant
            1 <= i,
            i <= csv.len() || csv.len() == 0,
            csv == view_creators(creators@),
            forall|x: int, y: int| 0 <= x < y < i ==> csv[x].address != csv[y].address,
        decreases csv.len() - i,
    {
        let mut j: usize = 0;
        while j < i
            invariant
                j <= i,
                i < csv.len(),
                csv == view_creators(creators@),
                forall|t: int| 0 <= t < j ==> csv[t].address != csv[i as int].address,
            decreases i - j,
        {
            if creators[j].address.equals(&creators[i].address) {
                proof {
                    assert(csv[j as int].address == csv[i as int].address);
                    assert(has_duplicate_creator(csv));
                }
                return Err(MetadataError::DuplicateCreatorAddress);
            }
            j += 1;
        }
        i += 1;
    }
    proof {
        assert(!has_duplicate_creator(csv));
    }
    // One walk in list order: each share joins the 8-bit accumulator
    // first — an overflow rejects on the spot — and the entry's
    // verified flag is then checked, unless direct writes are allowed.
    let ghost ecs = existing_metadata@.data.creators;
    let mut total: u16 = 0;
    let mut c: usize = 0;
    while c < creators.len()
        invariant
            c <= csv.len(),
            csv == view_creators(creators@),
            csv.len() <= MAX_CREATOR_LIMIT,
            ecs == existing_metadata@.data.creators,
            total == share_sum(csv.take(c as int)),
            total <= 255,
            creators_loop_verdict(
                csv,
                ecs,
                update_authority@,
                allow_direct_creator_writes,
                update_authority_is_signer,
                0,
                0,
            ) == creators_loop_verdict(
                csv,
                ecs,
                update_authority@,
                allow_direct_creator_writes,
                update_authority_is_signer,
                c as int,
                total as int,
            ),
        decreases csv.len() - c,
    {
        proof {
            assert(csv[c as int] == creators@[c as int]@);
            assert(csv.take(c + 1).drop_last() =~= csv.take(c as int));
            assert(csv.take(c + 1).last() == csv[c as int]);
        }
        let next_total = total + creators[c].share as u16;
        if next_total > 255 {
            return Err(MetadataError::NumericalOverflowError);
        }
        let signer_is_creator = update_authority_is_signer && creators[c].address.equals(
            update_authority,
        );
        if !allow_direct_creator_writes && !signer_is_creator {
            match &existing_metadata.data.creators {
                Some(existing_creators) => {
                    proof {
                        assert(ecs == Some(view_creators(existing_creators@)));
                    }
                    match find_creator(existing_creators, &creators[c].address) {
                        Some(prev) => {
                            if creators[c].verified && !prev.verified {
                                proof {
                                    assert(creator_check(
                                        csv[c as int],
                                        ecs,
                                        update_authority@,
                                        update_authority_is_signer,
                                    ) == Some(MetadataError::CannotVerifyAnotherCreator));
                                }
                                return Err(MetadataError::CannotVerifyAnotherCreator);
                            } else if !creators[c].verified && prev.verified {
                                proof {
                                    assert(creator_check(
                                        csv[c as int],
                                        ecs,
                                        update_authority@,
                                        update_authority_is_signer,
                                    ) == Some(MetadataError::CannotUnverifyAnotherCreator));
                                }
                                return Err(MetadataError::CannotUnverifyAnotherCreator);
                            }
                        },
                        None => {
                            if creators[c].verified {
                                proof {
                                    assert(creator_check(
                                        csv[c as int],
                                        ecs,
                                        update_authority@,
                                        update_authority_is_signer,
                                    ) == Some(MetadataError::CannotVerifyAnotherCreator));
                                }
                                return Err(MetadataError::CannotVerifyAnotherCreator);
                            }
                        },
                    }
                },
                None => {
                    if creators[c].verified {
                        proof {
                            assert(creator_check(
                                csv[c as int],
                                ecs,
                                update_authority@,
                                update_authority_is_signer,
                            ) == Some(MetadataError::CannotVerifyAnotherCreator));
                        }
                        return Err(MetadataError::CannotVerifyAnotherCreator);
                    }
                },
            }
        }
        proof {
            assert(allow_direct_creator_writes || creator_check(
                csv[c as int],
                ecs,
                update_authority@,
                update_authority_is_signer,
            ) is None);
        }
        total = next_total;
        c += 1;
    }
    proof {
        assert(csv.take(csv.len() as int) =~= csv);
    }
    if total != 100 {
        return Err(MetadataError::ShareTotalMustBe100);
    }
    if allow_direct_creator_writes {
        return Ok(());
    }
    // No existing verified creator may be silently dropped.
    match &existing_metadata.data.creators {
        Some(existing_creators) => {
            let ghost ecsv = view_creators(existing_creators@);
            proof {
                assert(existing_metadata@.data.creators == Some(ecsv));
            }
            let mut e: usize = 0;
            while e < existing_creators.len()
                invariant
                    e <= ecsv.len(),
                    ecsv == view_creators(existing_creators@),
                    csv == view_creators(creators@),
                    first_removed_verified(
                        ecsv,
                        csv,
                        update_authority@,
                        update_authority_is_signer,
                        0,
                    ) == first_removed_verified(
                        ecsv,
                        csv,
                        update_authority@,
                        update_authority_is_signer,
                        e as int,
                    ),
                decreases ecsv.len() - e,
            {
                proof {
                    assert(ecsv[e as int] == existing_creators@[e as int]@);
                }
                let own_entry = update_authority_is_signer && existing_creators[e].address.equals(
                    update_authority,
                );
                if !own_entry && existing_creators[e].verified {
                    // Only a creator still on the list may stay verified.
                    let mut found = false;
                    let mut t: usize = 0;
                    while t < creators.len()
                        invariant
                            t <= csv.len(),
                            csv == view_creators(creators@),
                            e < ecsv.len(),
                            ecsv == view_creators(existing_creators@),
                            found == exists|x: int|
                                0 <= x < t && (#[trigger] csv[x]).address == ecsv[e as int].address,
                        decreases csv.len() - t,
                    {
                        proof {
                            assert(csv[t as int] == creators@[t as int]@);
                        }
                        if creators[t].address.equals(&existing_creators[e].address) {
                            found = true;
                        }
                        t += 1;
                    }
                    if !found {
                        proof {
                            assert(!has_creator(csv, ecsv[e as int].address));
                        }
                        return Err(MetadataError::CannotUnverifyAnotherCreator);
                    }
                }
                e += 1;
            }
        },
        None => {},
    }
    Ok(())
}

} // verus!
