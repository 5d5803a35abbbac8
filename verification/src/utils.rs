//! Normalizing string fields to their fixed stored width.
//!
//! Stored names, symbols and URIs are right-padded with zero bytes to
//! their maximum length, so that prefix filters over raw account bytes
//! see a deterministic layout.

use vstd::prelude::*;

use crate::state::Metadata;
use crate::state::MAX_NAME_LENGTH;
use crate::state::MAX_SYMBOL_LENGTH;
use crate::state::MAX_URI_LENGTH;

verus! {

/// A byte string padded to the given width with zero bytes.
pub open spec fn puffed(s: Seq<u8>, size: int) -> Seq<u8> {
    s + Seq::<u8>::new((size - s.len()) as nat, |i: int| 0u8)
}

/// Pads the string to the desired size with zero bytes.
#[verifier::loop_isolation(false)]
pub fn puffed_out_string(s: &Vec<u8>, size: usize) -> (r: Vec<u8>)
    requires
        s@.len() <= size,
    ensures
        r@ == puffed(s@, size as int),
        r@.len() == size,
{
    let mut r: Vec<u8> = Vec::new();
    let mut i: usize = 0;
    while i < s.len()
        invariant
            i <= s@.len(),
            r@ == s@.take(i as int),
        decreases s@.len() - i,
    {
        r.push(s[i]);
        proof {
            assert(r@ =~= s@.take(i + 1));
        }
        i += 1;
    }
    proof {
        assert(r@ =~= s@);
    }
    while r.len() < size
        invariant
            s@.len() <= r@.len() <= size,
            r@ == puffed(s@, r@.len() as int),
        decreases size - r@.len(),
    {
        r.push(0);
        proof {
            assert(r@ =~= puffed(s@, r@.len() as int));
        }
    }
    proof {
        assert(r@ =~= puffed(s@, size as int));
    }
    r
}

/// Pads every string field of the record to its maximum stored width.
pub fn puff_out_data_fields(metadata: &mut Metadata)
    requires
        old(metadata).data.name@.len() <= MAX_NAME_LENGTH,
        old(metadata).data.symbol@.len() <= MAX_SYMBOL_LENGTH,
        old(metadata).data.uri@.len() <= MAX_URI_LENGTH,
    ensures
        final(metadata).data.name@ == puffed(old(metadata).data.name@, MAX_NAME_LENGTH as int),
        final(metadata).data.symbol@ == puffed(
            old(metadata).data.symbol@,
            MAX_SYMBOL_LENGTH as int,
        ),
        final(metadata).data.uri@ == puffed(old(metadata).data.uri@, MAX_URI_LENGTH as int),
        final(metadata).data.seller_fee_basis_points == old(
            metadata,
        ).data.seller_fee_basis_points,
        final(metadata).data.creators == old(metadata).data.creators,
        final(metadata).data.collection == old(metadata).data.collection,
        final(metadata).data.uses == old(metadata).data.uses,
        final(metadata).key == old(metadata).key,
        final(metadata).update_authority == old(metadata).update_authority,
        final(metadata).mint == old(metadata).mint,
        final(metadata).primary_sale_happened == old(metadata).primary_sale_happened,
        final(metadata).is_mutable == old(metadata).is_mutable,
        final(metadata).token_standard == old(metadata).token_standard,
        final(metadata).collection == old(metadata).collection,
        final(metadata).collection_details == old(metadata).collection_details,
        final(metadata).uses == old(metadata).uses,
{
    metadata.data.name = puffed_out_string(&metadata.data.name, MAX_NAME_LENGTH);
    metadata.data.symbol = puffed_out_string(&metadata.data.symbol, MAX_SYMBOL_LENGTH);
    metadata.data.uri = puffed_out_string(&metadata.data.uri, MAX_URI_LENGTH);
}

} // verus!
