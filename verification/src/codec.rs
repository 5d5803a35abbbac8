//! The binary format of a record, as mathematics.
//!
//! `ser_*` gives the exact bytes a value is stored as; `parse_*` gives
//! the value a byte stream decodes to, cursor-style: a parse takes the
//! stream and a position and yields the value with the next position, or
//! nothing when the bytes at that position do not form the value.
//! Integers are little endian; byte strings carry a 4-byte length
//! prefix; optional blocks carry a 1-byte presence tag.

use vstd::prelude::*;

use crate::state::CollectionDetailsView;
use crate::state::CollectionView;
use crate::state::CreatorView;
use crate::state::DataView;
use crate::state::Key;
use crate::state::MetadataView;
use crate::state::TokenStandard;
use crate::state::UseMethod;
use crate::state::Uses;
use crate::state::key_tag;
use crate::state::parse_key_tag;
use crate::state::parse_token_standard_tag;
use crate::state::parse_use_method_tag;
use crate::state::token_standard_tag;
use crate::state::use_method_tag;
use crate::state::wf_metadata;
use crate::state::MAX_METADATA_LEN;

verus! {

// ----------------------------------------------------------------------
// Serialization
// ----------------------------------------------------------------------

/// The one byte a flag is stored as.
pub open spec fn ser_bool(b: bool) -> Seq<u8> {
    seq![if b { 1u8 } else { 0u8 }]
}

/// The two little-endian bytes of a 16-bit integer.
pub open spec fn ser_u16(n: u16) -> Seq<u8> {
    seq![(n & 0xff) as u8, ((n >> 8) & 0xff) as u8]
}

/// The four little-endian bytes of a 32-bit integer.
pub open spec fn ser_u32(n: u32) -> Seq<u8> {
    seq![
        (n & 0xff) as u8,
        ((n >> 8) & 0xff) as u8,
        ((n >> 16) & 0xff) as u8,
        ((n >> 24) & 0xff) as u8,
    ]
}

/// The eight little-endian bytes of a 64-bit integer.
pub open spec fn ser_u64(n: u64) -> Seq<u8> {
    seq![
        (n & 0xff) as u8,
        ((n >> 8) & 0xff) as u8,
        ((n >> 16) & 0xff) as u8,
        ((n >> 24) & 0xff) as u8,
        ((n >> 32) & 0xff) as u8,
        ((n >> 40) & 0xff) as u8,
        ((n >> 48) & 0xff) as u8,
        ((n >> 56) & 0xff) as u8,
    ]
}

/// A byte string: its length, then its bytes.
pub open spec fn ser_bytes(s: Seq<u8>) -> Seq<u8> {
    ser_u32(s.len() as u32) + s
}

/// One creator entry: address, verified flag, share.
pub open spec fn ser_creator(c: CreatorView) -> Seq<u8> {
    c.address + ser_bool(c.verified) + seq![c.share]
}

/// A creators list, entry by entry.
pub open spec fn ser_creators(cs: Seq<CreatorView>) -> Seq<u8>
    decreases cs.len(),
{
    if cs.len() == 0 {
        Seq::empty()
    } else {
        ser_creator(cs[0]) + ser_creators(cs.drop_first())
    }
}

/// The optional creators list: presence tag, then count, then entries.
pub open spec fn ser_opt_creators(o: Option<Seq<CreatorView>>) -> Seq<u8> {
    match o {
        None => seq![0u8],
        Some(cs) => seq![1u8] + ser_u32(cs.len() as u32) + ser_creators(cs),
    }
}

/// The data block: three byte strings, the basis points, the creators.
pub open spec fn ser_data(d: DataView) -> Seq<u8> {
    ser_bytes(d.name) + ser_bytes(d.symbol) + ser_bytes(d.uri) + ser_u16(
        d.seller_fee_basis_points,
    ) + ser_opt_creators(d.creators)
}

/// The optional token standard: presence tag, then its tag byte.
pub open spec fn ser_opt_token_standard(o: Option<TokenStandard>) -> Seq<u8> {
    match o {
        None => seq![0u8],
        Some(t) => seq![1u8, token_standard_tag(t)],
    }
}

/// A collection reference: verified flag, then the target address.
pub open spec fn ser_collection(c: CollectionView) -> Seq<u8> {
    ser_bool(c.verified) + c.key
}

/// The optional collection reference.
pub open spec fn ser_opt_collection(o: Option<CollectionView>) -> Seq<u8> {
    match o {
        None => seq![0u8],
        Some(c) => seq![1u8] + ser_collection(c),
    }
}

/// A uses descriptor: method tag, remaining count, total count.
pub open spec fn ser_uses(u: Uses) -> Seq<u8> {
    seq![use_method_tag(u.use_method)] + ser_u64(u.remaining) + ser_u64(u.total)
}

/// The optional uses descriptor.
pub open spec fn ser_opt_uses(o: Option<Uses>) -> Seq<u8> {
    match o {
        None => seq![0u8],
        Some(u) => seq![1u8] + ser_uses(u),
    }
}

/// A collection-size descriptor: version tag, then its payload.
pub open spec fn ser_collection_details(d: CollectionDetailsView) -> Seq<u8> {
    match d {
        CollectionDetailsView::V1 { size } => seq![0u8] + ser_u64(size),
        CollectionDetailsView::V2 { padding } => seq![1u8] + padding,
    }
}

/// The optional collection-size descriptor.
pub open spec fn ser_opt_collection_details(o: Option<CollectionDetailsView>) -> Seq<u8> {
    match o {
        None => seq![0u8],
        Some(d) => seq![1u8] + ser_collection_details(d),
    }
}

/// The whole record: discriminator, authority, mint, data block, the
/// two flags, then the four optional trailing blocks. The request-only
/// `collection` and `uses` fields of the data block are not stored.
pub open spec fn ser_metadata(m: MetadataView) -> Seq<u8> {
    seq![key_tag(m.key)] + m.update_authority + m.mint + ser_data(m.data) + ser_bool(
        m.primary_sale_happened,
    ) + ser_bool(m.is_mutable) + ser_opt_token_standard(m.token_standard) + ser_opt_collection(
        m.collection,
    ) + ser_opt_uses(m.uses) + ser_opt_collection_details(m.collection_details)
}

// ----------------------------------------------------------------------
// Parsing
// ----------------------------------------------------------------------

/// One raw byte.
pub open spec fn parse_u8(s: Seq<u8>, i: int) -> Option<(u8, int)> {
    if 0 <= i && i + 1 <= s.len() {
        Some((s[i], i + 1))
    } else {
        None
    }
}

/// One flag byte; any value besides 0 and 1 is rejected.
pub open spec fn parse_bool(s: Seq<u8>, i: int) -> Option<(bool, int)> {
    match parse_u8(s, i) {
        Some((b, j)) => if b == 0 {
            Some((false, j))
        } else if b == 1 {
            Some((true, j))
        } else {
            None
        },
        None => None,
    }
}

/// A 16-bit little-endian integer.
pub open spec fn parse_u16(s: Seq<u8>, i: int) -> Option<(u16, int)> {
    if 0 <= i && i + 2 <= s.len() {
        Some(((s[i] as u16) | ((s[i + 1] as u16) << 8), i + 2))
    } else {
        None
    }
}

/// A 32-bit little-endian integer.
pub open spec fn parse_u32(s: Seq<u8>, i: int) -> Option<(u32, int)> {
    if 0 <= i && i + 4 <= s.len() {
        Some(
            (
                (s[i] as u32) | ((s[i + 1] as u32) << 8) | ((s[i + 2] as u32) << 16) | ((s[i + 3]
                    as u32) << 24),
                i + 4,
            ),
        )
    } else {
        None
    }
}

/// A 64-bit little-endian integer.
pub open spec fn parse_u64(s: Seq<u8>, i: int) -> Option<(u64, int)> {
    if 0 <= i && i + 8 <= s.len() {
        Some(
            (
                (s[i] as u64) | ((s[i + 1] as u64) << 8) | ((s[i + 2] as u64) << 16) | ((s[i + 3]
                    as u64) << 24) | ((s[i + 4] as u64) << 32) | ((s[i + 5] as u64) << 40) | ((s[i
                    + 6] as u64) << 48) | ((s[i + 7] as u64) << 56),
                i + 8,
            ),
        )
    } else {
        None
    }
}

/// A fixed 32-byte address.
pub open spec fn parse_bytes32(s: Seq<u8>, i: int) -> Option<(Seq<u8>, int)> {
    if 0 <= i && i + 32 <= s.len() {
        Some((s.subrange(i, i + 32), i + 32))
    } else {
        None
    }
}

/// A length-prefixed byte string.
pub open spec fn parse_vec_bytes(s: Seq<u8>, i: int) -> Option<(Seq<u8>, int)> {
    match parse_u32(s, i) {
        Some((n, j)) => if j + n <= s.len() {
            Some((s.subrange(j, j + n), j + n))
        } else {
            None
        },
        None => None,
    }
}

/// A discriminator tag byte.
pub open spec fn parse_key(s: Seq<u8>, i: int) -> Option<(Key, int)> {
    match parse_u8(s, i) {
        Some((b, j)) => match parse_key_tag(b) {
            Some(k) => Some((k, j)),
            None => None,
        },
        None => None,
    }
}

/// A token-standard tag byte.
pub open spec fn parse_token_standard(s: Seq<u8>, i: int) -> Option<(TokenStandard, int)> {
    match parse_u8(s, i) {
        Some((b, j)) => match parse_token_standard_tag(b) {
            Some(t) => Some((t, j)),
            None => None,
        },
        None => None,
    }
}

/// A use-method tag byte.
pub open spec fn parse_use_method(s: Seq<u8>, i: int) -> Option<(UseMethod, int)> {
    match parse_u8(s, i) {
        Some((b, j)) => match parse_use_method_tag(b) {
            Some(m) => Some((m, j)),
            None => None,
        },
        None => None,
    }
}

/// One creator entry.
pub open spec fn parse_creator(s: Seq<u8>, i: int) -> Option<(CreatorView, int)> {
    match parse_bytes32(s, i) {
        Some((address, j)) => match parse_bool(s, j) {
            Some((verified, k)) => match parse_u8(s, k) {
                Some((share, l)) => Some((CreatorView { address, verified, share }, l)),
                None => None,
            },
            None => None,
        },
        None => None,
    }
}

/// Exactly `n` creator entries.
pub open spec fn parse_creators(s: Seq<u8>, i: int, n: nat) -> Option<(Seq<CreatorView>, int)>
    decreases n,
{
    if n == 0 {
        if 0 <= i && i <= s.len() {
            Some((Seq::empty(), i))
        } else {
            None
        }
    } else {
        match parse_creator(s, i) {
            Some((c, j)) => match parse_creators(s, j, (n - 1) as nat) {
                Some((cs, k)) => Some((seq![c] + cs, k)),
                None => None,
            },
            None => None,
        }
    }
}

/// The optional creators list.
pub open spec fn parse_opt_creators(s: Seq<u8>, i: int) -> Option<
    (Option<Seq<CreatorView>>, int),
> {
    match parse_u8(s, i) {
        Some((tag, j)) => if tag == 0 {
            Some((None, j))
        } else if tag == 1 {
            match parse_u32(s, j) {
                Some((n, k)) => match parse_creators(s, k, n as nat) {
                    Some((cs, l)) => Some((Some(cs), l)),
                    None => None,
                },
                None => None,
            }
        } else {
            None
        },
        None => None,
    }
}

/// The data block. The request-only `collection` and `uses` fields are
/// not stored, so a decoded block always carries them as absent.
pub open spec fn parse_data(s: Seq<u8>, i: int) -> Option<(DataView, int)> {
    match parse_vec_bytes(s, i) {
        Some((name, j)) => match parse_vec_bytes(s, j) {
            Some((symbol, k)) => match parse_vec_bytes(s, k) {
                Some((uri, l)) => match parse_u16(s, l) {
                    Some((bps, m)) => match parse_opt_creators(s, m) {
                        Some((creators, n)) => Some(
                            (
                                DataView {
                                    name,
                                    symbol,
                                    uri,
                                    seller_fee_basis_points: bps,
                                    creators,
                                    collection: None,
                                    uses: None,
                                },
                                n,
                            ),
                        ),
                        None => None,
                    },
                    None => None,
                },
                None => None,
            },
            None => None,
        },
        None => None,
    }
}

/// The optional token standard.
pub open spec fn parse_opt_token_standard(s: Seq<u8>, i: int) -> Option<
    (Option<TokenStandard>, int),
> {
    match parse_u8(s, i) {
        Some((tag, j)) => if tag == 0 {
            Some((None, j))
        } else if tag == 1 {
            match parse_token_standard(s, j) {
                Some((t, k)) => Some((Some(t), k)),
                None => None,
            }
        } else {
            None
        },
        None => None,
    }
}

/// A collection reference.
pub open spec fn parse_collection(s: Seq<u8>, i: int) -> Option<(CollectionView, int)> {
    match parse_bool(s, i) {
        Some((verified, j)) => match parse_bytes32(s, j) {
            Some((key, k)) => Some((CollectionView { verified, key }, k)),
            None => None,
        },
        None => None,
    }
}

/// The optional collection reference.
pub open spec fn parse_opt_collection(s: Seq<u8>, i: int) -> Option<(Option<CollectionView>, int)> {
    match parse_u8(s, i) {
        Some((tag, j)) => if tag == 0 {
            Some((None, j))
        } else if tag == 1 {
            match parse_collection(s, j) {
                Some((c, k)) => Some((Some(c), k)),
                None => None,
            }
        } else {
            None
        },
        None => None,
    }
}

/// A uses descriptor.
pub open spec fn parse_uses(s: Seq<u8>, i: int) -> Option<(Uses, int)> {
    match parse_use_method(s, i) {
        Some((m, j)) => match parse_u64(s, j) {
            Some((remaining, k)) => match parse_u64(s, k) {
                Some((total, l)) => Some((Uses { use_method: m, remaining, total }, l)),
                None => None,
            },
            None => None,
        },
        None => None,
    }
}

/// The optional uses descriptor.
pub open spec fn parse_opt_uses(s: Seq<u8>, i: int) -> Option<(Option<Uses>, int)> {
    match parse_u8(s, i) {
        Some((tag, j)) => if tag == 0 {
            Some((None, j))
        } else if tag == 1 {
            match parse_uses(s, j) {
                Some((u, k)) => Some((Some(u), k)),
                None => None,
            }
        } else {
            None
        },
        None => None,
    }
}

/// A collection-size descriptor.
pub open spec fn parse_collection_details(s: Seq<u8>, i: int) -> Option<
    (CollectionDetailsView, int),
> {
    match parse_u8(s, i) {
        Some((tag, j)) => if tag == 0 {
            match parse_u64(s, j) {
                Some((size, k)) => Some((CollectionDetailsView::V1 { size }, k)),
                None => None,
            }
        } else if tag == 1 {
            if j + 8 <= s.len() {
                Some((CollectionDetailsView::V2 { padding: s.subrange(j, j + 8) }, j + 8))
            } else {
                None
            }
        } else {
            None
        },
        None => None,
    }
}

/// The optional collection-size descriptor.
pub open spec fn parse_opt_collection_details(s: Seq<u8>, i: int) -> Option<
    (Option<CollectionDetailsView>, int),
> {
    match parse_u8(s, i) {
        Some((tag, j)) => if tag == 0 {
            Some((None, j))
        } else if tag == 1 {
            match parse_collection_details(s, j) {
                Some((d, k)) => Some((Some(d), k)),
                None => None,
            }
        } else {
            None
        },
        None => None,
    }
}

/// The fixed-shape prefix of a record: discriminator, authority, mint,
/// data block and the two flags, as a partly filled record value.
pub open spec fn parse_prefix(s: Seq<u8>) -> Option<(MetadataView, int)> {
    match parse_key(s, 0) {
        Some((key, a)) => match parse_bytes32(s, a) {
            Some((update_authority, b)) => match parse_bytes32(s, b) {
                Some((mint, c)) => match parse_data(s, c) {
                    Some((data, d)) => match parse_bool(s, d) {
                        Some((primary_sale_happened, e)) => match parse_bool(s, e) {
                            Some((is_mutable, f)) => Some(
                                (
                                    MetadataView {
                                        key,
                                        update_authority,
                                        mint,
                                        data,
                                        primary_sale_happened,
                                        is_mutable,
                                        token_standard: None,
                                        collection: None,
                                        collection_details: None,
                                        uses: None,
                                    },
                                    f,
                                ),
                            ),
                            None => None,
                        },
                        None => None,
                    },
                    None => None,
                },
                None => None,
            },
            None => None,
        },
        None => None,
    }
}

/// The best-effort decode of a whole record. The fixed prefix must
/// parse; the three optional trailing blocks are then attempted in
/// sequence, and if any of them fails all three are reset to absent —
/// a corrupt middle block would misalign every later read, so nothing
/// after it can be trusted. The collection-size descriptor defaults to
/// absent on its own failure; when the middle group fails its position
/// is lost, so it too is absent.
pub open spec fn parse_lenient(s: Seq<u8>) -> Option<MetadataView> {
    match parse_prefix(s) {
        Some((m, f)) => Some(
            match parse_opt_token_standard(s, f) {
                Some((token_standard, g)) => match parse_opt_collection(s, g) {
                    Some((collection, h)) => match parse_opt_uses(s, h) {
                        Some((uses, i)) => MetadataView {
                            token_standard,
                            collection,
                            uses,
                            collection_details: match parse_opt_collection_details(s, i) {
                                Some((details, _)) => details,
                                None => None,
                            },
                            ..m
                        },
                        None => m,
                    },
                    None => m,
                },
                None => m,
            },
        ),
        None => None,
    }
}

/// The strict decode: the buffer must be non-empty and open with a
/// known discriminator tag before the fields are read.
pub open spec fn parse_strict(s: Seq<u8>) -> Option<MetadataView> {
    if s.len() > 0 && parse_key_tag(s[0]) is Some {
        parse_lenient(s)
    } else {
        None
    }
}

/// A parse outcome with an executable cursor, lifted to the
/// mathematical cursor the `parse_*` functions use.
pub open spec fn lift_pos<T>(r: Option<(T, usize)>) -> Option<(T, int)> {
    match r {
        Some((v, j)) => Some((v, j as int)),
        None => None,
    }
}

/// Entries already parsed, prepended to the outcome of the rest.
pub open spec fn prepend_creators(pre: Seq<CreatorView>, rest: Option<(Seq<CreatorView>, int)>)
    -> Option<(Seq<CreatorView>, int)> {
    match rest {
        Some((cs, j)) => Some((pre + cs, j)),
        None => None,
    }
}

// ----------------------------------------------------------------------
// Size bounds
// ----------------------------------------------------------------------

/// Every creator a parse produces carries a 32-byte address.
pub proof fn lemma_parse_creators_wf(s: Seq<u8>, i: int, n: nat)
    ensures
        parse_creators(s, i, n) matches Some(p) ==> forall|t: int|
            0 <= t < p.0.len() ==> crate::state::wf_creator(#[trigger] p.0[t]),
    decreases n,
{
    if n == 0 {
    } else {
        match parse_creator(s, i) {
            Some((c, j)) => {
                lemma_parse_creators_wf(s, j, (n - 1) as nat);
                match parse_creators(s, j, (n - 1) as nat) {
                    Some((cs, k)) => {
                        assert forall|t: int| 0 <= t < (seq![c] + cs).len() implies
                            crate::state::wf_creator(#[trigger] (seq![c] + cs)[t]) by {
                            if t == 0 {
                                assert((seq![c] + cs)[0] == c);
                            } else {
                                assert((seq![c] + cs)[t] == cs[t - 1]);
                            }
                        }
                    },
                    None => {},
                }
            },
            None => {},
        }
    }
}

/// Every record a lenient parse produces is structurally sound: its
/// addresses are 32 bytes, its data block carries no request-only
/// fields, and each optional block is well formed. Only the string
/// and list length bounds can still be violated by a stored record.
pub proof fn lemma_parse_lenient_wf(s: Seq<u8>)
    ensures
        parse_lenient(s) matches Some(m) ==> {
            &&& m.update_authority.len() == 32
            &&& m.mint.len() == 32
            &&& m.data.collection is None
            &&& m.data.uses is None
            &&& (m.data.creators matches Some(cs) ==> forall|t: int|
                0 <= t < cs.len() ==> crate::state::wf_creator(#[trigger] cs[t]))
            &&& (m.collection matches Some(c) ==> crate::state::wf_collection(c))
            &&& (m.collection_details matches Some(d) ==> crate::state::wf_collection_details(d))
        },
{
    lemma_parse_prefix_wf(s);
}

/// The position and well-formedness bookkeeping of the fixed prefix.
proof fn lemma_parse_prefix_wf(s: Seq<u8>)
    ensures
        parse_prefix(s) matches Some(p) ==> {
            &&& p.0.update_authority.len() == 32
            &&& p.0.mint.len() == 32
            &&& p.0.data.collection is None
            &&& p.0.data.uses is None
            &&& (p.0.data.creators matches Some(cs) ==> forall|t: int|
                0 <= t < cs.len() ==> crate::state::wf_creator(#[trigger] cs[t]))
        },
{
    match parse_key(s, 0) {
        Some((key, a)) => match parse_bytes32(s, a) {
            Some((ua, b)) => match parse_bytes32(s, b) {
                Some((mint, c)) => match parse_data(s, c) {
                    Some((d, e)) => {
                        match d.creators {
                            Some(cs) => {
                                lemma_parse_data_creators_wf(s, c);
                            },
                            None => {},
                        }
                    },
                    None => {},
                },
                None => {},
            },
            None => {},
        },
        None => {},
    }
}

/// The creators of a parsed data block are each well formed.
proof fn lemma_parse_data_creators_wf(s: Seq<u8>, i: int)
    ensures
        parse_data(s, i) matches Some(p) ==> (p.0.creators matches Some(cs) ==> forall|t: int|
            0 <= t < cs.len() ==> crate::state::wf_creator(#[trigger] cs[t])),
{
    match parse_vec_bytes(s, i) {
        Some((name, j)) => match parse_vec_bytes(s, j) {
            Some((symbol, k)) => match parse_vec_bytes(s, k) {
                Some((uri, l)) => match parse_u16(s, l) {
                    Some((bps, m)) => match parse_u8(s, m) {
                        Some((tag, n)) => {
                            if tag == 1 {
                                match parse_u32(s, n) {
                                    Some((count, o)) => {
                                        lemma_parse_creators_wf(s, o, count as nat);
                                    },
                                    None => {},
                                }
                            }
                        },
                        None => {},
                    },
                    None => {},
                },
                None => {},
            },
            None => {},
        },
        None => {},
    }
}

/// Length of a serialized creators list, entry by entry.
pub proof fn lemma_ser_creators_len(cs: Seq<CreatorView>)
    requires
        forall|i: int| 0 <= i < cs.len() ==> (#[trigger] cs[i]).address.len() == 32,
    ensures
        ser_creators(cs).len() == cs.len() * 34,
    decreases cs.len(),
{
    if cs.len() == 0 {
    } else {
        lemma_ser_creators_len(cs.drop_first());
        assert(ser_creator(cs[0]).len() == 34);
    }
}

/// A well-formed record serializes into less than the backing account:
/// the trailer byte always stays outside the record's bytes.
pub proof fn lemma_ser_metadata_len(m: MetadataView)
    requires
        wf_metadata(m),
    ensures
        ser_metadata(m).len() <= MAX_METADATA_LEN - 1,
        ser_metadata(m).len() >= 79,
{
    match m.data.creators {
        Some(cs) => {
            lemma_ser_creators_len(cs);
            assert(cs.len() * 34 <= 5 * 34) by (nonlinear_arith)
                requires cs.len() <= 5;
        },
        None => {},
    }
}

} // verus!
