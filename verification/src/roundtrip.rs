//! Decoding a serialized record gives the record back.
//!
//! Each lemma says: where a stream holds the bytes `ser_*` produced for
//! a value, `parse_*` at that position yields exactly that value and
//! stops exactly past its bytes. They compose into the round-trip law
//! for whole records.

use vstd::prelude::*;

use crate::codec::parse_bool;
use crate::codec::parse_creator;
use crate::codec::parse_creators;
use crate::codec::parse_data;
use crate::codec::parse_key;
use crate::codec::parse_lenient;
use crate::codec::parse_opt_collection;
use crate::codec::parse_opt_collection_details;
use crate::codec::parse_opt_creators;
use crate::codec::parse_opt_token_standard;
use crate::codec::parse_opt_uses;
use crate::codec::parse_prefix;
use crate::codec::parse_strict;
use crate::codec::parse_u16;
use crate::codec::parse_u32;
use crate::codec::parse_u64;
use crate::codec::parse_vec_bytes;
use crate::codec::ser_bool;
use crate::codec::ser_bytes;
use crate::codec::ser_collection;
use crate::codec::ser_collection_details;
use crate::codec::ser_creator;
use crate::codec::ser_creators;
use crate::codec::ser_data;
use crate::codec::ser_metadata;
use crate::codec::ser_opt_collection;
use crate::codec::ser_opt_collection_details;
use crate::codec::ser_opt_creators;
use crate::codec::ser_opt_token_standard;
use crate::codec::ser_opt_uses;
use crate::codec::ser_u16;
use crate::codec::ser_u32;
use crate::codec::ser_u64;
use crate::codec::ser_uses;
use crate::state::CollectionDetailsView;
use crate::state::CollectionView;
use crate::state::CreatorView;
use crate::state::DataView;
use crate::state::MetadataView;
use crate::state::TokenStandard;
use crate::state::Uses;
use crate::state::key_tag;
use crate::state::use_method_tag;
use crate::state::wf_collection;
use crate::state::wf_collection_details;
use crate::state::wf_creator;
use crate::state::wf_data;
use crate::state::wf_metadata;

verus! {

/// Splits a known concatenation at a position into its two parts.
proof fn lemma_split(s: Seq<u8>, i: int, a: Seq<u8>, b: Seq<u8>)
    requires
        0 <= i,
        i + a.len() + b.len() <= s.len(),
        s.subrange(i, i + a.len() + b.len()) == a + b,
    ensures
        s.subrange(i, i + a.len() as int) == a,
        s.subrange(i + a.len() as int, i + a.len() + b.len()) == b,
{
    assert forall|t: int| 0 <= t < a.len() implies s.subrange(i, i + a.len() as int)[t] == a[t] by {
        assert(s.subrange(i, i + a.len() + b.len())[t] == s[i + t]);
        assert((a + b)[t] == a[t]);
    }
    assert(s.subrange(i, i + a.len() as int) =~= a);
    assert forall|t: int| 0 <= t < b.len() implies s.subrange(
        i + a.len() as int,
        i + a.len() + b.len(),
    )[t] == b[t] by {
        assert(s.subrange(i, i + a.len() + b.len())[a.len() + t] == s[i + a.len() + t]);
        assert((a + b)[a.len() + t] == b[t]);
    }
    assert(s.subrange(i + a.len() as int, i + a.len() + b.len()) =~= b);
}

/// One byte of a located piece, read back out of the whole stream.
proof fn lemma_byte_at(s: Seq<u8>, i: int, a: Seq<u8>, t: int)
    requires
        0 <= i,
        i + a.len() <= s.len(),
        s.subrange(i, i + a.len() as int) == a,
        0 <= t < a.len(),
    ensures
        s[i + t] == a[t],
{
    assert(s.subrange(i, i + a.len() as int)[t] == s[i + t]);
}

proof fn lemma_parse_bool_ser(s: Seq<u8>, i: int, b: bool)
    requires
        0 <= i,
        i + 1 <= s.len(),
        s.subrange(i, i + 1) == ser_bool(b),
    ensures
        parse_bool(s, i) == Some((b, i + 1)),
{
    lemma_byte_at(s, i, ser_bool(b), 0);
}

proof fn lemma_parse_u16_ser(s: Seq<u8>, i: int, n: u16)
    requires
        0 <= i,
        i + 2 <= s.len(),
        s.subrange(i, i + 2) == ser_u16(n),
    ensures
        parse_u16(s, i) == Some((n, i + 2)),
{
    lemma_byte_at(s, i, ser_u16(n), 0);
    lemma_byte_at(s, i, ser_u16(n), 1);
    assert((((n & 0xff) as u8) as u16) | ((((n >> 8) & 0xff) as u8) as u16) << 8 == n)
        by (bit_vector);
}

proof fn lemma_parse_u32_ser(s: Seq<u8>, i: int, n: u32)
    requires
        0 <= i,
        i + 4 <= s.len(),
        s.subrange(i, i + 4) == ser_u32(n),
    ensures
        parse_u32(s, i) == Some((n, i + 4)),
{
    lemma_byte_at(s, i, ser_u32(n), 0);
    lemma_byte_at(s, i, ser_u32(n), 1);
    lemma_byte_at(s, i, ser_u32(n), 2);
    lemma_byte_at(s, i, ser_u32(n), 3);
    assert((((n & 0xff) as u8) as u32) | ((((n >> 8) & 0xff) as u8) as u32) << 8 | ((((n >> 16)
        & 0xff) as u8) as u32) << 16 | ((((n >> 24) & 0xff) as u8) as u32) << 24 == n)
        by (bit_vector);
}

proof fn lemma_parse_u64_ser(s: Seq<u8>, i: int, n: u64)
    requires
        0 <= i,
        i + 8 <= s.len(),
        s.subrange(i, i + 8) == ser_u64(n),
    ensures
        parse_u64(s, i) == Some((n, i + 8)),
{
    lemma_byte_at(s, i, ser_u64(n), 0);
    lemma_byte_at(s, i, ser_u64(n), 1);
    lemma_byte_at(s, i, ser_u64(n), 2);
    lemma_byte_at(s, i, ser_u64(n), 3);
    lemma_byte_at(s, i, ser_u64(n), 4);
    lemma_byte_at(s, i, ser_u64(n), 5);
    lemma_byte_at(s, i, ser_u64(n), 6);
    lemma_byte_at(s, i, ser_u64(n), 7);
    assert((((n & 0xff) as u8) as u64) | ((((n >> 8) & 0xff) as u8) as u64) << 8 | ((((n >> 16)
        & 0xff) as u8) as u64) << 16 | ((((n >> 24) & 0xff) as u8) as u64) << 24 | ((((n >> 32)
        & 0xff) as u8) as u64) << 32 | ((((n >> 40) & 0xff) as u8) as u64) << 40 | ((((n >> 48)
        & 0xff) as u8) as u64) << 48 | ((((n >> 56) & 0xff) as u8) as u64) << 56 == n)
        by (bit_vector);
}

proof fn lemma_parse_vec_bytes_ser(s: Seq<u8>, i: int, b: Seq<u8>)
    requires
        0 <= i,
        b.len() <= u32::MAX,
        i + 4 + b.len() <= s.len(),
        s.subrange(i, i + 4 + b.len()) == ser_bytes(b),
    ensures
        parse_vec_bytes(s, i) == Some((b, i + 4 + b.len())),
{
    lemma_split(s, i, ser_u32(b.len() as u32), b);
    lemma_parse_u32_ser(s, i, b.len() as u32);
}

proof fn lemma_parse_creator_ser(s: Seq<u8>, i: int, c: CreatorView)
    requires
        0 <= i,
        wf_creator(c),
        i + 34 <= s.len(),
        s.subrange(i, i + 34) == ser_creator(c),
    ensures
        parse_creator(s, i) == Some((c, i + 34)),
{
    lemma_split(s, i, c.address + ser_bool(c.verified), seq![c.share]);
    lemma_split(s, i, c.address, ser_bool(c.verified));
    assert(s.subrange(i, i + 32) == c.address);
    lemma_parse_bool_ser(s, i + 32, c.verified);
    lemma_byte_at(s, i + 33, seq![c.share], 0);
    match parse_creator(s, i) {
        Some((cc, j)) => {
            assert(cc =~= c);
        },
        None => {
            assert(false);
        },
    }
}

proof fn lemma_ser_creators_first(cs: Seq<CreatorView>)
    requires
        cs.len() > 0,
        forall|t: int| 0 <= t < cs.len() ==> wf_creator(#[trigger] cs[t]),
    ensures
        ser_creators(cs) == ser_creator(cs[0]) + ser_creators(cs.drop_first()),
        ser_creators(cs).len() == 34 * cs.len(),
{
    crate::codec::lemma_ser_creators_len(cs);
}

proof fn lemma_parse_creators_ser(s: Seq<u8>, i: int, cs: Seq<CreatorView>)
    requires
        0 <= i,
        forall|t: int| 0 <= t < cs.len() ==> wf_creator(#[trigger] cs[t]),
        i + 34 * cs.len() <= s.len(),
        s.subrange(i, i + 34 * cs.len()) == ser_creators(cs),
    ensures
        parse_creators(s, i, cs.len()) == Some((cs, i + 34 * cs.len())),
    decreases cs.len(),
{
    if cs.len() == 0 {
        assert(parse_creators(s, i, 0) == Some((Seq::<CreatorView>::empty(), i)));
        assert(cs =~= Seq::<CreatorView>::empty());
    } else {
        lemma_ser_creators_first(cs);
        crate::codec::lemma_ser_creators_len(cs.drop_first());
        assert(cs.drop_first().len() == cs.len() - 1);
        lemma_split(s, i, ser_creator(cs[0]), ser_creators(cs.drop_first()));
        lemma_parse_creator_ser(s, i, cs[0]);
        lemma_parse_creators_ser(s, i + 34, cs.drop_first());
        assert(seq![cs[0]] + cs.drop_first() =~= cs);
        assert(parse_creators(s, i, cs.len()) == Some((cs, i + 34 * cs.len())));
    }
}

proof fn lemma_parse_opt_creators_ser(s: Seq<u8>, i: int, o: Option<Seq<CreatorView>>)
    requires
        0 <= i,
        match o {
            Some(cs) => {
                &&& cs.len() <= u32::MAX
                &&& forall|t: int| 0 <= t < cs.len() ==> wf_creator(#[trigger] cs[t])
            },
            None => true,
        },
        i + ser_opt_creators(o).len() <= s.len(),
        s.subrange(i, i + ser_opt_creators(o).len()) == ser_opt_creators(o),
    ensures
        parse_opt_creators(s, i) == Some((o, i + ser_opt_creators(o).len())),
{
    match o {
        None => {
            lemma_byte_at(s, i, ser_opt_creators(o), 0);
        },
        Some(cs) => {
            crate::codec::lemma_ser_creators_len(cs);
            lemma_split(s, i, seq![1u8] + ser_u32(cs.len() as u32), ser_creators(cs));
            lemma_split(s, i, seq![1u8], ser_u32(cs.len() as u32));
            lemma_byte_at(s, i, seq![1u8], 0);
            lemma_parse_u32_ser(s, i + 1, cs.len() as u32);
            lemma_parse_creators_ser(s, i + 5, cs);
        },
    }
}

proof fn lemma_parse_data_ser(s: Seq<u8>, i: int, d: DataView)
    requires
        0 <= i,
        wf_data(d),
        i + ser_data(d).len() <= s.len(),
        s.subrange(i, i + ser_data(d).len()) == ser_data(d),
    ensures
        parse_data(s, i) == Some(
            (DataView { collection: None, uses: None, ..d }, i + ser_data(d).len()),
        ),
{
    let p1 = ser_bytes(d.name);
    let p2 = ser_bytes(d.symbol);
    let p3 = ser_bytes(d.uri);
    let p4 = ser_u16(d.seller_fee_basis_points);
    let p5 = ser_opt_creators(d.creators);
    lemma_split(s, i, p1 + p2 + p3 + p4, p5);
    lemma_split(s, i, p1 + p2 + p3, p4);
    lemma_split(s, i, p1 + p2, p3);
    lemma_split(s, i, p1, p2);
    let i1 = i + p1.len() as int;
    let i2 = i1 + p2.len() as int;
    let i3 = i2 + p3.len() as int;
    let i4 = i3 + 2;
    lemma_parse_vec_bytes_ser(s, i, d.name);
    lemma_parse_vec_bytes_ser(s, i1, d.symbol);
    lemma_parse_vec_bytes_ser(s, i2, d.uri);
    lemma_parse_u16_ser(s, i3, d.seller_fee_basis_points);
    match d.creators {
        Some(cs) => {
            lemma_parse_opt_creators_ser(s, i4, d.creators);
        },
        None => {
            lemma_parse_opt_creators_ser(s, i4, d.creators);
        },
    }
    match parse_data(s, i) {
        Some((dd, j)) => {
            assert(dd =~= DataView { collection: None, uses: None, ..d });
        },
        None => {
            assert(false);
        },
    }
}

proof fn lemma_parse_opt_token_standard_ser(s: Seq<u8>, i: int, o: Option<TokenStandard>)
    requires
        0 <= i,
        i + ser_opt_token_standard(o).len() <= s.len(),
        s.subrange(i, i + ser_opt_token_standard(o).len()) == ser_opt_token_standard(o),
    ensures
        parse_opt_token_standard(s, i) == Some((o, i + ser_opt_token_standard(o).len())),
{
    match o {
        None => {
            lemma_byte_at(s, i, ser_opt_token_standard(o), 0);
        },
        Some(t) => {
            lemma_byte_at(s, i, ser_opt_token_standard(o), 0);
            lemma_byte_at(s, i, ser_opt_token_standard(o), 1);
        },
    }
}

proof fn lemma_parse_opt_collection_ser(s: Seq<u8>, i: int, o: Option<CollectionView>)
    requires
        0 <= i,
        match o {
            Some(c) => wf_collection(c),
            None => true,
        },
        i + ser_opt_collection(o).len() <= s.len(),
        s.subrange(i, i + ser_opt_collection(o).len()) == ser_opt_collection(o),
    ensures
        parse_opt_collection(s, i) == Some((o, i + ser_opt_collection(o).len())),
{
    match o {
        None => {
            lemma_byte_at(s, i, ser_opt_collection(o), 0);
        },
        Some(c) => {
            lemma_split(s, i, seq![1u8], ser_collection(c));
            lemma_byte_at(s, i, seq![1u8], 0);
            lemma_split(s, i + 1, ser_bool(c.verified), c.key);
            lemma_parse_bool_ser(s, i + 1, c.verified);
            assert(s.subrange(i + 2, i + 34) == c.key);
            match parse_opt_collection(s, i) {
                Some((oo, j)) => {
                    match oo {
                        Some(cc) => {
                            assert(cc =~= c);
                        },
                        None => {
                            assert(false);
                        },
                    }
                },
                None => {
                    assert(false);
                },
            }
        },
    }
}

proof fn lemma_parse_opt_uses_ser(s: Seq<u8>, i: int, o: Option<Uses>)
    requires
        0 <= i,
        i + ser_opt_uses(o).len() <= s.len(),
        s.subrange(i, i + ser_opt_uses(o).len()) == ser_opt_uses(o),
    ensures
        parse_opt_uses(s, i) == Some((o, i + ser_opt_uses(o).len())),
{
    match o {
        None => {
            lemma_byte_at(s, i, ser_opt_uses(o), 0);
        },
        Some(u) => {
            lemma_split(s, i, seq![1u8], ser_uses(u));
            lemma_byte_at(s, i, seq![1u8], 0);
            lemma_split(s, i + 1, seq![use_method_tag(u.use_method)] + ser_u64(u.remaining),
                ser_u64(u.total));
            lemma_split(s, i + 1, seq![use_method_tag(u.use_method)], ser_u64(u.remaining));
            lemma_byte_at(s, i + 1, seq![use_method_tag(u.use_method)], 0);
            lemma_parse_u64_ser(s, i + 2, u.remaining);
            lemma_parse_u64_ser(s, i + 10, u.total);
        },
    }
}

proof fn lemma_parse_opt_collection_details_ser(s: Seq<u8>, i: int, o: Option<
    CollectionDetailsView,
>)
    requires
        0 <= i,
        match o {
            Some(d) => wf_collection_details(d),
            None => true,
        },
        i + ser_opt_collection_details(o).len() <= s.len(),
        s.subrange(i, i + ser_opt_collection_details(o).len()) == ser_opt_collection_details(o),
    ensures
        parse_opt_collection_details(s, i) == Some((o, i + ser_opt_collection_details(o).len())),
{
    match o {
        None => {
            lemma_byte_at(s, i, ser_opt_collection_details(o), 0);
        },
        Some(d) => {
            lemma_split(s, i, seq![1u8], ser_collection_details(d));
            lemma_byte_at(s, i, seq![1u8], 0);
            match d {
                CollectionDetailsView::V1 { size } => {
                    lemma_split(s, i + 1, seq![0u8], ser_u64(size));
                    lemma_byte_at(s, i + 1, seq![0u8], 0);
                    lemma_parse_u64_ser(s, i + 2, size);
                },
                CollectionDetailsView::V2 { padding } => {
                    lemma_split(s, i + 1, seq![1u8], padding);
                    lemma_byte_at(s, i + 1, seq![1u8], 0);
                    assert(s.subrange(i + 2, i + 10) == padding);
                    match parse_opt_collection_details(s, i) {
                        Some((oo, j)) => {
                            assert(oo =~= o);
                        },
                        None => {
                            assert(false);
                        },
                    }
                },
            }
        },
    }
}

/// The round-trip law at the heart of the codec: wherever a stream
/// opens with the serialized bytes of a well-formed record, both decode
/// modes recover exactly that record, whatever padding follows.
#[verifier::rlimit(100)]
pub proof fn lemma_parse_ser_metadata(s: Seq<u8>, m: MetadataView)
    requires
        wf_metadata(m),
        ser_metadata(m).len() <= s.len(),
        s.subrange(0, ser_metadata(m).len() as int) == ser_metadata(m),
    ensures
        parse_lenient(s) == Some(m),
        parse_strict(s) == Some(m),
{
    let p1 = seq![key_tag(m.key)];
    let p2 = m.update_authority;
    let p3 = m.mint;
    let p4 = ser_data(m.data);
    let p5 = ser_bool(m.primary_sale_happened);
    let p6 = ser_bool(m.is_mutable);
    let p7 = ser_opt_token_standard(m.token_standard);
    let p8 = ser_opt_collection(m.collection);
    let p9 = ser_opt_uses(m.uses);
    let p10 = ser_opt_collection_details(m.collection_details);
    lemma_split(s, 0, p1 + p2 + p3 + p4 + p5 + p6 + p7 + p8 + p9, p10);
    lemma_split(s, 0, p1 + p2 + p3 + p4 + p5 + p6 + p7 + p8, p9);
    lemma_split(s, 0, p1 + p2 + p3 + p4 + p5 + p6 + p7, p8);
    lemma_split(s, 0, p1 + p2 + p3 + p4 + p5 + p6, p7);
    lemma_split(s, 0, p1 + p2 + p3 + p4 + p5, p6);
    lemma_split(s, 0, p1 + p2 + p3 + p4, p5);
    lemma_split(s, 0, p1 + p2 + p3, p4);
    lemma_split(s, 0, p1 + p2, p3);
    lemma_split(s, 0, p1, p2);
    let i1 = p1.len() as int;
    let i2 = i1 + p2.len() as int;
    let i3 = i2 + p3.len() as int;
    let i4 = i3 + p4.len() as int;
    let i5 = i4 + 1;
    let i6 = i5 + 1;
    let i7 = i6 + p7.len() as int;
    let i8 = i7 + p8.len() as int;
    let i9 = i8 + p9.len() as int;
    lemma_byte_at(s, 0, p1, 0);
    assert(parse_key(s, 0) == Some((m.key, 1int)));
    assert(s.subrange(i1, i2) == p2);
    assert(s.subrange(i2, i3) == p3);
    lemma_parse_data_ser(s, i3, m.data);
    lemma_parse_bool_ser(s, i4, m.primary_sale_happened);
    lemma_parse_bool_ser(s, i5, m.is_mutable);
    lemma_parse_opt_token_standard_ser(s, i6, m.token_standard);
    lemma_parse_opt_collection_ser(s, i7, m.collection);
    lemma_parse_opt_uses_ser(s, i8, m.uses);
    lemma_parse_opt_collection_details_ser(s, i9, m.collection_details);
    match parse_prefix(s) {
        Some((mm, f)) => {
            assert(mm.data =~= m.data);
            assert(f == i6);
            match parse_lenient(s) {
                Some(res) => {
                    assert(res =~= m);
                },
                None => {
                    assert(false);
                },
            }
        },
        None => {
            assert(false);
        },
    }
}

/// Round trip on the exact encoded bytes, with nothing following them.
pub proof fn lemma_metadata_roundtrip(m: MetadataView)
    requires
        wf_metadata(m),
    ensures
        parse_strict(ser_metadata(m)) == Some(m),
        parse_lenient(ser_metadata(m)) == Some(m),
{
    let s = ser_metadata(m);
    assert(s.subrange(0, s.len() as int) =~= s);
    lemma_parse_ser_metadata(s, m);
}

} // verus!
