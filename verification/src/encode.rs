//! Deterministic encoding of a record into its fixed binary layout.

use vstd::prelude::*;

use crate::account::Pubkey;
use crate::codec::ser_bool;
use crate::codec::ser_bytes;
use crate::codec::ser_collection;
use crate::codec::ser_collection_details;
use crate::codec::ser_creator;
use crate::codec::ser_creators;
use crate::codec::ser_data;
use crate::codec::ser_metadata;
use crate::codec::ser_opt_collection;
use crate::codec::ser_opt_collection_details;
use crate::codec::ser_opt_creators;
use crate::codec::ser_opt_token_standard;
use crate::codec::ser_opt_uses;
use crate::codec::ser_u16;
use crate::codec::ser_u32;
use crate::codec::ser_u64;
use crate::codec::ser_uses;
use crate::codec::lemma_ser_metadata_len;
use crate::state::Collection;
use crate::state::CollectionDetails;
use crate::state::Creator;
use crate::state::CreatorView;
use crate::state::Metadata;
use crate::state::TokenStandard;
use crate::state::Uses;
use crate::state::key_tag;
use crate::state::wf_metadata;
use crate::state::MAX_METADATA_LEN;

verus! {

/// Appending one entry to a creators list appends its bytes.
proof fn lemma_ser_creators_snoc(cs: Seq<CreatorView>, c: CreatorView)
    ensures
        ser_creators(cs.push(c)) == ser_creators(cs) + ser_creator(c),
    decreases cs.len(),
{
    if cs.len() == 0 {
        assert(cs.push(c).drop_first() =~= cs);
        assert(ser_creators(cs.push(c)) == ser_creator(c) + ser_creators(cs));
        assert(ser_creators(cs.push(c)) =~= ser_creators(cs) + ser_creator(c));
    } else {
        assert(cs.push(c).drop_first() =~= cs.drop_first().push(c));
        lemma_ser_creators_snoc(cs.drop_first(), c);
        assert(ser_creators(cs.push(c)) =~= ser_creators(cs) + ser_creator(c));
    }
}

fn push_bool(v: &mut Vec<u8>, b: bool)
    ensures
        final(v)@ == old(v)@ + ser_bool(b),
{
    if b {
        v.push(1);
    } else {
        v.push(0);
    }
    proof {
        assert(v@ =~= old(v)@ + ser_bool(b));
    }
}

fn push_u16(v: &mut Vec<u8>, n: u16)
    ensures
        final(v)@ == old(v)@ + ser_u16(n),
{
    v.push((n & 0xff) as u8);
    v.push(((n >> 8) & 0xff) as u8);
    proof {
        assert(v@ =~= old(v)@ + ser_u16(n));
    }
}

fn push_u32(v: &mut Vec<u8>, n: u32)
    ensures
        final(v)@ == old(v)@ + ser_u32(n),
{
    v.push((n & 0xff) as u8);
    v.push(((n >> 8) & 0xff) as u8);
    v.push(((n >> 16) & 0xff) as u8);
    v.push(((n >> 24) & 0xff) as u8);
    proof {
        assert(v@ =~= old(v)@ + ser_u32(n));
    }
}

fn push_u64(v: &mut Vec<u8>, n: u64)
    ensures
        final(v)@ == old(v)@ + ser_u64(n),
{
    v.push((n & 0xff) as u8);
    v.push(((n >> 8) & 0xff) as u8);
    v.push(((n >> 16) & 0xff) as u8);
    v.push(((n >> 24) & 0xff) as u8);
    v.push(((n >> 32) & 0xff) as u8);
    v.push(((n >> 40) & 0xff) as u8);
    v.push(((n >> 48) & 0xff) as u8);
    v.push(((n >> 56) & 0xff) as u8);
    proof {
        assert(v@ =~= old(v)@ + ser_u64(n));
    }
}

pub(crate) fn push_pubkey(v: &mut Vec<u8>, k: &Pubkey)
    ensures
        final(v)@ == old(v)@ + k@,
{
    let mut i: usize = 0;
    while i < 32
        invariant
            i <= 32,
            v@ == old(v)@ + k@.take(i as int),
        decreases 32 - i,
    {
        v.push(k.bytes[i]);
        proof {
            assert(k@.take(i + 1) =~= k@.take(i as int).push(k@[i as int]));
            assert(v@ =~= old(v)@ + k@.take(i + 1));
        }
        i += 1;
    }
    proof {
        assert(k@.take(32) =~= k@);
    }
}

pub(crate) fn push_prefixed_bytes(v: &mut Vec<u8>, s: &Vec<u8>)
    requires
        s@.len() <= u32::MAX,
    ensures
        final(v)@ == old(v)@ + ser_bytes(s@),
{
    push_u32(v, s.len() as u32);
    let ghost mid = v@;
    let mut i: usize = 0;
    while i < s.len()
        invariant
            i <= s@.len(),
            v@ == mid + s@.take(i as int),
        decreases s@.len() - i,
    {
        v.push(s[i]);
        proof {
            assert(s@.take(i + 1) =~= s@.take(i as int).push(s@[i as int]));
            assert(v@ =~= mid + s@.take(i + 1));
        }
        i += 1;
    }
    proof {
        assert(s@.take(s@.len() as int) =~= s@);
        assert(v@ =~= old(v)@ + ser_bytes(s@));
    }
}

fn push_creator(v: &mut Vec<u8>, c: &Creator)
    ensures
        final(v)@ == old(v)@ + ser_creator(c@),
{
    push_pubkey(v, &c.address);
    push_bool(v, c.verified);
    v.push(c.share);
    proof {
        assert(v@ =~= old(v)@ + ser_creator(c@));
    }
}

fn push_opt_creators(v: &mut Vec<u8>, o: &Option<Vec<Creator>>)
    requires
        match *o {
            Some(cs) => cs@.len() <= u32::MAX,
            None => true,
        },
    ensures
        final(v)@ == old(v)@ + ser_opt_creators(
            match *o {
                Some(cs) => Some(crate::state::view_creators(cs@)),
                None => None,
            },
        ),
{
    match o {
        None => {
            v.push(0);
            proof {
                assert(v@ =~= old(v)@ + ser_opt_creators(None));
            }
        },
        Some(cs) => {
            let ghost csv = crate::state::view_creators(cs@);
            v.push(1);
            push_u32(v, cs.len() as u32);
            let ghost mid = v@;
            let mut i: usize = 0;
            while i < cs.len()
                invariant
                    i <= cs@.len(),
                    csv == crate::state::view_creators(cs@),
                    v@ == mid + ser_creators(csv.take(i as int)),
                decreases cs@.len() - i,
            {
                push_creator(v, &cs[i]);
                proof {
                    assert(csv.take(i + 1) =~= csv.take(i as int).push(csv[i as int]));
                    lemma_ser_creators_snoc(csv.take(i as int), csv[i as int]);
                    assert(v@ =~= mid + ser_creators(csv.take(i + 1)));
                }
                i += 1;
            }
            proof {
                assert(csv.take(csv.len() as int) =~= csv);
                assert(v@ =~= old(v)@ + ser_opt_creators(Some(csv)));
            }
        },
    }
}

fn push_opt_token_standard(v: &mut Vec<u8>, o: &Option<TokenStandard>)
    ensures
        final(v)@ == old(v)@ + ser_opt_token_standard(*o),
{
    match o {
        None => v.push(0),
        Some(t) => {
            v.push(1);
            v.push(t.to_u8());
        },
    }
    proof {
        assert(v@ =~= old(v)@ + ser_opt_token_standard(*o));
    }
}

fn push_opt_collection(v: &mut Vec<u8>, o: &Option<Collection>)
    ensures
        final(v)@ == old(v)@ + ser_opt_collection(
            match *o {
                Some(c) => Some(c@),
                None => None,
            },
        ),
{
    match o {
        None => {
            v.push(0);
            proof {
                assert(v@ =~= old(v)@ + ser_opt_collection(None));
            }
        },
        Some(c) => {
            v.push(1);
            push_bool(v, c.verified);
            push_pubkey(v, &c.key);
            proof {
                assert(ser_opt_collection(Some(c@)) =~= seq![1u8] + ser_collection(c@));
                assert(v@ =~= old(v)@ + ser_opt_collection(Some(c@)));
            }
        },
    }
}

fn push_opt_uses(v: &mut Vec<u8>, o: &Option<Uses>)
    ensures
        final(v)@ == old(v)@ + ser_opt_uses(*o),
{
    match o {
        None => {
            v.push(0);
            proof {
                assert(v@ =~= old(v)@ + ser_opt_uses(None));
            }
        },
        Some(u) => {
            v.push(1);
            v.push(u.use_method.to_u8());
            push_u64(v, u.remaining);
            push_u64(v, u.total);
            proof {
                assert(ser_opt_uses(Some(*u)) =~= seq![1u8] + ser_uses(*u));
                assert(v@ =~= old(v)@ + ser_opt_uses(Some(*u)));
            }
        },
    }
}

fn push_opt_collection_details(v: &mut Vec<u8>, o: &Option<CollectionDetails>)
    ensures
        final(v)@ == old(v)@ + ser_opt_collection_details(
            match *o {
                Some(d) => Some(d@),
                None => None,
            },
        ),
{
    match o {
        None => {
            v.push(0);
            proof {
                assert(v@ =~= old(v)@ + ser_opt_collection_details(None));
            }
        },
        Some(d) => {
            v.push(1);
            match d {
                CollectionDetails::V1 { size } => {
                    v.push(0);
                    push_u64(v, *size);
                },
                CollectionDetails::V2 { padding } => {
                    v.push(1);
                    let mut i: usize = 0;
                    let ghost mid = v@;
                    while i < 8
                        invariant
                            i <= 8,
                            v@ == mid + padding@.take(i as int),
                        decreases 8 - i,
                    {
                        v.push(padding[i]);
                        proof {
                            assert(padding@.take(i + 1) =~= padding@.take(i as int).push(
                                padding@[i as int],
                            ));
                            assert(v@ =~= mid + padding@.take(i + 1));
                        }
                        i += 1;
                    }
                    proof {
                        assert(padding@.take(8) =~= padding@);
                    }
                },
            }
            proof {
                assert(v@ =~= old(v)@ + seq![1u8] + ser_collection_details(d@));
                assert(v@ =~= old(v)@ + ser_opt_collection_details(Some(d@)));
            }
        },
    }
}

/// Encodes a record into its deterministic serialized form.
#[verifier::rlimit(60)]
pub fn encode_metadata(m: &Metadata) -> (r: Vec<u8>)
    requires
        wf_metadata(m@),
    ensures
        r@ == ser_metadata(m@),
        r@.len() <= MAX_METADATA_LEN - 1,
{
    let mut v: Vec<u8> = Vec::new();
    v.push(m.key.to_u8());
    proof {
        assert(v@ =~= seq![key_tag(m@.key)]);
    }
    push_pubkey(&mut v, &m.update_authority);
    push_pubkey(&mut v, &m.mint);
    let ghost pre_data = v@;
    push_prefixed_bytes(&mut v, &m.data.name);
    push_prefixed_bytes(&mut v, &m.data.symbol);
    push_prefixed_bytes(&mut v, &m.data.uri);
    push_u16(&mut v, m.data.seller_fee_basis_points);
    push_opt_creators(&mut v, &m.data.creators);
    proof {
        assert(v@ =~= pre_data + ser_data(m@.data));
    }
    push_bool(&mut v, m.primary_sale_happened);
    push_bool(&mut v, m.is_mutable);
    push_opt_token_standard(&mut v, &m.token_standard);
    push_opt_collection(&mut v, &m.collection);
    push_opt_uses(&mut v, &m.uses);
    push_opt_collection_details(&mut v, &m.collection_details);
    proof {
        assert(v@ == ser_metadata(m@));
        lemma_ser_metadata_len(m@);
    }
    v
}

impl Metadata {
    /// Writes the record's bytes over the head of the backing buffer,
    /// leaving everything past the serialized record untouched.
    pub fn save(&self, data: &mut Vec<u8>) -> (r: Result<(), crate::error::MetadataError>)
        requires
            wf_metadata(self@),
            old(data)@.len() >= MAX_METADATA_LEN - 1,
        ensures
            r is Ok,
            final(data)@.len() == old(data)@.len(),
            final(data)@ == ser_metadata(self@) + old(data)@.skip(ser_metadata(self@).len() as int),
    {
        let bytes = encode_metadata(self);
        let mut i: usize = 0;
        while i < bytes.len()
            invariant
                i <= bytes@.len(),
                bytes@.len() <= data@.len(),
                data@.len() == old(data)@.len(),
                data@ == bytes@.take(i as int) + old(data)@.skip(i as int),
            decreases bytes@.len() - i,
        {
            data.set(i, bytes[i]);
            proof {
                assert(data@ =~= bytes@.take(i + 1) + old(data)@.skip(i + 1));
            }
            i += 1;
        }
        proof {
            assert(bytes@.take(bytes@.len() as int) =~= bytes@);
        }
        Ok(())
    }
}

} // verus!
