//! Corruption-tolerant decoding of a record from its binary layout.

use vstd::prelude::*;

use crate::account::NativeAccountData;
use crate::account::Pubkey;
use crate::codec::lift_pos;
use crate::codec::parse_bool;
use crate::codec::parse_bytes32;
use crate::codec::parse_creator;
use crate::codec::parse_creators;
use crate::codec::parse_data;
use crate::codec::parse_key;
use crate::codec::parse_lenient;
use crate::codec::parse_opt_collection;
use crate::codec::parse_opt_collection_details;
use crate::codec::parse_opt_creators;
use crate::codec::parse_opt_token_standard;
use crate::codec::parse_opt_uses;
use crate::codec::parse_prefix;
use crate::codec::parse_strict;
use crate::codec::parse_u16;
use crate::codec::parse_u32;
use crate::codec::parse_u64;
use crate::codec::parse_u8;
use crate::codec::parse_vec_bytes;
use crate::codec::prepend_creators;
use crate::error::MetadataError;
use crate::state::Collection;
use crate::state::CollectionDetails;
use crate::state::Creator;
use crate::state::Data;
use crate::state::Key;
use crate::state::Metadata;
use crate::state::TokenStandard;
use crate::state::UseMethod;
use crate::state::Uses;
use crate::state::parse_key_tag;

verus! {

pub(crate) fn read_u8(s: &Vec<u8>, i: usize) -> (r: Option<(u8, usize)>)
    ensures
        lift_pos(r) == parse_u8(s@, i as int),
{
    if i < s.len() {
        Some((s[i], i + 1))
    } else {
        None
    }
}

fn read_bool(s: &Vec<u8>, i: usize) -> (r: Option<(bool, usize)>)
    ensures
        lift_pos(r) == parse_bool(s@, i as int),
{
    match read_u8(s, i) {
        Some((b, j)) => {
            if b == 0 {
                Some((false, j))
            } else if b == 1 {
                Some((true, j))
            } else {
                None
            }
        },
        None => None,
    }
}

fn read_u16(s: &Vec<u8>, i: usize) -> (r: Option<(u16, usize)>)
    ensures
        lift_pos(r) == parse_u16(s@, i as int),
{
    if i < s.len() && s.len() - i >= 2 {
        let v = (s[i] as u16) | ((s[i + 1] as u16) << 8);
        Some((v, i + 2))
    } else {
        None
    }
}

fn read_u32(s: &Vec<u8>, i: usize) -> (r: Option<(u32, usize)>)
    ensures
        lift_pos(r) == parse_u32(s@, i as int),
{
    if i < s.len() && s.len() - i >= 4 {
        let v = (s[i] as u32) | ((s[i + 1] as u32) << 8) | ((s[i + 2] as u32) << 16) | ((s[i + 3]
            as u32) << 24);
        Some((v, i + 4))
    } else {
        None
    }
}

fn read_u64(s: &Vec<u8>, i: usize) -> (r: Option<(u64, usize)>)
    ensures
        lift_pos(r) == parse_u64(s@, i as int),
{
    if i < s.len() && s.len() - i >= 8 {
        let v = (s[i] as u64) | ((s[i + 1] as u64) << 8) | ((s[i + 2] as u64) << 16) | ((s[i + 3]
            as u64) << 24) | ((s[i + 4] as u64) << 32) | ((s[i + 5] as u64) << 40) | ((s[i + 6]
            as u64) << 48) | ((s[i + 7] as u64) << 56);
        Some((v, i + 8))
    } else {
        None
    }
}

pub(crate) fn read_pubkey(s: &Vec<u8>, i: usize) -> (r: Option<(Pubkey, usize)>)
    ensures
        match r {
            Some((k, j)) => parse_bytes32(s@, i as int) == Some((k@, j as int)),
            None => parse_bytes32(s@, i as int) is None,
        },
{
    if i < s.len() && s.len() - i >= 32 {
        let mut bytes = [0u8; 32];
        let mut k: usize = 0;
        while k < 32
            invariant
                k <= 32,
                i + 32 <= s@.len(),
                s@.len() <= usize::MAX,
                forall|t: int| 0 <= t < k ==> bytes@[t] == s@[i + t],
            decreases 32 - k,
        {
            bytes[k] = s[i + k];
            k += 1;
        }
        proof {
            assert(bytes@ =~= s@.subrange(i as int, i + 32));
        }
        Some((Pubkey { bytes }, i + 32))
    } else {
        None
    }
}

pub(crate) fn read_prefixed_bytes(s: &Vec<u8>, i: usize) -> (r: Option<(Vec<u8>, usize)>)
    ensures
        match r {
            Some((v, j)) => parse_vec_bytes(s@, i as int) == Some((v@, j as int)),
            None => parse_vec_bytes(s@, i as int) is None,
        },
{
    match read_u32(s, i) {
        Some((n, j)) => {
            let n_usize = n as usize;
            if n_usize <= s.len() - j {
                let mut v: Vec<u8> = Vec::new();
                let mut k: usize = 0;
                while k < n_usize
                    invariant
                        k <= n_usize,
                        j + n_usize <= s@.len(),
                        s@.len() <= usize::MAX,
                        v@ == s@.subrange(j as int, j + k),
                    decreases n_usize - k,
                {
                    v.push(s[j + k]);
                    proof {
                        assert(v@ =~= s@.subrange(j as int, j + k + 1));
                    }
                    k += 1;
                }
                Some((v, j + n_usize))
            } else {
                None
            }
        },
        None => None,
    }
}

fn read_key(s: &Vec<u8>, i: usize) -> (r: Option<(Key, usize)>)
    ensures
        lift_pos(r) == parse_key(s@, i as int),
{
    match read_u8(s, i) {
        Some((b, j)) => match Key::from_u8(b) {
            Some(k) => Some((k, j)),
            None => None,
        },
        None => None,
    }
}

fn read_creator(s: &Vec<u8>, i: usize) -> (r: Option<(Creator, usize)>)
    ensures
        match r {
            Some((c, j)) => parse_creator(s@, i as int) == Some((c@, j as int)),
            None => parse_creator(s@, i as int) is None,
        },
{
    match read_pubkey(s, i) {
        Some((address, j)) => match read_bool(s, j) {
            Some((verified, k)) => match read_u8(s, k) {
                Some((share, l)) => Some((Creator { address, verified, share }, l)),
                None => None,
            },
            None => None,
        },
        None => None,
    }
}

fn read_creators(s: &Vec<u8>, i: usize, n: u32) -> (r: Option<(Vec<Creator>, usize)>)
    requires
        i <= s@.len(),
    ensures
        match r {
            Some((cs, j)) => parse_creators(s@, i as int, n as nat) == Some(
                (crate::state::view_creators(cs@), j as int),
            ),
            None => parse_creators(s@, i as int, n as nat) is None,
        },
{
    let mut cs: Vec<Creator> = Vec::new();
    let mut pos: usize = i;
    let mut k: u32 = 0;
    while k < n
        invariant
            k <= n,
            pos <= s@.len(),
            parse_creators(s@, i as int, n as nat) == prepend_creators(
                crate::state::view_creators(cs@),
                parse_creators(s@, pos as int, (n - k) as nat),
            ),
        decreases n - k,
    {
        match read_creator(s, pos) {
            Some((c, j)) => {
                proof {
                    assert(crate::state::view_creators(cs@.push(c))
                        =~= crate::state::view_creators(cs@).push(c@));
                    let rest = parse_creators(s@, j as int, (n - k - 1) as nat);
                    match rest {
                        Some((tail, end)) => {
                            assert(crate::state::view_creators(cs@) + (seq![c@] + tail)
                                =~= crate::state::view_creators(cs@).push(c@) + tail);
                        },
                        None => {},
                    }
                }
                cs.push(c);
                pos = j;
            },
            None => {
                return None;
            },
        }
        k += 1;
    }
    proof {
        assert(crate::state::view_creators(cs@) + Seq::<crate::state::CreatorView>::empty() =~= cs@
            .map_values(|c: Creator| c@));
    }
    Some((cs, pos))
}

fn read_opt_creators(s: &Vec<u8>, i: usize) -> (r: Option<(Option<Vec<Creator>>, usize)>)
    ensures
        match r {
            Some((o, j)) => parse_opt_creators(s@, i as int) == Some(
                (
                    match o {
                        Some(cs) => Some(crate::state::view_creators(cs@)),
                        None => None,
                    },
                    j as int,
                ),
            ),
            None => parse_opt_creators(s@, i as int) is None,
        },
{
    match read_u8(s, i) {
        Some((tag, j)) => {
            if tag == 0 {
                Some((None, j))
            } else if tag == 1 {
                match read_u32(s, j) {
                    Some((n, k)) => match read_creators(s, k, n) {
                        Some((cs, l)) => Some((Some(cs), l)),
                        None => None,
                    },
                    None => None,
                }
            } else {
                None
            }
        },
        None => None,
    }
}

fn read_data(s: &Vec<u8>, i: usize) -> (r: Option<(Data, usize)>)
    ensures
        match r {
            Some((d, j)) => parse_data(s@, i as int) == Some((d@, j as int)),
            None => parse_data(s@, i as int) is None,
        },
{
    match read_prefixed_bytes(s, i) {
        Some((name, j)) => match read_prefixed_bytes(s, j) {
            Some((symbol, k)) => match read_prefixed_bytes(s, k) {
                Some((uri, l)) => match read_u16(s, l) {
                    Some((bps, m)) => match read_opt_creators(s, m) {
                        Some((creators, n)) => Some(
                            (
                                Data {
                                    name,
                                    symbol,
                                    uri,
                                    seller_fee_basis_points: bps,
                                    creators,
                                    collection: None,
                                    uses: None,
                                },
                                n,
                            ),
                        ),
                        None => None,
                    },
                    None => None,
                },
                None => None,
            },
            None => None,
        },
        None => None,
    }
}

fn read_opt_token_standard(s: &Vec<u8>, i: usize) -> (r: Option<(Option<TokenStandard>, usize)>)
    ensures
        lift_pos(r) == parse_opt_token_standard(s@, i as int),
{
    match read_u8(s, i) {
        Some((tag, j)) => {
            if tag == 0 {
                Some((None, j))
            } else if tag == 1 {
                match read_u8(s, j) {
                    Some((b, k)) => match TokenStandard::from_u8(b) {
                        Some(t) => Some((Some(t), k)),
                        None => None,
                    },
                    None => None,
                }
            } else {
                None
            }
        },
        None => None,
    }
}

fn read_opt_collection(s: &Vec<u8>, i: usize) -> (r: Option<(Option<Collection>, usize)>)
    ensures
        match r {
            Some((o, j)) => parse_opt_collection(s@, i as int) == Some(
                (
                    match o {
                        Some(c) => Some(c@),
                        None => None,
                    },
                    j as int,
                ),
            ),
            None => parse_opt_collection(s@, i as int) is None,
        },
{
    match read_u8(s, i) {
        Some((tag, j)) => {
            if tag == 0 {
                Some((None, j))
            } else if tag == 1 {
                match read_bool(s, j) {
                    Some((verified, k)) => match read_pubkey(s, k) {
                        Some((key, l)) => Some((Some(Collection { verified, key }), l)),
                        None => None,
                    },
                    None => None,
                }
            } else {
                None
            }
        },
        None => None,
    }
}

fn read_opt_uses(s: &Vec<u8>, i: usize) -> (r: Option<(Option<Uses>, usize)>)
    ensures
        lift_pos(r) == parse_opt_uses(s@, i as int),
{
    match read_u8(s, i) {
        Some((tag, j)) => {
            if tag == 0 {
                Some((None, j))
            } else if tag == 1 {
                match read_u8(s, j) {
                    Some((b, k)) => match UseMethod::from_u8(b) {
                        Some(m) => match read_u64(s, k) {
                            Some((remaining, l)) => match read_u64(s, l) {
                                Some((total, o)) => Some(
                                    (Some(Uses { use_method: m, remaining, total }), o),
                                ),
                                None => None,
                            },
                            None => None,
                        },
                        None => None,
                    },
                    None => None,
                }
            } else {
                None
            }
        },
        None => None,
    }
}

fn read_opt_collection_details(s: &Vec<u8>, i: usize) -> (r: Option<
    (Option<CollectionDetails>, usize),
>)
    ensures
        match r {
            Some((o, j)) => parse_opt_collection_details(s@, i as int) == Some(
                (
                    match o {
                        Some(d) => Some(d@),
                        None => None,
                    },
                    j as int,
                ),
            ),
            None => parse_opt_collection_details(s@, i as int) is None,
        },
{
    match read_u8(s, i) {
        Some((tag, j)) => {
            if tag == 0 {
                Some((None, j))
            } else if tag == 1 {
                match read_u8(s, j) {
                    Some((vtag, k)) => {
                        if vtag == 0 {
                            match read_u64(s, k) {
                                Some((size, l)) => Some(
                                    (Some(CollectionDetails::V1 { size }), l),
                                ),
                                None => None,
                            }
                        } else if vtag == 1 {
                            if k < s.len() && s.len() - k >= 8 {
                                let mut padding = [0u8; 8];
                                let mut t: usize = 0;
                                while t < 8
                                    invariant
                                        t <= 8,
                                        k + 8 <= s@.len(),
                                        s@.len() <= usize::MAX,
                                        forall|x: int| 0 <= x < t ==> padding@[x] == s@[k + x],
                                    decreases 8 - t,
                                {
                                    padding[t] = s[k + t];
                                    t += 1;
                                }
                                proof {
                                    assert(padding@ =~= s@.subrange(k as int, k + 8));
                                }
                                Some((Some(CollectionDetails::V2 { padding }), k + 8))
                            } else {
                                None
                            }
                        } else {
                            None
                        }
                    },
                    None => None,
                }
            } else {
                None
            }
        },
        None => None,
    }
}

/// Decodes a record from a buffer, tolerating corrupted trailing
/// blocks: the fixed-shape prefix must parse, the three coupled
/// optional blocks and the collection-size descriptor fall back to
/// absent as [`parse_lenient`] describes.
pub fn meta_deser_unchecked(buf: &Vec<u8>) -> (r: Result<Metadata, MetadataError>)
    ensures
        match r {
            Ok(m) => parse_lenient(buf@) == Some(m@),
            Err(e) => parse_lenient(buf@) is None && e == MetadataError::DataTypeMismatch,
        },
{
    let prefix = match read_key(buf, 0) {
        Some((key, a)) => match read_pubkey(buf, a) {
            Some((update_authority, b)) => match read_pubkey(buf, b) {
                Some((mint, c)) => match read_data(buf, c) {
                    Some((data, d)) => match read_bool(buf, d) {
                        Some((primary_sale_happened, e)) => match read_bool(buf, e) {
                            Some((is_mutable, f)) => Some(
                                (
                                    Metadata {
                                        key,
                                        update_authority,
                                        mint,
                                        data,
                                        primary_sale_happened,
                                        is_mutable,
                                        token_standard: None,
                                        collection: None,
                                        collection_details: None,
                                        uses: None,
                                    },
                                    f,
                                ),
                            ),
                            None => None,
                        },
                        None => None,
                    },
                    None => None,
                },
                None => None,
            },
            None => None,
        },
        None => None,
    };
    match prefix {
        None => Err(MetadataError::DataTypeMismatch),
        Some((mut m, f)) => {
            proof {
                assert(parse_prefix(buf@) == Some((m@, f as int)));
            }
            match read_opt_token_standard(buf, f) {
                Some((token_standard, g)) => match read_opt_collection(buf, g) {
                    Some((collection, h)) => match read_opt_uses(buf, h) {
                        Some((uses, i)) => {
                            m.token_standard = token_standard;
                            m.collection = collection;
                            m.uses = uses;
                            match read_opt_collection_details(buf, i) {
                                Some((details, _)) => {
                                    m.collection_details = details;
                                },
                                None => {
                                    m.collection_details = None;
                                },
                            }
                        },
                        None => {},
                    },
                    None => {},
                },
                None => {},
            }
            Ok(m)
        },
    }
}

impl Metadata {
    /// Whether a buffer can hold an entity of the given discriminator:
    /// non-empty, a known tag that is the wanted one or `Uninitialized`,
    /// and exactly the expected size where one is expected.
    pub fn is_correct_account_type(data: &Vec<u8>, data_type: Key, data_size: usize) -> (r: bool)
        ensures
            r == correct_account_type(data@, data_type, data_size as int),
    {
        if data.len() == 0 {
            return false;
        }
        match Key::from_u8(data[0]) {
            Some(key) => (key == data_type || key == Key::Uninitialized) && (data.len()
                == data_size || data_size == 0),
            None => false,
        }
    }

    /// Strict decode: the buffer must already look like a record
    /// before any field is read; every failure is the one stable
    /// type-mismatch rejection.
    pub fn safe_deserialize(data: &Vec<u8>) -> (r: Result<Metadata, MetadataError>)
        ensures
            match r {
                Ok(m) => parse_strict(data@) == Some(m@),
                Err(e) => parse_strict(data@) is None && e == MetadataError::DataTypeMismatch,
            },
    {
        if !Metadata::is_correct_account_type(data, Key::Metadata, 0) {
            return Err(MetadataError::DataTypeMismatch);
        }
        meta_deser_unchecked(data)
    }

    /// Loads a record from an account: strict decode, then the check
    /// that the account belongs to the expected program.
    pub fn from_account_info(a: &NativeAccountData, program_id: &Pubkey) -> (r: Result<
        Metadata,
        MetadataError,
    >)
        ensures
            match r {
                Ok(m) => parse_strict(a.data@) == Some(m@) && a.program_id@ == program_id@,
                Err(e) => (e == MetadataError::DataTypeMismatch && parse_strict(a.data@) is None)
                    || (e == MetadataError::IncorrectOwner && parse_strict(a.data@) is Some
                    && a.program_id@ != program_id@),
            },
    {
        let m = match Metadata::safe_deserialize(&a.data) {
            Ok(m) => m,
            Err(e) => {
                return Err(MetadataError::DataTypeMismatch);
            },
        };
        if !a.program_id.equals(program_id) {
            return Err(MetadataError::IncorrectOwner);
        }
        Ok(m)
    }
}

/// Whether a buffer opens with an acceptable discriminator for the
/// given entity kind and has the expected size, where one is expected.
pub open spec fn correct_account_type(data: Seq<u8>, data_type: Key, data_size: int) -> bool {
    data.len() > 0 && match parse_key_tag(data[0]) {
        Some(key) => (key == data_type || key == Key::Uninitialized) && (data.len() == data_size
            || data_size == 0),
        None => false,
    }
}

} // verus!
