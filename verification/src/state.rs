//! The record schema: the persisted metadata entity and its sub-objects.

use vstd::prelude::*;

use crate::account::Pubkey;

verus! {

/// Maximum byte length of a record name.
pub const MAX_NAME_LENGTH: usize = 32;

/// Maximum byte length of a record symbol.
pub const MAX_SYMBOL_LENGTH: usize = 10;

/// Maximum byte length of a record URI.
pub const MAX_URI_LENGTH: usize = 200;

/// Maximum number of creators of one record.
pub const MAX_CREATOR_LIMIT: usize = 5;

/// Serialized size of one creator entry: address, verified flag, share.
pub const MAX_CREATOR_LEN: usize = 32 + 1 + 1;

/// Maximum serialized size of the data block: three length-prefixed
/// strings, the basis points, and the optional creators list.
pub const MAX_DATA_SIZE: usize = 4 + MAX_NAME_LENGTH + 4 + MAX_SYMBOL_LENGTH + 4 + MAX_URI_LENGTH
    + 2 + 1 + 4 + MAX_CREATOR_LIMIT * MAX_CREATOR_LEN;

/// Size of the record's backing account: discriminator, authority, mint,
/// data block, the two flags, the four optional trailing blocks, and one
/// trailer byte reserved for auxiliary bookkeeping.
pub const MAX_METADATA_LEN: usize = 1 + 32 + 32 + MAX_DATA_SIZE + 1 + 1 + 2 + 34 + 18 + 10 + 1;

/// The trailer of the account that a rewrite must not touch.
pub const METADATA_FEE_FLAG_OFFSET: usize = 1;

/// Trailer byte value marking fees as available for retrieval.
pub const FEE_FLAG_SET: u8 = 1;

/// Trailer byte value marking no fees available.
pub const FEE_FLAG_CLEARED: u8 = 0;

/// Account discriminator: what kind of entity a buffer holds.
#[derive(Clone, Copy, Debug, PartialEq, Eq, Structural)]
pub enum Key {
    Uninitialized,
    Metadata,
}

impl Key {
    /// The tag byte this discriminator is stored as.
    pub fn to_u8(&self) -> (r: u8)
        ensures
            r == key_tag(*self),
    {
        match self {
            Key::Uninitialized => 0,
            Key::Metadata => 1,
        }
    }

    /// Decodes a stored tag byte; unknown tags are an explicit `None`.
    pub fn from_u8(v: u8) -> (r: Option<Key>)
        ensures
            r == parse_key_tag(v),
    {
        match v {
            0 => Some(Key::Uninitialized),
            1 => Some(Key::Metadata),
            _ => None,
        }
    }
}

/// The tag byte of a discriminator.
pub open spec fn key_tag(k: Key) -> u8 {
    match k {
        Key::Uninitialized => 0,
        Key::Metadata => 1,
    }
}

/// The discriminator a tag byte decodes to, if any.
pub open spec fn parse_key_tag(v: u8) -> Option<Key> {
    if v == 0 {
        Some(Key::Uninitialized)
    } else if v == 1 {
        Some(Key::Metadata)
    } else {
        None
    }
}

/// Kind of asset the record describes.
#[derive(Clone, Copy, Debug, PartialEq, Eq, Structural)]
pub enum TokenStandard {
    Fungible,
    NonFungible,
}

impl TokenStandard {
    /// The tag byte this standard is stored as.
    pub fn to_u8(&self) -> (r: u8)
        ensures
            r == token_standard_tag(*self),
    {
        match self {
            TokenStandard::Fungible => 0,
            TokenStandard::NonFungible => 1,
        }
    }

    /// Decodes a stored tag byte; unknown tags are an explicit `None`.
    pub fn from_u8(v: u8) -> (r: Option<TokenStandard>)
        ensures
            r == parse_token_standard_tag(v),
    {
        match v {
            0 => Some(TokenStandard::Fungible),
            1 => Some(TokenStandard::NonFungible),
            _ => None,
        }
    }
}

/// The tag byte of a token standard.
pub open spec fn token_standard_tag(t: TokenStandard) -> u8 {
    match t {
        TokenStandard::Fungible => 0,
        TokenStandard::NonFungible => 1,
    }
}

/// The token standard a tag byte decodes to, if any.
pub open spec fn parse_token_standard_tag(v: u8) -> Option<TokenStandard> {
    if v == 0 {
        Some(TokenStandard::Fungible)
    } else if v == 1 {
        Some(TokenStandard::NonFungible)
    } else {
        None
    }
}

/// How consuming a use is meant to affect the asset.
#[derive(Clone, Copy, Debug, PartialEq, Eq, Structural)]
pub enum UseMethod {
    Burn,
    Multiple,
    Single,
}

impl UseMethod {
    /// The tag byte this method is stored as.
    pub fn to_u8(&self) -> (r: u8)
        ensures
            r == use_method_tag(*self),
    {
        match self {
            UseMethod::Burn => 0,
            UseMethod::Multiple => 1,
            UseMethod::Single => 2,
        }
    }

    /// Decodes a stored tag byte; unknown tags are an explicit `None`.
    pub fn from_u8(v: u8) -> (r: Option<UseMethod>)
        ensures
            r == parse_use_method_tag(v),
    {
        match v {
            0 => Some(UseMethod::Burn),
            1 => Some(UseMethod::Multiple),
            2 => Some(UseMethod::Single),
            _ => None,
        }
    }
}

/// The tag byte of a use method.
pub open spec fn use_method_tag(m: UseMethod) -> u8 {
    match m {
        UseMethod::Burn => 0,
        UseMethod::Multiple => 1,
        UseMethod::Single => 2,
    }
}

/// The use method a tag byte decodes to, if any.
pub open spec fn parse_use_method_tag(v: u8) -> Option<UseMethod> {
    if v == 0 {
        Some(UseMethod::Burn)
    } else if v == 1 {
        Some(UseMethod::Multiple)
    } else if v == 2 {
        Some(UseMethod::Single)
    } else {
        None
    }
}

/// The uses descriptor: a method tag and the two counters.
#[derive(Clone, Copy, Debug, PartialEq, Eq, Structural)]
pub struct Uses {
    pub use_method: UseMethod,
    pub remaining: u64,
    pub total: u64,
}

/// A royalty-share participant.
#[derive(Clone, Copy, Debug)]
pub struct Creator {
    pub address: Pubkey,
    pub verified: bool,
    pub share: u8,
}

/// Mathematical value of one creator entry.
#[verifier::ext_equal]
pub ghost struct CreatorView {
    pub address: Seq<u8>,
    pub verified: bool,
    pub share: u8,
}

impl View for Creator {
    type V = CreatorView;

    open spec fn view(&self) -> CreatorView {
        CreatorView { address: self.address@, verified: self.verified, share: self.share }
    }
}

/// A pointer to a parent collection record.
#[derive(Clone, Copy, Debug)]
pub struct Collection {
    pub verified: bool,
    pub key: Pubkey,
}

/// Mathematical value of a collection reference.
#[verifier::ext_equal]
pub ghost struct CollectionView {
    pub verified: bool,
    pub key: Seq<u8>,
}

impl View for Collection {
    type V = CollectionView;

    open spec fn view(&self) -> CollectionView {
        CollectionView { verified: self.verified, key: self.key@ }
    }
}

/// The collection-size descriptor, kept forward compatible by version.
#[derive(Clone, Copy, Debug)]
pub enum CollectionDetails {
    V1 { size: u64 },
    V2 { padding: [u8; 8] },
}

/// Mathematical value of a collection-size descriptor.
#[verifier::ext_equal]
pub ghost enum CollectionDetailsView {
    V1 { size: u64 },
    V2 { padding: Seq<u8> },
}

impl View for CollectionDetails {
    type V = CollectionDetailsView;

    open spec fn view(&self) -> CollectionDetailsView {
        match *self {
            CollectionDetails::V1 { size } => CollectionDetailsView::V1 { size },
            CollectionDetails::V2 { padding } => CollectionDetailsView::V2 { padding: padding@ },
        }
    }
}

/// The caller-supplied data block of a record. The `collection` and
/// `uses` fields ride along with a request; the persisted data block
/// holds only the name, symbol, URI, basis points and creators.
#[derive(Debug)]
pub struct Data {
    /// The name of the asset, as raw bytes.
    pub name: Vec<u8>,
    /// The symbol of the asset, as raw bytes.
    pub symbol: Vec<u8>,
    /// URI pointing to an off-ledger description of the asset.
    pub uri: Vec<u8>,
    /// Royalty basis points that go to creators in secondary sales.
    pub seller_fee_basis_points: u16,
    /// Ordered list of creators, optional.
    pub creators: Option<Vec<Creator>>,
    /// Requested collection reference.
    pub collection: Option<Collection>,
    /// Requested uses descriptor.
    pub uses: Option<Uses>,
}

/// The mathematical values of a creators list.
pub open spec fn view_creators(cs: Seq<Creator>) -> Seq<CreatorView> {
    cs.map_values(|c: Creator| c@)
}

/// Mathematical value of a data block.
#[verifier::ext_equal]
pub ghost struct DataView {
    pub name: Seq<u8>,
    pub symbol: Seq<u8>,
    pub uri: Seq<u8>,
    pub seller_fee_basis_points: u16,
    pub creators: Option<Seq<CreatorView>>,
    pub collection: Option<CollectionView>,
    pub uses: Option<Uses>,
}

impl View for Data {
    type V = DataView;

    open spec fn view(&self) -> DataView {
        DataView {
            name: self.name@,
            symbol: self.symbol@,
            uri: self.uri@,
            seller_fee_basis_points: self.seller_fee_basis_points,
            creators: match self.creators {
                Some(cs) => Some(view_creators(cs@)),
                None => None,
            },
            collection: match self.collection {
                Some(c) => Some(c@),
                None => None,
            },
            uses: self.uses,
        }
    }
}

/// The simple-schema record: the earlier on-disk shape holding only
/// the mint, the three string fields and the authority.
#[derive(Debug)]
pub struct TokenMetadata {
    pub mint: Pubkey,
    pub name: Vec<u8>,
    pub symbol: Vec<u8>,
    pub uri: Vec<u8>,
    pub authority: Pubkey,
}

/// Mathematical value of a simple-schema record.
#[verifier::ext_equal]
pub ghost struct TokenMetadataView {
    pub mint: Seq<u8>,
    pub name: Seq<u8>,
    pub symbol: Seq<u8>,
    pub uri: Seq<u8>,
    pub authority: Seq<u8>,
}

impl View for TokenMetadata {
    type V = TokenMetadataView;

    open spec fn view(&self) -> TokenMetadataView {
        TokenMetadataView {
            mint: self.mint@,
            name: self.name@,
            symbol: self.symbol@,
            uri: self.uri@,
            authority: self.authority@,
        }
    }
}

/// The persisted metadata record.
#[derive(Debug)]
pub struct Metadata {
    /// Account discriminator.
    pub key: Key,
    /// Address empowered to request generic mutations.
    pub update_authority: Pubkey,
    /// Address of the underlying asset's mint.
    pub mint: Pubkey,
    /// Asset data.
    pub data: Data,
    /// Once flipped, all sales of this asset are considered secondary.
    pub primary_sale_happened: bool,
    /// Whether the data block may still be changed.
    pub is_mutable: bool,
    /// Optional trailing block: kind of asset.
    pub token_standard: Option<TokenStandard>,
    /// Optional trailing block: parent collection reference.
    pub collection: Option<Collection>,
    /// Optional trailing block: collection-size descriptor.
    pub collection_details: Option<CollectionDetails>,
    /// Optional trailing block: uses descriptor.
    pub uses: Option<Uses>,
}

/// Mathematical value of a record.
#[verifier::ext_equal]
pub ghost struct MetadataView {
    pub key: Key,
    pub update_authority: Seq<u8>,
    pub mint: Seq<u8>,
    pub data: DataView,
    pub primary_sale_happened: bool,
    pub is_mutable: bool,
    pub token_standard: Option<TokenStandard>,
    pub collection: Option<CollectionView>,
    pub collection_details: Option<CollectionDetailsView>,
    pub uses: Option<Uses>,
}

impl View for Metadata {
    type V = MetadataView;

    open spec fn view(&self) -> MetadataView {
        MetadataView {
            key: self.key,
            update_authority: self.update_authority@,
            mint: self.mint@,
            data: self.data@,
            primary_sale_happened: self.primary_sale_happened,
            is_mutable: self.is_mutable,
            token_standard: self.token_standard,
            collection: match self.collection {
                Some(c) => Some(c@),
                None => None,
            },
            collection_details: match self.collection_details {
                Some(d) => Some(d@),
                None => None,
            },
            uses: self.uses,
        }
    }
}

/// A creator view is well formed when its address is 32 bytes.
pub open spec fn wf_creator(c: CreatorView) -> bool {
    c.address.len() == 32
}

/// A collection view is well formed when its key is 32 bytes.
pub open spec fn wf_collection(c: CollectionView) -> bool {
    c.key.len() == 32
}

/// A collection-size view is well formed when its padding is 8 bytes.
pub open spec fn wf_collection_details(d: CollectionDetailsView) -> bool {
    match d {
        CollectionDetailsView::V1 { size } => true,
        CollectionDetailsView::V2 { padding } => padding.len() == 8,
    }
}

/// A data view is well formed when each field respects its bound.
pub open spec fn wf_data(d: DataView) -> bool {
    &&& d.name.len() <= MAX_NAME_LENGTH
    &&& d.symbol.len() <= MAX_SYMBOL_LENGTH
    &&& d.uri.len() <= MAX_URI_LENGTH
    &&& match d.creators {
        Some(cs) => {
            &&& cs.len() <= MAX_CREATOR_LIMIT
            &&& forall|i: int| 0 <= i < cs.len() ==> wf_creator(#[trigger] cs[i])
        },
        None => true,
    }
    &&& match d.collection {
        Some(c) => wf_collection(c),
        None => true,
    }
}

/// A record view is well formed when its addresses and blocks are, and
/// the request-only fields of its data block are absent: a persisted
/// record carries its collection and uses at record level.
pub open spec fn wf_metadata(m: MetadataView) -> bool {
    &&& m.update_authority.len() == 32
    &&& m.mint.len() == 32
    &&& wf_data(m.data)
    &&& m.data.collection is None
    &&& m.data.uses is None
    &&& match m.collection {
        Some(c) => wf_collection(c),
        None => true,
    }
    &&& match m.collection_details {
        Some(d) => wf_collection_details(d),
        None => true,
    }
}

impl Metadata {
    /// The record every fresh account decodes to.
    pub fn empty() -> (r: Metadata)
        ensures
            r@ == empty_metadata(),
    {
        let m = Metadata {
            key: Key::Uninitialized,
            update_authority: Pubkey::zeroed(),
            mint: Pubkey::zeroed(),
            data: Data {
                name: Vec::new(),
                symbol: Vec::new(),
                uri: Vec::new(),
                seller_fee_basis_points: 0,
                creators: None,
                collection: None,
                uses: None,
            },
            primary_sale_happened: false,
            is_mutable: false,
            token_standard: None,
            collection: None,
            collection_details: None,
            uses: None,
        };
        proof {
            assert(m@.data =~= empty_metadata().data);
            assert(m@ =~= empty_metadata());
        }
        m
    }
}

impl Default for Metadata {
    /// A blank live record: the `Metadata` discriminator over otherwise
    /// zeroed fields.
    fn default() -> (r: Metadata)
        ensures
            r@ == default_metadata(),
    {
        let mut m = Metadata::empty();
        m.key = Key::Metadata;
        proof {
            assert(m@ =~= default_metadata());
        }
        m
    }
}

/// The value of a fully zeroed, uninitialized record.
pub open spec fn empty_metadata() -> MetadataView {
    MetadataView {
        key: Key::Uninitialized,
        update_authority: Seq::new(32, |i: int| 0u8),
        mint: Seq::new(32, |i: int| 0u8),
        data: DataView {
            name: Seq::empty(),
            symbol: Seq::empty(),
            uri: Seq::empty(),
            seller_fee_basis_points: 0,
            creators: None,
            collection: None,
            uses: None,
        },
        primary_sale_happened: false,
        is_mutable: false,
        token_standard: None,
        collection: None,
        collection_details: None,
        uses: None,
    }
}

/// The value of a blank live record.
pub open spec fn default_metadata() -> MetadataView {
    MetadataView { key: Key::Metadata, ..empty_metadata() }
}

} // verus!
