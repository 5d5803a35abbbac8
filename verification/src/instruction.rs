//! The instruction payloads callers hand to the engine.

use vstd::prelude::*;

use crate::account::Pubkey;
use crate::state::CollectionDetails;
use crate::state::Data;

verus! {

/// The simple-schema program's instruction: initialize or update the
/// name, symbol and URI of an asset's record.
#[derive(Debug)]
pub enum TokenInstruction {
    Initialize { name: Vec<u8>, symbol: Vec<u8>, uri: Vec<u8> },
    Update { name: Vec<u8>, symbol: Vec<u8>, uri: Vec<u8> },
}

/// Mathematical value of a simple-schema instruction.
#[verifier::ext_equal]
pub ghost enum TokenInstructionView {
    Initialize { name: Seq<u8>, symbol: Seq<u8>, uri: Seq<u8> },
    Update { name: Seq<u8>, symbol: Seq<u8>, uri: Seq<u8> },
}

impl View for TokenInstruction {
    type V = TokenInstructionView;

    open spec fn view(&self) -> TokenInstructionView {
        match self {
            TokenInstruction::Initialize { name, symbol, uri } => TokenInstructionView::Initialize {
                name: name@,
                symbol: symbol@,
                uri: uri@,
            },
            TokenInstruction::Update { name, symbol, uri } => TokenInstructionView::Update {
                name: name@,
                symbol: symbol@,
                uri: uri@,
            },
        }
    }
}

/// Arguments of a create request.
#[derive(Debug)]
pub struct CreateMetadataAccountArgs {
    /// The requested data block.
    pub data: Data,
    /// Whether the record should stay updatable.
    pub is_mutable: bool,
    /// Present when the record is a collection parent.
    pub collection_details: Option<CollectionDetails>,
}

/// Arguments of an update request.
#[derive(Debug)]
pub struct UpdateMetadataAccountArgs {
    /// A new data block, if the data is to change.
    pub data: Option<Data>,
    /// A new update authority, if it is to be handed over.
    pub update_authority: Option<Pubkey>,
    /// A new primary-sale flag; may only be flipped to true.
    pub primary_sale_happened: Option<bool>,
    /// A new mutability flag; may only be flipped to false.
    pub is_mutable: Option<bool>,
}

/// The requests the metadata engine serves.
#[derive(Debug)]
pub enum MetadataInstruction {
    CreateMetadataAccount(CreateMetadataAccountArgs),
    UpdateMetadataAccount(UpdateMetadataAccountArgs),
}

/// A request bundled with the accounts it runs against.
pub struct Context<T> {
    pub accounts: T,
}

} // verus!
