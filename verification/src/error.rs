//! The stable rejection codes that the engine signals.
//!
//! Every rejection is a distinct code; no operation fails with a generic
//! error, and no partial write ever precedes a rejection.

use vstd::prelude::*;

verus! {

/// Errors that may be returned by the metadata engine.
#[derive(Clone, Copy, Debug, PartialEq, Eq, Structural)]
pub enum MetadataError {
    /// Failed to unpack instruction data.
    InstructionUnpackError,
    /// Balance below the rent-exempt threshold for the record's size.
    NotRentExempt,
    /// The record account is already initialized.
    AlreadyInitialized,
    /// The record account is not initialized yet.
    NotInitialized,
    /// The record account's address does not match the derived address.
    InvalidMetadataKey,
    /// The record account's address does not match the derived address.
    InvalidPda,
    /// Update authority given does not match the one stored in the record.
    UpdateAuthorityIncorrect,
    /// Update authority must sign to update the record.
    UpdateAuthorityIsNotSigner,
    /// The stored authority does not match the supplied authority.
    InvalidAuthority,
    /// The supplied mint authority is not a signer of the call.
    NotMintAuthority,
    /// The mint's authority is absent or does not match the supplied one.
    InvalidMintAuthority,
    /// Name longer than the fixed maximum.
    NameTooLong,
    /// Symbol longer than the fixed maximum.
    SymbolTooLong,
    /// URI longer than the fixed maximum.
    UriTooLong,
    /// Royalty basis points above 10000.
    InvalidBasisPoints,
    /// Creators list longer than the fixed maximum.
    CreatorsTooLong,
    /// Creators list, when present, must hold at least one entry.
    CreatorsMustBeAtleastOne,
    /// Two creators share one address.
    DuplicateCreatorAddress,
    /// Creator shares must sum to exactly 100.
    ShareTotalMustBe100,
    /// An overflow-checked addition overflowed.
    NumericalOverflowError,
    /// Only a creator's own signature may set its verified flag.
    CannotVerifyAnotherCreator,
    /// Only a creator's own signature may clear its verified flag.
    CannotUnverifyAnotherCreator,
    /// A verified creator cannot be silently dropped from the list.
    CannotRemoveVerifiedCreator,
    /// The account is not owned by the expected program.
    IncorrectOwner,
    /// The record forbids further changes to its data block.
    DataIsImmutable,
    /// The primary-sale flag may only be flipped to true.
    PrimarySaleCanOnlyBeFlippedToTrue,
    /// The mutability flag may only be flipped to false.
    IsMutableCanOnlyBeFlippedToFalse,
    /// A collection cannot be verified by a generic update.
    CollectionCannotBeVerifiedInThisInstruction,
    /// A verified collection cannot be replaced or cleared by a generic update.
    CannotUpdateVerifiedCollection,
    /// The use-method tag is not one of the known methods.
    InvalidUseMethod,
    /// The use method is frozen once any use has been consumed.
    CannotChangeUseMethodAfterFirstUse,
    /// The use counts are frozen once any use has been consumed.
    CannotChangeUsesAfterFirstUse,
    /// The buffer does not hold a record of the expected type.
    DataTypeMismatch,
    /// An account buffer is malformed.
    InvalidAccountData,
    /// The instruction tag belongs to a removed instruction.
    Removed,
    /// The instruction tag is unknown.
    InvalidInstruction,
}

} // verus!
