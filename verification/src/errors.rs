//! The named failures of an instruction.

use vstd::prelude::*;

verus! {

/// The calls into other programs that an instruction makes, in order.
#[derive(Clone, Copy, Debug, PartialEq, Eq, Structural)]
pub enum CallKind {
    /// Token program: mint one unit to the recipient's token account.
    MintTo,
    /// Metadata program: create the metadata record.
    CreateMetadata,
    /// Metadata program: create the master edition record.
    CreateMasterEdition,
    /// System program and this program: allocate and write the identity record.
    BindIdentity,
}

/// Why an instruction failed. Every failure aborts the whole transaction.
#[derive(Clone, Copy, Debug, PartialEq, Eq, Structural)]
pub enum CustomError {
    /// The metadata account is not the address derived for the mint.
    WrongMetadataPda,
    /// The master edition account is not the address derived for the mint.
    WrongMasterEditionPda,
    /// The identity record account is not the address derived for its owning key.
    WrongIdentityPda,
    /// The recipient's token account is not the one derived for wallet and mint.
    WrongRecipientTokenAccount,
    /// The payer did not sign.
    PayerNotSigner,
    /// The mint authority did not sign.
    MintAuthorityNotSigner,
    /// The update authority did not sign.
    UpdateAuthorityNotSigner,
    /// The identity record keyed by mint already exists; it is created once
    /// and never rewritten.
    IdentityAlreadyInitialized,
    /// Another program refused a call; its code is passed on unchanged.
    ExternalRejection { call: CallKind, code: u64 },
    /// Updating the metadata is not offered.
    UpdateUnsupported,
}

} // verus!
