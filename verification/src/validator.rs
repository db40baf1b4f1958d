//! The check of an instruction's accounts, made before any call goes out.
//!
//! Each derived account is held against the address derived anew from its
//! seeds. The checks run in a fixed order and the first that fails names the
//! error: metadata, master edition, identity record, recipient's token
//! account, then the signers, then, where the identity record is keyed by
//! mint, that it is still free. A record keyed by wallet may stand already:
//! it is written again.

use vstd::prelude::*;
use crate::accounts::MintAccounts;
use crate::address::Address;
use crate::deriver::{
    find_identity_address, find_master_edition_address, find_metadata_address,
    find_token_account_address, found_view, identity_address, master_edition_address,
    metadata_address, token_account_address, DerivedAddress, IdentityKeying,
};
use crate::errors::CustomError;

verus! {

/// The bump seeds of the three records of an instruction.
#[derive(Clone, Copy, Debug, PartialEq, Eq, Structural)]
pub struct Bumps {
    pub metadata: u8,
    pub master_edition: u8,
    pub identity: u8,
}

/// Whether `supplied` is the address that was derived. Where none was
/// derived, no address is.
pub open spec fn is_derived(supplied: Seq<u8>, derived: Option<(Seq<u8>, u8)>) -> bool {
    derived matches Some(found) && found.0 == supplied
}

/// What the check of `accounts` gives, for the four addresses derived.
pub open spec fn verdict(
    accounts: MintAccounts,
    keying: IdentityKeying,
    metadata: Option<(Seq<u8>, u8)>,
    master_edition: Option<(Seq<u8>, u8)>,
    identity: Option<(Seq<u8>, u8)>,
    token_account: Option<(Seq<u8>, u8)>,
) -> Result<Bumps, CustomError> {
    if !is_derived(accounts.metadata@, metadata) {
        Err(CustomError::WrongMetadataPda)
    } else if !is_derived(accounts.master_edition@, master_edition) {
        Err(CustomError::WrongMasterEditionPda)
    } else if !is_derived(accounts.identity_record.address@, identity) {
        Err(CustomError::WrongIdentityPda)
    } else if !is_derived(accounts.recipient_token_account@, token_account) {
        Err(CustomError::WrongRecipientTokenAccount)
    } else if !accounts.payer.is_signer {
        Err(CustomError::PayerNotSigner)
    } else if !accounts.mint_authority.is_signer {
        Err(CustomError::MintAuthorityNotSigner)
    } else if !accounts.update_authority.is_signer {
        Err(CustomError::UpdateAuthorityNotSigner)
    } else if keying == IdentityKeying::ByMint && accounts.identity_record.initialized {
        Err(CustomError::IdentityAlreadyInitialized)
    } else {
        Ok(
            Bumps {
                metadata: metadata->Some_0.1,
                master_edition: master_edition->Some_0.1,
                identity: identity->Some_0.1,
            },
        )
    }
}

/// What the check of `accounts` gives under the program `program_id`, with
/// the identity record keyed as `keying` says.
pub open spec fn verdict_for(accounts: MintAccounts, keying: IdentityKeying, program_id: Seq<u8>) -> Result<Bumps, CustomError> {
    verdict(
        accounts,
        keying,
        metadata_address(accounts.mint@),
        master_edition_address(accounts.mint@),
        identity_address(keying, accounts.owning_key(keying)@, program_id),
        token_account_address(accounts.recipient@, accounts.mint@),
    )
}

/// Whether `supplied` is the derived address.
pub fn matches_derived(supplied: &Address, derived: &Option<DerivedAddress>) -> (same: bool)
    ensures
        same == is_derived(supplied@, found_view(*derived)),
{
    match derived {
        Some(found) => found.address == *supplied,
        None => false,
    }
}

/// Checks `accounts` against the four addresses derived for them, with the
/// identity record keyed as `keying` says.
pub fn check_accounts(
    accounts: &MintAccounts,
    keying: IdentityKeying,
    metadata: &Option<DerivedAddress>,
    master_edition: &Option<DerivedAddress>,
    identity: &Option<DerivedAddress>,
    token_account: &Option<DerivedAddress>,
) -> (checked: Result<Bumps, CustomError>)
    ensures
        checked == verdict(
            *accounts,
            keying,
            found_view(*metadata),
            found_view(*master_edition),
            found_view(*identity),
            found_view(*token_account),
        ),
{
    if !matches_derived(&accounts.metadata, metadata) {
        return Err(CustomError::WrongMetadataPda);
    }
    if !matches_derived(&accounts.master_edition, master_edition) {
        return Err(CustomError::WrongMasterEditionPda);
    }
    if !matches_derived(&accounts.identity_record.address, identity) {
        return Err(CustomError::WrongIdentityPda);
    }
    if !matches_derived(&accounts.recipient_token_account, token_account) {
        return Err(CustomError::WrongRecipientTokenAccount);
    }
    if !accounts.payer.is_signer {
        return Err(CustomError::PayerNotSigner);
    }
    if !accounts.mint_authority.is_signer {
        return Err(CustomError::MintAuthorityNotSigner);
    }
    if !accounts.update_authority.is_signer {
        return Err(CustomError::UpdateAuthorityNotSigner);
    }
    let single_creation = match keying {
        IdentityKeying::ByMint => true,
        IdentityKeying::ByWallet => false,
    };
    if single_creation && accounts.identity_record.initialized {
        return Err(CustomError::IdentityAlreadyInitialized);
    }
    match (metadata, master_edition, identity) {
        (Some(m), Some(e), Some(i)) => Ok(Bumps { metadata: m.bump, master_edition: e.bump, identity: i.bump }),
        _ => Err(CustomError::WrongMetadataPda),
    }
}

/// Derives the four addresses anew and checks `accounts` against them.
pub fn validate_accounts(accounts: &MintAccounts, keying: IdentityKeying, program_id: &Address) -> (checked: Result<Bumps, CustomError>)
    ensures
        checked == verdict_for(*accounts, keying, program_id@),
{
    let metadata = find_metadata_address(&accounts.mint);
    let master_edition = find_master_edition_address(&accounts.mint);
    let owner = accounts.identity_owner(keying);
    let identity = find_identity_address(keying, &owner, program_id);
    let token_account = find_token_account_address(&accounts.recipient, &accounts.mint);
    check_accounts(accounts, keying, &metadata, &master_edition, &identity, &token_account)
}

} // verus!
