//! The accounts an instruction names, as plain values.

use vstd::prelude::*;
use crate::address::Address;
use crate::deriver::{system_program, system_program_id, IdentityKeying};

verus! {

/// An account that has to sign the transaction.
#[derive(Clone, Copy, Debug, PartialEq, Eq)]
pub struct Signatory {
    pub address: Address,
    pub is_signer: bool,
}

/// An account that holds a record of this program, with what is known of it
/// before the instruction runs.
#[derive(Clone, Copy, Debug, PartialEq, Eq)]
pub struct RecordSlot {
    pub address: Address,
    /// Whether the account already holds a record: it does unless the
    /// system program still owns it.
    pub initialized: bool,
    /// The lamports the account holds.
    pub lamports: u64,
}

impl RecordSlot {
    /// The slot at `address` as it is seen on an account that `owner` owns
    /// and that holds `lamports`. An account of the system program is free,
    /// whether or not it was funded beforehand.
    pub open spec fn seen(address: Address, owner: Seq<u8>, lamports: u64) -> RecordSlot {
        RecordSlot { address, initialized: owner != system_program(), lamports }
    }

    /// Reads the slot off an account's address, owner and lamports.
    pub fn observe(address: Address, owner: &Address, lamports: u64) -> (slot: RecordSlot)
        ensures
            slot == RecordSlot::seen(address, owner@, lamports),
            slot.address == address,
            slot.lamports == lamports,
            slot.initialized == (owner@ != system_program()),
    {
        let free = *owner == system_program_id();
        RecordSlot { address, initialized: !free, lamports }
    }
}

/// An instruction's program and accounts.
#[derive(Clone, Copy, Debug, PartialEq, Eq)]
pub struct Context<A> {
    /// The address this program is deployed at.
    pub program_id: Address,
    pub accounts: A,
}

/// The accounts of the mint instruction. The token, associated token,
/// metadata and system programs and the rent sysvar are fixed and not listed.
#[derive(Clone, Copy, Debug, PartialEq, Eq)]
pub struct MintAccounts {
    /// Signs and funds the rent of the accounts created.
    pub payer: Signatory,
    /// Signs for the mint.
    pub mint_authority: Signatory,
    /// Becomes the update authority of the metadata record.
    pub update_authority: Signatory,
    /// The mint of the token, created beforehand with no decimals.
    pub mint: Address,
    /// The recipient's token account for the mint.
    pub recipient_token_account: Address,
    /// The recipient's wallet; used only as a key.
    pub recipient: Address,
    /// The metadata record's account.
    pub metadata: Address,
    /// The master edition record's account.
    pub master_edition: Address,
    /// The identity record's account.
    pub identity_record: RecordSlot,
}

/// The accounts of `mint_nft`: one owner signs, pays and receives.
#[derive(Clone, Copy, Debug, PartialEq, Eq)]
pub struct MintNft {
    pub owner: Signatory,
    pub mint: Address,
    pub owner_ata: Address,
    pub user_pda: RecordSlot,
    pub metadata: Address,
    pub master_edition: Address,
}

/// The accounts of `mint_cv`: payer, authorities and recipient are named apart.
#[derive(Clone, Copy, Debug, PartialEq, Eq)]
pub struct MintCv {
    pub payer: Signatory,
    pub mint: Address,
    pub mint_authority: Signatory,
    pub owner_ata: Address,
    pub owner: Address,
    pub metadata: Address,
    pub master_edition: Address,
    pub user_data: RecordSlot,
    pub update_authority: Signatory,
}

/// The accounts of `update_uri`.
#[derive(Clone, Copy, Debug, PartialEq, Eq)]
pub struct UpdateUri {
    pub update_authority: Signatory,
}

impl MintAccounts {
    /// The key the identity record belongs to: the recipient's wallet or the mint.
    pub open spec fn owning_key(self, keying: IdentityKeying) -> Address {
        match keying {
            IdentityKeying::ByWallet => self.recipient,
            IdentityKeying::ByMint => self.mint,
        }
    }

    /// The key the identity record belongs to.
    pub fn identity_owner(&self, keying: IdentityKeying) -> (key: Address)
        ensures
            key == self.owning_key(keying),
    {
        match keying {
            IdentityKeying::ByWallet => self.recipient,
            IdentityKeying::ByMint => self.mint,
        }
    }
}

impl MintNft {
    /// The same accounts in the general form: the owner holds every role.
    pub open spec fn general(self) -> MintAccounts {
        MintAccounts {
            payer: self.owner,
            mint_authority: self.owner,
            update_authority: self.owner,
            mint: self.mint,
            recipient_token_account: self.owner_ata,
            recipient: self.owner.address,
            metadata: self.metadata,
            master_edition: self.master_edition,
            identity_record: self.user_pda,
        }
    }

    /// The same accounts in the general form.
    pub fn to_mint_accounts(&self) -> (accounts: MintAccounts)
        ensures
            accounts == self.general(),
    {
        MintAccounts {
            payer: self.owner,
            mint_authority: self.owner,
            update_authority: self.owner,
            mint: self.mint,
            recipient_token_account: self.owner_ata,
            recipient: self.owner.address,
            metadata: self.metadata,
            master_edition: self.master_edition,
            identity_record: self.user_pda,
        }
    }
}

impl MintCv {
    /// The same accounts in the general form.
    pub open spec fn general(self) -> MintAccounts {
        MintAccounts {
            payer: self.payer,
            mint_authority: self.mint_authority,
            update_authority: self.update_authority,
            mint: self.mint,
            recipient_token_account: self.owner_ata,
            recipient: self.owner,
            metadata: self.metadata,
            master_edition: self.master_edition,
            identity_record: self.user_data,
        }
    }

    /// The same accounts in the general form.
    pub fn to_mint_accounts(&self) -> (accounts: MintAccounts)
        ensures
            accounts == self.general(),
    {
        MintAccounts {
            payer: self.payer,
            mint_authority: self.mint_authority,
            update_authority: self.update_authority,
            mint: self.mint,
            recipient_token_account: self.owner_ata,
            recipient: self.owner,
            metadata: self.metadata,
            master_edition: self.master_edition,
            identity_record: self.user_data,
        }
    }
}

} // verus!
