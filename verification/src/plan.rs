//! The calls of a mint instruction, laid out before the first goes out.
//!
//! A checked instruction makes four calls in a fixed order: it mints one
//! unit, creates the metadata record, creates the master edition record and
//! writes the identity record. Each call is described here in full; the
//! caller performs them.

use vstd::prelude::*;
use crate::accounts::{MintAccounts, RecordSlot};
use crate::address::Address;
use crate::deriver::IdentityKeying;
use crate::records::{
    credential_metadata, IdentityRecord, TokenMetadata, TokenMetadataView, IDENTITY_RECORD_SPACE,
    IS_MUTABLE, MAX_SUPPLY,
};
use crate::validator::Bumps;

verus! {

/// What the caller of the instruction supplies besides the accounts.
#[derive(Clone, Debug, PartialEq, Eq)]
pub struct MintArgs {
    pub name: String,
    pub symbol: String,
    pub uri: String,
    pub user_id_hash: [u8; 32],
}

/// The arguments of an instruction, as a mathematical value.
pub ghost struct MintArgsView {
    pub name: Seq<char>,
    pub symbol: Seq<char>,
    pub uri: Seq<char>,
    pub user_id_hash: [u8; 32],
}

impl View for MintArgs {
    type V = MintArgsView;

    open spec fn view(&self) -> MintArgsView {
        MintArgsView { name: self.name@, symbol: self.symbol@, uri: self.uri@, user_id_hash: self.user_id_hash }
    }
}

/// Token program: mint `amount` units of `mint` to the account `to`, the
/// token account of `recipient`, which `payer` funds if it has to be created.
#[derive(Clone, Copy, Debug, PartialEq, Eq)]
pub struct MintToCall {
    pub payer: Address,
    pub recipient: Address,
    pub mint: Address,
    pub to: Address,
    pub authority: Address,
    pub amount: u64,
}

/// Metadata program: create the metadata record of `mint`.
#[derive(Clone, Debug, PartialEq, Eq)]
pub struct CreateMetadataCall {
    pub metadata: Address,
    pub mint: Address,
    pub mint_authority: Address,
    pub payer: Address,
    pub update_authority: Address,
    pub update_authority_is_signer: bool,
    pub data: TokenMetadata,
    pub is_mutable: bool,
    /// Size of the collection the token heads, if it heads one.
    pub collection_details: Option<u64>,
}

/// A call that creates a metadata record, as a mathematical value.
pub ghost struct CreateMetadataCallView {
    pub metadata: Address,
    pub mint: Address,
    pub mint_authority: Address,
    pub payer: Address,
    pub update_authority: Address,
    pub update_authority_is_signer: bool,
    pub data: TokenMetadataView,
    pub is_mutable: bool,
    pub collection_details: Option<u64>,
}

impl View for CreateMetadataCall {
    type V = CreateMetadataCallView;

    open spec fn view(&self) -> CreateMetadataCallView {
        CreateMetadataCallView {
            metadata: self.metadata,
            mint: self.mint,
            mint_authority: self.mint_authority,
            payer: self.payer,
            update_authority: self.update_authority,
            update_authority_is_signer: self.update_authority_is_signer,
            data: self.data@,
            is_mutable: self.is_mutable,
            collection_details: self.collection_details,
        }
    }
}

/// Metadata program: create the master edition record of `mint`.
#[derive(Clone, Copy, Debug, PartialEq, Eq)]
pub struct CreateMasterEditionCall {
    pub edition: Address,
    pub mint: Address,
    pub update_authority: Address,
    pub mint_authority: Address,
    pub payer: Address,
    pub metadata: Address,
    pub max_supply: Option<u64>,
}

/// What has to be done to the identity record's account before the record
/// is written into it.
#[derive(Clone, Copy, Debug, PartialEq, Eq, Structural)]
pub enum Allocation {
    /// The account does not exist: create it, funded for rent, with the
    /// record's space, owned by this program.
    Create,
    /// The system program owns the account and it holds `held` lamports:
    /// fund what is missing for rent, allocate the space and assign the
    /// account to this program.
    Adopt { held: u64 },
    /// The account holds a record already: leave the account as it is.
    Keep,
}

/// Prepare the identity record's account at its derived address as
/// `allocation` says and write the record into it.
#[derive(Clone, Copy, Debug, PartialEq, Eq)]
pub struct BindIdentityCall {
    pub address: Address,
    pub bump: u8,
    pub payer: Address,
    pub space: usize,
    pub allocation: Allocation,
    pub record: IdentityRecord,
}

/// The four calls of an instruction, in the order they are made.
#[derive(Clone, Debug, PartialEq, Eq)]
pub struct MintPlan {
    pub issue: MintToCall,
    pub metadata: CreateMetadataCall,
    pub edition: CreateMasterEditionCall,
    pub identity: BindIdentityCall,
}

/// The calls of an instruction, as a mathematical value.
pub ghost struct MintPlanView {
    pub issue: MintToCall,
    pub metadata: CreateMetadataCallView,
    pub edition: CreateMasterEditionCall,
    pub identity: BindIdentityCall,
}

impl View for MintPlan {
    type V = MintPlanView;

    open spec fn view(&self) -> MintPlanView {
        MintPlanView { issue: self.issue, metadata: self.metadata@, edition: self.edition, identity: self.identity }
    }
}

/// The call that mints the one unit to the recipient's token account.
pub open spec fn issuance(accounts: MintAccounts) -> MintToCall {
    MintToCall {
        payer: accounts.payer.address,
        recipient: accounts.recipient,
        mint: accounts.mint,
        to: accounts.recipient_token_account,
        authority: accounts.mint_authority.address,
        amount: 1,
    }
}

/// The call that creates the metadata record: the texts as given, no
/// royalty, no creators, never to be changed.
pub open spec fn metadata_registration(accounts: MintAccounts, name: Seq<char>, symbol: Seq<char>, uri: Seq<char>) -> CreateMetadataCallView {
    CreateMetadataCallView {
        metadata: accounts.metadata,
        mint: accounts.mint,
        mint_authority: accounts.mint_authority.address,
        payer: accounts.payer.address,
        update_authority: accounts.update_authority.address,
        update_authority_is_signer: true,
        data: credential_metadata(name, symbol, uri),
        is_mutable: false,
        collection_details: None,
    }
}

/// The call that creates the master edition record, with a supply cap of one.
pub open spec fn edition_registration(accounts: MintAccounts) -> CreateMasterEditionCall {
    CreateMasterEditionCall {
        edition: accounts.master_edition,
        mint: accounts.mint,
        update_authority: accounts.update_authority.address,
        mint_authority: accounts.mint_authority.address,
        payer: accounts.payer.address,
        metadata: accounts.metadata,
        max_supply: Some(1u64),
    }
}

/// What has to be done to the account in `slot` before a record is written.
pub open spec fn allocation_of(slot: RecordSlot) -> Allocation {
    if slot.initialized {
        Allocation::Keep
    } else if slot.lamports == 0 {
        Allocation::Create
    } else {
        Allocation::Adopt { held: slot.lamports }
    }
}

/// The lamports an account that holds `held` still needs to be exempt from
/// rent, where `minimum_balance` is what the rent asks for its space. An
/// account is never left with less than one lamport.
pub open spec fn lamports_missing(minimum_balance: u64, held: u64) -> int {
    let needed: int = if minimum_balance == 0 {
        1
    } else {
        minimum_balance as int
    };
    if needed > held {
        needed - held
    } else {
        0
    }
}

/// The call that writes the identity record.
pub open spec fn identity_binding(accounts: MintAccounts, keying: IdentityKeying, bump: u8, user_id_hash: [u8; 32]) -> BindIdentityCall {
    BindIdentityCall {
        address: accounts.identity_record.address,
        bump,
        payer: accounts.payer.address,
        space: 72,
        allocation: allocation_of(accounts.identity_record),
        record: IdentityRecord::binding(keying, accounts.owning_key(keying), user_id_hash),
    }
}

/// The calls of the instruction with the given accounts and arguments.
pub open spec fn planned(accounts: MintAccounts, args: MintArgsView, keying: IdentityKeying, bumps: Bumps) -> MintPlanView {
    MintPlanView {
        issue: issuance(accounts),
        metadata: metadata_registration(accounts, args.name, args.symbol, args.uri),
        edition: edition_registration(accounts),
        identity: identity_binding(accounts, keying, bumps.identity, args.user_id_hash),
    }
}

/// Token issuer: the call that mints exactly one unit to the recipient.
pub fn issue_token(accounts: &MintAccounts) -> (call: MintToCall)
    ensures
        call == issuance(*accounts),
{
    MintToCall {
        payer: accounts.payer.address,
        recipient: accounts.recipient,
        mint: accounts.mint,
        to: accounts.recipient_token_account,
        authority: accounts.mint_authority.address,
        amount: 1,
    }
}

/// Metadata registrar: the call that creates the metadata record.
pub fn register_metadata(accounts: &MintAccounts, name: String, symbol: String, uri: String) -> (call: CreateMetadataCall)
    ensures
        call@ == metadata_registration(*accounts, name@, symbol@, uri@),
{
    CreateMetadataCall {
        metadata: accounts.metadata,
        mint: accounts.mint,
        mint_authority: accounts.mint_authority.address,
        payer: accounts.payer.address,
        update_authority: accounts.update_authority.address,
        update_authority_is_signer: true,
        data: TokenMetadata::credential(name, symbol, uri),
        is_mutable: IS_MUTABLE,
        collection_details: None,
    }
}

/// Edition registrar: the call that creates the master edition record.
pub fn register_edition(accounts: &MintAccounts) -> (call: CreateMasterEditionCall)
    ensures
        call == edition_registration(*accounts),
{
    CreateMasterEditionCall {
        edition: accounts.master_edition,
        mint: accounts.mint,
        update_authority: accounts.update_authority.address,
        mint_authority: accounts.mint_authority.address,
        payer: accounts.payer.address,
        metadata: accounts.metadata,
        max_supply: Some(MAX_SUPPLY),
    }
}

/// Decides what has to be done to the account in `slot` before a record is
/// written into it.
pub fn allocate(slot: &RecordSlot) -> (allocation: Allocation)
    ensures
        allocation == allocation_of(*slot),
{
    if slot.initialized {
        Allocation::Keep
    } else if slot.lamports == 0 {
        Allocation::Create
    } else {
        Allocation::Adopt { held: slot.lamports }
    }
}

/// The lamports to add to an account that holds `held`, so that it is exempt
/// from rent.
pub fn top_up(minimum_balance: u64, held: u64) -> (missing: u64)
    ensures
        missing == lamports_missing(minimum_balance, held),
{
    let needed: u64 = if minimum_balance == 0 {
        1
    } else {
        minimum_balance
    };
    if needed > held {
        needed - held
    } else {
        0
    }
}

/// Identity binder: the call that prepares the account and writes the
/// identity record.
pub fn bind_identity(accounts: &MintAccounts, keying: IdentityKeying, bump: u8, user_id_hash: [u8; 32]) -> (call: BindIdentityCall)
    ensures
        call == identity_binding(*accounts, keying, bump, user_id_hash),
{
    BindIdentityCall {
        address: accounts.identity_record.address,
        bump,
        payer: accounts.payer.address,
        space: IDENTITY_RECORD_SPACE,
        allocation: allocate(&accounts.identity_record),
        record: IdentityRecord::bind(keying, accounts.identity_owner(keying), user_id_hash),
    }
}

/// Lays out the four calls of an instruction whose accounts were checked.
pub fn plan_mint(accounts: &MintAccounts, args: MintArgs, keying: IdentityKeying, bumps: &Bumps) -> (plan: MintPlan)
    ensures
        plan@ == planned(*accounts, args@, keying, *bumps),
{
    let MintArgs { name, symbol, uri, user_id_hash } = args;
    MintPlan {
        issue: issue_token(accounts),
        metadata: register_metadata(accounts, name, symbol, uri),
        edition: register_edition(accounts),
        identity: bind_identity(accounts, keying, bumps.identity, user_id_hash),
    }
}

} // verus!
