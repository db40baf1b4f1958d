//! Deterministic program-owned addresses.
//!
//! A derived address is a function of a list of seeds and of the program that
//! owns it. The seed lists of this crate are fixed here: for a record, a tag
//! and the key the record belongs to; for a token account, the wallet, the
//! token program and the mint. The seeds of the metadata and master edition
//! records are those by which the token metadata program finds its records,
//! and the seeds of a token account those of the associated token program.

use vstd::prelude::*;
use crate::address::Address;

verus! {

/// How the identity record is keyed.
#[derive(Clone, Copy, Debug, PartialEq, Eq, Structural)]
pub enum IdentityKeying {
    /// One record per recipient wallet, under the tag `uid`. It is created
    /// where it is absent and written anew by every instruction.
    ByWallet,
    /// One record per mint, under the tag `user_data`. It is created once;
    /// an instruction that finds it present fails.
    ByMint,
}

/// A derived address with the bump seed that makes it valid.
#[derive(Clone, Copy, Debug)]
pub struct DerivedAddress {
    pub address: Address,
    pub bump: u8,
}

impl View for DerivedAddress {
    type V = (Seq<u8>, u8);

    open spec fn view(&self) -> (Seq<u8>, u8) {
        (self.address@, self.bump)
    }
}

/// The view of the outcome of a derivation.
pub open spec fn found_view(found: Option<DerivedAddress>) -> Option<(Seq<u8>, u8)> {
    match found {
        Some(derived) => Some(derived@),
        None => None,
    }
}

/// The address and bump seed that the runtime derives from `seeds` for the
/// program `program_id`, or `None` where it derives none.
pub uninterp spec fn program_address(seeds: Seq<Seq<u8>>, program_id: Seq<u8>) -> Option<(Seq<u8>, u8)>;

/// Calls `Pubkey::try_find_program_address` of `anchor_lang::prelude`.
///
/// Trusted: the result is `program_address` of the seeds and the program id.
/// Nothing else is claimed of it. The call hashes its arguments and returns
/// `None` rather than failing where no bump seed fits or the seeds are over
/// the runtime's limits.
#[verifier::external_body]
fn try_find_program_address(seeds: &Vec<Vec<u8>>, program_id: &Address) -> (found: Option<DerivedAddress>)
    ensures
        found_view(found) == program_address(seeds.deep_view(), program_id@),
{
    let parts: Vec<&[u8]> = seeds.iter().map(|seed| seed.as_slice()).collect();
    let program = anchor_lang::prelude::Pubkey::new_from_array(program_id.bytes);
    anchor_lang::prelude::Pubkey::try_find_program_address(&parts, &program)
        .map(|(key, bump)| DerivedAddress { address: Address { bytes: key.to_bytes() }, bump })
}

/// The tag `metadata`, in ASCII.
pub open spec fn metadata_tag() -> Seq<u8> {
    seq![109u8, 101u8, 116u8, 97u8, 100u8, 97u8, 116u8, 97u8]
}

/// The tag `edition`, in ASCII.
pub open spec fn edition_tag() -> Seq<u8> {
    seq![101u8, 100u8, 105u8, 116u8, 105u8, 111u8, 110u8]
}

/// The tag of the identity record: `uid` by wallet, `user_data` by mint.
pub open spec fn identity_tag(keying: IdentityKeying) -> Seq<u8> {
    match keying {
        IdentityKeying::ByWallet => seq![117u8, 105u8, 100u8],
        IdentityKeying::ByMint => seq![117u8, 115u8, 101u8, 114u8, 95u8, 100u8, 97u8, 116u8, 97u8],
    }
}

/// The address of the token metadata program.
pub open spec fn metadata_program() -> Seq<u8> {
    seq![
        11u8, 112u8, 101u8, 177u8, 227u8, 209u8, 124u8, 69u8,
        56u8, 157u8, 82u8, 127u8, 107u8, 4u8, 195u8, 205u8,
        88u8, 184u8, 108u8, 115u8, 26u8, 160u8, 253u8, 181u8,
        73u8, 182u8, 209u8, 188u8, 3u8, 248u8, 41u8, 70u8,
    ]
}

/// The address of the system program: thirty-two zero bytes.
pub open spec fn system_program() -> Seq<u8> {
    Seq::new(32, |i: int| 0u8)
}

/// The address of the token program.
pub open spec fn token_program() -> Seq<u8> {
    seq![
        6u8, 221u8, 246u8, 225u8, 215u8, 101u8, 161u8, 147u8,
        217u8, 203u8, 225u8, 70u8, 206u8, 235u8, 121u8, 172u8,
        28u8, 180u8, 133u8, 237u8, 95u8, 91u8, 55u8, 145u8,
        58u8, 140u8, 245u8, 133u8, 126u8, 255u8, 0u8, 169u8,
    ]
}

/// The address of the associated token program.
pub open spec fn associated_token_program() -> Seq<u8> {
    seq![
        140u8, 151u8, 37u8, 143u8, 78u8, 36u8, 137u8, 241u8,
        187u8, 61u8, 16u8, 41u8, 20u8, 142u8, 13u8, 131u8,
        11u8, 90u8, 19u8, 153u8, 218u8, 255u8, 16u8, 132u8,
        4u8, 142u8, 123u8, 216u8, 219u8, 233u8, 248u8, 89u8,
    ]
}

/// Seeds of the token account of `wallet` for `mint`.
pub open spec fn token_account_seeds(wallet: Seq<u8>, mint: Seq<u8>) -> Seq<Seq<u8>> {
    seq![wallet, token_program(), mint]
}

/// Seeds of the metadata record of `mint`.
pub open spec fn metadata_seeds(mint: Seq<u8>) -> Seq<Seq<u8>> {
    seq![metadata_tag(), metadata_program(), mint]
}

/// Seeds of the master edition record of `mint`.
pub open spec fn master_edition_seeds(mint: Seq<u8>) -> Seq<Seq<u8>> {
    seq![metadata_tag(), metadata_program(), mint, edition_tag()]
}

/// Seeds of the identity record that belongs to `owning_key`.
pub open spec fn identity_seeds(keying: IdentityKeying, owning_key: Seq<u8>) -> Seq<Seq<u8>> {
    seq![identity_tag(keying), owning_key]
}

/// The address of the token account of `wallet` for `mint`.
pub open spec fn token_account_address(wallet: Seq<u8>, mint: Seq<u8>) -> Option<(Seq<u8>, u8)> {
    program_address(token_account_seeds(wallet, mint), associated_token_program())
}

/// The metadata record's address for `mint`.
pub open spec fn metadata_address(mint: Seq<u8>) -> Option<(Seq<u8>, u8)> {
    program_address(metadata_seeds(mint), metadata_program())
}

/// The master edition record's address for `mint`.
pub open spec fn master_edition_address(mint: Seq<u8>) -> Option<(Seq<u8>, u8)> {
    program_address(master_edition_seeds(mint), metadata_program())
}

/// The identity record's address for `owning_key` under the program `program_id`.
pub open spec fn identity_address(keying: IdentityKeying, owning_key: Seq<u8>, program_id: Seq<u8>) -> Option<(Seq<u8>, u8)> {
    program_address(identity_seeds(keying, owning_key), program_id)
}

/// Each seed of a list is, in the list's deep view, its own view.
proof fn lemma_seed_views(seeds: Vec<Vec<u8>>)
    ensures
        seeds.deep_view().len() == seeds@.len(),
        forall|i: int| 0 <= i < seeds@.len() ==> #[trigger] seeds.deep_view()[i] == seeds@[i]@,
{
    assert forall|i: int| 0 <= i < seeds@.len() implies #[trigger] seeds.deep_view()[i] == seeds@[i]@ by {
        assert(seeds@[i].deep_view() =~= seeds@[i]@);
    }
}

/// The bytes of the tag `metadata`.
pub fn metadata_tag_bytes() -> (tag: Vec<u8>)
    ensures
        tag@ == metadata_tag(),
{
    let tag: Vec<u8> = vec![109u8, 101u8, 116u8, 97u8, 100u8, 97u8, 116u8, 97u8];
    assert(tag@ =~= metadata_tag());
    tag
}

/// The bytes of the tag `edition`.
pub fn edition_tag_bytes() -> (tag: Vec<u8>)
    ensures
        tag@ == edition_tag(),
{
    let tag: Vec<u8> = vec![101u8, 100u8, 105u8, 116u8, 105u8, 111u8, 110u8];
    assert(tag@ =~= edition_tag());
    tag
}

/// The bytes of the identity record's tag.
pub fn identity_tag_bytes(keying: IdentityKeying) -> (tag: Vec<u8>)
    ensures
        tag@ == identity_tag(keying),
{
    match keying {
        IdentityKeying::ByWallet => {
            let tag: Vec<u8> = vec![117u8, 105u8, 100u8];
            assert(tag@ =~= identity_tag(keying));
            tag
        },
        IdentityKeying::ByMint => {
            let tag: Vec<u8> = vec![117u8, 115u8, 101u8, 114u8, 95u8, 100u8, 97u8, 116u8, 97u8];
            assert(tag@ =~= identity_tag(keying));
            tag
        },
    }
}

/// The address of the token metadata program.
pub fn metadata_program_id() -> (program: Address)
    ensures
        program@ == metadata_program(),
{
    let bytes: [u8; 32] = [
        11u8, 112u8, 101u8, 177u8, 227u8, 209u8, 124u8, 69u8,
        56u8, 157u8, 82u8, 127u8, 107u8, 4u8, 195u8, 205u8,
        88u8, 184u8, 108u8, 115u8, 26u8, 160u8, 253u8, 181u8,
        73u8, 182u8, 209u8, 188u8, 3u8, 248u8, 41u8, 70u8,
    ];
    assert(bytes@ =~= metadata_program());
    Address::new(bytes)
}

/// The address of the system program.
pub fn system_program_id() -> (program: Address)
    ensures
        program@ == system_program(),
{
    let bytes: [u8; 32] = [0u8; 32];
    assert(bytes@ =~= system_program());
    Address::new(bytes)
}

/// The address of the token program.
pub fn token_program_id() -> (program: Address)
    ensures
        program@ == token_program(),
{
    let bytes: [u8; 32] = [
        6u8, 221u8, 246u8, 225u8, 215u8, 101u8, 161u8, 147u8,
        217u8, 203u8, 225u8, 70u8, 206u8, 235u8, 121u8, 172u8,
        28u8, 180u8, 133u8, 237u8, 95u8, 91u8, 55u8, 145u8,
        58u8, 140u8, 245u8, 133u8, 126u8, 255u8, 0u8, 169u8,
    ];
    assert(bytes@ =~= token_program());
    Address::new(bytes)
}

/// The address of the associated token program.
pub fn associated_token_program_id() -> (program: Address)
    ensures
        program@ == associated_token_program(),
{
    let bytes: [u8; 32] = [
        140u8, 151u8, 37u8, 143u8, 78u8, 36u8, 137u8, 241u8,
        187u8, 61u8, 16u8, 41u8, 20u8, 142u8, 13u8, 131u8,
        11u8, 90u8, 19u8, 153u8, 218u8, 255u8, 16u8, 132u8,
        4u8, 142u8, 123u8, 216u8, 219u8, 233u8, 248u8, 89u8,
    ];
    assert(bytes@ =~= associated_token_program());
    Address::new(bytes)
}

/// Derives the address of the token account of `wallet` for `mint`.
pub fn find_token_account_address(wallet: &Address, mint: &Address) -> (found: Option<DerivedAddress>)
    ensures
        found_view(found) == token_account_address(wallet@, mint@),
{
    let mut seeds: Vec<Vec<u8>> = Vec::new();
    seeds.push(wallet.to_vec());
    seeds.push(token_program_id().to_vec());
    seeds.push(mint.to_vec());
    proof {
        lemma_seed_views(seeds);
        assert(seeds.deep_view() =~= token_account_seeds(wallet@, mint@));
    }
    try_find_program_address(&seeds, &associated_token_program_id())
}

/// Derives the address of the metadata record of `mint`.
pub fn find_metadata_address(mint: &Address) -> (found: Option<DerivedAddress>)
    ensures
        found_view(found) == metadata_address(mint@),
{
    let mut seeds: Vec<Vec<u8>> = Vec::new();
    seeds.push(metadata_tag_bytes());
    seeds.push(metadata_program_id().to_vec());
    seeds.push(mint.to_vec());
    proof {
        lemma_seed_views(seeds);
        assert(seeds.deep_view() =~= metadata_seeds(mint@));
    }
    try_find_program_address(&seeds, &metadata_program_id())
}

/// Derives the address of the master edition record of `mint`.
pub fn find_master_edition_address(mint: &Address) -> (found: Option<DerivedAddress>)
    ensures
        found_view(found) == master_edition_address(mint@),
{
    let mut seeds: Vec<Vec<u8>> = Vec::new();
    seeds.push(metadata_tag_bytes());
    seeds.push(metadata_program_id().to_vec());
    seeds.push(mint.to_vec());
    seeds.push(edition_tag_bytes());
    proof {
        lemma_seed_views(seeds);
        assert(seeds.deep_view() =~= master_edition_seeds(mint@));
    }
    try_find_program_address(&seeds, &metadata_program_id())
}

/// The seeds by which this program signs for the identity record of
/// `owning_key`: the seeds of its address, then the bump seed.
pub open spec fn identity_signer_seeds(keying: IdentityKeying, owning_key: Seq<u8>, bump: u8) -> Seq<Seq<u8>> {
    identity_seeds(keying, owning_key).push(seq![bump])
}

/// The seeds by which this program signs for the identity record of
/// `owning_key`, whose address was derived with `bump`.
pub fn signer_seeds(keying: IdentityKeying, owning_key: &Address, bump: u8) -> (seeds: Vec<Vec<u8>>)
    ensures
        seeds.deep_view() == identity_signer_seeds(keying, owning_key@, bump),
{
    let mut last: Vec<u8> = Vec::new();
    last.push(bump);
    let mut seeds: Vec<Vec<u8>> = Vec::new();
    seeds.push(identity_tag_bytes(keying));
    seeds.push(owning_key.to_vec());
    seeds.push(last);
    proof {
        lemma_seed_views(seeds);
        assert(last@ =~= seq![bump]);
        assert(seeds.deep_view() =~= identity_signer_seeds(keying, owning_key@, bump));
    }
    seeds
}

/// Derives the address of the identity record that belongs to `owning_key`
/// under the program `program_id`.
pub fn find_identity_address(keying: IdentityKeying, owning_key: &Address, program_id: &Address) -> (found: Option<DerivedAddress>)
    ensures
        found_view(found) == identity_address(keying, owning_key@, program_id@),
{
    let mut seeds: Vec<Vec<u8>> = Vec::new();
    seeds.push(identity_tag_bytes(keying));
    seeds.push(owning_key.to_vec());
    proof {
        lemma_seed_views(seeds);
        assert(seeds.deep_view() =~= identity_seeds(keying, owning_key@));
    }
    try_find_program_address(&seeds, program_id)
}

} // verus!
