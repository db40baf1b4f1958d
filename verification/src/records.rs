//! What an instruction leaves behind: the metadata of the token, its master
//! edition and the identity record.

use vstd::prelude::*;
use crate::address::Address;
use crate::deriver::IdentityKeying;

verus! {

/// Royalty on secondary sales, in basis points. No royalty is ever set.
pub const SELLER_FEE_BASIS_POINTS: u16 = 0;

/// How many units the mint may ever have: the token is one of one.
pub const MAX_SUPPLY: u64 = 1;

/// Whether the metadata may be changed after it is created. It may not.
pub const IS_MUTABLE: bool = false;

/// Bytes of the discriminator at the head of an identity record's account.
pub const DISCRIMINATOR_LEN: usize = 8;

/// Bytes of an identity record's account: discriminator, owning key, hash.
pub const IDENTITY_RECORD_SPACE: usize = 8 + 32 + 32;

/// A creator of a token with the share of the royalty due to it.
#[derive(Clone, Copy, Debug, PartialEq, Eq)]
pub struct Creator {
    pub address: Address,
    pub verified: bool,
    pub share: u8,
}

/// The collection a token belongs to.
#[derive(Clone, Copy, Debug, PartialEq, Eq)]
pub struct Collection {
    pub verified: bool,
    pub key: Address,
}

/// How the uses of a token are counted.
#[derive(Clone, Copy, Debug, PartialEq, Eq, Structural)]
pub enum UseMethod {
    Burn,
    Multiple,
    Single,
}

/// The uses a token has left.
#[derive(Clone, Copy, Debug, PartialEq, Eq, Structural)]
pub struct Uses {
    pub use_method: UseMethod,
    pub remaining: u64,
    pub total: u64,
}

/// The descriptive data of a token.
#[derive(Clone, Debug, PartialEq, Eq)]
pub struct TokenMetadata {
    pub name: String,
    pub symbol: String,
    pub uri: String,
    pub seller_fee_basis_points: u16,
    pub creators: Option<Vec<Creator>>,
    pub collection: Option<Collection>,
    pub uses: Option<Uses>,
}

/// The descriptive data of a token, as a mathematical value.
pub ghost struct TokenMetadataView {
    pub name: Seq<char>,
    pub symbol: Seq<char>,
    pub uri: Seq<char>,
    pub seller_fee_basis_points: u16,
    pub creators: Option<Seq<Creator>>,
    pub collection: Option<Collection>,
    pub uses: Option<Uses>,
}

impl View for TokenMetadata {
    type V = TokenMetadataView;

    open spec fn view(&self) -> TokenMetadataView {
        TokenMetadataView {
            name: self.name@,
            symbol: self.symbol@,
            uri: self.uri@,
            seller_fee_basis_points: self.seller_fee_basis_points,
            creators: match self.creators {
                Some(list) => Some(list@),
                None => None,
            },
            collection: self.collection,
            uses: self.uses,
        }
    }
}

/// The metadata of a credential token: the three texts as given, no royalty,
/// no creators, no collection, no uses.
pub open spec fn credential_metadata(name: Seq<char>, symbol: Seq<char>, uri: Seq<char>) -> TokenMetadataView {
    TokenMetadataView {
        name,
        symbol,
        uri,
        seller_fee_basis_points: 0,
        creators: None,
        collection: None,
        uses: None,
    }
}

impl TokenMetadata {
    /// The metadata of a credential token with the given texts.
    pub fn credential(name: String, symbol: String, uri: String) -> (data: TokenMetadata)
        ensures
            data@ == credential_metadata(name@, symbol@, uri@),
    {
        TokenMetadata {
            name,
            symbol,
            uri,
            seller_fee_basis_points: SELLER_FEE_BASIS_POINTS,
            creators: None,
            collection: None,
            uses: None,
        }
    }
}

/// The master edition of a token: the cap on its supply.
#[derive(Clone, Copy, Debug, PartialEq, Eq, Structural)]
pub struct MasterEditionRecord {
    pub max_supply: Option<u64>,
}

/// The identity record keyed by wallet.
#[derive(Clone, Copy, Debug, PartialEq, Eq)]
pub struct UserPda {
    pub user: Address,
    pub user_id_hash: [u8; 32],
}

/// The identity record keyed by mint.
#[derive(Clone, Copy, Debug, PartialEq, Eq)]
pub struct UserData {
    pub mint: Address,
    pub user_id_hash: [u8; 32],
}

impl UserData {
    /// Bytes of the record after the discriminator: key and hash.
    pub const LEN: usize = 64;
}

/// The binding of a wallet or of a mint to an identity hash.
#[derive(Clone, Copy, Debug, PartialEq, Eq)]
pub enum IdentityRecord {
    ByWallet(UserPda),
    ByMint(UserData),
}

impl IdentityRecord {
    /// How the record is keyed.
    pub open spec fn keying(self) -> IdentityKeying {
        match self {
            IdentityRecord::ByWallet(_) => IdentityKeying::ByWallet,
            IdentityRecord::ByMint(_) => IdentityKeying::ByMint,
        }
    }

    /// The wallet or mint the record belongs to.
    pub open spec fn owning_key(self) -> Address {
        match self {
            IdentityRecord::ByWallet(record) => record.user,
            IdentityRecord::ByMint(record) => record.mint,
        }
    }

    /// The identity hash the record holds.
    pub open spec fn id_hash(self) -> [u8; 32] {
        match self {
            IdentityRecord::ByWallet(record) => record.user_id_hash,
            IdentityRecord::ByMint(record) => record.user_id_hash,
        }
    }

    /// The record that binds `owning_key` to `user_id_hash`.
    pub open spec fn binding(keying: IdentityKeying, owning_key: Address, user_id_hash: [u8; 32]) -> IdentityRecord {
        match keying {
            IdentityKeying::ByWallet => IdentityRecord::ByWallet(UserPda { user: owning_key, user_id_hash }),
            IdentityKeying::ByMint => IdentityRecord::ByMint(UserData { mint: owning_key, user_id_hash }),
        }
    }

    /// The record that binds `owning_key` to `user_id_hash`.
    pub fn bind(keying: IdentityKeying, owning_key: Address, user_id_hash: [u8; 32]) -> (record: IdentityRecord)
        ensures
            record == IdentityRecord::binding(keying, owning_key, user_id_hash),
            record.keying() == keying,
            record.owning_key() == owning_key,
            record.id_hash() == user_id_hash,
    {
        match keying {
            IdentityKeying::ByWallet => IdentityRecord::ByWallet(UserPda { user: owning_key, user_id_hash }),
            IdentityKeying::ByMint => IdentityRecord::ByMint(UserData { mint: owning_key, user_id_hash }),
        }
    }

    /// How the record is keyed.
    pub fn keyed(&self) -> (keying: IdentityKeying)
        ensures
            keying == self.keying(),
    {
        match self {
            IdentityRecord::ByWallet(_) => IdentityKeying::ByWallet,
            IdentityRecord::ByMint(_) => IdentityKeying::ByMint,
        }
    }

    /// The wallet or mint the record belongs to.
    pub fn key(&self) -> (key: Address)
        ensures
            key == self.owning_key(),
    {
        match self {
            IdentityRecord::ByWallet(record) => record.user,
            IdentityRecord::ByMint(record) => record.mint,
        }
    }

    /// The identity hash the record holds.
    pub fn hash(&self) -> (hash: [u8; 32])
        ensures
            hash == self.id_hash(),
    {
        match self {
            IdentityRecord::ByWallet(record) => record.user_id_hash,
            IdentityRecord::ByMint(record) => record.user_id_hash,
        }
    }
}

} // verus!
