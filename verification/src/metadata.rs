use vstd::prelude::*;
use vstd::string::*;
use crate::state::Pubkey;
use crate::ticket::{NAME, SYMBOL, URI, ticket_name, ticket_name_of};

verus! {

/// A creator listed in a token's metadata, with its share of royalties in
/// percent.
#[derive(Clone, Copy, Debug)]
pub struct Creator {
    pub address: Pubkey,
    pub share: u8,
    pub verified: bool,
}

/// The collection that a token's metadata names, and whether the collection
/// vouched for the token.
#[derive(Clone, Copy, Debug)]
pub struct CollectionRef {
    pub verified: bool,
    pub key: Pubkey,
}

/// How the uses of a token are spent.
#[derive(Clone, Copy, Debug)]
pub enum UseMethod {
    Burn,
    Multiple,
    Single,
}

/// The uses a token grants.
#[derive(Clone, Copy, Debug)]
pub struct Uses {
    pub use_method: UseMethod,
    pub remaining: u64,
    pub total: u64,
}

/// The metadata that the program gives a token it mints: the collection
/// itself, or a ticket of it.
#[derive(Debug)]
pub struct MetadataPlan {
    pub name: String,
    pub symbol: String,
    pub uri: String,
    pub seller_fee_basis_points: u16,
    pub creators: Vec<Creator>,
    /// The collection the token belongs to.
    pub collection: Option<CollectionRef>,
    /// The uses the token grants.
    pub uses: Option<Uses>,
    /// Whether the metadata may be changed later.
    pub is_mutable: bool,
    /// Whether the update authority signs the creation.
    pub update_authority_is_signer: bool,
    /// `Some(size)` marks the token as a sized collection.
    pub collection_size: Option<u64>,
    /// Maximum supply of prints of the master edition.
    pub max_supply: Option<u64>,
    /// Number of tokens minted.
    pub mint_amount: u64,
}

/// Whether `m` is the metadata of the collection, created by `collection_mint`
/// on behalf of `signer`.
pub open spec fn is_collection_metadata(m: MetadataPlan, collection_mint: Pubkey, signer: Pubkey) -> bool {
    &&& m.name@ == NAME@
    &&& m.symbol@ == SYMBOL@
    &&& m.uri@ == URI@
    &&& m.seller_fee_basis_points == 0
    &&& m.creators@ == seq![
        Creator { address: collection_mint, share: 50, verified: false },
        Creator { address: signer, share: 50, verified: false },
    ]
    &&& m.collection.is_none()
    &&& m.uses.is_none()
    &&& m.is_mutable
    &&& m.update_authority_is_signer
    &&& m.collection_size == Some(0u64)
    &&& m.max_supply.is_none()
    &&& m.mint_amount == 1
}

/// Whether `m` is the metadata of ticket number `n` of the collection whose
/// mint authority is `collection_mint`.
pub open spec fn is_ticket_metadata(m: MetadataPlan, n: u64, collection_mint: Pubkey) -> bool {
    &&& m.name@ == ticket_name_of(n as nat)
    &&& m.symbol@ == SYMBOL@
    &&& m.uri@ == URI@
    &&& m.seller_fee_basis_points == 0
    &&& m.creators@ == seq![Creator { address: collection_mint, share: 100, verified: true }]
    &&& m.collection.is_none()
    &&& m.uses.is_none()
    &&& m.is_mutable
    &&& m.update_authority_is_signer
    &&& m.collection_size.is_none()
    &&& m.max_supply == Some(0u64)
    &&& m.mint_amount == 1
}

/// The metadata with which the lottery's collection is set up: one token,
/// named after the lottery, mutable and created with the update
/// authority signing, outside any collection and without uses, whose royalties go in halves to the collection
/// account and to the signer.
pub fn collection_metadata(collection_mint: Pubkey, signer: Pubkey) -> (m: MetadataPlan)
    ensures
        is_collection_metadata(m, collection_mint, signer),
{
    let mut creators: Vec<Creator> = Vec::new();
    creators.push(Creator { address: collection_mint, share: 50, verified: false });
    creators.push(Creator { address: signer, share: 50, verified: false });
    let m = MetadataPlan {
        name: String::from_str(NAME),
        symbol: String::from_str(SYMBOL),
        uri: String::from_str(URI),
        seller_fee_basis_points: 0,
        creators,
        collection: None,
        uses: None,
        is_mutable: true,
        update_authority_is_signer: true,
        collection_size: Some(0),
        max_supply: None,
        mint_amount: 1,
    };
    assert(m.creators@ =~= seq![
        Creator { address: collection_mint, share: 50, verified: false },
        Creator { address: signer, share: 50, verified: false },
    ]);
    m
}

/// The metadata of ticket number `n`: one token named after its number,
/// created by the collection account, mutable and created with the update
/// authority signing, without uses and without a collection of its own (the
/// collection is set and verified afterwards).
pub fn ticket_metadata(n: u64, collection_mint: Pubkey) -> (m: MetadataPlan)
    ensures
        is_ticket_metadata(m, n, collection_mint),
{
    let mut creators: Vec<Creator> = Vec::new();
    creators.push(Creator { address: collection_mint, share: 100, verified: true });
    let m = MetadataPlan {
        name: ticket_name(n),
        symbol: String::from_str(SYMBOL),
        uri: String::from_str(URI),
        seller_fee_basis_points: 0,
        creators,
        collection: None,
        uses: None,
        is_mutable: true,
        update_authority_is_signer: true,
        collection_size: None,
        max_supply: Some(0),
        mint_amount: 1,
    };
    assert(m.creators@ =~= seq![Creator { address: collection_mint, share: 100, verified: true }]);
    m
}

} // verus!
