//! The Metaplex token metadata that a staked NFT carries, and the check that
//! it belongs to the pool's collection.
use vstd::prelude::*;
use crate::state::{Pubkey, keys_equal};

verus! {

/// The account kind tag of a metadata account.
#[derive(Clone, Copy, Debug)]
pub enum Key {
    Uninitialized,
    EditionV1,
    MasterEditionV1,
    ReservationListV1,
    MetadataV1,
    ReservationListV2,
    MasterEditionV2,
    EditionMarker,
    UseAuthorityRecord,
    CollectionAuthorityRecord,
}

/// A creator listed in an NFT's metadata.
#[derive(Clone, Copy, Debug)]
pub struct Creator {
    pub address: Pubkey,
    pub verified: bool,
    /// In percentages, not basis points.
    pub share: u8,
}

/// The collection an NFT claims to belong to.
#[derive(Clone, Copy, Debug)]
pub struct Collection {
    pub verified: bool,
    pub key: Pubkey,
}

/// How the uses of an NFT are consumed.
#[derive(Clone, Debug)]
pub enum UseMethod {
    Burn,
    Multiple,
    Single,
}

/// The remaining and total uses of an NFT.
#[derive(Clone, Debug)]
pub struct Uses {
    pub use_method: UseMethod,
    pub remaining: u64,
    pub total: u64,
}

/// The kind of token that a metadata account describes.
#[derive(Clone, Debug)]
pub enum TokenStandard {
    /// A master edition.
    NonFungible,
    /// A token with metadata that can also have attributes.
    FungibleAsset,
    /// A token with simple metadata.
    Fungible,
    /// A limited edition.
    NonFungibleEdition,
}

/// The descriptive part of a metadata account.
#[derive(Clone, Debug)]
pub struct Data {
    /// The name of the asset.
    pub name: String,
    /// The symbol of the asset.
    pub symbol: String,
    /// URI pointing to JSON representing the asset.
    pub uri: String,
    /// Royalty basis points that go to creators in secondary sales (0-10000).
    pub seller_fee_basis_points: u16,
    pub creators: Option<Vec<Creator>>,
}

/// A Metaplex metadata account.
#[derive(Clone, Debug)]
pub struct Metadata {
    pub key: Key,
    pub update_authority: Pubkey,
    pub mint: Pubkey,
    pub data: Data,
    /// Once flipped, all sales of this metadata are secondary.
    pub primary_sale_happened: bool,
    /// Whether the data is mutable.
    pub is_mutable: bool,
    /// Nonce for the calculation of editions, if present.
    pub edition_nonce: Option<u8>,
    pub token_standard: Option<TokenStandard>,
    pub collection: Option<Collection>,
    pub uses: Option<Uses>,
}

/// What the staking handlers read of a metadata account: the NFT's mint and
/// its creators.
#[derive(Clone, Debug)]
pub struct DecodedMetadata {
    pub mint: Pubkey,
    pub creators: Option<Vec<Creator>>,
}

impl View for DecodedMetadata {
    type V = (Pubkey, Option<Seq<Creator>>);

    open spec fn view(&self) -> (Pubkey, Option<Seq<Creator>>) {
        (self.mint, match self.creators {
            Some(v) => Some(v@),
            None => None,
        })
    }
}

/// The mint and creators that the Metaplex decoder reads from the bytes of a
/// metadata account, or `None` where the bytes are no metadata account.
pub uninterp spec fn decoded_metadata(account_data: Seq<u8>) -> Option<(Pubkey, Option<Seq<Creator>>)>;

/// The little-endian `u32` that starts at `at` in `b`.
pub open spec fn u32_at(b: Seq<u8>, at: int) -> int {
    b[at] + 256 * b[at + 1] + 65536 * b[at + 2] + 16777216 * b[at + 3]
}

/// The end of the Borsh string that starts at `at` in `b`: a `u32` length,
/// then that many bytes.
pub open spec fn string_end(b: Seq<u8>, at: int) -> int {
    at + 4 + u32_at(b, at)
}

/// Where the creators field of a Borsh-encoded metadata account starts: after
/// the key (1 byte), the update authority and the mint (32 bytes each), the
/// name, symbol and uri strings, and the royalty (2 bytes).
pub open spec fn creators_offset(b: Seq<u8>) -> int {
    string_end(b, string_end(b, string_end(b, 65))) + 2
}

/// Where the `i`-th creator of a Borsh-encoded metadata account starts: after
/// the option tag and the `u32` count, 34 bytes per creator (the address, a
/// verified byte, a share byte).
pub open spec fn creator_offset(b: Seq<u8>, i: int) -> int {
    creators_offset(b) + 5 + 34 * i
}

/// `b` begins with the Borsh encoding of a metadata account whose mint is
/// `mint` and whose creators field is `creators`: the mint at bytes 33 to 65,
/// and the creators, every one in its order, where the field lies.
pub open spec fn metadata_layout(b: Seq<u8>, mint: Pubkey, creators: Option<Seq<Creator>>) -> bool {
    &&& b.len() >= 65
    &&& b.subrange(33, 65) == mint@
    &&& creators_offset(b) < b.len()
    &&& match creators {
        None => b[creators_offset(b)] == 0,
        Some(cs) => {
            &&& b[creators_offset(b)] == 1
            &&& creator_offset(b, cs.len() as int) <= b.len()
            &&& u32_at(b, creators_offset(b) + 1) == cs.len()
            &&& forall|i: int| #![trigger cs[i]] 0 <= i < cs.len() ==> {
                &&& cs[i].address@ == b.subrange(creator_offset(b, i), creator_offset(b, i) + 32)
                &&& b[creator_offset(b, i) + 32] == (if cs[i].verified { 1u8 } else { 0u8 })
                &&& b[creator_offset(b, i) + 33] == cs[i].share
            }
        },
    }
}

/// Decodes a metadata account with
/// `mpl_token_metadata::accounts::Metadata::from_bytes`, a Borsh decoder, and
/// keeps its mint and creators. Claimed: the result is a function of the
/// bytes alone, named [`decoded_metadata`]; and where the bytes decode, they
/// hold the mint and every creator, in order, where Borsh puts them (the
/// struct's fields in declaration order, a `u32` length before each string
/// and list, a tag byte before each option, a 0 or 1 byte for each `bool`).
/// Nothing is claimed about which byte strings decode.
#[verifier::external_body]
pub(crate) fn decode_metadata(account_data: &[u8]) -> (decoded: Option<DecodedMetadata>)
    ensures
        match decoded {
            Some(m) => decoded_metadata(account_data@) == Some(m@),
            None => decoded_metadata(account_data@) is None,
        },
        decoded matches Some(m) ==> metadata_layout(account_data@, m.mint, m@.1),
{
    let m = mpl_token_metadata::accounts::Metadata::from_bytes(account_data).ok()?;
    let creators = m.creators.map(|cs| cs.iter().map(|c|
        Creator { address: c.address.to_bytes(), verified: c.verified, share: c.share }).collect());
    Some(DecodedMetadata { mint: m.mint.to_bytes(), creators })
}

/// `creator` is a verified creator with address `collection`.
pub open spec fn is_verified_creator(creator: Creator, collection: Pubkey) -> bool {
    creator.address == collection && creator.verified
}

/// Some creator in `creators` is `collection`, verified.
pub open spec fn collection_is_proper(creators: Seq<Creator>, collection: Pubkey) -> bool {
    exists|i: int| 0 <= i < creators.len() && is_verified_creator(#[trigger] creators[i], collection)
}

/// An NFT with this metadata may be staked in the pool of `collection` under
/// mint `nft_mint`: its creators list `collection` as verified and its mint is
/// `nft_mint`.
pub open spec fn nft_accepted(metadata: (Pubkey, Option<Seq<Creator>>), nft_mint: Pubkey, collection: Pubkey) -> bool {
    match metadata.1 {
        Some(creators) => collection_is_proper(creators, collection) && metadata.0 == nft_mint,
        None => false,
    }
}

/// Tells whether `creators` lists `collection` as a verified creator.
pub fn has_verified_creator(creators: &Vec<Creator>, collection: &Pubkey) -> (found: bool)
    ensures
        found == collection_is_proper(creators@, *collection),
{
    let mut i: usize = 0;
    while i < creators.len()
        invariant
            0 <= i <= creators@.len(),
            forall|j: int| 0 <= j < i ==> !is_verified_creator(#[trigger] creators@[j], *collection),
        decreases creators@.len() - i,
    {
        let creator = &creators[i];
        if creator.verified && keys_equal(&creator.address, collection) {
            assert(is_verified_creator(creators@[i as int], *collection));
            return true;
        }
        i = i + 1;
    }
    false
}

/// Tells whether the NFT described by `metadata` may be staked as `nft_mint`
/// in the pool of `collection`.
pub fn nft_is_accepted(metadata: &DecodedMetadata, nft_mint: &Pubkey, collection: &Pubkey) -> (accepted: bool)
    ensures
        accepted == nft_accepted(metadata@, *nft_mint, *collection),
{
    match &metadata.creators {
        Some(creators) => has_verified_creator(creators, collection) && keys_equal(&metadata.mint, nft_mint),
        None => false,
    }
}


/// Where a metadata account decodes, an NFT is accepted exactly when the mint
/// bytes of the account are `nft_mint` and some creator entry in the account,
/// at any position of the list, holds the address `collection` and the
/// verified flag.
pub proof fn lemma_accepted_iff_collection_listed(
    b: Seq<u8>,
    metadata: (Pubkey, Option<Seq<Creator>>),
    nft_mint: Pubkey,
    collection: Pubkey,
)
    requires
        metadata_layout(b, metadata.0, metadata.1),
        metadata.1 is Some,
    ensures
        nft_accepted(metadata, nft_mint, collection) <==> {
            &&& b.subrange(33, 65) == nft_mint@
            &&& exists|i: int| #![trigger creator_offset(b, i)]
                0 <= i < u32_at(b, creators_offset(b) + 1)
                && b.subrange(creator_offset(b, i), creator_offset(b, i) + 32) == collection@
                && b[creator_offset(b, i) + 32] == 1
        },
{
    let cs = metadata.1->0;
    if nft_accepted(metadata, nft_mint, collection) {
        let i = choose|i: int| 0 <= i < cs.len() && is_verified_creator(#[trigger] cs[i], collection);
        assert(cs[i].address@ == collection@);
        assert(b.subrange(creator_offset(b, i), creator_offset(b, i) + 32) == collection@);
    }
    if b.subrange(33, 65) == nft_mint@ && exists|i: int| #![trigger creator_offset(b, i)]
        0 <= i < u32_at(b, creators_offset(b) + 1)
        && b.subrange(creator_offset(b, i), creator_offset(b, i) + 32) == collection@
        && b[creator_offset(b, i) + 32] == 1 {
        let i = choose|i: int| #![trigger creator_offset(b, i)]
            0 <= i < u32_at(b, creators_offset(b) + 1)
            && b.subrange(creator_offset(b, i), creator_offset(b, i) + 32) == collection@
            && b[creator_offset(b, i) + 32] == 1;
        let c = cs[i];
        assert(c.address@ == collection@);
        assert(c.address =~= collection);
        assert(metadata.0 =~= nft_mint);
        assert(is_verified_creator(c, collection));
    }
}

} // verus!
