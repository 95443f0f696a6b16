use vstd::prelude::*;

verus! {

/// A request to mint a token backed by already-hosted content.
pub struct MintNftRequest {
    pub name: String,
    pub symbol: String,
    pub uri: String,
    pub creator_pubkey: String,
    pub signature: String,
    pub message: String,
}

/// A request to generate content from a prompt and mint a token backed by
/// it.
pub struct GenerateAndMintNftRequest {
    pub name: String,
    pub symbol: String,
    pub prompt: String,
    pub style: Option<String>,
    pub creator_pubkey: String,
    pub signature: String,
    pub message: String,
}

/// The success payload of a mint flow.
pub struct MintNftResponse {
    pub nft_address: String,
    pub transaction_signature: String,
}

/// A request to list a token for sale at a price in the smallest unit of
/// native currency.
pub struct ListNftRequest {
    pub nft_address: String,
    pub price: u64,
    pub seller_pubkey: String,
}

/// A request to settle a sale against an existing listing.
pub struct BuyNftRequest {
    pub listing_address: String,
    pub nft_address: String,
    pub buyer_pubkey: String,
}

/// A request to create a collection grouping several tokens.
pub struct CreateCollectionRequest {
    pub name: String,
    pub symbol: String,
    pub uri: String,
    pub creator_pubkey: String,
}

/// A request for the details of one token.
pub struct NftDetailsRequest {
    pub mint_address: String,
}

/// A request for a wallet's native-currency balance.
pub struct WalletBalanceRequest {
    pub wallet_address: String,
}

/// A request for the tokens a wallet owns.
pub struct WalletNftsRequest {
    pub wallet_address: String,
}

/// The lamport costs that a mint flow incurs.
pub struct FeeBreakdown {
    pub mint_rent: u64,
    pub transaction_fee: u64,
    pub total: u64,
}

} // verus!
