use vstd::prelude::*;

use crate::requests::FeeBreakdown;

verus! {

/// A gateway request for generated images.
pub struct GenerateImageRequest {
    pub prompt: String,
    pub style: Option<String>,
    pub count: Option<u32>,
}

/// The gateway's answer to an image generation request.
pub struct GenerateImageResponse {
    pub images: Vec<GeneratedImage>,
    pub request_id: String,
}

/// One generated image.
pub struct GeneratedImage {
    pub id: String,
    pub url: String,
    pub prompt: String,
    pub style: Option<String>,
    pub created_at: String,
}

/// A gateway request to mint a token backed by a hosted image.
pub struct MintNftRequest {
    pub name: String,
    pub symbol: String,
    pub description: Option<String>,
    pub image_url: String,
    pub attributes: Option<Vec<NftAttribute>>,
    pub creator_address: String,
    pub signature: String,
    pub message: String,
}

/// One displayed attribute of a token.
pub struct NftAttribute {
    pub trait_type: String,
    pub value: String,
}

/// The gateway's answer to a mint request.
pub struct MintNftResponse {
    pub nft_address: String,
    pub transaction_signature: String,
    pub image_short_url: String,
    pub metadata_url: String,
    pub fee_breakdown: FeeBreakdown,
    pub minted_at: String,
}

/// A gateway request for the tokens a wallet owns.
pub struct GetWalletNftsRequest {
    pub wallet_address: String,
    pub limit: Option<u32>,
    pub offset: Option<u32>,
}

/// The gateway's answer listing a wallet's tokens.
pub struct GetWalletNftsResponse {
    pub nfts: Vec<NftInfo>,
    pub total_count: u32,
    pub limit: u32,
    pub offset: u32,
}

/// One token as the gateway presents it.
pub struct NftInfo {
    pub address: String,
    pub name: String,
    pub symbol: String,
    pub image_url: String,
    pub metadata_url: String,
    pub owner: String,
    pub created_at: Option<String>,
}

/// A gateway request to list a token for sale.
pub struct ListNftRequest {
    pub nft_address: String,
    pub price: u64,
    pub seller_address: String,
    pub signature: String,
    pub message: String,
}

/// The gateway's answer to a list request.
pub struct ListNftResponse {
    pub listing_address: String,
    pub transaction_signature: String,
    pub listed_at: String,
}

/// A gateway request for open listings.
pub struct GetListingsRequest {
    pub limit: Option<u32>,
    pub offset: Option<u32>,
    pub sort_by: Option<String>,
}

/// The gateway's answer listing open sale offers.
pub struct GetListingsResponse {
    pub listings: Vec<NftListing>,
    pub total_count: u32,
    pub limit: u32,
    pub offset: u32,
}

/// One open sale offer as the gateway presents it.
pub struct NftListing {
    pub listing_address: String,
    pub nft_address: String,
    pub name: String,
    pub image_url: String,
    pub price: u64,
    pub seller: String,
    pub listed_at: String,
}

/// Estimated costs of the three flows.
pub struct FeeEstimateResponse {
    pub mint_fee: FeeBreakdown,
    pub list_fee: u64,
    pub buy_fee: u64,
}

/// The gateway's liveness answer.
pub struct HealthResponse {
    pub status: String,
    pub timestamp: String,
    pub version: String,
}

} // verus!
