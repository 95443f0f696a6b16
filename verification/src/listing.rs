use vstd::prelude::*;

use vstd::bytes::{spec_u64_from_le_bytes, spec_u64_to_le_bytes};

use crate::addr::Address;
use crate::codec::{copy_range, decode_price, encode_price, push_all};
use crate::errors::MarketError;

verus! {

/// Total size of a listing account: an 8-byte discriminator, the 32-byte
/// mint, the 32-byte seller, the 8-byte little-endian price, and one byte
/// for the active flag.
pub const LISTING_ACCOUNT_LEN: usize = 81;

/// Offset of the mint reference, just past the discriminator.
pub const LISTING_MINT_OFFSET: usize = 8;

/// Offset of the seller reference.
pub const LISTING_SELLER_OFFSET: usize = 40;

/// Offset of the little-endian price.
pub const LISTING_PRICE_OFFSET: usize = 72;

/// Offset of the single active-flag byte.
pub const LISTING_ACTIVE_OFFSET: usize = 80;

/// The escrow program's record of one sale offer: the mint it concerns and
/// its seller (both immutable after creation), the asked price in the
/// smallest unit of native currency, and whether the offer is still open.
#[derive(Debug)]
pub struct Listing {
    pub nft_mint: Address,
    pub seller: Address,
    pub price: u64,
    pub is_active: bool,
}

impl Listing {
    pub open spec fn wf(&self) -> bool {
        &&& self.nft_mint.wf()
        &&& self.seller.wf()
    }
}

/// The mint bytes of a listing account image.
pub open spec fn spec_listing_mint(data: Seq<u8>) -> Seq<u8> {
    data.subrange(LISTING_MINT_OFFSET as int, LISTING_SELLER_OFFSET as int)
}

/// The seller bytes of a listing account image.
pub open spec fn spec_listing_seller(data: Seq<u8>) -> Seq<u8> {
    data.subrange(LISTING_SELLER_OFFSET as int, LISTING_PRICE_OFFSET as int)
}

/// The price of a listing account image.
pub open spec fn spec_listing_price(data: Seq<u8>) -> u64 {
    spec_u64_from_le_bytes(
        data.subrange(LISTING_PRICE_OFFSET as int, LISTING_ACTIVE_OFFSET as int),
    )
}

/// The active flag of a listing account image: any non-zero byte is active.
pub open spec fn spec_listing_active(data: Seq<u8>) -> bool {
    data[LISTING_ACTIVE_OFFSET as int] != 0
}

/// The 81-byte account image a listing persists as: the program's 8-byte
/// account discriminator, then mint, seller, little-endian price, and the
/// active flag as one byte.
pub open spec fn spec_encode_listing(discriminator: Seq<u8>, l: Listing) -> Seq<u8> {
    discriminator + l.nft_mint@ + l.seller@ + spec_u64_to_le_bytes(l.price) + seq![
        if l.is_active {
            1u8
        } else {
            0u8
        },
    ]
}

/// Writes a listing as the exact account image the escrow program persists,
/// under the given 8-byte account discriminator.
pub fn encode_listing(discriminator: &[u8], l: &Listing) -> (r: Vec<u8>)
    requires
        discriminator@.len() == 8,
        l.wf(),
    ensures
        r@ == spec_encode_listing(discriminator@, *l),
        r@.len() == LISTING_ACCOUNT_LEN,
{
    let mut out: Vec<u8> = Vec::new();
    push_all(&mut out, discriminator);
    push_all(&mut out, l.nft_mint.bytes.as_slice());
    push_all(&mut out, l.seller.bytes.as_slice());
    let price_bytes = encode_price(l.price);
    push_all(&mut out, price_bytes.as_slice());
    out.push(if l.is_active { 1u8 } else { 0u8 });
    assert(out@ =~= spec_encode_listing(discriminator@, *l));
    out
}

/// The account layout round-trips: every field decoded back out of a
/// listing's encoded image is the field that was written, whatever the
/// discriminator. This ties the state the escrow machine maintains to the
/// bytes the buy flow later reads from the ledger.
pub proof fn lemma_listing_image_round_trip(discriminator: Seq<u8>, l: Listing)
    requires
        discriminator.len() == 8,
        l.wf(),
    ensures
        spec_encode_listing(discriminator, l).len() == LISTING_ACCOUNT_LEN,
        spec_listing_mint(spec_encode_listing(discriminator, l)) == l.nft_mint@,
        spec_listing_seller(spec_encode_listing(discriminator, l)) == l.seller@,
        spec_listing_price(spec_encode_listing(discriminator, l)) == l.price,
        spec_listing_active(spec_encode_listing(discriminator, l)) == l.is_active,
{
    vstd::bytes::lemma_auto_spec_u64_to_from_le_bytes();
    let img = spec_encode_listing(discriminator, l);
    assert(spec_listing_mint(img) =~= l.nft_mint@);
    assert(spec_listing_seller(img) =~= l.seller@);
    assert(img.subrange(LISTING_PRICE_OFFSET as int, LISTING_ACTIVE_OFFSET as int)
        =~= spec_u64_to_le_bytes(l.price));
}

/// Decodes a raw listing account image against the fixed 81-byte layout.
/// Anything shorter than the full layout is malformed (uninitialized or
/// foreign) and is rejected before any field is parsed.
pub fn decode_listing(data: &[u8]) -> (r: Result<Listing, MarketError>)
    ensures
        match r {
            Ok(l) => {
                &&& data@.len() >= LISTING_ACCOUNT_LEN
                &&& l.wf()
                &&& l.nft_mint@ == spec_listing_mint(data@)
                &&& l.seller@ == spec_listing_seller(data@)
                &&& l.price == spec_listing_price(data@)
                &&& l.is_active == spec_listing_active(data@)
            },
            Err(e) => {
                &&& e == MarketError::StateViolation
                &&& data@.len() < LISTING_ACCOUNT_LEN
            },
        },
{
    if data.len() < LISTING_ACCOUNT_LEN {
        return Err(MarketError::StateViolation);
    }
    let nft_mint = Address { bytes: copy_range(data, LISTING_MINT_OFFSET, LISTING_SELLER_OFFSET) };
    let seller = Address {
        bytes: copy_range(data, LISTING_SELLER_OFFSET, LISTING_PRICE_OFFSET),
    };
    let price_bytes = copy_range(data, LISTING_PRICE_OFFSET, LISTING_ACTIVE_OFFSET);
    let price = decode_price(price_bytes.as_slice());
    let is_active = data[LISTING_ACTIVE_OFFSET] != 0;
    Ok(Listing { nft_mint, seller, price, is_active })
}

} // verus!
