use vstd::prelude::*;

use crate::addr::Address;
use crate::errors::MarketError;
use crate::listing::Listing;

verus! {

/// The balances a list transition touches: the listing it creates, the
/// seller's token account, and the escrow token account.
#[derive(Debug)]
pub struct ListOutcome {
    pub listing: Listing,
    pub seller_tokens: u64,
    pub escrow_tokens: u64,
}

/// The balances a buy transition touches atomically: the settled listing,
/// the native-currency balances of buyer and seller, and the token balances
/// of the escrow and the buyer.
#[derive(Debug)]
pub struct BuyOutcome {
    pub listing: Listing,
    pub buyer_lamports: u64,
    pub seller_lamports: u64,
    pub escrow_tokens: u64,
    pub buyer_tokens: u64,
}

/// Guard of the list transition: no listing may exist yet for the mint, and
/// the seller must hold the token being escrowed.
pub open spec fn spec_list_allowed(existing: Option<Listing>, seller_tokens: u64) -> bool {
    existing is None && seller_tokens >= 1
}

/// Effect of the list transition: an active listing carrying the mint, the
/// seller and the price, with the one token moved from seller to escrow.
pub open spec fn spec_list_transition(
    mint: Seq<u8>,
    seller: Seq<u8>,
    price: u64,
    seller_tokens: u64,
    escrow_tokens: u64,
    o: ListOutcome,
) -> bool {
    &&& o.listing.nft_mint@ == mint
    &&& o.listing.seller@ == seller
    &&& o.listing.price == price
    &&& o.listing.is_active
    &&& o.seller_tokens == seller_tokens - 1
    &&& o.escrow_tokens == escrow_tokens + 1
}

/// Guard of the buy transition: the listing is still open, the buyer can
/// pay, and the escrow still holds the token.
pub open spec fn spec_buy_allowed(listing: Listing, buyer_lamports: u64, escrow_tokens: u64) -> bool {
    listing.is_active && buyer_lamports >= listing.price && escrow_tokens >= 1
}

/// Effect of the buy transition: the price moves from buyer to seller, the
/// token moves from escrow to buyer, and the listing closes — all in one
/// step, so a partial swap cannot be expressed at all.
pub open spec fn spec_buy_transition(
    listing: Listing,
    buyer_lamports: u64,
    seller_lamports: u64,
    escrow_tokens: u64,
    buyer_tokens: u64,
    o: BuyOutcome,
) -> bool {
    &&& o.listing.nft_mint@ == listing.nft_mint@
    &&& o.listing.seller@ == listing.seller@
    &&& o.listing.price == listing.price
    &&& !o.listing.is_active
    &&& o.buyer_lamports == buyer_lamports - listing.price
    &&& o.seller_lamports == seller_lamports + listing.price
    &&& o.escrow_tokens == escrow_tokens - 1
    &&& o.buyer_tokens == buyer_tokens + 1
}

/// The list transition of the escrow state machine: from no listing for the
/// mint to an active one holding the token in escrow. A mint that already
/// has a listing is rejected whole — an active listing is never overwritten
/// and a sold one is never re-listed — as is a seller who does not hold the
/// token.
pub fn apply_list(
    existing: Option<&Listing>,
    mint: &Address,
    seller: &Address,
    price: u64,
    seller_tokens: u64,
    escrow_tokens: u64,
) -> (r: Result<ListOutcome, MarketError>)
    requires
        mint.wf(),
        seller.wf(),
        escrow_tokens < u64::MAX,
    ensures
        match r {
            Ok(o) => {
                &&& spec_list_allowed(
                    match existing {
                        Some(l) => Some(*l),
                        None => None,
                    },
                    seller_tokens,
                )
                &&& o.listing.wf()
                &&& spec_list_transition(
                    mint@,
                    seller@,
                    price,
                    seller_tokens,
                    escrow_tokens,
                    o,
                )
            },
            Err(e) => {
                &&& e == MarketError::StateViolation
                &&& !spec_list_allowed(
                    match existing {
                        Some(l) => Some(*l),
                        None => None,
                    },
                    seller_tokens,
                )
            },
        },
{
    if existing.is_some() {
        return Err(MarketError::StateViolation);
    }
    if seller_tokens < 1 {
        return Err(MarketError::StateViolation);
    }
    let listing = Listing {
        nft_mint: mint.clone(),
        seller: seller.clone(),
        price,
        is_active: true,
    };
    Ok(ListOutcome { listing, seller_tokens: seller_tokens - 1, escrow_tokens: escrow_tokens + 1 })
}

/// The buy transition of the escrow state machine. A listing that is not
/// active fails with a state violation — never a silent success — as does a
/// buyer who cannot pay or an escrow that no longer holds the token; on
/// success the swap happens whole.
pub fn apply_buy(
    listing: &Listing,
    buyer_lamports: u64,
    seller_lamports: u64,
    escrow_tokens: u64,
    buyer_tokens: u64,
) -> (r: Result<BuyOutcome, MarketError>)
    requires
        listing.wf(),
        seller_lamports + listing.price <= u64::MAX,
        buyer_tokens < u64::MAX,
    ensures
        match r {
            Ok(o) => {
                &&& spec_buy_allowed(*listing, buyer_lamports, escrow_tokens)
                &&& o.listing.wf()
                &&& spec_buy_transition(
                    *listing,
                    buyer_lamports,
                    seller_lamports,
                    escrow_tokens,
                    buyer_tokens,
                    o,
                )
            },
            Err(e) => {
                &&& e == MarketError::StateViolation
                &&& !spec_buy_allowed(*listing, buyer_lamports, escrow_tokens)
            },
        },
{
    if !listing.is_active {
        return Err(MarketError::StateViolation);
    }
    if buyer_lamports < listing.price {
        return Err(MarketError::StateViolation);
    }
    if escrow_tokens < 1 {
        return Err(MarketError::StateViolation);
    }
    let settled = Listing {
        nft_mint: listing.nft_mint.clone(),
        seller: listing.seller.clone(),
        price: listing.price,
        is_active: false,
    };
    Ok(BuyOutcome {
        listing: settled,
        buyer_lamports: buyer_lamports - listing.price,
        seller_lamports: seller_lamports + listing.price,
        escrow_tokens: escrow_tokens - 1,
        buyer_tokens: buyer_tokens + 1,
    })
}

/// A settled sale conserves value: across any buy transition the sum of the
/// buyer's and seller's native balances is unchanged, and so is the sum of
/// the escrow's and buyer's token balances.
pub proof fn lemma_buy_conserves_balances(
    listing: Listing,
    buyer_lamports: u64,
    seller_lamports: u64,
    escrow_tokens: u64,
    buyer_tokens: u64,
    o: BuyOutcome,
)
    requires
        spec_buy_allowed(listing, buyer_lamports, escrow_tokens),
        spec_buy_transition(
            listing,
            buyer_lamports,
            seller_lamports,
            escrow_tokens,
            buyer_tokens,
            o,
        ),
    ensures
        o.buyer_lamports + o.seller_lamports == buyer_lamports + seller_lamports,
        o.escrow_tokens + o.buyer_tokens == escrow_tokens + buyer_tokens,
{
}

/// A sold listing stays sold: every outcome of the buy transition has its
/// active flag down, and the transition's guard refuses such a listing, so
/// no second buy can be accepted against it.
pub proof fn lemma_no_double_sale(
    listing: Listing,
    buyer_lamports: u64,
    seller_lamports: u64,
    escrow_tokens: u64,
    buyer_tokens: u64,
    o: BuyOutcome,
    later_lamports: u64,
    later_escrow_tokens: u64,
)
    requires
        spec_buy_transition(
            listing,
            buyer_lamports,
            seller_lamports,
            escrow_tokens,
            buyer_tokens,
            o,
        ),
    ensures
        !spec_buy_allowed(o.listing, later_lamports, later_escrow_tokens),
{
}

} // verus!
