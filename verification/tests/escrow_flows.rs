use nft_marketplace::addr::Address;
use nft_marketplace::errors::MarketError;
use nft_marketplace::escrow::{apply_buy, apply_list};
use nft_marketplace::flows::{plan_buy, plan_buy_request, plan_list, plan_list_request};
use nft_marketplace::listing::Listing;
use nft_marketplace::requests::{BuyNftRequest, ListNftRequest};

fn addr(byte: u8) -> Address {
    Address { bytes: vec![byte; 32] }
}

fn listing_image(mint: &Address, seller: &Address, price: u64, active: u8) -> Vec<u8> {
    let mut data = vec![0u8; 8];
    data.extend_from_slice(&mint.bytes);
    data.extend_from_slice(&seller.bytes);
    data.extend_from_slice(&price.to_le_bytes());
    data.push(active);
    data
}

#[test]
fn list_creates_active_listing_and_escrows_the_token() {
    let mint = addr(1);
    let seller = addr(2);
    let outcome = apply_list(None, &mint, &seller, 2_000_000_000, 1, 0).unwrap();
    assert!(outcome.listing.is_active);
    assert_eq!(outcome.listing.nft_mint.bytes, mint.bytes);
    assert_eq!(outcome.listing.seller.bytes, seller.bytes);
    assert_eq!(outcome.listing.price, 2_000_000_000);
    assert_eq!(outcome.seller_tokens, 0);
    assert_eq!(outcome.escrow_tokens, 1);
}

#[test]
fn list_rejects_an_existing_listing_and_a_tokenless_seller() {
    let mint = addr(1);
    let seller = addr(2);
    let existing = Listing {
        nft_mint: addr(1),
        seller: addr(2),
        price: 5,
        is_active: true,
    };
    assert_eq!(
        apply_list(Some(&existing), &mint, &seller, 5, 1, 0).unwrap_err(),
        MarketError::StateViolation
    );
    assert_eq!(
        apply_list(None, &mint, &seller, 5, 0, 0).unwrap_err(),
        MarketError::StateViolation
    );
}

#[test]
fn buy_settles_atomically() {
    let mint = addr(1);
    let seller = addr(2);
    let listed = apply_list(None, &mint, &seller, 2_000_000_000, 1, 0).unwrap();

    let outcome = apply_buy(&listed.listing, 3_000_000_000, 50, listed.escrow_tokens, 0).unwrap();
    assert_eq!(outcome.buyer_lamports, 1_000_000_000);
    assert_eq!(outcome.seller_lamports, 2_000_000_050);
    assert_eq!(outcome.escrow_tokens, 0);
    assert_eq!(outcome.buyer_tokens, 1);
    assert!(!outcome.listing.is_active);
}

#[test]
fn second_buy_against_settled_listing_is_rejected() {
    let mint = addr(1);
    let seller = addr(2);
    let listed = apply_list(None, &mint, &seller, 2_000_000_000, 1, 0).unwrap();
    let settled = apply_buy(&listed.listing, 3_000_000_000, 50, 1, 0).unwrap();

    assert_eq!(
        apply_buy(&settled.listing, 3_000_000_000, 50, settled.escrow_tokens, 0).unwrap_err(),
        MarketError::StateViolation
    );
}

#[test]
fn buy_rejects_a_poor_buyer() {
    let mint = addr(1);
    let seller = addr(2);
    let listed = apply_list(None, &mint, &seller, 2_000_000_000, 1, 0).unwrap();
    assert_eq!(
        apply_buy(&listed.listing, 1_999_999_999, 0, 1, 0).unwrap_err(),
        MarketError::StateViolation
    );
}

#[test]
fn list_plan_builds_the_exact_instruction() {
    let mint = addr(1);
    let seller = addr(2);
    let plan = plan_list(&mint, &seller, 2_000_000_000).unwrap();

    let ix = &plan.instruction;
    assert_eq!(
        ix.program.to_base58(),
        "Fg6PaFpoGXkYsidMpWTK6W2BeZ7FEfcYkg476zPFsLnS"
    );
    let mut expected_data = vec![1u8];
    expected_data.extend_from_slice(&2_000_000_000u64.to_le_bytes());
    assert_eq!(ix.data, expected_data);

    assert_eq!(ix.accounts.len(), 9);
    assert_eq!(ix.accounts[0].address.bytes, plan.listing.bytes);
    assert!(ix.accounts[0].is_writable && !ix.accounts[0].is_signer);
    assert_eq!(ix.accounts[1].address.bytes, mint.bytes);
    assert!(!ix.accounts[1].is_writable);
    assert_eq!(ix.accounts[2].address.bytes, plan.seller_token.bytes);
    assert_eq!(ix.accounts[3].address.bytes, plan.escrow_token.bytes);
    assert_eq!(ix.accounts[4].address.bytes, seller.bytes);
    assert!(ix.accounts[4].is_signer && ix.accounts[4].is_writable);
    assert_eq!(
        ix.accounts[5].address.to_base58(),
        "TokenkegQfeZyiNwAJbNbGKPFXCWuBvf9Ss623VQ5DA"
    );
    assert_eq!(
        ix.accounts[6].address.to_base58(),
        "ATokenGPvbdGVxr1b2hvZbsiqW5xWH25efTNsLJA8knL"
    );
    assert_eq!(
        ix.accounts[7].address.to_base58(),
        "11111111111111111111111111111111"
    );
    assert_eq!(
        ix.accounts[8].address.to_base58(),
        "SysvarRent111111111111111111111111111111111"
    );

    // The escrow token account belongs to the listing, not to the seller.
    let l = solana_sdk::pubkey::Pubkey::try_from(plan.listing.bytes.as_slice()).unwrap();
    let m = solana_sdk::pubkey::Pubkey::try_from(mint.bytes.as_slice()).unwrap();
    let escrow = spl_associated_token_account::get_associated_token_address(&l, &m);
    assert_eq!(plan.escrow_token.bytes, escrow.to_bytes().to_vec());
}

#[test]
fn list_request_parses_wire_addresses() {
    let mint = addr(1);
    let seller = addr(2);
    let req = ListNftRequest {
        nft_address: mint.to_base58(),
        price: 2_000_000_000,
        seller_pubkey: seller.to_base58(),
    };
    let plan = plan_list_request(&req).unwrap();
    assert_eq!(plan.instruction.accounts[1].address.bytes, mint.bytes);

    let bad = ListNftRequest {
        nft_address: "bogus0OIl".to_string(),
        price: 1,
        seller_pubkey: seller.to_base58(),
    };
    assert_eq!(plan_list_request(&bad).unwrap_err(), MarketError::InvalidInput);
}

#[test]
fn buy_plan_builds_the_exact_instruction() {
    let mint = addr(1);
    let seller = addr(2);
    let buyer = addr(3);
    let listing_address = addr(4);
    let data = listing_image(&mint, &seller, 2_000_000_000, 1);

    let plan = plan_buy(&listing_address, &buyer, &data).unwrap();
    assert_eq!(plan.listing_state.price, 2_000_000_000);
    assert!(plan.listing_state.is_active);

    let ix = &plan.instruction;
    assert_eq!(
        ix.program.to_base58(),
        "Fg6PaFpoGXkYsidMpWTK6W2BeZ7FEfcYkg476zPFsLnS"
    );
    assert_eq!(ix.data, vec![2u8]);
    assert_eq!(ix.accounts.len(), 9);
    assert_eq!(ix.accounts[0].address.bytes, listing_address.bytes);
    assert_eq!(ix.accounts[1].address.bytes, mint.bytes);
    assert_eq!(ix.accounts[2].address.bytes, plan.escrow_token.bytes);
    assert_eq!(ix.accounts[3].address.bytes, plan.buyer_token.bytes);
    assert_eq!(ix.accounts[4].address.bytes, seller.bytes);
    assert!(!ix.accounts[4].is_signer && ix.accounts[4].is_writable);
    assert_eq!(ix.accounts[5].address.bytes, buyer.bytes);
    assert!(ix.accounts[5].is_signer && ix.accounts[5].is_writable);
}

#[test]
fn buy_against_inactive_listing_fails_with_state_violation() {
    let data = listing_image(&addr(1), &addr(2), 2_000_000_000, 0);
    assert_eq!(
        plan_buy(&addr(4), &addr(3), &data).unwrap_err(),
        MarketError::StateViolation
    );
}

#[test]
fn buy_against_short_account_fails_with_state_violation() {
    let mut data = listing_image(&addr(1), &addr(2), 2_000_000_000, 1);
    data.truncate(80);
    assert_eq!(
        plan_buy(&addr(4), &addr(3), &data).unwrap_err(),
        MarketError::StateViolation
    );
}

#[test]
fn buy_request_distinguishes_input_and_state_errors() {
    let mint = addr(1);
    let seller = addr(2);
    let buyer = addr(3);
    let listing_address = addr(4);
    let active = listing_image(&mint, &seller, 7, 1);
    let inactive = listing_image(&mint, &seller, 7, 0);

    let ok = BuyNftRequest {
        listing_address: listing_address.to_base58(),
        nft_address: mint.to_base58(),
        buyer_pubkey: buyer.to_base58(),
    };
    assert!(plan_buy_request(&ok, &active).is_ok());
    assert_eq!(
        plan_buy_request(&ok, &inactive).unwrap_err(),
        MarketError::StateViolation
    );

    let bad = BuyNftRequest {
        listing_address: "x0OIl".to_string(),
        nft_address: mint.to_base58(),
        buyer_pubkey: buyer.to_base58(),
    };
    assert_eq!(
        plan_buy_request(&bad, &active).unwrap_err(),
        MarketError::InvalidInput
    );
}
