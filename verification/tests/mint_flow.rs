use ed25519_dalek::{ExpandedSecretKey, PublicKey, SecretKey};

use nft_marketplace::addr::Address;
use nft_marketplace::errors::MarketError;
use nft_marketplace::flows::{check_mint_inputs, plan_mint, plan_mint_request, MINT_ACCOUNT_SPACE};
use nft_marketplace::requests::MintNftRequest;

fn addr(byte: u8) -> Address {
    Address { bytes: vec![byte; 32] }
}

const TOKEN_ID: &str = "TokenkegQfeZyiNwAJbNbGKPFXCWuBvf9Ss623VQ5DA";
const MPL_ID: &str = "metaqbxxUerdq28cj1RbAWkYQm3ybzjb6a8bt518x1s";

#[test]
fn mint_plan_builds_exactly_six_instructions() {
    let payer = addr(20);
    let creator = addr(21);
    let mint = addr(22);
    let plan = plan_mint(
        &payer,
        &creator,
        &mint,
        1_461_600,
        &"Art#1".to_string(),
        &"ART".to_string(),
        &"https://x/1.png".to_string(),
    )
    .unwrap();
    assert_eq!(plan.instructions.len(), 6);
    assert_eq!(plan.mint.bytes, mint.bytes);
}

#[test]
fn mint_plan_create_account_matches_the_wire_layout() {
    let plan = plan_mint(
        &addr(20),
        &addr(21),
        &addr(22),
        1_461_600,
        &"Art#1".to_string(),
        &"ART".to_string(),
        &"https://x/1.png".to_string(),
    )
    .unwrap();
    let ix = &plan.instructions[0];
    assert_eq!(ix.program.to_base58(), "11111111111111111111111111111111");
    assert_eq!(ix.accounts.len(), 2);
    assert_eq!(ix.accounts[0].address.bytes, addr(20).bytes);
    assert!(ix.accounts[0].is_signer && ix.accounts[0].is_writable);
    assert_eq!(ix.accounts[1].address.bytes, addr(22).bytes);
    assert!(ix.accounts[1].is_signer && ix.accounts[1].is_writable);

    let mut expected = vec![0u8, 0, 0, 0];
    expected.extend_from_slice(&1_461_600u64.to_le_bytes());
    expected.extend_from_slice(&MINT_ACCOUNT_SPACE.to_le_bytes());
    expected.extend_from_slice(&bs58::decode(TOKEN_ID).into_vec().unwrap());
    assert_eq!(ix.data, expected);
}

#[test]
fn mint_plan_initialize_mint_matches_the_wire_layout() {
    let payer = addr(20);
    let plan = plan_mint(
        &payer,
        &addr(21),
        &addr(22),
        1_461_600,
        &"Art#1".to_string(),
        &"ART".to_string(),
        &"https://x/1.png".to_string(),
    )
    .unwrap();
    let ix = &plan.instructions[1];
    assert_eq!(ix.program.to_base58(), TOKEN_ID);
    assert_eq!(ix.accounts.len(), 2);
    assert_eq!(ix.accounts[0].address.bytes, addr(22).bytes);
    assert_eq!(
        ix.accounts[1].address.to_base58(),
        "SysvarRent111111111111111111111111111111111"
    );

    // Tag 0, zero decimals, mint authority, present freeze authority.
    let mut expected = vec![0u8, 0];
    expected.extend_from_slice(&payer.bytes);
    expected.push(1);
    expected.extend_from_slice(&payer.bytes);
    assert_eq!(ix.data, expected);
}

#[test]
fn mint_plan_creates_the_creators_associated_account_and_mints_one_unit() {
    let creator = addr(21);
    let mint = addr(22);
    let plan = plan_mint(
        &addr(20),
        &creator,
        &mint,
        1_461_600,
        &"Art#1".to_string(),
        &"ART".to_string(),
        &"https://x/1.png".to_string(),
    )
    .unwrap();

    let c = solana_sdk::pubkey::Pubkey::try_from(creator.bytes.as_slice()).unwrap();
    let m = solana_sdk::pubkey::Pubkey::try_from(mint.bytes.as_slice()).unwrap();
    let ata = spl_associated_token_account::get_associated_token_address(&c, &m);

    let create_ata = &plan.instructions[2];
    assert_eq!(
        create_ata.program.to_base58(),
        "ATokenGPvbdGVxr1b2hvZbsiqW5xWH25efTNsLJA8knL"
    );
    assert_eq!(create_ata.accounts.len(), 6);
    assert_eq!(create_ata.accounts[1].address.bytes, ata.to_bytes().to_vec());
    assert_eq!(create_ata.data, vec![0u8]);

    // Supply becomes exactly 1: tag 7, amount 1.
    let mint_to = &plan.instructions[3];
    assert_eq!(mint_to.program.to_base58(), TOKEN_ID);
    assert_eq!(mint_to.data, vec![7u8, 1, 0, 0, 0, 0, 0, 0, 0]);
    assert_eq!(mint_to.accounts.len(), 3);
    assert_eq!(mint_to.accounts[1].address.bytes, ata.to_bytes().to_vec());
    assert_eq!(plan.token_account.bytes, ata.to_bytes().to_vec());
}

#[test]
fn mint_plan_metadata_payload_carries_the_name() {
    let plan = plan_mint(
        &addr(20),
        &addr(21),
        &addr(22),
        1_461_600,
        &"Art#1".to_string(),
        &"ART".to_string(),
        &"https://x/1.png".to_string(),
    )
    .unwrap();
    let ix = &plan.instructions[4];
    assert_eq!(ix.program.to_base58(), MPL_ID);
    assert_eq!(ix.accounts.len(), 7);
    assert_eq!(ix.accounts[0].address.bytes, plan.metadata.bytes);

    let mut expected = vec![33u8];
    expected.extend_from_slice(&5u32.to_le_bytes());
    expected.extend_from_slice(b"Art#1");
    expected.extend_from_slice(&3u32.to_le_bytes());
    expected.extend_from_slice(b"ART");
    expected.extend_from_slice(&15u32.to_le_bytes());
    expected.extend_from_slice(b"https://x/1.png");
    expected.extend_from_slice(&0u16.to_le_bytes()); // no royalties
    expected.extend_from_slice(&[0, 0, 0]); // no creators, collection, uses
    expected.push(1); // mutable
    expected.push(0); // no collection details
    assert_eq!(ix.data, expected);
}

#[test]
fn mint_plan_master_edition_proves_non_fungibility() {
    let plan = plan_mint(
        &addr(20),
        &addr(21),
        &addr(22),
        1_461_600,
        &"Art#1".to_string(),
        &"ART".to_string(),
        &"https://x/1.png".to_string(),
    )
    .unwrap();
    let ix = &plan.instructions[5];
    assert_eq!(ix.program.to_base58(), MPL_ID);
    assert_eq!(ix.accounts.len(), 9);
    assert_eq!(ix.accounts[0].address.bytes, plan.master_edition.bytes);
    assert_eq!(ix.accounts[5].address.bytes, plan.metadata.bytes);

    // Discriminator 17, maximum supply present and zero.
    assert_eq!(ix.data, vec![17u8, 1, 0, 0, 0, 0, 0, 0, 0, 0]);
}

#[test]
fn mint_input_validation_rejects_each_bad_field() {
    let ok = |s: &str| s.to_string();
    assert!(check_mint_inputs(&ok("Art#1"), &ok("ART"), &ok("u")).is_ok());
    assert_eq!(
        check_mint_inputs(&ok(""), &ok("ART"), &ok("u")).unwrap_err(),
        MarketError::InvalidInput
    );
    assert_eq!(
        check_mint_inputs(&ok("123456789012345678901234567890123"), &ok("ART"), &ok("u"))
            .unwrap_err(),
        MarketError::InvalidInput
    );
    assert!(check_mint_inputs(&ok("12345678901234567890123456789012"), &ok("ART"), &ok("u"))
        .is_ok());
    assert_eq!(
        check_mint_inputs(&ok("Art#1"), &ok(""), &ok("u")).unwrap_err(),
        MarketError::InvalidInput
    );
    assert_eq!(
        check_mint_inputs(&ok("Art#1"), &ok("12345678901"), &ok("u")).unwrap_err(),
        MarketError::InvalidInput
    );
    assert_eq!(
        check_mint_inputs(&ok("Art#1"), &ok("ART"), &ok("")).unwrap_err(),
        MarketError::InvalidInput
    );
}

fn signed_request(tamper: bool) -> MintNftRequest {
    let secret = SecretKey::from_bytes(&[9u8; 32]).unwrap();
    let public = PublicKey::from(&secret);
    let message = "mint Art#1 for me";
    let expanded: ExpandedSecretKey = (&secret).into();
    let signature = expanded.sign(message.as_bytes(), &public);
    MintNftRequest {
        name: "Art#1".to_string(),
        symbol: "ART".to_string(),
        uri: "https://x/1.png".to_string(),
        creator_pubkey: bs58::encode(public.to_bytes()).into_string(),
        signature: bs58::encode(signature.to_bytes()).into_string(),
        message: if tamper { "mint Art#2 for me".to_string() } else { message.to_string() },
    }
}

#[test]
fn mint_request_with_valid_signature_is_planned() {
    let req = signed_request(false);
    let plan = plan_mint_request(&req, &addr(20), &addr(22), 1_461_600, false).unwrap();
    assert_eq!(plan.instructions.len(), 6);
}

#[test]
fn mint_request_with_tampered_message_is_rejected() {
    let req = signed_request(true);
    assert_eq!(
        plan_mint_request(&req, &addr(20), &addr(22), 1_461_600, false).unwrap_err(),
        MarketError::SignatureInvalid
    );
}

#[test]
fn mint_request_skip_flag_bypasses_verification_explicitly() {
    let req = signed_request(true);
    assert!(plan_mint_request(&req, &addr(20), &addr(22), 1_461_600, true).is_ok());
}

#[test]
fn mint_request_with_malformed_creator_is_invalid_input() {
    let mut req = signed_request(false);
    req.creator_pubkey = "0OIl".to_string();
    assert_eq!(
        plan_mint_request(&req, &addr(20), &addr(22), 1_461_600, true).unwrap_err(),
        MarketError::InvalidInput
    );
}
