use ed25519_dalek::{ExpandedSecretKey, PublicKey, SecretKey};

use nft_marketplace::addr::Address;
use nft_marketplace::sigverify::{validate_signature, verify_signature};

fn test_keypair() -> (SecretKey, PublicKey) {
    let secret = SecretKey::from_bytes(&[7u8; 32]).unwrap();
    let public = PublicKey::from(&secret);
    (secret, public)
}

fn sign(message: &[u8]) -> (Vec<u8>, Address) {
    let (secret, public) = test_keypair();
    let expanded: ExpandedSecretKey = (&secret).into();
    let signature = expanded.sign(message, &public);
    (
        signature.to_bytes().to_vec(),
        Address { bytes: public.to_bytes().to_vec() },
    )
}

#[test]
fn well_formed_signature_over_original_message_is_accepted() {
    let message = b"list my token";
    let (sig, public) = sign(message);
    assert!(verify_signature(message, &sig, &public));
}

#[test]
fn sixty_three_byte_signature_is_rejected() {
    let message = b"list my token";
    let (mut sig, public) = sign(message);
    sig.truncate(63);
    assert!(!verify_signature(message, &sig, &public));
}

#[test]
fn sixty_five_byte_signature_is_rejected() {
    let message = b"list my token";
    let (mut sig, public) = sign(message);
    sig.push(0);
    assert!(!verify_signature(message, &sig, &public));
}

#[test]
fn signature_over_tampered_message_is_rejected() {
    let message = b"list my token";
    let (sig, public) = sign(message);
    assert!(!verify_signature(b"list my tokens", &sig, &public));
}

#[test]
fn signature_under_wrong_key_is_rejected() {
    let message = b"list my token";
    let (sig, _) = sign(message);
    let other_secret = SecretKey::from_bytes(&[8u8; 32]).unwrap();
    let other_public = PublicKey::from(&other_secret);
    let other = Address { bytes: other_public.to_bytes().to_vec() };
    assert!(!verify_signature(message, &sig, &other));
}

#[test]
fn wire_form_validation_accepts_and_rejects() {
    let message = "mint it";
    let (sig, public) = sign(message.as_bytes());
    let sig_text = bs58::encode(&sig).into_string();
    let pk_text = public.to_base58();

    assert!(validate_signature(message, &sig_text, &pk_text));
    assert!(!validate_signature("mint it!", &sig_text, &pk_text));
    assert!(!validate_signature(message, "not-base58-0OIl", &pk_text));
    assert!(!validate_signature(message, &sig_text, "not-base58-0OIl"));

    // A base58 string of the wrong decoded length is rejected up front.
    let short = bs58::encode(vec![1u8; 63]).into_string();
    assert!(!validate_signature(message, &short, &pk_text));
}
