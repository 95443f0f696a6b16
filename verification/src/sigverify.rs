use vstd::prelude::*;

use ed25519_dalek::Verifier;

use crate::addr::{parse_address, parse_signature_bytes, spec_base58_decode, Address, SIGNATURE_LEN};
use vstd::string::StringSliceAdditionalSpecFns;

verus! {

/// Whether ed25519 verification accepts `sig` as a signature over `msg` by
/// the holder of `pk`. A pure function of the three byte strings; it is false
/// whenever `pk` does not parse as a curve point.
pub uninterp spec fn spec_ed25519_verify(pk: Seq<u8>, msg: Seq<u8>, sig: Seq<u8>) -> bool;

/// Relies on ed25519_dalek: PublicKey::from_bytes and Signature::from_bytes
/// to convert the raw arguments, and Verifier::verify for the check itself,
/// over the raw message bytes. The outcome depends on the three byte strings
/// alone; a key that is not a valid curve point makes it false.
#[verifier::external_body]
fn ed25519_verify(pk: &[u8], msg: &[u8], sig: &[u8]) -> (r: bool)
    requires
        pk@.len() == 32,
        sig@.len() == 64,
    ensures
        r == spec_ed25519_verify(pk@, msg@, sig@),
{
    match (ed25519_dalek::PublicKey::from_bytes(pk), ed25519_dalek::Signature::from_bytes(sig)) {
        (Ok(p), Ok(s)) => p.verify(msg, &s).is_ok(),
        _ => false,
    }
}

/// Verifies that the holder of `public_key` authorized `message`. A
/// signature of any length other than 64 bytes is rejected up front, before
/// the cryptographic check is ever invoked.
pub fn verify_signature(message: &[u8], signature: &[u8], public_key: &Address) -> (r: bool)
    requires
        public_key.wf(),
    ensures
        r == (signature@.len() == SIGNATURE_LEN && spec_ed25519_verify(
            public_key@,
            message@,
            signature@,
        )),
        signature@.len() != SIGNATURE_LEN ==> !r,
{
    if signature.len() != SIGNATURE_LEN {
        return false;
    }
    ed25519_verify(public_key.bytes.as_slice(), message, signature)
}

/// Validates a claimed authorization given in wire form: a base58 public
/// key, a base58 signature, and the message text signed as its UTF-8 bytes.
/// Accepts exactly when both decode to their required lengths (32 and 64
/// bytes) and the cryptographic check passes over the message bytes.
pub fn validate_signature(message: &str, signature: &str, pubkey: &str) -> (r: bool)
    ensures
        r == match (spec_base58_decode(pubkey@), spec_base58_decode(signature@)) {
            (Some(pk), Some(sig)) => pk.len() == 32 && sig.len() == SIGNATURE_LEN
                && spec_ed25519_verify(pk, message.spec_bytes(), sig),
            _ => false,
        },
{
    let pk = match parse_address(pubkey) {
        Ok(a) => a,
        Err(_) => {
            return false;
        },
    };
    let sig = match parse_signature_bytes(signature) {
        Ok(s) => s,
        Err(_) => {
            return false;
        },
    };
    verify_signature(message.as_bytes(), sig.as_slice(), &pk)
}

} // verus!
