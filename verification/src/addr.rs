use vstd::prelude::*;

use crate::errors::MarketError;

verus! {

/// Number of bytes in a ledger address.
pub const ADDRESS_LEN: usize = 32;

/// Number of bytes in an off-chain signature.
pub const SIGNATURE_LEN: usize = 64;

/// A 32-byte ledger address: a public key, a program id, or a derived
/// (program-owned) address.
#[derive(Debug)]
pub struct Address {
    pub bytes: Vec<u8>,
}

impl View for Address {
    type V = Seq<u8>;

    open spec fn view(&self) -> Seq<u8> {
        self.bytes@
    }
}

impl Address {
    /// Every well-formed address is exactly 32 bytes.
    pub open spec fn wf(&self) -> bool {
        self@.len() == ADDRESS_LEN
    }

    /// Wraps raw bytes as an address; rejects any length other than 32.
    pub fn from_bytes(bytes: Vec<u8>) -> (r: Result<Address, MarketError>)
        ensures
            match r {
                Ok(a) => a.wf() && a@ == bytes@,
                Err(e) => e == MarketError::InvalidInput && bytes@.len() != ADDRESS_LEN,
            },
    {
        if bytes.len() == ADDRESS_LEN {
            Ok(Address { bytes })
        } else {
            Err(MarketError::InvalidInput)
        }
    }

    /// Renders the address in the canonical base58 text form.
    pub fn to_base58(&self) -> (r: String)
        ensures
            r@ == spec_base58_encode(self@),
    {
        base58_encode(self.bytes.as_slice())
    }
}

impl Clone for Address {
    fn clone(&self) -> (r: Self)
        ensures
            r@ == self@,
    {
        Address { bytes: clone_bytes(&self.bytes) }
    }
}

/// Byte-for-byte copy of a byte vector.
pub fn clone_bytes(v: &Vec<u8>) -> (r: Vec<u8>)
    ensures
        r@ == v@,
{
    let mut r: Vec<u8> = Vec::new();
    let n = v.len();
    for i in 0..n
        invariant
            n == v@.len(),
            r@ == v@.take(i as int),
    {
        r.push(v[i]);
        assert(r@ =~= v@.take(i as int + 1));
    }
    assert(r@ =~= v@);
    r
}

/// What bs58 decoding yields for a given text: the decoded bytes, or nothing
/// when the text is not valid base58.
pub uninterp spec fn spec_base58_decode(s: Seq<char>) -> Option<Seq<u8>>;

/// The base58 rendering of a byte string.
pub uninterp spec fn spec_base58_encode(b: Seq<u8>) -> Seq<char>;

/// Relies on bs58::decode (into_vec): decodes base58 text into bytes; the
/// result is a function of the characters alone, and decoding fails exactly
/// on text that is not valid base58.
#[verifier::external_body]
fn base58_decode(s: &str) -> (r: Option<Vec<u8>>)
    ensures
        match r {
            Some(v) => spec_base58_decode(s@) == Some(v@),
            None => spec_base58_decode(s@) is None,
        },
{
    bs58::decode(s).into_vec().ok()
}

/// Relies on bs58::encode (into_string): renders bytes as base58 text; the
/// result is a function of the bytes alone.
#[verifier::external_body]
fn base58_encode(b: &[u8]) -> (r: String)
    ensures
        r@ == spec_base58_encode(b@),
{
    bs58::encode(b).into_string()
}

/// Parses a base58 address string; accepts exactly the strings that decode
/// to 32 bytes.
pub fn parse_address(s: &str) -> (r: Result<Address, MarketError>)
    ensures
        match r {
            Ok(a) => {
                &&& a.wf()
                &&& spec_base58_decode(s@) == Some(a@)
            },
            Err(e) => {
                &&& e == MarketError::InvalidInput
                &&& match spec_base58_decode(s@) {
                    Some(b) => b.len() != ADDRESS_LEN,
                    None => true,
                }
            },
        },
{
    match base58_decode(s) {
        Some(bytes) => {
            if bytes.len() == ADDRESS_LEN {
                Ok(Address { bytes })
            } else {
                Err(MarketError::InvalidInput)
            }
        },
        None => Err(MarketError::InvalidInput),
    }
}

/// Parses a base58 signature string; accepts exactly the strings that decode
/// to 64 bytes, the only length an off-chain signature may have.
pub fn parse_signature_bytes(s: &str) -> (r: Result<Vec<u8>, MarketError>)
    ensures
        match r {
            Ok(sig) => {
                &&& sig@.len() == SIGNATURE_LEN
                &&& spec_base58_decode(s@) == Some(sig@)
            },
            Err(e) => {
                &&& e == MarketError::SignatureInvalid
                &&& match spec_base58_decode(s@) {
                    Some(b) => b.len() != SIGNATURE_LEN,
                    None => true,
                }
            },
        },
{
    match base58_decode(s) {
        Some(bytes) => {
            if bytes.len() == SIGNATURE_LEN {
                Ok(bytes)
            } else {
                Err(MarketError::SignatureInvalid)
            }
        },
        None => Err(MarketError::SignatureInvalid),
    }
}

} // verus!
