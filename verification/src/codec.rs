use vstd::prelude::*;

use vstd::bytes::{
    lemma_auto_spec_u64_to_from_le_bytes, spec_u32_to_le_bytes, spec_u64_from_le_bytes,
    spec_u64_to_le_bytes, u64_from_le_bytes, u64_to_le_bytes,
};

verus! {

/// Encodes a price (in the smallest unit of native currency) as the 8-byte
/// little-endian value the escrow program expects in its payload.
pub fn encode_price(price: u64) -> (r: Vec<u8>)
    ensures
        r@ == spec_u64_to_le_bytes(price),
        r@.len() == 8,
{
    u64_to_le_bytes(price)
}

/// Decodes an 8-byte little-endian price.
pub fn decode_price(b: &[u8]) -> (r: u64)
    requires
        b@.len() == 8,
    ensures
        r == spec_u64_from_le_bytes(b@),
{
    u64_from_le_bytes(b)
}

/// A price encoded as 8 little-endian bytes decodes back to itself; this
/// holds over the whole `u64` domain, including 0 and the maximum value.
pub proof fn lemma_price_round_trip(price: u64)
    ensures
        spec_u64_to_le_bytes(price).len() == 8,
        spec_u64_from_le_bytes(spec_u64_to_le_bytes(price)) == price,
{
    lemma_auto_spec_u64_to_from_le_bytes();
}

/// Conversely, any 8 bytes re-encode to themselves after decoding, so the
/// encoding is a bijection between `u64` and 8-byte strings.
pub proof fn lemma_price_bytes_round_trip(b: Seq<u8>)
    requires
        b.len() == 8,
    ensures
        spec_u64_to_le_bytes(spec_u64_from_le_bytes(b)) == b,
{
    lemma_auto_spec_u64_to_from_le_bytes();
}

/// Borsh encoding of a byte string: a 4-byte little-endian length followed
/// by the bytes themselves.
pub open spec fn spec_borsh_bytes(b: Seq<u8>) -> Seq<u8>
    recommends
        b.len() <= u32::MAX,
{
    spec_u32_to_le_bytes(b.len() as u32) + b
}

/// Borsh encoding of an optional u64: a presence byte, then the value.
pub open spec fn spec_borsh_option_u64(v: Option<u64>) -> Seq<u8> {
    match v {
        Some(x) => seq![1u8] + spec_u64_to_le_bytes(x),
        None => seq![0u8],
    }
}

/// Copies the byte range `[start, end)` out of a slice.
pub fn copy_range(data: &[u8], start: usize, end: usize) -> (r: Vec<u8>)
    requires
        start <= end <= data@.len(),
    ensures
        r@ == data@.subrange(start as int, end as int),
{
    let mut r: Vec<u8> = Vec::new();
    for i in start..end
        invariant
            start <= i <= end <= data@.len(),
            r@ == data@.subrange(start as int, i as int),
    {
        r.push(data[i]);
        assert(r@ =~= data@.subrange(start as int, i as int + 1));
    }
    r
}

/// Appends every byte of `b` to `out`.
pub fn push_all(out: &mut Vec<u8>, b: &[u8])
    ensures
        final(out)@ == old(out)@ + b@,
{
    let n = b.len();
    for i in 0..n
        invariant
            n == b@.len(),
            out@ == old(out)@ + b@.take(i as int),
    {
        out.push(b[i]);
        assert(out@ =~= old(out)@ + b@.take(i as int + 1));
    }
    assert(out@ =~= old(out)@ + b@);
}

} // verus!
