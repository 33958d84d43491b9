use parity_scale_codec::Encode;
use vstd::prelude::*;

verus! {

/// The little-endian bytes of the lowest `n` bytes of `x`.
pub open spec fn le_bytes(x: nat, n: nat) -> Seq<u8>
    decreases n,
{
    if n == 0 {
        Seq::empty()
    } else {
        seq![(x % 256) as u8] + le_bytes(x / 256, (n - 1) as nat)
    }
}

/// SCALE encoding of an optional `u32`: a tag byte, then the value if present.
pub open spec fn option_u32_encoding(v: Option<u32>) -> Seq<u8> {
    match v {
        None => seq![0u8],
        Some(x) => seq![1u8] + le_bytes(x as nat, 4),
    }
}

/// SCALE encoding of the tuple `(seed, caller, extrinsic index)` that is hashed
/// to derive randomness: the raw seed bytes, the caller as eight little-endian
/// bytes, then the optional index.
pub open spec fn seed_payload(seed: Seq<u8>, caller: u64, extrinsic_index: Option<u32>) -> Seq<u8> {
    seed + le_bytes(caller as nat, 8) + option_u32_encoding(extrinsic_index)
}

/// The 128-bit Blake2b digest of a byte string.
pub uninterp spec fn blake2_128_of(data: Seq<u8>) -> Seq<u8>;

/// The randomness derived for a caller from a seed and an extrinsic index.
pub open spec fn random_spec(seed: Seq<u8>, caller: u64, extrinsic_index: Option<u32>) -> Seq<u8> {
    blake2_128_of(seed_payload(seed, caller, extrinsic_index))
}

/// Relies on `parity_scale_codec::Encode` for a tuple of `[u8; 32]`, `u64` and
/// `Option<u32>`: fixed arrays without a length prefix, integers little-endian,
/// an option as a 0/1 tag byte followed by the value, tuple fields concatenated.
#[verifier::external_body]
fn encode_seed_payload(seed: &[u8; 32], caller: u64, extrinsic_index: Option<u32>) -> (r: Vec<u8>)
    ensures
        r@ == seed_payload(seed@, caller, extrinsic_index),
{
    (seed, &caller, extrinsic_index).encode()
}

/// Relies on `sp_io::hashing::blake2_128`: the 16-byte Blake2b digest, which
/// depends on the input bytes alone.
#[verifier::external_body]
fn blake2_128(data: &[u8]) -> (r: [u8; 16])
    ensures
        r@ == blake2_128_of(data@),
{
    sp_io::hashing::blake2_128(data)
}

/// Derives 16 pseudo-random bytes for `caller` from an externally supplied
/// seed and the index of the current extrinsic.
pub fn random_value(seed: &[u8; 32], caller: u64, extrinsic_index: Option<u32>) -> (r: [u8; 16])
    ensures
        r@ == random_spec(seed@, caller, extrinsic_index),
{
    let payload = encode_seed_payload(seed, caller, extrinsic_index);
    blake2_128(payload.as_slice())
}

} // verus!
