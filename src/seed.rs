//! The Fiat–Shamir seed: the scalar from which the verifier's first challenge
//! is drawn, derived from the verifying key's pinned description alone.
use vstd::prelude::*;
use crate::field;
use crate::field::{fr_modulus_bytes, le_mod, le_to_decimal};
use crate::shape::VkShape;

verus! {

/// The BLAKE2b digest, 64 bytes long and personalized with the verifying key
/// domain tag, of `data`.
pub uninterp spec fn vk_digest(data: Seq<u8>) -> Seq<u8>;

/// The eight little-endian bytes of `n`.
pub open spec fn u64_le_bytes(n: u64) -> Seq<u8> {
    Seq::new(8, |i: int| ((n >> ((8 * i) as u64)) & 0xff) as u8)
}

/// What is hashed: the length of `b` as eight little-endian bytes, then `b`.
pub open spec fn length_prefixed(b: Seq<u8>) -> Seq<u8> {
    u64_le_bytes(b.len() as u64) + b
}

/// The seed of a digest: the 512-bit little-endian digest reduced modulo the
/// scalar field modulus, in decimal.
pub open spec fn seed_of_digest(digest: Seq<u8>) -> Seq<char> {
    field::decimal(field::le_nat(digest) % field::fr_modulus())
}

/// The seed of a pinned description.
pub open spec fn seed_of_pinned(pinned: Seq<char>) -> Seq<char> {
    seed_of_digest(vk_digest(length_prefixed(vstd::utf8::encode_utf8(pinned))))
}

/// Relies on blake2b_simd::Params (hash_length(64), personal(b"Halo2-Verify-Key"))
/// and Params::hash: the personalized digest of `data`, 64 bytes long.
#[verifier::external_body]
fn blake2b_vk_digest(data: &[u8]) -> (r: Vec<u8>)
    ensures
        r@ == vk_digest(data@),
        r@.len() == 64,
{
    blake2b_simd::Params::new().hash_length(64).personal(b"Halo2-Verify-Key").hash(data).as_bytes().to_vec()
}

/// The hash input for a byte string: its length as a `u64` in eight
/// little-endian bytes, then the bytes themselves.
pub fn length_prefix(b: &[u8]) -> (r: Vec<u8>)
    ensures
        r@ == length_prefixed(b@),
{
    let n: u64 = b.len() as u64;
    let mut r: Vec<u8> = Vec::new();
    let mut i: u64 = 0;
    while i < 8
        invariant
            i <= 8,
            n == b@.len() as u64,
            r@ == u64_le_bytes(n).subrange(0, i as int),
        decreases 8 - i,
    {
        r.push(((n >> (8 * i)) & 0xff) as u8);
        i += 1;
        assert(r@ =~= u64_le_bytes(n).subrange(0, i as int));
    }
    let mut j: usize = 0;
    while j < b.len()
        invariant
            j <= b@.len(),
            n == b@.len() as u64,
            r@ == u64_le_bytes(n) + b@.subrange(0, j as int),
        decreases b@.len() - j,
    {
        r.push(b[j]);
        j += 1;
        assert(r@ =~= u64_le_bytes(n) + b@.subrange(0, j as int));
    }
    assert(u64_le_bytes(n).subrange(0, 8) =~= u64_le_bytes(n));
    assert(b@.subrange(0, b@.len() as int) =~= b@);
    r
}

/// The seed scalar, in decimal, of a key digest: the digest as a little-endian
/// integer reduced modulo the scalar field modulus (a wide reduction).
pub fn seed_from_digest(digest: &Vec<u8>) -> (r: String)
    ensures
        r@ == seed_of_digest(digest@),
{
    let m = fr_modulus_bytes();
    proof {
        assert(field::le_nat(field::fr_modulus_seq()) > 0) by {
            let s = field::fr_modulus_seq();
            assert(s[0] == 1u8);
        }
    }
    let reduced = le_mod(digest.as_slice(), m.as_slice());
    le_to_decimal(reduced.as_slice())
}

/// The Fiat–Shamir seed of a verifying key, in decimal. It depends on the
/// key's pinned description and on nothing else.
pub fn init_scalar(vk: &VkShape) -> (r: String)
    ensures
        r@ == seed_of_pinned(vk.pinned@),
{
    let bytes: &[u8] = vk.pinned.as_str().as_bytes();
    let data = length_prefix(bytes);
    let digest = blake2b_vk_digest(data.as_slice());
    seed_from_digest(&digest)
}

/// Two verifying keys with the same pinned description have the same seed,
/// whatever else differs between them.
pub proof fn lemma_seed_determined_by_pinned(a: VkShape, b: VkShape)
    requires
        a.pinned@ == b.pinned@,
    ensures
        seed_of_pinned(a.pinned@) == seed_of_pinned(b.pinned@),
{
}

} // verus!
