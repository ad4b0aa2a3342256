//! Identifiers for projects, credit batches and sale orders: a BLAKE2b-256
//! digest of the caller, its nonce and the current time in SCALE encoding.

use crate::types::{AccountId, Hash256, Moment};
use vstd::prelude::*;

verus! {

/// The eight little-endian bytes of `x`.
pub open spec fn u64_le_bytes(x: u64) -> Seq<u8> {
    Seq::new(8, |i: int| ((x >> (8 * i) as u64) & 0xff) as u8)
}

/// The SCALE encoding of `(who, nonce, now)`: the little-endian bytes of each,
/// one after another.
pub open spec fn hash_input(who: AccountId, nonce: u64, now: Moment) -> Seq<u8> {
    u64_le_bytes(who) + u64_le_bytes(nonce) + u64_le_bytes(now)
}

/// The BLAKE2b-256 digest of `data`.
pub uninterp spec fn blake2_256_of(data: Seq<u8>) -> Seq<u8>;

/// The identifier whose bytes are the digest of `hash_input(who, nonce, now)`.
pub open spec fn hash_of(who: AccountId, nonce: u64, now: Moment) -> Hash256 {
    Hash256 { bytes: choose|b: [u8; 32]| b@ == blake2_256_of(hash_input(who, nonce, now)) }
}

/// Relies on parity_scale_codec's `Encode` for a tuple of three `u64`: the
/// elements in order, each as its eight little-endian bytes.
#[verifier::external_body]
fn encode_triple(a: u64, b: u64, c: u64) -> (r: Vec<u8>)
    ensures
        r@ == u64_le_bytes(a) + u64_le_bytes(b) + u64_le_bytes(c),
{
    parity_scale_codec::Encode::encode(&(a, b, c))
}

/// Relies on sp_core's `Blake2Hasher::hash`: the BLAKE2b-256 digest of `data`.
#[verifier::external_body]
fn blake2_256(data: &[u8]) -> (r: [u8; 32])
    ensures
        r@ == blake2_256_of(data@),
{
    <sp_core::Blake2Hasher as sp_core::Hasher>::hash(data).0
}

/// The identifier for an item created by `who` with account nonce `nonce` at
/// time `now`.
pub fn generate_hash(who: AccountId, nonce: u64, now: Moment) -> (r: Hash256)
    ensures
        r.bytes@ == blake2_256_of(hash_input(who, nonce, now)),
        r == hash_of(who, nonce, now),
{
    let encoded = encode_triple(who, nonce, now);
    let bytes = blake2_256(encoded.as_slice());
    proof {
        let b = choose|b: [u8; 32]| b@ == blake2_256_of(hash_input(who, nonce, now));
        assert(b@ == bytes@);
        assert forall|i: int| 0 <= i < 32 implies b[i] == bytes[i] by {
            assert(b@[i] == bytes@[i]);
        }
        assert(b =~= bytes);
    }
    Hash256 { bytes }
}

} // verus!
