//! Keys and the deterministic mixing primitives built on them.
//!
//! Key management proper (derivation from seed material, addresses) belongs
//! to an external collaborator; the projection only needs keys as opaque
//! inputs to two deterministic operations: nullifier derivation and the
//! record masking stream.  The model carries each key as a 64-bit seed and
//! derives every mask from it with an avalanche mixer.

use vstd::prelude::*;
use vstd::wrapping::u64_specs;

verus! {

/// A spender's private key, as the projection sees it.
#[derive(Clone, Copy, Debug, PartialEq, Eq, Structural)]
pub struct PrivateKey {
    pub seed: u64,
}

/// A viewer's key: permits decrypting records addressed to its owner.
#[derive(Clone, Copy, Debug, PartialEq, Eq, Structural)]
pub struct ViewKey {
    pub seed: u64,
}

/// A 64-bit avalanche mixer (multiply-xorshift finalizer).
pub open spec fn spec_mix64(x: u64) -> u64 {
    let a = u64_specs::wrapping_mul(x ^ (x >> 33), 0xff51_afd7_ed55_8ccd);
    let b = u64_specs::wrapping_mul(a ^ (a >> 33), 0xc4ce_b9fe_1a85_ec53);
    b ^ (b >> 33)
}

/// Word `lane` of the keystream under key seed `k`.
pub open spec fn spec_stream64(k: u64, lane: u64) -> u64 {
    spec_mix64(k ^ u64_specs::wrapping_mul(lane, 0x9e37_79b9_7f4a_7c15))
}

/// The low byte of a keystream word.
pub open spec fn spec_stream8(k: u64, lane: u64) -> u8 {
    (spec_stream64(k, lane) & 0xff) as u8
}

/// The view key seed derived from a private key seed.
pub open spec fn spec_view_key_seed(pk: u64) -> u64 {
    spec_mix64(pk ^ 0x5851_f42d_4c95_7f2d)
}

/// The nullifier bound to a record nonce and a spender's private key.
pub open spec fn spec_serial_number(nonce: u64, pk: u64) -> u64 {
    spec_mix64(spec_mix64(pk ^ 0x2545_f491_4f6c_dd1d) ^ nonce)
}

pub fn mix64(x: u64) -> (r: u64)
    ensures
        r == spec_mix64(x),
{
    let a = (x ^ (x >> 33u64)).wrapping_mul(0xff51_afd7_ed55_8ccd);
    let b = (a ^ (a >> 33u64)).wrapping_mul(0xc4ce_b9fe_1a85_ec53);
    b ^ (b >> 33u64)
}

pub fn stream64(k: u64, lane: u64) -> (r: u64)
    ensures
        r == spec_stream64(k, lane),
{
    mix64(k ^ lane.wrapping_mul(0x9e37_79b9_7f4a_7c15))
}

pub fn stream8(k: u64, lane: u64) -> (r: u8)
    ensures
        r == spec_stream8(k, lane),
{
    let w = stream64(k, lane);
    proof {
        assert(w & 0xff < 256) by (bit_vector);
    }
    (w & 0xff) as u8
}

impl PrivateKey {
    pub fn new(seed: u64) -> (r: PrivateKey)
        ensures
            r.seed == seed,
    {
        PrivateKey { seed }
    }
}

impl ViewKey {
    pub fn new(seed: u64) -> (r: ViewKey)
        ensures
            r.seed == seed,
    {
        ViewKey { seed }
    }
}

/// Derives the view key a private key's owner decrypts with.
pub fn derive_view_key(private_key: &PrivateKey) -> (vk: ViewKey)
    ensures
        vk.seed == spec_view_key_seed(private_key.seed),
{
    ViewKey { seed: mix64(private_key.seed ^ 0x5851_f42d_4c95_7f2d) }
}

} // verus!
