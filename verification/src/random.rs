//! What the library takes from the `rand` crate.

use rand::distributions::{IndependentSample, Range};
use rand::{Rng, SeedableRng, XorShiftRng};
use vstd::prelude::*;

verus! {

/// The bytes that `rand`'s `XorShiftRng`, seeded with the four words of
/// `seed`, hands out through `Rng::fill_bytes` for a buffer of `len` bytes.
pub uninterp spec fn xorshift_bytes(seed: Seq<u32>, len: nat) -> Seq<u8>;

/// Draws a number from `low..high` with `rand::thread_rng()` and
/// `rand::distributions::Range`. Not proved: that the number lies in the
/// range, which `Range::sample_range` computes as `low` plus a remainder
/// modulo `high - low`. `Range::new` panics unless `low < high`.
#[verifier::external_body]
pub(crate) fn uniform(low: i32, high: i32) -> (k: i32)
    requires
        low < high,
    ensures
        low <= k < high,
{
    Range::new(low, high).ind_sample(&mut rand::thread_rng())
}

/// Fills a new buffer of `len` bytes from `rand::XorShiftRng` seeded with
/// `seed`, by `SeedableRng::from_seed` and `Rng::fill_bytes`. Not proved: that
/// the bytes depend on the seed and the length alone (the generator is a
/// fixed recurrence on its four words, and `fill_bytes` writes every byte of
/// the buffer). `from_seed` panics on a seed of four zeros.
#[verifier::external_body]
pub(crate) fn xorshift_fill(seed: [u32; 4], len: usize) -> (out: Vec<u8>)
    requires
        seed@[0] != 0 || seed@[1] != 0 || seed@[2] != 0 || seed@[3] != 0,
    ensures
        out@ == xorshift_bytes(seed@, len as nat),
        out@.len() == len,
{
    let mut rng: XorShiftRng = SeedableRng::from_seed(seed);
    let mut out = vec![0u8; len];
    rng.fill_bytes(&mut out);
    out
}

} // verus!
