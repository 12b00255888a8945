//! In-circuit verification of a Schnorr-style spend-authority signature over a
//! twisted-Edwards curve with cofactor 8.
//!
//! The curve arithmetic, the constraint-system backend and the in-circuit hash
//! gadget are external collaborators; what this crate owns and verifies is the
//! logic the gadget itself decides: the little-endian bit serialization of the
//! challenge-hash preimage, its fixed three-block zero-padded layout, the
//! personalization tag, the witness binding states, the public-input ordering
//! policy, and the fixed sequence of gadget operations that encodes the
//! verification equation `8 * (h* * vk - s * G + r) = identity`.

use vstd::prelude::*;

pub mod bits;
pub mod circuit;
pub mod model;
pub mod preimage;

verus! {

/// The number of bits in one serialized block of the challenge-hash preimage
/// (a compressed point or the message slot).
pub const BLOCK_BITS: usize = 256;

/// First slot of the public-key block inside the preimage.
pub const VK_BLOCK_START: usize = 256;

/// First slot of the message block inside the preimage.
pub const MSG_BLOCK_START: usize = 512;

/// Total width of the challenge-hash preimage: three zero-padded blocks.
pub const PREIMAGE_BITS: usize = 768;

/// The number of output bits of the personalized challenge hash.
pub const CHALLENGE_BITS: usize = 512;

/// The curve's cofactor: the order of the small torsion subgroup.
pub const COFACTOR: usize = 8;

/// How many doublings clear the cofactor: `2^3 = 8`.
pub const COFACTOR_DOUBLINGS: usize = 3;

/// Doubling `COFACTOR_DOUBLINGS` times multiplies a point by `COFACTOR`.
pub proof fn lemma_doublings_clear_cofactor()
    ensures
        (1usize << COFACTOR_DOUBLINGS) == COFACTOR,
{
    assert((1usize << 3usize) == 8usize) by (bit_vector);
}

} // verus!
