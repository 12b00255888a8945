//! Little-endian bit serialization and fixed-width block padding.
//!
//! Every value that enters the challenge hash is serialized as a bit sequence,
//! least significant bit first within each byte, and each block of the
//! preimage is brought to a fixed width by truncating or zero-padding on the
//! right.

use vstd::prelude::*;

verus! {

/// Bit `i` of byte `b`, least significant bit first.
pub open spec fn bit_of_byte(b: u8, i: int) -> bool {
    (b >> (i as u8)) & 1u8 == 1u8
}

/// The eight bits of `b`, least significant bit first.
pub open spec fn byte_bits_le(b: u8) -> Seq<bool> {
    Seq::new(8, |i: int| bit_of_byte(b, i))
}

/// All bits of `bytes`, each byte expanded least-significant-bit first.
pub open spec fn bytes_bits_le(bytes: Seq<u8>) -> Seq<bool> {
    Seq::new(bytes.len() * 8, |i: int| bit_of_byte(bytes[i / 8], i % 8))
}

/// `bits` truncated or zero-padded on the right to exactly `width` bits.
pub open spec fn pad_block(bits: Seq<bool>, width: int) -> Seq<bool> {
    if bits.len() >= width {
        bits.take(width)
    } else {
        bits + Seq::new((width - bits.len()) as nat, |i: int| false)
    }
}

/// Expand a byte sequence into its bits, least-significant-bit first per byte.
pub fn message_bits_le(msg: &Vec<u8>) -> (bits: Vec<bool>)
    requires
        msg@.len() * 8 <= usize::MAX,
    ensures
        bits@ == bytes_bits_le(msg@),
{
    let mut bits: Vec<bool> = Vec::new();
    let mut i: usize = 0;
    while i < msg.len()
        invariant
            i <= msg@.len(),
            msg@.len() * 8 <= usize::MAX,
            bits@ == bytes_bits_le(msg@.take(i as int)),
        decreases msg@.len() - i,
    {
        let b: u8 = msg[i];
        let mut j: usize = 0;
        while j < 8
            invariant
                j <= 8,
                i < msg@.len(),
                b == msg@[i as int],
                bits@ == bytes_bits_le(msg@.take(i as int)) + byte_bits_le(b).take(j as int),
            decreases 8 - j,
        {
            let bit: bool = (b >> (j as u8)) & 1 == 1;
            proof {
                assert((j as int) as u8 == j as u8);
                assert(bit == bit_of_byte(b, j as int));
            }
            bits.push(bit);
            j = j + 1;
            proof {
                assert(bits@ =~= bytes_bits_le(msg@.take(i as int)) + byte_bits_le(b).take(
                    j as int,
                ));
            }
        }
        i = i + 1;
        proof {
            assert(bits@ =~= bytes_bits_le(msg@.take(i as int)));
        }
    }
    proof {
        assert(msg@.take(msg@.len() as int) =~= msg@);
    }
    bits
}

/// Append every bit of `src` to `dst`, in order.
pub fn append_bits(dst: &mut Vec<bool>, src: &Vec<bool>)
    ensures
        final(dst)@ == old(dst)@ + src@,
{
    let ghost orig: Seq<bool> = dst@;
    let mut i: usize = 0;
    while i < src.len()
        invariant
            i <= src@.len(),
            dst@ == orig + src@.take(i as int),
        decreases src@.len() - i,
    {
        let bit: bool = src[i];
        dst.push(bit);
        i = i + 1;
        proof {
            assert(dst@ =~= orig + src@.take(i as int));
        }
    }
    proof {
        assert(src@.take(src@.len() as int) =~= src@);
    }
}

/// Truncate or zero-pad `dst` on the right to exactly `width` bits.
pub fn pad_to_width(dst: &mut Vec<bool>, width: usize)
    ensures
        final(dst)@ == pad_block(old(dst)@, width as int),
        final(dst)@.len() == width,
{
    let ghost orig: Seq<bool> = dst@;
    if dst.len() >= width {
        dst.truncate(width);
        proof {
            assert(dst@ =~= pad_block(orig, width as int));
        }
    } else {
        while dst.len() < width
            invariant
                orig.len() <= dst@.len() <= width,
                dst@ == orig + Seq::new((dst@.len() - orig.len()) as nat, |i: int| false),
            decreases width - dst@.len(),
        {
            dst.push(false);
            proof {
                assert(dst@ =~= orig + Seq::new((dst@.len() - orig.len()) as nat, |i: int| false));
            }
        }
        proof {
            assert(dst@ =~= pad_block(orig, width as int));
        }
    }
}

} // verus!
