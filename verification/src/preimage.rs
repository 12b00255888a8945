//! The personalized challenge-hash preimage.
//!
//! The challenge scalar `h*` is the hash, under a fixed 16-byte
//! personalization tag, of a 768-bit buffer: the signature point `r`'s
//! serialization, the public key's serialization and the message bits, in
//! that order, each block zero-padded on the right to 256 bits.  The signer,
//! the native verifier and the circuit must all assemble this buffer
//! identically, bit for bit.

use vstd::prelude::*;

use crate::bits::{append_bits, bit_of_byte, bytes_bits_le, message_bits_le, pad_block,
    pad_to_width};
use crate::{BLOCK_BITS, MSG_BLOCK_START, PREIMAGE_BITS, VK_BLOCK_START};

verus! {

/// The 16 ASCII bytes of the domain-separation tag `Zcash_RedJubjubH`.
pub open spec fn personalization_spec() -> Seq<u8> {
    seq![
        0x5au8, 0x63u8, 0x61u8, 0x73u8, 0x68u8, 0x5fu8, 0x52u8, 0x65u8, 0x64u8, 0x4au8, 0x75u8,
        0x62u8, 0x6au8, 0x75u8, 0x62u8, 0x48u8,
    ]
}

/// The personalization tag that domain-separates the challenge hash from
/// every other use of the same hash primitive.
pub fn personalization_tag() -> (tag: Vec<u8>)
    ensures
        tag@ == personalization_spec(),
        tag@.len() == 16,
{
    let mut tag: Vec<u8> = Vec::new();
    tag.push(0x5a);
    tag.push(0x63);
    tag.push(0x61);
    tag.push(0x73);
    tag.push(0x68);
    tag.push(0x5f);
    tag.push(0x52);
    tag.push(0x65);
    tag.push(0x64);
    tag.push(0x4a);
    tag.push(0x75);
    tag.push(0x62);
    tag.push(0x6a);
    tag.push(0x75);
    tag.push(0x62);
    tag.push(0x48);
    proof {
        assert(tag@ =~= personalization_spec());
    }
    tag
}

/// The challenge-hash preimage for serialized point bits and a raw message:
/// `r`'s bits padded to 256, then the key's bits padded to the slot ending at
/// 512, then the message bits padded to 768.  Padding truncates an overlong
/// block, as the gadget's fixed-width buffer does.
pub open spec fn challenge_preimage_spec(r_bits: Seq<bool>, vk_bits: Seq<bool>, msg: Seq<u8>)
    -> Seq<bool> {
    pad_block(
        pad_block(pad_block(r_bits, BLOCK_BITS as int) + vk_bits, MSG_BLOCK_START as int)
            + bytes_bits_le(msg),
        PREIMAGE_BITS as int,
    )
}

/// Assemble the challenge-hash preimage from the two serialized points and
/// the message bytes.
pub fn challenge_preimage(r_bits: &Vec<bool>, vk_bits: &Vec<bool>, msg: &Vec<u8>) -> (pre: Vec<
    bool,
>)
    requires
        msg@.len() * 8 <= usize::MAX,
    ensures
        pre@ == challenge_preimage_spec(r_bits@, vk_bits@, msg@),
        pre@.len() == PREIMAGE_BITS,
{
    let mut pre: Vec<bool> = Vec::new();
    append_bits(&mut pre, r_bits);
    proof {
        assert(pre@ =~= r_bits@);
    }
    pad_to_width(&mut pre, BLOCK_BITS);
    append_bits(&mut pre, vk_bits);
    pad_to_width(&mut pre, MSG_BLOCK_START);
    let msg_bits: Vec<bool> = message_bits_le(msg);
    append_bits(&mut pre, &msg_bits);
    pad_to_width(&mut pre, PREIMAGE_BITS);
    pre
}

/// Where the preimage stands: each block holds its bits in order at a fixed
/// offset, and the rest of its slot is zero.
pub proof fn lemma_preimage_layout(r_bits: Seq<bool>, vk_bits: Seq<bool>, msg: Seq<u8>)
    requires
        r_bits.len() <= BLOCK_BITS,
        vk_bits.len() <= BLOCK_BITS,
        msg.len() * 8 <= BLOCK_BITS,
    ensures
        challenge_preimage_spec(r_bits, vk_bits, msg).len() == PREIMAGE_BITS,
        forall|i: int|
            0 <= i < r_bits.len() ==> #[trigger] challenge_preimage_spec(r_bits, vk_bits, msg)[i]
                == r_bits[i],
        forall|i: int|
            r_bits.len() <= i < VK_BLOCK_START ==> #[trigger] challenge_preimage_spec(
                r_bits, vk_bits, msg,
            )[i] == false,
        forall|i: int|
            0 <= i < vk_bits.len() ==> #[trigger] challenge_preimage_spec(r_bits, vk_bits, msg)[
                VK_BLOCK_START + i
            ] == vk_bits[i],
        forall|i: int|
            vk_bits.len() <= i < BLOCK_BITS ==> #[trigger] challenge_preimage_spec(
                r_bits, vk_bits, msg,
            )[VK_BLOCK_START + i] == false,
        forall|i: int|
            0 <= i < msg.len() * 8 ==> #[trigger] challenge_preimage_spec(r_bits, vk_bits, msg)[
                MSG_BLOCK_START + i
            ] == bytes_bits_le(msg)[i],
        forall|i: int|
            msg.len() * 8 <= i < BLOCK_BITS ==> #[trigger] challenge_preimage_spec(
                r_bits, vk_bits, msg,
            )[MSG_BLOCK_START + i] == false,
{
}

/// Where one slot of the challenge-hash preimage takes its bit from.
#[derive(Clone, Copy, PartialEq, Eq, Structural, Debug)]
pub enum BitSource {
    /// Bit `i` of the signature point's serialization.
    SigR(usize),
    /// Bit `i` of the public key's serialization.
    PublicKey(usize),
    /// Bit `i` of the message, bytes expanded least-significant-bit first.
    Message(usize),
    /// A constant zero padding bit.
    Zero,
}

/// The source of preimage slot `i`, given how many bits each block supplies.
pub open spec fn source_at(r_len: int, vk_len: int, msg_bits: int, i: int) -> BitSource {
    if i < VK_BLOCK_START {
        if i < r_len {
            BitSource::SigR(i as usize)
        } else {
            BitSource::Zero
        }
    } else if i < MSG_BLOCK_START {
        if i - VK_BLOCK_START < vk_len {
            BitSource::PublicKey((i - VK_BLOCK_START) as usize)
        } else {
            BitSource::Zero
        }
    } else {
        if i - MSG_BLOCK_START < msg_bits {
            BitSource::Message((i - MSG_BLOCK_START) as usize)
        } else {
            BitSource::Zero
        }
    }
}

/// The full preimage layout as data: which source fills each of the 768
/// slots.  The circuit side selects its allocated bit variables by this plan,
/// so the buffer it hashes has exactly the shape `challenge_preimage_spec`
/// describes.
pub fn preimage_sources(r_len: usize, vk_len: usize, msg_len: usize) -> (plan: Vec<BitSource>)
    requires
        msg_len * 8 <= usize::MAX,
    ensures
        plan@.len() == PREIMAGE_BITS,
        forall|i: int|
            0 <= i < PREIMAGE_BITS ==> plan@[i] == source_at(
                r_len as int,
                vk_len as int,
                8 * (msg_len as int),
                i,
            ),
{
    let msg_bits: usize = msg_len * 8;
    let mut plan: Vec<BitSource> = Vec::new();
    let mut i: usize = 0;
    while i < PREIMAGE_BITS
        invariant
            i <= PREIMAGE_BITS,
            plan@.len() == i,
            msg_bits == 8 * (msg_len as int),
            forall|k: int|
                0 <= k < i ==> plan@[k] == source_at(
                    r_len as int,
                    vk_len as int,
                    8 * (msg_len as int),
                    k,
                ),
        decreases PREIMAGE_BITS - i,
    {
        let src: BitSource = if i < VK_BLOCK_START {
            if i < r_len {
                BitSource::SigR(i)
            } else {
                BitSource::Zero
            }
        } else if i < MSG_BLOCK_START {
            if i - VK_BLOCK_START < vk_len {
                BitSource::PublicKey(i - VK_BLOCK_START)
            } else {
                BitSource::Zero
            }
        } else {
            if i - MSG_BLOCK_START < msg_bits {
                BitSource::Message(i - MSG_BLOCK_START)
            } else {
                BitSource::Zero
            }
        };
        plan.push(src);
        i = i + 1;
    }
    plan
}

/// The bit value a source denotes, for given serializations and message.
pub open spec fn source_bit(src: BitSource, r_bits: Seq<bool>, vk_bits: Seq<bool>, msg: Seq<u8>)
    -> bool {
    match src {
        BitSource::SigR(i) => r_bits[i as int],
        BitSource::PublicKey(i) => vk_bits[i as int],
        BitSource::Message(i) => bytes_bits_le(msg)[i as int],
        BitSource::Zero => false,
    }
}

/// Filling every slot from its source yields exactly the preimage the native
/// side assembles: the circuit-side buffer and the native buffer agree bit
/// for bit, whatever the block lengths.
pub proof fn lemma_sources_build_preimage(r_bits: Seq<bool>, vk_bits: Seq<bool>, msg: Seq<u8>)
    ensures
        Seq::new(
            PREIMAGE_BITS as nat,
            |i: int|
                source_bit(
                    source_at(r_bits.len() as int, vk_bits.len() as int, msg.len() * 8 as int, i),
                    r_bits,
                    vk_bits,
                    msg,
                ),
        ) == challenge_preimage_spec(r_bits, vk_bits, msg),
{
    assert(Seq::new(
        PREIMAGE_BITS as nat,
        |i: int|
            source_bit(
                source_at(r_bits.len() as int, vk_bits.len() as int, msg.len() * 8 as int, i),
                r_bits,
                vk_bits,
                msg,
            ),
    ) =~= challenge_preimage_spec(r_bits, vk_bits, msg));
}

/// Two distinct bytes differ in at least one of their eight bits.
pub proof fn lemma_byte_bits_distinguish(x: u8, y: u8)
    requires
        x != y,
    ensures
        exists|j: int| 0 <= j < 8 && bit_of_byte(x, j) != bit_of_byte(y, j),
{
    if forall|j: int| 0 <= j < 8 ==> bit_of_byte(x, j) == bit_of_byte(y, j) {
        assert(bit_of_byte(x, 0) == bit_of_byte(y, 0));
        assert(bit_of_byte(x, 1) == bit_of_byte(y, 1));
        assert(bit_of_byte(x, 2) == bit_of_byte(y, 2));
        assert(bit_of_byte(x, 3) == bit_of_byte(y, 3));
        assert(bit_of_byte(x, 4) == bit_of_byte(y, 4));
        assert(bit_of_byte(x, 5) == bit_of_byte(y, 5));
        assert(bit_of_byte(x, 6) == bit_of_byte(y, 6));
        assert(bit_of_byte(x, 7) == bit_of_byte(y, 7));
        assert(x == y) by (bit_vector)
            requires
                ((x >> 0u8) & 1u8 == 1u8) == ((y >> 0u8) & 1u8 == 1u8),
                ((x >> 1u8) & 1u8 == 1u8) == ((y >> 1u8) & 1u8 == 1u8),
                ((x >> 2u8) & 1u8 == 1u8) == ((y >> 2u8) & 1u8 == 1u8),
                ((x >> 3u8) & 1u8 == 1u8) == ((y >> 3u8) & 1u8 == 1u8),
                ((x >> 4u8) & 1u8 == 1u8) == ((y >> 4u8) & 1u8 == 1u8),
                ((x >> 5u8) & 1u8 == 1u8) == ((y >> 5u8) & 1u8 == 1u8),
                ((x >> 6u8) & 1u8 == 1u8) == ((y >> 6u8) & 1u8 == 1u8),
                ((x >> 7u8) & 1u8 == 1u8) == ((y >> 7u8) & 1u8 == 1u8),
        ;
    }
}

/// Tampering with the message changes the challenge-hash preimage: two
/// messages of the same length that fit the 256-bit message slot and differ
/// in any byte give different preimages, whatever `r` and the key are.
pub proof fn lemma_message_tamper_changes_preimage(
    r_bits: Seq<bool>,
    vk_bits: Seq<bool>,
    msg1: Seq<u8>,
    msg2: Seq<u8>,
)
    requires
        msg1.len() == msg2.len(),
        msg1.len() * 8 <= BLOCK_BITS,
        msg1 != msg2,
    ensures
        challenge_preimage_spec(r_bits, vk_bits, msg1) != challenge_preimage_spec(
            r_bits,
            vk_bits,
            msg2,
        ),
{
    assert(exists|k: int| 0 <= k < msg1.len() && msg1[k] != msg2[k]) by {
        if forall|k: int| 0 <= k < msg1.len() ==> msg1[k] == msg2[k] {
            assert(msg1 =~= msg2);
        }
    }
    let k: int = choose|k: int| 0 <= k < msg1.len() && msg1[k] != msg2[k];
    lemma_byte_bits_distinguish(msg1[k], msg2[k]);
    let j: int = choose|j: int| 0 <= j < 8 && bit_of_byte(msg1[k], j) != bit_of_byte(msg2[k], j);
    let pos: int = 8 * k + j;
    assert(pos / 8 == k && pos % 8 == j) by (nonlinear_arith)
        requires
            0 <= j < 8,
            0 <= k,
            pos == 8 * k + j,
    ;
    assert(bytes_bits_le(msg1)[pos] != bytes_bits_le(msg2)[pos]);
    assert(challenge_preimage_spec(r_bits, vk_bits, msg1)[MSG_BLOCK_START + pos] != challenge_preimage_spec(
        r_bits,
        vk_bits,
        msg2,
    )[MSG_BLOCK_START + pos]);
}

/// With full 256-bit point serializations and a message that fills its slot,
/// the preimage determines the whole witness: witnesses that differ in `r`,
/// the key or the message give different preimages.
pub proof fn lemma_preimage_injective(
    r1: Seq<bool>,
    vk1: Seq<bool>,
    msg1: Seq<u8>,
    r2: Seq<bool>,
    vk2: Seq<bool>,
    msg2: Seq<u8>,
)
    requires
        r1.len() == BLOCK_BITS,
        r2.len() == BLOCK_BITS,
        vk1.len() == BLOCK_BITS,
        vk2.len() == BLOCK_BITS,
        msg1.len() == msg2.len(),
        msg1.len() * 8 <= BLOCK_BITS,
        !(r1 == r2 && vk1 == vk2 && msg1 == msg2),
    ensures
        challenge_preimage_spec(r1, vk1, msg1) != challenge_preimage_spec(r2, vk2, msg2),
{
    lemma_preimage_layout(r1, vk1, msg1);
    lemma_preimage_layout(r2, vk2, msg2);
    if r1 != r2 {
        assert(exists|k: int| 0 <= k < BLOCK_BITS && r1[k] != r2[k]) by {
            if forall|k: int| 0 <= k < BLOCK_BITS ==> r1[k] == r2[k] {
                assert(r1 =~= r2);
            }
        }
        let k: int = choose|k: int| 0 <= k < BLOCK_BITS && r1[k] != r2[k];
        assert(challenge_preimage_spec(r1, vk1, msg1)[k] != challenge_preimage_spec(
            r2,
            vk2,
            msg2,
        )[k]);
    } else if vk1 != vk2 {
        assert(exists|k: int| 0 <= k < BLOCK_BITS && vk1[k] != vk2[k]) by {
            if forall|k: int| 0 <= k < BLOCK_BITS ==> vk1[k] == vk2[k] {
                assert(vk1 =~= vk2);
            }
        }
        let k: int = choose|k: int| 0 <= k < BLOCK_BITS && vk1[k] != vk2[k];
        assert(challenge_preimage_spec(r1, vk1, msg1)[VK_BLOCK_START + k]
            != challenge_preimage_spec(r2, vk2, msg2)[VK_BLOCK_START + k]);
    } else {
        lemma_message_tamper_changes_preimage(r1, vk1, msg1, msg2);
    }
}

} // verus!
