use spend_auth_circuit::bits::{message_bits_le, pad_to_width};
use spend_auth_circuit::preimage::{challenge_preimage, personalization_tag, preimage_sources,
    BitSource};
use spend_auth_circuit::{BLOCK_BITS, MSG_BLOCK_START, PREIMAGE_BITS, VK_BLOCK_START};

fn bits_of(bytes: &[u8]) -> Vec<bool> {
    message_bits_le(&bytes.to_vec())
}

#[test]
fn personalization_tag_is_the_fixed_ascii_constant() {
    let tag = personalization_tag();
    assert_eq!(tag.len(), 16);
    assert_eq!(tag, b"Zcash_RedJubjubH".to_vec());
}

#[test]
fn message_bits_are_least_significant_first() {
    // 0xb2 = 0b1011_0010, read least significant bit first
    let bits = bits_of(&[0xb2]);
    assert_eq!(
        bits,
        vec![false, true, false, false, true, true, false, true]
    );
}

#[test]
fn message_bits_expand_every_byte_in_order() {
    let bits = bits_of(&[0x01, 0x80]);
    assert_eq!(bits.len(), 16);
    // 0x01: only bit 0 set
    assert!(bits[0]);
    assert!(!bits[1..8].iter().any(|b| *b));
    // 0x80: only bit 7 set
    assert!(!bits[8..15].iter().any(|b| *b));
    assert!(bits[15]);
}

#[test]
fn message_bits_of_empty_message_are_empty() {
    let bits = bits_of(&[]);
    assert!(bits.is_empty());
}

#[test]
fn padding_fills_with_zero_bits() {
    let mut bits = vec![true, true, true];
    pad_to_width(&mut bits, 8);
    assert_eq!(bits, vec![true, true, true, false, false, false, false, false]);
}

#[test]
fn padding_truncates_an_overlong_block() {
    let mut bits = vec![true; 10];
    pad_to_width(&mut bits, 4);
    assert_eq!(bits, vec![true; 4]);
}

#[test]
fn padding_keeps_an_exact_block() {
    let mut bits = vec![true, false, true];
    pad_to_width(&mut bits, 3);
    assert_eq!(bits, vec![true, false, true]);
}

#[test]
fn preimage_is_three_fixed_blocks_in_order() {
    // 256 bits for r, 250 for vk (so its slot ends in padding), 32 bytes of
    // message filling the third block exactly.
    let r_bits: Vec<bool> = (0..256).map(|i| i % 3 == 0).collect();
    let vk_bits: Vec<bool> = (0..250).map(|i| i % 5 == 1).collect();
    let msg: Vec<u8> = (0..32).map(|i| (7 * i + 1) as u8).collect();
    let msg_bits = message_bits_le(&msg);

    let pre = challenge_preimage(&r_bits, &vk_bits, &msg);
    assert_eq!(pre.len(), PREIMAGE_BITS);
    for i in 0..256 {
        assert_eq!(pre[i], r_bits[i]);
    }
    for i in 0..250 {
        assert_eq!(pre[VK_BLOCK_START + i], vk_bits[i]);
    }
    for i in 250..BLOCK_BITS {
        assert!(!pre[VK_BLOCK_START + i]);
    }
    for i in 0..256 {
        assert_eq!(pre[MSG_BLOCK_START + i], msg_bits[i]);
    }
}

#[test]
fn short_blocks_are_zero_padded_on_the_right() {
    let r_bits = vec![true; 10];
    let vk_bits = vec![true; 20];
    let msg = vec![0xffu8; 4];
    let pre = challenge_preimage(&r_bits, &vk_bits, &msg);
    assert_eq!(pre.len(), PREIMAGE_BITS);
    assert!(pre[0..10].iter().all(|b| *b));
    assert!(!pre[10..VK_BLOCK_START].iter().any(|b| *b));
    assert!(pre[VK_BLOCK_START..VK_BLOCK_START + 20].iter().all(|b| *b));
    assert!(!pre[VK_BLOCK_START + 20..MSG_BLOCK_START].iter().any(|b| *b));
    assert!(pre[MSG_BLOCK_START..MSG_BLOCK_START + 32].iter().all(|b| *b));
    assert!(!pre[MSG_BLOCK_START + 32..PREIMAGE_BITS].iter().any(|b| *b));
}

#[test]
fn the_reference_message_fills_its_block() {
    let msg = b"This is a test message for sign.".to_vec();
    assert_eq!(msg.len(), 32);
    let r_bits = vec![false; 256];
    let vk_bits = vec![false; 256];
    let pre = challenge_preimage(&r_bits, &vk_bits, &msg);
    let msg_bits = message_bits_le(&msg);
    assert_eq!(&pre[MSG_BLOCK_START..PREIMAGE_BITS], &msg_bits[..]);
    // 'T' = 0x54 = 0b0101_0100, least significant bit first
    assert_eq!(
        &pre[MSG_BLOCK_START..MSG_BLOCK_START + 8],
        &[false, false, true, false, true, false, true, false]
    );
}

#[test]
fn sources_cover_each_block_at_its_offset() {
    let plan = preimage_sources(256, 256, 32);
    assert_eq!(plan.len(), PREIMAGE_BITS);
    assert_eq!(plan[0], BitSource::SigR(0));
    assert_eq!(plan[255], BitSource::SigR(255));
    assert_eq!(plan[VK_BLOCK_START], BitSource::PublicKey(0));
    assert_eq!(plan[MSG_BLOCK_START - 1], BitSource::PublicKey(255));
    assert_eq!(plan[MSG_BLOCK_START], BitSource::Message(0));
    assert_eq!(plan[PREIMAGE_BITS - 1], BitSource::Message(255));
}

#[test]
fn sources_pad_short_blocks_with_zero() {
    let plan = preimage_sources(100, 250, 10);
    assert_eq!(plan[99], BitSource::SigR(99));
    assert_eq!(plan[100], BitSource::Zero);
    assert_eq!(plan[VK_BLOCK_START + 249], BitSource::PublicKey(249));
    assert_eq!(plan[VK_BLOCK_START + 250], BitSource::Zero);
    assert_eq!(plan[MSG_BLOCK_START + 79], BitSource::Message(79));
    assert_eq!(plan[MSG_BLOCK_START + 80], BitSource::Zero);
}

#[test]
fn filling_slots_from_their_sources_rebuilds_the_preimage() {
    let r_bits: Vec<bool> = (0..256).map(|i| i % 2 == 0).collect();
    let vk_bits: Vec<bool> = (0..240).map(|i| i % 7 == 2).collect();
    let msg: Vec<u8> = (0..20).map(|i| (11 * i + 3) as u8).collect();
    let msg_bits = message_bits_le(&msg);

    let plan = preimage_sources(r_bits.len(), vk_bits.len(), msg.len());
    let rebuilt: Vec<bool> = plan
        .iter()
        .map(|src| match src {
            BitSource::SigR(i) => r_bits[*i],
            BitSource::PublicKey(i) => vk_bits[*i],
            BitSource::Message(i) => msg_bits[*i],
            BitSource::Zero => false,
        })
        .collect();
    assert_eq!(rebuilt, challenge_preimage(&r_bits, &vk_bits, &msg));
}

#[test]
fn flipping_any_single_message_byte_changes_the_preimage() {
    let msg = b"This is a test message for sign.".to_vec();
    let r_bits: Vec<bool> = (0..256).map(|i| i % 3 == 1).collect();
    let vk_bits: Vec<bool> = (0..256).map(|i| i % 4 == 2).collect();
    let pre = challenge_preimage(&r_bits, &vk_bits, &msg);
    for k in 0..msg.len() {
        let mut tampered = msg.clone();
        tampered[k] ^= 0xff;
        let tampered_pre = challenge_preimage(&r_bits, &vk_bits, &tampered);
        assert_ne!(pre, tampered_pre);
    }
}

#[test]
fn substituting_another_point_changes_the_preimage() {
    let msg = vec![5u8; 32];
    let r_bits = vec![false; 256];
    let vk_bits = vec![false; 256];
    let mut other_r = r_bits.clone();
    other_r[17] = true;
    let mut other_vk = vk_bits.clone();
    other_vk[200] = true;
    let pre = challenge_preimage(&r_bits, &vk_bits, &msg);
    assert_ne!(pre, challenge_preimage(&other_r, &vk_bits, &msg));
    assert_ne!(pre, challenge_preimage(&r_bits, &other_vk, &msg));
}
