use spend_auth_circuit::model::{add_elems, cleared_combination_elem, generator_elem,
    identity_elem, mul_elem, neg_elem, torsion_elem, GroupElem};

const Q: u64 = 10007;

fn genuine_signature(sk: u64, k: u64, h: u64, t: u8) -> (GroupElem, GroupElem, u64) {
    let g = generator_elem(Q);
    let vk = mul_elem(sk, &g, Q);
    let r = add_elems(&mul_elem(k, &g, Q), &torsion_elem(t, Q), Q);
    let s = (((k as u128) + (h as u128) * (sk as u128)) % (Q as u128)) as u64;
    (vk, r, s)
}

#[test]
fn the_equation_holds_for_a_genuine_witness() {
    let (vk, r, s) = genuine_signature(1234, 987, 123456789, 0);
    let cleared = cleared_combination_elem(123456789, s, &vk, &r, Q);
    assert_eq!(cleared, identity_elem());
}

#[test]
fn an_out_of_range_challenge_is_reduced_implicitly() {
    // The challenge is far wider than the subgroup order, as the 512-bit
    // hash output is; the multiplication reduces it.
    let h = u64::MAX;
    let (vk, r, s) = genuine_signature(4321, 55, h, 0);
    let cleared = cleared_combination_elem(h, s, &vk, &r, Q);
    assert_eq!(cleared, identity_elem());
}

#[test]
fn small_order_noise_on_r_is_absorbed_by_the_clearing() {
    for t in 0..8u8 {
        let (vk, r, s) = genuine_signature(777, 4242, 31337, t);
        let cleared = cleared_combination_elem(31337, s, &vk, &r, Q);
        assert_eq!(cleared, identity_elem());
    }
}

#[test]
fn incrementing_s_breaks_the_equation() {
    let (vk, r, s) = genuine_signature(1234, 987, 31337, 0);
    let cleared = cleared_combination_elem(31337, (s + 1) % Q, &vk, &r, Q);
    assert_ne!(cleared, identity_elem());
}

#[test]
fn a_wrong_key_breaks_the_equation() {
    let g = generator_elem(Q);
    let (_, r, s) = genuine_signature(1234, 987, 31337, 0);
    let other_vk = mul_elem(1235, &g, Q);
    let cleared = cleared_combination_elem(31337, s, &other_vk, &r, Q);
    assert_ne!(cleared, identity_elem());
}

#[test]
fn a_small_order_key_satisfies_the_equation_without_the_secret() {
    // The forgery the explicit small-order assertion guards against: a pure
    // torsion public key passes the cleared equation with s = k mod q.
    let g = generator_elem(Q);
    let forged_vk = torsion_elem(3, Q);
    let k: u64 = 8888;
    let r = add_elems(&mul_elem(k, &g, Q), &torsion_elem(6, Q), Q);
    let cleared = cleared_combination_elem(987654321, k % Q, &forged_vk, &r, Q);
    assert_eq!(cleared, identity_elem());
}

#[test]
fn negation_cancels_addition() {
    let g = generator_elem(Q);
    let p = add_elems(&mul_elem(321, &g, Q), &torsion_elem(5, Q), Q);
    let sum = add_elems(&p, &neg_elem(&p, Q), Q);
    assert_eq!(sum, identity_elem());
}
