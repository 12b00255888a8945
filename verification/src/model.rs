//! An abstract model of the curve group, rich enough to state and prove the
//! verification equation.
//!
//! The group of a twisted-Edwards curve with cofactor 8 splits into a
//! prime-order part of order `q` and an 8-torsion part.  A point of the model
//! carries one exponent for each part; the generator `G` spans the
//! prime-order part.  Addition, negation and scalar multiplication act on the
//! exponents modulo `q` and modulo 8 — in particular a scalar wider than `q`
//! (the 512-bit challenge) is reduced implicitly, exactly as the bit-by-bit
//! multiplication gadget reduces it.

use vstd::prelude::*;

use vstd::arithmetic::div_mod::{lemma_add_mod_noop, lemma_fundamental_div_mod, lemma_mod_bound,
    lemma_mod_multiples_basic, lemma_mod_self_0, lemma_mod_twice, lemma_mul_mod_noop_right,
    lemma_small_mod};
use vstd::arithmetic::mul::{lemma_mul_is_commutative, lemma_mul_is_distributive_add,
    lemma_mul_upper_bound};

verus! {

/// A point of the model: `prime` is its exponent over the prime-order
/// generator, reduced mod `q`; `torsion` its exponent over the 8-torsion
/// generator, reduced mod 8.
pub struct ModelPoint {
    /// Multiple of the prime-order generator.
    pub prime: int,
    /// Multiple of the small-order generator.
    pub torsion: int,
}

/// Both exponents reduced: the canonical representative of a point.
pub open spec fn wf_point(p: ModelPoint, q: int) -> bool {
    0 <= p.prime < q && 0 <= p.torsion < 8
}

/// The identity element, whose affine coordinates are `(0, 1)`.
pub open spec fn identity_point() -> ModelPoint {
    ModelPoint { prime: 0, torsion: 0 }
}

/// The protocol generator `G`: it spans the prime-order part.
pub open spec fn generator_point() -> ModelPoint {
    ModelPoint { prime: 1, torsion: 0 }
}

/// A pure small-order point: `t` times the 8-torsion generator.
pub open spec fn torsion_point(t: int) -> ModelPoint {
    ModelPoint { prime: 0, torsion: t }
}

/// Group addition: exponents add, each modulo its part's order.
pub open spec fn add_points(a: ModelPoint, b: ModelPoint, q: int) -> ModelPoint {
    ModelPoint { prime: (a.prime + b.prime) % q, torsion: (a.torsion + b.torsion) % 8 }
}

/// Group negation.
pub open spec fn neg_point(a: ModelPoint, q: int) -> ModelPoint {
    ModelPoint { prime: (q - a.prime) % q, torsion: (8 - a.torsion) % 8 }
}

/// Scalar multiplication by any integer, out-of-range scalars included.
pub open spec fn mul_point(n: int, a: ModelPoint, q: int) -> ModelPoint {
    ModelPoint { prime: (n * a.prime) % q, torsion: (n * a.torsion) % 8 }
}

/// The combination the circuit clears and checks:
/// `8 * (h * vk - s * G + r)`, evaluated in the fixed order
/// `(h * vk) + (-s * G) + r`, then doubled three times.
pub open spec fn cleared_combination(h: int, s: int, vk: ModelPoint, r: ModelPoint, q: int)
    -> ModelPoint {
    mul_point(
        8,
        add_points(
            add_points(mul_point(h, vk, q), neg_point(mul_point(s, generator_point(), q), q), q),
            r,
            q,
        ),
        q,
    )
}

/// Equation invariant: for a genuine witness the cleared combination is the
/// identity.  Genuine means `vk = sk * G`, `r = k * G + t` for any 8-torsion
/// component `t` (the gadget never checks `r` for small order: the clearing
/// absorbs `t`), and `s = k + h * sk mod q` — with the challenge `h`
/// arbitrary, wider than `q` included.
pub proof fn lemma_equation_holds_for_genuine_witness(sk: int, k: int, h: int, t: int, q: int)
    requires
        q > 0,
        0 <= t < 8,
    ensures
        cleared_combination(
            h,
            (k + h * sk) % q,
            mul_point(sk, generator_point(), q),
            add_points(mul_point(k, generator_point(), q), torsion_point(t), q),
            q,
        ) == identity_point(),
{
    let m: int = k + h * sk;
    let s: int = m % q;
    lemma_mod_bound(m, q);
    let vk: ModelPoint = mul_point(sk, generator_point(), q);
    let r: ModelPoint = add_points(mul_point(k, generator_point(), q), torsion_point(t), q);

    // The witnesses in canonical form.
    assert(vk.prime == sk % q && vk.torsion == 0) by {
        lemma_small_mod(0nat, 8nat);
    }
    assert(r.prime == k % q && r.torsion == t % 8) by {
        lemma_mod_twice(k, q);
        lemma_small_mod(0nat, 8nat);
    }
    lemma_small_mod(t as nat, 8nat);

    // h * vk reduces to (h * sk) mod q.
    let hvk: ModelPoint = mul_point(h, vk, q);
    assert(hvk.prime == (h * sk) % q) by {
        lemma_mul_mod_noop_right(h, sk, q);
    }
    assert(hvk.torsion == 0) by {
        lemma_small_mod(0nat, 8nat);
    }

    // -s * G.
    let neg_sg: ModelPoint = neg_point(mul_point(s, generator_point(), q), q);
    assert(neg_sg.prime == (q - s) % q) by {
        lemma_small_mod(s as nat, q as nat);
    }
    assert(neg_sg.torsion == 0) by {
        lemma_small_mod(0nat, 8nat);
        lemma_mod_self_0(8);
    }

    // The sum before clearing: its prime exponent is congruent to
    // (h * sk) + (q - s) + k, a multiple of q.
    let sum: ModelPoint = add_points(add_points(hvk, neg_sg, q), r, q);
    assert(sum.prime == (h * sk + (q - s) + k) % q) by {
        lemma_add_mod_noop(h * sk, q - s, q);
        lemma_add_mod_noop(h * sk + (q - s), k, q);
    }
    assert(h * sk + (q - s) + k == m + q - m % q);
    assert(m + q - m % q == q * (m / q) + q) by {
        lemma_fundamental_div_mod(m, q);
    }
    assert(q * (m / q) + q == (m / q + 1) * q) by {
        lemma_mul_is_distributive_add(q, m / q, 1);
        lemma_mul_is_commutative(q, m / q + 1);
    }
    assert(sum.prime == 0) by {
        lemma_mod_multiples_basic(m / q + 1, q);
    }
    assert(sum.torsion == t) by {
        lemma_small_mod(t as nat, 8nat);
    }

    // Clearing the cofactor kills the torsion and keeps the prime part zero.
    assert((8 * t) % 8 == 0) by {
        lemma_mul_is_commutative(8, t);
        lemma_mod_multiples_basic(t, 8);
    }
    assert((8int * 0int) % q == 0) by {
        lemma_small_mod(0nat, q as nat);
    }
}

/// Why the small-order assertion on the public key is the only guard: a pure
/// 8-torsion public key satisfies the equation with `s = k mod q` for any
/// nonce `k`, whatever the challenge — a forgery needing no discrete log.
/// The explicit assertion makes such a witness unsatisfiable before the
/// equation is ever checked.
pub proof fn lemma_small_order_key_satisfies_equation(h: int, k: int, u: int, t: int, q: int)
    requires
        q > 0,
        0 <= u < 8,
        0 <= t < 8,
    ensures
        cleared_combination(
            h,
            k % q,
            torsion_point(u),
            add_points(mul_point(k, generator_point(), q), torsion_point(t), q),
            q,
        ) == identity_point(),
{
    let s: int = k % q;
    lemma_mod_bound(k, q);
    let vk: ModelPoint = torsion_point(u);
    let r: ModelPoint = add_points(mul_point(k, generator_point(), q), torsion_point(t), q);

    assert(r.prime == k % q && r.torsion == t) by {
        lemma_mod_twice(k, q);
        lemma_small_mod(0nat, 8nat);
        lemma_small_mod(t as nat, 8nat);
    }

    // h * vk stays pure torsion.
    let hvk: ModelPoint = mul_point(h, vk, q);
    assert(hvk.prime == 0) by {
        lemma_mod_self_0(q);
    }

    // -s * G.
    let neg_sg: ModelPoint = neg_point(mul_point(s, generator_point(), q), q);
    assert(neg_sg.prime == (q - s) % q) by {
        lemma_small_mod(s as nat, q as nat);
    }
    assert(neg_sg.torsion == 0) by {
        lemma_small_mod(0nat, 8nat);
        lemma_mod_self_0(8);
    }

    // The prime exponents cancel: (q - s) + s is a multiple of q.
    let sum: ModelPoint = add_points(add_points(hvk, neg_sg, q), r, q);
    assert(sum.prime == (0 + (q - s) + k) % q) by {
        lemma_add_mod_noop(0, q - s, q);
        lemma_mod_twice(q - s, q);
        lemma_add_mod_noop(q - s, k, q);
    }
    assert((q - s) + k == q * (k / q) + q) by {
        lemma_fundamental_div_mod(k, q);
    }
    assert(q * (k / q) + q == (k / q + 1) * q) by {
        lemma_mul_is_distributive_add(q, k / q, 1);
        lemma_mul_is_commutative(q, k / q + 1);
    }
    assert(sum.prime == 0) by {
        lemma_mod_multiples_basic(k / q + 1, q);
    }

    // Clearing the cofactor kills whatever torsion the forged key added.
    let tor: int = sum.torsion;
    lemma_mod_bound((h * u) % 8 + t, 8);
    assert((8 * tor) % 8 == 0) by {
        lemma_mul_is_commutative(8, tor);
        lemma_mod_multiples_basic(tor, 8);
    }
    assert((8int * 0int) % q == 0) by {
        lemma_small_mod(0nat, q as nat);
    }
}

/// An executable point of the model, exponents reduced.
#[derive(Clone, Copy, PartialEq, Eq, Structural, Debug)]
pub struct GroupElem {
    /// Multiple of the prime-order generator, below `q`.
    pub prime: u64,
    /// Multiple of the small-order generator, below 8.
    pub torsion: u8,
}

impl GroupElem {
    /// The abstract point this element denotes.
    pub open spec fn view_point(&self) -> ModelPoint {
        ModelPoint { prime: self.prime as int, torsion: self.torsion as int }
    }

    /// Both exponents reduced for subgroup order `q`.
    pub open spec fn wf(&self, q: u64) -> bool {
        wf_point(self.view_point(), q as int)
    }
}

/// The executable identity element.
pub fn identity_elem() -> (e: GroupElem)
    ensures
        e.view_point() == identity_point(),
{
    GroupElem { prime: 0, torsion: 0 }
}

/// The executable generator.
pub fn generator_elem(q: u64) -> (e: GroupElem)
    requires
        q > 1,
    ensures
        e.view_point() == generator_point(),
        e.wf(q),
{
    GroupElem { prime: 1, torsion: 0 }
}

/// An executable pure small-order element.
pub fn torsion_elem(t: u8, q: u64) -> (e: GroupElem)
    requires
        q > 0,
        t < 8,
    ensures
        e.view_point() == torsion_point(t as int),
        e.wf(q),
{
    GroupElem { prime: 0, torsion: t }
}

/// Executable group addition.
pub fn add_elems(a: &GroupElem, b: &GroupElem, q: u64) -> (c: GroupElem)
    requires
        q > 0,
        a.wf(q),
        b.wf(q),
    ensures
        c.view_point() == add_points(a.view_point(), b.view_point(), q as int),
        c.wf(q),
{
    let p: u64 = (((a.prime as u128) + (b.prime as u128)) % (q as u128)) as u64;
    let t: u8 = (a.torsion + b.torsion) % 8;
    GroupElem { prime: p, torsion: t }
}

/// Executable group negation.
pub fn neg_elem(a: &GroupElem, q: u64) -> (c: GroupElem)
    requires
        q > 0,
        a.wf(q),
    ensures
        c.view_point() == neg_point(a.view_point(), q as int),
        c.wf(q),
{
    let p: u64 = (q - a.prime) % q;
    let t: u8 = (8 - a.torsion) % 8;
    GroupElem { prime: p, torsion: t }
}

/// Executable scalar multiplication, out-of-range scalars included.
pub fn mul_elem(n: u64, a: &GroupElem, q: u64) -> (c: GroupElem)
    requires
        q > 0,
        a.wf(q),
    ensures
        c.view_point() == mul_point(n as int, a.view_point(), q as int),
        c.wf(q),
{
    proof {
        lemma_mul_upper_bound(n as int, u64::MAX as int, a.prime as int, u64::MAX as int);
        lemma_mul_upper_bound(n as int, u64::MAX as int, a.torsion as int, 7);
    }
    let p: u64 = (((n as u128) * (a.prime as u128)) % (q as u128)) as u64;
    let t: u8 = ((((n as u128) * (a.torsion as u128)) % 8) as u8);
    GroupElem { prime: p, torsion: t }
}

/// Evaluate the cleared combination `8 * (h * vk - s * G + r)` natively, in
/// the circuit's fixed order: the two scalar products, their sum, then `r`,
/// then three doublings.
pub fn cleared_combination_elem(h: u64, s: u64, vk: &GroupElem, r: &GroupElem, q: u64) -> (c:
    GroupElem)
    requires
        q > 1,
        vk.wf(q),
        r.wf(q),
    ensures
        c.view_point() == cleared_combination(
            h as int,
            s as int,
            vk.view_point(),
            r.view_point(),
            q as int,
        ),
        c.wf(q),
{
    let g: GroupElem = generator_elem(q);
    let hvk: GroupElem = mul_elem(h, vk, q);
    let sg: GroupElem = mul_elem(s, &g, q);
    let neg_sg: GroupElem = neg_elem(&sg, q);
    let sum: GroupElem = add_elems(&add_elems(&hvk, &neg_sg, q), r, q);
    mul_elem(8, &sum, q)
}

} // verus!
