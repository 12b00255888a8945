//! Witness binding states, the public-input policy and the fixed synthesis
//! trace.
//!
//! One synthesis call either fixes the circuit shape (every witness field
//! absent) or emits the constraints for one proof (every field present).  The
//! constraint structure must not depend on which: the trace below is a fixed
//! sequence of gadget operations chosen by the public-input policy alone.

use vstd::prelude::*;

verus! {

/// A witness field: absent while the circuit shape is derived, bound to a
/// concrete value while a proof is made.
pub enum Binding<T> {
    /// No value: the field only fixes the circuit shape.
    Unbound,
    /// A concrete value, used for one proof and then discarded.
    Bound(T),
}

impl<T> Binding<T> {
    /// Whether a concrete value is bound.
    pub open spec fn is_bound(&self) -> bool {
        self is Bound
    }

    /// Test whether a concrete value is bound.
    pub fn has_value(&self) -> (b: bool)
        ensures
            b == self.is_bound(),
    {
        match self {
            Binding::Unbound => false,
            Binding::Bound(_) => true,
        }
    }
}

/// The two modes of one synthesis call.
#[derive(Clone, Copy, PartialEq, Eq, Structural, Debug)]
pub enum CircuitMode {
    /// Every witness field is unbound: the call fixes the constraint shape
    /// once, for parameter generation.
    Shape,
    /// Every witness field is bound: the call emits the same constraints
    /// over one proof's concrete values.
    Proving,
}

/// The witness record for one synthesis call, generic over the external
/// point and scalar representations.  The circuit consumes the public key,
/// never the private key.
pub struct SpendAuthWitness<P, S> {
    /// The message whose signature is being verified.
    pub msg_hash: Binding<Vec<u8>>,
    /// The signature's point component `r`.
    pub sig_r: Binding<P>,
    /// The signature's scalar component `s`.
    pub sig_s: Binding<S>,
    /// The public key `vk = sk * G`.
    pub public_key: Binding<P>,
    /// The protocol generator `G`, supplied as a witness so the same shape
    /// serves any generator choice.
    pub generator: Binding<P>,
}

impl<P, S> SpendAuthWitness<P, S> {
    /// Every field is unbound.
    pub open spec fn is_shape(&self) -> bool {
        &&& !self.msg_hash.is_bound()
        &&& !self.sig_r.is_bound()
        &&& !self.sig_s.is_bound()
        &&& !self.public_key.is_bound()
        &&& !self.generator.is_bound()
    }

    /// Every field is bound.
    pub open spec fn is_fully_bound(&self) -> bool {
        &&& self.msg_hash.is_bound()
        &&& self.sig_r.is_bound()
        &&& self.sig_s.is_bound()
        &&& self.public_key.is_bound()
        &&& self.generator.is_bound()
    }

    /// The mode this record selects: shape derivation when nothing is bound,
    /// proving when everything is.  A record bound only in part selects
    /// neither, and the caller must reject it rather than synthesize from it.
    pub fn mode(&self) -> (m: Option<CircuitMode>)
        ensures
            m == Some(CircuitMode::Shape) <==> self.is_shape(),
            m == Some(CircuitMode::Proving) <==> self.is_fully_bound(),
            m is None <==> !self.is_shape() && !self.is_fully_bound(),
    {
        let msg: bool = self.msg_hash.has_value();
        let r: bool = self.sig_r.has_value();
        let s: bool = self.sig_s.has_value();
        let vk: bool = self.public_key.has_value();
        let gen: bool = self.generator.has_value();
        if !msg && !r && !s && !vk && !gen {
            Some(CircuitMode::Shape)
        } else if msg && r && s && vk && gen {
            Some(CircuitMode::Proving)
        } else {
            None
        }
    }
}

/// Whether the signature values are exposed for external comparison or kept
/// fully private.  One configuration axis of a single gadget, not two gadget
/// types.
#[derive(Clone, Copy, PartialEq, Eq, Structural, Debug)]
pub enum PublicInputPolicy {
    /// Expose `r`'s coordinates and the field-packed `s` as public inputs.
    ExposeSignature,
    /// Keep the signature private; proof validity alone implies the equation
    /// held.
    HideSignature,
}

/// One slot of the public input vector.
#[derive(Clone, Copy, PartialEq, Eq, Structural, Debug)]
pub enum PublicInputSlot {
    /// The x coordinate of the signature point `r`.
    SigRX,
    /// The y coordinate of the signature point `r`.
    SigRY,
    /// The scalar `s` packed into a base-field element.
    SigSPacked,
}

/// The ordered public input vector a policy exposes.
pub open spec fn public_inputs_spec(policy: PublicInputPolicy) -> Seq<PublicInputSlot> {
    match policy {
        PublicInputPolicy::ExposeSignature => seq![
            PublicInputSlot::SigRX,
            PublicInputSlot::SigRY,
            PublicInputSlot::SigSPacked,
        ],
        PublicInputPolicy::HideSignature => Seq::empty(),
    }
}

/// The ordered public inputs the external verifier must supply beside a
/// proof: `(r.x, r.y, s)` when the policy exposes the signature, nothing when
/// it hides it.
pub fn public_input_slots(policy: PublicInputPolicy) -> (slots: Vec<PublicInputSlot>)
    ensures
        slots@ == public_inputs_spec(policy),
{
    let mut slots: Vec<PublicInputSlot> = Vec::new();
    match policy {
        PublicInputPolicy::ExposeSignature => {
            slots.push(PublicInputSlot::SigRX);
            slots.push(PublicInputSlot::SigRY);
            slots.push(PublicInputSlot::SigSPacked);
            proof {
                assert(slots@ =~= public_inputs_spec(policy));
            }
        },
        PublicInputPolicy::HideSignature => {
            proof {
                assert(slots@ =~= public_inputs_spec(policy));
            }
        },
    }
    slots
}

/// One operation of the synthesis trace.  How many constraints each step
/// emits is owned by the external point and hash gadgets; the trace fixes
/// which operations run, on what, and in what order.
#[derive(Clone, Copy, PartialEq, Eq, Structural, Debug)]
pub enum SynthesisStep {
    /// Allocate the public key as an unknown-order curve point.
    WitnessPublicKey,
    /// Constrain the public key away from the cofactor's torsion subgroup,
    /// the known forgery class for this equation.
    AssertPublicKeyNotSmallOrder,
    /// Allocate the signature point `r`.  No small-order assertion follows:
    /// the cofactor clearing at the end absorbs `r`'s small-order component.
    WitnessSigR,
    /// Expose `r`'s coordinates as public inputs.
    ExposeSigR,
    /// Serialize `r` into the first 256-bit slot of the hash preimage.
    AppendSigRBits,
    /// Serialize the public key into the second 256-bit slot.
    AppendPublicKeyBits,
    /// Expand the message into bits and zero-pad the preimage to 768 bits.
    AppendMessageBits,
    /// Hash the preimage under the personalization tag into the 512
    /// challenge bits `h*`.
    HashChallenge,
    /// Serialize the scalar `s` into little-endian bits.
    ScalarSBits,
    /// Expose the field-packed `s` as a public input.
    ExposeSigS,
    /// Allocate the generator witness.
    WitnessGenerator,
    /// Negate the generator.
    NegateGenerator,
    /// Multiply the public key by the 512-bit challenge; the out-of-range
    /// scalar is reduced implicitly by the bit-by-bit multiplication.
    MulChallengePublicKey,
    /// Multiply the negated generator by `s`'s bits.
    MulSNegGenerator,
    /// Add the two scalar products: `h* * vk + (-s * G)`.
    AddProducts,
    /// Add the signature point `r` to the sum.
    AddSigR,
    /// Double the combined point; three in a row multiply by the cofactor 8.
    CofactorDouble,
    /// Enforce the cleared point's x coordinate equals the field's zero.
    EnforceIdentityX,
    /// Enforce the cleared point's y coordinate equals the field's one.
    EnforceIdentityY,
}

/// The fixed synthesis trace a policy selects.  The two traces differ only
/// in the two expose steps: hiding the signature removes public inputs, not
/// equation structure.
pub open spec fn synthesis_trace_spec(policy: PublicInputPolicy) -> Seq<SynthesisStep> {
    match policy {
        PublicInputPolicy::ExposeSignature => seq![
            SynthesisStep::WitnessPublicKey,
            SynthesisStep::AssertPublicKeyNotSmallOrder,
            SynthesisStep::WitnessSigR,
            SynthesisStep::ExposeSigR,
            SynthesisStep::AppendSigRBits,
            SynthesisStep::AppendPublicKeyBits,
            SynthesisStep::AppendMessageBits,
            SynthesisStep::HashChallenge,
            SynthesisStep::ScalarSBits,
            SynthesisStep::ExposeSigS,
            SynthesisStep::WitnessGenerator,
            SynthesisStep::NegateGenerator,
            SynthesisStep::MulChallengePublicKey,
            SynthesisStep::MulSNegGenerator,
            SynthesisStep::AddProducts,
            SynthesisStep::AddSigR,
            SynthesisStep::CofactorDouble,
            SynthesisStep::CofactorDouble,
            SynthesisStep::CofactorDouble,
            SynthesisStep::EnforceIdentityX,
            SynthesisStep::EnforceIdentityY,
        ],
        PublicInputPolicy::HideSignature => seq![
            SynthesisStep::WitnessPublicKey,
            SynthesisStep::AssertPublicKeyNotSmallOrder,
            SynthesisStep::WitnessSigR,
            SynthesisStep::AppendSigRBits,
            SynthesisStep::AppendPublicKeyBits,
            SynthesisStep::AppendMessageBits,
            SynthesisStep::HashChallenge,
            SynthesisStep::ScalarSBits,
            SynthesisStep::WitnessGenerator,
            SynthesisStep::NegateGenerator,
            SynthesisStep::MulChallengePublicKey,
            SynthesisStep::MulSNegGenerator,
            SynthesisStep::AddProducts,
            SynthesisStep::AddSigR,
            SynthesisStep::CofactorDouble,
            SynthesisStep::CofactorDouble,
            SynthesisStep::CofactorDouble,
            SynthesisStep::EnforceIdentityX,
            SynthesisStep::EnforceIdentityY,
        ],
    }
}

/// The synthesis trace: the exact sequence of gadget operations that encodes
/// `8 * (h* * vk - s * G + r) = identity`.  It depends on the policy alone,
/// never on the witness, so the constraint shape is identical for shape
/// derivation and proving.
pub fn synthesis_steps(policy: PublicInputPolicy) -> (trace: Vec<SynthesisStep>)
    ensures
        trace@ == synthesis_trace_spec(policy),
{
    let expose: bool = match policy {
        PublicInputPolicy::ExposeSignature => true,
        PublicInputPolicy::HideSignature => false,
    };
    let mut trace: Vec<SynthesisStep> = Vec::new();
    trace.push(SynthesisStep::WitnessPublicKey);
    trace.push(SynthesisStep::AssertPublicKeyNotSmallOrder);
    trace.push(SynthesisStep::WitnessSigR);
    if expose {
        trace.push(SynthesisStep::ExposeSigR);
    }
    trace.push(SynthesisStep::AppendSigRBits);
    trace.push(SynthesisStep::AppendPublicKeyBits);
    trace.push(SynthesisStep::AppendMessageBits);
    trace.push(SynthesisStep::HashChallenge);
    trace.push(SynthesisStep::ScalarSBits);
    if expose {
        trace.push(SynthesisStep::ExposeSigS);
    }
    trace.push(SynthesisStep::WitnessGenerator);
    trace.push(SynthesisStep::NegateGenerator);
    trace.push(SynthesisStep::MulChallengePublicKey);
    trace.push(SynthesisStep::MulSNegGenerator);
    trace.push(SynthesisStep::AddProducts);
    trace.push(SynthesisStep::AddSigR);
    trace.push(SynthesisStep::CofactorDouble);
    trace.push(SynthesisStep::CofactorDouble);
    trace.push(SynthesisStep::CofactorDouble);
    trace.push(SynthesisStep::EnforceIdentityX);
    trace.push(SynthesisStep::EnforceIdentityY);
    proof {
        assert(trace@ =~= synthesis_trace_spec(policy));
    }
    trace
}

/// One configuration axis, not two gadgets: the exposing trace is the hiding
/// trace with the two expose steps inserted, so the two paths cannot drift in
/// equation structure.
pub proof fn lemma_policies_differ_only_in_expose_steps()
    ensures
        synthesis_trace_spec(PublicInputPolicy::ExposeSignature) == synthesis_trace_spec(
            PublicInputPolicy::HideSignature,
        ).insert(3, SynthesisStep::ExposeSigR).insert(9, SynthesisStep::ExposeSigS),
{
    assert(synthesis_trace_spec(PublicInputPolicy::ExposeSignature) =~= synthesis_trace_spec(
        PublicInputPolicy::HideSignature,
    ).insert(3, SynthesisStep::ExposeSigR).insert(9, SynthesisStep::ExposeSigS));
}

} // verus!
