//! The envelope shapes and their well-formedness.
//!
//! An envelope is either a proof bundle — the verifying key, the proof, and
//! the public inputs, every element already in its canonical uncompressed
//! byte form — or a circuit blob: the raw constraint-system and
//! witness-module artifacts, packaged for deferred proving elsewhere. The
//! two shapes are mutually exclusive by construction: a proof bundle holds
//! no raw circuit bytes and a circuit blob holds no key or proof field.

use vstd::prelude::*;
use crate::curve::{CurveFamily, g1_width, g2_width, fr_width};

verus! {

/// The byte sequences a vector of byte vectors holds, in order.
pub open spec fn views_of(items: Seq<Vec<u8>>) -> Seq<Seq<u8>> {
    Seq::new(items.len(), |i: int| items[i]@)
}

/// A proof bundle: verifying-key fields, proof fields and public inputs,
/// each group element and field element in canonical uncompressed bytes.
pub struct ProofBundle {
    /// The verifying key's `alpha` element, in G1.
    pub alpha_g1: Vec<u8>,
    /// The verifying key's `beta` element, in G2.
    pub beta_g2: Vec<u8>,
    /// The verifying key's `delta` element, in G2.
    pub delta_g2: Vec<u8>,
    /// The verifying key's `gamma` element, in G2.
    pub gamma_g2: Vec<u8>,
    /// The verifying key's `gamma_abc` elements, in G1: one per public
    /// input, plus one constant term.
    pub gamma_abc_g1: Vec<Vec<u8>>,
    /// The proof element `a`, in G1.
    pub proof_a: Vec<u8>,
    /// The proof element `b`, in G2.
    pub proof_b: Vec<u8>,
    /// The proof element `c`, in G1.
    pub proof_c: Vec<u8>,
    /// The public inputs, insertion-ordered, each a scalar-field element.
    pub public_inputs: Vec<Vec<u8>>,
}

/// The mathematical value of a `ProofBundle`: every field as a byte sequence.
pub struct ProofBundleView {
    /// The verifying key's `alpha` element.
    pub alpha_g1: Seq<u8>,
    /// The verifying key's `beta` element.
    pub beta_g2: Seq<u8>,
    /// The verifying key's `delta` element.
    pub delta_g2: Seq<u8>,
    /// The verifying key's `gamma` element.
    pub gamma_g2: Seq<u8>,
    /// The verifying key's `gamma_abc` elements.
    pub gamma_abc_g1: Seq<Seq<u8>>,
    /// The proof element `a`.
    pub proof_a: Seq<u8>,
    /// The proof element `b`.
    pub proof_b: Seq<u8>,
    /// The proof element `c`.
    pub proof_c: Seq<u8>,
    /// The public inputs, insertion-ordered.
    pub public_inputs: Seq<Seq<u8>>,
}

impl View for ProofBundle {
    type V = ProofBundleView;

    open spec fn view(&self) -> ProofBundleView {
        ProofBundleView {
            alpha_g1: self.alpha_g1@,
            beta_g2: self.beta_g2@,
            delta_g2: self.delta_g2@,
            gamma_g2: self.gamma_g2@,
            gamma_abc_g1: views_of(self.gamma_abc_g1@),
            proof_a: self.proof_a@,
            proof_b: self.proof_b@,
            proof_c: self.proof_c@,
            public_inputs: views_of(self.public_inputs@),
        }
    }
}

/// A circuit blob: the two raw circuit artifacts, unchanged.
pub struct CircuitBlob {
    /// The compiled constraint system, as loaded.
    pub constraint_system: Vec<u8>,
    /// The compiled witness-calculation module, as loaded.
    pub witness_module: Vec<u8>,
}

/// The mathematical value of a `CircuitBlob`.
pub struct CircuitBlobView {
    /// The compiled constraint system.
    pub constraint_system: Seq<u8>,
    /// The compiled witness-calculation module.
    pub witness_module: Seq<u8>,
}

impl View for CircuitBlob {
    type V = CircuitBlobView;

    open spec fn view(&self) -> CircuitBlobView {
        CircuitBlobView {
            constraint_system: self.constraint_system@,
            witness_module: self.witness_module@,
        }
    }
}

/// One of the two envelope shapes.
pub enum Envelope {
    /// Verifying key, proof and public inputs.
    ProofBundle(ProofBundle),
    /// Raw circuit artifacts for deferred proving.
    CircuitBlob(CircuitBlob),
}

/// The mathematical value of an `Envelope`.
pub enum EnvelopeView {
    /// Verifying key, proof and public inputs.
    ProofBundle(ProofBundleView),
    /// Raw circuit artifacts for deferred proving.
    CircuitBlob(CircuitBlobView),
}

impl View for Envelope {
    type V = EnvelopeView;

    open spec fn view(&self) -> EnvelopeView {
        match self {
            Envelope::ProofBundle(b) => EnvelopeView::ProofBundle(b@),
            Envelope::CircuitBlob(c) => EnvelopeView::CircuitBlob(c@),
        }
    }
}

/// A proof bundle is well formed for a family when every element has the
/// family's exact width and both sequences are short enough for their
/// length prefix.
pub open spec fn bundle_wf(b: ProofBundleView, fam: CurveFamily) -> bool {
    &&& b.alpha_g1.len() == g1_width(fam)
    &&& b.beta_g2.len() == g2_width(fam)
    &&& b.delta_g2.len() == g2_width(fam)
    &&& b.gamma_g2.len() == g2_width(fam)
    &&& forall|i: int| 0 <= i < b.gamma_abc_g1.len() ==> (#[trigger] b.gamma_abc_g1[i]).len()
        == g1_width(fam)
    &&& b.gamma_abc_g1.len() <= u32::MAX
    &&& b.proof_a.len() == g1_width(fam)
    &&& b.proof_b.len() == g2_width(fam)
    &&& b.proof_c.len() == g1_width(fam)
    &&& forall|i: int| 0 <= i < b.public_inputs.len() ==> (#[trigger] b.public_inputs[i]).len()
        == fr_width(fam)
    &&& b.public_inputs.len() <= u32::MAX
}

/// A circuit blob is well formed when each artifact fits its length prefix.
pub open spec fn blob_wf(c: CircuitBlobView) -> bool {
    &&& c.constraint_system.len() <= u32::MAX
    &&& c.witness_module.len() <= u32::MAX
}

/// Well-formedness of either shape.
pub open spec fn envelope_wf(e: EnvelopeView, fam: CurveFamily) -> bool {
    match e {
        EnvelopeView::ProofBundle(b) => bundle_wf(b, fam),
        EnvelopeView::CircuitBlob(c) => blob_wf(c),
    }
}

} // verus!
