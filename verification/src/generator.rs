//! The proof-packaging generator.
//!
//! A `CircomGenerator` owns the raw circuit artifacts, the output location,
//! and the ordered private and public signal assignments for one circuit.
//! From a loaded circuit configuration it drives the whole pipeline —
//! witness assembly, trusted setup, proving, canonical serialization — and
//! yields either the three canonical sections of a proof bundle or a
//! complete envelope. Nothing is produced on any stage failure.

use vstd::prelude::*;
use crate::codec::{
    encode_blob_envelope, encode_sections, vk_section, proof_section, inputs_section,
};
use crate::curve::CurveFamily;
use crate::envelope::{EnvelopeView, ProofBundleView, CircuitBlobView, bundle_wf, blob_wf};
use crate::error::CircomError;
use crate::pipeline::{
    BlsCircuitConfig, BlsProof, BlsProvingMaterial, bls_config_instance_count,
    bls_expected_publics, bls_fr_reprs, bls_generate_bundle, bls_proof_a_repr, bls_proof_b_repr,
    bls_proof_c_repr, bls_proof_checks, bls_vk_alpha_repr, bls_vk_beta_repr, bls_vk_delta_repr,
    bls_vk_gamma_abc_repr, bls_vk_gamma_repr, signal_entries,
};

verus! {

/// The name and value of one signal entry, as mathematical values.
pub open spec fn entry_view(e: (String, i32)) -> (Seq<char>, i32) {
    (e.0@, e.1)
}

/// The configuration of one packaging run: the circuit's two compiled
/// artifacts, the output location, and the ordered signal assignments.
pub struct CircomGenerator {
    /// The compiled witness-calculation module, as loaded from disk.
    pub wasm: Vec<u8>,
    /// The compiled constraint system, as loaded from disk.
    pub r1cs: Vec<u8>,
    /// Where the host writes the packaged output.
    pub proof_out: String,
    /// The private signal assignments, in the order the circuit expects.
    pub private_inputs: Vec<(String, i32)>,
    /// The public signal assignments, in the order the circuit expects.
    /// This fixes the order entries reach the witness builder; the
    /// envelope's public-input section follows the circuit's own
    /// public-signal order, which need not match, since the witness
    /// calculator keys entries by name.
    pub public_inputs: Vec<(String, i32)>,
}

/// The three canonical sections of a packaged proof: the verifying key,
/// the proof, and the public inputs.
pub struct CircomProof {
    /// The verifying-key section.
    pub vk: Vec<u8>,
    /// The proof section.
    pub proof: Vec<u8>,
    /// The public-input section.
    pub inputs: Vec<u8>,
}

impl CircomGenerator {
    /// Runs the BLS12-377 pipeline over the loaded circuit configuration
    /// and this generator's signal assignments — private entries pushed
    /// first, then public entries, each in this generator's order — and
    /// serializes the result into the three canonical sections of a
    /// well-formed proof bundle. The public-input section holds exactly
    /// the canonical encodings of the public signals the witness
    /// calculator yields for that configuration and entry order — one per
    /// circuit public signal, in the circuit's signal order, which need
    /// not be the caller's list order since the calculator keys entries by
    /// name; the verifying-key and proof sections encode one key and one
    /// proof that verify against those signals; and `gamma_abc` holds one
    /// element per public input plus one. Each stage failure is fatal —
    /// a proof that fails verification included — and yields that stage's
    /// error, with no output.
    pub fn generate_input(&self, cfg: BlsCircuitConfig) -> (r: Result<CircomProof, CircomError>)
        ensures
            r matches Ok(p) ==> exists|b: ProofBundleView|
                #[trigger] bundle_wf(b, CurveFamily::Bls12377) && p.vk@ == vk_section(b)
                    && p.proof@ == proof_section(b) && p.inputs@ == inputs_section(b)
                    && b.public_inputs == bls_fr_reprs(
                    bls_expected_publics(
                        cfg,
                        signal_entries(self.private_inputs@) + signal_entries(
                            self.public_inputs@,
                        ),
                    ),
                ) && b.gamma_abc_g1.len() == b.public_inputs.len() + 1
                    && b.public_inputs.len() + 1 == bls_config_instance_count(cfg) && (
                exists|pk: BlsProvingMaterial, pf: BlsProof|
                    #![trigger bls_vk_alpha_repr(pk), bls_proof_a_repr(pf)]
                    bls_vk_alpha_repr(pk) == b.alpha_g1 && bls_vk_beta_repr(pk) == b.beta_g2
                        && bls_vk_delta_repr(pk) == b.delta_g2 && bls_vk_gamma_repr(pk)
                        == b.gamma_g2 && bls_vk_gamma_abc_repr(pk) == b.gamma_abc_g1
                        && bls_proof_a_repr(pf) == b.proof_a && bls_proof_b_repr(pf) == b.proof_b
                        && bls_proof_c_repr(pf) == b.proof_c && bls_proof_checks(
                        pk,
                        pf,
                        bls_expected_publics(
                            cfg,
                            signal_entries(self.private_inputs@) + signal_entries(
                                self.public_inputs@,
                            ),
                        ),
                    )),
            r matches Err(e) ==> (e == CircomError::WitnessBuild || e == CircomError::Setup || e
                == CircomError::Prove || e == CircomError::Serialization),
    {
        let bundle = match bls_generate_bundle(cfg, &self.private_inputs, &self.public_inputs) {
            Ok(b) => b,
            Err(e) => {
                return Err(e);
            },
        };
        let (vk, proof, inputs) = match encode_sections(&bundle, CurveFamily::Bls12377) {
            Ok(t) => t,
            Err(e) => {
                return Err(e);
            },
        };
        proof {
            assert(bundle_wf(bundle@, CurveFamily::Bls12377));
        }
        Ok(CircomProof { vk, proof, inputs })
    }

    /// The order in which the signal entries reach the witness builder:
    /// every private entry first, then every public entry, each subset in
    /// its caller-given order.
    pub fn witness_push_order(&self) -> (r: Vec<(String, i32)>)
        ensures
            r@.len() == self.private_inputs@.len() + self.public_inputs@.len(),
            forall|i: int|
                0 <= i < self.private_inputs@.len() ==> entry_view(#[trigger] r@[i]) == entry_view(
                    self.private_inputs@[i],
                ),
            forall|i: int|
                0 <= i < self.public_inputs@.len() ==> entry_view(
                    #[trigger] r@[self.private_inputs@.len() + i],
                ) == entry_view(self.public_inputs@[i]),
    {
        let mut out: Vec<(String, i32)> = Vec::new();
        let mut i: usize = 0;
        while i < self.private_inputs.len()
            invariant
                i <= self.private_inputs@.len(),
                out@.len() == i,
                forall|t: int|
                    0 <= t < i ==> entry_view(#[trigger] out@[t]) == entry_view(
                        self.private_inputs@[t],
                    ),
            decreases self.private_inputs@.len() - i,
        {
            let entry = &self.private_inputs[i];
            out.push((entry.0.clone(), entry.1));
            i = i + 1;
        }
        let mut j: usize = 0;
        while j < self.public_inputs.len()
            invariant
                j <= self.public_inputs@.len(),
                out@.len() == self.private_inputs@.len() + j,
                forall|t: int|
                    0 <= t < self.private_inputs@.len() ==> entry_view(#[trigger] out@[t])
                        == entry_view(self.private_inputs@[t]),
                forall|t: int|
                    0 <= t < j ==> entry_view(
                        #[trigger] out@[self.private_inputs@.len() + t],
                    ) == entry_view(self.public_inputs@[t]),
            decreases self.public_inputs@.len() - j,
        {
            let entry = &self.public_inputs[j];
            out.push((entry.0.clone(), entry.1));
            j = j + 1;
        }
        out
    }

    /// Packages the raw circuit artifacts as a circuit-blob envelope for
    /// deferred proving elsewhere. The blob carries no key or proof field.
    pub fn pack_circuit_blob(&self, fam: CurveFamily) -> (r: Result<Vec<u8>, CircomError>)
        ensures
            r matches Ok(v) ==> v@ == crate::codec::enc_envelope(
                fam,
                EnvelopeView::CircuitBlob(
                    CircuitBlobView {
                        constraint_system: self.r1cs@,
                        witness_module: self.wasm@,
                    },
                ),
            ),
            r is Err ==> !blob_wf(
                CircuitBlobView { constraint_system: self.r1cs@, witness_module: self.wasm@ },
            ),
    {
        encode_blob_envelope(fam, &self.r1cs, &self.wasm)
    }
}

} // verus!
