//! The setup-and-prove pipeline, instantiated per curve family.
//!
//! Every call into the proving stack — circuit builder, trusted setup,
//! prover, canonical element serialization — goes through a trusted wrapper
//! whose contract states what the outside routine's source shows. Curve
//! values (configurations, builders, circuits, keys, proofs, field
//! elements) are carried in opaque holder types whose relevant contents are
//! named by uninterpreted spec functions; the serialized bytes they yield,
//! and everything downstream of those bytes, are verified. The two curve
//! families run the same pipeline shape with their own element widths.

use vstd::prelude::*;
use ark_circom::{CircomBuilder, CircomCircuit, CircomConfig};
use ark_groth16::{Groth16, Proof, ProvingKey};
use ark_crypto_primitives::snark::SNARK;
use ark_serialize::CanonicalSerialize;
use rand::rngs::ThreadRng;
use crate::curve::CurveFamily;
use crate::codec::encode_envelope;
use crate::envelope::{Envelope, ProofBundle, ProofBundleView, EnvelopeView, bundle_wf, envelope_wf, views_of};
use crate::error::CircomError;

verus! {

/// The name and value of each signal entry, in the order given.
pub open spec fn signal_entries(s: Seq<(String, i32)>) -> Seq<(Seq<char>, int)> {
    Seq::new(s.len(), |k: int| (s[k].0@, s[k].1 as int))
}

/// A thread-local cryptographically secure randomness source for the
/// trusted setup and the prover.
#[verifier::external_body]
pub struct RandomSource {
    raw: ThreadRng,
}

/// Relies on rand::thread_rng: a fresh handle on the thread-local
/// cryptographically secure generator, seeded by the operating system.
#[verifier::external_body]
pub fn fresh_random_source() -> RandomSource {
    RandomSource { raw: rand::thread_rng() }
}

// ---------------------------------------------------------------------------
// BLS12-377 pipeline
// ---------------------------------------------------------------------------

/// A loaded BLS12-377 circuit configuration: constraint system and witness
/// calculator, as the circom compatibility layer holds them.
#[verifier::external_body]
pub struct BlsCircuitConfig {
    /// The underlying configuration; the host loads it from the two
    /// artifact files and hands it in.
    pub raw: CircomConfig<ark_bls12_377::Fr>,
}

/// A BLS12-377 witness-input builder.
#[verifier::external_body]
pub struct BlsBuilder {
    raw: CircomBuilder<ark_bls12_377::Fr>,
}

/// A BLS12-377 circuit, with or without its witness.
#[verifier::external_body]
pub struct BlsCircuit {
    raw: CircomCircuit<ark_bls12_377::Fr>,
}

/// BLS12-377 Groth16 proving material: the proving key and, inside it, the
/// verifying key.
#[verifier::external_body]
pub struct BlsProvingMaterial {
    raw: ProvingKey<ark_bls12_377::Bls12_377>,
}

/// A BLS12-377 Groth16 proof: the elements `a`, `b`, `c`.
#[verifier::external_body]
pub struct BlsProof {
    raw: Proof<ark_bls12_377::Bls12_377>,
}

/// A BLS12-377 scalar-field element.
#[verifier::external_body]
pub struct BlsFr {
    /// The underlying field element.
    pub raw: ark_bls12_377::Fr,
}

/// The configuration a builder was created over.
pub uninterp spec fn bls_builder_config(b: BlsBuilder) -> BlsCircuitConfig;

/// The signal entries recorded in a builder, as (name, value) pairs in the
/// order they were pushed.
pub uninterp spec fn bls_builder_inputs(b: BlsBuilder) -> Seq<(Seq<char>, int)>;

/// The instance-variable count of a configuration's constraint system: the
/// constant-one wire plus each public signal.
pub uninterp spec fn bls_config_instance_count(cfg: BlsCircuitConfig) -> nat;

/// The instance-variable count of a circuit's constraint system.
pub uninterp spec fn bls_circuit_instance_count(c: BlsCircuit) -> nat;

/// The public-input elements a circuit carries: present exactly when its
/// witness has been calculated.
pub uninterp spec fn bls_circuit_publics(c: BlsCircuit) -> Option<Seq<BlsFr>>;

/// The public-input elements the witness calculator yields for a
/// configuration and a recorded entry sequence: a function of those two
/// alone, the same in every run.
pub uninterp spec fn bls_expected_publics(cfg: BlsCircuitConfig, entries: Seq<(Seq<char>, int)>) -> Seq<BlsFr>;

/// Whether a proof verifies against a key's verifying key and a
/// public-input sequence: the deterministic pairing check the external
/// verifier performs.
pub uninterp spec fn bls_proof_checks(pk: BlsProvingMaterial, proof: BlsProof, pubs: Seq<BlsFr>) -> bool;

/// The canonical uncompressed bytes of a BLS12-377 scalar-field element.
pub uninterp spec fn bls_fr_repr(x: BlsFr) -> Seq<u8>;

/// The canonical encodings of a sequence of field elements, in order.
pub open spec fn bls_fr_reprs(s: Seq<BlsFr>) -> Seq<Seq<u8>> {
    s.map_values(|x: BlsFr| bls_fr_repr(x))
}

/// The canonical uncompressed bytes of the verifying key's `alpha` element.
pub uninterp spec fn bls_vk_alpha_repr(pk: BlsProvingMaterial) -> Seq<u8>;

/// The canonical uncompressed bytes of the verifying key's `beta` element.
pub uninterp spec fn bls_vk_beta_repr(pk: BlsProvingMaterial) -> Seq<u8>;

/// The canonical uncompressed bytes of the verifying key's `gamma` element.
pub uninterp spec fn bls_vk_gamma_repr(pk: BlsProvingMaterial) -> Seq<u8>;

/// The canonical uncompressed bytes of the verifying key's `delta` element.
pub uninterp spec fn bls_vk_delta_repr(pk: BlsProvingMaterial) -> Seq<u8>;

/// The canonical uncompressed bytes of each verifying-key `gamma_abc`
/// element, in the key's order: one per instance variable.
pub uninterp spec fn bls_vk_gamma_abc_repr(pk: BlsProvingMaterial) -> Seq<Seq<u8>>;

/// The canonical uncompressed bytes of the proof element `a`.
pub uninterp spec fn bls_proof_a_repr(p: BlsProof) -> Seq<u8>;

/// The canonical uncompressed bytes of the proof element `b`.
pub uninterp spec fn bls_proof_b_repr(p: BlsProof) -> Seq<u8>;

/// The canonical uncompressed bytes of the proof element `c`.
pub uninterp spec fn bls_proof_c_repr(p: BlsProof) -> Seq<u8>;

/// Relies on ark_circom::CircomBuilder::new: a builder over the given
/// circuit configuration with no signal entry recorded yet.
#[verifier::external_body]
fn bls_builder_new(cfg: BlsCircuitConfig) -> (r: BlsBuilder)
    ensures
        bls_builder_config(r) == cfg,
        bls_builder_inputs(r).len() == 0,
{
    BlsBuilder { raw: CircomBuilder::new(cfg.raw) }
}

/// Relies on ark_circom::CircomBuilder::push_input: records one more named
/// signal value for witness calculation and touches nothing else.
#[verifier::external_body]
fn bls_push_input(builder: &mut BlsBuilder, name: &String, value: i32)
    ensures
        bls_builder_inputs(*final(builder)) == bls_builder_inputs(*old(builder)).push((name@, value as int)),
        bls_builder_config(*final(builder)) == bls_builder_config(*old(builder)),
{
    builder.raw.push_input(name, value);
}

/// Relies on ark_circom::CircomBuilder::setup: the witness-free circuit
/// used for trusted-setup parameter generation; it copies the builder's
/// constraint system, so its instance count is the configuration's.
#[verifier::external_body]
fn bls_builder_setup(builder: &BlsBuilder) -> (r: BlsCircuit)
    ensures
        bls_circuit_instance_count(r) == bls_config_instance_count(bls_builder_config(*builder)),
        bls_circuit_publics(r) is None,
{
    BlsCircuit { raw: builder.raw.setup() }
}

/// Relies on ark_circom::CircomBuilder::build: calculates the witness from
/// the configuration and the recorded entries alone — deterministically, so
/// two builds over equal values agree — and fails when the entries are
/// inconsistent with the circuit's signal table. The routine re-checks
/// constraint satisfaction only under debug assertions: a debug build
/// panics on a computed witness that does not satisfy the constraints,
/// while a release build returns it — the pipeline's post-prove
/// verification is what rejects such a run.
#[verifier::external_body]
fn bls_builder_build(builder: BlsBuilder) -> (r: Result<BlsCircuit, CircomError>)
    ensures
        r matches Ok(c) ==> bls_circuit_instance_count(c) == bls_config_instance_count(bls_builder_config(builder)) && bls_circuit_publics(c) == Some(bls_expected_publics(bls_builder_config(builder), bls_builder_inputs(builder))),
        r is Err ==> r->Err_0 == CircomError::WitnessBuild,
{
    match builder.raw.build() {
        Ok(c) => Ok(BlsCircuit { raw: c }),
        Err(_) => Err(CircomError::WitnessBuild),
    }
}

/// Relies on ark_groth16::Groth16::generate_random_parameters_with_reduction:
/// a fresh proving/verifying key pair for the circuit, drawn from the given
/// randomness source, whose `gamma_abc` holds one element per instance
/// variable; fails when key generation cannot satisfy the constraint
/// system.
#[verifier::external_body]
fn bls_setup(circuit: BlsCircuit, rng: &mut RandomSource) -> (r: Result<BlsProvingMaterial, CircomError>)
    ensures
        r matches Ok(pk) ==> bls_vk_gamma_abc_repr(pk).len() == bls_circuit_instance_count(circuit),
        r is Err ==> r->Err_0 == CircomError::Setup,
{
    match Groth16::<ark_bls12_377::Bls12_377>::generate_random_parameters_with_reduction(circuit.raw, &mut rng.raw) {
        Ok(pk) => Ok(BlsProvingMaterial { raw: pk }),
        Err(_) => Err(CircomError::Setup),
    }
}

/// Relies on ark_groth16::Groth16::create_random_proof_with_reduction: a
/// Groth16 proof over the witness-bearing circuit, randomized per call;
/// fails on synthesis errors. The routine checks constraint satisfaction
/// only under debug assertions: a debug build panics on an unsatisfying
/// witness, and a release build returns a proof that fails verification —
/// the pipeline therefore verifies every proof before packaging it.
#[verifier::external_body]
fn bls_prove(circuit: BlsCircuit, pk: &BlsProvingMaterial, rng: &mut RandomSource) -> (r: Result<BlsProof, CircomError>)
    ensures
        r is Err ==> r->Err_0 == CircomError::Prove,
{
    match Groth16::<ark_bls12_377::Bls12_377>::create_random_proof_with_reduction(circuit.raw, &pk.raw, &mut rng.raw) {
        Ok(p) => Ok(BlsProof { raw: p }),
        Err(_) => Err(CircomError::Prove),
    }
}

/// Relies on ark_groth16's Groth16 SNARK `verify` (preparing the verifying
/// key, then the pairing check): whether the proof verifies against the
/// key and these public inputs — a deterministic function of the three.
/// Fails only on a key/input-count mismatch.
#[verifier::external_body]
fn bls_verify_proof(pk: &BlsProvingMaterial, proof: &BlsProof, pubs: &Vec<BlsFr>) -> (r: Result<bool, CircomError>)
    ensures
        r matches Ok(v) ==> v == bls_proof_checks(*pk, *proof, pubs@),
        r is Err ==> r->Err_0 == CircomError::Prove,
{
    let elems: Vec<ark_bls12_377::Fr> = pubs.iter().map(|x| x.raw).collect();
    match Groth16::<ark_bls12_377::Bls12_377>::verify(&pk.raw.vk, &elems, &proof.raw) {
        Ok(v) => Ok(v),
        Err(_) => Err(CircomError::Prove),
    }
}

/// Relies on ark_circom::CircomCircuit::get_public_inputs: the circuit's
/// public-input field elements, in the circuit's signal order, present
/// exactly when the circuit carries a witness; one element per public
/// signal, that is one fewer than the instance count.
#[verifier::external_body]
fn bls_public_inputs(circuit: &BlsCircuit) -> (r: Option<Vec<BlsFr>>)
    ensures
        r is Some <==> bls_circuit_publics(*circuit) is Some,
        r matches Some(v) ==> v@ == bls_circuit_publics(*circuit)->Some_0 && v@.len() + 1 == bls_circuit_instance_count(*circuit),
{
    match circuit.raw.get_public_inputs() {
        Some(v) => Some(v.into_iter().map(|x| BlsFr { raw: x }).collect()),
        None => None,
    }
}

/// Relies on ark_serialize::CanonicalSerialize::serialize_uncompressed for
/// BLS12-377 scalar-field elements: 32 little-endian bytes, a function of
/// the element's value alone; writing to an in-memory buffer cannot fail.
#[verifier::external_body]
fn bls_fr_bytes(x: &BlsFr) -> (r: Result<Vec<u8>, CircomError>)
    ensures
        r is Ok,
        r matches Ok(v) ==> v@ == bls_fr_repr(*x) && v@.len() == 32,
{
    let mut out: Vec<u8> = Vec::new();
    match x.raw.serialize_uncompressed(&mut out) {
        Ok(()) => Ok(out),
        Err(_) => Err(CircomError::Serialization),
    }
}

/// Relies on ark_serialize::CanonicalSerialize::serialize_uncompressed for
/// BLS12-377 G1 points, applied to the verifying key's `alpha_g1` field:
/// 96 bytes, a function of the key alone; writing to an in-memory buffer
/// cannot fail.
#[verifier::external_body]
fn bls_vk_alpha_bytes(pk: &BlsProvingMaterial) -> (r: Result<Vec<u8>, CircomError>)
    ensures
        r is Ok,
        r matches Ok(v) ==> v@ == bls_vk_alpha_repr(*pk) && v@.len() == 96,
{
    let mut out: Vec<u8> = Vec::new();
    match pk.raw.vk.alpha_g1.serialize_uncompressed(&mut out) {
        Ok(()) => Ok(out),
        Err(_) => Err(CircomError::Serialization),
    }
}

/// Relies on ark_serialize::CanonicalSerialize::serialize_uncompressed for
/// BLS12-377 G2 points, applied to the verifying key's `beta_g2` field:
/// 192 bytes, a function of the key alone; writing to an in-memory buffer
/// cannot fail.
#[verifier::external_body]
fn bls_vk_beta_bytes(pk: &BlsProvingMaterial) -> (r: Result<Vec<u8>, CircomError>)
    ensures
        r is Ok,
        r matches Ok(v) ==> v@ == bls_vk_beta_repr(*pk) && v@.len() == 192,
{
    let mut out: Vec<u8> = Vec::new();
    match pk.raw.vk.beta_g2.serialize_uncompressed(&mut out) {
        Ok(()) => Ok(out),
        Err(_) => Err(CircomError::Serialization),
    }
}

/// Relies on ark_serialize::CanonicalSerialize::serialize_uncompressed for
/// BLS12-377 G2 points, applied to the verifying key's `gamma_g2` field:
/// 192 bytes, a function of the key alone; writing to an in-memory buffer
/// cannot fail.
#[verifier::external_body]
fn bls_vk_gamma_bytes(pk: &BlsProvingMaterial) -> (r: Result<Vec<u8>, CircomError>)
    ensures
        r is Ok,
        r matches Ok(v) ==> v@ == bls_vk_gamma_repr(*pk) && v@.len() == 192,
{
    let mut out: Vec<u8> = Vec::new();
    match pk.raw.vk.gamma_g2.serialize_uncompressed(&mut out) {
        Ok(()) => Ok(out),
        Err(_) => Err(CircomError::Serialization),
    }
}

/// Relies on ark_serialize::CanonicalSerialize::serialize_uncompressed for
/// BLS12-377 G2 points, applied to the verifying key's `delta_g2` field:
/// 192 bytes, a function of the key alone; writing to an in-memory buffer
/// cannot fail.
#[verifier::external_body]
fn bls_vk_delta_bytes(pk: &BlsProvingMaterial) -> (r: Result<Vec<u8>, CircomError>)
    ensures
        r is Ok,
        r matches Ok(v) ==> v@ == bls_vk_delta_repr(*pk) && v@.len() == 192,
{
    let mut out: Vec<u8> = Vec::new();
    match pk.raw.vk.delta_g2.serialize_uncompressed(&mut out) {
        Ok(()) => Ok(out),
        Err(_) => Err(CircomError::Serialization),
    }
}

/// Relies on Vec::len, applied to the verifying key's `gamma_abc_g1` field:
/// how many `gamma_abc` elements the key holds.
#[verifier::external_body]
fn bls_vk_gamma_abc_len(pk: &BlsProvingMaterial) -> (r: usize)
    ensures
        r == bls_vk_gamma_abc_repr(*pk).len(),
{
    pk.raw.vk.gamma_abc_g1.len()
}

/// Relies on ark_serialize::CanonicalSerialize::serialize_uncompressed for
/// BLS12-377 G1 points, applied to the verifying key's `gamma_abc_g1` element
/// `i`: 96 bytes each, functions of the key alone; writing to an
/// in-memory buffer cannot fail.
#[verifier::external_body]
fn bls_vk_gamma_abc_bytes(pk: &BlsProvingMaterial, i: usize) -> (r: Result<Vec<u8>, CircomError>)
    requires
        i < bls_vk_gamma_abc_repr(*pk).len(),
    ensures
        r is Ok,
        r matches Ok(v) ==> v@ == bls_vk_gamma_abc_repr(*pk)[i as int] && v@.len() == 96,
{
    let mut out: Vec<u8> = Vec::new();
    match pk.raw.vk.gamma_abc_g1[i].serialize_uncompressed(&mut out) {
        Ok(()) => Ok(out),
        Err(_) => Err(CircomError::Serialization),
    }
}

/// Relies on ark_serialize::CanonicalSerialize::serialize_uncompressed for
/// BLS12-377 G1 points, applied to the proof's `a` field: 96 bytes, a
/// function of the proof alone; writing to an in-memory buffer cannot fail.
#[verifier::external_body]
fn bls_proof_a_bytes(p: &BlsProof) -> (r: Result<Vec<u8>, CircomError>)
    ensures
        r is Ok,
        r matches Ok(v) ==> v@ == bls_proof_a_repr(*p) && v@.len() == 96,
{
    let mut out: Vec<u8> = Vec::new();
    match p.raw.a.serialize_uncompressed(&mut out) {
        Ok(()) => Ok(out),
        Err(_) => Err(CircomError::Serialization),
    }
}

/// Relies on ark_serialize::CanonicalSerialize::serialize_uncompressed for
/// BLS12-377 G2 points, applied to the proof's `b` field: 192 bytes, a
/// function of the proof alone; writing to an in-memory buffer cannot fail.
#[verifier::external_body]
fn bls_proof_b_bytes(p: &BlsProof) -> (r: Result<Vec<u8>, CircomError>)
    ensures
        r is Ok,
        r matches Ok(v) ==> v@ == bls_proof_b_repr(*p) && v@.len() == 192,
{
    let mut out: Vec<u8> = Vec::new();
    match p.raw.b.serialize_uncompressed(&mut out) {
        Ok(()) => Ok(out),
        Err(_) => Err(CircomError::Serialization),
    }
}

/// Relies on ark_serialize::CanonicalSerialize::serialize_uncompressed for
/// BLS12-377 G1 points, applied to the proof's `c` field: 96 bytes, a
/// function of the proof alone; writing to an in-memory buffer cannot fail.
#[verifier::external_body]
fn bls_proof_c_bytes(p: &BlsProof) -> (r: Result<Vec<u8>, CircomError>)
    ensures
        r is Ok,
        r matches Ok(v) ==> v@ == bls_proof_c_repr(*p) && v@.len() == 96,
{
    let mut out: Vec<u8> = Vec::new();
    match p.raw.c.serialize_uncompressed(&mut out) {
        Ok(()) => Ok(out),
        Err(_) => Err(CircomError::Serialization),
    }
}

/// Canonically encodes one BLS12-377 scalar-field element: the form every
/// public input takes in the envelope. Deterministic: the bytes are a
/// function of the element's value alone.
pub fn bls_encode_field_element(x: &BlsFr) -> (r: Result<Vec<u8>, CircomError>)
    ensures
        r is Ok,
        r matches Ok(v) ==> v@ == bls_fr_repr(*x) && v@.len() == 32,
{
    bls_fr_bytes(x)
}

/// Serializes the proving material's verifying key, the proof, and the
/// public-input elements into a proof bundle: every field is the canonical
/// encoding of the corresponding element, and the public inputs keep their
/// given order. Succeeds whenever both sequences fit their count prefix.
pub fn bls_assemble_bundle(
    pk: &BlsProvingMaterial,
    proof: &BlsProof,
    pubs: &Vec<BlsFr>,
) -> (r: Result<ProofBundle, CircomError>)
    ensures
        r matches Ok(b) ==> b@.alpha_g1 == bls_vk_alpha_repr(*pk) && b@.beta_g2
            == bls_vk_beta_repr(*pk) && b@.delta_g2 == bls_vk_delta_repr(*pk) && b@.gamma_g2
            == bls_vk_gamma_repr(*pk) && b@.gamma_abc_g1 == bls_vk_gamma_abc_repr(*pk)
            && b@.proof_a == bls_proof_a_repr(*proof) && b@.proof_b == bls_proof_b_repr(*proof)
            && b@.proof_c == bls_proof_c_repr(*proof) && b@.public_inputs == bls_fr_reprs(pubs@),
        r matches Ok(b) ==> bundle_wf(b@, CurveFamily::Bls12377),
        bls_vk_gamma_abc_repr(*pk).len() <= u32::MAX && pubs@.len() <= u32::MAX ==> r is Ok,
        r matches Err(e) ==> e == CircomError::Serialization,
{
    let alpha = match bls_vk_alpha_bytes(pk) {
        Ok(v) => v,
        Err(e) => { return Err(e); },
    };
    let beta = match bls_vk_beta_bytes(pk) {
        Ok(v) => v,
        Err(e) => { return Err(e); },
    };
    let gamma = match bls_vk_gamma_bytes(pk) {
        Ok(v) => v,
        Err(e) => { return Err(e); },
    };
    let delta = match bls_vk_delta_bytes(pk) {
        Ok(v) => v,
        Err(e) => { return Err(e); },
    };
    let n = bls_vk_gamma_abc_len(pk);
    let mut gabc: Vec<Vec<u8>> = Vec::new();
    let mut k: usize = 0;
    while k < n
        invariant
            k <= n,
            n == bls_vk_gamma_abc_repr(*pk).len(),
            gabc@.len() == k,
            views_of(gabc@) == bls_vk_gamma_abc_repr(*pk).take(k as int),
            forall|t: int| 0 <= t < k ==> (#[trigger] views_of(gabc@)[t]).len() == 96,
        decreases n - k,
    {
        let v = match bls_vk_gamma_abc_bytes(pk, k) {
            Ok(v) => v,
            Err(e) => { return Err(e); },
        };
        let ghost prev = gabc@;
        gabc.push(v);
        proof {
            assert(gabc@ == prev.push(v));
            assert(forall|t: int| 0 <= t < prev.len() ==> #[trigger] views_of(gabc@)[t]
                == views_of(prev)[t]);
            assert(views_of(gabc@)[prev.len() as int] == v@);
            assert(views_of(gabc@) =~= bls_vk_gamma_abc_repr(*pk).take(k as int + 1));
        }
        k = k + 1;
    }
    proof {
        assert(bls_vk_gamma_abc_repr(*pk).take(n as int) =~= bls_vk_gamma_abc_repr(*pk));
    }
    let pa = match bls_proof_a_bytes(proof) {
        Ok(v) => v,
        Err(e) => { return Err(e); },
    };
    let pb = match bls_proof_b_bytes(proof) {
        Ok(v) => v,
        Err(e) => { return Err(e); },
    };
    let pc = match bls_proof_c_bytes(proof) {
        Ok(v) => v,
        Err(e) => { return Err(e); },
    };
    let mut pub_bytes: Vec<Vec<u8>> = Vec::new();
    let mut m: usize = 0;
    while m < pubs.len()
        invariant
            m <= pubs@.len(),
            pub_bytes@.len() == m,
            views_of(pub_bytes@) == bls_fr_reprs(pubs@).take(m as int),
            forall|t: int| 0 <= t < m ==> (#[trigger] views_of(pub_bytes@)[t]).len() == 32,
        decreases pubs@.len() - m,
    {
        let v = match bls_fr_bytes(&pubs[m]) {
            Ok(v) => v,
            Err(e) => { return Err(e); },
        };
        let ghost prev = pub_bytes@;
        pub_bytes.push(v);
        proof {
            assert(pub_bytes@ == prev.push(v));
            assert(forall|t: int| 0 <= t < prev.len() ==> #[trigger] views_of(pub_bytes@)[t]
                == views_of(prev)[t]);
            assert(views_of(pub_bytes@)[prev.len() as int] == v@);
            assert(bls_fr_reprs(pubs@)[m as int] == bls_fr_repr(pubs@[m as int]));
            assert(views_of(pub_bytes@) =~= bls_fr_reprs(pubs@).take(m as int + 1));
        }
        m = m + 1;
    }
    proof {
        assert(bls_fr_reprs(pubs@).take(pubs@.len() as int) =~= bls_fr_reprs(pubs@));
    }
    if gabc.len() > u32::MAX as usize {
        return Err(CircomError::Serialization);
    }
    if pub_bytes.len() > u32::MAX as usize {
        return Err(CircomError::Serialization);
    }
    let bundle = ProofBundle {
        alpha_g1: alpha,
        beta_g2: beta,
        delta_g2: delta,
        gamma_g2: gamma,
        gamma_abc_g1: gabc,
        proof_a: pa,
        proof_b: pb,
        proof_c: pc,
        public_inputs: pub_bytes,
    };
    assert(bundle_wf(bundle@, CurveFamily::Bls12377));
    Ok(bundle)
}

/// Runs the whole BLS12-377 pipeline: pushes the private entries first, then
/// the public entries, each in caller order; runs the trusted setup, builds
/// the witness, proves, verifies the proof, and serializes every element
/// canonically. On success the bundle is well formed; its public-input
/// section holds the canonical encodings of exactly the public signals the
/// witness calculator yields for this configuration and entry order — one
/// per circuit public signal, in the circuit's signal order, which need
/// not be the caller's list order since the calculator keys entries by
/// name; its verifying-key and proof fields are the canonical encodings of
/// one key and one proof that verify against those public signals; and
/// `gamma_abc` holds one element per public input plus one. Every stage
/// failure is fatal and yields that stage's error, with no bundle: a proof
/// that fails verification — an unsatisfying witness — yields the Prove
/// error and nothing is packaged.
pub fn bls_generate_bundle(
    cfg: BlsCircuitConfig,
    private_inputs: &Vec<(String, i32)>,
    public_inputs: &Vec<(String, i32)>,
) -> (r: Result<ProofBundle, CircomError>)
    ensures
        r matches Ok(b) ==> bundle_wf(b@, CurveFamily::Bls12377),
        r matches Ok(b) ==> b@.public_inputs == bls_fr_reprs(
            bls_expected_publics(
                cfg,
                signal_entries(private_inputs@) + signal_entries(public_inputs@),
            ),
        ),
        r matches Ok(b) ==> b@.gamma_abc_g1.len() == b@.public_inputs.len() + 1,
        r matches Ok(b) ==> b@.public_inputs.len() + 1 == bls_config_instance_count(cfg),
        r matches Ok(b) ==> (exists|pk: BlsProvingMaterial, pf: BlsProof|
            #![trigger bls_vk_alpha_repr(pk), bls_proof_a_repr(pf)]
            bls_vk_alpha_repr(pk) == b@.alpha_g1 && bls_vk_beta_repr(pk) == b@.beta_g2
                && bls_vk_delta_repr(pk) == b@.delta_g2 && bls_vk_gamma_repr(pk) == b@.gamma_g2
                && bls_vk_gamma_abc_repr(pk) == b@.gamma_abc_g1 && bls_proof_a_repr(pf)
                == b@.proof_a && bls_proof_b_repr(pf) == b@.proof_b && bls_proof_c_repr(pf)
                == b@.proof_c && bls_proof_checks(
                pk,
                pf,
                bls_expected_publics(
                    cfg,
                    signal_entries(private_inputs@) + signal_entries(public_inputs@),
                ),
            )),
        r matches Err(e) ==> (e == CircomError::WitnessBuild || e == CircomError::Setup || e
            == CircomError::Prove || e == CircomError::Serialization),
{
    let ghost entries = signal_entries(private_inputs@) + signal_entries(public_inputs@);
    let mut builder = bls_builder_new(cfg);
    proof {
        assert(bls_builder_inputs(builder) =~= signal_entries(private_inputs@).take(0));
    }
    let mut i: usize = 0;
    while i < private_inputs.len()
        invariant
            i <= private_inputs@.len(),
            bls_builder_config(builder) == cfg,
            bls_builder_inputs(builder) == signal_entries(private_inputs@).take(i as int),
        decreases private_inputs@.len() - i,
    {
        let entry = &private_inputs[i];
        bls_push_input(&mut builder, &entry.0, entry.1);
        proof {
            assert(signal_entries(private_inputs@).take(i as int).push(
                (private_inputs@[i as int].0@, private_inputs@[i as int].1 as int),
            ) =~= signal_entries(private_inputs@).take(i as int + 1));
        }
        i = i + 1;
    }
    proof {
        assert(signal_entries(private_inputs@).take(private_inputs@.len() as int)
            =~= signal_entries(private_inputs@));
        assert(signal_entries(private_inputs@) + signal_entries(public_inputs@).take(0)
            =~= signal_entries(private_inputs@));
    }
    let mut j: usize = 0;
    while j < public_inputs.len()
        invariant
            j <= public_inputs@.len(),
            bls_builder_config(builder) == cfg,
            bls_builder_inputs(builder) == signal_entries(private_inputs@) + signal_entries(
                public_inputs@,
            ).take(j as int),
        decreases public_inputs@.len() - j,
    {
        let entry = &public_inputs[j];
        bls_push_input(&mut builder, &entry.0, entry.1);
        proof {
            assert((signal_entries(private_inputs@) + signal_entries(public_inputs@).take(
                j as int,
            )).push((public_inputs@[j as int].0@, public_inputs@[j as int].1 as int))
                =~= signal_entries(private_inputs@) + signal_entries(public_inputs@).take(
                j as int + 1,
            ));
        }
        j = j + 1;
    }
    proof {
        assert(signal_entries(public_inputs@).take(public_inputs@.len() as int)
            =~= signal_entries(public_inputs@));
        assert(bls_builder_inputs(builder) == entries);
    }
    let setup_circuit = bls_builder_setup(&builder);
    let mut rng = fresh_random_source();
    let pk = match bls_setup(setup_circuit, &mut rng) {
        Ok(k) => k,
        Err(e) => { return Err(e); },
    };
    let circuit = match bls_builder_build(builder) {
        Ok(c) => c,
        Err(e) => { return Err(e); },
    };
    let pub_elems = match bls_public_inputs(&circuit) {
        Some(v) => v,
        None => { return Err(CircomError::WitnessBuild); },
    };
    let proof = match bls_prove(circuit, &pk, &mut rng) {
        Ok(p) => p,
        Err(e) => { return Err(e); },
    };
    let checked = match bls_verify_proof(&pk, &proof, &pub_elems) {
        Ok(v) => v,
        Err(e) => { return Err(e); },
    };
    if !checked {
        return Err(CircomError::Prove);
    }
    let bundle = match bls_assemble_bundle(&pk, &proof, &pub_elems) {
        Ok(b) => b,
        Err(e) => { return Err(e); },
    };
    proof {
        assert(bls_vk_alpha_repr(pk) == bundle@.alpha_g1);
        assert(bls_proof_a_repr(proof) == bundle@.proof_a);
        assert(bls_proof_checks(pk, proof, bls_expected_publics(cfg, entries)));
    }
    Ok(bundle)
}

// ---------------------------------------------------------------------------
// BN254 pipeline
// ---------------------------------------------------------------------------

/// A loaded BN254 circuit configuration: constraint system and witness
/// calculator, as the circom compatibility layer holds them.
#[verifier::external_body]
pub struct BnCircuitConfig {
    /// The underlying configuration; the host loads it from the two
    /// artifact files and hands it in.
    pub raw: CircomConfig<ark_bn254::Fr>,
}

/// A BN254 witness-input builder.
#[verifier::external_body]
pub struct BnBuilder {
    raw: CircomBuilder<ark_bn254::Fr>,
}

/// A BN254 circuit, with or without its witness.
#[verifier::external_body]
pub struct BnCircuit {
    raw: CircomCircuit<ark_bn254::Fr>,
}

/// BN254 Groth16 proving material: the proving key and, inside it, the
/// verifying key.
#[verifier::external_body]
pub struct BnProvingMaterial {
    raw: ProvingKey<ark_bn254::Bn254>,
}

/// A BN254 Groth16 proof: the elements `a`, `b`, `c`.
#[verifier::external_body]
pub struct BnProof {
    raw: Proof<ark_bn254::Bn254>,
}

/// A BN254 scalar-field element.
#[verifier::external_body]
pub struct BnFr {
    /// The underlying field element.
    pub raw: ark_bn254::Fr,
}

/// The configuration a builder was created over.
pub uninterp spec fn bn_builder_config(b: BnBuilder) -> BnCircuitConfig;

/// The signal entries recorded in a builder, as (name, value) pairs in the
/// order they were pushed.
pub uninterp spec fn bn_builder_inputs(b: BnBuilder) -> Seq<(Seq<char>, int)>;

/// The instance-variable count of a configuration's constraint system: the
/// constant-one wire plus each public signal.
pub uninterp spec fn bn_config_instance_count(cfg: BnCircuitConfig) -> nat;

/// The instance-variable count of a circuit's constraint system.
pub uninterp spec fn bn_circuit_instance_count(c: BnCircuit) -> nat;

/// The public-input elements a circuit carries: present exactly when its
/// witness has been calculated.
pub uninterp spec fn bn_circuit_publics(c: BnCircuit) -> Option<Seq<BnFr>>;

/// The public-input elements the witness calculator yields for a
/// configuration and a recorded entry sequence: a function of those two
/// alone, the same in every run.
pub uninterp spec fn bn_expected_publics(cfg: BnCircuitConfig, entries: Seq<(Seq<char>, int)>) -> Seq<BnFr>;

/// Whether a proof verifies against a key's verifying key and a
/// public-input sequence: the deterministic pairing check the external
/// verifier performs.
pub uninterp spec fn bn_proof_checks(pk: BnProvingMaterial, proof: BnProof, pubs: Seq<BnFr>) -> bool;

/// The canonical uncompressed bytes of a BN254 scalar-field element.
pub uninterp spec fn bn_fr_repr(x: BnFr) -> Seq<u8>;

/// The canonical encodings of a sequence of field elements, in order.
pub open spec fn bn_fr_reprs(s: Seq<BnFr>) -> Seq<Seq<u8>> {
    s.map_values(|x: BnFr| bn_fr_repr(x))
}

/// The canonical uncompressed bytes of the verifying key's `alpha` element.
pub uninterp spec fn bn_vk_alpha_repr(pk: BnProvingMaterial) -> Seq<u8>;

/// The canonical uncompressed bytes of the verifying key's `beta` element.
pub uninterp spec fn bn_vk_beta_repr(pk: BnProvingMaterial) -> Seq<u8>;

/// The canonical uncompressed bytes of the verifying key's `gamma` element.
pub uninterp spec fn bn_vk_gamma_repr(pk: BnProvingMaterial) -> Seq<u8>;

/// The canonical uncompressed bytes of the verifying key's `delta` element.
pub uninterp spec fn bn_vk_delta_repr(pk: BnProvingMaterial) -> Seq<u8>;

/// The canonical uncompressed bytes of each verifying-key `gamma_abc`
/// element, in the key's order: one per instance variable.
pub uninterp spec fn bn_vk_gamma_abc_repr(pk: BnProvingMaterial) -> Seq<Seq<u8>>;

/// The canonical uncompressed bytes of the proof element `a`.
pub uninterp spec fn bn_proof_a_repr(p: BnProof) -> Seq<u8>;

/// The canonical uncompressed bytes of the proof element `b`.
pub uninterp spec fn bn_proof_b_repr(p: BnProof) -> Seq<u8>;

/// The canonical uncompressed bytes of the proof element `c`.
pub uninterp spec fn bn_proof_c_repr(p: BnProof) -> Seq<u8>;

/// Relies on ark_circom::CircomBuilder::new: a builder over the given
/// circuit configuration with no signal entry recorded yet.
#[verifier::external_body]
fn bn_builder_new(cfg: BnCircuitConfig) -> (r: BnBuilder)
    ensures
        bn_builder_config(r) == cfg,
        bn_builder_inputs(r).len() == 0,
{
    BnBuilder { raw: CircomBuilder::new(cfg.raw) }
}

/// Relies on ark_circom::CircomBuilder::push_input: records one more named
/// signal value for witness calculation and touches nothing else.
#[verifier::external_body]
fn bn_push_input(builder: &mut BnBuilder, name: &String, value: i32)
    ensures
        bn_builder_inputs(*final(builder)) == bn_builder_inputs(*old(builder)).push((name@, value as int)),
        bn_builder_config(*final(builder)) == bn_builder_config(*old(builder)),
{
    builder.raw.push_input(name, value);
}

/// Relies on ark_circom::CircomBuilder::setup: the witness-free circuit
/// used for trusted-setup parameter generation; it copies the builder's
/// constraint system, so its instance count is the configuration's.
#[verifier::external_body]
fn bn_builder_setup(builder: &BnBuilder) -> (r: BnCircuit)
    ensures
        bn_circuit_instance_count(r) == bn_config_instance_count(bn_builder_config(*builder)),
        bn_circuit_publics(r) is None,
{
    BnCircuit { raw: builder.raw.setup() }
}

/// Relies on ark_circom::CircomBuilder::build: calculates the witness from
/// the configuration and the recorded entries alone — deterministically, so
/// two builds over equal values agree — and fails when the entries are
/// inconsistent with the circuit's signal table. The routine re-checks
/// constraint satisfaction only under debug assertions: a debug build
/// panics on a computed witness that does not satisfy the constraints,
/// while a release build returns it — the pipeline's post-prove
/// verification is what rejects such a run.
#[verifier::external_body]
fn bn_builder_build(builder: BnBuilder) -> (r: Result<BnCircuit, CircomError>)
    ensures
        r matches Ok(c) ==> bn_circuit_instance_count(c) == bn_config_instance_count(bn_builder_config(builder)) && bn_circuit_publics(c) == Some(bn_expected_publics(bn_builder_config(builder), bn_builder_inputs(builder))),
        r is Err ==> r->Err_0 == CircomError::WitnessBuild,
{
    match builder.raw.build() {
        Ok(c) => Ok(BnCircuit { raw: c }),
        Err(_) => Err(CircomError::WitnessBuild),
    }
}

/// Relies on ark_groth16::Groth16::generate_random_parameters_with_reduction:
/// a fresh proving/verifying key pair for the circuit, drawn from the given
/// randomness source, whose `gamma_abc` holds one element per instance
/// variable; fails when key generation cannot satisfy the constraint
/// system.
#[verifier::external_body]
fn bn_setup(circuit: BnCircuit, rng: &mut RandomSource) -> (r: Result<BnProvingMaterial, CircomError>)
    ensures
        r matches Ok(pk) ==> bn_vk_gamma_abc_repr(pk).len() == bn_circuit_instance_count(circuit),
        r is Err ==> r->Err_0 == CircomError::Setup,
{
    match Groth16::<ark_bn254::Bn254>::generate_random_parameters_with_reduction(circuit.raw, &mut rng.raw) {
        Ok(pk) => Ok(BnProvingMaterial { raw: pk }),
        Err(_) => Err(CircomError::Setup),
    }
}

/// Relies on ark_groth16::Groth16::create_random_proof_with_reduction: a
/// Groth16 proof over the witness-bearing circuit, randomized per call;
/// fails on synthesis errors. The routine checks constraint satisfaction
/// only under debug assertions: a debug build panics on an unsatisfying
/// witness, and a release build returns a proof that fails verification —
/// the pipeline therefore verifies every proof before packaging it.
#[verifier::external_body]
fn bn_prove(circuit: BnCircuit, pk: &BnProvingMaterial, rng: &mut RandomSource) -> (r: Result<BnProof, CircomError>)
    ensures
        r is Err ==> r->Err_0 == CircomError::Prove,
{
    match Groth16::<ark_bn254::Bn254>::create_random_proof_with_reduction(circuit.raw, &pk.raw, &mut rng.raw) {
        Ok(p) => Ok(BnProof { raw: p }),
        Err(_) => Err(CircomError::Prove),
    }
}

/// Relies on ark_groth16's Groth16 SNARK `verify` (preparing the verifying
/// key, then the pairing check): whether the proof verifies against the
/// key and these public inputs — a deterministic function of the three.
/// Fails only on a key/input-count mismatch.
#[verifier::external_body]
fn bn_verify_proof(pk: &BnProvingMaterial, proof: &BnProof, pubs: &Vec<BnFr>) -> (r: Result<bool, CircomError>)
    ensures
        r matches Ok(v) ==> v == bn_proof_checks(*pk, *proof, pubs@),
        r is Err ==> r->Err_0 == CircomError::Prove,
{
    let elems: Vec<ark_bn254::Fr> = pubs.iter().map(|x| x.raw).collect();
    match Groth16::<ark_bn254::Bn254>::verify(&pk.raw.vk, &elems, &proof.raw) {
        Ok(v) => Ok(v),
        Err(_) => Err(CircomError::Prove),
    }
}

/// Relies on ark_circom::CircomCircuit::get_public_inputs: the circuit's
/// public-input field elements, in the circuit's signal order, present
/// exactly when the circuit carries a witness; one element per public
/// signal, that is one fewer than the instance count.
#[verifier::external_body]
fn bn_public_inputs(circuit: &BnCircuit) -> (r: Option<Vec<BnFr>>)
    ensures
        r is Some <==> bn_circuit_publics(*circuit) is Some,
        r matches Some(v) ==> v@ == bn_circuit_publics(*circuit)->Some_0 && v@.len() + 1 == bn_circuit_instance_count(*circuit),
{
    match circuit.raw.get_public_inputs() {
        Some(v) => Some(v.into_iter().map(|x| BnFr { raw: x }).collect()),
        None => None,
    }
}

/// Relies on ark_serialize::CanonicalSerialize::serialize_uncompressed for
/// BN254 scalar-field elements: 32 little-endian bytes, a function of
/// the element's value alone; writing to an in-memory buffer cannot fail.
#[verifier::external_body]
fn bn_fr_bytes(x: &BnFr) -> (r: Result<Vec<u8>, CircomError>)
    ensures
        r is Ok,
        r matches Ok(v) ==> v@ == bn_fr_repr(*x) && v@.len() == 32,
{
    let mut out: Vec<u8> = Vec::new();
    match x.raw.serialize_uncompressed(&mut out) {
        Ok(()) => Ok(out),
        Err(_) => Err(CircomError::Serialization),
    }
}

/// Relies on ark_serialize::CanonicalSerialize::serialize_uncompressed for
/// BN254 G1 points, applied to the verifying key's `alpha_g1` field:
/// 64 bytes, a function of the key alone; writing to an in-memory buffer
/// cannot fail.
#[verifier::external_body]
fn bn_vk_alpha_bytes(pk: &BnProvingMaterial) -> (r: Result<Vec<u8>, CircomError>)
    ensures
        r is Ok,
        r matches Ok(v) ==> v@ == bn_vk_alpha_repr(*pk) && v@.len() == 64,
{
    let mut out: Vec<u8> = Vec::new();
    match pk.raw.vk.alpha_g1.serialize_uncompressed(&mut out) {
        Ok(()) => Ok(out),
        Err(_) => Err(CircomError::Serialization),
    }
}

/// Relies on ark_serialize::CanonicalSerialize::serialize_uncompressed for
/// BN254 G2 points, applied to the verifying key's `beta_g2` field:
/// 128 bytes, a function of the key alone; writing to an in-memory buffer
/// cannot fail.
#[verifier::external_body]
fn bn_vk_beta_bytes(pk: &BnProvingMaterial) -> (r: Result<Vec<u8>, CircomError>)
    ensures
        r is Ok,
        r matches Ok(v) ==> v@ == bn_vk_beta_repr(*pk) && v@.len() == 128,
{
    let mut out: Vec<u8> = Vec::new();
    match pk.raw.vk.beta_g2.serialize_uncompressed(&mut out) {
        Ok(()) => Ok(out),
        Err(_) => Err(CircomError::Serialization),
    }
}

/// Relies on ark_serialize::CanonicalSerialize::serialize_uncompressed for
/// BN254 G2 points, applied to the verifying key's `gamma_g2` field:
/// 128 bytes, a function of the key alone; writing to an in-memory buffer
/// cannot fail.
#[verifier::external_body]
fn bn_vk_gamma_bytes(pk: &BnProvingMaterial) -> (r: Result<Vec<u8>, CircomError>)
    ensures
        r is Ok,
        r matches Ok(v) ==> v@ == bn_vk_gamma_repr(*pk) && v@.len() == 128,
{
    let mut out: Vec<u8> = Vec::new();
    match pk.raw.vk.gamma_g2.serialize_uncompressed(&mut out) {
        Ok(()) => Ok(out),
        Err(_) => Err(CircomError::Serialization),
    }
}

/// Relies on ark_serialize::CanonicalSerialize::serialize_uncompressed for
/// BN254 G2 points, applied to the verifying key's `delta_g2` field:
/// 128 bytes, a function of the key alone; writing to an in-memory buffer
/// cannot fail.
#[verifier::external_body]
fn bn_vk_delta_bytes(pk: &BnProvingMaterial) -> (r: Result<Vec<u8>, CircomError>)
    ensures
        r is Ok,
        r matches Ok(v) ==> v@ == bn_vk_delta_repr(*pk) && v@.len() == 128,
{
    let mut out: Vec<u8> = Vec::new();
    match pk.raw.vk.delta_g2.serialize_uncompressed(&mut out) {
        Ok(()) => Ok(out),
        Err(_) => Err(CircomError::Serialization),
    }
}

/// Relies on Vec::len, applied to the verifying key's `gamma_abc_g1` field:
/// how many `gamma_abc` elements the key holds.
#[verifier::external_body]
fn bn_vk_gamma_abc_len(pk: &BnProvingMaterial) -> (r: usize)
    ensures
        r == bn_vk_gamma_abc_repr(*pk).len(),
{
    pk.raw.vk.gamma_abc_g1.len()
}

/// Relies on ark_serialize::CanonicalSerialize::serialize_uncompressed for
/// BN254 G1 points, applied to the verifying key's `gamma_abc_g1` element
/// `i`: 64 bytes each, functions of the key alone; writing to an
/// in-memory buffer cannot fail.
#[verifier::external_body]
fn bn_vk_gamma_abc_bytes(pk: &BnProvingMaterial, i: usize) -> (r: Result<Vec<u8>, CircomError>)
    requires
        i < bn_vk_gamma_abc_repr(*pk).len(),
    ensures
        r is Ok,
        r matches Ok(v) ==> v@ == bn_vk_gamma_abc_repr(*pk)[i as int] && v@.len() == 64,
{
    let mut out: Vec<u8> = Vec::new();
    match pk.raw.vk.gamma_abc_g1[i].serialize_uncompressed(&mut out) {
        Ok(()) => Ok(out),
        Err(_) => Err(CircomError::Serialization),
    }
}

/// Relies on ark_serialize::CanonicalSerialize::serialize_uncompressed for
/// BN254 G1 points, applied to the proof's `a` field: 64 bytes, a
/// function of the proof alone; writing to an in-memory buffer cannot fail.
#[verifier::external_body]
fn bn_proof_a_bytes(p: &BnProof) -> (r: Result<Vec<u8>, CircomError>)
    ensures
        r is Ok,
        r matches Ok(v) ==> v@ == bn_proof_a_repr(*p) && v@.len() == 64,
{
    let mut out: Vec<u8> = Vec::new();
    match p.raw.a.serialize_uncompressed(&mut out) {
        Ok(()) => Ok(out),
        Err(_) => Err(CircomError::Serialization),
    }
}

/// Relies on ark_serialize::CanonicalSerialize::serialize_uncompressed for
/// BN254 G2 points, applied to the proof's `b` field: 128 bytes, a
/// function of the proof alone; writing to an in-memory buffer cannot fail.
#[verifier::external_body]
fn bn_proof_b_bytes(p: &BnProof) -> (r: Result<Vec<u8>, CircomError>)
    ensures
        r is Ok,
        r matches Ok(v) ==> v@ == bn_proof_b_repr(*p) && v@.len() == 128,
{
    let mut out: Vec<u8> = Vec::new();
    match p.raw.b.serialize_uncompressed(&mut out) {
        Ok(()) => Ok(out),
        Err(_) => Err(CircomError::Serialization),
    }
}

/// Relies on ark_serialize::CanonicalSerialize::serialize_uncompressed for
/// BN254 G1 points, applied to the proof's `c` field: 64 bytes, a
/// function of the proof alone; writing to an in-memory buffer cannot fail.
#[verifier::external_body]
fn bn_proof_c_bytes(p: &BnProof) -> (r: Result<Vec<u8>, CircomError>)
    ensures
        r is Ok,
        r matches Ok(v) ==> v@ == bn_proof_c_repr(*p) && v@.len() == 64,
{
    let mut out: Vec<u8> = Vec::new();
    match p.raw.c.serialize_uncompressed(&mut out) {
        Ok(()) => Ok(out),
        Err(_) => Err(CircomError::Serialization),
    }
}

/// Canonically encodes one BN254 scalar-field element: the form every
/// public input takes in the envelope. Deterministic: the bytes are a
/// function of the element's value alone.
pub fn bn_encode_field_element(x: &BnFr) -> (r: Result<Vec<u8>, CircomError>)
    ensures
        r is Ok,
        r matches Ok(v) ==> v@ == bn_fr_repr(*x) && v@.len() == 32,
{
    bn_fr_bytes(x)
}

/// Serializes the proving material's verifying key, the proof, and the
/// public-input elements into a proof bundle: every field is the canonical
/// encoding of the corresponding element, and the public inputs keep their
/// given order. Succeeds whenever both sequences fit their count prefix.
pub fn bn_assemble_bundle(
    pk: &BnProvingMaterial,
    proof: &BnProof,
    pubs: &Vec<BnFr>,
) -> (r: Result<ProofBundle, CircomError>)
    ensures
        r matches Ok(b) ==> b@.alpha_g1 == bn_vk_alpha_repr(*pk) && b@.beta_g2
            == bn_vk_beta_repr(*pk) && b@.delta_g2 == bn_vk_delta_repr(*pk) && b@.gamma_g2
            == bn_vk_gamma_repr(*pk) && b@.gamma_abc_g1 == bn_vk_gamma_abc_repr(*pk)
            && b@.proof_a == bn_proof_a_repr(*proof) && b@.proof_b == bn_proof_b_repr(*proof)
            && b@.proof_c == bn_proof_c_repr(*proof) && b@.public_inputs == bn_fr_reprs(pubs@),
        r matches Ok(b) ==> bundle_wf(b@, CurveFamily::Bn254),
        bn_vk_gamma_abc_repr(*pk).len() <= u32::MAX && pubs@.len() <= u32::MAX ==> r is Ok,
        r matches Err(e) ==> e == CircomError::Serialization,
{
    let alpha = match bn_vk_alpha_bytes(pk) {
        Ok(v) => v,
        Err(e) => { return Err(e); },
    };
    let beta = match bn_vk_beta_bytes(pk) {
        Ok(v) => v,
        Err(e) => { return Err(e); },
    };
    let gamma = match bn_vk_gamma_bytes(pk) {
        Ok(v) => v,
        Err(e) => { return Err(e); },
    };
    let delta = match bn_vk_delta_bytes(pk) {
        Ok(v) => v,
        Err(e) => { return Err(e); },
    };
    let n = bn_vk_gamma_abc_len(pk);
    let mut gabc: Vec<Vec<u8>> = Vec::new();
    let mut k: usize = 0;
    while k < n
        invariant
            k <= n,
            n == bn_vk_gamma_abc_repr(*pk).len(),
            gabc@.len() == k,
            views_of(gabc@) == bn_vk_gamma_abc_repr(*pk).take(k as int),
            forall|t: int| 0 <= t < k ==> (#[trigger] views_of(gabc@)[t]).len() == 64,
        decreases n - k,
    {
        let v = match bn_vk_gamma_abc_bytes(pk, k) {
            Ok(v) => v,
            Err(e) => { return Err(e); },
        };
        let ghost prev = gabc@;
        gabc.push(v);
        proof {
            assert(gabc@ == prev.push(v));
            assert(forall|t: int| 0 <= t < prev.len() ==> #[trigger] views_of(gabc@)[t]
                == views_of(prev)[t]);
            assert(views_of(gabc@)[prev.len() as int] == v@);
            assert(views_of(gabc@) =~= bn_vk_gamma_abc_repr(*pk).take(k as int + 1));
        }
        k = k + 1;
    }
    proof {
        assert(bn_vk_gamma_abc_repr(*pk).take(n as int) =~= bn_vk_gamma_abc_repr(*pk));
    }
    let pa = match bn_proof_a_bytes(proof) {
        Ok(v) => v,
        Err(e) => { return Err(e); },
    };
    let pb = match bn_proof_b_bytes(proof) {
        Ok(v) => v,
        Err(e) => { return Err(e); },
    };
    let pc = match bn_proof_c_bytes(proof) {
        Ok(v) => v,
        Err(e) => { return Err(e); },
    };
    let mut pub_bytes: Vec<Vec<u8>> = Vec::new();
    let mut m: usize = 0;
    while m < pubs.len()
        invariant
            m <= pubs@.len(),
            pub_bytes@.len() == m,
            views_of(pub_bytes@) == bn_fr_reprs(pubs@).take(m as int),
            forall|t: int| 0 <= t < m ==> (#[trigger] views_of(pub_bytes@)[t]).len() == 32,
        decreases pubs@.len() - m,
    {
        let v = match bn_fr_bytes(&pubs[m]) {
            Ok(v) => v,
            Err(e) => { return Err(e); },
        };
        let ghost prev = pub_bytes@;
        pub_bytes.push(v);
        proof {
            assert(pub_bytes@ == prev.push(v));
            assert(forall|t: int| 0 <= t < prev.len() ==> #[trigger] views_of(pub_bytes@)[t]
                == views_of(prev)[t]);
            assert(views_of(pub_bytes@)[prev.len() as int] == v@);
            assert(bn_fr_reprs(pubs@)[m as int] == bn_fr_repr(pubs@[m as int]));
            assert(views_of(pub_bytes@) =~= bn_fr_reprs(pubs@).take(m as int + 1));
        }
        m = m + 1;
    }
    proof {
        assert(bn_fr_reprs(pubs@).take(pubs@.len() as int) =~= bn_fr_reprs(pubs@));
    }
    if gabc.len() > u32::MAX as usize {
        return Err(CircomError::Serialization);
    }
    if pub_bytes.len() > u32::MAX as usize {
        return Err(CircomError::Serialization);
    }
    let bundle = ProofBundle {
        alpha_g1: alpha,
        beta_g2: beta,
        delta_g2: delta,
        gamma_g2: gamma,
        gamma_abc_g1: gabc,
        proof_a: pa,
        proof_b: pb,
        proof_c: pc,
        public_inputs: pub_bytes,
    };
    assert(bundle_wf(bundle@, CurveFamily::Bn254));
    Ok(bundle)
}

/// Runs the whole BN254 pipeline: pushes the private entries first, then
/// the public entries, each in caller order; runs the trusted setup, builds
/// the witness, proves, verifies the proof, and serializes every element
/// canonically. On success the bundle is well formed; its public-input
/// section holds the canonical encodings of exactly the public signals the
/// witness calculator yields for this configuration and entry order — one
/// per circuit public signal, in the circuit's signal order, which need
/// not be the caller's list order since the calculator keys entries by
/// name; its verifying-key and proof fields are the canonical encodings of
/// one key and one proof that verify against those public signals; and
/// `gamma_abc` holds one element per public input plus one. Every stage
/// failure is fatal and yields that stage's error, with no bundle: a proof
/// that fails verification — an unsatisfying witness — yields the Prove
/// error and nothing is packaged.
pub fn bn_generate_bundle(
    cfg: BnCircuitConfig,
    private_inputs: &Vec<(String, i32)>,
    public_inputs: &Vec<(String, i32)>,
) -> (r: Result<ProofBundle, CircomError>)
    ensures
        r matches Ok(b) ==> bundle_wf(b@, CurveFamily::Bn254),
        r matches Ok(b) ==> b@.public_inputs == bn_fr_reprs(
            bn_expected_publics(
                cfg,
                signal_entries(private_inputs@) + signal_entries(public_inputs@),
            ),
        ),
        r matches Ok(b) ==> b@.gamma_abc_g1.len() == b@.public_inputs.len() + 1,
        r matches Ok(b) ==> b@.public_inputs.len() + 1 == bn_config_instance_count(cfg),
        r matches Ok(b) ==> (exists|pk: BnProvingMaterial, pf: BnProof|
            #![trigger bn_vk_alpha_repr(pk), bn_proof_a_repr(pf)]
            bn_vk_alpha_repr(pk) == b@.alpha_g1 && bn_vk_beta_repr(pk) == b@.beta_g2
                && bn_vk_delta_repr(pk) == b@.delta_g2 && bn_vk_gamma_repr(pk) == b@.gamma_g2
                && bn_vk_gamma_abc_repr(pk) == b@.gamma_abc_g1 && bn_proof_a_repr(pf)
                == b@.proof_a && bn_proof_b_repr(pf) == b@.proof_b && bn_proof_c_repr(pf)
                == b@.proof_c && bn_proof_checks(
                pk,
                pf,
                bn_expected_publics(
                    cfg,
                    signal_entries(private_inputs@) + signal_entries(public_inputs@),
                ),
            )),
        r matches Err(e) ==> (e == CircomError::WitnessBuild || e == CircomError::Setup || e
            == CircomError::Prove || e == CircomError::Serialization),
{
    let ghost entries = signal_entries(private_inputs@) + signal_entries(public_inputs@);
    let mut builder = bn_builder_new(cfg);
    proof {
        assert(bn_builder_inputs(builder) =~= signal_entries(private_inputs@).take(0));
    }
    let mut i: usize = 0;
    while i < private_inputs.len()
        invariant
            i <= private_inputs@.len(),
            bn_builder_config(builder) == cfg,
            bn_builder_inputs(builder) == signal_entries(private_inputs@).take(i as int),
        decreases private_inputs@.len() - i,
    {
        let entry = &private_inputs[i];
        bn_push_input(&mut builder, &entry.0, entry.1);
        proof {
            assert(signal_entries(private_inputs@).take(i as int).push(
                (private_inputs@[i as int].0@, private_inputs@[i as int].1 as int),
            ) =~= signal_entries(private_inputs@).take(i as int + 1));
        }
        i = i + 1;
    }
    proof {
        assert(signal_entries(private_inputs@).take(private_inputs@.len() as int)
            =~= signal_entries(private_inputs@));
        assert(signal_entries(private_inputs@) + signal_entries(public_inputs@).take(0)
            =~= signal_entries(private_inputs@));
    }
    let mut j: usize = 0;
    while j < public_inputs.len()
        invariant
            j <= public_inputs@.len(),
            bn_builder_config(builder) == cfg,
            bn_builder_inputs(builder) == signal_entries(private_inputs@) + signal_entries(
                public_inputs@,
            ).take(j as int),
        decreases public_inputs@.len() - j,
    {
        let entry = &public_inputs[j];
        bn_push_input(&mut builder, &entry.0, entry.1);
        proof {
            assert((signal_entries(private_inputs@) + signal_entries(public_inputs@).take(
                j as int,
            )).push((public_inputs@[j as int].0@, public_inputs@[j as int].1 as int))
                =~= signal_entries(private_inputs@) + signal_entries(public_inputs@).take(
                j as int + 1,
            ));
        }
        j = j + 1;
    }
    proof {
        assert(signal_entries(public_inputs@).take(public_inputs@.len() as int)
            =~= signal_entries(public_inputs@));
        assert(bn_builder_inputs(builder) == entries);
    }
    let setup_circuit = bn_builder_setup(&builder);
    let mut rng = fresh_random_source();
    let pk = match bn_setup(setup_circuit, &mut rng) {
        Ok(k) => k,
        Err(e) => { return Err(e); },
    };
    let circuit = match bn_builder_build(builder) {
        Ok(c) => c,
        Err(e) => { return Err(e); },
    };
    let pub_elems = match bn_public_inputs(&circuit) {
        Some(v) => v,
        None => { return Err(CircomError::WitnessBuild); },
    };
    let proof = match bn_prove(circuit, &pk, &mut rng) {
        Ok(p) => p,
        Err(e) => { return Err(e); },
    };
    let checked = match bn_verify_proof(&pk, &proof, &pub_elems) {
        Ok(v) => v,
        Err(e) => { return Err(e); },
    };
    if !checked {
        return Err(CircomError::Prove);
    }
    let bundle = match bn_assemble_bundle(&pk, &proof, &pub_elems) {
        Ok(b) => b,
        Err(e) => { return Err(e); },
    };
    proof {
        assert(bn_vk_alpha_repr(pk) == bundle@.alpha_g1);
        assert(bn_proof_a_repr(proof) == bundle@.proof_a);
        assert(bn_proof_checks(pk, proof, bn_expected_publics(cfg, entries)));
    }
    Ok(bundle)
}

// ---------------------------------------------------------------------------
// Curve dispatcher
// ---------------------------------------------------------------------------

/// A loaded circuit configuration, tagged by its curve family.
pub enum CircuitConfig {
    /// A circuit loaded for BN254.
    Bn254(BnCircuitConfig),
    /// A circuit loaded for BLS12-377.
    Bls12377(BlsCircuitConfig),
}

/// The curve family a configuration was loaded for.
pub open spec fn config_family(c: CircuitConfig) -> CurveFamily {
    match c {
        CircuitConfig::Bn254(_) => CurveFamily::Bn254,
        CircuitConfig::Bls12377(_) => CurveFamily::Bls12377,
    }
}

/// The canonical public-input section contents that the configuration's
/// pipeline yields for a recorded entry sequence.
pub open spec fn dispatched_publics(cfg: CircuitConfig, entries: Seq<(Seq<char>, int)>) -> Seq<
    Seq<u8>,
> {
    match cfg {
        CircuitConfig::Bn254(c) => bn_fr_reprs(bn_expected_publics(c, entries)),
        CircuitConfig::Bls12377(c) => bls_fr_reprs(bls_expected_publics(c, entries)),
    }
}

/// Whether some proving key and proof of the configuration's family attest
/// the bundle: every verifying-key and proof field is that key's or that
/// proof's canonical encoding, and the proof verifies against the key and
/// the public signals expected for the recorded entries.
pub open spec fn dispatched_attestation(
    cfg: CircuitConfig,
    b: ProofBundleView,
    entries: Seq<(Seq<char>, int)>,
) -> bool {
    match cfg {
        CircuitConfig::Bn254(c) => exists|pk: BnProvingMaterial, pf: BnProof|
            #![trigger bn_vk_alpha_repr(pk), bn_proof_a_repr(pf)]
            bn_vk_alpha_repr(pk) == b.alpha_g1 && bn_vk_beta_repr(pk) == b.beta_g2
                && bn_vk_delta_repr(pk) == b.delta_g2 && bn_vk_gamma_repr(pk) == b.gamma_g2
                && bn_vk_gamma_abc_repr(pk) == b.gamma_abc_g1 && bn_proof_a_repr(pf) == b.proof_a
                && bn_proof_b_repr(pf) == b.proof_b && bn_proof_c_repr(pf) == b.proof_c
                && bn_proof_checks(pk, pf, bn_expected_publics(c, entries)),
        CircuitConfig::Bls12377(c) => exists|pk: BlsProvingMaterial, pf: BlsProof|
            #![trigger bls_vk_alpha_repr(pk), bls_proof_a_repr(pf)]
            bls_vk_alpha_repr(pk) == b.alpha_g1 && bls_vk_beta_repr(pk) == b.beta_g2
                && bls_vk_delta_repr(pk) == b.delta_g2 && bls_vk_gamma_repr(pk) == b.gamma_g2
                && bls_vk_gamma_abc_repr(pk) == b.gamma_abc_g1 && bls_proof_a_repr(pf)
                == b.proof_a && bls_proof_b_repr(pf) == b.proof_b && bls_proof_c_repr(pf)
                == b.proof_c && bls_proof_checks(pk, pf, bls_expected_publics(c, entries)),
    }
}

/// Runs the pipeline for the configuration's curve family and packages the
/// result as a proof-bundle envelope. The two families produce the same
/// envelope shape, differing only in element byte widths; the envelope's
/// public-input section holds exactly the canonical encodings of the public
/// signals the witness calculator yields for this configuration and entry
/// order — the circuit's signal order, which need not be the caller's list
/// order — and the key and proof fields are attested by a proof that
/// verifies against those signals. On any stage failure, a proof that
/// fails verification included, no envelope is produced, and the error
/// names the failing stage.
pub fn generate_envelope(
    cfg: CircuitConfig,
    private_inputs: &Vec<(String, i32)>,
    public_inputs: &Vec<(String, i32)>,
) -> (r: Result<Vec<u8>, CircomError>)
    ensures
        r matches Ok(v) ==> exists|b: ProofBundleView|
            #[trigger] bundle_wf(b, config_family(cfg)) && v@ == crate::codec::enc_envelope(
                config_family(cfg),
                EnvelopeView::ProofBundle(b),
            ) && b.public_inputs == dispatched_publics(
                cfg,
                signal_entries(private_inputs@) + signal_entries(public_inputs@),
            ) && b.gamma_abc_g1.len() == b.public_inputs.len() + 1 && dispatched_attestation(
                cfg,
                b,
                signal_entries(private_inputs@) + signal_entries(public_inputs@),
            ),
        r matches Err(e) ==> (e == CircomError::WitnessBuild || e == CircomError::Setup || e
            == CircomError::Prove || e == CircomError::Serialization),
{
    match cfg {
        CircuitConfig::Bn254(c) => {
            let bundle = match bn_generate_bundle(c, private_inputs, public_inputs) {
                Ok(b) => b,
                Err(e) => { return Err(e); },
            };
            let env = Envelope::ProofBundle(bundle);
            assert(envelope_wf(env@, CurveFamily::Bn254));
            match encode_envelope(CurveFamily::Bn254, &env) {
                Ok(v) => {
                    assert(bundle_wf(env@->ProofBundle_0, CurveFamily::Bn254));
                    Ok(v)
                },
                Err(e) => Err(e),
            }
        },
        CircuitConfig::Bls12377(c) => {
            let bundle = match bls_generate_bundle(c, private_inputs, public_inputs) {
                Ok(b) => b,
                Err(e) => { return Err(e); },
            };
            let env = Envelope::ProofBundle(bundle);
            assert(envelope_wf(env@, CurveFamily::Bls12377));
            match encode_envelope(CurveFamily::Bls12377, &env) {
                Ok(v) => {
                    assert(bundle_wf(env@->ProofBundle_0, CurveFamily::Bls12377));
                    Ok(v)
                },
                Err(e) => Err(e),
            }
        },
    }
}

/// Determinism of element encoding: the canonical bytes of a scalar-field
/// element, a verifying-key element, or a proof element are functions of
/// the mathematical value alone — encoding the same value twice yields
/// byte-identical output, however the value was computed.
pub proof fn lemma_element_encoding_deterministic(
    x: BlsFr,
    y: BlsFr,
    pk1: BlsProvingMaterial,
    pk2: BlsProvingMaterial,
    p1: BlsProof,
    p2: BlsProof,
)
    requires
        x == y,
        pk1 == pk2,
        p1 == p2,
    ensures
        bls_fr_repr(x) == bls_fr_repr(y),
        bls_vk_alpha_repr(pk1) == bls_vk_alpha_repr(pk2),
        bls_vk_gamma_abc_repr(pk1) == bls_vk_gamma_abc_repr(pk2),
        bls_proof_a_repr(p1) == bls_proof_a_repr(p2),
{
}

} // verus!
