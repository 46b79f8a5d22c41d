use casper_circom::codec::{decode_envelope, encode_envelope};
use casper_circom::curve::CurveFamily;
use casper_circom::envelope::{CircuitBlob, Envelope, ProofBundle};
use casper_circom::contract::{verifier_accepts, verifier_verdict};
use casper_circom::error::CircomError;

fn sample_bundle(g1: usize, g2: usize, fr: usize) -> ProofBundle {
    ProofBundle {
        alpha_g1: vec![1u8; g1],
        beta_g2: vec![2u8; g2],
        delta_g2: vec![3u8; g2],
        gamma_g2: vec![4u8; g2],
        gamma_abc_g1: vec![vec![5u8; g1], vec![6u8; g1]],
        proof_a: vec![7u8; g1],
        proof_b: vec![8u8; g2],
        proof_c: vec![9u8; g1],
        public_inputs: vec![vec![10u8; fr], vec![11u8; fr], vec![12u8; fr]],
    }
}

fn sample_blob() -> CircuitBlob {
    CircuitBlob {
        constraint_system: vec![0xAA, 0xBB, 0xCC],
        witness_module: vec![0x11, 0x22, 0x33, 0x44, 0x55],
    }
}

#[test]
fn proof_bundle_round_trip_bn254() {
    let bundle = sample_bundle(64, 128, 32);
    let bytes = encode_envelope(CurveFamily::Bn254, &Envelope::ProofBundle(bundle)).unwrap();
    let (fam, decoded) = decode_envelope(&bytes).unwrap();
    assert_eq!(fam, CurveFamily::Bn254);
    let d = match decoded {
        Envelope::ProofBundle(d) => d,
        Envelope::CircuitBlob(_) => panic!("wrong shape"),
    };
    let expected = sample_bundle(64, 128, 32);
    assert_eq!(d.alpha_g1, expected.alpha_g1);
    assert_eq!(d.beta_g2, expected.beta_g2);
    assert_eq!(d.delta_g2, expected.delta_g2);
    assert_eq!(d.gamma_g2, expected.gamma_g2);
    assert_eq!(d.gamma_abc_g1, expected.gamma_abc_g1);
    assert_eq!(d.proof_a, expected.proof_a);
    assert_eq!(d.proof_b, expected.proof_b);
    assert_eq!(d.proof_c, expected.proof_c);
    assert_eq!(d.public_inputs, expected.public_inputs);
    let reencoded = encode_envelope(CurveFamily::Bn254, &Envelope::ProofBundle(d)).unwrap();
    assert_eq!(reencoded, bytes);
}

#[test]
fn proof_bundle_round_trip_bls12_377() {
    let bundle = sample_bundle(96, 192, 32);
    let bytes = encode_envelope(CurveFamily::Bls12377, &Envelope::ProofBundle(bundle)).unwrap();
    let (fam, decoded) = decode_envelope(&bytes).unwrap();
    assert_eq!(fam, CurveFamily::Bls12377);
    let d = match decoded {
        Envelope::ProofBundle(d) => d,
        Envelope::CircuitBlob(_) => panic!("wrong shape"),
    };
    let reencoded = encode_envelope(CurveFamily::Bls12377, &Envelope::ProofBundle(d)).unwrap();
    assert_eq!(reencoded, bytes);
}

#[test]
fn circuit_blob_round_trip() {
    let blob = sample_blob();
    let bytes = encode_envelope(CurveFamily::Bls12377, &Envelope::CircuitBlob(blob)).unwrap();
    let (fam, decoded) = decode_envelope(&bytes).unwrap();
    assert_eq!(fam, CurveFamily::Bls12377);
    let d = match decoded {
        Envelope::CircuitBlob(d) => d,
        Envelope::ProofBundle(_) => panic!("wrong shape"),
    };
    let expected = sample_blob();
    assert_eq!(d.constraint_system, expected.constraint_system);
    assert_eq!(d.witness_module, expected.witness_module);
    let reencoded = encode_envelope(CurveFamily::Bls12377, &Envelope::CircuitBlob(d)).unwrap();
    assert_eq!(reencoded, bytes);
}

#[test]
fn envelope_header_bytes() {
    let bundle_bytes =
        encode_envelope(CurveFamily::Bn254, &Envelope::ProofBundle(sample_bundle(64, 128, 32)))
            .unwrap();
    assert_eq!(bundle_bytes[0], 1); // version
    assert_eq!(bundle_bytes[1], 1); // proof-bundle shape
    assert_eq!(bundle_bytes[2], 1); // BN254 family
    let blob_bytes =
        encode_envelope(CurveFamily::Bls12377, &Envelope::CircuitBlob(sample_blob())).unwrap();
    assert_eq!(blob_bytes[0], 1); // version
    assert_eq!(blob_bytes[1], 2); // circuit-blob shape
    assert_eq!(blob_bytes[2], 2); // BLS12-377 family
}

#[test]
fn envelope_shapes_are_exclusive() {
    let bundle_bytes =
        encode_envelope(CurveFamily::Bn254, &Envelope::ProofBundle(sample_bundle(64, 128, 32)))
            .unwrap();
    let blob_bytes =
        encode_envelope(CurveFamily::Bn254, &Envelope::CircuitBlob(sample_blob())).unwrap();
    assert_ne!(bundle_bytes, blob_bytes);
    assert_ne!(bundle_bytes[1], blob_bytes[1]);
    // A proof-bundle envelope never decodes as a circuit blob and holds no
    // artifact section; a circuit-blob envelope never decodes as a bundle
    // and holds no key or proof section.
    match decode_envelope(&bundle_bytes).unwrap().1 {
        Envelope::ProofBundle(_) => {},
        Envelope::CircuitBlob(_) => panic!("bundle decoded as blob"),
    }
    match decode_envelope(&blob_bytes).unwrap().1 {
        Envelope::CircuitBlob(_) => {},
        Envelope::ProofBundle(_) => panic!("blob decoded as bundle"),
    }
}

#[test]
fn public_input_order_is_preserved() {
    let mut bundle = sample_bundle(64, 128, 32);
    bundle.public_inputs = vec![vec![1u8; 32], vec![2u8; 32], vec![3u8; 32]];
    let bytes = encode_envelope(CurveFamily::Bn254, &Envelope::ProofBundle(bundle)).unwrap();
    // The envelope ends with the count-prefixed public inputs, in order.
    let tail = &bytes[bytes.len() - 96..];
    assert_eq!(&tail[0..32], &[1u8; 32]);
    assert_eq!(&tail[32..64], &[2u8; 32]);
    assert_eq!(&tail[64..96], &[3u8; 32]);
    // Permuting the inputs permutes the section identically.
    let mut permuted = sample_bundle(64, 128, 32);
    permuted.public_inputs = vec![vec![3u8; 32], vec![1u8; 32], vec![2u8; 32]];
    let pbytes = encode_envelope(CurveFamily::Bn254, &Envelope::ProofBundle(permuted)).unwrap();
    let ptail = &pbytes[pbytes.len() - 96..];
    assert_eq!(&ptail[0..32], &[3u8; 32]);
    assert_eq!(&ptail[32..64], &[1u8; 32]);
    assert_eq!(&ptail[64..96], &[2u8; 32]);
    // Everything before the public-input section is unchanged.
    assert_eq!(&bytes[..bytes.len() - 96], &pbytes[..pbytes.len() - 96]);
}

#[test]
fn encoding_is_deterministic() {
    let a = encode_envelope(CurveFamily::Bls12377, &Envelope::ProofBundle(sample_bundle(96, 192, 32)))
        .unwrap();
    let b = encode_envelope(CurveFamily::Bls12377, &Envelope::ProofBundle(sample_bundle(96, 192, 32)))
        .unwrap();
    assert_eq!(a, b);
}

#[test]
fn curve_parity_same_structure() {
    let bn = encode_envelope(CurveFamily::Bn254, &Envelope::ProofBundle(sample_bundle(64, 128, 32)))
        .unwrap();
    let bls =
        encode_envelope(CurveFamily::Bls12377, &Envelope::ProofBundle(sample_bundle(96, 192, 32)))
            .unwrap();
    // Same counts, same sections; lengths differ only through the widths:
    // 11 fixed bytes, 3 G1 fields, 4 G2 fields, 2 gamma_abc elements,
    // 3 public inputs.
    assert_eq!(bn.len(), 11 + 3 * 64 + 4 * 128 + 2 * 64 + 3 * 32);
    assert_eq!(bls.len(), 11 + 3 * 96 + 4 * 192 + 2 * 96 + 3 * 32);
    let (_, dbn) = decode_envelope(&bn).unwrap();
    let (_, dbls) = decode_envelope(&bls).unwrap();
    match (dbn, dbls) {
        (Envelope::ProofBundle(x), Envelope::ProofBundle(y)) => {
            assert_eq!(x.gamma_abc_g1.len(), y.gamma_abc_g1.len());
            assert_eq!(x.public_inputs.len(), y.public_inputs.len());
        },
        _ => panic!("wrong shapes"),
    }
}

#[test]
fn count_prefix_is_little_endian() {
    let bytes =
        encode_envelope(CurveFamily::Bn254, &Envelope::ProofBundle(sample_bundle(64, 128, 32)))
            .unwrap();
    // gamma_abc count sits right after the header and the four fixed
    // verifying-key fields.
    let off = 3 + 64 + 3 * 128;
    assert_eq!(&bytes[off..off + 4], &[2, 0, 0, 0]);
}

#[test]
fn encode_rejects_malformed_bundle() {
    let mut bundle = sample_bundle(64, 128, 32);
    bundle.alpha_g1 = vec![1u8; 63];
    let r = encode_envelope(CurveFamily::Bn254, &Envelope::ProofBundle(bundle));
    assert_eq!(r, Err(CircomError::Serialization));
    let mut bundle2 = sample_bundle(64, 128, 32);
    bundle2.public_inputs = vec![vec![0u8; 31]];
    let r2 = encode_envelope(CurveFamily::Bn254, &Envelope::ProofBundle(bundle2));
    assert_eq!(r2, Err(CircomError::Serialization));
}

#[test]
fn decode_rejects_corrupt_envelopes() {
    let good =
        encode_envelope(CurveFamily::Bn254, &Envelope::ProofBundle(sample_bundle(64, 128, 32)))
            .unwrap();
    let mut bad_version = good.clone();
    bad_version[0] = 9;
    assert!(decode_envelope(&bad_version).is_err());
    let mut bad_family = good.clone();
    bad_family[2] = 7;
    assert!(decode_envelope(&bad_family).is_err());
    let mut bad_shape = good.clone();
    bad_shape[1] = 3;
    assert!(decode_envelope(&bad_shape).is_err());
    let truncated = good[..good.len() - 1].to_vec();
    assert!(decode_envelope(&truncated).is_err());
    let mut trailing = good.clone();
    trailing.push(0);
    assert!(decode_envelope(&trailing).is_err());
    assert!(decode_envelope(&vec![]).is_err());
}

#[test]
fn error_codes_are_stable() {
    assert_eq!(CircomError::InvalidProof.code(), 0);
    assert_eq!(CircomError::CircuitLoad.code(), 1);
    assert_eq!(CircomError::WitnessBuild.code(), 2);
    assert_eq!(CircomError::Setup.code(), 3);
    assert_eq!(CircomError::Prove.code(), 4);
    assert_eq!(CircomError::Serialization.code(), 5);
    assert_eq!(CircomError::Io.code(), 6);
}

#[test]
fn verifier_verdict_accepts_only_the_byte_one() {
    assert!(verifier_accepts(&vec![1]));
    assert!(!verifier_accepts(&vec![0]));
    assert!(!verifier_accepts(&vec![]));
    assert!(!verifier_accepts(&vec![1, 1]));
    assert_eq!(verifier_verdict(&vec![1]), Ok(()));
    assert_eq!(verifier_verdict(&vec![0]), Err(CircomError::InvalidProof));
}
