use casper_circom::codec::decode_envelope;
use casper_circom::curve::CurveFamily;
use casper_circom::envelope::Envelope;
use casper_circom::generator::CircomGenerator;
use casper_circom::pipeline::{bls_encode_field_element, bn_encode_field_element, BlsFr, BnFr};

fn sample_generator() -> CircomGenerator {
    CircomGenerator {
        wasm: vec![0x00, 0x61, 0x73, 0x6D],
        r1cs: vec![0x72, 0x31, 0x63, 0x73, 0x01],
        proof_out: "proof.pem".to_string(),
        private_inputs: vec![("p1".to_string(), 7), ("p2".to_string(), 8)],
        public_inputs: vec![
            ("a".to_string(), 2),
            ("b".to_string(), 20),
            ("c".to_string(), 40),
        ],
    }
}

#[test]
fn bls_field_element_encoding() {
    let one = BlsFr { raw: ark_bls12_377::Fr::from(1u64) };
    let bytes = bls_encode_field_element(&one).unwrap();
    assert_eq!(bytes.len(), 32);
    assert_eq!(bytes[0], 1);
    assert!(bytes[1..].iter().all(|&b| b == 0));
    let x = BlsFr { raw: ark_bls12_377::Fr::from(258u64) };
    let xb = bls_encode_field_element(&x).unwrap();
    assert_eq!(xb[0], 2);
    assert_eq!(xb[1], 1);
}

#[test]
fn bn_field_element_encoding() {
    let one = BnFr { raw: ark_bn254::Fr::from(1u64) };
    let bytes = bn_encode_field_element(&one).unwrap();
    assert_eq!(bytes.len(), 32);
    assert_eq!(bytes[0], 1);
    assert!(bytes[1..].iter().all(|&b| b == 0));
}

#[test]
fn field_element_encoding_is_deterministic() {
    let a = BlsFr { raw: ark_bls12_377::Fr::from(123456789u64) };
    let b = BlsFr { raw: ark_bls12_377::Fr::from(123456789u64) };
    assert_eq!(
        bls_encode_field_element(&a).unwrap(),
        bls_encode_field_element(&b).unwrap()
    );
    let c = BlsFr { raw: ark_bls12_377::Fr::from(123456790u64) };
    assert_ne!(
        bls_encode_field_element(&a).unwrap(),
        bls_encode_field_element(&c).unwrap()
    );
}

#[test]
fn witness_push_order_is_private_then_public() {
    let generator = sample_generator();
    let order = generator.witness_push_order();
    let names: Vec<&str> = order.iter().map(|e| e.0.as_str()).collect();
    assert_eq!(names, vec!["p1", "p2", "a", "b", "c"]);
    let values: Vec<i32> = order.iter().map(|e| e.1).collect();
    assert_eq!(values, vec![7, 8, 2, 20, 40]);
}

#[test]
fn circuit_blob_packaging_round_trips() {
    let generator = sample_generator();
    let bytes = generator.pack_circuit_blob(CurveFamily::Bls12377).unwrap();
    let (fam, decoded) = decode_envelope(&bytes).unwrap();
    assert_eq!(fam, CurveFamily::Bls12377);
    match decoded {
        Envelope::CircuitBlob(blob) => {
            assert_eq!(blob.constraint_system, generator.r1cs);
            assert_eq!(blob.witness_module, generator.wasm);
        },
        Envelope::ProofBundle(_) => panic!("wrong shape"),
    }
}
