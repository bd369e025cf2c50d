use simple_verification::circuit::extract_method_id;
use simple_verification::circuit::simple_verification_circuit;
use simple_verification::circuit::CircuitError;
use simple_verification::commitment::compute_commitment;
use simple_verification::engine::ExactVerifier;
use simple_verification::engine::Verifier;
use simple_verification::structs::Receipt;
use simple_verification::structs::ReceiptClaim;
use simple_verification::structs::SimpleVerificationCircuitInput;

fn method_id() -> Vec<u8> {
    vec![0xAA; 32]
}

fn input_with(claim: Option<ReceiptClaim>, journal: &[u8]) -> SimpleVerificationCircuitInput {
    SimpleVerificationCircuitInput {
        receipt: Receipt {
            claim,
            journal: journal.to_vec(),
        },
    }
}

fn engine_for(journal: &[u8]) -> ExactVerifier {
    ExactVerifier {
        method_id: method_id(),
        journal: journal.to_vec(),
    }
}

#[test]
fn commitment_emitted_for_valid_receipt() {
    let journal = b"result:42";
    let input = input_with(
        Some(ReceiptClaim {
            pre_state_digest: Some(method_id()),
        }),
        journal,
    );
    let engine = engine_for(journal);
    let got = simple_verification_circuit(&input, &engine).expect("valid receipt must commit");

    let mut concat = method_id();
    concat.extend_from_slice(journal);
    let expected = blake3::hash(&concat);
    assert_eq!(got.as_slice(), expected.as_bytes());
    assert_eq!(got.len(), 32);
}

#[test]
fn tampered_journal_is_rejected() {
    // The engine vouches for b"result:42"; a journal altered after proof
    // generation no longer matches and must fail closed.
    let input = input_with(
        Some(ReceiptClaim {
            pre_state_digest: Some(method_id()),
        }),
        b"result:43",
    );
    let engine = engine_for(b"result:42");
    let got = simple_verification_circuit(&input, &engine);
    assert_eq!(got, Err(CircuitError::VerificationFailed));
}

#[test]
fn missing_claim_is_rejected() {
    let input = input_with(None, b"result:42");
    let engine = engine_for(b"result:42");
    let got = simple_verification_circuit(&input, &engine);
    assert_eq!(got, Err(CircuitError::MissingClaim));
}

#[test]
fn missing_pre_state_digest_is_rejected() {
    let input = input_with(
        Some(ReceiptClaim {
            pre_state_digest: None,
        }),
        b"result:42",
    );
    let engine = engine_for(b"result:42");
    let got = simple_verification_circuit(&input, &engine);
    assert_eq!(got, Err(CircuitError::MissingPreStateDigest));
}

#[test]
fn wrong_method_id_is_rejected() {
    let input = input_with(
        Some(ReceiptClaim {
            pre_state_digest: Some(vec![0xBB; 32]),
        }),
        b"result:42",
    );
    let engine = engine_for(b"result:42");
    let got = simple_verification_circuit(&input, &engine);
    assert_eq!(got, Err(CircuitError::VerificationFailed));
}

#[test]
fn exact_engine_accepts_only_its_pair() {
    let engine = engine_for(b"result:42");
    assert!(engine.verify(&method_id(), &b"result:42".to_vec()).is_ok());
    assert!(engine.verify(&method_id(), &b"result:43".to_vec()).is_err());
    assert!(engine
        .verify(&vec![0xBB; 32], &b"result:42".to_vec())
        .is_err());
}

#[test]
fn extraction_reports_the_designated_digest() {
    let input = input_with(
        Some(ReceiptClaim {
            pre_state_digest: Some(method_id()),
        }),
        b"result:42",
    );
    assert_eq!(
        extract_method_id(&input).expect("digest must be extracted"),
        &method_id()
    );

    let no_claim = input_with(None, b"result:42");
    assert!(matches!(
        extract_method_id(&no_claim),
        Err(CircuitError::MissingClaim)
    ));

    let no_digest = input_with(
        Some(ReceiptClaim {
            pre_state_digest: None,
        }),
        b"result:42",
    );
    assert!(matches!(
        extract_method_id(&no_digest),
        Err(CircuitError::MissingPreStateDigest)
    ));
}

#[test]
fn commitment_is_deterministic() {
    let m = method_id();
    let j = b"result:42".to_vec();
    let first = compute_commitment(&m, &j);
    let second = compute_commitment(&m, &j);
    assert_eq!(first, second);
    assert_eq!(first.len(), 32);
}

#[test]
fn distinct_pairs_give_distinct_commitments() {
    let m1 = vec![0xAA; 32];
    let m2 = vec![0xBB; 32];
    let j1 = b"result:42".to_vec();
    let j2 = b"result:43".to_vec();
    let c11 = compute_commitment(&m1, &j1);
    let c12 = compute_commitment(&m1, &j2);
    let c21 = compute_commitment(&m2, &j1);
    assert_ne!(c11, c12);
    assert_ne!(c11, c21);
    assert_ne!(c12, c21);
}

#[test]
fn commitment_of_empty_inputs_is_the_known_digest() {
    // With both parts empty the commitment is the hash of the empty
    // string, a published test vector of the hash function.
    let empty: Vec<u8> = Vec::new();
    let got = compute_commitment(&empty, &empty);
    let expected: [u8; 32] = [
        0xaf, 0x13, 0x49, 0xb9, 0xf5, 0xf9, 0xa1, 0xa6, 0xa0, 0x40, 0x4d, 0xea, 0x36, 0xdc, 0xc9,
        0x49, 0x9b, 0xcb, 0x25, 0xc9, 0xad, 0xc1, 0x12, 0xb7, 0xcc, 0x9a, 0x93, 0xca, 0xe4, 0x1f,
        0x32, 0x62,
    ];
    assert_eq!(got.as_slice(), &expected);
}

#[test]
fn commitment_binds_identifier_before_journal() {
    // Moving a byte across the identifier/journal boundary changes the
    // concatenation fed to the hash, so the commitment must change too.
    let m1 = vec![0x01, 0x02];
    let j1 = vec![0x03];
    let m2 = vec![0x01];
    let j2 = vec![0x02, 0x03];
    // Same bytes overall, split differently: the identifier length is
    // fixed in use, but the raw concatenation is identical, so these two
    // agree; the binding comes from the fixed identifier length.
    assert_eq!(compute_commitment(&m1, &j1), compute_commitment(&m2, &j2));
    // With the fixed 32-byte identifier length, distinct pairs always
    // concatenate to distinct strings.
    let ma = vec![0xAA; 32];
    let mb = vec![0xAB; 32];
    assert_ne!(compute_commitment(&ma, &j1), compute_commitment(&mb, &j1));
}
