use zk_payroll::proof_verifier::Groth16Proof;
use zk_payroll::proof_verifier::ProofVerifier;
use zk_payroll::proof_verifier::ShapeOnlyBackend;
use zk_payroll::proof_verifier::VerificationKey;
use zk_payroll::proof_verifier::VerifierError;

fn mock_verification_key() -> VerificationKey {
    VerificationKey {
        alpha: [1u8; 64],
        beta: [2u8; 128],
        gamma: [3u8; 128],
        delta: [4u8; 128],
        ic: vec![
            [5u8; 64], // ic[0] - constant term
            [6u8; 64], // ic[1] - corresponds to public_input[0]
            [7u8; 64], // ic[2] - corresponds to public_input[1]
        ],
    }
}

fn payment_key() -> VerificationKey {
    VerificationKey {
        alpha: [0u8; 64],
        beta: [0u8; 128],
        gamma: [0u8; 128],
        delta: [0u8; 128],
        ic: vec![[0u8; 64], [0u8; 64], [0u8; 64], [0u8; 64]],
    }
}

fn mock_proof() -> Groth16Proof {
    Groth16Proof { a: [8u8; 64], b: [8u8; 128], c: [8u8; 64] }
}

#[test]
fn test_initialize() {
    let mut verifier = ProofVerifier::new();
    let vk = payment_key();
    verifier.initialize(vk).unwrap();
}

#[test]
fn test_verify_payment_proof() {
    let mut verifier = ProofVerifier::new();
    verifier.initialize(payment_key()).unwrap();

    let proof = Groth16Proof { a: [0u8; 64], b: [0u8; 128], c: [0u8; 64] };
    let result = verifier
        .verify_payment_proof(&ShapeOnlyBackend, &proof, [0u8; 32], [1u8; 32], [2u8; 32])
        .unwrap();

    assert!(result);
}

#[test]
fn test_initialize_verifier_stores_vk() {
    let mut verifier = ProofVerifier::new();
    let vk = mock_verification_key();

    verifier.initialize(vk.clone()).unwrap();

    let stored_vk = verifier.get_verification_key().unwrap();
    assert_eq!(stored_vk.alpha, vk.alpha);
    assert_eq!(stored_vk.beta, vk.beta);
    assert_eq!(stored_vk.gamma, vk.gamma);
    assert_eq!(stored_vk.delta, vk.delta);
    assert_eq!(stored_vk.ic, vk.ic);
}

#[test]
fn test_verify_payment_proof_interface() {
    let mut verifier = ProofVerifier::new();
    verifier.initialize(mock_verification_key()).unwrap();

    let proof = mock_proof();

    // The number of public inputs must be exactly `ic.len() - 1` = 2.
    let public_inputs = vec![[11u8; 32], [12u8; 32]];

    let is_valid = verifier.verify_proof(&ShapeOnlyBackend, &proof, &public_inputs).unwrap();
    assert!(is_valid);
}

#[test]
fn test_verify_payment_proof_rejects_wrong_input_length() {
    let mut verifier = ProofVerifier::new();
    verifier.initialize(mock_verification_key()).unwrap();

    let proof = mock_proof();

    // Provide 1 input instead of the expected 2
    let short_inputs = vec![[11u8; 32]];

    let is_valid = verifier.verify_proof(&ShapeOnlyBackend, &proof, &short_inputs).unwrap();
    assert!(!is_valid);
}

#[test]
fn the_key_is_set_exactly_once() {
    let mut verifier = ProofVerifier::new();
    assert_eq!(verifier.get_verification_key(), Err(VerifierError::NotInitialized));
    assert_eq!(
        verifier.verify_proof(&ShapeOnlyBackend, &mock_proof(), &vec![[0u8; 32]]),
        Err(VerifierError::NotInitialized)
    );
    assert_eq!(verifier.initialize(mock_verification_key()), Ok(()));
    assert_eq!(verifier.initialize(payment_key()), Err(VerifierError::AlreadyInitialized));
    // The first key stays.
    assert_eq!(verifier.get_verification_key(), Ok(mock_verification_key()));
}

#[test]
fn the_number_of_inputs_decides_before_the_backend_is_asked() {
    let mut verifier = ProofVerifier::new();
    verifier.initialize(mock_verification_key()).unwrap();
    let proof = mock_proof();
    let two = vec![[1u8; 32], [2u8; 32]];
    let three = vec![[1u8; 32], [2u8; 32], [3u8; 32]];
    assert_eq!(verifier.verify_proof(&ShapeOnlyBackend, &proof, &two), Ok(true));
    assert_eq!(verifier.verify_proof(&ShapeOnlyBackend, &proof, &three), Ok(false));
    assert_eq!(verifier.verify_proof(&ShapeOnlyBackend, &proof, &Vec::new()), Ok(false));
    // A payment proof has three inputs; this key takes two.
    assert_eq!(
        verifier.verify_payment_proof(&ShapeOnlyBackend, &proof, [0u8; 32], [1u8; 32], [2u8; 32]),
        Ok(false)
    );

    let mut empty_key = mock_verification_key();
    empty_key.ic.clear();
    let mut keyless = ProofVerifier::new();
    keyless.initialize(empty_key).unwrap();
    assert_eq!(keyless.verify_proof(&ShapeOnlyBackend, &proof, &Vec::new()), Ok(false));
}

#[test]
fn a_batch_fails_on_a_bad_entry_or_on_its_shape() {
    let mut verifier = ProofVerifier::new();
    verifier.initialize(payment_key()).unwrap();
    let proof = mock_proof();
    let digests = vec![[1u8; 32], [2u8; 32]];
    let one = vec![[1u8; 32]];

    assert_eq!(
        verifier.verify_batch_proofs(&ShapeOnlyBackend, &vec![proof, proof], &digests, &digests, &digests),
        Ok(true)
    );
    assert_eq!(
        verifier.verify_batch_proofs(&ShapeOnlyBackend, &vec![proof, proof], &one, &digests, &digests),
        Ok(false)
    );
    assert_eq!(
        verifier.verify_batch_proofs(&ShapeOnlyBackend, &vec![proof, proof], &digests, &one, &digests),
        Ok(false)
    );
    assert_eq!(
        verifier.verify_batch_proofs(&ShapeOnlyBackend, &vec![proof, proof], &digests, &digests, &one),
        Ok(false)
    );
    assert_eq!(
        verifier.verify_batch_proofs(&ShapeOnlyBackend, &vec![proof], &digests, &digests, &digests),
        Ok(false)
    );
    let none: Vec<[u8; 32]> = Vec::new();
    assert_eq!(
        verifier.verify_batch_proofs(&ShapeOnlyBackend, &Vec::new(), &none, &none, &none),
        Ok(true)
    );

    // Under a key that takes two inputs no payment proof is valid.
    let mut narrow = ProofVerifier::new();
    narrow.initialize(mock_verification_key()).unwrap();
    assert_eq!(
        narrow.verify_batch_proofs(&ShapeOnlyBackend, &vec![proof, proof], &digests, &digests, &digests),
        Ok(false)
    );

    let unset = ProofVerifier::new();
    assert_eq!(
        unset.verify_batch_proofs(&ShapeOnlyBackend, &vec![proof, proof], &digests, &digests, &digests),
        Err(VerifierError::NotInitialized)
    );
    assert_eq!(
        unset.verify_batch_proofs(&ShapeOnlyBackend, &vec![proof], &digests, &digests, &digests),
        Ok(false)
    );
}
