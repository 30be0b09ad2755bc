use zk_guess_game::proof_service::{Error, HonkOutcome, MockVerifier, UltraHonkVerifierContract};

const PROOF_LEN: usize = 14080;

fn accept_all(_vk: &Vec<u8>, _proof: &Vec<u8>, _pi: &Vec<u8>) -> HonkOutcome {
    HonkOutcome::Accepted
}

#[test]
fn test_verify_fails_without_vk() {
    let contract = UltraHonkVerifierContract::new(PROOF_LEN);
    let public_inputs = vec![0u8; 32];
    let proof_bytes = vec![0u8; 32];
    let result = contract.verify_proof(&public_inputs, &proof_bytes, accept_all);
    assert_eq!(result, Err(Error::VkNotSet));
}

#[test]
fn verify_without_vk_ignores_proof_length_and_outcome() {
    let contract = UltraHonkVerifierContract::new(PROOF_LEN);
    let proof = vec![7u8; PROOF_LEN];
    assert_eq!(
        contract.verify_proof(&vec![1u8; 64], &proof, accept_all),
        Err(Error::VkNotSet)
    );
    assert!(!contract.is_initialized());
}

#[test]
fn second_initialize_is_refused_and_keeps_first_key() {
    let mut contract = UltraHonkVerifierContract::new(PROOF_LEN);
    assert_eq!(contract.initialize(vec![1, 2, 3]), Ok(()));
    assert!(contract.is_initialized());
    assert_eq!(contract.initialize(vec![9, 9]), Err(Error::AlreadyInitialized));
    assert_eq!(contract.vk, Some(vec![1, 2, 3]));
}

#[test]
fn initialize_with_empty_key_then_again() {
    let mut contract = UltraHonkVerifierContract::new(PROOF_LEN);
    assert_eq!(contract.initialize(Vec::new()), Ok(()));
    assert_eq!(contract.initialize(Vec::new()), Err(Error::AlreadyInitialized));
}

#[test]
fn wrong_length_proof_is_a_parse_error() {
    let mut contract = UltraHonkVerifierContract::new(PROOF_LEN);
    contract.initialize(vec![5u8; 10]).unwrap();
    for len in [0usize, 1, 32, PROOF_LEN - 1, PROOF_LEN + 1] {
        let proof = vec![0u8; len];
        assert_eq!(
            contract.verify_proof(&vec![0u8; 64], &proof, accept_all),
            Err(Error::ProofParseError)
        );
    }
}

#[test]
fn outcome_of_primitive_decides_after_prechecks() {
    let mut contract = UltraHonkVerifierContract::new(PROOF_LEN);
    contract.initialize(vec![5u8; 10]).unwrap();
    let proof = vec![3u8; PROOF_LEN];
    let pi = vec![0u8; 64];
    assert_eq!(contract.verify_proof(&pi, &proof, accept_all), Ok(()));
    assert_eq!(
        contract.verify_proof(&pi, &proof, |_: &Vec<u8>, _: &Vec<u8>, _: &Vec<u8>| {
            HonkOutcome::Rejected
        }),
        Err(Error::VerificationFailed)
    );
    assert_eq!(
        contract.verify_proof(&pi, &proof, |_: &Vec<u8>, _: &Vec<u8>, _: &Vec<u8>| {
            HonkOutcome::KeyUnreadable
        }),
        Err(Error::VkParseError)
    );
}

#[test]
fn primitive_receives_key_proof_and_inputs() {
    let mut contract = UltraHonkVerifierContract::new(4);
    contract.initialize(vec![1, 1]).unwrap();
    let proof = vec![2u8, 2, 2, 2];
    let pi = vec![3u8; 64];
    let r = contract.verify_proof(&pi, &proof, |vk: &Vec<u8>, p: &Vec<u8>, i: &Vec<u8>| {
        if *vk == vec![1, 1] && *p == vec![2, 2, 2, 2] && *i == vec![3u8; 64] {
            HonkOutcome::Accepted
        } else {
            HonkOutcome::Rejected
        }
    });
    assert_eq!(r, Ok(()));
}

#[test]
fn mock_verifier_accepts_anything() {
    assert_eq!(MockVerifier.verify_proof(&Vec::new(), &vec![0xaa; 32]), Ok(()));
}
