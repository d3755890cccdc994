use forge_runtime::hashing::compute_content_hash;
use forge_runtime::types::{ChainStateDigest, ReplaySeal, ReplayVerificationError, RUNTIME_VERSION};

fn state_hash(s: &str) -> String {
    compute_content_hash(s)
}

#[test]
fn replay_seal_creation() {
    let initial_hash = state_hash("initial input");
    let chain_hash = state_hash("chain data");
    let final_hash = state_hash("final state");
    let seal = ReplaySeal::new(initial_hash.clone(), chain_hash.clone(), final_hash.clone());
    assert_eq!(seal.initial_input_hash, initial_hash);
    assert_eq!(seal.chain_hash, chain_hash);
    assert_eq!(seal.final_state_hash, final_hash);
    assert!(!seal.runtime_version.is_empty());
    assert_eq!(seal.runtime_version, RUNTIME_VERSION);
    assert!(seal.created_at > 0);
}

#[test]
fn replay_verification_passes_when_hashes_match() {
    let initial_hash = state_hash("initial input");
    let chain_hash = state_hash("chain data");
    let final_hash = state_hash("final state");
    let seal = ReplaySeal::new(initial_hash.clone(), chain_hash.clone(), final_hash.clone());
    let result = seal.verify_replay(&chain_hash, &final_hash);
    assert!(result.is_ok(), "Matching hashes should pass verification");
}

#[test]
fn replay_verification_fails_on_chain_hash_mismatch() {
    let initial_hash = state_hash("initial input");
    let chain_hash = state_hash("chain data");
    let final_hash = state_hash("final state");
    let seal = ReplaySeal::new(initial_hash, chain_hash.clone(), final_hash.clone());
    let wrong_chain_hash = state_hash("different chain");
    let result = seal.verify_replay(&wrong_chain_hash, &final_hash);
    assert!(result.is_err(), "Mismatched chain hash should fail");
    match result.unwrap_err() {
        ReplayVerificationError::ChainHashMismatch { expected, actual } => {
            assert_eq!(expected, chain_hash);
            assert_eq!(actual, wrong_chain_hash);
        }
        _ => panic!("Expected ChainHashMismatch error"),
    }
}

#[test]
fn replay_verification_fails_on_final_state_mismatch() {
    let initial_hash = state_hash("initial input");
    let chain_hash = state_hash("chain data");
    let final_hash = state_hash("final state");
    let seal = ReplaySeal::new(initial_hash, chain_hash.clone(), final_hash.clone());
    let wrong_final_hash = state_hash("different final state");
    let result = seal.verify_replay(&chain_hash, &wrong_final_hash);
    assert!(result.is_err(), "Mismatched final state should fail");
    match result.unwrap_err() {
        ReplayVerificationError::FinalStateMismatch { expected, actual } => {
            assert_eq!(expected, final_hash);
            assert_eq!(actual, wrong_final_hash);
        }
        _ => panic!("Expected FinalStateMismatch error"),
    }
}

#[test]
fn same_input_produces_identical_seal() {
    let input = "consistent input data";
    let seal1 = ReplaySeal::new(state_hash(input), state_hash("chain steps"), state_hash("final result"));
    let seal2 = ReplaySeal::new(state_hash(input), state_hash("chain steps"), state_hash("final result"));
    assert_eq!(seal1.initial_input_hash, seal2.initial_input_hash);
    assert_eq!(seal1.chain_hash, seal2.chain_hash);
    assert_eq!(seal1.final_state_hash, seal2.final_state_hash);
}

#[test]
fn different_input_produces_different_seal() {
    let seal1 = ReplaySeal::new(state_hash("input A"), state_hash("chain"), state_hash("final"));
    let seal2 = ReplaySeal::new(state_hash("input B"), state_hash("chain"), state_hash("final"));
    assert_ne!(seal1.initial_input_hash, seal2.initial_input_hash);
}

#[test]
fn nondeterminism_detected_through_state_mismatch() {
    let initial_state = "initial";
    let deterministic_result = state_hash(initial_state);
    let second_result = state_hash(initial_state);
    assert_eq!(deterministic_result, second_result);
}

#[test]
fn broken_chain_detected_during_replay() {
    let digests = vec![
        ChainStateDigest::new(0, "hash0".to_string(), None),
        ChainStateDigest::new(1, "hash1".to_string(), Some("wrong_prev".to_string())),
    ];
    let result = digests[1].verify_chain_continuity(&digests[0].state_hash);
    assert!(result.is_err(), "Broken link should be detected");
}

#[test]
fn replay_produces_identical_or_fails() {
    let input = "test input";
    let hash1 = state_hash(input);
    let hash2 = state_hash(input);
    assert_eq!(hash1, hash2);
}

#[test]
fn intact_link_passes_continuity_check() {
    let first = ChainStateDigest::new(0, "hash0".to_string(), None);
    let second = ChainStateDigest::new(1, "hash1".to_string(), Some("hash0".to_string()));
    assert!(second.verify_chain_continuity(&first.state_hash).is_ok());
}

#[test]
fn content_hash_is_sha3_hex() {
    let h = compute_content_hash("abc");
    assert_eq!(h.len(), 64);
    assert_eq!(h, "3a985da74fe225b2045c172d6bd390bd855f086e3e9d525b46bfe24511431532");
}
