use ecash_sdk_core::zk::{proof_from_digest, MockProofGenerator, ZkProofGenerator};

#[test]
fn test_mock_proof_generator_new() {
    let generator = MockProofGenerator::new("./circuits/spend.wasm");
    assert!(generator.verify_proof("0x12345678901234567890"));
}

#[test]
fn test_generate_solvency_proof() {
    let generator = MockProofGenerator::new("./circuits/spend.wasm");
    let proof = generator.generate_solvency_proof("1000", "500").unwrap();
    assert!(proof.starts_with("0x"));
    assert_eq!(proof.len(), 66); // 0x + 64 hex chars
}

#[test]
fn test_generate_solvency_proof_deterministic() {
    let generator = MockProofGenerator::new("./circuits/spend.wasm");
    let proof1 = generator.generate_solvency_proof("1000", "500").unwrap();
    let proof2 = generator.generate_solvency_proof("1000", "500").unwrap();
    assert_eq!(proof1, proof2);
}

#[test]
fn test_verify_proof_valid() {
    let generator = MockProofGenerator::new("./circuits/spend.wasm");
    assert!(generator.verify_proof("0x12345678901234567890"));
}

#[test]
fn test_verify_proof_invalid_short() {
    let generator = MockProofGenerator::new("./circuits/spend.wasm");
    assert!(!generator.verify_proof("0x123"));
}

#[test]
fn proof_is_the_digest_of_the_inputs() {
    let generator = MockProofGenerator::new("c");
    let proof = generator.generate_solvency_proof("a", "b").unwrap();
    assert_eq!(proof.len(), 66);
    let other = MockProofGenerator::new("d").generate_solvency_proof("a", "b").unwrap();
    assert_ne!(proof, other);
    assert_eq!(proof_from_digest(&[0x00, 0xab, 0x1f]), "0x00ab1f");
}

#[test]
fn proof_gate_through_the_trait() {
    let generator = MockProofGenerator::new("./circuits/spend.wasm");
    let gate: &dyn ZkProofGenerator = &generator;
    assert!(gate.verify_proof("0x0123456789"));
    assert!(!gate.verify_proof("0x01234567"));
    assert!(gate.generate_solvency_proof("1", "0").is_ok());
}
