//! The proof gate: producing an opaque solvency proof and checking one.
//!
//! The generator here stands in for a real circuit: its proof is the
//! SHA-256 digest of the inputs and the circuit path, written as `0x`
//! followed by lowercase hexadecimal.

use vstd::prelude::*;
use vstd::string::*;
use vstd::utf8::encode_utf8;
use crate::codec::{hex_encode, hex_of, sha256, sha256_of};
use crate::text::join;

verus! {

/// A producer and checker of solvency proofs.
pub trait ZkProofGenerator {
    /// Proves that `balance` covers `required` without revealing it.
    fn generate_solvency_proof(&self, balance: &str, required: &str) -> Result<String, String>;

    /// Checks a proof.
    fn verify_proof(&self, proof: &str) -> bool;
}

pub struct MockProofGenerator {
    circuit_path: String,
}

/// The text that the stand-in proof digests.
pub open spec fn proof_input(balance: Seq<char>, required: Seq<char>, circuit: Seq<char>) -> Seq<char> {
    balance + "-"@ + required + "-"@ + circuit
}

/// The text of a proof whose digest is `digest`.
pub open spec fn proof_text(digest: Seq<u8>) -> Seq<char> {
    "0x"@ + hex_of(digest)
}

/// Writes a digest as a proof: `0x` and its lowercase hexadecimal.
pub fn proof_from_digest(digest: &[u8]) -> (r: String)
    ensures
        r@ == proof_text(digest@),
{
    join("0x", hex_encode(digest).as_str())
}

impl MockProofGenerator {
    pub closed spec fn circuit(&self) -> Seq<char> {
        self.circuit_path@
    }

    /// Creates a generator for the circuit at `circuit_path`.
    pub fn new(circuit_path: &str) -> (r: MockProofGenerator)
        ensures
            r.circuit() == circuit_path@,
    {
        MockProofGenerator { circuit_path: String::from_str(circuit_path) }
    }

    /// The proof of `balance` against `required`: the digest of
    /// `balance-required-circuit`, written as a proof text. It never fails.
    pub fn generate_solvency_proof(&self, balance: &str, required: &str) -> (r: Result<
        String,
        String,
    >)
        ensures
            r matches Ok(p) && p@ == proof_text(
                sha256_of(encode_utf8(proof_input(balance@, required@, self.circuit()))),
            ),
    {
        let input = join(balance, "-");
        let input = input.concat(required);
        let input = input.concat("-");
        let input = input.concat(self.circuit_path.as_str());
        let digest = sha256(input.as_str().as_bytes());
        Ok(proof_from_digest(digest.as_slice()))
    }

    /// Accepts a proof longer than ten bytes.
    pub fn verify_proof(&self, proof: &str) -> (r: bool)
        ensures
            r == (encode_utf8(proof@).len() as usize > 10),
    {
        proof.len() > 10
    }
}

impl ZkProofGenerator for MockProofGenerator {
    fn generate_solvency_proof(&self, balance: &str, required: &str) -> Result<String, String> {
        MockProofGenerator::generate_solvency_proof(self, balance, required)
    }

    fn verify_proof(&self, proof: &str) -> bool {
        MockProofGenerator::verify_proof(self, proof)
    }
}

/// The proof generator in use; a real circuit can take its place.
pub type ProofGenerator = MockProofGenerator;

} // verus!
