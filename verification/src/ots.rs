//! Outcome of checking a Bitcoin-anchored timestamp.

use vstd::prelude::*;
use vstd::string::*;
use crate::hashing::{hex_encode, hex_lower, sha256, sha256_digest};

verus! {

/// The block height that a mock proof is confirmed at.
pub const MOCK_BLOCK_HEIGHT: u32 = 12345;

/// The bytes that a mock proof begins with: `MOCK_OTS_PROOF:`.
pub open spec fn mock_prefix() -> Seq<u8> {
    seq![77u8, 79u8, 67u8, 75u8, 95u8, 79u8, 84u8, 83u8, 95u8, 80u8, 82u8, 79u8, 79u8, 70u8, 58u8]
}

/// A proof is a mock proof: it begins with the mock prefix.
pub open spec fn is_mock_proof(proof_bytes: Seq<u8>) -> bool {
    proof_bytes.len() >= 15 && proof_bytes.subrange(0, 15) == mock_prefix()
}

/// Result of timestamp verification.
#[derive(Debug, Clone)]
pub enum VerificationResult {
    /// The timestamp is still waiting for confirmation.
    Pending,
    /// The timestamp is confirmed at the given block height.
    Confirmed(u32),
}

impl VerificationResult {
    /// True exactly for a confirmed timestamp.
    pub fn is_confirmed(&self) -> (confirmed: bool)
        ensures
            confirmed == (*self is Confirmed),
    {
        match self {
            VerificationResult::Confirmed(_) => true,
            VerificationResult::Pending => false,
        }
    }

    /// The block height of a confirmed timestamp, nothing for a pending one.
    pub fn block_height(&self) -> (height: Option<u32>)
        ensures
            height == match *self {
                VerificationResult::Confirmed(h) => Some(h),
                VerificationResult::Pending => None,
            },
    {
        match self {
            VerificationResult::Confirmed(height) => Some(*height),
            VerificationResult::Pending => None,
        }
    }
}

/// Whether a proof is a mock proof.
pub fn check_mock_proof(proof_bytes: &[u8]) -> (mock: bool)
    ensures
        mock == is_mock_proof(proof_bytes@),
{
    let prefix: [u8; 15] = [77, 79, 67, 75, 95, 79, 84, 83, 95, 80, 82, 79, 79, 70, 58];
    if proof_bytes.len() < 15 {
        return false;
    }
    let mut i: usize = 0;
    while i < 15
        invariant
            i <= 15,
            proof_bytes@.len() >= 15,
            prefix@ == mock_prefix(),
            forall|k: int| 0 <= k < i ==> proof_bytes@[k] == mock_prefix()[k],
        decreases 15 - i,
    {
        if proof_bytes[i] != prefix[i] {
            return false;
        }
        i = i + 1;
    }
    assert(proof_bytes@.subrange(0, 15) =~= mock_prefix());
    true
}

/// What a mock proof verifies as: confirmed at the mock block height.
/// Nothing for any other proof, which only the timestamping service can
/// verify.
pub fn verify_mock(proof_bytes: &[u8]) -> (result: Option<VerificationResult>)
    ensures
        match result {
            Some(outcome) => is_mock_proof(proof_bytes@) && outcome == VerificationResult::Confirmed(
                MOCK_BLOCK_HEIGHT,
            ),
            None => !is_mock_proof(proof_bytes@),
        },
{
    if check_mock_proof(proof_bytes) {
        Some(VerificationResult::Confirmed(MOCK_BLOCK_HEIGHT))
    } else {
        None
    }
}

/// The text of the mock proof for some data: the mock prefix and the
/// SHA-256 digest of the data in hexadecimal.
pub fn mock_stamp_text(data: &[u8]) -> (text: String)
    ensures
        text@ == "MOCK_OTS_PROOF:"@ + hex_lower(sha256_digest(data@)),
{
    let digest = sha256(data);
    let mut text = "MOCK_OTS_PROOF:".to_owned();
    let hex = hex_encode(digest.as_slice());
    text.append(hex.as_str());
    text
}

} // verus!
