use vstd::prelude::*;

verus! {

/// Why a proof, a transaction or a block was refused.
#[derive(Debug, Clone, Copy, PartialEq, Eq, Structural)]
pub enum ZkError {
    /// A bit width outside `1..=64`.
    InvalidParameter,
    /// Proof bytes that do not decode to a range proof.
    MalformedProof,
    /// A well-formed range proof that does not hold for the commitment.
    ProofRejected,
    /// A signature that is not exactly 64 bytes long.
    BadSignatureLength,
    /// A signature (or its public key) that does not check out.
    SignatureRejected,
}

/// The reason given for each kind of failure.
pub open spec fn reason(e: ZkError) -> Seq<char> {
    match e {
        ZkError::InvalidParameter => "bits must be 1..=64"@,
        ZkError::MalformedProof => "malformed range proof"@,
        ZkError::ProofRejected => "range proof rejected"@,
        ZkError::BadSignatureLength => "bad sig len"@,
        ZkError::SignatureRejected => "signature rejected"@,
    }
}

impl ZkError {
    /// A short human-readable reason.
    pub fn to_string(&self) -> (r: String)
        ensures
            r@ == reason(*self),
    {
        match self {
            ZkError::InvalidParameter => String::from_str("bits must be 1..=64"),
            ZkError::MalformedProof => String::from_str("malformed range proof"),
            ZkError::ProofRejected => String::from_str("range proof rejected"),
            ZkError::BadSignatureLength => String::from_str("bad sig len"),
            ZkError::SignatureRejected => String::from_str("signature rejected"),
        }
    }
}

} // verus!
