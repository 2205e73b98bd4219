use vstd::prelude::*;
use vstd::arithmetic::power2::{lemma2_to64, lemma_pow2_strictly_increases, lemma_pow2_unfold, pow2};
use vstd::bytes::{
    lemma_auto_spec_u64_to_from_le_bytes, spec_u64_from_le_bytes, spec_u64_to_le_bytes,
    u64_from_le_bytes, u64_to_le_bytes,
};
use vstd::slice::slice_subrange;
use bulletproofs::{BulletproofGens, PedersenGens, ProofError};
use crate::bytes::append_bytes;
use crate::error::ZkError;

verus! {

#[verifier::external_type_specification]
#[verifier::external_body]
pub struct ExBulletproofGens(BulletproofGens);

#[verifier::external_type_specification]
#[verifier::external_body]
pub struct ExPedersenGens(PedersenGens);

#[verifier::external_type_specification]
#[verifier::external_body]
pub struct ExProofError(ProofError);

/// Domain-separation label of every range-proof transcript. Proving and
/// verification must use the same one, or no honest proof checks out.
pub const TRANSCRIPT_LABEL: &'static str = "zkchain-rangeproof";

/// Largest bit width a proof may declare; the generators are built for it.
pub const MAX_BITS: usize = 64;

/// The compressed Pedersen commitment to `amount` under the default Pedersen
/// generators, with `blinding` read as a scalar modulo the group order.
pub uninterp spec fn pedersen_commitment_of(amount: u64, blinding: Seq<u8>) -> Seq<u8>;

/// Whether 32 bytes decode to a Ristretto point.
pub uninterp spec fn commitment_decodes(commitment: Seq<u8>) -> bool;

/// The compressed point `C + offset·B`, where `C` is the point that
/// `commitment` decodes to and `B` the Pedersen value generator.
pub uninterp spec fn shifted_commitment_of(commitment: Seq<u8>, offset: u64) -> Seq<u8>;

/// Whether a range proof's bytes decode (`RangeProof::from_bytes` accepts them).
pub uninterp spec fn range_proof_decodes(proof: Seq<u8>) -> bool;

/// Whether a decodable range proof shows that `commitment` opens to a value
/// below `2^bits`, under a transcript started with `label` and the generators
/// that every `RangeProver` holds.
pub uninterp spec fn range_proof_holds(
    label: Seq<char>,
    proof: Seq<u8>,
    commitment: Seq<u8>,
    bits: nat,
) -> bool;

/// The bit widths a proof may declare.
pub open spec fn valid_bits(bits: usize) -> bool {
    1 <= bits <= MAX_BITS
}

/// The widths for which Bulletproofs makes range proofs directly.
pub open spec fn native_bits(bits: usize) -> bool {
    bits == 8 || bits == 16 || bits == 32 || bits == 64
}

/// The smallest native width at or above `bits`.
pub open spec fn native_width(bits: usize) -> usize {
    if bits <= 8 {
        8
    } else if bits <= 16 {
        16
    } else if bits <= 32 {
        32
    } else {
        64
    }
}

/// The shift that moves `[0, 2^bits)` to the top of `[0, 2^n)`, for `n` the
/// native width of `bits`: a value `v` lies below `2^bits` exactly when both
/// `v` and `v + offset` lie below `2^n`.
pub open spec fn width_offset(bits: usize) -> int {
    pow2(native_width(bits) as nat) - pow2(bits as nat)
}

/// Two proofs in one byte string: the first one's length (eight bytes,
/// little-endian), the first one, then the second.
pub open spec fn join_proofs(first: Seq<u8>, second: Seq<u8>) -> Seq<u8> {
    spec_u64_to_le_bytes(first.len() as u64) + first + second
}

/// The two proofs that `join_proofs` put together, if the framing is sound.
pub open spec fn split_proofs(proof: Seq<u8>) -> Option<(Seq<u8>, Seq<u8>)> {
    if proof.len() < 8 {
        None
    } else {
        let k = spec_u64_from_le_bytes(proof.subrange(0, 8));
        if k > proof.len() - 8 {
            None
        } else {
            Some((proof.subrange(8, 8 + k), proof.subrange(8 + k, proof.len() as int)))
        }
    }
}

/// What checking one Bulletproofs range proof at a native width yields.
pub open spec fn native_verdict(proof: Seq<u8>, commitment: Seq<u8>, n: usize) -> Result<
    (),
    ZkError,
> {
    if !range_proof_decodes(proof) {
        Err(ZkError::MalformedProof)
    } else if range_proof_holds(TRANSCRIPT_LABEL@, proof, commitment, n as nat) {
        Ok(())
    } else {
        Err(ZkError::ProofRejected)
    }
}

/// What verifying `proof` against `commitment` and `bits` yields. At a native
/// width the proof is one Bulletproofs range proof. At any other width it is
/// two, joined by `join_proofs`, at the native width `n` above: one for the
/// commitment and one for the commitment shifted by `width_offset(bits)`.
pub open spec fn range_verdict(proof: Seq<u8>, commitment: Seq<u8>, bits: usize) -> Result<
    (),
    ZkError,
> {
    if !valid_bits(bits) {
        Err(ZkError::InvalidParameter)
    } else if native_bits(bits) {
        native_verdict(proof, commitment, bits)
    } else {
        match split_proofs(proof) {
            None => Err(ZkError::MalformedProof),
            Some(parts) => match native_verdict(parts.0, commitment, native_width(bits)) {
                Err(e) => Err(e),
                Ok(_) => if !commitment_decodes(commitment) {
                    Err(ZkError::ProofRejected)
                } else {
                    native_verdict(
                        parts.1,
                        shifted_commitment_of(commitment, width_offset(bits) as u64),
                        native_width(bits),
                    )
                },
            },
        }
    }
}

/// A commitment to a hidden amount, with a proof that the amount fits in
/// `bits` bits. The three only mean something together.
pub struct RangeProofData {
    pub proof: Vec<u8>,
    pub commitment: [u8; 32],
    pub bits: usize,
}

/// Outcome of checking a range proof against a commitment.
#[derive(Debug, Clone, Copy, PartialEq, Eq, Structural)]
pub enum RangeCheck {
    Accepted,
    Malformed,
    Rejected,
}

/// Proves and checks range proofs. Every prover holds the same generators:
/// Bulletproofs generators for one party and up to `MAX_BITS` bits, and the
/// default Pedersen generators.
pub struct RangeProver {
    bp_gens: BulletproofGens,
    pc_gens: PedersenGens,
}

pub assume_specification[ BulletproofGens::new ](
    gens_capacity: usize,
    party_capacity: usize,
) -> BulletproofGens;

/// Relies on `PedersenGens::default`: the standard Ristretto generators.
#[verifier::external_body]
fn default_pedersen_gens() -> PedersenGens {
    PedersenGens::default()
}

/// Relies on `Scalar::random` with the operating system's generator: the
/// bytes of a fresh blinding factor, of which nothing is known.
#[verifier::external_body]
fn random_blinding() -> [u8; 32] {
    curve25519_dalek_ng::scalar::Scalar::random(&mut rand::rngs::OsRng).to_bytes()
}

/// The native width at or above `bits`.
fn native_width_of(bits: usize) -> (r: usize)
    ensures
        r == native_width(bits),
{
    if bits <= 8 {
        8
    } else if bits <= 16 {
        16
    } else if bits <= 32 {
        32
    } else {
        64
    }
}

/// `2^k - 1`.
fn low_mask(k: usize) -> (r: u64)
    requires
        k <= 64,
    ensures
        r == pow2(k as nat) - 1,
{
    proof {
        lemma2_to64();
    }
    let mut r: u64 = 0;
    let mut i: usize = 0;
    while i < k
        invariant
            i <= k <= 64,
            r == pow2(i as nat) - 1,
            pow2(64) == 0x1_0000_0000_0000_0000,
        decreases k - i,
    {
        proof {
            lemma_pow2_unfold((i + 1) as nat);
            if i + 1 < 64 {
                lemma_pow2_strictly_increases((i + 1) as nat, 64);
            }
        }
        r = r * 2 + 1;
        i = i + 1;
    }
    r
}

/// `width_offset(bits)` as a machine integer.
fn offset_of(bits: usize) -> (r: u64)
    requires
        valid_bits(bits),
    ensures
        r == width_offset(bits),
{
    let n = native_width_of(bits);
    proof {
        if bits < n {
            lemma_pow2_strictly_increases(bits as nat, n as nat);
        }
    }
    low_mask(n) - low_mask(bits)
}

/// The bytes of `b` from `lo` up to `hi`.
fn copy_range(b: &[u8], lo: usize, hi: usize) -> (r: Vec<u8>)
    requires
        lo <= hi <= b@.len(),
    ensures
        r@ == b@.subrange(lo as int, hi as int),
{
    let mut r: Vec<u8> = Vec::new();
    append_bytes(&mut r, slice_subrange(b, lo, hi));
    r
}

impl RangeProver {
    pub fn new() -> (r: RangeProver) {
        RangeProver { bp_gens: BulletproofGens::new(MAX_BITS, 1), pc_gens: default_pedersen_gens() }
    }

    /// Relies on `RangeProof::prove_single`: a proof and the commitment to
    /// `amount` under `blinding`. It refuses only widths other than 8, 16, 32
    /// and 64 and generators too small for them (ours hold 64 bits for one
    /// party), but for a zero challenge, an event of negligible probability.
    /// The commitment is a valid point, and shifting it by `k·B` gives the
    /// commitment to `amount + k` under the same blinding (Pedersen
    /// commitments add). Where the amount fits in `bits` bits, the proof
    /// decodes and holds for the commitment (the protocol's completeness).
    #[verifier::external_body]
    fn prove_single(
        &self,
        label: &'static str,
        amount: u64,
        blinding: &[u8; 32],
        bits: usize,
    ) -> (r: Result<(Vec<u8>, [u8; 32]), ProofError>)
        ensures
            native_bits(bits) ==> r is Ok,
            r is Ok ==> r->Ok_0.1@ == pedersen_commitment_of(amount, blinding@),
            r is Ok ==> commitment_decodes(r->Ok_0.1@),
            r is Ok ==> forall|k: u64|
                amount + k <= u64::MAX ==> #[trigger] shifted_commitment_of(r->Ok_0.1@, k)
                    == pedersen_commitment_of((amount + k) as u64, blinding@),
            r is Ok && amount < pow2(bits as nat) ==> {
                &&& range_proof_decodes(r->Ok_0.0@)
                &&& range_proof_holds(label@, r->Ok_0.0@, r->Ok_0.1@, bits as nat)
            },
    {
        let mut transcript = merlin::Transcript::new(label.as_bytes());
        let blinding = curve25519_dalek_ng::scalar::Scalar::from_bytes_mod_order(*blinding);
        bulletproofs::RangeProof::prove_single(
            &self.bp_gens,
            &self.pc_gens,
            &mut transcript,
            amount,
            &blinding,
            bits,
        ).map(|(p, c)| (p.to_bytes(), c.to_bytes()))
    }

    /// Relies on `RangeProof::from_bytes` and `RangeProof::verify_single`.
    /// Decoding depends on the bytes alone, and refuses a length that is not
    /// a multiple of 32 or is under seven times 32. The check draws a random
    /// scalar to batch its equations; an honest proof passes for every draw
    /// and a false one fails but with negligible probability, so the verdict
    /// is a function of the inputs.
    #[verifier::external_body]
    fn check_single(
        &self,
        label: &'static str,
        proof: &[u8],
        commitment: [u8; 32],
        bits: usize,
    ) -> (r: RangeCheck)
        ensures
            (r == RangeCheck::Malformed) == !range_proof_decodes(proof@),
            (r == RangeCheck::Accepted) == (range_proof_decodes(proof@) && range_proof_holds(
                label@,
                proof@,
                commitment@,
                bits as nat,
            )),
            proof@.len() % 32 != 0 || proof@.len() < 224 ==> r == RangeCheck::Malformed,
    {
        let mut transcript = merlin::Transcript::new(label.as_bytes());
        let commit = curve25519_dalek_ng::ristretto::CompressedRistretto(commitment);
        match bulletproofs::RangeProof::from_bytes(proof) {
            Err(_) => RangeCheck::Malformed,
            Ok(p) => match p.verify_single(&self.bp_gens, &self.pc_gens, &mut transcript, &commit, bits) {
                Ok(()) => RangeCheck::Accepted,
                Err(_) => RangeCheck::Rejected,
            },
        }
    }

    /// Relies on `CompressedRistretto::decompress`, `PedersenGens::commit`
    /// and `RistrettoPoint::compress`: `None` where the bytes are no point,
    /// else the point plus `offset` times the value generator, compressed.
    #[verifier::external_body]
    fn shift_commitment(&self, commitment: [u8; 32], offset: u64) -> (r: Option<[u8; 32]>)
        ensures
            r is Some == commitment_decodes(commitment@),
            r is Some ==> r->Some_0@ == shifted_commitment_of(commitment@, offset),
    {
        let point = curve25519_dalek_ng::ristretto::CompressedRistretto(commitment).decompress()?;
        let zero = curve25519_dalek_ng::scalar::Scalar::zero();
        let shift = self.pc_gens.commit(curve25519_dalek_ng::scalar::Scalar::from(offset), zero);
        Some((point + shift).compress().to_bytes())
    }

    /// Checks one proof at a native width.
    fn verify_native(&self, proof: &[u8], commitment: [u8; 32], n: usize) -> (r: Result<(), ZkError>)
        ensures
            r == native_verdict(proof@, commitment@, n),
    {
        match self.check_single(TRANSCRIPT_LABEL, proof, commitment, n) {
            RangeCheck::Accepted => Ok(()),
            RangeCheck::Malformed => Err(ZkError::MalformedProof),
            RangeCheck::Rejected => Err(ZkError::ProofRejected),
        }
    }

    /// Commits to `amount` under a fresh random blinding factor and proves
    /// that it fits in `bits` bits. At 8, 16, 32 and 64 bits this is one
    /// Bulletproofs range proof; at any other width in `1..=64`, two at the
    /// native width above (see `range_verdict`).
    pub fn prove_amount(&self, amount: u64, bits: usize) -> (r: Result<RangeProofData, ZkError>)
        ensures
            !valid_bits(bits) ==> r == Err::<RangeProofData, ZkError>(ZkError::InvalidParameter),
            valid_bits(bits) ==> r is Ok,
            r is Ok ==> r->Ok_0.bits == bits,
            r is Ok ==> exists|b: Seq<u8>|
                b.len() == 32 && r->Ok_0.commitment@ == #[trigger] pedersen_commitment_of(amount, b),
            r is Ok && amount < pow2(bits as nat) ==> range_verdict(
                r->Ok_0.proof@,
                r->Ok_0.commitment@,
                bits,
            ) == Ok::<(), ZkError>(()),
    {
        if bits > MAX_BITS || bits == 0 {
            return Err(ZkError::InvalidParameter);
        }
        let blinding = random_blinding();
        assert(blinding@.len() == 32);
        let n = native_width_of(bits);
        if n == bits {
            return match self.prove_single(TRANSCRIPT_LABEL, amount, &blinding, bits) {
                Ok((proof, commitment)) => Ok(RangeProofData { proof, commitment, bits }),
                Err(_) => Err(ZkError::InvalidParameter),
            };
        }
        let offset = offset_of(bits);
        let shifted = amount.wrapping_add(offset);
        let first = self.prove_single(TRANSCRIPT_LABEL, amount, &blinding, n);
        let second = self.prove_single(TRANSCRIPT_LABEL, shifted, &blinding, n);
        match (first, second) {
            (Ok((p1, commitment)), Ok((p2, _))) => {
                let mut proof: Vec<u8> = Vec::new();
                append_bytes(&mut proof, u64_to_le_bytes(p1.len() as u64).as_slice());
                append_bytes(&mut proof, p1.as_slice());
                append_bytes(&mut proof, p2.as_slice());
                proof {
                    lemma_auto_spec_u64_to_from_le_bytes();
                    let j = proof@;
                    assert(j.subrange(0, 8) =~= spec_u64_to_le_bytes(p1@.len() as u64));
                    assert(j.subrange(8, 8 + p1@.len() as int) =~= p1@);
                    assert(j.subrange(8 + p1@.len() as int, j.len() as int) =~= p2@);
                    if amount < pow2(bits as nat) {
                        lemma2_to64();
                        lemma_pow2_strictly_increases(bits as nat, n as nat);
                        assert(amount + offset < pow2(n as nat));
                        assert(shifted == amount + offset);
                    }
                }
                Ok(RangeProofData { proof, commitment, bits })
            },
            _ => Err(ZkError::InvalidParameter),
        }
    }

    /// Checks that `proof` shows the value under `commitment` fits in `bits`
    /// bits (see `range_verdict`).
    pub fn verify_amount(&self, proof: &[u8], commitment: [u8; 32], bits: usize) -> (r: Result<
        (),
        ZkError,
    >)
        ensures
            r == range_verdict(proof@, commitment@, bits),
    {
        if bits > MAX_BITS || bits == 0 {
            return Err(ZkError::InvalidParameter);
        }
        let n = native_width_of(bits);
        if n == bits {
            return self.verify_native(proof, commitment, bits);
        }
        if proof.len() < 8 {
            return Err(ZkError::MalformedProof);
        }
        let k = u64_from_le_bytes(slice_subrange(proof, 0, 8));
        if k > (proof.len() - 8) as u64 {
            return Err(ZkError::MalformedProof);
        }
        let mid = 8 + k as usize;
        let first = copy_range(proof, 8, mid);
        let second = copy_range(proof, mid, proof.len());
        match self.verify_native(first.as_slice(), commitment, n) {
            Ok(()) => {},
            Err(e) => return Err(e),
        }
        match self.shift_commitment(commitment, offset_of(bits)) {
            None => Err(ZkError::ProofRejected),
            Some(shifted) => self.verify_native(second.as_slice(), shifted, n),
        }
    }
}

impl Default for RangeProver {
    fn default() -> (r: RangeProver) {
        RangeProver::new()
    }
}

} // verus!
