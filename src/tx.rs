use vstd::prelude::*;
use vstd::arithmetic::power2::pow2;
use crate::bytes::{append_bytes, sha256, sha256_of};
use crate::error::ZkError;
use crate::zkps::{pedersen_commitment_of, range_verdict, valid_bits, RangeProver};

verus! {

/// The Ed25519 public key of a 32-byte secret key.
pub uninterp spec fn ed25519_public_of(secret: Seq<u8>) -> Seq<u8>;

/// The Ed25519 signature of `msg` under a 32-byte secret key.
pub uninterp spec fn ed25519_signature_of(secret: Seq<u8>, msg: Seq<u8>) -> Seq<u8>;

/// Whether `sig` is a valid Ed25519 signature of `msg` under `public_key`.
pub uninterp spec fn ed25519_accepts(public_key: Seq<u8>, msg: Seq<u8>, sig: Seq<u8>) -> bool;

/// Relies on `ed25519_dalek::SigningKey::generate` with the operating
/// system's generator: fresh secret bytes, of which nothing is known.
#[verifier::external_body]
fn generate_secret() -> [u8; 32] {
    ed25519_dalek::SigningKey::generate(&mut rand::rngs::OsRng).to_bytes()
}

/// Relies on `ed25519_dalek::SigningKey::from_bytes` and `verifying_key`:
/// the public key derived from the secret alone.
#[verifier::external_body]
fn public_key_of(secret: &[u8; 32]) -> (r: [u8; 32])
    ensures
        r@ == ed25519_public_of(secret@),
{
    ed25519_dalek::SigningKey::from_bytes(secret).verifying_key().to_bytes()
}

/// Relies on `ed25519_dalek::Signer::sign` for `SigningKey`: Ed25519 signing
/// is deterministic, and a signature it makes checks out under the key's own
/// public key.
#[verifier::external_body]
fn sign_message(secret: &[u8; 32], msg: &[u8]) -> (r: [u8; 64])
    ensures
        r@ == ed25519_signature_of(secret@, msg@),
        ed25519_accepts(ed25519_public_of(secret@), msg@, r@),
{
    let key = ed25519_dalek::SigningKey::from_bytes(secret);
    ed25519_dalek::Signer::sign(&key, msg).to_bytes()
}

/// Relies on `ed25519_dalek::VerifyingKey::from_bytes` and
/// `ed25519_dalek::Verifier::verify`: a key that does not decode, or a
/// signature that does not check out, gives `false`.
#[verifier::external_body]
fn check_signature(public_key: &[u8; 32], msg: &[u8], sig: &[u8]) -> (r: bool)
    requires
        sig@.len() == 64,
    ensures
        r == ed25519_accepts(public_key@, msg@, sig@),
{
    let key = match ed25519_dalek::VerifyingKey::from_bytes(public_key) {
        Ok(key) => key,
        Err(_) => return false,
    };
    match ed25519_dalek::Signature::from_slice(sig) {
        Ok(sig) => ed25519_dalek::Verifier::verify(&key, msg, &sig).is_ok(),
        Err(_) => false,
    }
}

/// A 32-byte account identifier: the SHA-256 digest of a public key.
#[derive(Clone, Copy, Debug)]
pub struct Address(pub [u8; 32]);

/// An Ed25519 secret key, held as its 32 secret bytes.
#[derive(Clone, Copy)]
pub struct SigningKey {
    secret: [u8; 32],
}

/// An Ed25519 public key, held as its 32 encoded bytes.
#[derive(Clone, Copy, Debug)]
pub struct VerifyingKey {
    bytes: [u8; 32],
}

impl View for SigningKey {
    type V = Seq<u8>;

    closed spec fn view(&self) -> Seq<u8> {
        self.secret@
    }
}

impl View for VerifyingKey {
    type V = Seq<u8>;

    closed spec fn view(&self) -> Seq<u8> {
        self.bytes@
    }
}

impl SigningKey {
    pub fn from_bytes(secret: &[u8; 32]) -> (r: SigningKey)
        ensures
            r@ == secret@,
    {
        SigningKey { secret: *secret }
    }

    pub fn to_bytes(&self) -> (r: [u8; 32])
        ensures
            r@ == self@,
    {
        self.secret
    }

    pub fn verifying_key(&self) -> (r: VerifyingKey)
        ensures
            r@ == ed25519_public_of(self@),
    {
        VerifyingKey { bytes: public_key_of(&self.secret) }
    }
}

impl VerifyingKey {
    pub fn from_bytes(bytes: &[u8; 32]) -> (r: VerifyingKey)
        ensures
            r@ == bytes@,
    {
        VerifyingKey { bytes: *bytes }
    }

    pub fn to_bytes(&self) -> (r: [u8; 32])
        ensures
            r@ == self@,
    {
        self.bytes
    }
}

impl Address {
    /// The address of the holder of `pk`: the digest of its bytes.
    pub fn from_public_key(pk: &VerifyingKey) -> (r: Address)
        ensures
            r.0@ == sha256_of(pk@),
    {
        Address(sha256(&pk.bytes))
    }
}

/// Draws a fresh key pair and the address that belongs to it.
pub fn generate_keypair() -> (r: (SigningKey, VerifyingKey, Address))
    ensures
        r.1@ == ed25519_public_of(r.0@),
        r.2.0@ == sha256_of(r.1@),
{
    let sk = SigningKey { secret: generate_secret() };
    let vk = sk.verifying_key();
    let addr = Address::from_public_key(&vk);
    (sk, vk, addr)
}

/// The digest that a transaction's signature covers: `from || to ||
/// commitment || proof`, hashed. The bit width is not part of it.
pub open spec fn signing_digest(
    from: Seq<u8>,
    to: Seq<u8>,
    commitment: Seq<u8>,
    proof: Seq<u8>,
) -> Seq<u8> {
    sha256_of(from + to + commitment + proof)
}

/// Computes `signing_digest` of the four fields.
pub fn signing_message(from: &[u8; 32], to: &[u8; 32], commitment: &[u8; 32], proof: &[u8]) -> (r:
    [u8; 32])
    ensures
        r@ == signing_digest(from@, to@, commitment@, proof@),
{
    let mut buf: Vec<u8> = Vec::new();
    append_bytes(&mut buf, from);
    append_bytes(&mut buf, to);
    append_bytes(&mut buf, commitment);
    append_bytes(&mut buf, proof);
    sha256(buf.as_slice())
}

/// A transfer of a hidden amount, bound to its sender by a signature.
#[derive(Debug)]
pub struct Tx {
    pub from: Address,
    pub to: Address,
    pub amount_commitment: [u8; 32],
    pub range_proof: Vec<u8>,
    pub bits: usize,
    pub signature: Vec<u8>,
    pub public_key: [u8; 32],
}

/// The value of a transaction: its fields as byte sequences.
pub struct TxView {
    pub from: Seq<u8>,
    pub to: Seq<u8>,
    pub amount_commitment: Seq<u8>,
    pub range_proof: Seq<u8>,
    pub bits: usize,
    pub signature: Seq<u8>,
    pub public_key: Seq<u8>,
}

impl View for Tx {
    type V = TxView;

    open spec fn view(&self) -> TxView {
        TxView {
            from: self.from.0@,
            to: self.to.0@,
            amount_commitment: self.amount_commitment@,
            range_proof: self.range_proof@,
            bits: self.bits,
            signature: self.signature@,
            public_key: self.public_key@,
        }
    }
}

impl Clone for Tx {
    fn clone(&self) -> (r: Tx)
        ensures
            r@ == self@,
    {
        Tx {
            from: self.from,
            to: self.to,
            amount_commitment: self.amount_commitment,
            range_proof: self.range_proof.clone(),
            bits: self.bits,
            signature: self.signature.clone(),
            public_key: self.public_key,
        }
    }
}

/// What verifying a transaction yields: the range proof is checked first,
/// then the signature's length, then the signature over `signing_digest`
/// under the transaction's public key.
pub open spec fn tx_verdict(t: TxView) -> Result<(), ZkError> {
    match range_verdict(t.range_proof, t.amount_commitment, t.bits) {
        Err(e) => Err(e),
        Ok(_) => if t.signature.len() != 64 {
            Err(ZkError::BadSignatureLength)
        } else if ed25519_accepts(
            t.public_key,
            signing_digest(t.from, t.to, t.amount_commitment, t.range_proof),
            t.signature,
        ) {
            Ok(())
        } else {
            Err(ZkError::SignatureRejected)
        },
    }
}

impl Tx {
    /// Builds and signs a transfer of `amount` from the holder of `from_sk`
    /// to `to`, with a proof that the hidden amount fits in `bits` bits.
    /// A width outside `1..=64` fails with `InvalidParameter`.
    pub fn new_signed(
        from_sk: &SigningKey,
        to: Address,
        amount: u64,
        bits: usize,
        prover: &RangeProver,
    ) -> (r: Result<Tx, ZkError>)
        ensures
            !valid_bits(bits) ==> r == Err::<Tx, ZkError>(ZkError::InvalidParameter),
            valid_bits(bits) ==> r is Ok,
            r is Ok ==> ({
                let t = r->Ok_0@;
                &&& t.public_key == ed25519_public_of(from_sk@)
                &&& t.from == sha256_of(t.public_key)
                &&& t.to == to.0@
                &&& t.bits == bits
                &&& exists|b: Seq<u8>|
                    b.len() == 32 && t.amount_commitment == #[trigger] pedersen_commitment_of(
                        amount,
                        b,
                    )
                &&& t.signature == ed25519_signature_of(
                    from_sk@,
                    signing_digest(t.from, t.to, t.amount_commitment, t.range_proof),
                )
            }),
            r is Ok && amount < pow2(bits as nat) ==> tx_verdict(r->Ok_0@) == Ok::<(), ZkError>(()),
    {
        let vk = from_sk.verifying_key();
        let from = Address::from_public_key(&vk);
        let proof_data = match prover.prove_amount(amount, bits) {
            Ok(d) => d,
            Err(e) => return Err(e),
        };
        let msg = signing_message(&from.0, &to.0, &proof_data.commitment, proof_data.proof.as_slice());
        let sig = sign_message(&from_sk.secret, &msg);
        let mut signature: Vec<u8> = Vec::new();
        append_bytes(&mut signature, &sig);
        Ok(Tx {
            from,
            to,
            amount_commitment: proof_data.commitment,
            range_proof: proof_data.proof,
            bits: proof_data.bits,
            signature,
            public_key: vk.bytes,
        })
    }

    /// Checks the range proof against the commitment and bit width, then the
    /// signature over the transaction's fields. It does not check that `from`
    /// is the digest of `public_key`: a sender address is taken as stated.
    pub fn verify(&self, prover: &RangeProver) -> (r: Result<(), ZkError>)
        ensures
            r == tx_verdict(self@),
    {
        match prover.verify_amount(self.range_proof.as_slice(), self.amount_commitment, self.bits) {
            Ok(()) => {},
            Err(e) => return Err(e),
        }
        if self.signature.len() != 64 {
            return Err(ZkError::BadSignatureLength);
        }
        let msg = signing_message(&self.from.0, &self.to.0, &self.amount_commitment, self.range_proof.as_slice());
        if check_signature(&self.public_key, &msg, self.signature.as_slice()) {
            Ok(())
        } else {
            Err(ZkError::SignatureRejected)
        }
    }
}

/// Verifying a transaction depends on its value alone: two checks of equal
/// transactions, or two checks of one, have the same outcome.
pub proof fn lemma_verify_deterministic(a: TxView, b: TxView)
    requires
        a == b,
    ensures
        tx_verdict(a) == tx_verdict(b),
{
}

/// An account: an address and its balance.
#[derive(Clone, Copy, Debug)]
pub struct Account {
    pub address: Address,
    pub balance: u128,
}

} // verus!
