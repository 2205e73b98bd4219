use zkchain::error::ZkError;
use zkchain::json::push_txs_json;
use zkchain::ledger::{Block, LedgerState, NodeState};
use zkchain::tx::{generate_keypair, signing_message, Address, SigningKey, Tx, VerifyingKey};
use zkchain::zkps::RangeProver;

fn bytes32(hex_text: &str) -> [u8; 32] {
    let v = hex::decode(hex_text).unwrap();
    let mut a = [0u8; 32];
    a.copy_from_slice(&v);
    a
}

fn signed_tx(amount: u64, bits: usize) -> Tx {
    let (sk, _vk, _addr) = generate_keypair();
    let (_, _, to) = generate_keypair();
    Tx::new_signed(&sk, to, amount, bits, &RangeProver::default()).unwrap()
}

#[test]
fn round_trip_all_widths() {
    let prover = RangeProver::new();
    for (amount, bits) in [(0u64, 8usize), (255, 8), (65535, 16), (1000, 32), (u32::MAX as u64, 32)] {
        let d = prover.prove_amount(amount, bits).unwrap();
        assert_eq!(d.bits, bits);
        assert_eq!(prover.verify_amount(&d.proof, d.commitment, d.bits), Ok(()));
    }
}

#[test]
fn prove_rejects_zero_and_too_wide() {
    let prover = RangeProver::new();
    assert_eq!(prover.prove_amount(1, 0).err(), Some(ZkError::InvalidParameter));
    assert_eq!(prover.prove_amount(1, 65).err(), Some(ZkError::InvalidParameter));
}

#[test]
fn prove_max_amount_at_64_bits() {
    let prover = RangeProver::new();
    let d = prover.prove_amount(u64::MAX, 64).unwrap();
    assert_eq!(prover.verify_amount(&d.proof, d.commitment, 64), Ok(()));
}

#[test]
fn verify_rejects_bad_bits() {
    let prover = RangeProver::new();
    let d = prover.prove_amount(7, 8).unwrap();
    assert_eq!(prover.verify_amount(&d.proof, d.commitment, 0), Err(ZkError::InvalidParameter));
    assert_eq!(prover.verify_amount(&d.proof, d.commitment, 65), Err(ZkError::InvalidParameter));
}

#[test]
fn verify_reports_malformed_proof() {
    let prover = RangeProver::new();
    let d = prover.prove_amount(7, 8).unwrap();
    assert_eq!(prover.verify_amount(&[1u8, 2, 3], d.commitment, 8), Err(ZkError::MalformedProof));
    assert_eq!(prover.verify_amount(&[], d.commitment, 8), Err(ZkError::MalformedProof));
}

#[test]
fn tampered_commitment_fails() {
    let prover = RangeProver::new();
    let d = prover.prove_amount(1000, 32).unwrap();
    for byte in [0usize, 13, 31] {
        let mut c = d.commitment;
        c[byte] ^= 1;
        let r = prover.verify_amount(&d.proof, c, 32);
        assert!(matches!(r, Err(ZkError::ProofRejected) | Err(ZkError::MalformedProof)));
    }
}

#[test]
fn tampered_proof_fails() {
    let prover = RangeProver::new();
    let d = prover.prove_amount(1000, 32).unwrap();
    for byte in [0usize, 100, d.proof.len() - 1] {
        let mut p = d.proof.clone();
        p[byte] ^= 0x80;
        let r = prover.verify_amount(&p, d.commitment, 32);
        assert!(matches!(r, Err(ZkError::ProofRejected) | Err(ZkError::MalformedProof)));
    }
}

#[test]
fn scenario_build_and_verify() {
    let (sk, vk, addr) = generate_keypair();
    let (_, _, addr_b) = generate_keypair();
    let prover = RangeProver::default();
    let tx = Tx::new_signed(&sk, addr_b, 1000, 32, &prover).unwrap();
    assert_eq!(tx.verify(&prover), Ok(()));
    assert_eq!(tx.from.0, addr.0);
    assert_eq!(tx.to.0, addr_b.0);
    assert_eq!(tx.public_key, vk.to_bytes());
    assert_eq!(tx.bits, 32);
    assert_eq!(tx.signature.len(), 64);
}

#[test]
fn build_propagates_invalid_bits() {
    let (sk, _, to) = generate_keypair();
    let prover = RangeProver::new();
    assert_eq!(Tx::new_signed(&sk, to, 1, 0, &prover).err(), Some(ZkError::InvalidParameter));
    assert_eq!(Tx::new_signed(&sk, to, 1, 65, &prover).err(), Some(ZkError::InvalidParameter));
}

#[test]
fn altered_recipient_fails_signature() {
    let prover = RangeProver::new();
    let mut tx = signed_tx(5, 16);
    tx.to.0[0] ^= 1;
    assert_eq!(tx.verify(&prover), Err(ZkError::SignatureRejected));
}

#[test]
fn altered_commitment_or_proof_fails() {
    let prover = RangeProver::new();
    let tx = signed_tx(5, 16);
    let mut a = tx.clone();
    a.amount_commitment[3] ^= 4;
    assert!(a.verify(&prover).is_err());
    let mut b = tx.clone();
    b.range_proof[40] ^= 2;
    assert!(b.verify(&prover).is_err());
}

#[test]
fn altered_bits_fails_in_proof_check() {
    let prover = RangeProver::new();
    let mut tx = signed_tx(5, 32);
    tx.bits = 16;
    let r = tx.verify(&prover);
    assert!(matches!(r, Err(ZkError::ProofRejected) | Err(ZkError::MalformedProof)));
}

#[test]
fn bad_signature_length() {
    let prover = RangeProver::new();
    let mut tx = signed_tx(5, 8);
    tx.signature.pop();
    assert_eq!(tx.verify(&prover), Err(ZkError::BadSignatureLength));
}

#[test]
fn verify_is_idempotent() {
    let prover = RangeProver::new();
    let good = signed_tx(77, 16);
    assert_eq!(good.verify(&prover), good.verify(&prover));
    let mut bad = good.clone();
    bad.signature[0] ^= 1;
    let first = bad.verify(&prover);
    assert_eq!(first, Err(ZkError::SignatureRejected));
    assert_eq!(first, bad.verify(&prover));
}

#[test]
fn known_public_key_and_address() {
    let sk = SigningKey::from_bytes(&bytes32(
        "9d61b19deffd5a60ba844af492ec2cc44449c5697b326919703bac031cae7f60",
    ));
    let vk = sk.verifying_key();
    assert_eq!(
        vk.to_bytes(),
        bytes32("d75a980182b10ab7d54bfed3c964073a0ee172f3daa62325af021a68f707511a")
    );
    let addr = Address::from_public_key(&vk);
    assert_eq!(
        addr.0,
        bytes32("21fe31dfa154a261626bf854046fd2271b7bed4b6abe45aa58877ef47f9721b9")
    );
    assert_eq!(VerifyingKey::from_bytes(&vk.to_bytes()).to_bytes(), vk.to_bytes());
    assert_eq!(sk.to_bytes(), SigningKey::from_bytes(&sk.to_bytes()).to_bytes());
}

#[test]
fn signing_message_of_zero_fields() {
    let z = [0u8; 32];
    assert_eq!(
        signing_message(&z, &z, &z, &[]),
        bytes32("2ea9ab9198d1638007400cd2c3bef1cc745b864b76011a0e1bc52180ac6452d4")
    );
}

#[test]
fn compute_hash_of_empty_block() {
    assert_eq!(
        Block::compute_hash(0, [0u8; 32], &vec![]),
        bytes32("0c951bb209d49896882c5f5ca9481de5546fcf6b2eb08b7f0f9a0b4b2bb570ff")
    );
}

#[test]
fn compute_hash_depends_on_height_and_txs() {
    let txs = vec![signed_tx(1, 8)];
    let h0 = Block::compute_hash(1, [0u8; 32], &txs);
    assert_eq!(h0, Block::compute_hash(1, [0u8; 32], &txs.clone()));
    assert_ne!(h0, Block::compute_hash(2, [0u8; 32], &txs));
    assert_ne!(h0, Block::compute_hash(1, [0u8; 32], &vec![]));
}

#[test]
fn new_node_has_genesis_only() {
    let node = NodeState::new();
    assert_eq!(node.chain().len(), 1);
    assert_eq!(node.chain_height(), 0);
    let g = &node.chain()[0];
    assert_eq!(g.height, 0);
    assert_eq!(g.prev_hash, [0u8; 32]);
    assert_eq!(g.hash, [0u8; 32]);
    assert!(g.txs.is_empty());
    assert!(node.state().balances.is_empty());
    assert!(LedgerState::default().balances.is_empty());
}

#[test]
fn scenario_two_valid_then_tampered_batch() {
    let mut node = NodeState::new();
    let a = signed_tx(10, 32);
    let b = signed_tx(20, 32);
    assert_eq!(node.verify_tx(&a), Ok(()));
    let block = node.apply_block(vec![a.clone(), b.clone()]).unwrap();
    assert_eq!(block.height, 1);
    assert_ne!(block.hash, node.chain()[0].hash);
    assert_eq!(block.prev_hash, node.chain()[0].hash);
    assert_eq!(block.hash, Block::compute_hash(1, [0u8; 32], &vec![a.clone(), b.clone()]));
    assert_eq!(node.chain().len(), 2);

    let mut tampered = b.clone();
    tampered.to.0[5] ^= 0x10;
    let r = node.apply_block(vec![a.clone(), tampered]);
    assert_eq!(r.err(), Some(ZkError::SignatureRejected));
    assert_eq!(node.chain().len(), 2);
    assert_eq!(node.chain_height(), 1);
}

#[test]
fn chain_links_over_several_blocks() {
    let mut node = NodeState::new();
    node.apply_block(vec![]).unwrap();
    node.apply_block(vec![signed_tx(3, 8)]).unwrap();
    node.apply_block(vec![signed_tx(4, 16), signed_tx(5, 64)]).unwrap();
    assert_eq!(node.chain_height(), 3);
    for i in 1..node.chain().len() {
        assert_eq!(node.chain()[i].height, i as u64);
        assert_eq!(node.chain()[i].prev_hash, node.chain()[i - 1].hash);
        let b = &node.chain()[i];
        assert_eq!(b.hash, Block::compute_hash(b.height, b.prev_hash, &b.txs));
    }
}

#[test]
fn failed_batch_reports_first_failure() {
    let mut node = NodeState::new();
    let mut short_sig = signed_tx(1, 8);
    short_sig.signature.clear();
    let mut bad_bits = signed_tx(1, 8);
    bad_bits.bits = 0;
    let r = node.apply_block(vec![signed_tx(2, 8), short_sig, bad_bits]);
    assert_eq!(r.err(), Some(ZkError::BadSignatureLength));
    assert_eq!(node.chain().len(), 1);
}

#[test]
fn error_reasons() {
    assert_eq!(ZkError::InvalidParameter.to_string(), "bits must be 1..=64");
    assert_eq!(ZkError::BadSignatureLength.to_string(), "bad sig len");
    assert_ne!(ZkError::MalformedProof.to_string(), ZkError::ProofRejected.to_string());
}

#[test]
fn round_trip_every_width() {
    let prover = RangeProver::new();
    for bits in [1usize, 5, 12, 33, 63] {
        let top = (1u64 << bits) - 1;
        let d = prover.prove_amount(top, bits).unwrap();
        assert_eq!(d.bits, bits);
        assert_eq!(prover.verify_amount(&d.proof, d.commitment, bits), Ok(()));
    }
    let d = prover.prove_amount(0, 7).unwrap();
    assert_eq!(prover.verify_amount(&d.proof, d.commitment, 7), Ok(()));
}

#[test]
fn amount_above_width_does_not_verify() {
    let prover = RangeProver::new();
    for (amount, bits) in [(32u64, 5usize), (u64::MAX, 63), (256, 8)] {
        let d = prover.prove_amount(amount, bits).unwrap();
        assert!(prover.verify_amount(&d.proof, d.commitment, bits).is_err());
    }
}

#[test]
fn proof_checks_only_at_its_own_width() {
    let prover = RangeProver::new();
    let d = prover.prove_amount(3, 32).unwrap();
    for other in [5usize, 16, 64] {
        let r = prover.verify_amount(&d.proof, d.commitment, other);
        assert!(matches!(r, Err(ZkError::ProofRejected) | Err(ZkError::MalformedProof)));
    }
    let e = prover.prove_amount(3, 5).unwrap();
    for other in [4usize, 8] {
        let r = prover.verify_amount(&e.proof, e.commitment, other);
        assert!(matches!(r, Err(ZkError::ProofRejected) | Err(ZkError::MalformedProof)));
    }
}

#[test]
fn malformed_framing_at_non_native_width() {
    let prover = RangeProver::new();
    let d = prover.prove_amount(3, 5).unwrap();
    assert_eq!(prover.verify_amount(&[], d.commitment, 5), Err(ZkError::MalformedProof));
    assert_eq!(prover.verify_amount(&[1, 2, 3], d.commitment, 5), Err(ZkError::MalformedProof));
    let mut long_prefix = d.proof.clone();
    long_prefix[7] = 0xff;
    assert_eq!(prover.verify_amount(&long_prefix, d.commitment, 5), Err(ZkError::MalformedProof));
}

#[test]
fn build_at_odd_width() {
    let (sk, _, _) = generate_keypair();
    let p = RangeProver::default();
    let tx = Tx::new_signed(&sk, Address([9u8; 32]), 3, 5, &p).unwrap();
    assert_eq!(tx.bits, 5);
    assert_eq!(tx.verify(&p), Ok(()));
}

#[test]
fn scenario_build_to_fixed_address() {
    let (sk, vk, addr_k) = generate_keypair();
    let addr_b = Address([7u8; 32]);
    let p = RangeProver::default();
    let tx = Tx::new_signed(&sk, addr_b, 1000, 32, &p).unwrap();
    assert_eq!(tx.from.0, addr_k.0);
    assert_eq!(tx.to.0, [7u8; 32]);
    assert_eq!(tx.bits, 32);
    assert_eq!(tx.public_key, vk.to_bytes());
    assert_eq!(tx.signature.len(), 64);
    assert_eq!(p.verify_amount(&tx.range_proof, tx.amount_commitment, 32), Ok(()));
    assert_eq!(tx.verify(&RangeProver::new()), Ok(()));
}

#[test]
fn commitments_to_equal_amounts_differ() {
    let p = RangeProver::default();
    let a = p.prove_amount(42, 8).unwrap();
    let b = p.prove_amount(42, 8).unwrap();
    assert_ne!(a.commitment, b.commitment);
    assert_eq!(RangeProver::new().verify_amount(&a.proof, a.commitment, 8), Ok(()));
}

fn fixed_tx() -> Tx {
    Tx {
        from: Address([1u8; 32]),
        to: Address([2u8; 32]),
        amount_commitment: [0u8; 32],
        range_proof: vec![255, 10, 0],
        bits: 32,
        signature: vec![],
        public_key: [7u8; 32],
    }
}

#[test]
fn transactions_encode_as_compact_json() {
    let ones = vec!["1"; 32].join(",");
    let twos = vec!["2"; 32].join(",");
    let zeros = vec!["0"; 32].join(",");
    let sevens = vec!["7"; 32].join(",");
    let one = format!(
        "{{\"from\":[{}],\"to\":[{}],\"amount_commitment\":[{}],\"range_proof\":[255,10,0],\"bits\":32,\"signature\":[],\"public_key\":[{}]}}",
        ones, twos, zeros, sevens
    );
    let mut out = Vec::new();
    push_txs_json(&mut out, &vec![fixed_tx(), fixed_tx()]);
    assert_eq!(String::from_utf8(out).unwrap(), format!("[{},{}]", one, one));
    let mut empty = Vec::new();
    push_txs_json(&mut empty, &vec![]);
    assert_eq!(empty, b"[]".to_vec());
}

#[test]
fn compute_hash_of_fixed_block() {
    assert_eq!(
        Block::compute_hash(5, [9u8; 32], &vec![fixed_tx(), fixed_tx()]),
        bytes32("99aeaa06815a311b1b97568e064fcc2caedaee83cc44e7a0291e28c69f91269d")
    );
}
