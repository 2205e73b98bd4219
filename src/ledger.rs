use vstd::prelude::*;
use vstd::bytes::{spec_u64_to_le_bytes, u64_to_le_bytes};
use std::collections::HashMap;
use crate::bytes::{append_bytes, sha256, sha256_of};
use crate::error::ZkError;
use crate::json::{push_txs_json, txs_json};
use crate::tx::{tx_verdict, Tx, TxView};
use crate::zkps::RangeProver;

verus! {

/// The values of a sequence of transactions.
pub open spec fn tx_views(s: Seq<Tx>) -> Seq<TxView> {
    s.map_values(|t: Tx| t@)
}

/// Eight little-endian bytes of `n`.
pub open spec fn le64(n: u64) -> Seq<u8> {
    spec_u64_to_le_bytes(n)
}

/// The hash of a block: SHA-256 over its height, its predecessor's hash and
/// the canonical bytes of its transactions (their compact JSON text).
pub open spec fn block_hash(height: u64, prev_hash: Seq<u8>, txs: Seq<TxView>) -> Seq<u8> {
    sha256_of(le64(height) + prev_hash + txs_json(txs))
}

/// The first failure among the transactions' verdicts, in order, or `Ok`.
pub open spec fn batch_verdict(s: Seq<TxView>) -> Result<(), ZkError>
    decreases s.len(),
{
    if s.len() == 0 {
        Ok(())
    } else {
        match batch_verdict(s.drop_last()) {
            Err(e) => Err(e),
            Ok(_) => tx_verdict(s.last()),
        }
    }
}

/// A failure among the first `k` transactions is the failure of the batch.
pub proof fn lemma_batch_prefix(s: Seq<TxView>, k: int)
    requires
        0 <= k <= s.len(),
        batch_verdict(s.subrange(0, k)) is Err,
    ensures
        batch_verdict(s) == batch_verdict(s.subrange(0, k)),
    decreases s.len() - k,
{
    if k < s.len() {
        let t = s.subrange(0, k + 1);
        assert(t.drop_last() =~= s.subrange(0, k));
        lemma_batch_prefix(s, k + 1);
    } else {
        assert(s.subrange(0, k) =~= s);
    }
}

/// A batch in which every transaction verifies.
pub open spec fn all_verified(s: Seq<TxView>) -> bool {
    forall|j: int| 0 <= j < s.len() ==> tx_verdict(#[trigger] s[j]) == Ok::<(), ZkError>(())
}

/// A batch verifies as a whole exactly when each of its transactions does.
pub proof fn lemma_batch_ok(s: Seq<TxView>)
    ensures
        (batch_verdict(s) == Ok::<(), ZkError>(())) == all_verified(s),
    decreases s.len(),
{
    if s.len() > 0 {
        lemma_batch_ok(s.drop_last());
        if all_verified(s) {
            assert(all_verified(s.drop_last())) by {
                assert forall|j: int| 0 <= j < s.drop_last().len() implies tx_verdict(
                    #[trigger] s.drop_last()[j],
                ) == Ok::<(), ZkError>(()) by {
                    assert(s.drop_last()[j] == s[j]);
                }
            }
            assert(s.last() == s[s.len() - 1]);
        }
        if batch_verdict(s) == Ok::<(), ZkError>(()) {
            assert forall|j: int| 0 <= j < s.len() implies tx_verdict(#[trigger] s[j]) == Ok::<
                (),
                ZkError,
            >(()) by {
                if j < s.len() - 1 {
                    assert(s.drop_last()[j] == s[j]);
                }
            }
        }
    }
}

/// A block: a batch of verified transactions, linked to its predecessor.
#[derive(Debug)]
pub struct Block {
    pub height: u64,
    pub prev_hash: [u8; 32],
    pub txs: Vec<Tx>,
    pub hash: [u8; 32],
}

/// The value of a block.
pub struct BlockView {
    pub height: u64,
    pub prev_hash: Seq<u8>,
    pub txs: Seq<TxView>,
    pub hash: Seq<u8>,
}

impl View for Block {
    type V = BlockView;

    open spec fn view(&self) -> BlockView {
        BlockView {
            height: self.height,
            prev_hash: self.prev_hash@,
            txs: tx_views(self.txs@),
            hash: self.hash@,
        }
    }
}

/// Copies a sequence of transactions.
fn clone_txs(v: &Vec<Tx>) -> (r: Vec<Tx>)
    ensures
        tx_views(r@) == tx_views(v@),
{
    let mut r: Vec<Tx> = Vec::new();
    let mut i: usize = 0;
    while i < v.len()
        invariant
            i <= v@.len(),
            r@.len() == i,
            forall|j: int| 0 <= j < i ==> (#[trigger] r@[j])@ == v@[j]@,
        decreases v@.len() - i,
    {
        let c = v[i].clone();
        assert(c@ == v@[i as int]@);
        r.push(c);
        i = i + 1;
    }
    assert(tx_views(r@) =~= tx_views(v@));
    r
}

impl Clone for Block {
    fn clone(&self) -> (r: Block)
        ensures
            r@ == self@,
    {
        Block {
            height: self.height,
            prev_hash: self.prev_hash,
            txs: clone_txs(&self.txs),
            hash: self.hash,
        }
    }
}

impl Block {
    /// The hash of a block with these contents (see `block_hash`).
    pub fn compute_hash(height: u64, prev_hash: [u8; 32], txs: &Vec<Tx>) -> (r: [u8; 32])
        ensures
            r@ == block_hash(height, prev_hash@, tx_views(txs@)),
    {
        let mut buf: Vec<u8> = Vec::new();
        append_bytes(&mut buf, u64_to_le_bytes(height).as_slice());
        append_bytes(&mut buf, &prev_hash);
        push_txs_json(&mut buf, txs);
        assert(buf@ =~= le64(height) + prev_hash@ + txs_json(tx_views(txs@)));
        sha256(buf.as_slice())
    }
}

/// Thirty-two zero bytes: the genesis block's predecessor hash and hash.
pub open spec fn zero_hash() -> Seq<u8> {
    Seq::new(32, |i: int| 0u8)
}

/// The genesis block: height 0, no transactions, and all-zero hashes by
/// convention (not `block_hash` of its contents).
pub open spec fn genesis_view() -> BlockView {
    BlockView { height: 0, prev_hash: zero_hash(), txs: Seq::empty(), hash: zero_hash() }
}

/// The values of a sequence of blocks.
pub open spec fn block_views(s: Seq<Block>) -> Seq<BlockView> {
    s.map_values(|b: Block| b@)
}

/// A well-formed chain: genesis first; then each block at its own index,
/// linked to its predecessor's hash, hashed from its contents, and holding
/// only transactions that verify.
pub open spec fn chain_linked(c: Seq<BlockView>) -> bool {
    &&& c.len() >= 1
    &&& c[0] == genesis_view()
    &&& forall|i: int|
        0 < i < c.len() ==> {
            &&& (#[trigger] c[i]).height == i
            &&& c[i].prev_hash == c[i - 1].hash
            &&& c[i].hash == block_hash(c[i].height, c[i].prev_hash, c[i].txs)
            &&& all_verified(c[i].txs)
        }
}

/// In a well-formed chain, every block after genesis sits at its own index
/// and carries the hash of the block before it.
pub proof fn lemma_chain_integrity(c: Seq<BlockView>, i: int)
    requires
        chain_linked(c),
        0 < i < c.len(),
    ensures
        c[i].prev_hash == c[i - 1].hash,
        c[i].height == i,
{
}

/// Account balances. Block application does not change them.
pub struct LedgerState {
    pub balances: HashMap<[u8; 32], u128>,
}

impl LedgerState {
    pub fn new() -> (r: LedgerState)
        ensures
            r.balances@ == Map::<[u8; 32], u128>::empty(),
    {
        LedgerState { balances: HashMap::new() }
    }
}

impl Default for LedgerState {
    fn default() -> (r: LedgerState)
        ensures
            r.balances@ == Map::<[u8; 32], u128>::empty(),
    {
        LedgerState::new()
    }
}

/// A node: the chain, the balances, and the range prover that checks
/// incoming transactions. The fields are private: the chain changes only by
/// `apply_block`, which keeps it well formed.
pub struct NodeState {
    chain: Vec<Block>,
    state: LedgerState,
    prover: RangeProver,
}

impl NodeState {
    /// The chain's value.
    pub closed spec fn chain_view(&self) -> Seq<BlockView> {
        block_views(self.chain@)
    }

    /// The balances' value.
    pub closed spec fn balances(&self) -> Map<[u8; 32], u128> {
        self.state.balances@
    }

    /// The node's invariant: its chain is well formed.
    pub open spec fn wf(&self) -> bool {
        chain_linked(self.chain_view())
    }

    /// The blocks, genesis first.
    pub fn chain(&self) -> (r: &Vec<Block>)
        ensures
            block_views(r@) == self.chain_view(),
    {
        &self.chain
    }

    /// The account balances.
    pub fn state(&self) -> (r: &LedgerState)
        ensures
            r.balances@ == self.balances(),
    {
        &self.state
    }

    /// A node whose chain is the genesis block alone.
    pub fn new() -> (r: NodeState)
        ensures
            r.wf(),
            r.chain_view() == seq![genesis_view()],
            r.balances() == Map::<[u8; 32], u128>::empty(),
    {
        let genesis = Block { height: 0, prev_hash: [0u8; 32], txs: Vec::new(), hash: [0u8; 32] };
        assert(genesis@.prev_hash =~= zero_hash());
        assert(genesis@.txs =~= Seq::<TxView>::empty());
        let mut chain: Vec<Block> = Vec::new();
        chain.push(genesis);
        let r = NodeState { chain, state: LedgerState::new(), prover: RangeProver::new() };
        assert(r.chain_view() =~= seq![genesis_view()]);
        r
    }

    /// Checks one transaction against this node's prover.
    pub fn verify_tx(&self, tx: &Tx) -> (r: Result<(), ZkError>)
        ensures
            r == tx_verdict(tx@),
    {
        tx.verify(&self.prover)
    }

    /// Height of the newest block (genesis is at height 0).
    pub fn chain_height(&self) -> (r: u64)
        requires
            self.wf(),
        ensures
            r == self.chain_view().len() - 1,
    {
        assert(self.chain_view().len() == self.chain@.len());
        (self.chain.len() - 1) as u64
    }

    /// Verifies every transaction, in order, and on success appends a block
    /// holding them and returns a copy of it. On the first failure nothing is
    /// appended and that failure is returned.
    pub fn apply_block(&mut self, txs: Vec<Tx>) -> (r: Result<Block, ZkError>)
        requires
            old(self).wf(),
        ensures
            final(self).wf(),
            final(self).balances() == old(self).balances(),
            r is Err ==> final(self).chain_view() == old(self).chain_view(),
            r is Err <==> batch_verdict(tx_views(txs@)) is Err,
            r is Err ==> r->Err_0 == batch_verdict(tx_views(txs@))->Err_0,
            r is Ok ==> ({
                let old_chain = old(self).chain_view();
                let b = r->Ok_0@;
                &&& b.height == old_chain.len()
                &&& b.prev_hash == old_chain.last().hash
                &&& b.txs == tx_views(txs@)
                &&& b.hash == block_hash(b.height, b.prev_hash, b.txs)
                &&& final(self).chain_view() == old_chain.push(b)
            }),
    {
        let ghost views = tx_views(txs@);
        let mut i: usize = 0;
        assert(views.subrange(0, 0) =~= Seq::<TxView>::empty());
        while i < txs.len()
            invariant
                i <= txs@.len(),
                views == tx_views(txs@),
                *self == *old(self),
                self.wf(),
                batch_verdict(views.subrange(0, i as int)) == Ok::<(), ZkError>(()),
            decreases txs@.len() - i,
        {
            let res = self.verify_tx(&txs[i]);
            let ghost pre = views.subrange(0, i + 1);
            assert(pre.drop_last() =~= views.subrange(0, i as int));
            assert(pre.last() == txs@[i as int]@);
            match res {
                Ok(()) => {},
                Err(e) => {
                    proof {
                        lemma_batch_prefix(views, i + 1);
                    }
                    return Err(e);
                },
            }
            i = i + 1;
        }
        assert(views.subrange(0, txs@.len() as int) =~= views);
        proof {
            lemma_batch_ok(views);
        }
        let ghost old_chain = self.chain_view();
        let height = self.chain.len() as u64;
        let prev_hash = self.chain[self.chain.len() - 1].hash;
        let hash = Block::compute_hash(height, prev_hash, &txs);
        let block = Block { height, prev_hash, txs, hash };
        let copy = block.clone();
        self.chain.push(block);
        assert(self.chain_view() =~= old_chain.push(copy@));
        Ok(copy)
    }
}

} // verus!
