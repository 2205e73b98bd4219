use vstd::prelude::*;
use vstd::string::{StrSliceExecFns, StringSliceAdditionalSpecFns};
use crate::bytes::append_bytes;
use crate::tx::{Tx, TxView};

verus! {

/// The pieces of the compact JSON text of a sequence of transactions: an
/// array of objects whose fields come in declaration order, byte strings as
/// arrays of decimal numbers, and no white space.
pub const OBJECT_FROM: &'static str = "{\"from\":";

pub const FIELD_TO: &'static str = ",\"to\":";

pub const FIELD_COMMITMENT: &'static str = ",\"amount_commitment\":";

pub const FIELD_PROOF: &'static str = ",\"range_proof\":";

pub const FIELD_BITS: &'static str = ",\"bits\":";

pub const FIELD_SIGNATURE: &'static str = ",\"signature\":";

pub const FIELD_PUBLIC_KEY: &'static str = ",\"public_key\":";

pub const OBJECT_END: &'static str = "}";

pub const ARRAY_START: &'static str = "[";

pub const ARRAY_END: &'static str = "]";

pub const SEPARATOR: &'static str = ",";

/// The bytes of a piece of JSON text.
pub open spec fn text(s: &str) -> Seq<u8> {
    s.spec_bytes()
}

/// The decimal digits of `n`, most significant first, with no leading zero.
pub open spec fn decimal(n: nat) -> Seq<u8>
    decreases n,
{
    if n < 10 {
        seq![(48 + n) as u8]
    } else {
        decimal(n / 10).push((48 + n % 10) as u8)
    }
}

/// The numbers of `b` in decimal, separated by commas.
pub open spec fn number_list(b: Seq<u8>) -> Seq<u8>
    decreases b.len(),
{
    if b.len() == 0 {
        Seq::empty()
    } else if b.len() == 1 {
        decimal(b[0] as nat)
    } else {
        number_list(b.drop_last()) + text(SEPARATOR) + decimal(b.last() as nat)
    }
}

/// A byte string as a JSON array of numbers.
pub open spec fn number_array(b: Seq<u8>) -> Seq<u8> {
    text(ARRAY_START) + number_list(b) + text(ARRAY_END)
}

/// The JSON object of one transaction.
pub open spec fn tx_json(t: TxView) -> Seq<u8> {
    text(OBJECT_FROM) + number_array(t.from) + text(FIELD_TO) + number_array(t.to) + text(
        FIELD_COMMITMENT,
    ) + number_array(t.amount_commitment) + text(FIELD_PROOF) + number_array(t.range_proof)
        + text(FIELD_BITS) + decimal(t.bits as nat) + text(FIELD_SIGNATURE) + number_array(
        t.signature,
    ) + text(FIELD_PUBLIC_KEY) + number_array(t.public_key) + text(OBJECT_END)
}

/// The objects of the transactions, separated by commas.
pub open spec fn tx_json_list(s: Seq<TxView>) -> Seq<u8>
    decreases s.len(),
{
    if s.len() == 0 {
        Seq::empty()
    } else if s.len() == 1 {
        tx_json(s[0])
    } else {
        tx_json_list(s.drop_last()) + text(SEPARATOR) + tx_json(s.last())
    }
}

/// The canonical bytes of a sequence of transactions: its JSON array.
pub open spec fn txs_json(s: Seq<TxView>) -> Seq<u8> {
    text(ARRAY_START) + tx_json_list(s) + text(ARRAY_END)
}

fn push_text(out: &mut Vec<u8>, s: &str)
    ensures
        final(out)@ == old(out)@ + text(s),
{
    let b = s.as_bytes_vec();
    append_bytes(out, b.as_slice());
}

/// Appends the decimal digits of `n`.
fn push_decimal(out: &mut Vec<u8>, n: u64)
    ensures
        final(out)@ == old(out)@ + decimal(n as nat),
    decreases n,
{
    if n < 10 {
        out.push(48 + n as u8);
        assert(out@ =~= old(out)@ + decimal(n as nat));
    } else {
        push_decimal(out, n / 10);
        out.push(48 + (n % 10) as u8);
        assert(out@ =~= old(out)@ + decimal(n as nat));
    }
}

/// Appends `number_array(b)`.
fn push_number_array(out: &mut Vec<u8>, b: &[u8])
    ensures
        final(out)@ == old(out)@ + number_array(b@),
{
    push_text(out, ARRAY_START);
    let ghost start = out@;
    let mut i: usize = 0;
    assert(b@.subrange(0, 0) =~= Seq::<u8>::empty());
    assert(out@ =~= start + number_list(b@.subrange(0, 0)));
    while i < b.len()
        invariant
            i <= b@.len(),
            out@ == start + number_list(b@.subrange(0, i as int)),
        decreases b@.len() - i,
    {
        if i > 0 {
            push_text(out, SEPARATOR);
        }
        push_decimal(out, b[i] as u64);
        i = i + 1;
        let ghost pre = b@.subrange(0, i as int);
        assert(pre.drop_last() =~= b@.subrange(0, i - 1 as int));
        assert(out@ =~= start + number_list(pre));
    }
    assert(b@.subrange(0, b@.len() as int) =~= b@);
    push_text(out, ARRAY_END);
    assert(out@ =~= old(out)@ + number_array(b@));
}

/// Appends `tx_json(t@)`.
fn push_tx_json(out: &mut Vec<u8>, t: &Tx)
    ensures
        final(out)@ == old(out)@ + tx_json(t@),
{
    push_text(out, OBJECT_FROM);
    push_number_array(out, &t.from.0);
    push_text(out, FIELD_TO);
    push_number_array(out, &t.to.0);
    push_text(out, FIELD_COMMITMENT);
    push_number_array(out, &t.amount_commitment);
    push_text(out, FIELD_PROOF);
    push_number_array(out, t.range_proof.as_slice());
    push_text(out, FIELD_BITS);
    push_decimal(out, t.bits as u64);
    push_text(out, FIELD_SIGNATURE);
    push_number_array(out, t.signature.as_slice());
    push_text(out, FIELD_PUBLIC_KEY);
    push_number_array(out, &t.public_key);
    push_text(out, OBJECT_END);
    let ghost v = t@;
    assert(out@ =~= old(out)@ + tx_json(v));
}

/// Appends `txs_json` of the transactions.
pub fn push_txs_json(out: &mut Vec<u8>, txs: &Vec<Tx>)
    ensures
        final(out)@ == old(out)@ + txs_json(txs@.map_values(|t: Tx| t@)),
{
    let ghost views = txs@.map_values(|t: Tx| t@);
    push_text(out, ARRAY_START);
    let ghost start = out@;
    let mut i: usize = 0;
    assert(views.subrange(0, 0) =~= Seq::<TxView>::empty());
    assert(out@ =~= start + tx_json_list(views.subrange(0, 0)));
    while i < txs.len()
        invariant
            i <= txs@.len(),
            views == txs@.map_values(|t: Tx| t@),
            out@ == start + tx_json_list(views.subrange(0, i as int)),
        decreases txs@.len() - i,
    {
        if i > 0 {
            push_text(out, SEPARATOR);
        }
        push_tx_json(out, &txs[i]);
        i = i + 1;
        let ghost pre = views.subrange(0, i as int);
        assert(pre.drop_last() =~= views.subrange(0, i - 1 as int));
        assert(pre.last() == txs@[i - 1]@);
        assert(out@ =~= start + tx_json_list(pre));
    }
    assert(views.subrange(0, txs@.len() as int) =~= views);
    push_text(out, ARRAY_END);
    assert(out@ =~= old(out)@ + txs_json(views));
}

} // verus!
