use vstd::prelude::*;

use crate::ledger::BoardingUtxo;
use crate::outpoint::OutPoint;

verus! {

/// One output of a transaction as the explorer reports it.
#[derive(Clone, Debug, PartialEq, Eq)]
pub struct ExplorerTxOut {
    pub script_pubkey: Vec<u8>,
    pub value: u64,
}

/// A transaction touching a script, as the explorer reports it.
#[derive(Clone, Debug, PartialEq, Eq)]
pub struct ExplorerTx {
    pub txid: [u8; 32],
    pub vout: Vec<ExplorerTxOut>,
    /// Block time of the confirming block; `None` while unconfirmed.
    pub block_time: Option<u64>,
}

pub open spec fn utxo_at(tx: ExplorerTx, i: int) -> BoardingUtxo {
    BoardingUtxo {
        outpoint: OutPoint { txid: tx.txid, vout: i as u32 },
        amount: tx.vout@[i].value,
        confirmation_blocktime: tx.block_time,
        is_spent: false,
    }
}

/// The outputs among the first `k` of `tx` that pay to `script`, in order.
pub open spec fn tx_paying_prefix(tx: ExplorerTx, script: Seq<u8>, k: int) -> Seq<BoardingUtxo>
    decreases k,
{
    if k <= 0 {
        Seq::empty()
    } else {
        let before = tx_paying_prefix(tx, script, k - 1);
        if tx.vout@[k - 1].script_pubkey@ == script {
            before.push(utxo_at(tx, k - 1))
        } else {
            before
        }
    }
}

/// The outputs of all of `txs` that pay to `script`, transaction by
/// transaction and each in output order, not yet marked as spent.
pub open spec fn paying_to(txs: Seq<ExplorerTx>, script: Seq<u8>) -> Seq<BoardingUtxo>
    decreases txs.len(),
{
    if txs.len() == 0 {
        Seq::empty()
    } else {
        paying_to(txs.drop_last(), script) + tx_paying_prefix(
            txs.last(),
            script,
            txs.last().vout@.len() as int,
        )
    }
}

fn same_bytes(a: &Vec<u8>, b: &Vec<u8>) -> (r: bool)
    ensures
        r == (a@ == b@),
{
    if a.len() != b.len() {
        return false;
    }
    let mut i: usize = 0;
    while i < a.len()
        invariant
            a.len() == b.len(),
            i <= a.len(),
            forall|j: int| 0 <= j < i ==> a@[j] == b@[j],
        decreases a.len() - i,
    {
        if a[i] != b[i] {
            return false;
        }
        i = i + 1;
    }
    assert(a@ =~= b@);
    true
}

/// Lists the outputs of `txs` that pay to `script`: transaction by transaction,
/// each in output order, with the output index, amount and confirmation time.
pub fn outputs_paying_to(txs: &Vec<ExplorerTx>, script: &Vec<u8>) -> (r: Vec<BoardingUtxo>)
    requires
        forall|t: int| 0 <= t < txs@.len() ==> txs@[t].vout@.len() <= u32::MAX + 1,
    ensures
        r@ == paying_to(txs@, script@),
{
    let mut result: Vec<BoardingUtxo> = Vec::new();
    let mut t: usize = 0;
    while t < txs.len()
        invariant
            t <= txs@.len(),
            forall|u: int| 0 <= u < txs@.len() ==> txs@[u].vout@.len() <= u32::MAX + 1,
            result@ == paying_to(txs@.take(t as int), script@),
        decreases txs.len() - t,
    {
        let tx = &txs[t];
        let ghost before = result@;
        let mut i: usize = 0;
        while i < tx.vout.len()
            invariant
                i <= tx.vout@.len(),
                tx.vout@.len() <= u32::MAX + 1,
                result@ == before + tx_paying_prefix(*tx, script@, i as int),
            decreases tx.vout.len() - i,
        {
            if same_bytes(&tx.vout[i].script_pubkey, script) {
                result.push(
                    BoardingUtxo {
                        outpoint: OutPoint { txid: tx.txid, vout: i as u32 },
                        amount: tx.vout[i].value,
                        confirmation_blocktime: tx.block_time,
                        is_spent: false,
                    },
                );
            }
            i = i + 1;
            proof {
                assert(result@ =~= before + tx_paying_prefix(*tx, script@, i as int));
            }
        }
        proof {
            assert(txs@.take(t as int + 1).drop_last() =~= txs@.take(t as int));
        }
        t = t + 1;
    }
    assert(txs@.take(t as int) =~= txs@);
    result
}

/// Whether an output is spent, from the explorer's status for it: spent only
/// when the explorer says so, and unspent when it knows nothing of it.
pub open spec fn spent_from_status(status: Option<bool>) -> bool {
    status == Some(true)
}

/// Marks each output as spent or not from the explorer's status for it
/// (`statuses[i]` is the status of `utxos[i]`).
pub fn apply_spent_status(utxos: &Vec<BoardingUtxo>, statuses: &Vec<Option<bool>>) -> (r: Vec<
    BoardingUtxo,
>)
    requires
        utxos.len() == statuses.len(),
    ensures
        r@.len() == utxos@.len(),
        forall|i: int|
            0 <= i < r@.len() ==> #[trigger] r@[i] == (BoardingUtxo {
                is_spent: spent_from_status(statuses@[i]),
                ..utxos@[i]
            }),
{
    let mut result: Vec<BoardingUtxo> = Vec::new();
    let mut i: usize = 0;
    while i < utxos.len()
        invariant
            i <= utxos.len(),
            utxos.len() == statuses.len(),
            result@.len() == i,
            forall|j: int|
                0 <= j < i ==> #[trigger] result@[j] == (BoardingUtxo {
                    is_spent: spent_from_status(statuses@[j]),
                    ..utxos@[j]
                }),
        decreases utxos.len() - i,
    {
        let u = utxos[i];
        let spent = match statuses[i] {
            Some(true) => true,
            _ => false,
        };
        result.push(BoardingUtxo { is_spent: spent, ..u });
        i = i + 1;
    }
    result
}

} // verus!
