use vstd::prelude::*;

verus! {

/// A reference to one output of a transaction: the transaction id and the output index.
#[derive(Clone, Copy, Debug, PartialEq, Eq)]
pub struct OutPoint {
    pub txid: [u8; 32],
    pub vout: u32,
}

/// A spendable virtual output as offered to coin selection.
#[derive(Clone, Copy, Debug, PartialEq, Eq)]
pub struct VtxoOutPoint {
    pub outpoint: OutPoint,
    /// Unix time at which the output expires.
    pub expire_at: i64,
    /// Value in satoshis.
    pub amount: u64,
}

} // verus!
