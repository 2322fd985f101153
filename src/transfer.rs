use vstd::prelude::*;

use crate::coin_select::{select_vtxos, selection, CoinSelectError};
use crate::error::WalletError;
use crate::ledger::VirtualUtxo;
use crate::outpoint::VtxoOutPoint;
use crate::redeem::{build_redeem_transaction, buildable, redeem_built, RedeemTransaction, VtxoInput};

verus! {

pub open spec fn candidate_of(o: VirtualUtxo) -> VtxoOutPoint {
    VtxoOutPoint { outpoint: o.outpoint, expire_at: o.expire_at, amount: o.amount }
}

pub open spec fn input_of(o: VtxoOutPoint) -> VtxoInput {
    VtxoInput { outpoint: o.outpoint, amount: o.amount }
}

/// The spendable virtual outputs as coin-selection candidates, in the same order.
pub open spec fn candidates_of(s: Seq<VirtualUtxo>) -> Seq<VtxoOutPoint> {
    s.map_values(|o: VirtualUtxo| candidate_of(o))
}

/// The selected candidates as transaction inputs, in the same order.
pub open spec fn inputs_of(s: Seq<VtxoOutPoint>) -> Seq<VtxoInput> {
    s.map_values(|o: VtxoOutPoint| input_of(o))
}

/// The outcome of preparing a transfer: select from the spendable outputs in
/// their order, then build a transaction from the selected ones.
pub open spec fn transfer_outcome(
    spendable: Seq<VirtualUtxo>,
    destination: String,
    amount: u64,
    change_address: String,
    dust: u64,
    tx: Result<RedeemTransaction, WalletError>,
) -> bool {
    match selection(candidates_of(spendable), amount, dust, true) {
        Err(_) => tx == Err::<RedeemTransaction, WalletError>(WalletError::InsufficientFunds),
        Ok(sel) => if buildable(inputs_of(sel), amount) {
            tx is Ok && redeem_built(tx->Ok_0, destination, amount, change_address, inputs_of(sel))
        } else {
            tx == Err::<RedeemTransaction, WalletError>(WalletError::BuildFailed)
        },
    }
}

/// Selects spendable virtual outputs that cover `amount`, leaving either no
/// change or change of at least `dust`, and builds the unsigned transaction
/// that pays `amount` to `destination` with the change to `change_address`.
pub fn prepare_transfer(
    spendable: &Vec<VirtualUtxo>,
    destination: &String,
    amount: u64,
    change_address: &String,
    dust: u64,
) -> (r: Result<RedeemTransaction, WalletError>)
    ensures
        transfer_outcome(spendable@, *destination, amount, *change_address, dust, r),
{
    let mut candidates: Vec<VtxoOutPoint> = Vec::new();
    let mut i: usize = 0;
    while i < spendable.len()
        invariant
            i <= spendable.len(),
            candidates@ == candidates_of(spendable@.take(i as int)),
        decreases spendable.len() - i,
    {
        let o = spendable[i];
        candidates.push(VtxoOutPoint { outpoint: o.outpoint, expire_at: o.expire_at, amount: o.amount });
        i = i + 1;
        proof {
            assert(candidates@ =~= candidates_of(spendable@.take(i as int)));
        }
    }
    assert(spendable@.take(i as int) =~= spendable@);
    let selected = match select_vtxos(&candidates, amount, dust, true) {
        Ok(sel) => sel,
        Err(CoinSelectError::InsufficientFunds) => {
            return Err(WalletError::InsufficientFunds);
        },
    };
    let mut inputs: Vec<VtxoInput> = Vec::new();
    let mut j: usize = 0;
    while j < selected.len()
        invariant
            j <= selected.len(),
            inputs@ == inputs_of(selected@.take(j as int)),
        decreases selected.len() - j,
    {
        let o = selected[j];
        inputs.push(VtxoInput { outpoint: o.outpoint, amount: o.amount });
        j = j + 1;
        proof {
            assert(inputs@ =~= inputs_of(selected@.take(j as int)));
        }
    }
    assert(selected@.take(j as int) =~= selected@);
    match build_redeem_transaction(destination, amount, change_address, &inputs) {
        Ok(tx) => Ok(tx),
        Err(_) => Err(WalletError::BuildFailed),
    }
}

} // verus!
