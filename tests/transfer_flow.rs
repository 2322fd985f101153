use ark_wallet::error::WalletError;
use ark_wallet::ledger::VirtualUtxo;
use ark_wallet::outpoint::OutPoint;
use ark_wallet::redeem::TxOutput;
use ark_wallet::transfer::prepare_transfer;

fn vtxo(tag: u8, amount: u64) -> VirtualUtxo {
    VirtualUtxo { outpoint: OutPoint { txid: [tag; 32], vout: 0 }, amount, expire_at: 9999, is_spent: false }
}

#[test]
fn transfer_spends_selected_prefix() {
    let s = vec![vtxo(1, 50000), vtxo(2, 30000), vtxo(3, 20000)];
    let tx = prepare_transfer(&s, &"bob".to_string(), 60000, &"me".to_string(), 1000).unwrap();
    assert_eq!(tx.inputs.len(), 2);
    assert_eq!(tx.inputs[0].outpoint, s[0].outpoint);
    assert_eq!(tx.inputs[1].amount, 30000);
    assert_eq!(
        tx.outputs,
        vec![
            TxOutput { address: "bob".to_string(), amount: 60000 },
            TxOutput { address: "me".to_string(), amount: 20000 },
        ]
    );
}

#[test]
fn transfer_with_short_funds_fails() {
    let s = vec![vtxo(1, 5000)];
    let r = prepare_transfer(&s, &"bob".to_string(), 60000, &"me".to_string(), 1000);
    assert_eq!(r.err(), Some(WalletError::InsufficientFunds));
}

#[test]
fn transfer_of_zero_fails_to_build() {
    let s = vec![vtxo(1, 5000)];
    let r = prepare_transfer(&s, &"bob".to_string(), 0, &"me".to_string(), 1000);
    assert_eq!(r.err(), Some(WalletError::BuildFailed));
}
