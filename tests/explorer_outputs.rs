use ark_wallet::explorer::{apply_spent_status, outputs_paying_to, ExplorerTx, ExplorerTxOut};
use ark_wallet::ledger::BoardingUtxo;
use ark_wallet::outpoint::OutPoint;

fn out(script: u8, value: u64) -> ExplorerTxOut {
    ExplorerTxOut { script_pubkey: vec![script; 4], value }
}

#[test]
fn outputs_to_script_are_collected_in_order() {
    let txs = vec![
        ExplorerTx { txid: [1; 32], vout: vec![out(9, 10), out(7, 20), out(9, 30)], block_time: Some(100) },
        ExplorerTx { txid: [2; 32], vout: vec![out(7, 40)], block_time: None },
        ExplorerTx { txid: [3; 32], vout: vec![out(9, 50)], block_time: Some(300) },
    ];
    let r = outputs_paying_to(&txs, &vec![9; 4]);
    assert_eq!(
        r,
        vec![
            BoardingUtxo { outpoint: OutPoint { txid: [1; 32], vout: 0 }, amount: 10, confirmation_blocktime: Some(100), is_spent: false },
            BoardingUtxo { outpoint: OutPoint { txid: [1; 32], vout: 2 }, amount: 30, confirmation_blocktime: Some(100), is_spent: false },
            BoardingUtxo { outpoint: OutPoint { txid: [3; 32], vout: 0 }, amount: 50, confirmation_blocktime: Some(300), is_spent: false },
        ]
    );
    assert!(outputs_paying_to(&txs, &vec![9; 3]).is_empty());
}

#[test]
fn spent_status_marks_outputs() {
    let u = BoardingUtxo { outpoint: OutPoint { txid: [1; 32], vout: 0 }, amount: 10, confirmation_blocktime: None, is_spent: false };
    let r = apply_spent_status(&vec![u, u, u], &vec![Some(true), Some(false), None]);
    assert_eq!(r.iter().map(|x| x.is_spent).collect::<Vec<_>>(), vec![true, false, false]);
    assert_eq!(r[0].amount, 10);
}
