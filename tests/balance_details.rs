use ark_wallet::error::WalletError;
use ark_wallet::ledger::{list_boarding_outpoints, list_virtual_tx_outpoints, BoardingUtxo, VirtualUtxo};
use ark_wallet::model::{BalanceDetails, OnchainBalance, VirtualBalance};
use ark_wallet::outpoint::OutPoint;

fn op(tag: u8) -> OutPoint {
    OutPoint { txid: [tag; 32], vout: 0 }
}

#[test]
fn balance_details_from_classified_outputs() {
    let v = list_virtual_tx_outpoints(
        &vec![
            VirtualUtxo { outpoint: op(1), amount: 100, expire_at: 50, is_spent: false },
            VirtualUtxo { outpoint: op(2), amount: 200, expire_at: 5, is_spent: false },
        ],
        10,
    );
    let b = list_boarding_outpoints(
        &vec![
            BoardingUtxo { outpoint: op(3), amount: 1000, confirmation_blocktime: Some(9), is_spent: false },
            BoardingUtxo { outpoint: op(4), amount: 2000, confirmation_blocktime: None, is_spent: false },
        ],
        10,
        100,
    );
    let d = BalanceDetails::from_outpoints("acct".to_string(), &v, &b).unwrap();
    assert_eq!(d.account_id, "acct");
    assert_eq!(d.virtual_balance, VirtualBalance { available: 100, expired: 200 });
    assert_eq!(d.onchain_balance, OnchainBalance { available: 1000, expired: 0, pending: 2000 });
}

#[test]
fn balance_details_beyond_range_are_refused() {
    let v = list_virtual_tx_outpoints(
        &vec![
            VirtualUtxo { outpoint: op(1), amount: u64::MAX, expire_at: 50, is_spent: false },
            VirtualUtxo { outpoint: op(2), amount: 1, expire_at: 50, is_spent: false },
        ],
        10,
    );
    let b = list_boarding_outpoints(&vec![], 10, 100);
    let r = BalanceDetails::from_outpoints("acct".to_string(), &v, &b);
    assert_eq!(r.err(), Some(WalletError::InvalidInput));
}
