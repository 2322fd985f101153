use ark_wallet::error::WalletError;
use ark_wallet::ledger::{BoardingUtxo, VirtualUtxo};
use ark_wallet::outpoint::OutPoint;
use ark_wallet::withdraw::{plan_withdrawal, InputKind, RoundInput, RoundOutput, WithdrawalPlan};

fn op(tag: u8) -> OutPoint {
    OutPoint { txid: [tag; 32], vout: 3 }
}

#[test]
fn nothing_spendable_means_no_round() {
    let r = plan_withdrawal(&vec![], &vec![], &"dest".to_string()).unwrap();
    assert!(matches!(r, WithdrawalPlan::NoFundsToWithdraw));
}

#[test]
fn withdrawal_registers_every_spendable_output() {
    let b = vec![BoardingUtxo { outpoint: op(1), amount: 700, confirmation_blocktime: Some(5), is_spent: false }];
    let v = vec![
        VirtualUtxo { outpoint: op(2), amount: 300, expire_at: 10, is_spent: false },
        VirtualUtxo { outpoint: op(3), amount: 1000, expire_at: 10, is_spent: false },
    ];
    match plan_withdrawal(&b, &v, &"dest".to_string()).unwrap() {
        WithdrawalPlan::Round { inputs, output } => {
            assert_eq!(
                inputs,
                vec![
                    RoundInput { outpoint: op(1), kind: InputKind::Boarding },
                    RoundInput { outpoint: op(2), kind: InputKind::Virtual },
                    RoundInput { outpoint: op(3), kind: InputKind::Virtual },
                ]
            );
            assert_eq!(output, RoundOutput { address: "dest".to_string(), amount: 2000 });
        }
        WithdrawalPlan::NoFundsToWithdraw => panic!("expected a round"),
    }
}

#[test]
fn withdrawal_total_beyond_range_is_invalid() {
    let v = vec![
        VirtualUtxo { outpoint: op(2), amount: u64::MAX, expire_at: 10, is_spent: false },
        VirtualUtxo { outpoint: op(3), amount: 1, expire_at: 10, is_spent: false },
    ];
    let r = plan_withdrawal(&vec![], &v, &"dest".to_string());
    assert!(matches!(r, Err(WalletError::InvalidInput)));
}
