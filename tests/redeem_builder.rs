use ark_wallet::outpoint::OutPoint;
use ark_wallet::redeem::{
    attach_signatures, build_redeem_transaction, sign_redeem_transaction, InputSignature, RedeemError, Signer,
    SignerError, TxOutput, VtxoInput,
};
use std::cell::Cell;

fn input(tag: u8, amount: u64) -> VtxoInput {
    VtxoInput { outpoint: OutPoint { txid: [tag; 32], vout: 1 }, amount }
}

struct EchoSigner {
    calls: Cell<usize>,
    fail_at: Option<usize>,
}

impl Signer for EchoSigner {
    fn sign(&self, message: &Vec<u8>) -> Result<InputSignature, SignerError> {
        let n = self.calls.get();
        self.calls.set(n + 1);
        if self.fail_at == Some(n) {
            return Err(SignerError { reason: "refused".to_string() });
        }
        Ok(InputSignature { signature: message.clone(), public_key: vec![2; 33] })
    }
}

#[test]
fn build_adds_change_output() {
    let ins = vec![input(1, 50000), input(2, 30000)];
    let tx = build_redeem_transaction(&"dest".to_string(), 60000, &"change".to_string(), &ins)
        .unwrap();
    assert_eq!(tx.inputs, ins);
    assert_eq!(
        tx.outputs,
        vec![
            TxOutput { address: "dest".to_string(), amount: 60000 },
            TxOutput { address: "change".to_string(), amount: 20000 },
        ]
    );
}

#[test]
fn build_exact_amount_has_no_change() {
    let ins = vec![input(1, 25000), input(2, 35000)];
    let tx = build_redeem_transaction(&"dest".to_string(), 60000, &"change".to_string(), &ins)
        .unwrap();
    assert_eq!(tx.outputs, vec![TxOutput { address: "dest".to_string(), amount: 60000 }]);
}

#[test]
fn build_rejects_no_inputs() {
    let r = build_redeem_transaction(&"dest".to_string(), 1, &"change".to_string(), &vec![]);
    assert_eq!(r.err(), Some(RedeemError::BuildFailed));
}

#[test]
fn build_rejects_zero_amount() {
    let r = build_redeem_transaction(&"d".to_string(), 0, &"c".to_string(), &vec![input(1, 5)]);
    assert_eq!(r.err(), Some(RedeemError::BuildFailed));
}

#[test]
fn build_rejects_inputs_short_of_amount() {
    let r = build_redeem_transaction(&"d".to_string(), 6, &"c".to_string(), &vec![input(1, 5)]);
    assert_eq!(r.err(), Some(RedeemError::BuildFailed));
}

#[test]
fn build_rejects_change_beyond_amount_range() {
    let ins = vec![input(1, u64::MAX), input(2, u64::MAX)];
    let r = build_redeem_transaction(&"d".to_string(), 1, &"c".to_string(), &ins);
    assert_eq!(r.err(), Some(RedeemError::BuildFailed));
    let ok = build_redeem_transaction(&"d".to_string(), u64::MAX, &"c".to_string(), &ins).unwrap();
    assert_eq!(ok.outputs[1].amount, u64::MAX);
}

#[test]
fn signing_covers_every_input_in_order() {
    let ins = vec![input(1, 500), input(2, 700)];
    let tx = build_redeem_transaction(&"d".to_string(), 1000, &"c".to_string(), &ins).unwrap();
    let signer = EchoSigner { calls: Cell::new(0), fail_at: None };
    let signed = sign_redeem_transaction(tx, &vec![vec![1], vec![2]], &signer).unwrap();
    assert_eq!(signer.calls.get(), 2);
    assert_eq!(signed.inputs, ins);
    assert_eq!(signed.outputs.len(), 2);
    assert_eq!(signed.signatures[0].signature, vec![1]);
    assert_eq!(signed.signatures[1].signature, vec![2]);
}

#[test]
fn signing_failure_aborts_everything() {
    let ins = vec![input(1, 500), input(2, 700), input(3, 900)];
    let tx = build_redeem_transaction(&"d".to_string(), 1000, &"c".to_string(), &ins).unwrap();
    let signer = EchoSigner { calls: Cell::new(0), fail_at: Some(1) };
    let r = sign_redeem_transaction(tx, &vec![vec![1], vec![2], vec![3]], &signer);
    assert_eq!(r.err(), Some(RedeemError::SigningFailed));
    assert_eq!(signer.calls.get(), 2);
}

fn sig(b: u8) -> InputSignature {
    InputSignature { signature: vec![b; 64], public_key: vec![3; 33] }
}

#[test]
fn attach_keeps_signatures_in_input_order() {
    let ins = vec![input(1, 500), input(2, 700)];
    let tx = build_redeem_transaction(&"d".to_string(), 1200, &"c".to_string(), &ins).unwrap();
    let signed = attach_signatures(tx, vec![Ok(sig(7)), Ok(sig(8))]).unwrap();
    assert_eq!(signed.signatures, vec![sig(7), sig(8)]);
    assert_eq!(signed.inputs, ins);
    assert_eq!(signed.outputs, vec![TxOutput { address: "d".to_string(), amount: 1200 }]);
}

#[test]
fn attach_with_a_refusal_fails() {
    let ins = vec![input(1, 500), input(2, 700)];
    let tx = build_redeem_transaction(&"d".to_string(), 1200, &"c".to_string(), &ins).unwrap();
    let refused = Err(SignerError { reason: "no".to_string() });
    assert_eq!(attach_signatures(tx, vec![Ok(sig(7)), refused]).err(), Some(RedeemError::SigningFailed));
}

#[test]
fn attach_with_missing_signature_fails() {
    let ins = vec![input(1, 500), input(2, 700)];
    let tx = build_redeem_transaction(&"d".to_string(), 1200, &"c".to_string(), &ins).unwrap();
    assert_eq!(attach_signatures(tx, vec![Ok(sig(7))]).err(), Some(RedeemError::SigningFailed));
}
