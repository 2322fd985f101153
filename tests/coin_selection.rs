use ark_wallet::coin_select::{select_vtxos, CoinSelectError};
use ark_wallet::outpoint::{OutPoint, VtxoOutPoint};

fn candidate(tag: u8, expire_at: i64, amount: u64) -> VtxoOutPoint {
    VtxoOutPoint { outpoint: OutPoint { txid: [tag; 32], vout: tag as u32 }, expire_at, amount }
}

fn amounts(v: &[VtxoOutPoint]) -> Vec<u64> {
    v.iter().map(|c| c.amount).collect()
}

#[test]
fn selection_takes_greedy_prefix_with_change() {
    let c = vec![candidate(1, 100, 50000), candidate(2, 200, 30000), candidate(3, 300, 20000)];
    let sel = select_vtxos(&c, 60000, 1000, true).unwrap();
    assert_eq!(amounts(&sel), vec![50000, 30000]);
    let sum: u64 = sel.iter().map(|c| c.amount).sum();
    assert_eq!(sum, 80000);
    assert_eq!(sum - 60000, 20000);
    assert_eq!(sel[0], c[0]);
    assert_eq!(sel[1], c[1]);
}

#[test]
fn selection_fails_when_funds_are_short() {
    let c = vec![candidate(1, 100, 5000)];
    assert_eq!(select_vtxos(&c, 60000, 1000, true), Err(CoinSelectError::InsufficientFunds));
}

#[test]
fn selection_of_nothing_fails() {
    assert_eq!(select_vtxos(&vec![], 1, 0, true), Err(CoinSelectError::InsufficientFunds));
}

#[test]
fn selection_exact_target_has_no_change() {
    let c = vec![candidate(1, 100, 40000), candidate(2, 200, 20000), candidate(3, 300, 7000)];
    let sel = select_vtxos(&c, 60000, 1000, true).unwrap();
    assert_eq!(amounts(&sel), vec![40000, 20000]);
}

#[test]
fn selection_refuses_change_below_dust() {
    // The greedy prefix leaves 500, under the floor; no other subset is tried.
    let c = vec![candidate(1, 100, 60500), candidate(2, 200, 60000)];
    assert_eq!(select_vtxos(&c, 60000, 1000, true), Err(CoinSelectError::InsufficientFunds));
}

#[test]
fn selection_accepts_change_equal_to_dust() {
    let c = vec![candidate(1, 100, 61000)];
    assert_eq!(amounts(&select_vtxos(&c, 60000, 1000, true).unwrap()), vec![61000]);
}

#[test]
fn selection_without_change_needs_exact_sum() {
    let c = vec![candidate(1, 100, 30000), candidate(2, 200, 30000), candidate(3, 300, 5000)];
    assert_eq!(amounts(&select_vtxos(&c, 60000, 1000, false).unwrap()), vec![30000, 30000]);
    assert_eq!(select_vtxos(&c, 50000, 1000, false), Err(CoinSelectError::InsufficientFunds));
}

#[test]
fn selection_keeps_caller_order() {
    let c = vec![candidate(1, 900, 10000), candidate(2, 100, 90000)];
    assert_eq!(amounts(&select_vtxos(&c, 5000, 1000, true).unwrap()), vec![10000]);
}

#[test]
fn selection_of_zero_target_is_empty() {
    let c = vec![candidate(1, 100, 10000)];
    assert_eq!(select_vtxos(&c, 0, 1000, true).unwrap(), vec![]);
}

#[test]
fn selection_is_deterministic() {
    let c = vec![candidate(1, 100, 7000), candidate(2, 200, 3000), candidate(3, 300, 9000)];
    let a = select_vtxos(&c, 9500, 500, true);
    let b = select_vtxos(&c, 9500, 500, true);
    assert_eq!(a, b);
    assert_eq!(amounts(&a.unwrap()), vec![7000, 3000]);
}

#[test]
fn selection_covers_target_with_large_amounts() {
    let c = vec![candidate(1, 100, u64::MAX), candidate(2, 200, u64::MAX)];
    let sel = select_vtxos(&c, u64::MAX, 1, true).unwrap();
    assert_eq!(amounts(&sel), vec![u64::MAX]);
}
