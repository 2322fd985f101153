use vstd::prelude::*;

use crate::outpoint::VtxoOutPoint;

verus! {

/// Why a selection could not be made.
#[derive(Clone, Copy, Debug, PartialEq, Eq)]
pub enum CoinSelectError {
    InsufficientFunds,
}

/// Sum of the amounts of the first `k` candidates.
pub open spec fn prefix_sum(c: Seq<VtxoOutPoint>, k: int) -> nat
    decreases k,
{
    if k <= 0 {
        0
    } else {
        prefix_sum(c, k - 1) + c[k - 1].amount as nat
    }
}

/// Sum of the amounts of all candidates.
pub open spec fn total_amount(c: Seq<VtxoOutPoint>) -> nat {
    prefix_sum(c, c.len() as int)
}

/// The first prefix length, from `k` on, whose sum reaches `target`, or the
/// whole length when none does.
pub open spec fn first_cover_from(c: Seq<VtxoOutPoint>, target: nat, k: nat) -> nat
    decreases c.len() - k,
{
    if k >= c.len() || prefix_sum(c, k as int) >= target {
        k
    } else {
        first_cover_from(c, target, k + 1)
    }
}

/// Length of the shortest prefix of `c` that covers `target` (greedy, in the given order).
pub open spec fn cover_len(c: Seq<VtxoOutPoint>, target: nat) -> nat {
    first_cover_from(c, target, 0)
}

/// Whether a leftover (change) amount may stand.
pub open spec fn leftover_allowed(leftover: int, dust: u64, allow_change: bool) -> bool {
    leftover == 0 || (allow_change && leftover >= dust)
}

/// What selection returns: the shortest covering prefix, provided that it covers
/// the target and leaves no dust.
pub open spec fn selection(c: Seq<VtxoOutPoint>, target: u64, dust: u64, allow_change: bool)
    -> Result<Seq<VtxoOutPoint>, CoinSelectError>
{
    let k = cover_len(c, target as nat);
    let covered = prefix_sum(c, k as int);
    if covered < target || !leftover_allowed(covered - target, dust, allow_change) {
        Err(CoinSelectError::InsufficientFunds)
    } else {
        Ok(c.take(k as int))
    }
}

pub open spec fn selection_view(r: Result<Vec<VtxoOutPoint>, CoinSelectError>) -> Result<
    Seq<VtxoOutPoint>,
    CoinSelectError,
> {
    match r {
        Ok(v) => Ok(v@),
        Err(e) => Err(e),
    }
}

pub proof fn lemma_prefix_sum_monotone(c: Seq<VtxoOutPoint>, j: int, k: int)
    requires
        0 <= j <= k,
    ensures
        prefix_sum(c, j) <= prefix_sum(c, k),
    decreases k - j,
{
    if j < k {
        lemma_prefix_sum_monotone(c, j, k - 1);
    }
}

pub proof fn lemma_prefix_sum_take(c: Seq<VtxoOutPoint>, k: int)
    requires
        0 <= k <= c.len(),
    ensures
        total_amount(c.take(k)) == prefix_sum(c, k),
    decreases k,
{
    let t = c.take(k);
    assert forall|j: int| 0 <= j <= k implies prefix_sum(t, j) == prefix_sum(c, j) by {
        lemma_prefix_sum_agree(t, c, j);
    }
}

proof fn lemma_prefix_sum_agree(a: Seq<VtxoOutPoint>, b: Seq<VtxoOutPoint>, j: int)
    requires
        0 <= j <= a.len(),
        j <= b.len(),
        forall|i: int| 0 <= i < j ==> a[i] == b[i],
    ensures
        prefix_sum(a, j) == prefix_sum(b, j),
    decreases j,
{
    if j > 0 {
        lemma_prefix_sum_agree(a, b, j - 1);
    }
}

proof fn lemma_first_cover_from(c: Seq<VtxoOutPoint>, target: nat, k: nat)
    requires
        k <= c.len(),
        forall|j: int| 0 <= j < k ==> prefix_sum(c, j) < target,
    ensures
        k <= first_cover_from(c, target, k) <= c.len(),
        first_cover_from(c, target, k) == c.len() || prefix_sum(
            c,
            first_cover_from(c, target, k) as int,
        ) >= target,
        forall|j: int| 0 <= j < first_cover_from(c, target, k) ==> prefix_sum(c, j) < target,
    decreases c.len() - k,
{
    if !(k >= c.len() || prefix_sum(c, k as int) >= target) {
        lemma_first_cover_from(c, target, k + 1);
    }
}

/// The greedy prefix is the shortest one that covers the target, or the whole
/// sequence when nothing covers it.
pub proof fn lemma_cover_len(c: Seq<VtxoOutPoint>, target: nat)
    ensures
        cover_len(c, target) <= c.len(),
        cover_len(c, target) == c.len() || prefix_sum(c, cover_len(c, target) as int) >= target,
        forall|j: int| 0 <= j < cover_len(c, target) ==> prefix_sum(c, j) < target,
{
    lemma_first_cover_from(c, target, 0);
}

/// Picks candidates in the given order until their sum reaches `amount`.
/// Fails when the candidates cannot cover `amount`, or when the amount left
/// over is positive and change is not allowed or falls below `dust`.
pub fn select_vtxos(candidates: &Vec<VtxoOutPoint>, amount: u64, dust: u64, allow_change: bool) -> (r:
    Result<Vec<VtxoOutPoint>, CoinSelectError>)
    ensures
        selection_view(r) == selection(candidates@, amount, dust, allow_change),
{
    let ghost c = candidates@;
    let mut selected: Vec<VtxoOutPoint> = Vec::new();
    let mut acc: u128 = 0;
    let mut i: usize = 0;
    while i < candidates.len() && acc < amount as u128
        invariant
            c == candidates@,
            i <= c.len(),
            acc == prefix_sum(c, i as int),
            acc <= 2 * 0xFFFF_FFFF_FFFF_FFFFu128,
            selected@ == c.take(i as int),
            forall|j: int| 0 <= j < i ==> prefix_sum(c, j) < amount,
            first_cover_from(c, amount as nat, 0) == first_cover_from(c, amount as nat, i as nat),
        decreases c.len() - i,
    {
        proof {
            assert(first_cover_from(c, amount as nat, i as nat) == first_cover_from(
                c,
                amount as nat,
                (i + 1) as nat,
            ));
        }
        let item = candidates[i];
        selected.push(item);
        acc = acc + item.amount as u128;
        i = i + 1;
        proof {
            assert(selected@ =~= c.take(i as int));
        }
    }
    assert(first_cover_from(c, amount as nat, i as nat) == i);
    if acc < amount as u128 {
        return Err(CoinSelectError::InsufficientFunds);
    }
    let leftover: u128 = acc - amount as u128;
    if leftover == 0 || (allow_change && leftover >= dust as u128) {
        Ok(selected)
    } else {
        Err(CoinSelectError::InsufficientFunds)
    }
}

/// When the candidates hold at least the target, and the greedy prefix leaves
/// no dust, selection succeeds with a prefix of the candidates whose sum covers
/// the target. Selection falls short of the target only when the candidates
/// together hold less than it.
pub proof fn lemma_selection_covers_target(
    c: Seq<VtxoOutPoint>,
    target: u64,
    dust: u64,
    allow_change: bool,
)
    ensures
        target <= total_amount(c) && leftover_allowed(
            prefix_sum(c, cover_len(c, target as nat) as int) - target,
            dust,
            allow_change,
        ) ==> selection(c, target, dust, allow_change) is Ok,
        selection(c, target, dust, allow_change) is Ok ==> total_amount(
            selection(c, target, dust, allow_change)->Ok_0,
        ) >= target && c.take(selection(c, target, dust, allow_change)->Ok_0.len() as int)
            == selection(c, target, dust, allow_change)->Ok_0,
        total_amount(c) < target ==> selection(c, target, dust, allow_change) is Err,
{
    lemma_cover_len(c, target as nat);
    let k = cover_len(c, target as nat);
    lemma_prefix_sum_take(c, k as int);
    lemma_prefix_sum_monotone(c, k as int, c.len() as int);
    if target <= total_amount(c) && k == c.len() {
        assert(prefix_sum(c, k as int) >= target);
    }
}

/// Whatever a successful selection takes, the amount left over is either zero
/// or at least the dust floor.
pub proof fn lemma_selection_leaves_no_dust(
    c: Seq<VtxoOutPoint>,
    target: u64,
    dust: u64,
    allow_change: bool,
)
    requires
        selection(c, target, dust, allow_change) is Ok,
    ensures
        ({
            let leftover = total_amount(selection(c, target, dust, allow_change)->Ok_0) - target;
            leftover == 0 || leftover >= dust
        }),
{
    lemma_cover_len(c, target as nat);
    lemma_prefix_sum_take(c, cover_len(c, target as nat) as int);
}

/// Selection depends on the candidates in order, the target, the dust floor and
/// whether change is allowed, and on nothing else: two results that meet the
/// contract of `select_vtxos` on equal arguments are equal.
pub proof fn lemma_selection_deterministic(
    c: Seq<VtxoOutPoint>,
    target: u64,
    dust: u64,
    allow_change: bool,
    r1: Result<Vec<VtxoOutPoint>, CoinSelectError>,
    r2: Result<Vec<VtxoOutPoint>, CoinSelectError>,
)
    requires
        selection_view(r1) == selection(c, target, dust, allow_change),
        selection_view(r2) == selection(c, target, dust, allow_change),
    ensures
        selection_view(r1) == selection_view(r2),
        r1 is Ok <==> r2 is Ok,
{
}

} // verus!
