use vstd::prelude::*;

use crate::outpoint::{OutPoint, VtxoOutPoint};

verus! {

/// A virtual output as listed by the coordinator.
#[derive(Clone, Copy, Debug, PartialEq, Eq)]
pub struct VirtualUtxo {
    pub outpoint: OutPoint,
    pub amount: u64,
    /// Unix time at or after which the output is expired.
    pub expire_at: i64,
    pub is_spent: bool,
}

/// An output paying to a boarding address, as seen by the explorer.
#[derive(Clone, Copy, Debug, PartialEq, Eq)]
pub struct BoardingUtxo {
    pub outpoint: OutPoint,
    pub amount: u64,
    /// Block time of the confirming block; `None` while unconfirmed.
    pub confirmation_blocktime: Option<u64>,
    pub is_spent: bool,
}

/// The bucket an output falls in at a given time.
#[derive(Clone, Copy, Debug, PartialEq, Eq)]
pub enum Bucket {
    Spendable,
    Expired,
    Pending,
    Spent,
}

pub open spec fn virtual_bucket(o: VirtualUtxo, now: i64) -> Bucket {
    if o.is_spent {
        Bucket::Spent
    } else if o.expire_at <= now {
        Bucket::Expired
    } else {
        Bucket::Spendable
    }
}

pub open spec fn boarding_bucket(o: BoardingUtxo, now: u64, exit_delay: u64) -> Bucket {
    if o.is_spent {
        Bucket::Spent
    } else {
        match o.confirmation_blocktime {
            None => Bucket::Pending,
            Some(t) => if t + exit_delay <= now {
                Bucket::Expired
            } else {
                Bucket::Spendable
            },
        }
    }
}

pub open spec fn virtual_in(b: Bucket, now: i64) -> spec_fn(VirtualUtxo) -> bool {
    |o: VirtualUtxo| virtual_bucket(o, now) == b
}

pub open spec fn boarding_in(b: Bucket, now: u64, exit_delay: u64) -> spec_fn(BoardingUtxo) -> bool {
    |o: BoardingUtxo| boarding_bucket(o, now, exit_delay) == b
}

pub open spec fn virtual_total(s: Seq<VirtualUtxo>) -> nat
    decreases s.len(),
{
    if s.len() == 0 {
        0
    } else {
        virtual_total(s.drop_last()) + s.last().amount as nat
    }
}

pub open spec fn boarding_total(s: Seq<BoardingUtxo>) -> nat
    decreases s.len(),
{
    if s.len() == 0 {
        0
    } else {
        boarding_total(s.drop_last()) + s.last().amount as nat
    }
}

proof fn lemma_virtual_total_bound(s: Seq<VirtualUtxo>)
    ensures
        virtual_total(s) <= s.len() * u64::MAX,
    decreases s.len(),
{
    if s.len() > 0 {
        lemma_virtual_total_bound(s.drop_last());
        assert((s.len() - 1) * u64::MAX + u64::MAX == s.len() * u64::MAX) by (nonlinear_arith);
    }
}

proof fn lemma_boarding_total_bound(s: Seq<BoardingUtxo>)
    ensures
        boarding_total(s) <= s.len() * u64::MAX,
    decreases s.len(),
{
    if s.len() > 0 {
        lemma_boarding_total_bound(s.drop_last());
        assert((s.len() - 1) * u64::MAX + u64::MAX == s.len() * u64::MAX) by (nonlinear_arith);
    }
}

/// Sum of the amounts of virtual outputs.
pub fn virtual_sum(v: &Vec<VirtualUtxo>) -> (r: u128)
    ensures
        r == virtual_total(v@),
{
    let mut acc: u128 = 0;
    let mut i: usize = 0;
    while i < v.len()
        invariant
            i <= v.len(),
            acc == virtual_total(v@.take(i as int)),
        decreases v.len() - i,
    {
        proof {
            assert(v@.take(i as int + 1).drop_last() =~= v@.take(i as int));
            lemma_virtual_total_bound(v@.take(i as int));
            assert(i * u64::MAX <= u64::MAX * u64::MAX) by (nonlinear_arith)
                requires i <= u64::MAX;
        }
        acc = acc + v[i].amount as u128;
        i = i + 1;
    }
    assert(v@.take(i as int) =~= v@);
    acc
}

/// Sum of the amounts of boarding outputs.
pub fn boarding_sum(v: &Vec<BoardingUtxo>) -> (r: u128)
    ensures
        r == boarding_total(v@),
{
    let mut acc: u128 = 0;
    let mut i: usize = 0;
    while i < v.len()
        invariant
            i <= v.len(),
            acc == boarding_total(v@.take(i as int)),
        decreases v.len() - i,
    {
        proof {
            assert(v@.take(i as int + 1).drop_last() =~= v@.take(i as int));
            lemma_boarding_total_bound(v@.take(i as int));
            assert(i * u64::MAX <= u64::MAX * u64::MAX) by (nonlinear_arith)
                requires i <= u64::MAX;
        }
        acc = acc + v[i].amount as u128;
        i = i + 1;
    }
    assert(v@.take(i as int) =~= v@);
    acc
}

proof fn lemma_filter_step<A>(s: Seq<A>, i: int, p: spec_fn(A) -> bool)
    requires
        0 <= i < s.len(),
    ensures
        s.take(i + 1).filter(p) == (if p(s[i]) {
            s.take(i).filter(p).push(s[i])
        } else {
            s.take(i).filter(p)
        }),
{
    assert(s.take(i + 1).drop_last() =~= s.take(i));
    reveal_with_fuel(Seq::filter, 1);
}

/// Virtual outputs sorted into buckets at a reference time.
pub struct VirtualTxOutpoints {
    pub spendable: Vec<VirtualUtxo>,
    pub expired: Vec<VirtualUtxo>,
    pub spent: Vec<VirtualUtxo>,
}

/// Boarding outputs sorted into buckets at a reference time.
pub struct BoardingOutpoints {
    pub spendable: Vec<BoardingUtxo>,
    pub expired: Vec<BoardingUtxo>,
    pub pending: Vec<BoardingUtxo>,
    pub spent: Vec<BoardingUtxo>,
}

/// Sorts virtual outputs into spendable, expired and spent ones at time `now`,
/// keeping their order within each bucket.
pub fn list_virtual_tx_outpoints(outputs: &Vec<VirtualUtxo>, now: i64) -> (r: VirtualTxOutpoints)
    ensures
        r.spendable@ == outputs@.filter(virtual_in(Bucket::Spendable, now)),
        r.expired@ == outputs@.filter(virtual_in(Bucket::Expired, now)),
        r.spent@ == outputs@.filter(virtual_in(Bucket::Spent, now)),
{
    let ghost s = outputs@;
    let mut spendable: Vec<VirtualUtxo> = Vec::new();
    let mut expired: Vec<VirtualUtxo> = Vec::new();
    let mut spent: Vec<VirtualUtxo> = Vec::new();
    let mut i: usize = 0;
    while i < outputs.len()
        invariant
            s == outputs@,
            i <= s.len(),
            spendable@ == s.take(i as int).filter(virtual_in(Bucket::Spendable, now)),
            expired@ == s.take(i as int).filter(virtual_in(Bucket::Expired, now)),
            spent@ == s.take(i as int).filter(virtual_in(Bucket::Spent, now)),
        decreases s.len() - i,
    {
        let o = outputs[i];
        proof {
            lemma_filter_step(s, i as int, virtual_in(Bucket::Spendable, now));
            lemma_filter_step(s, i as int, virtual_in(Bucket::Expired, now));
            lemma_filter_step(s, i as int, virtual_in(Bucket::Spent, now));
        }
        if o.is_spent {
            spent.push(o);
        } else if o.expire_at <= now {
            expired.push(o);
        } else {
            spendable.push(o);
        }
        i = i + 1;
    }
    assert(s.take(i as int) =~= s);
    VirtualTxOutpoints { spendable, expired, spent }
}

/// Sorts boarding outputs into spendable, expired, pending and spent ones at
/// time `now`, for a unilateral exit delay of `exit_delay` seconds, keeping
/// their order within each bucket.
pub fn list_boarding_outpoints(outputs: &Vec<BoardingUtxo>, now: u64, exit_delay: u64) -> (r:
    BoardingOutpoints)
    ensures
        r.spendable@ == outputs@.filter(boarding_in(Bucket::Spendable, now, exit_delay)),
        r.expired@ == outputs@.filter(boarding_in(Bucket::Expired, now, exit_delay)),
        r.pending@ == outputs@.filter(boarding_in(Bucket::Pending, now, exit_delay)),
        r.spent@ == outputs@.filter(boarding_in(Bucket::Spent, now, exit_delay)),
{
    let ghost s = outputs@;
    let mut spendable: Vec<BoardingUtxo> = Vec::new();
    let mut expired: Vec<BoardingUtxo> = Vec::new();
    let mut pending: Vec<BoardingUtxo> = Vec::new();
    let mut spent: Vec<BoardingUtxo> = Vec::new();
    let mut i: usize = 0;
    while i < outputs.len()
        invariant
            s == outputs@,
            i <= s.len(),
            spendable@ == s.take(i as int).filter(boarding_in(Bucket::Spendable, now, exit_delay)),
            expired@ == s.take(i as int).filter(boarding_in(Bucket::Expired, now, exit_delay)),
            pending@ == s.take(i as int).filter(boarding_in(Bucket::Pending, now, exit_delay)),
            spent@ == s.take(i as int).filter(boarding_in(Bucket::Spent, now, exit_delay)),
        decreases s.len() - i,
    {
        let o = outputs[i];
        proof {
            lemma_filter_step(s, i as int, boarding_in(Bucket::Spendable, now, exit_delay));
            lemma_filter_step(s, i as int, boarding_in(Bucket::Expired, now, exit_delay));
            lemma_filter_step(s, i as int, boarding_in(Bucket::Pending, now, exit_delay));
            lemma_filter_step(s, i as int, boarding_in(Bucket::Spent, now, exit_delay));
        }
        if o.is_spent {
            spent.push(o);
        } else {
            match o.confirmation_blocktime {
                None => pending.push(o),
                Some(t) => {
                    if t as u128 + exit_delay as u128 <= now as u128 {
                        expired.push(o);
                    } else {
                        spendable.push(o);
                    }
                },
            }
        }
        i = i + 1;
    }
    assert(s.take(i as int) =~= s);
    BoardingOutpoints { spendable, expired, pending, spent }
}

impl VirtualTxOutpoints {
    pub fn spendable_balance(&self) -> (r: u128)
        ensures
            r == virtual_total(self.spendable@),
    {
        virtual_sum(&self.spendable)
    }

    pub fn expired_balance(&self) -> (r: u128)
        ensures
            r == virtual_total(self.expired@),
    {
        virtual_sum(&self.expired)
    }
}

impl BoardingOutpoints {
    pub fn spendable_balance(&self) -> (r: u128)
        ensures
            r == boarding_total(self.spendable@),
    {
        boarding_sum(&self.spendable)
    }

    pub fn expired_balance(&self) -> (r: u128)
        ensures
            r == boarding_total(self.expired@),
    {
        boarding_sum(&self.expired)
    }

    pub fn pending_balance(&self) -> (r: u128)
        ensures
            r == boarding_total(self.pending@),
    {
        boarding_sum(&self.pending)
    }
}

pub open spec fn virtual_unspent() -> spec_fn(VirtualUtxo) -> bool {
    |o: VirtualUtxo| !o.is_spent
}

pub open spec fn boarding_unspent() -> spec_fn(BoardingUtxo) -> bool {
    |o: BoardingUtxo| !o.is_spent
}

proof fn lemma_virtual_total_push(s: Seq<VirtualUtxo>, o: VirtualUtxo)
    ensures
        virtual_total(s.push(o)) == virtual_total(s) + o.amount,
{
    assert(s.push(o).drop_last() =~= s);
}

proof fn lemma_boarding_total_push(s: Seq<BoardingUtxo>, o: BoardingUtxo)
    ensures
        boarding_total(s.push(o)) == boarding_total(s) + o.amount,
{
    assert(s.push(o).drop_last() =~= s);
}

/// The spendable, expired and spent virtual outputs partition the input: every
/// output falls in exactly one of them, and the spendable and expired amounts
/// add up to the amount of the outputs that are not spent.
pub proof fn lemma_virtual_partition(s: Seq<VirtualUtxo>, now: i64)
    ensures
        s.filter(virtual_in(Bucket::Spendable, now)).len() + s.filter(
            virtual_in(Bucket::Expired, now),
        ).len() + s.filter(virtual_in(Bucket::Spent, now)).len() == s.len(),
        virtual_total(s.filter(virtual_in(Bucket::Spendable, now))) + virtual_total(
            s.filter(virtual_in(Bucket::Expired, now)),
        ) == virtual_total(s.filter(virtual_unspent())),
        s.filter(virtual_in(Bucket::Pending, now)).len() == 0,
    decreases s.len(),
{
    reveal_with_fuel(Seq::filter, 1);
    if s.len() > 0 {
        let t = s.drop_last();
        let o = s.last();
        lemma_virtual_partition(t, now);
        lemma_virtual_total_push(t.filter(virtual_in(Bucket::Spendable, now)), o);
        lemma_virtual_total_push(t.filter(virtual_in(Bucket::Expired, now)), o);
        lemma_virtual_total_push(t.filter(virtual_unspent()), o);
    }
}

/// The spendable, expired, pending and spent boarding outputs partition the
/// input: every output falls in exactly one of them, and the spendable, expired
/// and pending amounts add up to the amount of the outputs that are not spent.
pub proof fn lemma_boarding_partition(s: Seq<BoardingUtxo>, now: u64, exit_delay: u64)
    ensures
        s.filter(boarding_in(Bucket::Spendable, now, exit_delay)).len() + s.filter(
            boarding_in(Bucket::Expired, now, exit_delay),
        ).len() + s.filter(boarding_in(Bucket::Pending, now, exit_delay)).len() + s.filter(
            boarding_in(Bucket::Spent, now, exit_delay),
        ).len() == s.len(),
        boarding_total(s.filter(boarding_in(Bucket::Spendable, now, exit_delay))) + boarding_total(
            s.filter(boarding_in(Bucket::Expired, now, exit_delay)),
        ) + boarding_total(s.filter(boarding_in(Bucket::Pending, now, exit_delay)))
            == boarding_total(s.filter(boarding_unspent())),
    decreases s.len(),
{
    reveal_with_fuel(Seq::filter, 1);
    if s.len() > 0 {
        let t = s.drop_last();
        let o = s.last();
        lemma_boarding_partition(t, now, exit_delay);
        lemma_boarding_total_push(t.filter(boarding_in(Bucket::Spendable, now, exit_delay)), o);
        lemma_boarding_total_push(t.filter(boarding_in(Bucket::Expired, now, exit_delay)), o);
        lemma_boarding_total_push(t.filter(boarding_in(Bucket::Pending, now, exit_delay)), o);
        lemma_boarding_total_push(t.filter(boarding_unspent()), o);
    }
}

} // verus!
