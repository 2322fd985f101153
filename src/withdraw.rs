use vstd::prelude::*;

use crate::error::WalletError;
use crate::ledger::{boarding_sum, boarding_total, virtual_sum, virtual_total, BoardingUtxo, VirtualUtxo};
use crate::outpoint::OutPoint;

verus! {

/// Whether a round input spends a boarding output or a virtual output.
#[derive(Clone, Copy, Debug, PartialEq, Eq)]
pub enum InputKind {
    Boarding,
    Virtual,
}

/// An output registered as an input of the next round.
#[derive(Clone, Copy, Debug, PartialEq, Eq)]
pub struct RoundInput {
    pub outpoint: OutPoint,
    pub kind: InputKind,
}

/// A virtual output requested from the next round.
#[derive(Clone, Debug, PartialEq, Eq)]
pub struct RoundOutput {
    pub address: String,
    pub amount: u64,
}

/// What a withdrawal will do before any request is made.
pub enum WithdrawalPlan {
    /// Nothing is spendable: no round is entered.
    NoFundsToWithdraw,
    /// Register these inputs and this one output in the next round.
    Round { inputs: Vec<RoundInput>, output: RoundOutput },
}

pub open spec fn boarding_input(o: BoardingUtxo) -> RoundInput {
    RoundInput { outpoint: o.outpoint, kind: InputKind::Boarding }
}

pub open spec fn virtual_input(o: VirtualUtxo) -> RoundInput {
    RoundInput { outpoint: o.outpoint, kind: InputKind::Virtual }
}

/// The round inputs of a withdrawal: the boarding outputs, then the virtual
/// outputs, each in their given order.
pub open spec fn withdrawal_inputs(boarding: Seq<BoardingUtxo>, vtxos: Seq<VirtualUtxo>) -> Seq<
    RoundInput,
> {
    boarding.map_values(|o: BoardingUtxo| boarding_input(o)) + vtxos.map_values(
        |o: VirtualUtxo| virtual_input(o),
    )
}

/// Plans the withdrawal of every spendable output, boarding and virtual, to
/// `destination` in one round output of their whole amount. When nothing is
/// spendable the plan is to do nothing. A total beyond the range of an amount
/// is refused as invalid input.
pub fn plan_withdrawal(
    boarding_spendable: &Vec<BoardingUtxo>,
    virtual_spendable: &Vec<VirtualUtxo>,
    destination: &String,
) -> (r: Result<WithdrawalPlan, WalletError>)
    ensures
        (boarding_spendable@.len() == 0 && virtual_spendable@.len() == 0) <==> (r is Ok
            && r->Ok_0 is NoFundsToWithdraw),
        r is Err <==> (boarding_spendable@.len() + virtual_spendable@.len() > 0 && boarding_total(
            boarding_spendable@,
        ) + virtual_total(virtual_spendable@) > u64::MAX),
        r is Err ==> r->Err_0 == WalletError::InvalidInput,
        r is Ok && r->Ok_0 is Round ==> {
            &&& r->Ok_0->Round_inputs@ == withdrawal_inputs(
                boarding_spendable@,
                virtual_spendable@,
            )
            &&& r->Ok_0->Round_output == RoundOutput {
                address: *destination,
                amount: (boarding_total(boarding_spendable@) + virtual_total(
                    virtual_spendable@,
                )) as u64,
            }
        },
{
    if boarding_spendable.len() == 0 && virtual_spendable.len() == 0 {
        return Ok(WithdrawalPlan::NoFundsToWithdraw);
    }
    let boarding_amount = boarding_sum(boarding_spendable);
    let virtual_amount = virtual_sum(virtual_spendable);
    if boarding_amount > u64::MAX as u128 || virtual_amount > u64::MAX as u128 - boarding_amount {
        return Err(WalletError::InvalidInput);
    }
    let total = boarding_amount + virtual_amount;
    let mut inputs: Vec<RoundInput> = Vec::new();
    let mut i: usize = 0;
    while i < boarding_spendable.len()
        invariant
            i <= boarding_spendable.len(),
            inputs@ == boarding_spendable@.take(i as int).map_values(
                |o: BoardingUtxo| boarding_input(o),
            ),
        decreases boarding_spendable.len() - i,
    {
        inputs.push(RoundInput { outpoint: boarding_spendable[i].outpoint, kind: InputKind::Boarding });
        i = i + 1;
        proof {
            assert(inputs@ =~= boarding_spendable@.take(i as int).map_values(
                |o: BoardingUtxo| boarding_input(o),
            ));
        }
    }
    assert(boarding_spendable@.take(i as int) =~= boarding_spendable@);
    let mut j: usize = 0;
    while j < virtual_spendable.len()
        invariant
            j <= virtual_spendable.len(),
            inputs@ == boarding_spendable@.map_values(|o: BoardingUtxo| boarding_input(o))
                + virtual_spendable@.take(j as int).map_values(|o: VirtualUtxo| virtual_input(o)),
        decreases virtual_spendable.len() - j,
    {
        inputs.push(RoundInput { outpoint: virtual_spendable[j].outpoint, kind: InputKind::Virtual });
        j = j + 1;
        proof {
            assert(inputs@ =~= boarding_spendable@.map_values(|o: BoardingUtxo| boarding_input(o))
                + virtual_spendable@.take(j as int).map_values(|o: VirtualUtxo| virtual_input(o)));
        }
    }
    assert(virtual_spendable@.take(j as int) =~= virtual_spendable@);
    Ok(
        WithdrawalPlan::Round {
            inputs,
            output: RoundOutput { address: destination.clone(), amount: total as u64 },
        },
    )
}

} // verus!
