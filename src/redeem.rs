use vstd::prelude::*;

use crate::outpoint::OutPoint;

verus! {

/// A virtual output spent by a redeem transaction.
#[derive(Clone, Copy, Debug, PartialEq, Eq)]
pub struct VtxoInput {
    pub outpoint: OutPoint,
    pub amount: u64,
}

/// An output of a redeem transaction: an encoded address and an amount in satoshis.
#[derive(Clone, Debug, PartialEq, Eq)]
pub struct TxOutput {
    pub address: String,
    pub amount: u64,
}

/// A direct transfer spending virtual outputs, not yet signed.
pub struct RedeemTransaction {
    pub inputs: Vec<VtxoInput>,
    pub outputs: Vec<TxOutput>,
}

/// A signature over one input, with the public key that made it.
#[derive(Clone, Debug, PartialEq, Eq)]
pub struct InputSignature {
    pub signature: Vec<u8>,
    pub public_key: Vec<u8>,
}

/// A redeem transaction with one signature for each input, in input order.
pub struct SignedRedeemTransaction {
    pub inputs: Vec<VtxoInput>,
    pub outputs: Vec<TxOutput>,
    pub signatures: Vec<InputSignature>,
}

/// Why a redeem transaction could not be built or signed.
#[derive(Clone, Copy, Debug, PartialEq, Eq)]
pub enum RedeemError {
    BuildFailed,
    SigningFailed,
}

/// What a signer reports when it cannot sign.
#[derive(Clone, Debug, PartialEq, Eq)]
pub struct SignerError {
    pub reason: String,
}

/// The capability to sign a message with the key that may spend an input.
/// The library never sees key material itself.
pub trait Signer {
    fn sign(&self, message: &Vec<u8>) -> Result<InputSignature, SignerError>;
}

pub open spec fn input_total(s: Seq<VtxoInput>) -> nat
    decreases s.len(),
{
    if s.len() == 0 {
        0
    } else {
        input_total(s.drop_last()) + s.last().amount as nat
    }
}

/// The change a build leaves: what the inputs hold beyond `amount`.
pub open spec fn change_of(inputs: Seq<VtxoInput>, amount: u64) -> int {
    input_total(inputs) - amount
}

/// The inputs on which a build succeeds: at least one input, a positive
/// amount, inputs that cover it, and change that fits an output.
pub open spec fn buildable(inputs: Seq<VtxoInput>, amount: u64) -> bool {
    &&& inputs.len() > 0
    &&& amount > 0
    &&& 0 <= change_of(inputs, amount) <= u64::MAX
}

proof fn lemma_input_total_bound(s: Seq<VtxoInput>)
    ensures
        input_total(s) <= s.len() * u64::MAX,
    decreases s.len(),
{
    if s.len() > 0 {
        lemma_input_total_bound(s.drop_last());
        assert((s.len() - 1) * u64::MAX + u64::MAX == s.len() * u64::MAX) by (nonlinear_arith);
    }
}

/// Sum of the amounts of the inputs.
pub fn input_sum(v: &Vec<VtxoInput>) -> (r: u128)
    ensures
        r == input_total(v@),
{
    let mut acc: u128 = 0;
    let mut i: usize = 0;
    while i < v.len()
        invariant
            i <= v.len(),
            acc == input_total(v@.take(i as int)),
        decreases v.len() - i,
    {
        proof {
            assert(v@.take(i as int + 1).drop_last() =~= v@.take(i as int));
            lemma_input_total_bound(v@.take(i as int));
            assert(i * u64::MAX <= u64::MAX * u64::MAX) by (nonlinear_arith)
                requires
                    i <= u64::MAX,
            ;
        }
        acc = acc + v[i].amount as u128;
        i = i + 1;
    }
    assert(v@.take(i as int) =~= v@);
    acc
}

/// The transaction that a build makes: the inputs as given, the payment to the
/// destination first, then the change output when there is change.
pub open spec fn redeem_built(
    tx: RedeemTransaction,
    destination: String,
    amount: u64,
    change_address: String,
    inputs: Seq<VtxoInput>,
) -> bool {
    &&& tx.inputs@ == inputs
    &&& tx.outputs@.len() == if change_of(inputs, amount) > 0 {
        2int
    } else {
        1int
    }
    &&& tx.outputs@[0] == TxOutput { address: destination, amount }
    &&& change_of(inputs, amount) > 0 ==> tx.outputs@[1] == TxOutput {
        address: change_address,
        amount: change_of(inputs, amount) as u64,
    }
}

/// Amount of the change output of a transaction, zero when it has none.
pub open spec fn change_amount(tx: RedeemTransaction) -> nat {
    if tx.outputs@.len() > 1 {
        tx.outputs@[1].amount as nat
    } else {
        0
    }
}

/// A built transaction spends exactly what its inputs hold: the payment and
/// the change add up to the inputs' total, and there is a change output exactly
/// when the inputs hold more than the payment.
pub proof fn lemma_redeem_balance(
    tx: RedeemTransaction,
    destination: String,
    amount: u64,
    change_address: String,
    inputs: Seq<VtxoInput>,
)
    requires
        buildable(inputs, amount),
        redeem_built(tx, destination, amount, change_address, inputs),
    ensures
        input_total(tx.inputs@) == tx.outputs@[0].amount + change_amount(tx),
        tx.outputs@.len() == 2 <==> input_total(tx.inputs@) > amount,
        tx.outputs@[0].amount == amount,
{
}

/// Builds a transaction that pays `amount` to `destination` from `inputs`, and
/// sends what is left, if anything, to `change_address`.
pub fn build_redeem_transaction(
    destination: &String,
    amount: u64,
    change_address: &String,
    inputs: &Vec<VtxoInput>,
) -> (r: Result<RedeemTransaction, RedeemError>)
    ensures
        r is Ok <==> buildable(inputs@, amount),
        r is Err ==> r->Err_0 == RedeemError::BuildFailed,
        r is Ok ==> redeem_built(r->Ok_0, *destination, amount, *change_address, inputs@),
{
    if inputs.len() == 0 || amount == 0 {
        return Err(RedeemError::BuildFailed);
    }
    let total = input_sum(inputs);
    if total < amount as u128 || total - amount as u128 > u64::MAX as u128 {
        return Err(RedeemError::BuildFailed);
    }
    let change = (total - amount as u128) as u64;
    let mut outputs: Vec<TxOutput> = Vec::new();
    outputs.push(TxOutput { address: destination.clone(), amount });
    if change > 0 {
        outputs.push(TxOutput { address: change_address.clone(), amount: change });
    }
    Ok(RedeemTransaction { inputs: inputs.clone(), outputs })
}

/// Whether every signer result is a signature.
pub open spec fn all_signed(results: Seq<Result<InputSignature, SignerError>>) -> bool {
    forall|i: int| 0 <= i < results.len() ==> (#[trigger] results[i]) is Ok
}

/// Puts the signer's results on a transaction: one signature per input, in input
/// order, when every result is a signature; `SigningFailed` otherwise, so that
/// a partly signed transaction never comes out.
pub fn attach_signatures(tx: RedeemTransaction, results: Vec<Result<InputSignature, SignerError>>) -> (r:
    Result<SignedRedeemTransaction, RedeemError>)
    ensures
        r is Ok <==> (results@.len() == tx.inputs@.len() && all_signed(results@)),
        r is Err ==> r->Err_0 == RedeemError::SigningFailed,
        r is Ok ==> {
            &&& r->Ok_0.inputs@ == tx.inputs@
            &&& r->Ok_0.outputs@ == tx.outputs@
            &&& r->Ok_0.signatures@.len() == results@.len()
            &&& forall|i: int|
                0 <= i < results@.len() ==> results@[i] == Ok::<InputSignature, SignerError>(
                    #[trigger] r->Ok_0.signatures@[i],
                )
        },
{
    if results.len() != tx.inputs.len() {
        return Err(RedeemError::SigningFailed);
    }
    let ghost rs = results@;
    let mut signatures: Vec<InputSignature> = Vec::new();
    let mut rest = results;
    while rest.len() > 0
        invariant
            rs.len() == signatures@.len() + rest@.len(),
            forall|i: int|
                0 <= i < signatures@.len() ==> rs[i] == Ok::<InputSignature, SignerError>(
                    #[trigger] signatures@[i],
                ),
            rest@ == rs.subrange(signatures@.len() as int, rs.len() as int),
            rs == results@,
            rs.len() == tx.inputs@.len(),
        decreases rest.len(),
    {
        let ghost k = signatures@.len();
        match rest.remove(0) {
            Ok(sig) => {
                signatures.push(sig);
                assert(rest@ =~= rs.subrange(signatures@.len() as int, rs.len() as int));
            },
            Err(_) => {
                assert(rs[k as int] is Err);
                assert(!all_signed(rs));
                return Err(RedeemError::SigningFailed);
            },
        }
    }
    assert forall|i: int| 0 <= i < rs.len() implies (#[trigger] rs[i]) is Ok by {
        assert(rs[i] == Ok::<InputSignature, SignerError>(signatures@[i]));
    }
    Ok(SignedRedeemTransaction { inputs: tx.inputs, outputs: tx.outputs, signatures })
}

/// Signs every input of `tx`, in input order, with `signer`; `messages[i]` is
/// the message that authorises input `i`. The first refusal stops the signing
/// and fails the whole operation: no partly signed transaction is ever returned.
pub fn sign_redeem_transaction<S: Signer>(
    tx: RedeemTransaction,
    messages: &Vec<Vec<u8>>,
    signer: &S,
) -> (r: Result<SignedRedeemTransaction, RedeemError>)
    requires
        messages.len() == tx.inputs.len(),
    ensures
        r is Err ==> r->Err_0 == RedeemError::SigningFailed,
        r is Ok ==> {
            &&& r->Ok_0.inputs@ == tx.inputs@
            &&& r->Ok_0.outputs@ == tx.outputs@
            &&& r->Ok_0.signatures@.len() == tx.inputs@.len()
        },
{
    let mut results: Vec<Result<InputSignature, SignerError>> = Vec::new();
    let mut i: usize = 0;
    while i < messages.len()
        invariant
            i <= messages.len(),
            results@.len() == i,
        decreases messages.len() - i,
    {
        let res = signer.sign(&messages[i]);
        let failed = res.is_err();
        results.push(res);
        if failed {
            return Err(RedeemError::SigningFailed);
        }
        i = i + 1;
    }
    attach_signatures(tx, results)
}

} // verus!
