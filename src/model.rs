use vstd::prelude::*;

use crate::error::WalletError;
use crate::ledger::{boarding_total, virtual_total, BoardingOutpoints, VirtualTxOutpoints};

verus! {

/// Where the coordinator and the explorer are reached.
#[derive(Clone, Debug, PartialEq, Eq)]
pub struct AppConfig {
    pub ark_server_url: String,
    pub esplora_url: String,
}

/// A stored account: its id and its secret key in hex.
#[derive(Clone, Debug, PartialEq, Eq)]
pub struct UserAccount {
    pub id: String,
    pub private_key: String,
}

/// The two addresses of an account.
#[derive(Clone, Debug, PartialEq, Eq)]
pub struct AddressDetails {
    pub account_id: String,
    pub chain_address: String,
    pub virtual_address: String,
}

#[derive(Clone, Debug, PartialEq, Eq)]
pub struct AccountCreationResponse {
    pub account_id: String,
}

/// Balance of virtual outputs, in satoshis.
#[derive(Clone, Copy, Debug, PartialEq, Eq)]
pub struct VirtualBalance {
    pub available: u64,
    pub expired: u64,
}

/// Balance of boarding outputs, in satoshis.
#[derive(Clone, Copy, Debug, PartialEq, Eq)]
pub struct OnchainBalance {
    pub available: u64,
    pub expired: u64,
    pub pending: u64,
}

#[derive(Clone, Debug, PartialEq, Eq)]
pub struct BalanceDetails {
    pub account_id: String,
    pub virtual_balance: VirtualBalance,
    pub onchain_balance: OnchainBalance,
}

#[derive(Clone, Debug, PartialEq, Eq)]
pub struct TransferRequest {
    pub account_id: String,
    pub recipient: String,
    pub amount: u64,
}

#[derive(Clone, Debug, PartialEq, Eq)]
pub struct TransferResponse {
    pub account_id: String,
    pub recipient: String,
    pub amount: u64,
    pub transaction_id: String,
}

#[derive(Clone, Debug, PartialEq, Eq)]
pub struct WithdrawalRequest {
    pub account_id: String,
    pub destination_address: Option<String>,
}

#[derive(Clone, Debug, PartialEq, Eq)]
pub struct WithdrawalResponse {
    pub account_id: String,
    pub success: bool,
    pub transaction_id: Option<String>,
    pub error_message: Option<String>,
}

impl BalanceDetails {
    /// The balance snapshot of an account from its classified outputs. A sum
    /// beyond the range of an amount is refused as invalid input.
    pub fn from_outpoints(
        account_id: String,
        vtxos: &VirtualTxOutpoints,
        boarding: &BoardingOutpoints,
    ) -> (r: Result<BalanceDetails, WalletError>)
        ensures
            r is Ok <==> {
                &&& virtual_total(vtxos.spendable@) <= u64::MAX
                &&& virtual_total(vtxos.expired@) <= u64::MAX
                &&& boarding_total(boarding.spendable@) <= u64::MAX
                &&& boarding_total(boarding.expired@) <= u64::MAX
                &&& boarding_total(boarding.pending@) <= u64::MAX
            },
            r is Err ==> r->Err_0 == WalletError::InvalidInput,
            r is Ok ==> r->Ok_0 == (BalanceDetails {
                account_id,
                virtual_balance: VirtualBalance {
                    available: virtual_total(vtxos.spendable@) as u64,
                    expired: virtual_total(vtxos.expired@) as u64,
                },
                onchain_balance: OnchainBalance {
                    available: boarding_total(boarding.spendable@) as u64,
                    expired: boarding_total(boarding.expired@) as u64,
                    pending: boarding_total(boarding.pending@) as u64,
                },
            }),
    {
        let va = vtxos.spendable_balance();
        let ve = vtxos.expired_balance();
        let ba = boarding.spendable_balance();
        let be = boarding.expired_balance();
        let bp = boarding.pending_balance();
        if va > u64::MAX as u128 || ve > u64::MAX as u128 || ba > u64::MAX as u128 || be
            > u64::MAX as u128 || bp > u64::MAX as u128 {
            return Err(WalletError::InvalidInput);
        }
        Ok(
            BalanceDetails {
                account_id,
                virtual_balance: VirtualBalance { available: va as u64, expired: ve as u64 },
                onchain_balance: OnchainBalance {
                    available: ba as u64,
                    expired: be as u64,
                    pending: bp as u64,
                },
            },
        )
    }
}

} // verus!
