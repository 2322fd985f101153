//! Client-side logic for a two-layer settlement protocol: funds sit either in
//! on-chain boarding outputs or in off-chain virtual outputs.
//!
//! - `ledger`: sorts outputs into spendable, expired, pending and spent ones, and sums them.
//! - `coin_select`: greedy selection of virtual outputs under a dust floor.
//! - `redeem` and `transfer`: direct transfers, built and signed through a `Signer`.
//! - `withdraw` and `round`: what a withdrawal registers, and the state machine
//!   that takes a participant through a settlement round.
//! - `explorer`: the outputs at an address, from what a block explorer reports.
//! - `model`: the records that the service reads and returns.
pub mod outpoint;
pub mod error;
pub mod ledger;
pub mod coin_select;
pub mod redeem;
pub mod transfer;
pub mod round;
pub mod withdraw;
pub mod explorer;
pub mod model;
