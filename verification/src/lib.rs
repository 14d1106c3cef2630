//! Decision logic of a custodial liquidity vault.
//!
//! A vault takes one deposit of a single asset, swaps half of it into the
//! paired asset, commits both sides to a concentrated-liquidity position and
//! later rebalances or unwinds that position. Every operation is a small
//! state machine: a step takes the stage reached so far and the result of the
//! delegated call that the previous step asked for, and returns the next
//! stage together with the next delegated call. The caller performs the calls
//! against the ledger and the pool; this crate only decides.

pub mod accounts;
pub mod call;
pub mod deposit;
pub mod error;
pub mod fees;
pub mod initialize;
pub mod laws;
pub mod pubkey;
pub mod rebalance;
pub mod solana_sickle_vault;
pub mod state;
pub mod withdraw;

pub use accounts::{CollectFees, DepositAndAddLiquidity, InitializeVault, Rebalance, Withdraw};
pub use call::{Call, ExcessRule, Policy, Reply, VaultSigner};
pub use deposit::{deposit_and_add_liquidity, DepositStage};
pub use error::VaultError;
pub use fees::{collect_fees, FeesStage};
pub use initialize::initialize_vault;
pub use pubkey::Pubkey;
pub use rebalance::{rebalance, RebalanceStage};
pub use state::{Position, Readings, TokenAccount, Vault};
pub use withdraw::{withdraw, WithdrawStage};
