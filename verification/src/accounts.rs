//! The accounts that each operation is handed.
//!
//! Each set holds plain data: identities, and the balances as they were last
//! read. Between two steps of one operation the caller reads the reserves and
//! the position again, so that a step decides on what the previous call left.

use vstd::prelude::*;
use crate::call::{signer_of, VaultSigner};
use crate::pubkey::Pubkey;
use crate::state::{Position, Readings, TokenAccount, Vault};

verus! {

/// The accounts of `initialize_vault`.
#[derive(Clone, Copy, Debug, PartialEq, Eq)]
pub struct InitializeVault {
    /// Where the record will live.
    pub vault_key: Pubkey,
    /// The record found there: none before the vault is set up.
    pub vault: Option<Vault>,
    pub whirlpool: Pubkey,
    pub token_a_mint: Pubkey,
    pub token_b_mint: Pubkey,
    pub vault_token_a: TokenAccount,
    pub vault_token_b: TokenAccount,
    pub position: Position,
    pub authority: Pubkey,
}

/// The accounts of `deposit_and_add_liquidity`.
#[derive(Clone, Copy, Debug, PartialEq, Eq)]
pub struct DepositAndAddLiquidity {
    pub vault_key: Pubkey,
    pub vault: Vault,
    /// Who deposits.
    pub user: Pubkey,
    /// The account that the deposit is taken from.
    pub user_token_account: TokenAccount,
    pub vault_token_a: TokenAccount,
    pub vault_token_b: TokenAccount,
    pub whirlpool: Pubkey,
    pub position: Position,
}

/// The accounts of `collect_fees`.
#[derive(Clone, Copy, Debug, PartialEq, Eq)]
pub struct CollectFees {
    pub vault_key: Pubkey,
    pub vault: Vault,
    pub whirlpool: Pubkey,
    pub position: Position,
    pub vault_token_a: TokenAccount,
    pub vault_token_b: TokenAccount,
}

/// The accounts of `rebalance`.
#[derive(Clone, Copy, Debug, PartialEq, Eq)]
pub struct Rebalance {
    pub vault_key: Pubkey,
    pub vault: Vault,
    pub whirlpool: Pubkey,
    pub position: Position,
    pub vault_token_a: TokenAccount,
    pub vault_token_b: TokenAccount,
}

/// The accounts of `withdraw`.
#[derive(Clone, Copy, Debug, PartialEq, Eq)]
pub struct Withdraw {
    pub vault_key: Pubkey,
    pub vault: Vault,
    /// Who receives the funds.
    pub user: Pubkey,
    pub whirlpool: Pubkey,
    pub position: Position,
    pub vault_token_a: TokenAccount,
    pub vault_token_b: TokenAccount,
    /// Where asset A is paid out to.
    pub user_token_a: TokenAccount,
    /// Where asset B is paid out to.
    pub user_token_b: TokenAccount,
}

impl Rebalance {
    /// The accounts that collecting fees needs, out of these.
    pub open spec fn fees_accounts_spec(self) -> CollectFees {
        CollectFees {
            vault_key: self.vault_key,
            vault: self.vault,
            whirlpool: self.whirlpool,
            position: self.position,
            vault_token_a: self.vault_token_a,
            vault_token_b: self.vault_token_b,
        }
    }

    /// The accounts that collecting fees needs, out of these.
    pub fn fees_accounts(&self) -> (out: CollectFees)
        ensures
            out == self.fees_accounts_spec(),
    {
        CollectFees {
            vault_key: self.vault_key,
            vault: self.vault,
            whirlpool: self.whirlpool,
            position: self.position,
            vault_token_a: self.vault_token_a,
            vault_token_b: self.vault_token_b,
        }
    }

    /// The vault's standing to sign the pool calls.
    pub fn signer(&self) -> (out: VaultSigner)
        ensures
            out == signer_of(self.vault_key, self.vault),
    {
        VaultSigner::of(self.vault_key, &self.vault)
    }
}

impl Withdraw {
    /// The accounts that collecting fees needs, out of these.
    pub open spec fn fees_accounts_spec(self) -> CollectFees {
        CollectFees {
            vault_key: self.vault_key,
            vault: self.vault,
            whirlpool: self.whirlpool,
            position: self.position,
            vault_token_a: self.vault_token_a,
            vault_token_b: self.vault_token_b,
        }
    }

    /// The accounts that collecting fees needs, out of these.
    pub fn fees_accounts(&self) -> (out: CollectFees)
        ensures
            out == self.fees_accounts_spec(),
    {
        CollectFees {
            vault_key: self.vault_key,
            vault: self.vault,
            whirlpool: self.whirlpool,
            position: self.position,
            vault_token_a: self.vault_token_a,
            vault_token_b: self.vault_token_b,
        }
    }

    /// The vault's standing to sign the pool calls and the payouts.
    pub fn signer(&self) -> (out: VaultSigner)
        ensures
            out == signer_of(self.vault_key, self.vault),
    {
        VaultSigner::of(self.vault_key, &self.vault)
    }
}

impl DepositAndAddLiquidity {
    /// The vault's standing to sign the pool calls.
    pub fn signer(&self) -> (out: VaultSigner)
        ensures
            out == signer_of(self.vault_key, self.vault),
    {
        VaultSigner::of(self.vault_key, &self.vault)
    }
}

impl CollectFees {
    /// The vault's standing to sign the pool call.
    pub fn signer(&self) -> (out: VaultSigner)
        ensures
            out == signer_of(self.vault_key, self.vault),
    {
        VaultSigner::of(self.vault_key, &self.vault)
    }
}

impl DepositAndAddLiquidity {
    /// These accounts with the balances as read at `now`.
    pub open spec fn refreshed(self, now: Readings) -> DepositAndAddLiquidity {
        DepositAndAddLiquidity {
            vault_token_a: self.vault_token_a.holding(now.reserve_a),
            vault_token_b: self.vault_token_b.holding(now.reserve_b),
            position: self.position.holding(now.liquidity),
            ..self
        }
    }

    /// The balances that these accounts show.
    pub open spec fn readings_spec(self) -> Readings {
        Readings {
            reserve_a: self.vault_token_a.amount,
            reserve_b: self.vault_token_b.amount,
            liquidity: self.position.liquidity,
        }
    }

    /// Takes in the balances as they were just read.
    pub fn refresh(&mut self, now: &Readings)
        ensures
            *final(self) == old(self).refreshed(*now),
    {
        self.vault_token_a.amount = now.reserve_a;
        self.vault_token_b.amount = now.reserve_b;
        self.position.liquidity = now.liquidity;
    }

    /// The balances that these accounts show.
    pub fn readings(&self) -> (now: Readings)
        ensures
            now == self.readings_spec(),
    {
        Readings {
            reserve_a: self.vault_token_a.amount,
            reserve_b: self.vault_token_b.amount,
            liquidity: self.position.liquidity,
        }
    }
}

impl CollectFees {
    /// These accounts with the balances as read at `now`.
    pub open spec fn refreshed(self, now: Readings) -> CollectFees {
        CollectFees {
            vault_token_a: self.vault_token_a.holding(now.reserve_a),
            vault_token_b: self.vault_token_b.holding(now.reserve_b),
            position: self.position.holding(now.liquidity),
            ..self
        }
    }

    /// The balances that these accounts show.
    pub open spec fn readings_spec(self) -> Readings {
        Readings {
            reserve_a: self.vault_token_a.amount,
            reserve_b: self.vault_token_b.amount,
            liquidity: self.position.liquidity,
        }
    }

    /// Takes in the balances as they were just read.
    pub fn refresh(&mut self, now: &Readings)
        ensures
            *final(self) == old(self).refreshed(*now),
    {
        self.vault_token_a.amount = now.reserve_a;
        self.vault_token_b.amount = now.reserve_b;
        self.position.liquidity = now.liquidity;
    }

    /// The balances that these accounts show.
    pub fn readings(&self) -> (now: Readings)
        ensures
            now == self.readings_spec(),
    {
        Readings {
            reserve_a: self.vault_token_a.amount,
            reserve_b: self.vault_token_b.amount,
            liquidity: self.position.liquidity,
        }
    }
}

impl Rebalance {
    /// These accounts with the balances as read at `now`.
    pub open spec fn refreshed(self, now: Readings) -> Rebalance {
        Rebalance {
            vault_token_a: self.vault_token_a.holding(now.reserve_a),
            vault_token_b: self.vault_token_b.holding(now.reserve_b),
            position: self.position.holding(now.liquidity),
            ..self
        }
    }

    /// The balances that these accounts show.
    pub open spec fn readings_spec(self) -> Readings {
        Readings {
            reserve_a: self.vault_token_a.amount,
            reserve_b: self.vault_token_b.amount,
            liquidity: self.position.liquidity,
        }
    }

    /// Takes in the balances as they were just read.
    pub fn refresh(&mut self, now: &Readings)
        ensures
            *final(self) == old(self).refreshed(*now),
    {
        self.vault_token_a.amount = now.reserve_a;
        self.vault_token_b.amount = now.reserve_b;
        self.position.liquidity = now.liquidity;
    }

    /// The balances that these accounts show.
    pub fn readings(&self) -> (now: Readings)
        ensures
            now == self.readings_spec(),
    {
        Readings {
            reserve_a: self.vault_token_a.amount,
            reserve_b: self.vault_token_b.amount,
            liquidity: self.position.liquidity,
        }
    }
}

impl Withdraw {
    /// These accounts with the balances as read at `now`.
    pub open spec fn refreshed(self, now: Readings) -> Withdraw {
        Withdraw {
            vault_token_a: self.vault_token_a.holding(now.reserve_a),
            vault_token_b: self.vault_token_b.holding(now.reserve_b),
            position: self.position.holding(now.liquidity),
            ..self
        }
    }

    /// The balances that these accounts show.
    pub open spec fn readings_spec(self) -> Readings {
        Readings {
            reserve_a: self.vault_token_a.amount,
            reserve_b: self.vault_token_b.amount,
            liquidity: self.position.liquidity,
        }
    }

    /// Takes in the balances as they were just read.
    pub fn refresh(&mut self, now: &Readings)
        ensures
            *final(self) == old(self).refreshed(*now),
    {
        self.vault_token_a.amount = now.reserve_a;
        self.vault_token_b.amount = now.reserve_b;
        self.position.liquidity = now.liquidity;
    }

    /// The balances that these accounts show.
    pub fn readings(&self) -> (now: Readings)
        ensures
            now == self.readings_spec(),
    {
        Readings {
            reserve_a: self.vault_token_a.amount,
            reserve_b: self.vault_token_b.amount,
            liquidity: self.position.liquidity,
        }
    }
}

} // verus!
