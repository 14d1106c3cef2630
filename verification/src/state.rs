//! The vault record and the account data that the operations read.

use vstd::prelude::*;
use crate::pubkey::Pubkey;

verus! {

/// The persistent record of one vault. There is one per managed pool; every
/// field but `is_active` is fixed when the record is written.
#[derive(Clone, Copy, Debug, PartialEq, Eq)]
pub struct Vault {
    /// The identity that set the vault up.
    pub authority: Pubkey,
    /// The pool that the vault provides liquidity to.
    pub whirlpool: Pubkey,
    /// The asset on side A of the pool.
    pub token_a_mint: Pubkey,
    /// The asset on side B of the pool.
    pub token_b_mint: Pubkey,
    /// The vault's reserve account for asset A.
    pub vault_token_a: Pubkey,
    /// The vault's reserve account for asset B.
    pub vault_token_b: Pubkey,
    /// The vault's one position in the pool.
    pub position: Pubkey,
    /// The byte that completes the vault's signing seeds.
    pub bump: u8,
    /// Whether the position has been opened and funded.
    pub is_active: bool,
}

/// A token account as an operation sees it: whose it is, which asset it
/// holds, and how much, in the asset's smallest unit.
#[derive(Clone, Copy, Debug, PartialEq, Eq)]
pub struct TokenAccount {
    pub key: Pubkey,
    pub mint: Pubkey,
    pub owner: Pubkey,
    pub amount: u64,
}

/// The vault's position in the pool as an operation sees it. A position
/// with no liquidity has not been opened yet, or has been emptied.
#[derive(Clone, Copy, Debug, PartialEq, Eq)]
pub struct Position {
    pub key: Pubkey,
    pub liquidity: u128,
}

/// The balances that the operations decide on, as read at one moment.
#[derive(Clone, Copy, Debug, PartialEq, Eq, Structural)]
pub struct Readings {
    /// What reserve A holds.
    pub reserve_a: u64,
    /// What reserve B holds.
    pub reserve_b: u64,
    /// What the position holds.
    pub liquidity: u128,
}

impl TokenAccount {
    /// The same account holding `amount`.
    pub open spec fn holding(self, amount: u64) -> TokenAccount {
        TokenAccount { amount, ..self }
    }
}

impl Position {
    /// The same position holding `liquidity`.
    pub open spec fn holding(self, liquidity: u128) -> Position {
        Position { liquidity, ..self }
    }

    /// Whether the position holds no liquidity.
    pub fn is_empty(&self) -> (r: bool)
        ensures
            r == (self.liquidity == 0),
    {
        self.liquidity == 0
    }
}

impl Vault {
    /// The same record with its position marked as funded.
    pub open spec fn activated(self) -> Vault {
        Vault { is_active: true, ..self }
    }

    /// Whether two records differ at most in `is_active`.
    pub open spec fn same_identity(self, other: Vault) -> bool {
        self == (Vault { is_active: self.is_active, ..other })
    }
}

/// The smaller of two amounts.
pub open spec fn smaller(a: u64, b: u64) -> u64 {
    if a <= b {
        a
    } else {
        b
    }
}

/// The larger of two amounts.
pub open spec fn larger(a: u64, b: u64) -> u64 {
    if a >= b {
        a
    } else {
        b
    }
}

} // verus!
