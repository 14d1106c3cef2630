//! A plain vault for one asset: it takes deposits in and pays them out, and
//! holds no position in any pool.

use vstd::prelude::*;
use crate::call::{Call, VaultSigner};
use crate::error::VaultError;
use crate::pubkey::Pubkey;
use crate::state::TokenAccount;

verus! {

/// The record of a plain vault, one per user.
#[derive(Clone, Copy, Debug, PartialEq, Eq)]
pub struct Vault {
    /// The user whom the vault belongs to.
    pub authority: Pubkey,
    /// The asset that the vault holds.
    pub token_mint: Pubkey,
    /// The byte that completes the vault's signing seeds.
    pub bump: u8,
    /// The vault's position in a pool; all zero while it has none.
    pub lp_position: Pubkey,
}

/// The accounts of `initialize`.
#[derive(Clone, Copy, Debug, PartialEq, Eq)]
pub struct Initialize {
    /// The record found where the vault will live: none before it is set up.
    pub vault: Option<Vault>,
    pub token_mint: Pubkey,
    pub user: Pubkey,
}

/// The accounts of `deposit`.
#[derive(Clone, Copy, Debug, PartialEq, Eq)]
pub struct Deposit {
    pub vault_key: Pubkey,
    pub vault: Vault,
    pub user_token_account: TokenAccount,
    pub vault_token_account: TokenAccount,
    pub user: Pubkey,
}

/// The accounts of `withdraw`.
#[derive(Clone, Copy, Debug, PartialEq, Eq)]
pub struct Withdraw {
    pub vault_key: Pubkey,
    pub vault: Vault,
    pub user_token_account: TokenAccount,
    pub vault_token_account: TokenAccount,
    pub user: Pubkey,
}

/// The accounts of `rebalance`.
#[derive(Clone, Copy, Debug, PartialEq, Eq)]
pub struct Rebalance {
    pub vault_key: Pubkey,
    pub vault: Vault,
    pub authority: Pubkey,
}

/// The identity that stands for "no position": thirty-two zero bytes.
pub open spec fn no_position() -> Seq<u8> {
    Seq::new(32, |i: int| 0u8)
}

/// What `deposit` asks of the ledger: the amount, from the user's account to
/// the vault's, signed by the user.
pub open spec fn deposit_call(ctx: Deposit, amount: u64) -> Call {
    Call::Transfer {
        from: ctx.user_token_account.key,
        to: ctx.vault_token_account.key,
        authority: ctx.user,
        amount,
        delegate: None,
    }
}

/// What `withdraw` asks of the ledger: the amount, from the vault's account
/// to the user's, signed by the vault, whose identity derives from the
/// user's.
pub open spec fn withdraw_call(ctx: Withdraw, amount: u64) -> Call {
    Call::Transfer {
        from: ctx.vault_token_account.key,
        to: ctx.user_token_account.key,
        authority: ctx.vault_key,
        amount,
        delegate: Some(VaultSigner { vault: ctx.vault_key, origin: ctx.user, bump: ctx.vault.bump }),
    }
}

/// Sets a plain vault up for the user. It is refused where a record exists
/// already; otherwise the record is written into `ctx.vault`, with no
/// position.
pub fn initialize(ctx: &mut Initialize, bump: u8) -> (out: Result<(), VaultError>)
    ensures
        old(ctx).vault is Some ==> out == Err::<(), VaultError>(VaultError::AlreadyInitialized)
            && *final(ctx) == *old(ctx),
        old(ctx).vault is None ==> out is Ok && final(ctx).token_mint == old(ctx).token_mint
            && final(ctx).user == old(ctx).user && (final(ctx).vault matches Some(vault)
            && vault.authority == old(ctx).user && vault.token_mint == old(ctx).token_mint
            && vault.bump == bump && vault.lp_position@ == no_position()),
{
    if ctx.vault.is_some() {
        return Err(VaultError::AlreadyInitialized);
    }
    let lp_position = Pubkey::default();
    ctx.vault = Some(Vault { authority: ctx.user, token_mint: ctx.token_mint, bump, lp_position });
    Ok(())
}

/// The transfer that takes a deposit into the vault.
pub fn deposit(ctx: &Deposit, amount: u64) -> (call: Call)
    ensures
        call == deposit_call(*ctx, amount),
{
    Call::Transfer {
        from: ctx.user_token_account.key,
        to: ctx.vault_token_account.key,
        authority: ctx.user,
        amount,
        delegate: None,
    }
}

/// The transfer that pays an amount out of the vault.
pub fn withdraw(ctx: &Withdraw, amount: u64) -> (call: Call)
    ensures
        call == withdraw_call(*ctx, amount),
{
    Call::Transfer {
        from: ctx.vault_token_account.key,
        to: ctx.user_token_account.key,
        authority: ctx.vault_key,
        amount,
        delegate: Some(VaultSigner { vault: ctx.vault_key, origin: ctx.user, bump: ctx.vault.bump }),
    }
}

/// A plain vault has nothing to rebalance: no call is asked for.
pub fn rebalance(ctx: &Rebalance) -> (call: Option<Call>)
    ensures
        call is None,
{
    None
}

} // verus!
