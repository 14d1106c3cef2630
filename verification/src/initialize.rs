//! Setting a vault up.

use vstd::prelude::*;
use crate::accounts::InitializeVault;
use crate::error::VaultError;
use crate::state::Vault;

verus! {

/// Whether the supplied reserve accounts hold the pool's two assets, each on
/// its side.
pub open spec fn reserves_match(ctx: InitializeVault) -> bool {
    &&& ctx.vault_token_a.mint@ == ctx.token_a_mint@
    &&& ctx.vault_token_b.mint@ == ctx.token_b_mint@
}

/// The outcome of setting a vault up on the given accounts: refused where a
/// record exists already, then where a reserve holds the wrong asset.
pub open spec fn initialize_outcome(ctx: InitializeVault) -> Result<(), VaultError> {
    if ctx.vault is Some {
        Err(VaultError::AlreadyInitialized)
    } else if !reserves_match(ctx) {
        Err(VaultError::MintMismatch)
    } else {
        Ok(())
    }
}

/// The record that setting a vault up writes: the identities as supplied,
/// and no funded position yet.
pub open spec fn fresh_vault(ctx: InitializeVault, bump: u8) -> Vault {
    Vault {
        authority: ctx.authority,
        whirlpool: ctx.whirlpool,
        token_a_mint: ctx.token_a_mint,
        token_b_mint: ctx.token_b_mint,
        vault_token_a: ctx.vault_token_a.key,
        vault_token_b: ctx.vault_token_b.key,
        position: ctx.position.key,
        bump,
        is_active: false,
    }
}

/// Sets a vault up for a pool. On success the record is written into
/// `ctx.vault`; on refusal nothing is written.
pub fn initialize_vault(ctx: &mut InitializeVault, bump: u8) -> (out: Result<(), VaultError>)
    ensures
        out == initialize_outcome(*old(ctx)),
        out is Ok ==> *final(ctx) == (InitializeVault {
            vault: Some(fresh_vault(*old(ctx), bump)),
            ..*old(ctx)
        }),
        out is Err ==> *final(ctx) == *old(ctx),
{
    if ctx.vault.is_some() {
        return Err(VaultError::AlreadyInitialized);
    }
    if !ctx.vault_token_a.mint.same(&ctx.token_a_mint) || !ctx.vault_token_b.mint.same(
        &ctx.token_b_mint,
    ) {
        return Err(VaultError::MintMismatch);
    }
    ctx.vault = Some(
        Vault {
            authority: ctx.authority,
            whirlpool: ctx.whirlpool,
            token_a_mint: ctx.token_a_mint,
            token_b_mint: ctx.token_b_mint,
            vault_token_a: ctx.vault_token_a.key,
            vault_token_b: ctx.vault_token_b.key,
            position: ctx.position.key,
            bump,
            is_active: false,
        },
    );
    Ok(())
}

} // verus!
