//! The one deposit of a vault: take the funds in, swap half of them into the
//! paired asset, open the position where there is none, and commit both
//! sides.

use vstd::prelude::*;
use crate::accounts::DepositAndAddLiquidity;
use crate::call::{signer_of, Call, Policy, Reply};
use crate::error::VaultError;
use crate::state::{smaller, Vault};

verus! {

/// How far a deposit has come.
#[derive(Clone, Copy, Debug, PartialEq, Eq, Structural)]
pub enum DepositStage {
    /// Nothing has been asked yet.
    Start,
    /// The ledger has been asked to move the deposit into the reserve.
    Transferring,
    /// The pool has been asked to swap half of the deposit.
    Swapping,
    /// The pool has been asked to open the position.
    Opening,
    /// The pool has been asked to commit the reserves to the position.
    Funding,
    /// The position is funded and the vault is active.
    Done,
    /// The deposit was refused or aborted.
    Failed(VaultError),
}

/// The part of a deposit that is swapped into the paired asset: half of it,
/// rounded down. What is left of an odd amount stays in the deposited asset.
pub open spec fn swap_share(amount: u64) -> u64 {
    amount / 2
}

/// Whether the deposit is made in asset A: the source account holds the
/// asset that the vault has on record for side A.
pub open spec fn deposits_a(ctx: DepositAndAddLiquidity) -> bool {
    ctx.user_token_account.mint@ == ctx.vault.token_a_mint@
}

/// The stage that follows `stage` once `reply` has come in, on the balances
/// that `ctx` shows then.
///
/// A deposit starts only on a vault that is not active yet, and only with an
/// amount above zero. After the swap the position is opened if it holds no
/// liquidity. A failed call ends the deposit with the collaborator's code;
/// with no reply the stage stays.
pub open spec fn deposit_next(
    ctx: DepositAndAddLiquidity,
    amount: u64,
    stage: DepositStage,
    reply: Option<Reply>,
) -> DepositStage {
    match stage {
        DepositStage::Start => if ctx.vault.is_active {
            DepositStage::Failed(VaultError::PositionActive)
        } else if amount == 0 {
            DepositStage::Failed(VaultError::InvalidAmount)
        } else {
            DepositStage::Transferring
        },
        DepositStage::Done => DepositStage::Done,
        DepositStage::Failed(e) => DepositStage::Failed(e),
        _ => match reply {
            None => stage,
            Some(Reply::Failure(code)) => DepositStage::Failed(VaultError::CallFailed(code)),
            Some(Reply::Success) => match stage {
                DepositStage::Transferring => DepositStage::Swapping,
                DepositStage::Swapping => if ctx.position.liquidity == 0 {
                    DepositStage::Opening
                } else {
                    DepositStage::Funding
                },
                DepositStage::Opening => DepositStage::Funding,
                _ => DepositStage::Done,
            },
        },
    }
}

/// The call to make on entering `stage`, on the balances that `ctx` shows.
///
/// The whole deposit goes from the source account to the reserve of the
/// deposited asset, signed by the depositor. Half of it is swapped out of
/// that asset. The position is opened at the range given. The smaller of the
/// two reserve balances is committed on both sides.
pub open spec fn deposit_pending(
    ctx: DepositAndAddLiquidity,
    amount: u64,
    tick_lower: i32,
    tick_upper: i32,
    policy: Policy,
    stage: DepositStage,
) -> Option<Call> {
    let signer = signer_of(ctx.vault_key, ctx.vault);
    match stage {
        DepositStage::Transferring => Some(
            Call::Transfer {
                from: ctx.user_token_account.key,
                to: if deposits_a(ctx) {
                    ctx.vault_token_a.key
                } else {
                    ctx.vault_token_b.key
                },
                authority: ctx.user,
                amount,
                delegate: None,
            },
        ),
        DepositStage::Swapping => Some(
            Call::Swap {
                whirlpool: ctx.whirlpool,
                amount: swap_share(amount),
                other_amount_threshold: policy.min_swap_output,
                a_to_b: deposits_a(ctx),
                signer,
            },
        ),
        DepositStage::Opening => Some(
            Call::OpenPosition {
                whirlpool: ctx.whirlpool,
                position: ctx.position.key,
                tick_lower,
                tick_upper,
                signer,
            },
        ),
        DepositStage::Funding => Some(
            Call::IncreaseLiquidity {
                position: ctx.position.key,
                amount_a_max: smaller(ctx.vault_token_a.amount, ctx.vault_token_b.amount),
                amount_b_max: smaller(ctx.vault_token_a.amount, ctx.vault_token_b.amount),
                min_a: policy.min_token_a,
                min_b: policy.min_token_b,
                signer,
            },
        ),
        _ => None,
    }
}

/// The vault record after a step from `stage` to `next`: it becomes active
/// when the funding call has succeeded, and is not written otherwise.
pub open spec fn vault_after_deposit(vault: Vault, stage: DepositStage, next: DepositStage) -> Vault {
    if stage is Funding && next is Done {
        vault.activated()
    } else {
        vault
    }
}

/// The part of a deposit that is swapped into the paired asset.
pub fn swap_amount(amount: u64) -> (out: u64)
    ensures
        out == swap_share(amount),
        out + out <= amount,
        amount - out - out <= 1,
{
    amount / 2
}

/// One step of a deposit. `reply` is the result of the call that the
/// previous step asked for; the first step, from `DepositStage::Start`, reads
/// none. The step returns the stage reached and the call to make next.
///
/// The accounts are left as they were, but for the vault record, which is
/// marked active by the step that finds the funding call succeeded.
pub fn deposit_and_add_liquidity(
    ctx: &mut DepositAndAddLiquidity,
    amount: u64,
    tick_lower: i32,
    tick_upper: i32,
    policy: &Policy,
    stage: DepositStage,
    reply: Option<Reply>,
) -> (out: (DepositStage, Option<Call>))
    ensures
        out.0 == deposit_next(*old(ctx), amount, stage, reply),
        out.1 == deposit_pending(*old(ctx), amount, tick_lower, tick_upper, *policy, out.0),
        *final(ctx) == (DepositAndAddLiquidity {
            vault: vault_after_deposit(old(ctx).vault, stage, out.0),
            ..*old(ctx)
        }),
{
    let is_deposit_a = ctx.user_token_account.mint.same(&ctx.vault.token_a_mint);
    let next = match stage {
        DepositStage::Start => if ctx.vault.is_active {
            DepositStage::Failed(VaultError::PositionActive)
        } else if amount == 0 {
            DepositStage::Failed(VaultError::InvalidAmount)
        } else {
            DepositStage::Transferring
        },
        DepositStage::Done => DepositStage::Done,
        DepositStage::Failed(e) => DepositStage::Failed(e),
        _ => match reply {
            None => stage,
            Some(Reply::Failure(code)) => DepositStage::Failed(VaultError::CallFailed(code)),
            Some(Reply::Success) => match stage {
                DepositStage::Transferring => DepositStage::Swapping,
                DepositStage::Swapping => if ctx.position.is_empty() {
                    DepositStage::Opening
                } else {
                    DepositStage::Funding
                },
                DepositStage::Opening => DepositStage::Funding,
                _ => DepositStage::Done,
            },
        },
    };
    let call = match next {
        DepositStage::Transferring => Some(
            Call::Transfer {
                from: ctx.user_token_account.key,
                to: if is_deposit_a {
                    ctx.vault_token_a.key
                } else {
                    ctx.vault_token_b.key
                },
                authority: ctx.user,
                amount,
                delegate: None,
            },
        ),
        DepositStage::Swapping => Some(
            Call::Swap {
                whirlpool: ctx.whirlpool,
                amount: swap_amount(amount),
                other_amount_threshold: policy.min_swap_output,
                a_to_b: is_deposit_a,
                signer: ctx.signer(),
            },
        ),
        DepositStage::Opening => Some(
            Call::OpenPosition {
                whirlpool: ctx.whirlpool,
                position: ctx.position.key,
                tick_lower,
                tick_upper,
                signer: ctx.signer(),
            },
        ),
        DepositStage::Funding => {
            let amount_a: u64 = ctx.vault_token_a.amount;
            let amount_b: u64 = ctx.vault_token_b.amount;
            let both: u64 = if amount_a <= amount_b {
                amount_a
            } else {
                amount_b
            };
            Some(
                Call::IncreaseLiquidity {
                    position: ctx.position.key,
                    amount_a_max: both,
                    amount_b_max: both,
                    min_a: policy.min_token_a,
                    min_b: policy.min_token_b,
                    signer: ctx.signer(),
                },
            )
        },
        _ => None,
    };
    match (stage, next) {
        (DepositStage::Funding, DepositStage::Done) => {
            ctx.vault.is_active = true;
        },
        _ => {},
    }
    (next, call)
}

} // verus!
