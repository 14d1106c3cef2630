//! Unwinding: collect the fees, take all liquidity out, and pay both
//! reserves out in full.

use vstd::prelude::*;
use crate::accounts::Withdraw;
use crate::call::{signer_of, Call, Policy, Reply};
use crate::error::VaultError;
use crate::fees::{collect_call, fees_call};

verus! {

/// How far a withdrawal has come.
#[derive(Clone, Copy, Debug, PartialEq, Eq, Structural)]
pub enum WithdrawStage {
    /// Nothing has been asked yet.
    Start,
    /// The pool has been asked to credit the fees.
    Collecting,
    /// The pool has been asked to take all liquidity out of the position.
    Removing,
    /// The ledger has been asked to pay reserve A out.
    PayingA,
    /// The ledger has been asked to pay reserve B out.
    PayingB,
    /// Everything the vault held has been paid out.
    Done,
    /// The withdrawal was aborted.
    Failed(VaultError),
}

/// Where a withdrawal goes once the liquidity is out: to the first reserve
/// that holds anything, A before B, and to the end if neither does.
pub open spec fn first_payout(ctx: Withdraw) -> WithdrawStage {
    if ctx.vault_token_a.amount > 0 {
        WithdrawStage::PayingA
    } else if ctx.vault_token_b.amount > 0 {
        WithdrawStage::PayingB
    } else {
        WithdrawStage::Done
    }
}

/// The stage that follows `stage` once `reply` has come in, on the balances
/// that `ctx` shows then.
///
/// A withdrawal has no precondition. The fees are collected first. The
/// liquidity is taken out only if the position holds any. Each payout is
/// left out if its reserve is empty. A failed call ends the withdrawal with
/// the collaborator's code; with no reply the stage stays.
pub open spec fn withdraw_next(ctx: Withdraw, stage: WithdrawStage, reply: Option<Reply>) -> WithdrawStage {
    match stage {
        WithdrawStage::Start => WithdrawStage::Collecting,
        WithdrawStage::Done => WithdrawStage::Done,
        WithdrawStage::Failed(e) => WithdrawStage::Failed(e),
        _ => match reply {
            None => stage,
            Some(Reply::Failure(code)) => WithdrawStage::Failed(VaultError::CallFailed(code)),
            Some(Reply::Success) => match stage {
                WithdrawStage::Collecting => if ctx.position.liquidity > 0 {
                    WithdrawStage::Removing
                } else {
                    first_payout(ctx)
                },
                WithdrawStage::Removing => first_payout(ctx),
                WithdrawStage::PayingA => if ctx.vault_token_b.amount > 0 {
                    WithdrawStage::PayingB
                } else {
                    WithdrawStage::Done
                },
                _ => WithdrawStage::Done,
            },
        },
    }
}

/// The call to make on entering `stage`, on the balances that `ctx` shows:
/// all of the position's liquidity is taken out, and each payout moves the
/// whole balance of its reserve to the user's account for that asset, signed
/// by the vault.
pub open spec fn withdraw_pending(ctx: Withdraw, policy: Policy, stage: WithdrawStage) -> Option<Call> {
    let signer = signer_of(ctx.vault_key, ctx.vault);
    match stage {
        WithdrawStage::Collecting => Some(fees_call(ctx.fees_accounts_spec())),
        WithdrawStage::Removing => Some(
            Call::DecreaseLiquidity {
                position: ctx.position.key,
                liquidity: ctx.position.liquidity,
                min_a: policy.min_token_a,
                min_b: policy.min_token_b,
                signer,
            },
        ),
        WithdrawStage::PayingA => Some(
            Call::Transfer {
                from: ctx.vault_token_a.key,
                to: ctx.user_token_a.key,
                authority: ctx.vault_key,
                amount: ctx.vault_token_a.amount,
                delegate: Some(signer),
            },
        ),
        WithdrawStage::PayingB => Some(
            Call::Transfer {
                from: ctx.vault_token_b.key,
                to: ctx.user_token_b.key,
                authority: ctx.vault_key,
                amount: ctx.vault_token_b.amount,
                delegate: Some(signer),
            },
        ),
        _ => None,
    }
}

/// One step of a withdrawal. `reply` is the result of the call that the
/// previous step asked for; the first step, from `WithdrawStage::Start`,
/// reads none. The step returns the stage reached and the call to make next.
///
/// The vault record is never written: a vault that was active stays so.
pub fn withdraw(ctx: &Withdraw, policy: &Policy, stage: WithdrawStage, reply: Option<Reply>) -> (out: (
    WithdrawStage,
    Option<Call>,
))
    ensures
        out.0 == withdraw_next(*ctx, stage, reply),
        out.1 == withdraw_pending(*ctx, *policy, out.0),
{
    let amount_a: u64 = ctx.vault_token_a.amount;
    let amount_b: u64 = ctx.vault_token_b.amount;
    let first = if amount_a > 0 {
        WithdrawStage::PayingA
    } else if amount_b > 0 {
        WithdrawStage::PayingB
    } else {
        WithdrawStage::Done
    };
    let next = match stage {
        WithdrawStage::Start => WithdrawStage::Collecting,
        WithdrawStage::Done => WithdrawStage::Done,
        WithdrawStage::Failed(e) => WithdrawStage::Failed(e),
        _ => match reply {
            None => stage,
            Some(Reply::Failure(code)) => WithdrawStage::Failed(VaultError::CallFailed(code)),
            Some(Reply::Success) => match stage {
                WithdrawStage::Collecting => if ctx.position.liquidity > 0 {
                    WithdrawStage::Removing
                } else {
                    first
                },
                WithdrawStage::Removing => first,
                WithdrawStage::PayingA => if amount_b > 0 {
                    WithdrawStage::PayingB
                } else {
                    WithdrawStage::Done
                },
                _ => WithdrawStage::Done,
            },
        },
    };
    let call = match next {
        WithdrawStage::Collecting => Some(collect_call(&ctx.fees_accounts())),
        WithdrawStage::Removing => Some(
            Call::DecreaseLiquidity {
                position: ctx.position.key,
                liquidity: ctx.position.liquidity,
                min_a: policy.min_token_a,
                min_b: policy.min_token_b,
                signer: ctx.signer(),
            },
        ),
        WithdrawStage::PayingA => Some(
            Call::Transfer {
                from: ctx.vault_token_a.key,
                to: ctx.user_token_a.key,
                authority: ctx.vault_key,
                amount: amount_a,
                delegate: Some(ctx.signer()),
            },
        ),
        WithdrawStage::PayingB => Some(
            Call::Transfer {
                from: ctx.vault_token_b.key,
                to: ctx.user_token_b.key,
                authority: ctx.vault_key,
                amount: amount_b,
                delegate: Some(ctx.signer()),
            },
        ),
        _ => None,
    };
    (next, call)
}

} // verus!
