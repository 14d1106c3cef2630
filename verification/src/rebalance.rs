//! Rebalancing: collect the fees, take all liquidity out, even the reserves
//! out by a swap, and commit them again.

use vstd::prelude::*;
use crate::accounts::Rebalance;
use crate::call::{signer_of, Call, ExcessRule, Policy, Reply};
use crate::error::VaultError;
use crate::fees::{collect_call, fees_call};
use crate::state::{larger, smaller};

verus! {

/// How far a rebalance has come.
#[derive(Clone, Copy, Debug, PartialEq, Eq, Structural)]
pub enum RebalanceStage {
    /// Nothing has been asked yet.
    Start,
    /// The pool has been asked to credit the fees.
    Collecting,
    /// The pool has been asked to take all liquidity out of the position.
    Removing,
    /// The pool has been asked to swap the excess of the larger reserve.
    Swapping,
    /// The pool has been asked to commit the reserves to the position again.
    Funding,
    /// The position is funded afresh.
    Done,
    /// The rebalance was refused or aborted.
    Failed(VaultError),
}

/// The amount to swap out of the larger of two uneven reserves.
///
/// Under the literal rule it is the larger balance less the maximum of the
/// two, hence nothing: the swap is made, and moves no token. Under the other
/// rule it is half of what the larger reserve holds more than the smaller.
pub open spec fn excess(rule: ExcessRule, amount_a: u64, amount_b: u64) -> u64 {
    match rule {
        ExcessRule::Literal => 0,
        ExcessRule::HalfImbalance => ((larger(amount_a, amount_b) - smaller(amount_a, amount_b))
            / 2) as u64,
    }
}

/// The stage that follows `stage` once `reply` has come in, on the balances
/// that `ctx` shows then.
///
/// A rebalance starts only on an active vault. The fees are collected first;
/// only when that call has succeeded is the liquidity taken out. The swap is
/// made only where the reserves are uneven. A failed call ends the rebalance
/// with the collaborator's code; with no reply the stage stays.
pub open spec fn rebalance_next(ctx: Rebalance, stage: RebalanceStage, reply: Option<Reply>) -> RebalanceStage {
    match stage {
        RebalanceStage::Start => if ctx.vault.is_active {
            RebalanceStage::Collecting
        } else {
            RebalanceStage::Failed(VaultError::NoActivePosition)
        },
        RebalanceStage::Done => RebalanceStage::Done,
        RebalanceStage::Failed(e) => RebalanceStage::Failed(e),
        _ => match reply {
            None => stage,
            Some(Reply::Failure(code)) => RebalanceStage::Failed(VaultError::CallFailed(code)),
            Some(Reply::Success) => match stage {
                RebalanceStage::Collecting => RebalanceStage::Removing,
                RebalanceStage::Removing => if ctx.vault_token_a.amount
                    != ctx.vault_token_b.amount {
                    RebalanceStage::Swapping
                } else {
                    RebalanceStage::Funding
                },
                RebalanceStage::Swapping => RebalanceStage::Funding,
                _ => RebalanceStage::Done,
            },
        },
    }
}

/// The call to make on entering `stage`, on the balances that `ctx` shows:
/// all of the position's liquidity is taken out; the excess is swapped out of
/// the larger reserve; the smaller balance is committed on both sides, to the
/// position on record.
pub open spec fn rebalance_pending(ctx: Rebalance, policy: Policy, stage: RebalanceStage) -> Option<Call> {
    let signer = signer_of(ctx.vault_key, ctx.vault);
    let amount_a = ctx.vault_token_a.amount;
    let amount_b = ctx.vault_token_b.amount;
    match stage {
        RebalanceStage::Collecting => Some(fees_call(ctx.fees_accounts_spec())),
        RebalanceStage::Removing => Some(
            Call::DecreaseLiquidity {
                position: ctx.position.key,
                liquidity: ctx.position.liquidity,
                min_a: policy.min_token_a,
                min_b: policy.min_token_b,
                signer,
            },
        ),
        RebalanceStage::Swapping => Some(
            Call::Swap {
                whirlpool: ctx.whirlpool,
                amount: excess(policy.excess_rule, amount_a, amount_b),
                other_amount_threshold: policy.min_swap_output,
                a_to_b: amount_a > amount_b,
                signer,
            },
        ),
        RebalanceStage::Funding => Some(
            Call::IncreaseLiquidity {
                position: ctx.position.key,
                amount_a_max: smaller(amount_a, amount_b),
                amount_b_max: smaller(amount_a, amount_b),
                min_a: policy.min_token_a,
                min_b: policy.min_token_b,
                signer,
            },
        ),
        _ => None,
    }
}

/// The amount to swap out of the larger of two reserves under `rule`.
pub fn excess_to_swap(rule: ExcessRule, amount_a: u64, amount_b: u64) -> (out: u64)
    ensures
        out == excess(rule, amount_a, amount_b),
{
    let target: u64 = if amount_a >= amount_b {
        amount_a
    } else {
        amount_b
    };
    match rule {
        ExcessRule::Literal => if amount_a > amount_b {
            amount_a - target
        } else {
            amount_b - target
        },
        ExcessRule::HalfImbalance => if amount_a > amount_b {
            (amount_a - amount_b) / 2
        } else {
            (amount_b - amount_a) / 2
        },
    }
}

/// One step of a rebalance. `reply` is the result of the call that the
/// previous step asked for; the first step, from `RebalanceStage::Start`,
/// reads none. The step returns the stage reached and the call to make next.
///
/// The tick bounds are taken and not read: the liquidity goes back to the
/// position on record, at the range that it was opened with. The vault record
/// is never written.
pub fn rebalance(
    ctx: &Rebalance,
    _tick_lower: i32,
    _tick_upper: i32,
    policy: &Policy,
    stage: RebalanceStage,
    reply: Option<Reply>,
) -> (out: (RebalanceStage, Option<Call>))
    ensures
        out.0 == rebalance_next(*ctx, stage, reply),
        out.1 == rebalance_pending(*ctx, *policy, out.0),
{
    let amount_a: u64 = ctx.vault_token_a.amount;
    let amount_b: u64 = ctx.vault_token_b.amount;
    let next = match stage {
        RebalanceStage::Start => if ctx.vault.is_active {
            RebalanceStage::Collecting
        } else {
            RebalanceStage::Failed(VaultError::NoActivePosition)
        },
        RebalanceStage::Done => RebalanceStage::Done,
        RebalanceStage::Failed(e) => RebalanceStage::Failed(e),
        _ => match reply {
            None => stage,
            Some(Reply::Failure(code)) => RebalanceStage::Failed(VaultError::CallFailed(code)),
            Some(Reply::Success) => match stage {
                RebalanceStage::Collecting => RebalanceStage::Removing,
                RebalanceStage::Removing => if amount_a > amount_b || amount_b > amount_a {
                    RebalanceStage::Swapping
                } else {
                    RebalanceStage::Funding
                },
                RebalanceStage::Swapping => RebalanceStage::Funding,
                _ => RebalanceStage::Done,
            },
        },
    };
    let call = match next {
        RebalanceStage::Collecting => Some(collect_call(&ctx.fees_accounts())),
        RebalanceStage::Removing => Some(
            Call::DecreaseLiquidity {
                position: ctx.position.key,
                liquidity: ctx.position.liquidity,
                min_a: policy.min_token_a,
                min_b: policy.min_token_b,
                signer: ctx.signer(),
            },
        ),
        RebalanceStage::Swapping => Some(
            Call::Swap {
                whirlpool: ctx.whirlpool,
                amount: excess_to_swap(policy.excess_rule, amount_a, amount_b),
                other_amount_threshold: policy.min_swap_output,
                a_to_b: amount_a > amount_b,
                signer: ctx.signer(),
            },
        ),
        RebalanceStage::Funding => {
            let both: u64 = if amount_a <= amount_b {
                amount_a
            } else {
                amount_b
            };
            Some(
                Call::IncreaseLiquidity {
                    position: ctx.position.key,
                    amount_a_max: both,
                    amount_b_max: both,
                    min_a: policy.min_token_a,
                    min_b: policy.min_token_b,
                    signer: ctx.signer(),
                },
            )
        },
        _ => None,
    };
    (next, call)
}

} // verus!
