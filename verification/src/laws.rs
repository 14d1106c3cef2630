//! What holds of the operations taken as a whole.
//!
//! A run of an operation is the sequence of steps that a caller drives: before
//! each step it reads the balances afresh and reports the result of the call
//! that the previous step asked for. The laws below speak of every such run.

use vstd::prelude::*;
use crate::accounts::{DepositAndAddLiquidity, InitializeVault, Rebalance, Withdraw};
use crate::call::{Call, Policy, Reply};
use crate::deposit::{deposit_next, deposit_pending, deposits_a, swap_share, vault_after_deposit, DepositStage};
use crate::error::VaultError;
use crate::fees::fees_call;
use crate::initialize::{fresh_vault, initialize_outcome};
use crate::rebalance::{rebalance_next, rebalance_pending, RebalanceStage};
use crate::state::{Readings, Vault};
use crate::withdraw::{withdraw_next, withdraw_pending, WithdrawStage};

verus! {

/// What a caller reports before a step: the balances as just read, and the
/// result of the call that the previous step asked for, if it asked for one.
pub struct Event {
    pub now: Readings,
    pub reply: Option<Reply>,
}

/// The accounts of a deposit as a step sees them: the balances as just read,
/// and the vault record as the steps before have left it.
pub open spec fn deposit_view(ctx: DepositAndAddLiquidity, vault: Vault, now: Readings) -> DepositAndAddLiquidity {
    DepositAndAddLiquidity { vault, ..ctx.refreshed(now) }
}

/// The stage and the vault record that a deposit has reached after the given
/// events, one step for each, from `DepositStage::Start`.
pub open spec fn deposit_run(ctx: DepositAndAddLiquidity, amount: u64, events: Seq<Event>) -> (
    DepositStage,
    Vault,
)
    decreases events.len(),
{
    if events.len() == 0 {
        (DepositStage::Start, ctx.vault)
    } else {
        let before = deposit_run(ctx, amount, events.drop_last());
        let seen = deposit_view(ctx, before.1, events.last().now);
        let next = deposit_next(seen, amount, before.0, events.last().reply);
        (next, vault_after_deposit(before.1, before.0, next))
    }
}

/// The stage that a rebalance has reached after the given events, one step
/// for each, from `RebalanceStage::Start`.
pub open spec fn rebalance_run(ctx: Rebalance, events: Seq<Event>) -> RebalanceStage
    decreases events.len(),
{
    if events.len() == 0 {
        RebalanceStage::Start
    } else {
        rebalance_next(
            ctx.refreshed(events.last().now),
            rebalance_run(ctx, events.drop_last()),
            events.last().reply,
        )
    }
}

/// A vault that has just been set up is not active.
pub proof fn new_vault_is_inactive(ctx: InitializeVault, bump: u8)
    ensures
        !fresh_vault(ctx, bump).is_active,
        initialize_outcome(ctx) is Ok <==> ctx.vault is None && ctx.vault_token_a.mint@
            == ctx.token_a_mint@ && ctx.vault_token_b.mint@ == ctx.token_b_mint@,
{
}

/// Through any run of a deposit on a vault that is not active, the vault is
/// active exactly from the step that completes the deposit, and nothing else
/// in its record changes.
pub proof fn vault_active_exactly_when_deposit_done(
    ctx: DepositAndAddLiquidity,
    amount: u64,
    events: Seq<Event>,
)
    requires
        !ctx.vault.is_active,
    ensures
        deposit_run(ctx, amount, events).1.is_active <==> deposit_run(ctx, amount, events).0 is Done,
        deposit_run(ctx, amount, events).1.same_identity(ctx.vault),
    decreases events.len(),
{
    if events.len() > 0 {
        vault_active_exactly_when_deposit_done(ctx, amount, events.drop_last());
    }
}

/// A deposit on a vault that is already active is refused at its first step,
/// whatever the caller reports then or later: no call is ever asked for, so
/// no balance moves, and the vault record stays as it was.
pub proof fn deposit_refused_when_active(
    ctx: DepositAndAddLiquidity,
    amount: u64,
    tick_lower: i32,
    tick_upper: i32,
    policy: Policy,
    events: Seq<Event>,
)
    requires
        ctx.vault.is_active,
        events.len() > 0,
    ensures
        deposit_run(ctx, amount, events).0 == DepositStage::Failed(VaultError::PositionActive),
        deposit_run(ctx, amount, events).1 == ctx.vault,
        deposit_pending(
            deposit_view(ctx, ctx.vault, events.last().now),
            amount,
            tick_lower,
            tick_upper,
            policy,
            deposit_run(ctx, amount, events).0,
        ) is None,
    decreases events.len(),
{
    if events.len() > 1 {
        deposit_refused_when_active(ctx, amount, tick_lower, tick_upper, policy, events.drop_last());
    } else {
        assert(deposit_run(ctx, amount, events.drop_last()) == (DepositStage::Start, ctx.vault));
    }
}

/// A deposit with nothing in it is refused at its first step, and asks for
/// no call.
pub proof fn empty_deposit_is_refused(
    ctx: DepositAndAddLiquidity,
    tick_lower: i32,
    tick_upper: i32,
    policy: Policy,
    reply: Option<Reply>,
)
    requires
        !ctx.vault.is_active,
    ensures
        deposit_next(ctx, 0, DepositStage::Start, reply) == DepositStage::Failed(
            VaultError::InvalidAmount,
        ),
        deposit_pending(
            ctx,
            0,
            tick_lower,
            tick_upper,
            policy,
            deposit_next(ctx, 0, DepositStage::Start, reply),
        ) is None,
{
}

/// The swap of a deposit takes half of the amount, rounded down, out of the
/// deposited asset; the other half, and the odd unit if there is one, stay in
/// that asset.
pub proof fn deposit_swaps_half(
    ctx: DepositAndAddLiquidity,
    amount: u64,
    tick_lower: i32,
    tick_upper: i32,
    policy: Policy,
)
    ensures
        deposit_pending(ctx, amount, tick_lower, tick_upper, policy, DepositStage::Swapping)
            == Some(
            Call::Swap {
                whirlpool: ctx.whirlpool,
                amount: swap_share(amount),
                other_amount_threshold: policy.min_swap_output,
                a_to_b: deposits_a(ctx),
                signer: crate::call::signer_of(ctx.vault_key, ctx.vault),
            },
        ),
        swap_share(amount) == amount as int / 2,
        2 * swap_share(amount) <= amount < 2 * swap_share(amount) + 2,
        amount - swap_share(amount) == swap_share(amount) + amount as int % 2,
{
}

/// A deposit asks for the position to be opened only on hearing that the
/// swap has succeeded and finding the position without liquidity, so the
/// vault never opens a second position beside one that holds any.
pub proof fn position_opened_only_when_empty(
    ctx: DepositAndAddLiquidity,
    amount: u64,
    stage: DepositStage,
    reply: Option<Reply>,
)
    requires
        deposit_next(ctx, amount, stage, reply) is Opening,
    ensures
        (stage is Opening && reply is None) || (stage is Swapping && reply == Some(Reply::Success)
            && ctx.position.liquidity == 0),
{
}

/// A rebalance on a vault that is not active is refused at its first step,
/// whatever the caller reports then or later, and never asks for a call. It
/// cannot write the vault record either: it only reads it.
pub proof fn rebalance_refused_when_inactive(ctx: Rebalance, policy: Policy, events: Seq<Event>)
    requires
        !ctx.vault.is_active,
        events.len() > 0,
    ensures
        rebalance_run(ctx, events) == RebalanceStage::Failed(VaultError::NoActivePosition),
        rebalance_pending(ctx.refreshed(events.last().now), policy, rebalance_run(ctx, events))
            is None,
    decreases events.len(),
{
    if events.len() > 1 {
        rebalance_refused_when_inactive(ctx, policy, events.drop_last());
    } else {
        assert(rebalance_run(ctx, events.drop_last()) == RebalanceStage::Start);
    }
}

/// In a rebalance, taking the liquidity out is asked for only by the step
/// that hears that the fee collection has succeeded: a run that stands at
/// the removal has stood at the collection before, and got a success there.
pub proof fn removal_follows_fee_collection(ctx: Rebalance, events: Seq<Event>)
    requires
        rebalance_run(ctx, events) is Removing,
    ensures
        exists|i: int|
            0 < i < events.len() && #[trigger] rebalance_run(ctx, events.take(i)) is Collecting
                && events[i].reply == Some(Reply::Success),
    decreases events.len(),
{
    let n = events.len() as int;
    assert(n > 0);
    let front = events.drop_last();
    assert(front =~= events.take(n - 1));
    if rebalance_run(ctx, front) is Removing {
        removal_follows_fee_collection(ctx, front);
        let i = choose|i: int|
            0 < i < front.len() && #[trigger] rebalance_run(ctx, front.take(i)) is Collecting
                && front[i].reply == Some(Reply::Success);
        assert(front.take(i) =~= events.take(i));
        assert(rebalance_run(ctx, events.take(i)) is Collecting);
    } else {
        assert(rebalance_run(ctx, front) is Collecting);
        assert(n - 1 > 0) by {
            if n == 1 {
                assert(front.len() == 0);
            }
        }
        assert(rebalance_run(ctx, events.take(n - 1)) is Collecting);
    }
}

/// The calls of a rebalance, stage by stage: the fee collection is the call
/// of the collecting stage and of no other, and taking liquidity out is the
/// call of the removing stage and of no other.
pub proof fn rebalance_calls_by_stage(ctx: Rebalance, policy: Policy, stage: RebalanceStage)
    ensures
        rebalance_pending(ctx, policy, stage) is Some <==> stage is Collecting || stage is Removing
            || stage is Swapping || stage is Funding,
        stage is Collecting <==> rebalance_pending(ctx, policy, stage) == Some(
            fees_call(ctx.fees_accounts_spec()),
        ),
        stage is Removing <==> (rebalance_pending(ctx, policy, stage) matches Some(
            Call::DecreaseLiquidity { .. },
        )),
        stage is Removing ==> (rebalance_pending(ctx, policy, stage) matches Some(
            Call::DecreaseLiquidity { liquidity, .. },
        ) && liquidity == ctx.position.liquidity),
{
}

/// The stage that a withdrawal has reached after the given events, one step
/// for each, from `WithdrawStage::Start`.
pub open spec fn withdraw_run(ctx: Withdraw, events: Seq<Event>) -> WithdrawStage
    decreases events.len(),
{
    if events.len() == 0 {
        WithdrawStage::Start
    } else {
        withdraw_next(
            ctx.refreshed(events.last().now),
            withdraw_run(ctx, events.drop_last()),
            events.last().reply,
        )
    }
}

/// What a call moves out of the account it draws on, if it is a transfer.
pub open spec fn amount_paid(call: Option<Call>) -> int {
    match call {
        Some(Call::Transfer { amount, .. }) => amount as int,
        _ => 0,
    }
}

/// Whether the balances read after a payout was pending are those read
/// before, but for what the payout moved: a payout that succeeded has taken
/// its amount out of its reserve, and one that did not has taken nothing.
pub open spec fn payout_settled(
    ctx: Withdraw,
    policy: Policy,
    stage: WithdrawStage,
    before: Readings,
    reply: Option<Reply>,
    after: Readings,
) -> bool {
    let paid = if reply == Some(Reply::Success) {
        amount_paid(withdraw_pending(ctx.refreshed(before), policy, stage))
    } else {
        0
    };
    if stage is PayingA {
        after.reserve_a == before.reserve_a - paid && after.reserve_b == before.reserve_b
    } else if stage is PayingB {
        after.reserve_b == before.reserve_b - paid && after.reserve_a == before.reserve_a
    } else {
        true
    }
}

/// Whether, through a run of a withdrawal, nothing but its own payouts has
/// moved the reserves while a payout was pending: nobody has deposited into
/// them or drawn on them in between.
pub open spec fn reserves_undisturbed(ctx: Withdraw, policy: Policy, events: Seq<Event>) -> bool
    decreases events.len(),
{
    if events.len() <= 1 {
        true
    } else {
        let front = events.drop_last();
        &&& reserves_undisturbed(ctx, policy, front)
        &&& payout_settled(
            ctx,
            policy,
            withdraw_run(ctx, front),
            front.last().now,
            events.last().reply,
            events.last().now,
        )
    }
}

/// While a withdrawal waits for the payout of reserve B, reserve A is empty:
/// it was found empty, or it has been paid out in full.
pub proof fn reserve_a_is_empty_while_b_is_paid(ctx: Withdraw, policy: Policy, events: Seq<Event>)
    requires
        events.len() > 0,
        reserves_undisturbed(ctx, policy, events),
        withdraw_run(ctx, events) is PayingB,
    ensures
        events.last().now.reserve_a == 0,
    decreases events.len(),
{
    let front = events.drop_last();
    if events.len() == 1 {
        assert(withdraw_run(ctx, front) == WithdrawStage::Start);
    } else if withdraw_run(ctx, front) is PayingB {
        reserve_a_is_empty_while_b_is_paid(ctx, policy, front);
    }
}

/// A withdrawal leaves both reserves empty: in any run in which nothing but
/// its own payouts moves the reserves while a payout is pending, the step
/// that ends the withdrawal finds nothing in either reserve.
pub proof fn withdraw_empties_reserves(ctx: Withdraw, policy: Policy, events: Seq<Event>)
    requires
        events.len() > 0,
        reserves_undisturbed(ctx, policy, events),
        withdraw_run(ctx, events) is Done,
        !(withdraw_run(ctx, events.drop_last()) is Done),
    ensures
        events.last().now.reserve_a == 0,
        events.last().now.reserve_b == 0,
{
    let front = events.drop_last();
    if events.len() == 1 {
        assert(withdraw_run(ctx, front) == WithdrawStage::Start);
    } else if withdraw_run(ctx, front) is PayingB {
        reserve_a_is_empty_while_b_is_paid(ctx, policy, front);
    }
}

/// Every payout of a withdrawal moves the whole balance of its reserve, as
/// last read, to the user's account for that asset, on the vault's signature.
pub proof fn payout_moves_the_whole_reserve(ctx: Withdraw, policy: Policy)
    ensures
        withdraw_pending(ctx, policy, WithdrawStage::PayingA) == Some(
            Call::Transfer {
                from: ctx.vault_token_a.key,
                to: ctx.user_token_a.key,
                authority: ctx.vault_key,
                amount: ctx.vault_token_a.amount,
                delegate: Some(crate::call::signer_of(ctx.vault_key, ctx.vault)),
            },
        ),
        withdraw_pending(ctx, policy, WithdrawStage::PayingB) == Some(
            Call::Transfer {
                from: ctx.vault_token_b.key,
                to: ctx.user_token_b.key,
                authority: ctx.vault_key,
                amount: ctx.vault_token_b.amount,
                delegate: Some(crate::call::signer_of(ctx.vault_key, ctx.vault)),
            },
        ),
{
}

} // verus!
