use vault_manager::deposit::swap_amount;
use vault_manager::rebalance::excess_to_swap;
use vault_manager::{
    collect_fees, deposit_and_add_liquidity, initialize_vault, rebalance, withdraw, Call,
    CollectFees, DepositAndAddLiquidity, DepositStage, ExcessRule, FeesStage, InitializeVault,
    Policy, Position, Pubkey, Readings, Rebalance, RebalanceStage, Reply, TokenAccount, Vault,
    VaultError, VaultSigner, Withdraw, WithdrawStage,
};

const AUTHORITY: u8 = 1;
const POOL: u8 = 2;
const MINT_A: u8 = 3;
const MINT_B: u8 = 4;
const RESERVE_A: u8 = 5;
const RESERVE_B: u8 = 6;
const POSITION: u8 = 7;
const VAULT: u8 = 9;
const USER: u8 = 10;
const USER_A: u8 = 11;
const USER_B: u8 = 12;
const BUMP: u8 = 253;

fn key(n: u8) -> Pubkey {
    Pubkey::new_from_array([n; 32])
}

fn account(id: u8, mint: u8, owner: u8, amount: u64) -> TokenAccount {
    TokenAccount { key: key(id), mint: key(mint), owner: key(owner), amount }
}

fn vault(is_active: bool) -> Vault {
    Vault {
        authority: key(AUTHORITY),
        whirlpool: key(POOL),
        token_a_mint: key(MINT_A),
        token_b_mint: key(MINT_B),
        vault_token_a: key(RESERVE_A),
        vault_token_b: key(RESERVE_B),
        position: key(POSITION),
        bump: BUMP,
        is_active,
    }
}

fn signer() -> VaultSigner {
    VaultSigner { vault: key(VAULT), origin: key(POOL), bump: BUMP }
}

fn init_accounts() -> InitializeVault {
    InitializeVault {
        vault_key: key(VAULT),
        vault: None,
        whirlpool: key(POOL),
        token_a_mint: key(MINT_A),
        token_b_mint: key(MINT_B),
        vault_token_a: account(RESERVE_A, MINT_A, VAULT, 0),
        vault_token_b: account(RESERVE_B, MINT_B, VAULT, 0),
        position: Position { key: key(POSITION), liquidity: 0 },
        authority: key(AUTHORITY),
    }
}

fn deposit_accounts(is_active: bool, source_mint: u8, a: u64, b: u64, liquidity: u128) -> DepositAndAddLiquidity {
    DepositAndAddLiquidity {
        vault_key: key(VAULT),
        vault: vault(is_active),
        user: key(USER),
        user_token_account: account(USER_A, source_mint, USER, 1_000),
        vault_token_a: account(RESERVE_A, MINT_A, VAULT, a),
        vault_token_b: account(RESERVE_B, MINT_B, VAULT, b),
        whirlpool: key(POOL),
        position: Position { key: key(POSITION), liquidity },
    }
}

fn rebalance_accounts(is_active: bool, a: u64, b: u64, liquidity: u128) -> Rebalance {
    Rebalance {
        vault_key: key(VAULT),
        vault: vault(is_active),
        whirlpool: key(POOL),
        position: Position { key: key(POSITION), liquidity },
        vault_token_a: account(RESERVE_A, MINT_A, VAULT, a),
        vault_token_b: account(RESERVE_B, MINT_B, VAULT, b),
    }
}

fn withdraw_accounts(is_active: bool, a: u64, b: u64, liquidity: u128) -> Withdraw {
    Withdraw {
        vault_key: key(VAULT),
        vault: vault(is_active),
        user: key(USER),
        whirlpool: key(POOL),
        position: Position { key: key(POSITION), liquidity },
        vault_token_a: account(RESERVE_A, MINT_A, VAULT, a),
        vault_token_b: account(RESERVE_B, MINT_B, VAULT, b),
        user_token_a: account(USER_A, MINT_A, USER, 0),
        user_token_b: account(USER_B, MINT_B, USER, 0),
    }
}

fn fees_accounts(is_active: bool) -> CollectFees {
    CollectFees {
        vault_key: key(VAULT),
        vault: vault(is_active),
        whirlpool: key(POOL),
        position: Position { key: key(POSITION), liquidity: 0 },
        vault_token_a: account(RESERVE_A, MINT_A, VAULT, 0),
        vault_token_b: account(RESERVE_B, MINT_B, VAULT, 0),
    }
}

fn tight() -> Policy {
    Policy { excess_rule: ExcessRule::HalfImbalance, min_swap_output: 11, min_token_a: 22, min_token_b: 33 }
}

// ---- initialize ----

#[test]
fn initialize_writes_an_inactive_vault() {
    let mut ctx = init_accounts();
    assert_eq!(initialize_vault(&mut ctx, BUMP), Ok(()));
    assert_eq!(ctx.vault, Some(vault(false)));
    assert!(!ctx.vault.unwrap().is_active);
    let mut expected = init_accounts();
    expected.vault = Some(vault(false));
    assert_eq!(ctx, expected);
}

#[test]
fn initialize_refuses_an_existing_vault() {
    let mut ctx = init_accounts();
    ctx.vault = Some(vault(true));
    let before = ctx;
    assert_eq!(initialize_vault(&mut ctx, 1), Err(VaultError::AlreadyInitialized));
    assert_eq!(ctx, before);
}

#[test]
fn initialize_refuses_a_reserve_of_the_wrong_asset() {
    let mut ctx = init_accounts();
    ctx.vault_token_a.mint = key(MINT_B);
    let before = ctx;
    assert_eq!(initialize_vault(&mut ctx, BUMP), Err(VaultError::MintMismatch));
    assert_eq!(ctx, before);

    let mut ctx = init_accounts();
    ctx.vault_token_b.mint = key(99);
    assert_eq!(initialize_vault(&mut ctx, BUMP), Err(VaultError::MintMismatch));
    assert_eq!(ctx.vault, None);
}

#[test]
fn initialize_reports_an_existing_vault_before_a_wrong_asset() {
    let mut ctx = init_accounts();
    ctx.vault = Some(vault(false));
    ctx.vault_token_a.mint = key(MINT_B);
    assert_eq!(initialize_vault(&mut ctx, BUMP), Err(VaultError::AlreadyInitialized));
}

// ---- deposit ----

#[test]
fn swap_amount_is_half_rounded_down() {
    assert_eq!(swap_amount(0), 0);
    assert_eq!(swap_amount(1), 0);
    assert_eq!(swap_amount(2), 1);
    assert_eq!(swap_amount(3), 1);
    assert_eq!(swap_amount(100), 50);
    assert_eq!(swap_amount(101), 50);
    assert_eq!(swap_amount(100_000_000), 50_000_000);
    assert_eq!(swap_amount(u64::MAX), 9_223_372_036_854_775_807);
}

#[test]
fn deposit_starts_with_the_transfer_of_the_whole_amount() {
    let mut ctx = deposit_accounts(false, MINT_A, 0, 0, 0);
    let before = ctx;
    let (stage, call) =
        deposit_and_add_liquidity(&mut ctx, 100, -1000, 1000, &Policy::literal(), DepositStage::Start, None);
    assert_eq!(stage, DepositStage::Transferring);
    assert_eq!(
        call,
        Some(Call::Transfer { from: key(USER_A), to: key(RESERVE_A), authority: key(USER), amount: 100, delegate: None })
    );
    assert_eq!(ctx, before);
}

#[test]
fn deposit_of_asset_b_goes_to_reserve_b_and_swaps_b_to_a() {
    let mut ctx = deposit_accounts(false, MINT_B, 0, 0, 0);
    let policy = Policy::literal();
    let (stage, call) = deposit_and_add_liquidity(&mut ctx, 7, -10, 10, &policy, DepositStage::Start, None);
    assert_eq!(stage, DepositStage::Transferring);
    assert_eq!(
        call,
        Some(Call::Transfer { from: key(USER_A), to: key(RESERVE_B), authority: key(USER), amount: 7, delegate: None })
    );
    let (stage, call) =
        deposit_and_add_liquidity(&mut ctx, 7, -10, 10, &policy, stage, Some(Reply::Success));
    assert_eq!(stage, DepositStage::Swapping);
    assert_eq!(
        call,
        Some(Call::Swap { whirlpool: key(POOL), amount: 3, other_amount_threshold: 0, a_to_b: false, signer: signer() })
    );
}

#[test]
fn deposit_swaps_half_of_asset_a_with_no_floor() {
    let mut ctx = deposit_accounts(false, MINT_A, 101, 0, 0);
    let (stage, call) = deposit_and_add_liquidity(
        &mut ctx,
        101,
        -1000,
        1000,
        &Policy::literal(),
        DepositStage::Transferring,
        Some(Reply::Success),
    );
    assert_eq!(stage, DepositStage::Swapping);
    assert_eq!(
        call,
        Some(Call::Swap { whirlpool: key(POOL), amount: 50, other_amount_threshold: 0, a_to_b: true, signer: signer() })
    );
}

#[test]
fn deposit_opens_the_position_when_it_is_empty() {
    let mut ctx = deposit_accounts(false, MINT_A, 50, 50, 0);
    let (stage, call) = deposit_and_add_liquidity(
        &mut ctx,
        100,
        -1000,
        1000,
        &Policy::literal(),
        DepositStage::Swapping,
        Some(Reply::Success),
    );
    assert_eq!(stage, DepositStage::Opening);
    assert_eq!(
        call,
        Some(Call::OpenPosition {
            whirlpool: key(POOL),
            position: key(POSITION),
            tick_lower: -1000,
            tick_upper: 1000,
            signer: signer(),
        })
    );
}

#[test]
fn deposit_skips_opening_when_the_position_holds_liquidity() {
    let mut ctx = deposit_accounts(false, MINT_A, 50, 48, 1);
    let (stage, call) = deposit_and_add_liquidity(
        &mut ctx,
        100,
        -1000,
        1000,
        &Policy::literal(),
        DepositStage::Swapping,
        Some(Reply::Success),
    );
    assert_eq!(stage, DepositStage::Funding);
    assert_eq!(
        call,
        Some(Call::IncreaseLiquidity {
            position: key(POSITION),
            amount_a_max: 48,
            amount_b_max: 48,
            min_a: 0,
            min_b: 0,
            signer: signer(),
        })
    );
}

#[test]
fn deposit_funds_with_the_smaller_reserve_on_both_sides() {
    let mut ctx = deposit_accounts(false, MINT_A, 51, 47, 0);
    let (stage, call) = deposit_and_add_liquidity(
        &mut ctx,
        101,
        -1000,
        1000,
        &Policy::literal(),
        DepositStage::Opening,
        Some(Reply::Success),
    );
    assert_eq!(stage, DepositStage::Funding);
    assert_eq!(
        call,
        Some(Call::IncreaseLiquidity {
            position: key(POSITION),
            amount_a_max: 47,
            amount_b_max: 47,
            min_a: 0,
            min_b: 0,
            signer: signer(),
        })
    );
    assert!(!ctx.vault.is_active);
}

#[test]
fn deposit_marks_the_vault_active_when_funding_succeeds() {
    let mut ctx = deposit_accounts(false, MINT_A, 4, 0, 47);
    let (stage, call) = deposit_and_add_liquidity(
        &mut ctx,
        101,
        -1000,
        1000,
        &Policy::literal(),
        DepositStage::Funding,
        Some(Reply::Success),
    );
    assert_eq!(stage, DepositStage::Done);
    assert_eq!(call, None);
    assert_eq!(ctx, deposit_accounts(true, MINT_A, 4, 0, 47));
}

#[test]
fn deposit_hands_the_policy_floors_to_the_pool() {
    let mut ctx = deposit_accounts(false, MINT_A, 60, 40, 5);
    let policy = tight();
    let (_, call) =
        deposit_and_add_liquidity(&mut ctx, 100, 0, 1, &policy, DepositStage::Transferring, Some(Reply::Success));
    assert_eq!(
        call,
        Some(Call::Swap { whirlpool: key(POOL), amount: 50, other_amount_threshold: 11, a_to_b: true, signer: signer() })
    );
    let (_, call) =
        deposit_and_add_liquidity(&mut ctx, 100, 0, 1, &policy, DepositStage::Opening, Some(Reply::Success));
    assert_eq!(
        call,
        Some(Call::IncreaseLiquidity {
            position: key(POSITION),
            amount_a_max: 40,
            amount_b_max: 40,
            min_a: 22,
            min_b: 33,
            signer: signer(),
        })
    );
}

#[test]
fn deposit_on_an_active_vault_is_refused() {
    let mut ctx = deposit_accounts(true, MINT_A, 10, 10, 10);
    let before = ctx;
    let (stage, call) =
        deposit_and_add_liquidity(&mut ctx, 100, -1000, 1000, &Policy::literal(), DepositStage::Start, None);
    assert_eq!(stage, DepositStage::Failed(VaultError::PositionActive));
    assert_eq!(call, None);
    assert_eq!(ctx, before);
}

#[test]
fn deposit_of_nothing_is_refused() {
    let mut ctx = deposit_accounts(false, MINT_A, 0, 0, 0);
    let before = ctx;
    let (stage, call) =
        deposit_and_add_liquidity(&mut ctx, 0, -1000, 1000, &Policy::literal(), DepositStage::Start, None);
    assert_eq!(stage, DepositStage::Failed(VaultError::InvalidAmount));
    assert_eq!(call, None);
    assert_eq!(ctx, before);
}

#[test]
fn deposit_on_an_active_vault_is_refused_before_the_amount_is_looked_at() {
    let mut ctx = deposit_accounts(true, MINT_A, 0, 0, 0);
    let (stage, _) =
        deposit_and_add_liquidity(&mut ctx, 0, -1000, 1000, &Policy::literal(), DepositStage::Start, None);
    assert_eq!(stage, DepositStage::Failed(VaultError::PositionActive));
}

#[test]
fn deposit_aborts_on_a_failed_call_at_any_stage() {
    let stages = [DepositStage::Transferring, DepositStage::Swapping, DepositStage::Opening, DepositStage::Funding];
    for (i, from) in stages.iter().enumerate() {
        let mut ctx = deposit_accounts(false, MINT_A, 50, 50, 0);
        let before = ctx;
        let code = 6000 + i as u64;
        let (stage, call) = deposit_and_add_liquidity(
            &mut ctx,
            100,
            -1000,
            1000,
            &Policy::literal(),
            *from,
            Some(Reply::Failure(code)),
        );
        assert_eq!(stage, DepositStage::Failed(VaultError::CallFailed(code)));
        assert_eq!(call, None);
        assert_eq!(ctx, before);
    }
}

#[test]
fn deposit_without_a_reply_asks_for_the_same_call_again() {
    let mut ctx = deposit_accounts(false, MINT_A, 100, 0, 0);
    let policy = Policy::literal();
    let (stage, first) = deposit_and_add_liquidity(
        &mut ctx,
        100,
        -1000,
        1000,
        &policy,
        DepositStage::Transferring,
        Some(Reply::Success),
    );
    let (again, second) = deposit_and_add_liquidity(&mut ctx, 100, -1000, 1000, &policy, stage, None);
    assert_eq!(again, DepositStage::Swapping);
    assert_eq!(second, first);
}

#[test]
fn finished_deposit_stays_finished() {
    let mut ctx = deposit_accounts(true, MINT_A, 0, 0, 50);
    let before = ctx;
    let policy = Policy::literal();
    for reply in [None, Some(Reply::Success), Some(Reply::Failure(3))] {
        let (stage, call) =
            deposit_and_add_liquidity(&mut ctx, 100, -1000, 1000, &policy, DepositStage::Done, reply);
        assert_eq!(stage, DepositStage::Done);
        assert_eq!(call, None);
        let failed = DepositStage::Failed(VaultError::InvalidAmount);
        let (stage, call) = deposit_and_add_liquidity(&mut ctx, 100, -1000, 1000, &policy, failed, reply);
        assert_eq!(stage, failed);
        assert_eq!(call, None);
    }
    assert_eq!(ctx, before);
}

// ---- collect fees ----

#[test]
fn collect_fees_is_one_call_signed_by_the_vault() {
    let ctx = fees_accounts(true);
    let (stage, call) = collect_fees(&ctx, FeesStage::Start, None);
    assert_eq!(stage, FeesStage::Collecting);
    assert_eq!(call, Some(Call::CollectFees { position: key(POSITION), signer: signer() }));
    let (stage, call) = collect_fees(&ctx, stage, Some(Reply::Success));
    assert_eq!(stage, FeesStage::Done);
    assert_eq!(call, None);
}

#[test]
fn collect_fees_runs_on_an_inactive_vault_too() {
    let ctx = fees_accounts(false);
    let (stage, call) = collect_fees(&ctx, FeesStage::Start, None);
    assert_eq!(stage, FeesStage::Collecting);
    assert_eq!(call, Some(Call::CollectFees { position: key(POSITION), signer: signer() }));
}

#[test]
fn collect_fees_hands_on_the_failure_code() {
    let ctx = fees_accounts(true);
    let (stage, call) = collect_fees(&ctx, FeesStage::Collecting, Some(Reply::Failure(42)));
    assert_eq!(stage, FeesStage::Failed(VaultError::CallFailed(42)));
    assert_eq!(call, None);
    let (stage, call) = collect_fees(&ctx, stage, Some(Reply::Success));
    assert_eq!(stage, FeesStage::Failed(VaultError::CallFailed(42)));
    assert_eq!(call, None);
    let (stage, call) = collect_fees(&ctx, FeesStage::Collecting, None);
    assert_eq!(stage, FeesStage::Collecting);
    assert_eq!(call, Some(Call::CollectFees { position: key(POSITION), signer: signer() }));
    assert_eq!(collect_fees(&ctx, FeesStage::Done, None), (FeesStage::Done, None));
}

// ---- rebalance ----

#[test]
fn excess_under_the_literal_rule_is_always_zero() {
    assert_eq!(excess_to_swap(ExcessRule::Literal, 0, 0), 0);
    assert_eq!(excess_to_swap(ExcessRule::Literal, 100, 40), 0);
    assert_eq!(excess_to_swap(ExcessRule::Literal, 40, 100), 0);
    assert_eq!(excess_to_swap(ExcessRule::Literal, u64::MAX, 0), 0);
    assert_eq!(excess_to_swap(ExcessRule::Literal, 0, u64::MAX), 0);
}

#[test]
fn excess_under_the_other_rule_is_half_the_imbalance() {
    assert_eq!(excess_to_swap(ExcessRule::HalfImbalance, 100, 40), 30);
    assert_eq!(excess_to_swap(ExcessRule::HalfImbalance, 40, 100), 30);
    assert_eq!(excess_to_swap(ExcessRule::HalfImbalance, 41, 100), 29);
    assert_eq!(excess_to_swap(ExcessRule::HalfImbalance, 7, 7), 0);
    assert_eq!(excess_to_swap(ExcessRule::HalfImbalance, u64::MAX, 0), 9_223_372_036_854_775_807);
}

#[test]
fn rebalance_on_an_inactive_vault_is_refused() {
    let ctx = rebalance_accounts(false, 10, 20, 30);
    let before = ctx;
    let (stage, call) = rebalance(&ctx, 500, 1500, &Policy::literal(), RebalanceStage::Start, None);
    assert_eq!(stage, RebalanceStage::Failed(VaultError::NoActivePosition));
    assert_eq!(call, None);
    assert_eq!(ctx, before);
    let (stage, call) = rebalance(&ctx, 500, 1500, &Policy::literal(), stage, Some(Reply::Success));
    assert_eq!(stage, RebalanceStage::Failed(VaultError::NoActivePosition));
    assert_eq!(call, None);
}

#[test]
fn rebalance_collects_fees_first() {
    let ctx = rebalance_accounts(true, 10, 20, 30);
    let (stage, call) = rebalance(&ctx, 500, 1500, &Policy::literal(), RebalanceStage::Start, None);
    assert_eq!(stage, RebalanceStage::Collecting);
    assert_eq!(call, Some(Call::CollectFees { position: key(POSITION), signer: signer() }));
}

#[test]
fn rebalance_removes_all_liquidity_after_the_fees() {
    let ctx = rebalance_accounts(true, 10, 20, 123_456_789_012_345_678_901_234_567_890);
    let (stage, call) =
        rebalance(&ctx, 500, 1500, &Policy::literal(), RebalanceStage::Collecting, Some(Reply::Success));
    assert_eq!(stage, RebalanceStage::Removing);
    assert_eq!(
        call,
        Some(Call::DecreaseLiquidity {
            position: key(POSITION),
            liquidity: 123_456_789_012_345_678_901_234_567_890,
            min_a: 0,
            min_b: 0,
            signer: signer(),
        })
    );
}

#[test]
fn rebalance_swaps_out_of_the_larger_reserve() {
    let literal = Policy::literal();
    let ctx = rebalance_accounts(true, 100, 40, 0);
    let (stage, call) = rebalance(&ctx, 500, 1500, &literal, RebalanceStage::Removing, Some(Reply::Success));
    assert_eq!(stage, RebalanceStage::Swapping);
    assert_eq!(
        call,
        Some(Call::Swap { whirlpool: key(POOL), amount: 0, other_amount_threshold: 0, a_to_b: true, signer: signer() })
    );
    let ctx = rebalance_accounts(true, 40, 100, 0);
    let (stage, call) = rebalance(&ctx, 500, 1500, &literal, RebalanceStage::Removing, Some(Reply::Success));
    assert_eq!(stage, RebalanceStage::Swapping);
    assert_eq!(
        call,
        Some(Call::Swap { whirlpool: key(POOL), amount: 0, other_amount_threshold: 0, a_to_b: false, signer: signer() })
    );
    let (stage, call) = rebalance(&ctx, 500, 1500, &tight(), RebalanceStage::Removing, Some(Reply::Success));
    assert_eq!(stage, RebalanceStage::Swapping);
    assert_eq!(
        call,
        Some(Call::Swap { whirlpool: key(POOL), amount: 30, other_amount_threshold: 11, a_to_b: false, signer: signer() })
    );
}

#[test]
fn rebalance_makes_no_swap_when_the_reserves_are_even() {
    let ctx = rebalance_accounts(true, 70, 70, 0);
    let (stage, call) =
        rebalance(&ctx, 500, 1500, &Policy::literal(), RebalanceStage::Removing, Some(Reply::Success));
    assert_eq!(stage, RebalanceStage::Funding);
    assert_eq!(
        call,
        Some(Call::IncreaseLiquidity {
            position: key(POSITION),
            amount_a_max: 70,
            amount_b_max: 70,
            min_a: 0,
            min_b: 0,
            signer: signer(),
        })
    );
}

#[test]
fn rebalance_funds_again_after_the_swap_and_ends() {
    let ctx = rebalance_accounts(true, 69, 71, 0);
    let (stage, call) = rebalance(&ctx, 500, 1500, &tight(), RebalanceStage::Swapping, Some(Reply::Success));
    assert_eq!(stage, RebalanceStage::Funding);
    assert_eq!(
        call,
        Some(Call::IncreaseLiquidity {
            position: key(POSITION),
            amount_a_max: 69,
            amount_b_max: 69,
            min_a: 22,
            min_b: 33,
            signer: signer(),
        })
    );
    let (stage, call) = rebalance(&ctx, 500, 1500, &tight(), stage, Some(Reply::Success));
    assert_eq!(stage, RebalanceStage::Done);
    assert_eq!(call, None);
    assert!(ctx.vault.is_active);
}

#[test]
fn rebalance_does_not_read_the_tick_bounds() {
    let ctx = rebalance_accounts(true, 100, 40, 9);
    let policy = tight();
    for stage in [
        RebalanceStage::Start,
        RebalanceStage::Collecting,
        RebalanceStage::Removing,
        RebalanceStage::Swapping,
        RebalanceStage::Funding,
    ] {
        assert_eq!(
            rebalance(&ctx, 500, 1500, &policy, stage, Some(Reply::Success)),
            rebalance(&ctx, -443_636, 443_636, &policy, stage, Some(Reply::Success))
        );
    }
}

#[test]
fn rebalance_aborts_on_a_failed_call_at_any_stage() {
    let ctx = rebalance_accounts(true, 100, 40, 9);
    for stage in
        [RebalanceStage::Collecting, RebalanceStage::Removing, RebalanceStage::Swapping, RebalanceStage::Funding]
    {
        let (next, call) = rebalance(&ctx, 500, 1500, &Policy::literal(), stage, Some(Reply::Failure(6001)));
        assert_eq!(next, RebalanceStage::Failed(VaultError::CallFailed(6001)));
        assert_eq!(call, None);
        let (same, call) = rebalance(&ctx, 500, 1500, &Policy::literal(), stage, None);
        assert_eq!(same, stage);
        assert!(call.is_some());
    }
    assert_eq!(
        rebalance(&ctx, 500, 1500, &Policy::literal(), RebalanceStage::Done, Some(Reply::Failure(1))),
        (RebalanceStage::Done, None)
    );
}

// ---- withdraw ----

#[test]
fn withdraw_has_no_precondition_and_collects_fees_first() {
    for is_active in [false, true] {
        let ctx = withdraw_accounts(is_active, 5, 6, 7);
        let (stage, call) = withdraw(&ctx, &Policy::literal(), WithdrawStage::Start, None);
        assert_eq!(stage, WithdrawStage::Collecting);
        assert_eq!(call, Some(Call::CollectFees { position: key(POSITION), signer: signer() }));
    }
}

#[test]
fn withdraw_removes_liquidity_only_if_there_is_any() {
    let ctx = withdraw_accounts(true, 5, 6, 7);
    let (stage, call) = withdraw(&ctx, &tight(), WithdrawStage::Collecting, Some(Reply::Success));
    assert_eq!(stage, WithdrawStage::Removing);
    assert_eq!(
        call,
        Some(Call::DecreaseLiquidity { position: key(POSITION), liquidity: 7, min_a: 22, min_b: 33, signer: signer() })
    );
    let ctx = withdraw_accounts(true, 5, 6, 0);
    let (stage, call) = withdraw(&ctx, &tight(), WithdrawStage::Collecting, Some(Reply::Success));
    assert_eq!(stage, WithdrawStage::PayingA);
    assert_eq!(
        call,
        Some(Call::Transfer {
            from: key(RESERVE_A),
            to: key(USER_A),
            authority: key(VAULT),
            amount: 5,
            delegate: Some(signer()),
        })
    );
}

#[test]
fn withdraw_pays_the_whole_of_each_reserve() {
    let ctx = withdraw_accounts(true, 500, 600, 0);
    let (stage, call) = withdraw(&ctx, &Policy::literal(), WithdrawStage::Removing, Some(Reply::Success));
    assert_eq!(stage, WithdrawStage::PayingA);
    assert_eq!(
        call,
        Some(Call::Transfer {
            from: key(RESERVE_A),
            to: key(USER_A),
            authority: key(VAULT),
            amount: 500,
            delegate: Some(signer()),
        })
    );
    let ctx = withdraw_accounts(true, 0, 600, 0);
    let (stage, call) = withdraw(&ctx, &Policy::literal(), stage, Some(Reply::Success));
    assert_eq!(stage, WithdrawStage::PayingB);
    assert_eq!(
        call,
        Some(Call::Transfer {
            from: key(RESERVE_B),
            to: key(USER_B),
            authority: key(VAULT),
            amount: 600,
            delegate: Some(signer()),
        })
    );
    let ctx = withdraw_accounts(true, 0, 0, 0);
    let (stage, call) = withdraw(&ctx, &Policy::literal(), stage, Some(Reply::Success));
    assert_eq!(stage, WithdrawStage::Done);
    assert_eq!(call, None);
    assert!(ctx.vault.is_active);
}

#[test]
fn withdraw_skips_the_payout_of_an_empty_reserve() {
    let ctx = withdraw_accounts(true, 0, 600, 0);
    let (stage, call) = withdraw(&ctx, &Policy::literal(), WithdrawStage::Removing, Some(Reply::Success));
    assert_eq!(stage, WithdrawStage::PayingB);
    assert!(matches!(call, Some(Call::Transfer { amount: 600, .. })));

    let ctx = withdraw_accounts(true, 0, 0, 0);
    assert_eq!(
        withdraw(&ctx, &Policy::literal(), WithdrawStage::Removing, Some(Reply::Success)),
        (WithdrawStage::Done, None)
    );
    assert_eq!(
        withdraw(&ctx, &Policy::literal(), WithdrawStage::Collecting, Some(Reply::Success)),
        (WithdrawStage::Done, None)
    );
    assert_eq!(
        withdraw(&ctx, &Policy::literal(), WithdrawStage::PayingA, Some(Reply::Success)),
        (WithdrawStage::Done, None)
    );
}

#[test]
fn withdraw_aborts_on_a_failed_call_at_any_stage() {
    let ctx = withdraw_accounts(true, 5, 6, 7);
    for stage in
        [WithdrawStage::Collecting, WithdrawStage::Removing, WithdrawStage::PayingA, WithdrawStage::PayingB]
    {
        let (next, call) = withdraw(&ctx, &Policy::literal(), stage, Some(Reply::Failure(1)));
        assert_eq!(next, WithdrawStage::Failed(VaultError::CallFailed(1)));
        assert_eq!(call, None);
        let (same, call) = withdraw(&ctx, &Policy::literal(), stage, None);
        assert_eq!(same, stage);
        assert!(call.is_some());
    }
    let failed = WithdrawStage::Failed(VaultError::CallFailed(1));
    assert_eq!(withdraw(&ctx, &Policy::literal(), failed, Some(Reply::Success)), (failed, None));
}

// ---- refreshing ----

#[test]
fn refresh_replaces_the_balances_and_nothing_else() {
    let now = Readings { reserve_a: 11, reserve_b: 22, liquidity: 33 };
    let mut d = deposit_accounts(false, MINT_A, 1, 2, 3);
    d.refresh(&now);
    assert_eq!(d, deposit_accounts(false, MINT_A, 11, 22, 33));
    assert_eq!(d.readings(), now);
    let mut r = rebalance_accounts(true, 1, 2, 3);
    r.refresh(&now);
    assert_eq!(r, rebalance_accounts(true, 11, 22, 33));
    assert_eq!(r.readings(), now);
    let mut w = withdraw_accounts(true, 1, 2, 3);
    w.refresh(&now);
    assert_eq!(w, withdraw_accounts(true, 11, 22, 33));
    assert_eq!(w.readings(), now);
    let mut f = fees_accounts(true);
    f.refresh(&now);
    assert_eq!(f.readings(), now);
    assert_eq!(f.vault, vault(true));
    assert_eq!(r.fees_accounts(), f);
    assert_eq!(w.fees_accounts(), f);
}
