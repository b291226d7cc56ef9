use gift_for_dragons::liquidity_liquidity::{
    after_liquidity_attempt, observe_liquidity_reply, plan_reply, AttemptAction, LiquidityPool,
    ReplyPlan, Side, StepKind,
};
use gift_for_dragons::liquidity_pools::{
    pools_fetch_failed, select_pool_quantities, Pool, PoolToken, PoolsError,
};
use gift_for_dragons::matching::{contains_literal, first_captures, group_text, text_matches};
use gift_for_dragons::stake_proton_commands::{
    all_balances_zero, count_retry, staking_error_is_overdrawn,
};
use gift_for_dragons::transfer_balance::{parse_account_tokens, retry_balance_query, Balances};
use gift_for_dragons::transfer_proton_commands::{
    after_deposit_prep, after_ram_purchase, excess_transfer_step, DepositPrepAction, ExcessStep,
};
use gift_for_dragons::withdrawall_main::{withdraw_step, WithdrawStep};

fn steps(plan: &ReplyPlan) -> Vec<(StepKind, String)> {
    plan.steps.iter().map(|s| (s.kind, s.amount.clone())).collect()
}

#[test]
fn regex_matching_on_output() {
    assert!(text_matches("Token 1 amount too low", "Error: Token 1 amount too low!"));
    assert!(!text_matches("Token 1 amount too low", "Token 2 amount too low"));
    assert!(contains_literal("xx has insufficient ram yy", "has insufficient ram"));
    assert!(!text_matches("foo(", "foo("));
    let caps = first_captures(r"Expected: (\d+(?:\.\d+)?)", "Expected: 12345 and Expected: 9").unwrap();
    assert_eq!(group_text(&caps, 1), Some("12345".to_string()));
    assert_eq!(group_text(&caps, 0), Some("Expected: 12345".to_string()));
    assert_eq!(group_text(&caps, 5), None);
}

#[test]
fn account_tokens_are_parsed() {
    let out = "Tokens:\n12.3456 XPR - eosio.token\n0.00000000 SNIPSXP - proton.swaps\r\n3.000000 XUSDC - xtokens\n1.0000 XPR - eosio.token\n";
    let b = parse_account_tokens(out);
    assert_eq!(b.amount_or("XPR", "0.0000"), "1.0000");
    assert_eq!(b.amount_or("SNIPSXP", "x"), "0.00000000");
    assert_eq!(b.amount_or("XUSDC", "0.000000"), "3.000000");
    assert_eq!(b.amount_or("SNIPS", "0.0000"), "0.0000");
    assert_eq!(b.to_pairs().len(), 3);
    assert!(!all_balances_zero(&b));
}

#[test]
fn balances_insert_replaces() {
    let mut b = Balances::new();
    assert!(all_balances_zero(&b));
    b.insert("SNIPSXP".to_string(), "0.00000000".to_string());
    b.insert("XPRUSDC".to_string(), "0.00000000".to_string());
    assert!(all_balances_zero(&b));
    b.insert("XPRUSDC".to_string(), "2.50000000".to_string());
    assert_eq!(b.amount_or("XPRUSDC", ""), "2.50000000");
    assert!(!all_balances_zero(&b));
    assert_eq!(b.to_pairs().len(), 2);
}

#[test]
fn balance_query_retries() {
    assert!(retry_balance_query("AbortError: The user aborted a request", 0));
    assert!(retry_balance_query("x Failed to get balance for account y", 4));
    assert!(!retry_balance_query("x Failed to get balance for account y", 5));
    assert!(!retry_balance_query("some other error", 0));
}

fn pool(sym: &str, q1: &str, q2: &str) -> Pool {
    Pool {
        lt_symbol: sym.to_string(),
        pool1: PoolToken { quantity: q1.to_string() },
        pool2: PoolToken { quantity: q2.to_string() },
    }
}

#[test]
fn pool_quantities_are_selected() {
    let rows = vec![
        pool("8,OTHER", "1 A", "2 B"),
        pool("8,SNIPSXP", "1000.0000 SNIPS", "10.0000 XPR"),
        pool("8,XPRUSDC", "500.0000 XPR", "2.000000 XUSDC"),
        pool("8,SNIPSXP", "1.0000 SNIPS", "1.0000 XPR"),
    ];
    let q = select_pool_quantities(&rows).unwrap();
    assert_eq!(q.snips, "1000.0000");
    assert_eq!(q.xpr, "10.0000");
    assert_eq!(q.xusdc, "2.000000");
    assert_eq!(q.xpr_for_xusdc, "500.0000");
    let blank = vec![pool("8,SNIPSXP", "", " "), pool("8,XPRUSDC", "", "")];
    let q = select_pool_quantities(&blank).unwrap();
    assert_eq!(q.snips, "0.0000");
    assert_eq!(q.xusdc, "0.000000");
}

#[test]
fn missing_pools_are_errors() {
    let only_snips = vec![pool("8,SNIPSXP", "1 SNIPS", "1 XPR")];
    let e = select_pool_quantities(&only_snips).err().unwrap();
    assert_eq!(e, PoolsError::XprUsdcPoolNotFound);
    assert_eq!(e.message(), "XPRUSDC pool not found");
    let only_usdc = vec![pool("8,XPRUSDC", "1 XPR", "1 XUSDC")];
    let e = select_pool_quantities(&only_usdc).err().unwrap();
    assert_eq!(e, PoolsError::SnipsXpPoolNotFound);
    assert_eq!(e.message(), "SNIPSXP pool not found");
    assert_eq!(select_pool_quantities(&vec![]).err(), Some(PoolsError::XprUsdcPoolNotFound));
}

#[test]
fn pool_fetch_gives_up_at_five() {
    assert_eq!(pools_fetch_failed(0), (1, false));
    assert_eq!(pools_fetch_failed(3), (4, false));
    assert_eq!(pools_fetch_failed(4), (5, true));
}

#[test]
fn token1_low_reply_pins_expected_amount() {
    let obs = observe_liquidity_reply("Error: Token 1 amount too low. Expected: 123456");
    assert!(obs.token1_low && !obs.token2_low);
    let plan = plan_reply(LiquidityPool::SnipsXpr, &obs);
    assert_eq!(steps(&plan), vec![(StepKind::PinExpected(Side::First), "12.3456".to_string())]);
    assert!(plan.updated && !plan.accepted);
}

#[test]
fn token2_low_reply_uses_six_decimals_for_xusdc() {
    let obs = observe_liquidity_reply("Token 2 expected amount lower than minimum Expected: 1234567");
    let plan = plan_reply(LiquidityPool::XprXusdc, &obs);
    assert_eq!(steps(&plan), vec![(StepKind::PinExpected(Side::Second), "1.234567".to_string())]);
    let plan = plan_reply(LiquidityPool::SnipsXpr, &obs);
    assert_eq!(steps(&plan), vec![(StepKind::PinExpected(Side::Second), "123.4567".to_string())]);
}

#[test]
fn overdrawn_reply_pins_balance() {
    let reply = "assertion failure with message: Balance overdrawn. Need 10.0000 XPR but balance is 5.5000 for symbol XPR contract eosio";
    let obs = observe_liquidity_reply(reply);
    let plan = plan_reply(LiquidityPool::SnipsXpr, &obs);
    assert_eq!(steps(&plan), vec![(StepKind::PinBalance(Side::Second), "5.5000".to_string())]);
    let plan = plan_reply(LiquidityPool::XprXusdc, &obs);
    assert_eq!(steps(&plan), vec![(StepKind::PinBalance(Side::First), "5.5000".to_string())]);
    assert!(plan.updated && !plan.accepted);
}

#[test]
fn overdrawn_other_token() {
    let reply = "assertion failure with message: Balance overdrawn. Need 10 FOO but balance is 3 for symbol FOO contract abc";
    let obs = observe_liquidity_reply(reply);
    let plan = plan_reply(LiquidityPool::SnipsXpr, &obs);
    assert_eq!(steps(&plan), vec![(StepKind::CheckBalance, "0.0003".to_string())]);
    let plan = plan_reply(LiquidityPool::XprXusdc, &obs);
    assert!(plan.steps.is_empty());
    assert!(plan.updated && !plan.accepted);
}

#[test]
fn clean_reply_is_accepted() {
    let obs = observe_liquidity_reply("executed transaction: abcdef");
    let plan = plan_reply(LiquidityPool::SnipsXpr, &obs);
    assert!(plan.steps.is_empty() && !plan.updated && plan.accepted);
    assert_eq!(after_liquidity_attempt(1, false, plan.accepted), AttemptAction::Stop);
}

#[test]
fn low_reply_without_expected_amount_is_not_accepted() {
    let obs = observe_liquidity_reply("Token 1 amount too low");
    let plan = plan_reply(LiquidityPool::SnipsXpr, &obs);
    assert!(plan.steps.is_empty() && !plan.updated && !plan.accepted);
}

#[test]
fn liquidity_attempts() {
    assert_eq!(after_liquidity_attempt(1, true, false), AttemptAction::Retry);
    assert_eq!(after_liquidity_attempt(4, true, false), AttemptAction::FailWithCommandError);
    assert_eq!(after_liquidity_attempt(3, false, false), AttemptAction::Retry);
    assert_eq!(after_liquidity_attempt(4, false, false), AttemptAction::FailAfterMaxAttempts);
    assert_eq!(after_liquidity_attempt(4, false, true), AttemptAction::Stop);
}

#[test]
fn deposit_prep_decisions() {
    assert_eq!(after_deposit_prep("error: account has insufficient ram"), DepositPrepAction::BuyRam);
    assert_eq!(after_deposit_prep("executed"), DepositPrepAction::Done);
    assert_eq!(after_ram_purchase(true), DepositPrepAction::RetryPrep);
    assert_eq!(after_ram_purchase(false), DepositPrepAction::FailNoRam);
}

#[test]
fn excess_transfer_reductions() {
    assert_eq!(excess_transfer_step("ok", 9), ExcessStep::Done);
    assert_eq!(excess_transfer_step("overdrawn balance", 9), ExcessStep::Retry { tenths: 9, next_tenths: 8 });
    assert_eq!(excess_transfer_step("overdrawn balance", 8), ExcessStep::Retry { tenths: 8, next_tenths: 7 });
    assert_eq!(excess_transfer_step("overdrawn balance", 7), ExcessStep::GiveUp);
}

#[test]
fn staking_decisions() {
    assert!(staking_error_is_overdrawn("assertion failure with message: overdrawn balance"));
    assert!(!staking_error_is_overdrawn("Failed to transfer tokens"));
    assert_eq!(count_retry(0, 3), (1, false));
    assert_eq!(count_retry(2, 3), (3, true));
}

#[test]
fn withdraw_decisions() {
    assert_eq!(withdraw_step(true, "executed", 0), (WithdrawStep::Done, 0));
    assert_eq!(withdraw_step(false, "executed", 0), (WithdrawStep::Retry, 1));
    assert_eq!(
        withdraw_step(true, "Please create record at deposit table first with depositprep", 1),
        (WithdrawStep::Retry, 2)
    );
    assert_eq!(withdraw_step(true, "AbortError: The user aborted a request", 2), (WithdrawStep::GiveUp, 3));
}
