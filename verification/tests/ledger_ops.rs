use cw20_vesting::balances::Balances;
use cw20_vesting::error::ContractError;
use cw20_vesting::ledger::Ledger;
use cw20_vesting::token::MinterData;
use cw20_vesting::vesting::VestingDetails;
use cw20_vesting::vesting_ledger::{VestingEntry, VestingLedger};

const DAY: u64 = 86400;

fn capped_ledger(cap: Option<u128>) -> Ledger {
    Ledger::new(
        "Vested Token".to_string(),
        "VEST".to_string(),
        6,
        Some(MinterData { minter: "minter".to_string(), cap }),
    )
}

#[test]
fn credit_and_debit_update_a_balance() {
    let mut b = Balances::new();
    assert_eq!(b.credit(&"alice".to_string(), 100), Ok(()));
    assert_eq!(b.debit(&"alice".to_string(), 40), Ok(()));
    assert_eq!(b.query_balance(&"alice".to_string()), 60);
    assert_eq!(
        b.debit(&"alice".to_string(), 61),
        Err(ContractError::InsufficientFunds)
    );
    assert_eq!(b.query_balance(&"alice".to_string()), 60);
    assert_eq!(
        b.credit(&"alice".to_string(), u128::MAX),
        Err(ContractError::ArithmeticOverflow)
    );
    assert_eq!(b.query_balance(&"alice".to_string()), 60);
}

#[test]
fn mint_credits_recipient_and_supply() {
    let mut l = capped_ledger(Some(10_000));
    let r = l.mint(&"minter".to_string(), &"alice".to_string(), 400);
    assert_eq!(r, Ok(()));
    assert_eq!(l.query_balance(&"alice".to_string()), 400);
    assert_eq!(l.info.total_supply, 400);
}

#[test]
fn mint_by_stranger_is_unauthorized() {
    let mut l = capped_ledger(Some(10_000));
    let r = l.mint(&"mallory".to_string(), &"mallory".to_string(), 400);
    assert_eq!(r, Err(ContractError::Unauthorized));
    assert_eq!(l.info.total_supply, 0);
}

#[test]
fn mint_beyond_cap_fails_and_supply_unchanged() {
    let mut l = capped_ledger(Some(1_000));
    assert_eq!(l.mint(&"minter".to_string(), &"alice".to_string(), 900), Ok(()));
    let r = l.mint(&"minter".to_string(), &"bob".to_string(), 101);
    assert_eq!(r, Err(ContractError::CapExceeded));
    assert_eq!(l.info.total_supply, 900);
    assert_eq!(l.query_balance(&"bob".to_string()), 0);
}

#[test]
fn mint_of_zero_is_invalid() {
    let mut l = capped_ledger(None);
    assert_eq!(
        l.mint(&"minter".to_string(), &"alice".to_string(), 0),
        Err(ContractError::InvalidAmount)
    );
}

#[test]
fn mint_overflowing_supply_fails() {
    let mut l = capped_ledger(None);
    assert_eq!(l.mint(&"minter".to_string(), &"alice".to_string(), u128::MAX), Ok(()));
    let r = l.mint(&"minter".to_string(), &"bob".to_string(), 1);
    assert_eq!(r, Err(ContractError::ArithmeticOverflow));
    assert_eq!(l.info.total_supply, u128::MAX);
}

#[test]
fn get_cap_reports_the_minter_cap() {
    let l = capped_ledger(Some(1_000));
    assert_eq!(l.info.get_cap(), Some(1_000));
    let open = capped_ledger(None);
    assert_eq!(open.info.get_cap(), None);
}

#[test]
fn transfer_moves_funds() {
    let mut l = capped_ledger(None);
    assert_eq!(l.mint(&"minter".to_string(), &"alice".to_string(), 500), Ok(()));
    let r = l.transfer(&"alice".to_string(), &"bob".to_string(), 120);
    assert_eq!(r, Ok(()));
    assert_eq!(l.query_balance(&"alice".to_string()), 380);
    assert_eq!(l.query_balance(&"bob".to_string()), 120);
}

#[test]
fn transfer_more_than_balance_fails_and_balance_unchanged() {
    let mut l = capped_ledger(None);
    assert_eq!(l.mint(&"minter".to_string(), &"alice".to_string(), 100), Ok(()));
    let r = l.transfer(&"alice".to_string(), &"bob".to_string(), 101);
    assert_eq!(r, Err(ContractError::InsufficientFunds));
    assert_eq!(l.query_balance(&"alice".to_string()), 100);
    assert_eq!(l.query_balance(&"bob".to_string()), 0);
}

#[test]
fn transfer_of_zero_is_invalid() {
    let mut l = capped_ledger(None);
    assert_eq!(l.mint(&"minter".to_string(), &"alice".to_string(), 100), Ok(()));
    assert_eq!(
        l.transfer(&"alice".to_string(), &"bob".to_string(), 0),
        Err(ContractError::InvalidAmount)
    );
}

#[test]
fn approve_then_overspend_fails_exact_spend_zeroes() {
    let mut l = capped_ledger(None);
    assert_eq!(l.mint(&"minter".to_string(), &"owner".to_string(), 500), Ok(()));
    l.approve(&"owner".to_string(), &"spender".to_string(), 50, None);
    let r = l.transfer_from(
        &"owner".to_string(),
        &"spender".to_string(),
        &"dest".to_string(),
        60,
        0,
    );
    assert_eq!(r, Err(ContractError::InsufficientAllowance));
    assert_eq!(l.query_balance(&"dest".to_string()), 0);
    assert_eq!(l.query_allowance(&"owner".to_string(), &"spender".to_string()).0, 50);
    let r = l.transfer_from(
        &"owner".to_string(),
        &"spender".to_string(),
        &"dest".to_string(),
        50,
        0,
    );
    assert_eq!(r, Ok(()));
    assert_eq!(l.query_allowance(&"owner".to_string(), &"spender".to_string()).0, 0);
    assert_eq!(l.query_balance(&"owner".to_string()), 450);
    assert_eq!(l.query_balance(&"dest".to_string()), 50);
}

#[test]
fn expired_allowance_cannot_be_spent() {
    let mut l = capped_ledger(None);
    assert_eq!(l.mint(&"minter".to_string(), &"owner".to_string(), 500), Ok(()));
    l.approve(&"owner".to_string(), &"spender".to_string(), 100, Some(1_000));
    let r = l.transfer_from(
        &"owner".to_string(),
        &"spender".to_string(),
        &"dest".to_string(),
        10,
        1_000,
    );
    assert_eq!(r, Err(ContractError::AllowanceExpired));
    // Just before the expiration it still works.
    let r = l.transfer_from(
        &"owner".to_string(),
        &"spender".to_string(),
        &"dest".to_string(),
        10,
        999,
    );
    assert_eq!(r, Ok(()));
    assert_eq!(l.query_allowance(&"owner".to_string(), &"spender".to_string()).0, 90);
}

#[test]
fn claim_vested_credits_balance() {
    let mut l = capped_ledger(Some(100_000));
    let r = l.grant_vesting(
        &"minter".to_string(),
        &"holder".to_string(),
        0,
        1000,
        2_592_000,
        100,
        2000,
        1,
        None,
    );
    assert_eq!(r, Ok(()));
    assert_eq!(l.info.total_supply, 2000);
    assert_eq!(
        l.claim_vested(&"holder".to_string(), 29 * DAY),
        Err(ContractError::CliffNotReached)
    );
    assert_eq!(l.claim_vested(&"holder".to_string(), 31 * DAY), Ok(1000));
    assert_eq!(l.query_balance(&"holder".to_string()), 1000);
    // Supply is pre-minted at grant time, so a claim leaves it unchanged.
    assert_eq!(l.info.total_supply, 2000);
    assert_eq!(l.claim_vested(&"holder".to_string(), 91 * DAY), Ok(200));
    assert_eq!(l.query_balance(&"holder".to_string()), 1200);
    let sched = l.query_vesting(&"holder".to_string()).unwrap();
    assert_eq!(sched.total_claimed_tokens_till_now, 1200);
    assert_eq!(sched.tokens_available_to_claim, 0);
}

#[test]
fn claim_without_schedule_fails() {
    let mut l = capped_ledger(None);
    assert_eq!(
        l.claim_vested(&"nobody".to_string(), 31 * DAY),
        Err(ContractError::ScheduleNotFound)
    );
}

#[test]
fn grant_vesting_checks_caller_and_amounts() {
    let mut l = capped_ledger(Some(1_000));
    let r = l.grant_vesting(
        &"mallory".to_string(),
        &"holder".to_string(),
        0,
        10,
        60,
        1,
        100,
        0,
        None,
    );
    assert_eq!(r, Err(ContractError::Unauthorized));
    let r = l.grant_vesting(
        &"minter".to_string(),
        &"holder".to_string(),
        0,
        200,
        60,
        1,
        100,
        0,
        None,
    );
    assert_eq!(r, Err(ContractError::InvalidAmount));
    let r = l.grant_vesting(
        &"minter".to_string(),
        &"holder".to_string(),
        0,
        10,
        60,
        1,
        1_001,
        0,
        None,
    );
    assert_eq!(r, Err(ContractError::CapExceeded));
    assert_eq!(l.info.total_supply, 0);
}

#[test]
fn category_rollup_overflow_is_reported() {
    let cat = "whales".to_string();
    let huge = |addr: &str| VestingEntry {
        addr: addr.to_string(),
        details: VestingDetails {
            vesting_start_timestamp: 0,
            initial_vesting_count: 0,
            initial_vesting_consumed: 0,
            vesting_periodicity: 60,
            vesting_count_per_period: 1,
            total_vesting_token_count: u128::MAX,
            total_claimed_tokens_till_now: 0,
            last_claimed_timestamp: None,
            tokens_available_to_claim: 0,
            last_vesting_timestamp: None,
            cliff_period: 0,
            category_address: Some(cat.clone()),
        },
    };
    let ledger = VestingLedger { entries: vec![huge("a"), huge("b")] };
    assert_eq!(
        ledger.query_category_rollup(&cat),
        Err(ContractError::ArithmeticOverflow)
    );
}

#[test]
fn category_rollup_sums_matching_schedules() {
    let mut l = capped_ledger(None);
    let cat = "investors".to_string();
    assert_eq!(
        l.grant_vesting(
            &"minter".to_string(),
            &"a".to_string(),
            0,
            100,
            60,
            10,
            500,
            0,
            Some(cat.clone()),
        ),
        Ok(())
    );
    assert_eq!(
        l.grant_vesting(
            &"minter".to_string(),
            &"b".to_string(),
            0,
            50,
            60,
            10,
            300,
            0,
            Some(cat.clone()),
        ),
        Ok(())
    );
    assert_eq!(
        l.grant_vesting(&"minter".to_string(), &"c".to_string(), 0, 1, 60, 1, 10, 0, None),
        Ok(())
    );
    // One holder in the category claims the seed immediately (no cliff).
    assert_eq!(l.claim_vested(&"a".to_string(), 0), Ok(100));
    let (total, claimed, available) = l.query_category_rollup(&cat).unwrap();
    assert_eq!(total, 800);
    assert_eq!(claimed, 100);
    assert_eq!(available, 0);
    let (t2, c2, a2) = l.query_category_rollup(&"unknown".to_string()).unwrap();
    assert_eq!((t2, c2, a2), (0, 0, 0));
}
