use cw20_vesting::error::ContractError;
use cw20_vesting::vesting::VestingDetails;

const DAY: u64 = 86400;

fn sample_schedule() -> VestingDetails {
    VestingDetails {
        vesting_start_timestamp: 0,
        initial_vesting_count: 1000,
        initial_vesting_consumed: 0,
        vesting_periodicity: 2_592_000,
        vesting_count_per_period: 100,
        total_vesting_token_count: 2000,
        total_claimed_tokens_till_now: 0,
        last_claimed_timestamp: None,
        tokens_available_to_claim: 0,
        last_vesting_timestamp: None,
        cliff_period: 1,
        category_address: None,
    }
}

#[test]
fn claim_before_cliff_fails_and_changes_nothing() {
    let mut s = sample_schedule();
    let before = s.clone();
    let r = s.claim(29 * DAY);
    assert_eq!(r, Err(ContractError::CliffNotReached));
    assert_eq!(s, before);
}

#[test]
fn seed_unlocks_after_cliff() {
    let mut s = sample_schedule();
    let r = s.claim(31 * DAY);
    assert_eq!(r, Ok(1000));
    assert_eq!(s.total_claimed_tokens_till_now, 1000);
    assert_eq!(s.tokens_available_to_claim, 0);
    assert_eq!(s.initial_vesting_consumed, 1000);
    assert_eq!(s.last_claimed_timestamp, Some(31 * DAY));
}

#[test]
fn periodic_release_after_seed() {
    let mut s = sample_schedule();
    assert_eq!(s.claim(31 * DAY), Ok(1000));
    let r = s.claim(91 * DAY);
    assert_eq!(r, Ok(200));
    assert_eq!(s.total_claimed_tokens_till_now, 1200);
}

#[test]
fn accrue_twice_same_instant_is_idempotent() {
    let mut s = sample_schedule();
    let first = s.accrue(40 * DAY);
    assert_eq!(first, 1000);
    let second = s.accrue(40 * DAY);
    assert_eq!(second, 0);
    assert_eq!(s.tokens_available_to_claim, 1000);
}

#[test]
fn claimed_total_is_non_decreasing_across_claims() {
    let mut s = sample_schedule();
    let mut last_claimed = s.total_claimed_tokens_till_now;
    for now in [29 * DAY, 31 * DAY, 31 * DAY, 91 * DAY, 95 * DAY, 400 * DAY] {
        let _ = s.claim(now);
        assert!(s.total_claimed_tokens_till_now >= last_claimed);
        last_claimed = s.total_claimed_tokens_till_now;
    }
}

#[test]
fn accounted_never_exceeds_total_allocation() {
    let mut s = sample_schedule();
    for now in [0, 29 * DAY, 31 * DAY, 91 * DAY, 2000 * DAY] {
        let _ = s.accrue(now);
        assert!(
            s.total_claimed_tokens_till_now + s.tokens_available_to_claim
                <= s.total_vesting_token_count
        );
        let _ = s.claim(now);
        assert!(
            s.total_claimed_tokens_till_now + s.tokens_available_to_claim
                <= s.total_vesting_token_count
        );
    }
}

#[test]
fn periodic_release_is_clamped_to_total() {
    let mut s = sample_schedule();
    // Far in the future every period has elapsed; only total - seed remains.
    let r = s.claim(5000 * DAY);
    assert_eq!(r, Ok(2000));
    assert_eq!(s.total_claimed_tokens_till_now, 2000);
    // Fully claimed: nothing further accrues.
    assert_eq!(s.claim(6000 * DAY), Err(ContractError::NothingToClaim));
    assert_eq!(s.total_claimed_tokens_till_now, 2000);
}

#[test]
fn nothing_to_claim_right_after_a_claim() {
    let mut s = sample_schedule();
    assert_eq!(s.claim(31 * DAY), Ok(1000));
    let before = s.clone();
    assert_eq!(s.claim(31 * DAY), Err(ContractError::NothingToClaim));
    assert_eq!(s, before);
}

#[test]
fn accrue_before_cliff_only_notes_the_time() {
    let mut s = sample_schedule();
    let newly = s.accrue(29 * DAY);
    assert_eq!(newly, 0);
    assert_eq!(s.tokens_available_to_claim, 0);
    assert_eq!(s.last_vesting_timestamp, Some(29 * DAY));
    assert_eq!(s.initial_vesting_consumed, 0);
}

#[test]
fn zero_periodicity_releases_only_the_seed() {
    let mut s = sample_schedule();
    s.vesting_periodicity = 0;
    assert_eq!(s.claim(31 * DAY), Ok(1000));
    assert_eq!(s.claim(500 * DAY), Err(ContractError::NothingToClaim));
}
