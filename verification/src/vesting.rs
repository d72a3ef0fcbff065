use vstd::prelude::*;
use vstd::arithmetic::div_mod::{lemma_fundamental_div_mod, lemma_mod_bound};
use vstd::arithmetic::mul::{
    lemma_mul_basics, lemma_mul_inequality, lemma_mul_is_commutative,
    lemma_mul_is_distributive_add_other_way, lemma_mul_nonnegative,
};
use crate::error::ContractError;

verus! {

/// The cliff period of a schedule is given in months; a month is taken as a
/// fixed unit of 30 days, so that claim timing is independent of calendars.
pub const SECONDS_PER_MONTH: u64 = 2592000;

/// One holder's vesting schedule: a seed amount unlocked in full once the
/// cliff passes, then equal releases at fixed intervals, clamped so the
/// schedule never releases more than its total allocation.
///
/// All amounts are token counts; all timestamps are in seconds.
#[derive(Debug, PartialEq, Eq)]
pub struct VestingDetails {
    /// Instant the schedule begins.
    pub vesting_start_timestamp: u64,
    /// Seed amount unlockable once the cliff has passed.
    pub initial_vesting_count: u128,
    /// Portion of the seed already accounted (made available or claimed).
    pub initial_vesting_consumed: u128,
    /// Length of one release period, in seconds.
    pub vesting_periodicity: u64,
    /// Amount released at the end of each full period after the cliff.
    pub vesting_count_per_period: u128,
    /// Total tokens ever allocated to this schedule, seed included.
    pub total_vesting_token_count: u128,
    /// Cumulative amount the holder has claimed, seed included.
    pub total_claimed_tokens_till_now: u128,
    /// Time of the most recent successful claim; `None` if none yet.
    pub last_claimed_timestamp: Option<u64>,
    /// Amount currently claimable but not yet claimed.
    pub tokens_available_to_claim: u128,
    /// Time of the most recent accrual computation; `None` if none yet.
    pub last_vesting_timestamp: Option<u64>,
    /// Number of months (fixed 30-day units) before which nothing may be
    /// claimed, counted from `vesting_start_timestamp`.
    pub cliff_period: u64,
    /// Optional parent category this schedule rolls up under. A non-owning
    /// back-reference used for reporting only; it never grants the parent
    /// any authority over the holder's tokens.
    pub category_address: Option<String>,
}

impl VestingDetails {
    /// The instant the cliff ends: nothing may be claimed before it.
    pub open spec fn cliff_end(&self) -> int {
        self.vesting_start_timestamp + self.cliff_period * SECONDS_PER_MONTH
    }

    /// Everything the schedule has released so far: already claimed or
    /// currently available to claim.
    pub open spec fn accounted(&self) -> int {
        self.total_claimed_tokens_till_now + self.tokens_available_to_claim
    }

    /// Well-formedness, established at grant time and preserved by every
    /// operation. In particular the released amount never exceeds the
    /// total allocation.
    pub open spec fn wf(&self) -> bool {
        &&& self.initial_vesting_consumed <= self.initial_vesting_count
        &&& self.initial_vesting_count <= self.total_vesting_token_count
        &&& self.initial_vesting_consumed <= self.accounted()
        &&& self.accounted() - self.initial_vesting_consumed
            <= self.total_vesting_token_count - self.initial_vesting_count
    }

    /// Full release periods completed since the end of the cliff.
    pub open spec fn periods_elapsed(&self, now: u64) -> int {
        if self.vesting_periodicity == 0 || (now as int) < self.cliff_end() {
            0
        } else {
            ((now as int) - self.cliff_end()) / (self.vesting_periodicity as int)
        }
    }

    /// Periodic tokens eligible by `now`, clamped so that seed plus
    /// periodic releases never exceed the total allocation.
    pub open spec fn periodic_eligible(&self, now: u64) -> int {
        vstd::math::min(
            self.periods_elapsed(now) * (self.vesting_count_per_period as int),
            self.total_vesting_token_count - self.initial_vesting_count,
        )
    }

    /// The amount accrual at `now` newly makes available: before the cliff
    /// nothing; after it, the unconsumed seed plus whatever portion of the
    /// eligible periodic releases has not been accounted yet.
    pub open spec fn newly_vested(&self, now: u64) -> int {
        if (now as int) < self.cliff_end() {
            0
        } else {
            (self.initial_vesting_count - self.initial_vesting_consumed)
                + vstd::math::max(
                    self.periodic_eligible(now)
                        - (self.accounted() - self.initial_vesting_consumed),
                    0,
                )
        }
    }

    /// The schedule after accrual at `now`.
    pub open spec fn accrued(&self, now: u64) -> VestingDetails {
        if (now as int) < self.cliff_end() {
            VestingDetails { last_vesting_timestamp: Some(now), ..*self }
        } else {
            VestingDetails {
                initial_vesting_consumed: self.initial_vesting_count,
                tokens_available_to_claim: (self.tokens_available_to_claim
                    + self.newly_vested(now)) as u128,
                last_vesting_timestamp: Some(now),
                ..*self
            }
        }
    }

    /// What a claim at `now` would transfer: everything available after
    /// accrual at `now`.
    pub open spec fn claimable(&self, now: u64) -> int {
        self.accrued(now).tokens_available_to_claim as int
    }

    /// The schedule after a successful claim at `now`: accrued, with the
    /// whole available amount moved into the claimed total.
    pub open spec fn claimed_schedule(&self, now: u64) -> VestingDetails {
        VestingDetails {
            total_claimed_tokens_till_now: (self.total_claimed_tokens_till_now
                + self.claimable(now)) as u128,
            tokens_available_to_claim: 0,
            last_claimed_timestamp: Some(now),
            ..self.accrued(now)
        }
    }

    /// The instant the cliff ends, computed in a width the sum cannot
    /// overflow.
    fn cliff_end_exec(&self) -> (r: u128)
        ensures
            r as int == self.cliff_end(),
    {
        proof {
            lemma_mul_inequality(
                self.cliff_period as int,
                0xffff_ffff_ffff_ffff,
                SECONDS_PER_MONTH as int,
            );
        }
        (self.vesting_start_timestamp as u128)
            + (self.cliff_period as u128) * (SECONDS_PER_MONTH as u128)
    }

    /// True once the cliff has passed at `now`.
    fn cliff_passed(&self, now: u64) -> (r: bool)
        ensures
            r == ((now as int) >= self.cliff_end()),
    {
        (now as u128) >= self.cliff_end_exec()
    }

    /// The amount accrual at `now` would newly make available, once the
    /// cliff has passed.
    fn compute_newly_vested(&self, now: u64) -> (r: u128)
        requires
            self.wf(),
            (now as int) >= self.cliff_end(),
        ensures
            r as int == self.newly_vested(now),
    {
        let seed_newly: u128 = self.initial_vesting_count - self.initial_vesting_consumed;
        let periodic_cap: u128 = self.total_vesting_token_count - self.initial_vesting_count;
        let eligible: u128;
        if self.vesting_periodicity == 0 || self.vesting_count_per_period == 0 {
            eligible = 0;
        } else {
            let cliff_end: u128 = self.cliff_end_exec();
            let elapsed: u128 = (now as u128) - cliff_end;
            let periods: u128 = elapsed / (self.vesting_periodicity as u128);
            assert(periods as int == self.periods_elapsed(now));
            let full_periods_fitting: u128 = periodic_cap / self.vesting_count_per_period;
            proof {
                let p = self.periods_elapsed(now);
                let per = self.vesting_count_per_period as int;
                let cap = periodic_cap as int;
                let q = cap / per;
                lemma_fundamental_div_mod(cap, per);
                lemma_mod_bound(cap, per);
                lemma_mul_is_commutative(q, per);
                lemma_mul_nonnegative(p, per);
                if p <= q {
                    lemma_mul_inequality(p, q, per);
                    assert(p * per <= cap);
                } else {
                    lemma_mul_inequality(q + 1, p, per);
                    lemma_mul_is_distributive_add_other_way(per, q, 1);
                    lemma_mul_basics(per);
                    assert(p * per >= cap);
                }
            }
            if periods > full_periods_fitting {
                eligible = periodic_cap;
            } else {
                eligible = periods * self.vesting_count_per_period;
            }
        }
        assert(eligible as int == self.periodic_eligible(now));
        let already_counted: u128 = self.total_claimed_tokens_till_now
            + self.tokens_available_to_claim - self.initial_vesting_consumed;
        let periodic_newly: u128 = if eligible > already_counted {
            eligible - already_counted
        } else {
            0
        };
        seed_newly + periodic_newly
    }

    /// Accrue at `now`: record everything newly vested as available to
    /// claim and return that newly available amount. Before the cliff this
    /// releases nothing and only notes the accrual time.
    pub fn accrue(&mut self, now: u64) -> (newly_available: u128)
        requires
            old(self).wf(),
        ensures
            final(self).wf(),
            *final(self) == old(self).accrued(now),
            newly_available as int == old(self).newly_vested(now),
            final(self).accounted() == old(self).accounted() + newly_available,
            final(self).total_claimed_tokens_till_now
                == old(self).total_claimed_tokens_till_now,
            final(self).accounted() <= final(self).total_vesting_token_count,
    {
        if !self.cliff_passed(now) {
            self.last_vesting_timestamp = Some(now);
            0
        } else {
            let newly: u128 = self.compute_newly_vested(now);
            self.initial_vesting_consumed = self.initial_vesting_count;
            self.tokens_available_to_claim = self.tokens_available_to_claim + newly;
            self.last_vesting_timestamp = Some(now);
            newly
        }
    }

    /// Claim at `now`: accrue, then move the entire available amount into
    /// the claimed total and return it for crediting to the holder's
    /// balance. Fails with `CliffNotReached` before the cliff and with
    /// `NothingToClaim` when nothing is transferable; a failed claim
    /// leaves the schedule completely unchanged.
    pub fn claim(&mut self, now: u64) -> (r: Result<u128, ContractError>)
        requires
            old(self).wf(),
        ensures
            final(self).wf(),
            (now as int) < old(self).cliff_end() ==> {
                &&& r == Err::<u128, ContractError>(ContractError::CliffNotReached)
                &&& *final(self) == *old(self)
            },
            (now as int) >= old(self).cliff_end() && old(self).claimable(now) == 0 ==> {
                &&& r == Err::<u128, ContractError>(ContractError::NothingToClaim)
                &&& *final(self) == *old(self)
            },
            (now as int) >= old(self).cliff_end() && old(self).claimable(now) != 0 ==> {
                &&& r == Ok::<u128, ContractError>(old(self).claimable(now) as u128)
                &&& *final(self) == old(self).claimed_schedule(now)
            },
            final(self).total_claimed_tokens_till_now
                >= old(self).total_claimed_tokens_till_now,
            final(self).accounted() <= final(self).total_vesting_token_count,
    {
        if !self.cliff_passed(now) {
            return Err(ContractError::CliffNotReached);
        }
        let newly: u128 = self.compute_newly_vested(now);
        let transferable: u128 = self.tokens_available_to_claim + newly;
        if transferable == 0 {
            return Err(ContractError::NothingToClaim);
        }
        self.initial_vesting_consumed = self.initial_vesting_count;
        self.total_claimed_tokens_till_now = self.total_claimed_tokens_till_now + transferable;
        self.tokens_available_to_claim = 0;
        self.last_claimed_timestamp = Some(now);
        self.last_vesting_timestamp = Some(now);
        Ok(transferable)
    }
}

impl Default for VestingDetails {
    /// An empty schedule: nothing allocated, nothing claimed. Well-formed
    /// and fully claimable (of zero tokens) at any time.
    fn default() -> (r: Self)
        ensures
            r == (VestingDetails {
                vesting_start_timestamp: 0,
                initial_vesting_count: 0,
                initial_vesting_consumed: 0,
                vesting_periodicity: 0,
                vesting_count_per_period: 0,
                total_vesting_token_count: 0,
                total_claimed_tokens_till_now: 0,
                last_claimed_timestamp: None,
                tokens_available_to_claim: 0,
                last_vesting_timestamp: None,
                cliff_period: 0,
                category_address: None,
            }),
            r.wf(),
    {
        VestingDetails {
            vesting_start_timestamp: 0,
            initial_vesting_count: 0,
            initial_vesting_consumed: 0,
            vesting_periodicity: 0,
            vesting_count_per_period: 0,
            total_vesting_token_count: 0,
            total_claimed_tokens_till_now: 0,
            last_claimed_timestamp: None,
            tokens_available_to_claim: 0,
            last_vesting_timestamp: None,
            cliff_period: 0,
            category_address: None,
        }
    }
}

impl Clone for VestingDetails {
    fn clone(&self) -> (r: Self)
        ensures
            r == *self,
    {
        VestingDetails {
            vesting_start_timestamp: self.vesting_start_timestamp,
            initial_vesting_count: self.initial_vesting_count,
            initial_vesting_consumed: self.initial_vesting_consumed,
            vesting_periodicity: self.vesting_periodicity,
            vesting_count_per_period: self.vesting_count_per_period,
            total_vesting_token_count: self.total_vesting_token_count,
            total_claimed_tokens_till_now: self.total_claimed_tokens_till_now,
            last_claimed_timestamp: self.last_claimed_timestamp,
            tokens_available_to_claim: self.tokens_available_to_claim,
            last_vesting_timestamp: self.last_vesting_timestamp,
            cliff_period: self.cliff_period,
            category_address: match &self.category_address {
                Some(c) => Some(c.clone()),
                None => None,
            },
        }
    }
}

/// Accrual is idempotent: after accruing at `now`, accruing again at the
/// same instant makes nothing further available.
pub proof fn lemma_accrue_idempotent(s: VestingDetails, now: u64)
    requires
        s.wf(),
    ensures
        s.accrued(now).newly_vested(now) == 0,
{
}

/// The released amount never exceeds the total allocation: for any
/// well-formed schedule, claimed plus available stays within
/// `total_vesting_token_count`, and accrual preserves that.
pub proof fn lemma_accounting_bound(s: VestingDetails, now: u64)
    requires
        s.wf(),
    ensures
        s.accounted() <= s.total_vesting_token_count,
        s.accrued(now).wf(),
        s.accrued(now).accounted() <= s.accrued(now).total_vesting_token_count,
{
}

} // verus!
