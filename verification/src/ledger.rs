use vstd::prelude::*;
use crate::allowances::Allowances;
use crate::balances::Balances;
use crate::error::ContractError;
use crate::token::{MinterData, TokenInfo};
use crate::vesting::VestingDetails;
use crate::vesting_ledger::{rollup_of, VestingLedger};

verus! {

/// Whether an allowance expiration has lapsed by `now`.
pub open spec fn lapsed(expires: Option<u64>, now: u64) -> bool {
    match expires {
        Some(t) => now >= t,
        None => false,
    }
}

/// The whole ledger state: token metadata, unlocked balances, allowances
/// and vesting schedules. The host persists it between calls and passes
/// it, along with the authenticated caller address and the current block
/// time, into every operation; each operation either commits all its
/// updates or fails and changes nothing.
///
/// Vesting grants are pre-minted: a grant adds its full allocation to
/// `total_supply` at once, and a later claim only moves tokens into the
/// holder's unlocked balance, so supply is accounted exactly once.
pub struct Ledger {
    pub info: TokenInfo,
    pub balances: Balances,
    pub allowances: Allowances,
    pub vesting: VestingLedger,
}

impl Ledger {
    /// Well-formedness of the whole state, preserved by every operation.
    pub open spec fn wf(&self) -> bool {
        &&& self.info.wf()
        &&& self.balances.wf()
        &&& self.allowances.wf()
        &&& self.vesting.wf()
    }

    /// Whether this caller is the configured minter.
    pub open spec fn is_minter(&self, caller: Seq<char>) -> bool {
        match self.info.mint {
            Some(ref m) => m.minter@ == caller,
            None => false,
        }
    }

    /// Whether growing the supply by `amount` would pass the cap.
    pub open spec fn cap_exceeded(&self, amount: u128) -> bool {
        match self.info.spec_cap() {
            Some(c) => self.info.total_supply + amount > c,
            None => false,
        }
    }

    /// A fresh ledger: zero supply, no balances, no allowances, no grants.
    pub fn new(name: String, symbol: String, decimals: u8, mint: Option<MinterData>) -> (r:
        Ledger)
        ensures
            r.wf(),
            r.info.name == name,
            r.info.symbol == symbol,
            r.info.decimals == decimals,
            r.info.total_supply == 0,
            r.info.mint == mint,
            forall|a: Seq<char>| #[trigger] r.balances.balance_of(a) == 0,
            forall|o: Seq<char>, s: Seq<char>| #[trigger] r.allowances.remaining_of(o, s) == 0,
            forall|a: Seq<char>| #[trigger] r.vesting.schedule_of(a) == None::<VestingDetails>,
    {
        Ledger {
            info: TokenInfo { name, symbol, decimals, total_supply: 0, mint },
            balances: Balances::new(),
            allowances: Allowances::new(),
            vesting: VestingLedger::new(),
        }
    }

    /// The holder's unlocked balance.
    pub fn query_balance(&self, addr: &String) -> (r: u128)
        requires
            self.wf(),
        ensures
            r as int == self.balances.balance_of(addr@),
    {
        self.balances.query_balance(addr)
    }

    /// A copy of the holder's vesting schedule, if it has one.
    pub fn query_vesting(&self, addr: &String) -> (r: Option<VestingDetails>)
        requires
            self.wf(),
        ensures
            r == self.vesting.schedule_of(addr@),
    {
        self.vesting.get_schedule(addr)
    }

    /// The remaining amount and expiration of an allowance.
    pub fn query_allowance(&self, owner: &String, spender: &String) -> (r: (u128, Option<u64>))
        requires
            self.wf(),
        ensures
            r.0 as int == self.allowances.remaining_of(owner@, spender@),
            r.1 == self.allowances.expiry_of(owner@, spender@),
    {
        self.allowances.query_allowance(owner, spender)
    }

    /// The reporting aggregate over every schedule in a category.
    pub fn query_category_rollup(&self, category: &String) -> (r: Result<
        (u128, u128, u128),
        ContractError,
    >)
        requires
            self.wf(),
        ensures
            ({
                let full = rollup_of(self.vesting.entries@, category@);
                if full.0 <= u128::MAX && full.1 <= u128::MAX && full.2 <= u128::MAX {
                    r == Ok::<(u128, u128, u128), ContractError>(
                        ((full.0 as u128), (full.1 as u128), (full.2 as u128)),
                    )
                } else {
                    r == Err::<(u128, u128, u128), ContractError>(
                        ContractError::ArithmeticOverflow,
                    )
                }
            }),
    {
        self.vesting.query_category_rollup(category)
    }

    /// Mint `amount` new tokens into `recipient`'s unlocked balance.
    /// Only the configured minter may mint; minting past the cap fails
    /// with `CapExceeded` and leaves the supply (and everything else)
    /// unchanged.
    pub fn mint(&mut self, caller: &String, recipient: &String, amount: u128) -> (r: Result<
        (),
        ContractError,
    >)
        requires
            old(self).wf(),
        ensures
            final(self).wf(),
            r is Err ==> *final(self) == *old(self),
            amount == 0 ==> r == Err::<(), ContractError>(ContractError::InvalidAmount),
            amount != 0 && !old(self).is_minter(caller@) ==> r == Err::<(), ContractError>(
                ContractError::Unauthorized,
            ),
            amount != 0 && old(self).is_minter(caller@) && old(self).cap_exceeded(amount) ==> r
                == Err::<(), ContractError>(ContractError::CapExceeded),
            amount != 0 && old(self).is_minter(caller@) && !old(self).cap_exceeded(amount) ==> {
                if old(self).info.total_supply + amount > u128::MAX
                    || old(self).balances.balance_of(recipient@) + amount > u128::MAX {
                    r == Err::<(), ContractError>(ContractError::ArithmeticOverflow)
                } else {
                    &&& r == Ok::<(), ContractError>(())
                    &&& final(self).info == (TokenInfo {
                        total_supply: (old(self).info.total_supply + amount) as u128,
                        ..old(self).info
                    })
                    &&& final(self).balances.balance_of(recipient@) == old(self).balances.balance_of(recipient@) + amount
                    &&& forall|a: Seq<char>|
                        a != recipient@ ==> final(self).balances.balance_of(a) == old(self).balances.balance_of(a)
                    &&& final(self).allowances == old(self).allowances
                    &&& final(self).vesting == old(self).vesting
                }
            },
    {
        if amount == 0 {
            return Err(ContractError::InvalidAmount);
        }
        let authorized: bool = match &self.info.mint {
            Some(m) => m.minter == *caller,
            None => false,
        };
        if !authorized {
            return Err(ContractError::Unauthorized);
        }
        match self.info.get_cap() {
            Some(cap) => {
                if amount > cap - self.info.total_supply {
                    return Err(ContractError::CapExceeded);
                }
            },
            None => {},
        }
        if amount > u128::MAX - self.info.total_supply {
            return Err(ContractError::ArithmeticOverflow);
        }
        let bal: u128 = self.balances.query_balance(recipient);
        if amount > u128::MAX - bal {
            return Err(ContractError::ArithmeticOverflow);
        }
        self.info.total_supply = self.info.total_supply + amount;
        self.balances.set_balance(recipient, bal + amount);
        Ok(())
    }

    /// Move `amount` from `from`'s balance to `to`'s. Asking for more
    /// than the balance fails with `InsufficientFunds` and changes
    /// nothing.
    pub fn transfer(&mut self, from: &String, to: &String, amount: u128) -> (r: Result<
        (),
        ContractError,
    >)
        requires
            old(self).wf(),
        ensures
            final(self).wf(),
            r is Err ==> *final(self) == *old(self),
            amount == 0 ==> r == Err::<(), ContractError>(ContractError::InvalidAmount),
            amount != 0 && amount > old(self).balances.balance_of(from@) ==> r == Err::<
                (),
                ContractError,
            >(ContractError::InsufficientFunds),
            amount != 0 && amount <= old(self).balances.balance_of(from@) ==> {
                if from@ == to@ {
                    r == Ok::<(), ContractError>(()) && *final(self) == *old(self)
                } else if old(self).balances.balance_of(to@) + amount > u128::MAX {
                    r == Err::<(), ContractError>(ContractError::ArithmeticOverflow)
                } else {
                    &&& r == Ok::<(), ContractError>(())
                    &&& final(self).balances.balance_of(from@) == old(self).balances.balance_of(
                        from@,
                    ) - amount
                    &&& final(self).balances.balance_of(to@) == old(self).balances.balance_of(to@)
                        + amount
                    &&& forall|a: Seq<char>|
                        a != from@ && a != to@ ==> final(self).balances.balance_of(a) == old(self).balances.balance_of(a)
                    &&& final(self).info == old(self).info
                    &&& final(self).allowances == old(self).allowances
                    &&& final(self).vesting == old(self).vesting
                }
            },
    {
        if amount == 0 {
            return Err(ContractError::InvalidAmount);
        }
        let from_bal: u128 = self.balances.query_balance(from);
        if amount > from_bal {
            return Err(ContractError::InsufficientFunds);
        }
        if *from == *to {
            return Ok(());
        }
        let to_bal: u128 = self.balances.query_balance(to);
        if amount > u128::MAX - to_bal {
            return Err(ContractError::ArithmeticOverflow);
        }
        self.balances.set_balance(from, from_bal - amount);
        self.balances.set_balance(to, to_bal + amount);
        Ok(())
    }

    /// Grant (or rewrite) `spender`'s right to move up to `amount` out of
    /// `owner`'s balance, optionally until an expiration instant.
    pub fn approve(&mut self, owner: &String, spender: &String, amount: u128, expires: Option<
        u64,
    >)
        requires
            old(self).wf(),
        ensures
            final(self).wf(),
            final(self).allowances.remaining_of(owner@, spender@) == amount,
            final(self).allowances.expiry_of(owner@, spender@) == expires,
            forall|o: Seq<char>, s: Seq<char>|
                !(o == owner@ && s == spender@) ==> final(self).allowances.remaining_of(o, s)
                    == old(self).allowances.remaining_of(o, s) && final(self).allowances.expiry_of(o, s) == old(self).allowances.expiry_of(o, s),
            final(self).info == old(self).info,
            final(self).balances == old(self).balances,
            final(self).vesting == old(self).vesting,
    {
        self.allowances.set_allowance(owner, spender, amount, expires);
    }

    /// Spend `spender`'s allowance to move `amount` from `owner`'s
    /// balance to `to`'s. Fails with `AllowanceExpired` past the
    /// expiration, with `InsufficientAllowance` when the remaining
    /// allowance is smaller than the amount; every failure changes
    /// nothing. On success the allowance is decremented by the amount.
    pub fn transfer_from(
        &mut self,
        owner: &String,
        spender: &String,
        to: &String,
        amount: u128,
        now: u64,
    ) -> (r: Result<(), ContractError>)
        requires
            old(self).wf(),
        ensures
            final(self).wf(),
            r is Err ==> *final(self) == *old(self),
            amount == 0 ==> r == Err::<(), ContractError>(ContractError::InvalidAmount),
            amount != 0 && lapsed(old(self).allowances.expiry_of(owner@, spender@), now) ==> r
                == Err::<(), ContractError>(ContractError::AllowanceExpired),
            amount != 0 && !lapsed(old(self).allowances.expiry_of(owner@, spender@), now)
                && amount > old(self).allowances.remaining_of(owner@, spender@) ==> r == Err::<
                (),
                ContractError,
            >(ContractError::InsufficientAllowance),
            amount != 0 && !lapsed(old(self).allowances.expiry_of(owner@, spender@), now)
                && amount <= old(self).allowances.remaining_of(owner@, spender@) && amount > old(self).balances.balance_of(owner@) ==> r == Err::<(), ContractError>(
                ContractError::InsufficientFunds,
            ),
            amount != 0 && !lapsed(old(self).allowances.expiry_of(owner@, spender@), now)
                && amount <= old(self).allowances.remaining_of(owner@, spender@) && amount <= old(self).balances.balance_of(owner@) ==> {
                if owner@ != to@ && old(self).balances.balance_of(to@) + amount > u128::MAX {
                    r == Err::<(), ContractError>(ContractError::ArithmeticOverflow)
                } else {
                    &&& r == Ok::<(), ContractError>(())
                    &&& final(self).allowances.remaining_of(owner@, spender@) == old(self).allowances.remaining_of(owner@, spender@) - amount
                    &&& final(self).allowances.expiry_of(owner@, spender@) == old(self).allowances.expiry_of(owner@, spender@)
                    &&& forall|o: Seq<char>, s: Seq<char>|
                        !(o == owner@ && s == spender@) ==> final(self).allowances.remaining_of(
                            o,
                            s,
                        ) == old(self).allowances.remaining_of(o, s) && final(self).allowances.expiry_of(o, s) == old(self).allowances.expiry_of(o, s)
                    &&& (owner@ == to@ ==> final(self).balances == old(self).balances)
                    &&& (owner@ != to@ ==> {
                        &&& final(self).balances.balance_of(owner@) == old(self).balances.balance_of(owner@) - amount
                        &&& final(self).balances.balance_of(to@) == old(self).balances.balance_of(
                            to@,
                        ) + amount
                        &&& forall|a: Seq<char>|
                            a != owner@ && a != to@ ==> final(self).balances.balance_of(a) == old(self).balances.balance_of(a)
                    })
                    &&& final(self).info == old(self).info
                    &&& final(self).vesting == old(self).vesting
                }
            },
    {
        if amount == 0 {
            return Err(ContractError::InvalidAmount);
        }
        let (remaining, expires): (u128, Option<u64>) = self.allowances.query_allowance(
            owner,
            spender,
        );
        let is_lapsed: bool = match expires {
            Some(t) => now >= t,
            None => false,
        };
        if is_lapsed {
            return Err(ContractError::AllowanceExpired);
        }
        if amount > remaining {
            return Err(ContractError::InsufficientAllowance);
        }
        let owner_bal: u128 = self.balances.query_balance(owner);
        if amount > owner_bal {
            return Err(ContractError::InsufficientFunds);
        }
        if *owner == *to {
            self.allowances.set_allowance(owner, spender, remaining - amount, expires);
            return Ok(());
        }
        let to_bal: u128 = self.balances.query_balance(to);
        if amount > u128::MAX - to_bal {
            return Err(ContractError::ArithmeticOverflow);
        }
        self.allowances.set_allowance(owner, spender, remaining - amount, expires);
        self.balances.set_balance(owner, owner_bal - amount);
        self.balances.set_balance(to, to_bal + amount);
        Ok(())
    }

    /// Allocate a vesting grant: pre-mint the grant's whole allocation
    /// into the supply and create (or rewrite) the holder's schedule with
    /// nothing consumed, claimed or available yet. Only the minter may
    /// grant, and the pre-minted allocation respects the cap.
    pub fn grant_vesting(
        &mut self,
        caller: &String,
        addr: &String,
        start: u64,
        initial_count: u128,
        periodicity: u64,
        count_per_period: u128,
        total_count: u128,
        cliff_months: u64,
        category: Option<String>,
    ) -> (r: Result<(), ContractError>)
        requires
            old(self).wf(),
        ensures
            final(self).wf(),
            r is Err ==> *final(self) == *old(self),
            !old(self).is_minter(caller@) ==> r == Err::<(), ContractError>(
                ContractError::Unauthorized,
            ),
            old(self).is_minter(caller@) && (total_count == 0 || initial_count > total_count)
                ==> r == Err::<(), ContractError>(ContractError::InvalidAmount),
            old(self).is_minter(caller@) && total_count != 0 && initial_count <= total_count
                && old(self).cap_exceeded(total_count) ==> r == Err::<(), ContractError>(
                ContractError::CapExceeded,
            ),
            old(self).is_minter(caller@) && total_count != 0 && initial_count <= total_count
                && !old(self).cap_exceeded(total_count) ==> {
                if old(self).info.total_supply + total_count > u128::MAX {
                    r == Err::<(), ContractError>(ContractError::ArithmeticOverflow)
                } else {
                    &&& r == Ok::<(), ContractError>(())
                    &&& final(self).info == (TokenInfo {
                        total_supply: (old(self).info.total_supply + total_count) as u128,
                        ..old(self).info
                    })
                    &&& final(self).vesting.schedule_of(addr@) == Some(
                        VestingDetails {
                            vesting_start_timestamp: start,
                            initial_vesting_count: initial_count,
                            initial_vesting_consumed: 0,
                            vesting_periodicity: periodicity,
                            vesting_count_per_period: count_per_period,
                            total_vesting_token_count: total_count,
                            total_claimed_tokens_till_now: 0,
                            last_claimed_timestamp: None,
                            tokens_available_to_claim: 0,
                            last_vesting_timestamp: None,
                            cliff_period: cliff_months,
                            category_address: category,
                        },
                    )
                    &&& forall|a: Seq<char>|
                        a != addr@ ==> final(self).vesting.schedule_of(a) == old(self).vesting.schedule_of(a)
                    &&& final(self).balances == old(self).balances
                    &&& final(self).allowances == old(self).allowances
                }
            },
    {
        let authorized: bool = match &self.info.mint {
            Some(m) => m.minter == *caller,
            None => false,
        };
        if !authorized {
            return Err(ContractError::Unauthorized);
        }
        if total_count == 0 || initial_count > total_count {
            return Err(ContractError::InvalidAmount);
        }
        match self.info.get_cap() {
            Some(cap) => {
                if total_count > cap - self.info.total_supply {
                    return Err(ContractError::CapExceeded);
                }
            },
            None => {},
        }
        if total_count > u128::MAX - self.info.total_supply {
            return Err(ContractError::ArithmeticOverflow);
        }
        let details = VestingDetails {
            vesting_start_timestamp: start,
            initial_vesting_count: initial_count,
            initial_vesting_consumed: 0,
            vesting_periodicity: periodicity,
            vesting_count_per_period: count_per_period,
            total_vesting_token_count: total_count,
            total_claimed_tokens_till_now: 0,
            last_claimed_timestamp: None,
            tokens_available_to_claim: 0,
            last_vesting_timestamp: None,
            cliff_period: cliff_months,
            category_address: category,
        };
        self.info.total_supply = self.info.total_supply + total_count;
        self.vesting.set_schedule(addr, details);
        Ok(())
    }

    /// Claim everything currently vested for `addr`: run accrual at
    /// `now`, move the whole available amount into the claimed total and
    /// credit it to the holder's unlocked balance. A failed claim (cliff
    /// not reached, nothing accrued, no schedule, or a balance that
    /// cannot hold the credit) changes nothing.
    pub fn claim_vested(&mut self, addr: &String, now: u64) -> (r: Result<u128, ContractError>)
        requires
            old(self).wf(),
        ensures
            final(self).wf(),
            r is Err ==> *final(self) == *old(self),
            old(self).vesting.schedule_of(addr@) is None ==> r == Err::<u128, ContractError>(
                ContractError::ScheduleNotFound,
            ),
            old(self).vesting.schedule_of(addr@) matches Some(s) ==> {
                if (now as int) < s.cliff_end() {
                    r == Err::<u128, ContractError>(ContractError::CliffNotReached)
                } else if s.claimable(now) == 0 {
                    r == Err::<u128, ContractError>(ContractError::NothingToClaim)
                } else if old(self).balances.balance_of(addr@) + s.claimable(now) > u128::MAX {
                    r == Err::<u128, ContractError>(ContractError::ArithmeticOverflow)
                } else {
                    &&& r == Ok::<u128, ContractError>(s.claimable(now) as u128)
                    &&& final(self).vesting.schedule_of(addr@) == Some(s.claimed_schedule(now))
                    &&& forall|a: Seq<char>|
                        a != addr@ ==> final(self).vesting.schedule_of(a) == old(self).vesting.schedule_of(a)
                    &&& final(self).balances.balance_of(addr@) == old(self).balances.balance_of(
                        addr@,
                    ) + s.claimable(now)
                    &&& forall|a: Seq<char>|
                        a != addr@ ==> final(self).balances.balance_of(a) == old(self).balances.balance_of(a)
                    &&& final(self).info == old(self).info
                    &&& final(self).allowances == old(self).allowances
                }
            },
    {
        let sched_opt: Option<VestingDetails> = self.vesting.get_schedule(addr);
        match sched_opt {
            None => Err(ContractError::ScheduleNotFound),
            Some(mut sched) => {
                proof {
                    let idx = old(self).vesting.index_at(addr@);
                    assert(old(self).vesting.entries[idx].details.wf());
                }
                match sched.claim(now) {
                    Err(e) => Err(e),
                    Ok(amt) => {
                        let bal: u128 = self.balances.query_balance(addr);
                        if amt > u128::MAX - bal {
                            return Err(ContractError::ArithmeticOverflow);
                        }
                        self.vesting.set_schedule(addr, sched);
                        self.balances.set_balance(addr, bal + amt);
                        Ok(amt)
                    },
                }
            },
        }
    }
}

} // verus!
