use vstd::prelude::*;
use crate::error::ContractError;
use crate::vesting::VestingDetails;

verus! {

/// One holder's vesting schedule, keyed by the holder's address.
pub struct VestingEntry {
    pub addr: String,
    pub details: VestingDetails,
}

/// The vesting ledger: holder address to vesting schedule. A schedule is
/// created once when a grant is allocated, mutated only by accrual and
/// claims, and never deleted.
pub struct VestingLedger {
    pub entries: Vec<VestingEntry>,
}

/// Whether an entry rolls up under the given parent category address.
pub open spec fn in_category(e: VestingEntry, cat: Seq<char>) -> bool {
    match e.details.category_address {
        Some(c) => c@ == cat,
        None => false,
    }
}

/// The rollup aggregate over a prefix of entries: the sums of
/// `total_vesting_token_count`, `total_claimed_tokens_till_now` and
/// `tokens_available_to_claim` of every entry in the category.
pub open spec fn rollup_of(s: Seq<VestingEntry>, cat: Seq<char>) -> (int, int, int)
    decreases s.len(),
{
    if s.len() == 0 {
        (0, 0, 0)
    } else {
        let prev = rollup_of(s.drop_last(), cat);
        let e = s.last();
        if in_category(e, cat) {
            (
                prev.0 + e.details.total_vesting_token_count,
                prev.1 + e.details.total_claimed_tokens_till_now,
                prev.2 + e.details.tokens_available_to_claim,
            )
        } else {
            prev
        }
    }
}

/// Rollup sums are sums of non-negative amounts: each component is
/// non-negative and can only grow as the prefix grows.
pub proof fn lemma_rollup_prefix(s: Seq<VestingEntry>, cat: Seq<char>, i: int)
    requires
        0 <= i <= s.len(),
    ensures
        0 <= rollup_of(s.take(i), cat).0 <= rollup_of(s, cat).0,
        0 <= rollup_of(s.take(i), cat).1 <= rollup_of(s, cat).1,
        0 <= rollup_of(s.take(i), cat).2 <= rollup_of(s, cat).2,
    decreases s.len() - i,
{
    lemma_rollup_nonneg(s.take(i), cat);
    if i == s.len() {
        assert(s.take(i) =~= s);
    } else {
        lemma_rollup_prefix(s, cat, i + 1);
        assert(s.take(i + 1).drop_last() =~= s.take(i));
        assert(s.take(i + 1).last() == s[i]);
        assert(rollup_of(s.take(i + 1), cat).0 >= rollup_of(s.take(i), cat).0);
        assert(rollup_of(s.take(i + 1), cat).1 >= rollup_of(s.take(i), cat).1);
        assert(rollup_of(s.take(i + 1), cat).2 >= rollup_of(s.take(i), cat).2);
    }
}

/// Each component of a rollup is non-negative.
pub proof fn lemma_rollup_nonneg(s: Seq<VestingEntry>, cat: Seq<char>)
    ensures
        0 <= rollup_of(s, cat).0,
        0 <= rollup_of(s, cat).1,
        0 <= rollup_of(s, cat).2,
    decreases s.len(),
{
    if s.len() > 0 {
        lemma_rollup_nonneg(s.drop_last(), cat);
    }
}

impl VestingLedger {
    /// Some entry carries this address.
    pub open spec fn has_addr(&self, a: Seq<char>) -> bool {
        exists|i: int| 0 <= i < self.entries.len() && self.entries[i].addr@ == a
    }

    /// The index of an address's entry.
    pub open spec fn index_at(&self, a: Seq<char>) -> int {
        choose|i: int| 0 <= i < self.entries.len() && self.entries[i].addr@ == a
    }

    /// Each address appears at most once, and every stored schedule is
    /// well-formed.
    pub open spec fn wf(&self) -> bool {
        &&& forall|i: int, j: int|
            0 <= i < j < self.entries.len()
                ==> self.entries[i].addr@ != self.entries[j].addr@
        &&& forall|i: int| 0 <= i < self.entries.len() ==> (#[trigger] self.entries[i]).details.wf()
    }

    /// The address's schedule, `None` if it has no grant.
    pub open spec fn schedule_of(&self, a: Seq<char>) -> Option<VestingDetails> {
        if self.has_addr(a) {
            Some(self.entries[self.index_at(a)].details)
        } else {
            None
        }
    }

    /// An empty ledger: no address has a schedule.
    pub fn new() -> (r: VestingLedger)
        ensures
            r.wf(),
            forall|a: Seq<char>| #[trigger] r.schedule_of(a) == None::<VestingDetails>,
    {
        VestingLedger { entries: Vec::new() }
    }

    /// Under uniqueness, any entry's details are its address's schedule.
    proof fn lemma_entry_is_schedule(&self, j: int)
        requires
            self.wf(),
            0 <= j < self.entries.len(),
        ensures
            self.schedule_of(self.entries[j].addr@) == Some(self.entries[j].details),
    {
        assert(self.has_addr(self.entries[j].addr@));
    }

    /// The index of the address's entry, if it has one.
    fn find_index(&self, addr: &String) -> (r: Option<usize>)
        ensures
            match r {
                Some(j) => j < self.entries.len() && self.entries[j as int].addr@ == addr@,
                None => !self.has_addr(addr@),
            },
    {
        let n = self.entries.len();
        let mut i: usize = 0;
        while i < n
            invariant
                i <= n,
                n == self.entries.len(),
                forall|k: int| 0 <= k < i ==> self.entries[k].addr@ != addr@,
            decreases n - i,
        {
            if self.entries[i].addr == *addr {
                return Some(i);
            }
            i = i + 1;
        }
        None
    }

    /// A copy of the address's schedule, if it has one.
    pub fn get_schedule(&self, addr: &String) -> (r: Option<VestingDetails>)
        requires
            self.wf(),
        ensures
            r == self.schedule_of(addr@),
    {
        match self.find_index(addr) {
            Some(j) => {
                proof {
                    self.lemma_entry_is_schedule(j as int);
                }
                Some(self.entries[j].details.clone())
            },
            None => None,
        }
    }

    /// Overwrite (or create) the entry for an address.
    pub fn set_schedule(&mut self, addr: &String, details: VestingDetails)
        requires
            old(self).wf(),
            details.wf(),
        ensures
            final(self).wf(),
            final(self).schedule_of(addr@) == Some(details),
            forall|a: Seq<char>|
                a != addr@ ==> final(self).schedule_of(a) == old(self).schedule_of(a),
    {
        match self.find_index(addr) {
            Some(j) => {
                self.entries.set(j, VestingEntry { addr: addr.clone(), details });
                proof {
                    self.lemma_entry_is_schedule(j as int);
                    assert forall|a: Seq<char>| a != addr@
                        implies final(self).schedule_of(a) == old(self).schedule_of(a) by {
                        assert(final(self).has_addr(a) == old(self).has_addr(a)) by {
                            if old(self).has_addr(a) {
                                let w = old(self).index_at(a);
                                assert(final(self).entries[w].addr@ == a);
                            }
                            if final(self).has_addr(a) {
                                let w = final(self).index_at(a);
                                assert(old(self).entries[w].addr@ == a);
                            }
                        }
                    }
                }
            },
            None => {
                self.entries.push(VestingEntry { addr: addr.clone(), details });
                proof {
                    let n = old(self).entries.len() as int;
                    assert(final(self).entries[n].addr@ == addr@);
                    self.lemma_entry_is_schedule(n);
                    assert forall|a: Seq<char>| a != addr@
                        implies final(self).schedule_of(a) == old(self).schedule_of(a) by {
                        if old(self).has_addr(a) {
                            let w = old(self).index_at(a);
                            assert(final(self).entries[w].addr@ == a);
                        }
                        if final(self).has_addr(a) {
                            let w = final(self).index_at(a);
                            assert(w < n);
                            assert(old(self).entries[w].addr@ == a);
                        }
                    }
                }
            },
        }
    }

    /// Sum `total_vesting_token_count`, `total_claimed_tokens_till_now`
    /// and `tokens_available_to_claim` over every schedule in the given
    /// category. Purely a reporting view: the category relationship grants
    /// no transfer authority. Fails with `ArithmeticOverflow` when a sum
    /// does not fit the integer width.
    pub fn query_category_rollup(&self, category: &String) -> (r: Result<
        (u128, u128, u128),
        ContractError,
    >)
        ensures
            ({
                let full = rollup_of(self.entries@, category@);
                if full.0 <= u128::MAX && full.1 <= u128::MAX && full.2 <= u128::MAX {
                    r == Ok::<(u128, u128, u128), ContractError>(
                        ((full.0 as u128), (full.1 as u128), (full.2 as u128)),
                    )
                } else {
                    r == Err::<(u128, u128, u128), ContractError>(
                        ContractError::ArithmeticOverflow,
                    )
                }
            }),
    {
        let n = self.entries.len();
        let mut total: u128 = 0;
        let mut claimed: u128 = 0;
        let mut available: u128 = 0;
        let mut i: usize = 0;
        while i < n
            invariant
                i <= n,
                n == self.entries.len(),
                total as int == rollup_of(self.entries@.take(i as int), category@).0,
                claimed as int == rollup_of(self.entries@.take(i as int), category@).1,
                available as int == rollup_of(self.entries@.take(i as int), category@).2,
            decreases n - i,
        {
            proof {
                assert(self.entries@.take(i + 1).drop_last() =~= self.entries@.take(i as int));
                assert(self.entries@.take(i + 1).last() == self.entries@[i as int]);
                lemma_rollup_prefix(self.entries@, category@, i + 1);
            }
            let matches_cat: bool = match &self.entries[i].details.category_address {
                Some(c) => *c == *category,
                None => false,
            };
            if matches_cat {
                let d = &self.entries[i].details;
                if d.total_vesting_token_count > u128::MAX - total
                    || d.total_claimed_tokens_till_now > u128::MAX - claimed
                    || d.tokens_available_to_claim > u128::MAX - available {
                    return Err(ContractError::ArithmeticOverflow);
                }
                total = total + d.total_vesting_token_count;
                claimed = claimed + d.total_claimed_tokens_till_now;
                available = available + d.tokens_available_to_claim;
            }
            i = i + 1;
        }
        proof {
            assert(self.entries@.take(n as int) =~= self.entries@);
        }
        Ok((total, claimed, available))
    }
}

} // verus!
