use vstd::prelude::*;
use crate::error::ContractError;

verus! {

/// One holder's unlocked balance.
pub struct BalanceEntry {
    pub addr: String,
    pub amount: u128,
}

/// The balance ledger: holder address to unlocked balance. An address
/// with no entry holds zero, so removing and zeroing an entry are
/// indistinguishable to callers.
pub struct Balances {
    pub entries: Vec<BalanceEntry>,
}

impl Balances {
    /// Some entry carries this address.
    pub open spec fn has_addr(&self, a: Seq<char>) -> bool {
        exists|i: int| 0 <= i < self.entries.len() && self.entries[i].addr@ == a
    }

    /// Each address appears at most once.
    pub open spec fn wf(&self) -> bool {
        forall|i: int, j: int|
            0 <= i < j < self.entries.len()
                ==> self.entries[i].addr@ != self.entries[j].addr@
    }

    /// The balance of an address: its entry's amount, zero if absent.
    pub open spec fn balance_of(&self, a: Seq<char>) -> int {
        if self.has_addr(a) {
            self.entries[choose|i: int|
                0 <= i < self.entries.len() && self.entries[i].addr@ == a].amount as int
        } else {
            0
        }
    }

    /// An empty ledger: every address holds zero.
    pub fn new() -> (r: Balances)
        ensures
            r.wf(),
            forall|a: Seq<char>| #[trigger] r.balance_of(a) == 0,
    {
        Balances { entries: Vec::new() }
    }

    /// Under uniqueness, any entry's amount is the balance of its address.
    proof fn lemma_entry_is_balance(&self, j: int)
        requires
            self.wf(),
            0 <= j < self.entries.len(),
        ensures
            self.balance_of(self.entries[j].addr@) == self.entries[j].amount,
    {
        assert(self.has_addr(self.entries[j].addr@));
    }

    /// The index of an address's entry, if it has one.
    fn find_index(&self, addr: &String) -> (r: Option<usize>)
        ensures
            match r {
                Some(j) => j < self.entries.len() && self.entries[j as int].addr@ == addr@,
                None => !self.has_addr(addr@),
            },
    {
        let n = self.entries.len();
        let mut i: usize = 0;
        while i < n
            invariant
                i <= n,
                n == self.entries.len(),
                forall|k: int| 0 <= k < i ==> self.entries[k].addr@ != addr@,
            decreases n - i,
        {
            if self.entries[i].addr == *addr {
                return Some(i);
            }
            i = i + 1;
        }
        None
    }

    /// The holder's current unlocked balance.
    pub fn query_balance(&self, addr: &String) -> (r: u128)
        requires
            self.wf(),
        ensures
            r as int == self.balance_of(addr@),
    {
        match self.find_index(addr) {
            Some(j) => {
                proof {
                    self.lemma_entry_is_balance(j as int);
                }
                self.entries[j].amount
            },
            None => 0,
        }
    }

    /// Overwrite (or create) the entry for an address.
    pub fn set_balance(&mut self, addr: &String, amount: u128)
        requires
            old(self).wf(),
        ensures
            final(self).wf(),
            final(self).balance_of(addr@) == amount,
            forall|a: Seq<char>|
                a != addr@ ==> final(self).balance_of(a) == old(self).balance_of(a),
    {
        match self.find_index(addr) {
            Some(j) => {
                self.entries.set(j, BalanceEntry { addr: addr.clone(), amount });
                proof {
                    self.lemma_entry_is_balance(j as int);
                    assert forall|a: Seq<char>| a != addr@
                        implies final(self).balance_of(a) == old(self).balance_of(a) by {
                        assert(final(self).has_addr(a) == old(self).has_addr(a)) by {
                            if old(self).has_addr(a) {
                                let w = choose|i: int|
                                    0 <= i < old(self).entries.len()
                                        && old(self).entries[i].addr@ == a;
                                assert(final(self).entries[w].addr@ == a);
                            }
                            if final(self).has_addr(a) {
                                let w = choose|i: int|
                                    0 <= i < final(self).entries.len()
                                        && final(self).entries[i].addr@ == a;
                                assert(old(self).entries[w].addr@ == a);
                            }
                        }
                    }
                }
            },
            None => {
                self.entries.push(BalanceEntry { addr: addr.clone(), amount });
                proof {
                    let n = old(self).entries.len() as int;
                    assert(final(self).entries[n].addr@ == addr@);
                    self.lemma_entry_is_balance(n);
                    assert forall|a: Seq<char>| a != addr@
                        implies final(self).balance_of(a) == old(self).balance_of(a) by {
                        if old(self).has_addr(a) {
                            let w = choose|i: int|
                                0 <= i < old(self).entries.len()
                                    && old(self).entries[i].addr@ == a;
                            assert(final(self).entries[w].addr@ == a);
                        }
                        if final(self).has_addr(a) {
                            let w = choose|i: int|
                                0 <= i < final(self).entries.len()
                                    && final(self).entries[i].addr@ == a;
                            assert(w < n);
                            assert(old(self).entries[w].addr@ == a);
                        }
                    }
                }
            },
        }
    }

    /// Add to a holder's balance; fails with `ArithmeticOverflow` (and
    /// changes nothing) when the new balance would not fit.
    pub fn credit(&mut self, addr: &String, amount: u128) -> (r: Result<(), ContractError>)
        requires
            old(self).wf(),
        ensures
            final(self).wf(),
            old(self).balance_of(addr@) + amount <= u128::MAX ==> {
                &&& r == Ok::<(), ContractError>(())
                &&& final(self).balance_of(addr@) == old(self).balance_of(addr@) + amount
                &&& forall|a: Seq<char>|
                    a != addr@ ==> final(self).balance_of(a) == old(self).balance_of(a)
            },
            old(self).balance_of(addr@) + amount > u128::MAX ==> {
                &&& r == Err::<(), ContractError>(ContractError::ArithmeticOverflow)
                &&& *final(self) == *old(self)
            },
    {
        let cur: u128 = self.query_balance(addr);
        if amount > u128::MAX - cur {
            return Err(ContractError::ArithmeticOverflow);
        }
        self.set_balance(addr, cur + amount);
        Ok(())
    }

    /// Take from a holder's balance; fails with `InsufficientFunds` (and
    /// changes nothing) when the balance is smaller than the amount.
    pub fn debit(&mut self, addr: &String, amount: u128) -> (r: Result<(), ContractError>)
        requires
            old(self).wf(),
        ensures
            final(self).wf(),
            amount <= old(self).balance_of(addr@) ==> {
                &&& r == Ok::<(), ContractError>(())
                &&& final(self).balance_of(addr@) == old(self).balance_of(addr@) - amount
                &&& forall|a: Seq<char>|
                    a != addr@ ==> final(self).balance_of(a) == old(self).balance_of(a)
            },
            amount > old(self).balance_of(addr@) ==> {
                &&& r == Err::<(), ContractError>(ContractError::InsufficientFunds)
                &&& *final(self) == *old(self)
            },
    {
        let cur: u128 = self.query_balance(addr);
        if amount > cur {
            return Err(ContractError::InsufficientFunds);
        }
        self.set_balance(addr, cur - amount);
        Ok(())
    }
}

} // verus!
