use vstd::prelude::*;

verus! {

/// A delegated spending right: what `spender` may still move out of
/// `owner`'s balance, and until when.
pub struct AllowanceEntry {
    pub owner: String,
    pub spender: String,
    /// Amount the spender may still transfer.
    pub remaining: u128,
    /// Instant (in seconds) at which the right lapses; `None` never lapses.
    pub expires: Option<u64>,
}

/// The allowance ledger: one entry per (owner, spender) pair. A pair with
/// no entry has a remaining allowance of zero.
pub struct Allowances {
    pub entries: Vec<AllowanceEntry>,
}

impl Allowances {
    /// Some entry carries this (owner, spender) pair.
    pub open spec fn has_pair(&self, o: Seq<char>, s: Seq<char>) -> bool {
        exists|i: int|
            0 <= i < self.entries.len() && self.entries[i].owner@ == o
                && self.entries[i].spender@ == s
    }

    /// Each (owner, spender) pair appears at most once.
    pub open spec fn wf(&self) -> bool {
        forall|i: int, j: int|
            0 <= i < j < self.entries.len()
                ==> !(self.entries[i].owner@ == self.entries[j].owner@
                    && self.entries[i].spender@ == self.entries[j].spender@)
    }

    /// The index of the pair's entry.
    pub open spec fn index_of(&self, o: Seq<char>, s: Seq<char>) -> int {
        choose|i: int|
            0 <= i < self.entries.len() && self.entries[i].owner@ == o
                && self.entries[i].spender@ == s
    }

    /// The amount the spender may still move: the entry's remaining
    /// amount, zero if the pair has no entry.
    pub open spec fn remaining_of(&self, o: Seq<char>, s: Seq<char>) -> int {
        if self.has_pair(o, s) {
            self.entries[self.index_of(o, s)].remaining as int
        } else {
            0
        }
    }

    /// When the pair's allowance lapses; `None` if it never does or if
    /// the pair has no entry.
    pub open spec fn expiry_of(&self, o: Seq<char>, s: Seq<char>) -> Option<u64> {
        if self.has_pair(o, s) {
            self.entries[self.index_of(o, s)].expires
        } else {
            None
        }
    }

    /// An empty ledger: every pair's remaining allowance is zero.
    pub fn new() -> (r: Allowances)
        ensures
            r.wf(),
            forall|o: Seq<char>, s: Seq<char>| #[trigger] r.remaining_of(o, s) == 0,
            forall|o: Seq<char>, s: Seq<char>| #[trigger] r.expiry_of(o, s) == None::<u64>,
    {
        Allowances { entries: Vec::new() }
    }

    /// Under uniqueness, any entry describes its own pair's allowance.
    proof fn lemma_entry_is_allowance(&self, j: int)
        requires
            self.wf(),
            0 <= j < self.entries.len(),
        ensures
            self.remaining_of(self.entries[j].owner@, self.entries[j].spender@)
                == self.entries[j].remaining,
            self.expiry_of(self.entries[j].owner@, self.entries[j].spender@)
                == self.entries[j].expires,
    {
        assert(self.has_pair(self.entries[j].owner@, self.entries[j].spender@));
    }

    /// The index of the pair's entry, if it has one.
    fn find_index(&self, owner: &String, spender: &String) -> (r: Option<usize>)
        ensures
            match r {
                Some(j) => j < self.entries.len()
                    && self.entries[j as int].owner@ == owner@
                    && self.entries[j as int].spender@ == spender@,
                None => !self.has_pair(owner@, spender@),
            },
    {
        let n = self.entries.len();
        let mut i: usize = 0;
        while i < n
            invariant
                i <= n,
                n == self.entries.len(),
                forall|k: int|
                    0 <= k < i
                        ==> !(self.entries[k].owner@ == owner@
                            && self.entries[k].spender@ == spender@),
            decreases n - i,
        {
            if self.entries[i].owner == *owner && self.entries[i].spender == *spender {
                return Some(i);
            }
            i = i + 1;
        }
        None
    }

    /// The pair's remaining amount and expiration.
    pub fn query_allowance(&self, owner: &String, spender: &String) -> (r: (u128, Option<u64>))
        requires
            self.wf(),
        ensures
            r.0 as int == self.remaining_of(owner@, spender@),
            r.1 == self.expiry_of(owner@, spender@),
    {
        match self.find_index(owner, spender) {
            Some(j) => {
                proof {
                    self.lemma_entry_is_allowance(j as int);
                }
                (self.entries[j].remaining, self.entries[j].expires)
            },
            None => (0, None),
        }
    }

    /// Overwrite (or create) the pair's entry.
    pub fn set_allowance(
        &mut self,
        owner: &String,
        spender: &String,
        remaining: u128,
        expires: Option<u64>,
    )
        requires
            old(self).wf(),
        ensures
            final(self).wf(),
            final(self).remaining_of(owner@, spender@) == remaining,
            final(self).expiry_of(owner@, spender@) == expires,
            forall|o: Seq<char>, s: Seq<char>|
                !(o == owner@ && s == spender@)
                    ==> final(self).remaining_of(o, s) == old(self).remaining_of(o, s)
                        && final(self).expiry_of(o, s) == old(self).expiry_of(o, s),
    {
        let entry = AllowanceEntry {
            owner: owner.clone(),
            spender: spender.clone(),
            remaining,
            expires,
        };
        match self.find_index(owner, spender) {
            Some(j) => {
                self.entries.set(j, entry);
                proof {
                    self.lemma_entry_is_allowance(j as int);
                    assert forall|o: Seq<char>, s: Seq<char>| !(o == owner@ && s == spender@)
                        implies final(self).remaining_of(o, s) == old(self).remaining_of(o, s)
                            && final(self).expiry_of(o, s) == old(self).expiry_of(o, s) by {
                        assert(final(self).has_pair(o, s) == old(self).has_pair(o, s)) by {
                            if old(self).has_pair(o, s) {
                                let w = old(self).index_of(o, s);
                                assert(final(self).entries[w].owner@ == o
                                    && final(self).entries[w].spender@ == s);
                            }
                            if final(self).has_pair(o, s) {
                                let w = final(self).index_of(o, s);
                                assert(old(self).entries[w].owner@ == o
                                    && old(self).entries[w].spender@ == s);
                            }
                        }
                    }
                }
            },
            None => {
                self.entries.push(entry);
                proof {
                    let n = old(self).entries.len() as int;
                    assert(final(self).entries[n].owner@ == owner@
                        && final(self).entries[n].spender@ == spender@);
                    self.lemma_entry_is_allowance(n);
                    assert forall|o: Seq<char>, s: Seq<char>| !(o == owner@ && s == spender@)
                        implies final(self).remaining_of(o, s) == old(self).remaining_of(o, s)
                            && final(self).expiry_of(o, s) == old(self).expiry_of(o, s) by {
                        if old(self).has_pair(o, s) {
                            let w = old(self).index_of(o, s);
                            assert(final(self).entries[w].owner@ == o
                                && final(self).entries[w].spender@ == s);
                        }
                        if final(self).has_pair(o, s) {
                            let w = final(self).index_of(o, s);
                            assert(w < n);
                            assert(old(self).entries[w].owner@ == o
                                && old(self).entries[w].spender@ == s);
                        }
                    }
                }
            },
        }
    }
}

} // verus!
