use vstd::prelude::*;

use crate::identity::Identity;

verus! {

/// An account of the value ledger: a participant's own balance, or the custody
/// account that holds the value locked behind one credit (by the credit's id).
#[derive(Clone, Copy, Debug, PartialEq, Eq, Structural)]
pub enum AccountKey {
    Personal(Identity),
    Custody(usize),
}

/// Why a ledger operation was refused; a refused operation changes nothing.
#[derive(Clone, Copy, Debug, PartialEq, Eq, Structural)]
pub enum LedgerError {
    /// The source account holds less than the amount to move.
    InsufficientBalance,
    /// Minting would take the total supply past `u64::MAX`.
    SupplyOverflow,
}

#[derive(Clone, Copy, Debug)]
pub struct LedgerEntry {
    pub key: AccountKey,
    pub balance: u64,
}

/// Fungible balances per account, with an all-or-nothing `transfer`.
/// An account that was never credited holds zero.
pub struct Ledger {
    entries: Vec<LedgerEntry>,
}

pub open spec fn total_of(s: Seq<LedgerEntry>) -> nat
    decreases s.len(),
{
    if s.len() == 0 {
        0
    } else {
        total_of(s.drop_last()) + s.last().balance as nat
    }
}

pub open spec fn has_key(s: Seq<LedgerEntry>, k: AccountKey) -> bool {
    exists|i: int| 0 <= i < s.len() && s[i].key == k
}

pub open spec fn balance_in(s: Seq<LedgerEntry>, k: AccountKey) -> nat {
    if has_key(s, k) {
        s[choose|i: int| 0 <= i < s.len() && s[i].key == k].balance as nat
    } else {
        0
    }
}

pub open spec fn keys_unique(s: Seq<LedgerEntry>) -> bool {
    forall|i: int, j: int| 0 <= i < j < s.len() ==> s[i].key != s[j].key
}

proof fn lemma_balance_at(s: Seq<LedgerEntry>, i: int)
    requires
        keys_unique(s),
        0 <= i < s.len(),
    ensures
        balance_in(s, s[i].key) == s[i].balance,
{
    assert(has_key(s, s[i].key));
    let j = choose|j: int| 0 <= j < s.len() && s[j].key == s[i].key;
    assert(i == j);
}

proof fn lemma_total_update(s: Seq<LedgerEntry>, i: int, e: LedgerEntry)
    requires
        0 <= i < s.len(),
    ensures
        total_of(s.update(i, e)) == total_of(s) - s[i].balance + e.balance,
        s[i].balance <= total_of(s),
    decreases s.len(),
{
    let t = s.update(i, e);
    if i == s.len() - 1 {
        assert(t.drop_last() =~= s.drop_last());
    } else {
        lemma_total_update(s.drop_last(), i, e);
        assert(t.drop_last() =~= s.drop_last().update(i, e));
    }
}

proof fn lemma_total_push(s: Seq<LedgerEntry>, e: LedgerEntry)
    ensures
        total_of(s.push(e)) == total_of(s) + e.balance,
{
    assert(s.push(e).drop_last() =~= s);
}

impl Ledger {
    /// Balance held by account `k` (zero for an account never credited).
    pub closed spec fn balance(&self, k: AccountKey) -> nat {
        balance_in(self.entries@, k)
    }

    /// Sum of all balances: the supply of the value token.
    pub closed spec fn total(&self) -> nat {
        total_of(self.entries@)
    }

    /// Each account appears once, and the whole supply fits in a `u64`.
    pub closed spec fn wf(&self) -> bool {
        keys_unique(self.entries@) && total_of(self.entries@) <= u64::MAX
    }

    /// Whether `after` is `self` with `amount` moved from `from` to `to`,
    /// every other account untouched.
    pub open spec fn moved(&self, after: &Ledger, from: AccountKey, to: AccountKey, amount: nat) -> bool {
        &&& forall|k: AccountKey|
            #![trigger after.balance(k)]
            k != from && k != to ==> after.balance(k) == self.balance(k)
        &&& from == to ==> after.balance(from) == self.balance(from)
        &&& from != to ==> after.balance(from) == self.balance(from) - amount
        &&& from != to ==> after.balance(to) == self.balance(to) + amount
        &&& after.total() == self.total()
    }

    /// Whether `after` is `self` with `amount` new units credited to `to`.
    pub open spec fn minted(&self, after: &Ledger, to: AccountKey, amount: nat) -> bool {
        &&& forall|k: AccountKey|
            #![trigger after.balance(k)]
            k != to ==> after.balance(k) == self.balance(k)
        &&& after.balance(to) == self.balance(to) + amount
        &&& after.total() == self.total() + amount
    }

    pub fn new() -> (r: Ledger)
        ensures
            r.wf(),
            r.total() == 0,
            forall|k: AccountKey| #[trigger] r.balance(k) == 0,
    {
        Ledger { entries: Vec::new() }
    }

    fn find(&self, k: &AccountKey) -> (r: Option<usize>)
        ensures
            match r {
                Some(i) => i < self.entries@.len() && self.entries@[i as int].key == *k,
                None => !has_key(self.entries@, *k),
            },
    {
        let mut i: usize = 0;
        while i < self.entries.len()
            invariant
                i <= self.entries@.len(),
                forall|j: int| 0 <= j < i ==> self.entries@[j].key != *k,
            decreases self.entries@.len() - i,
        {
            if self.entries[i].key == *k {
                return Some(i);
            }
            i = i + 1;
        }
        None
    }

    /// Balance held by account `k`.
    pub fn balance_of(&self, k: &AccountKey) -> (r: u64)
        requires
            self.wf(),
        ensures
            r == self.balance(*k),
    {
        match self.find(k) {
            Some(i) => {
                proof {
                    lemma_balance_at(self.entries@, i as int);
                }
                self.entries[i].balance
            },
            None => 0,
        }
    }

    /// Index of the entry for `k`, adding one with a zero balance if there is none.
    fn entry_for(&mut self, k: &AccountKey) -> (r: usize)
        requires
            old(self).wf(),
        ensures
            final(self).wf(),
            r < final(self).entries@.len(),
            final(self).entries@[r as int].key == *k,
            final(self).entries@.len() >= old(self).entries@.len(),
            forall|j: int| 0 <= j < old(self).entries@.len() ==>
                #[trigger] final(self).entries@[j] == old(self).entries@[j],
            final(self).total() == old(self).total(),
            forall|a: AccountKey| #[trigger] final(self).balance(a) == old(self).balance(a),
    {
        match self.find(k) {
            Some(i) => i,
            None => {
                let ghost s = self.entries@;
                let e = LedgerEntry { key: *k, balance: 0 };
                self.entries.push(e);
                proof {
                    let t = self.entries@;
                    lemma_total_push(s, e);
                    assert forall|a: AccountKey| #[trigger] balance_in(t, a) == balance_in(s, a) by {
                        if has_key(s, a) {
                            let j = choose|j: int| 0 <= j < s.len() && s[j].key == a;
                            lemma_balance_at(s, j);
                            assert(t[j] == s[j]);
                            lemma_balance_at(t, j);
                        } else if a == *k {
                            lemma_balance_at(t, s.len() as int);
                        } else {
                            assert forall|j: int| 0 <= j < t.len() implies t[j].key != a by {
                                if j < s.len() {
                                    assert(t[j] == s[j]);
                                }
                            }
                        }
                    }
                }
                self.entries.len() - 1
            },
        }
    }

    /// Sets the balance of entry `i`, keeping its key.
    fn set_balance(&mut self, i: usize, v: u64)
        requires
            old(self).wf(),
            i < old(self).entries@.len(),
            old(self).total() - old(self).entries@[i as int].balance + v <= u64::MAX,
        ensures
            final(self).wf(),
            final(self).entries@.len() == old(self).entries@.len(),
            forall|j: int| 0 <= j < final(self).entries@.len() ==>
                #[trigger] final(self).entries@[j].key == old(self).entries@[j].key,
            final(self).balance(old(self).entries@[i as int].key) == v,
            forall|a: AccountKey|
                a != old(self).entries@[i as int].key ==> #[trigger] final(self).balance(a)
                    == old(self).balance(a),
            final(self).total() == old(self).total() - old(self).balance(
                old(self).entries@[i as int].key,
            ) + v,
    {
        let ghost s = self.entries@;
        let k = self.entries[i].key;
        let e = LedgerEntry { key: k, balance: v };
        self.entries.set(i, e);
        proof {
            let t = self.entries@;
            lemma_total_update(s, i as int, e);
            lemma_balance_at(s, i as int);
            assert(keys_unique(t)) by {
                assert forall|a: int, b: int| 0 <= a < b < t.len() implies t[a].key != t[b].key by {
                    assert(t[a].key == s[a].key && t[b].key == s[b].key);
                }
            }
            lemma_balance_at(t, i as int);
            assert forall|a: AccountKey| a != k implies #[trigger] balance_in(t, a) == balance_in(s, a) by {
                if has_key(s, a) {
                    let j = choose|j: int| 0 <= j < s.len() && s[j].key == a;
                    lemma_balance_at(s, j);
                    lemma_balance_at(t, j);
                } else {
                    assert forall|j: int| 0 <= j < t.len() implies t[j].key != a by {
                        assert(t[j].key == s[j].key);
                    }
                }
            }
        }
    }

    /// Moves `amount` from `from` to `to`, all or nothing.
    pub fn transfer(&mut self, from: AccountKey, to: AccountKey, amount: u64) -> (r: Result<(), LedgerError>)
        requires
            old(self).wf(),
        ensures
            final(self).wf(),
            r is Ok <==> old(self).balance(from) >= amount,
            r is Ok ==> old(self).moved(&*final(self), from, to, amount as nat),
            r is Err ==> r == Err::<(), LedgerError>(LedgerError::InsufficientBalance)
                && *final(self) == *old(self),
    {
        let fb = self.balance_of(&from);
        if fb < amount {
            return Err(LedgerError::InsufficientBalance);
        }
        if from == to {
            return Ok(());
        }
        let i = self.entry_for(&from);
        let j = self.entry_for(&to);
        proof {
            lemma_balance_at(self.entries@, i as int);
            lemma_total_update(self.entries@, i as int, self.entries@[i as int]);
            assert(self.balance(from) == fb);
            assert(self.balance(to) == old(self).balance(to));
        }
        self.set_balance(i, fb - amount);
        let tb = self.entries[j].balance;
        proof {
            assert(self.entries@[j as int].key == to);
            lemma_balance_at(self.entries@, j as int);
            lemma_total_update(self.entries@, j as int, self.entries@[j as int]);
        }
        self.set_balance(j, tb + amount);
        Ok(())
    }

    /// Credits `amount` new units to `to`, unless the supply would pass `u64::MAX`.
    pub fn mint_to(&mut self, to: AccountKey, amount: u64) -> (r: Result<(), LedgerError>)
        requires
            old(self).wf(),
        ensures
            final(self).wf(),
            r is Ok <==> old(self).total() + amount <= u64::MAX,
            r is Ok ==> old(self).minted(&*final(self), to, amount as nat),
            r is Err ==> r == Err::<(), LedgerError>(LedgerError::SupplyOverflow)
                && *final(self) == *old(self),
    {
        let supply = self.total_supply();
        if amount > u64::MAX - supply {
            return Err(LedgerError::SupplyOverflow);
        }
        let j = self.entry_for(&to);
        let tb = self.entries[j].balance;
        proof {
            lemma_balance_at(self.entries@, j as int);
            lemma_total_update(self.entries@, j as int, self.entries@[j as int]);
        }
        self.set_balance(j, tb + amount);
        Ok(())
    }

    /// Sum of all balances.
    pub fn total_supply(&self) -> (r: u64)
        requires
            self.wf(),
        ensures
            r == self.total(),
    {
        let mut sum: u64 = 0;
        let mut i: usize = 0;
        while i < self.entries.len()
            invariant
                self.wf(),
                i <= self.entries@.len(),
                sum == total_of(self.entries@.subrange(0, i as int)),
            decreases self.entries@.len() - i,
        {
            proof {
                let s = self.entries@;
                assert(s.subrange(0, i + 1).drop_last() =~= s.subrange(0, i as int));
                lemma_prefix_total_le(s, i + 1);
            }
            sum = sum + self.entries[i].balance;
            i = i + 1;
        }
        proof {
            assert(self.entries@.subrange(0, i as int) =~= self.entries@);
        }
        sum
    }
}

proof fn lemma_prefix_total_le(s: Seq<LedgerEntry>, n: int)
    requires
        0 <= n <= s.len(),
    ensures
        total_of(s.subrange(0, n)) <= total_of(s),
    decreases s.len(),
{
    if n < s.len() {
        assert(s.drop_last().subrange(0, n) =~= s.subrange(0, n));
        lemma_prefix_total_le(s.drop_last(), n);
    } else {
        assert(s.subrange(0, n) =~= s);
    }
}

} // verus!
