use vstd::prelude::*;

use crate::error::Error;

verus! {

/// One holder's receipt balance.
#[derive(Clone, Debug)]
pub struct BalanceEntry {
    pub addr: String,
    pub amount: u128,
}

/// Sum of all amounts recorded in a balance table.
pub open spec fn sum_amounts(s: Seq<BalanceEntry>) -> int
    decreases s.len(),
{
    if s.len() == 0 {
        0
    } else {
        sum_amounts(s.drop_last()) + s.last().amount
    }
}

/// The balance recorded for `addr`: the first matching entry, or zero.
pub open spec fn spec_balance(s: Seq<BalanceEntry>, addr: Seq<char>) -> u128
    decreases s.len(),
{
    if s.len() == 0 {
        0
    } else if s[0].addr@ == addr {
        s[0].amount
    } else {
        spec_balance(s.drop_first(), addr)
    }
}

/// A sum of balances is never negative.
pub proof fn lemma_sum_nonneg(s: Seq<BalanceEntry>)
    ensures
        sum_amounts(s) >= 0,
    decreases s.len(),
{
    if s.len() > 0 {
        lemma_sum_nonneg(s.drop_last());
    }
}

/// Each single entry is at most the sum of the whole table.
pub proof fn lemma_entry_le_sum(s: Seq<BalanceEntry>, i: int)
    requires
        0 <= i < s.len(),
    ensures
        s[i].amount <= sum_amounts(s),
    decreases s.len(),
{
    if i == s.len() - 1 {
        lemma_sum_nonneg(s.drop_last());
    } else {
        lemma_entry_le_sum(s.drop_last(), i);
    }
}

/// Replacing one entry shifts the sum by the difference of the amounts.
pub proof fn lemma_sum_update(s: Seq<BalanceEntry>, i: int, e: BalanceEntry)
    requires
        0 <= i < s.len(),
    ensures
        sum_amounts(s.update(i, e)) == sum_amounts(s) - s[i].amount + e.amount,
    decreases s.len(),
{
    let t = s.update(i, e);
    if i == s.len() - 1 {
        assert(t.drop_last() =~= s.drop_last());
    } else {
        assert(t.drop_last() =~= s.drop_last().update(i, e));
        lemma_sum_update(s.drop_last(), i, e);
    }
}

/// Appending an entry adds its amount to the sum.
pub proof fn lemma_sum_push(s: Seq<BalanceEntry>, e: BalanceEntry)
    ensures
        sum_amounts(s.push(e)) == sum_amounts(s) + e.amount,
{
    assert(s.push(e).drop_last() =~= s);
}

/// The first entry matching `addr` carries the recorded balance.
pub proof fn lemma_first_match_balance(s: Seq<BalanceEntry>, addr: Seq<char>, i: int)
    requires
        0 <= i < s.len(),
        s[i].addr@ == addr,
        forall|j: int| 0 <= j < i ==> s[j].addr@ != addr,
    ensures
        spec_balance(s, addr) == s[i].amount,
    decreases s.len(),
{
    if i > 0 {
        lemma_first_match_balance(s.drop_first(), addr, i - 1);
    }
}

/// A table with no entry for `addr` records a zero balance for it.
pub proof fn lemma_absent_balance(s: Seq<BalanceEntry>, addr: Seq<char>)
    requires
        forall|j: int| 0 <= j < s.len() ==> s[j].addr@ != addr,
    ensures
        spec_balance(s, addr) == 0,
    decreases s.len(),
{
    if s.len() > 0 {
        lemma_absent_balance(s.drop_first(), addr);
    }
}

/// Replacing the first entry for an address rewrites that address's balance.
pub proof fn lemma_balance_update_match(s: Seq<BalanceEntry>, i: int, e: BalanceEntry)
    requires
        0 <= i < s.len(),
        e.addr@ == s[i].addr@,
        forall|j: int| 0 <= j < i ==> s[j].addr@ != s[i].addr@,
    ensures
        spec_balance(s.update(i, e), e.addr@) == e.amount,
    decreases s.len(),
{
    let t = s.update(i, e);
    if i > 0 {
        assert(t.drop_first() =~= s.drop_first().update(i - 1, e));
        lemma_balance_update_match(s.drop_first(), i - 1, e);
    }
}

/// Replacing an entry leaves every other address's balance unchanged.
pub proof fn lemma_balance_update_other(s: Seq<BalanceEntry>, i: int, e: BalanceEntry, b: Seq<char>)
    requires
        0 <= i < s.len(),
        e.addr@ == s[i].addr@,
        b != s[i].addr@,
    ensures
        spec_balance(s.update(i, e), b) == spec_balance(s, b),
    decreases s.len(),
{
    let t = s.update(i, e);
    if i == 0 {
        assert(t.drop_first() =~= s.drop_first());
    } else {
        assert(t.drop_first() =~= s.drop_first().update(i - 1, e));
        lemma_balance_update_other(s.drop_first(), i - 1, e, b);
    }
}

/// Appending an entry for a fresh address records that entry's amount.
pub proof fn lemma_balance_push_fresh(s: Seq<BalanceEntry>, e: BalanceEntry)
    requires
        forall|j: int| 0 <= j < s.len() ==> s[j].addr@ != e.addr@,
    ensures
        spec_balance(s.push(e), e.addr@) == e.amount,
    decreases s.len(),
{
    if s.len() > 0 {
        assert(s.push(e).drop_first() =~= s.drop_first().push(e));
        lemma_balance_push_fresh(s.drop_first(), e);
        assert(s.push(e)[0] == s[0]);
    } else {
        assert(s.push(e)[0] == e);
        assert(spec_balance(s.push(e).drop_first(), e.addr@) == 0);
    }
}

/// Appending an entry leaves every other address's balance unchanged.
pub proof fn lemma_balance_push_other(s: Seq<BalanceEntry>, e: BalanceEntry, b: Seq<char>)
    requires
        b != e.addr@,
    ensures
        spec_balance(s.push(e), b) == spec_balance(s, b),
    decreases s.len(),
{
    if s.len() > 0 {
        assert(s.push(e).drop_first() =~= s.drop_first().push(e));
        lemma_balance_push_other(s.drop_first(), e, b);
        assert(s.push(e)[0] == s[0]);
    } else {
        assert(s.push(e)[0] == e);
        assert(spec_balance(s.push(e).drop_first(), b) == 0);
    }
}

/// The receipt-token ledger: token metadata, the mint authority, the total
/// supply and the per-holder balance table. It models the generic token
/// ledger this engine drives through its two primitives, `mint` and `burn`.
#[derive(Clone, Debug)]
pub struct Ledger {
    pub name: String,
    pub symbol: String,
    pub decimals: u8,
    /// The only principal permitted to mint.
    pub minter: String,
    /// Optional hard cap on total supply.
    pub cap: Option<u128>,
    pub total_supply: u128,
    pub balances: Vec<BalanceEntry>,
}

impl Ledger {
    /// Total supply always equals the sum of recorded balances.
    pub open spec fn well_formed(self) -> bool {
        sum_amounts(self.balances@) == self.total_supply
    }

    /// The balance the ledger records for `addr`.
    pub open spec fn balance_of(self, addr: Seq<char>) -> u128 {
        spec_balance(self.balances@, addr)
    }

    /// Token metadata and mint authority agree between two ledger states.
    pub open spec fn same_token_meta(self, other: Ledger) -> bool {
        &&& self.name == other.name
        &&& self.symbol == other.symbol
        &&& self.decimals == other.decimals
        &&& self.minter == other.minter
        &&& self.cap == other.cap
    }

    /// A fresh ledger: no supply, no balances.
    pub fn new(name: String, symbol: String, decimals: u8, minter: String, cap: Option<u128>) -> (l:
        Ledger)
        ensures
            l.well_formed(),
            l.name == name,
            l.symbol == symbol,
            l.decimals == decimals,
            l.minter == minter,
            l.cap == cap,
            l.total_supply == 0,
            forall|a: Seq<char>| l.balance_of(a) == 0,
    {
        Ledger { name, symbol, decimals, minter, cap, total_supply: 0, balances: Vec::new() }
    }

    /// Index of the first entry for `addr`, if one exists.
    fn find_index(v: &Vec<BalanceEntry>, addr: &String) -> (r: Option<usize>)
        ensures
            match r {
                Some(i) => i < v@.len() && v@[i as int].addr@ == addr@ && (forall|j: int|
                    0 <= j < i ==> v@[j].addr@ != addr@),
                None => forall|j: int| 0 <= j < v@.len() ==> v@[j].addr@ != addr@,
            },
    {
        let mut i: usize = 0;
        while i < v.len()
            invariant
                i <= v@.len(),
                forall|j: int| 0 <= j < i ==> v@[j].addr@ != addr@,
            decreases v@.len() - i,
        {
            if v[i].addr == *addr {
                return Some(i);
            }
            i += 1;
        }
        None
    }

    /// How much `addr` currently holds.
    pub fn query_balance(&self, addr: &String) -> (b: u128)
        ensures
            b == self.balance_of(addr@),
    {
        match Self::find_index(&self.balances, addr) {
            Some(i) => {
                proof {
                    lemma_first_match_balance(self.balances@, addr@, i as int);
                }
                self.balances[i].amount
            },
            None => {
                proof {
                    lemma_absent_balance(self.balances@, addr@);
                }
                0
            },
        }
    }

    /// The ledger's mint primitive: check the mint authority and the cap,
    /// raise total supply by `amount` and credit `amount` to `recipient`.
    /// On any failure the ledger is left exactly as it was.
    pub fn mint(&mut self, sender: &String, recipient: String, amount: u128) -> (r: Result<
        (),
        Error,
    >)
        requires
            old(self).well_formed(),
        ensures
            final(self).well_formed(),
            match r {
                Ok(()) => ({
                    &&& old(self).minter@ == sender@
                    &&& old(self).total_supply + amount <= u128::MAX
                    &&& (old(self).cap matches Some(c) ==> old(self).total_supply + amount <= c)
                    &&& final(self).same_token_meta(*old(self))
                    &&& final(self).total_supply == old(self).total_supply + amount
                    &&& final(self).balance_of(recipient@) == old(self).balance_of(recipient@)
                        + amount
                    &&& (forall|a: Seq<char>|
                        a != recipient@ ==> final(self).balance_of(a) == old(self).balance_of(a))
                }),
                Err(Error::Unauthorized) => ({
                    &&& old(self).minter@ != sender@
                    &&& *final(self) == *old(self)
                }),
                Err(Error::ArithmeticOverflow) => ({
                    &&& old(self).minter@ == sender@
                    &&& old(self).total_supply + amount > u128::MAX
                    &&& *final(self) == *old(self)
                }),
                Err(Error::CannotExceedCap) => ({
                    &&& old(self).minter@ == sender@
                    &&& old(self).total_supply + amount <= u128::MAX
                    &&& (old(self).cap matches Some(c) && old(self).total_supply + amount > c)
                    &&& *final(self) == *old(self)
                }),
                Err(_) => false,
            },
    {
        if self.minter != *sender {
            return Err(Error::Unauthorized);
        }
        let new_supply: u128 = match self.total_supply.checked_add(amount) {
            Some(v) => v,
            None => return Err(Error::ArithmeticOverflow),
        };
        match self.cap {
            Some(limit) => {
                if new_supply > limit {
                    return Err(Error::CannotExceedCap);
                }
            },
            None => {},
        }
        match Self::find_index(&self.balances, &recipient) {
            Some(i) => {
                proof {
                    lemma_entry_le_sum(self.balances@, i as int);
                }
                let entry = BalanceEntry {
                    addr: self.balances[i].addr.clone(),
                    amount: self.balances[i].amount + amount,
                };
                proof {
                    lemma_first_match_balance(self.balances@, recipient@, i as int);
                    lemma_sum_update(self.balances@, i as int, entry);
                    lemma_balance_update_match(self.balances@, i as int, entry);
                }
                let ghost pre = self.balances@;
                self.balances.set(i, entry);
                assert forall|a: Seq<char>| a != recipient@ implies spec_balance(
                    self.balances@,
                    a,
                ) == spec_balance(pre, a) by {
                    lemma_balance_update_other(pre, i as int, entry, a);
                }
            },
            None => {
                let entry = BalanceEntry { addr: recipient, amount };
                proof {
                    lemma_absent_balance(self.balances@, entry.addr@);
                    lemma_sum_push(self.balances@, entry);
                    lemma_balance_push_fresh(self.balances@, entry);
                }
                let ghost pre = self.balances@;
                self.balances.push(entry);
                assert forall|a: Seq<char>| a != pre.push(entry).last().addr@ implies spec_balance(
                    self.balances@,
                    a,
                ) == spec_balance(pre, a) by {
                    lemma_balance_push_other(pre, self.balances@.last(), a);
                }
            },
        }
        self.total_supply = new_supply;
        Ok(())
    }

    /// The ledger's burn primitive: debit `amount` from `sender`'s balance
    /// and lower total supply by the same amount. Fails with
    /// `InsufficientBalance` when the holder's balance is too small, leaving
    /// the ledger exactly as it was.
    pub fn burn(&mut self, sender: &String, amount: u128) -> (r: Result<(), Error>)
        requires
            old(self).well_formed(),
        ensures
            final(self).well_formed(),
            match r {
                Ok(()) => ({
                    &&& old(self).balance_of(sender@) >= amount
                    &&& final(self).same_token_meta(*old(self))
                    &&& final(self).total_supply == old(self).total_supply - amount
                    &&& final(self).balance_of(sender@) == old(self).balance_of(sender@) - amount
                    &&& (forall|a: Seq<char>|
                        a != sender@ ==> final(self).balance_of(a) == old(self).balance_of(a))
                }),
                Err(Error::InsufficientBalance) => ({
                    &&& old(self).balance_of(sender@) < amount
                    &&& *final(self) == *old(self)
                }),
                Err(_) => false,
            },
    {
        match Self::find_index(&self.balances, sender) {
            Some(i) => {
                proof {
                    lemma_first_match_balance(self.balances@, sender@, i as int);
                    lemma_entry_le_sum(self.balances@, i as int);
                }
                if self.balances[i].amount < amount {
                    return Err(Error::InsufficientBalance);
                }
                let entry = BalanceEntry {
                    addr: self.balances[i].addr.clone(),
                    amount: self.balances[i].amount - amount,
                };
                proof {
                    lemma_sum_update(self.balances@, i as int, entry);
                    lemma_balance_update_match(self.balances@, i as int, entry);
                }
                let ghost pre = self.balances@;
                self.balances.set(i, entry);
                assert forall|a: Seq<char>| a != sender@ implies spec_balance(self.balances@, a)
                    == spec_balance(pre, a) by {
                    lemma_balance_update_other(pre, i as int, entry, a);
                }
                self.total_supply = self.total_supply - amount;
                Ok(())
            },
            None => {
                proof {
                    lemma_absent_balance(self.balances@, sender@);
                }
                if amount > 0 {
                    return Err(Error::InsufficientBalance);
                }
                Ok(())
            },
        }
    }
}

} // verus!
