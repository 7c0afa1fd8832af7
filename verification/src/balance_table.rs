//! Sparse balance table: a sequence of `(account, amount)` entries in which
//! an absent account implicitly holds zero.  The first entry for an account
//! is authoritative; `put` updates it in place, so duplicates never arise.

use vstd::prelude::*;

verus! {

use crate::AccountId;
use crate::Balance;

/// The amount held by `account`, scanning the entries from index `i` on;
/// zero when no entry matches.
pub open spec fn lookup_from(entries: Seq<(AccountId, Balance)>, account: AccountId, i: int) -> Balance
    decreases entries.len() - i,
{
    if i < 0 || i >= entries.len() {
        0
    } else if entries[i].0 == account {
        entries[i].1
    } else {
        lookup_from(entries, account, i + 1)
    }
}

/// The amount held by `account`: its first entry, or zero when absent.
pub open spec fn lookup(entries: Seq<(AccountId, Balance)>, account: AccountId) -> Balance {
    lookup_from(entries, account, 0)
}

/// The sum of the amounts in the entries from index `i` on.
pub open spec fn sum_from(entries: Seq<(AccountId, Balance)>, i: int) -> int
    decreases entries.len() - i,
{
    if i < 0 || i >= entries.len() {
        0
    } else {
        entries[i].1 + sum_from(entries, i + 1)
    }
}

/// The sum of all amounts in the table.
pub open spec fn sum(entries: Seq<(AccountId, Balance)>) -> int {
    sum_from(entries, 0)
}

pub proof fn lemma_sum_from_nonneg(entries: Seq<(AccountId, Balance)>, i: int)
    ensures
        sum_from(entries, i) >= 0,
    decreases entries.len() - i,
{
    if i < 0 || i >= entries.len() {
    } else {
        lemma_sum_from_nonneg(entries, i + 1);
    }
}

/// No single account holds more than the whole table's sum.
pub proof fn lemma_lookup_from_le_sum_from(entries: Seq<(AccountId, Balance)>, account: AccountId, i: int)
    requires
        0 <= i,
    ensures
        lookup_from(entries, account, i) <= sum_from(entries, i),
    decreases entries.len() - i,
{
    if i >= entries.len() {
    } else if entries[i].0 == account {
        lemma_sum_from_nonneg(entries, i + 1);
    } else {
        lemma_lookup_from_le_sum_from(entries, account, i + 1);
    }
}

pub proof fn lemma_lookup_le_sum(entries: Seq<(AccountId, Balance)>, account: AccountId)
    ensures
        lookup(entries, account) <= sum(entries),
{
    lemma_lookup_from_le_sum_from(entries, account, 0);
}

/// Scanning past a prefix that never mentions `account` does not change the
/// lookup result.
pub proof fn lemma_lookup_from_prefix(entries: Seq<(AccountId, Balance)>, account: AccountId, i: int)
    requires
        0 <= i <= entries.len(),
        forall|j: int| 0 <= j < i ==> (#[trigger] entries[j]).0 != account,
    ensures
        lookup_from(entries, account, 0) == lookup_from(entries, account, i),
    decreases i,
{
    if i > 0 {
        lemma_lookup_from_prefix(entries, account, i - 1);
        assert(lookup_from(entries, account, i - 1) == lookup_from(entries, account, i));
    }
}

/// Two equally long tables that differ only in entries not keyed by
/// `account` agree on `account`'s lookup.
pub proof fn lemma_lookup_from_agree(
    s1: Seq<(AccountId, Balance)>,
    s2: Seq<(AccountId, Balance)>,
    account: AccountId,
    k: int,
)
    requires
        s1.len() == s2.len(),
        0 <= k <= s1.len(),
        forall|j: int| 0 <= j < s1.len() ==> (s1[j] == s2[j] || ((#[trigger] s1[j]).0 != account && (#[trigger] s2[j]).0 != account)),
    ensures
        lookup_from(s1, account, k) == lookup_from(s2, account, k),
    decreases s1.len() - k,
{
    if k >= s1.len() {
    } else {
        lemma_lookup_from_agree(s1, s2, account, k + 1);
    }
}

/// Appending an entry for a different account does not change a lookup.
pub proof fn lemma_lookup_from_push_other(
    s: Seq<(AccountId, Balance)>,
    x: (AccountId, Balance),
    account: AccountId,
    k: int,
)
    requires
        0 <= k <= s.len(),
        x.0 != account,
    ensures
        lookup_from(s.push(x), account, k) == lookup_from(s, account, k),
    decreases s.len() - k,
{
    if k >= s.len() {
        assert(lookup_from(s.push(x), account, k + 1) == 0);
    } else {
        lemma_lookup_from_push_other(s, x, account, k + 1);
    }
}

/// Replacing the entry at index `i` shifts the sum by the difference of the
/// new and old amounts.
pub proof fn lemma_sum_from_update(
    s: Seq<(AccountId, Balance)>,
    i: int,
    x: (AccountId, Balance),
    k: int,
)
    requires
        0 <= i < s.len(),
        0 <= k <= s.len(),
    ensures
        sum_from(s.update(i, x), k) == sum_from(s, k) + (if k <= i { x.1 - s[i].1 } else { 0 }),
    decreases s.len() - k,
{
    if k >= s.len() {
    } else {
        lemma_sum_from_update(s, i, x, k + 1);
    }
}

/// Appending an entry adds its amount to the sum.
pub proof fn lemma_sum_from_push(s: Seq<(AccountId, Balance)>, x: (AccountId, Balance), k: int)
    requires
        0 <= k <= s.len(),
    ensures
        sum_from(s.push(x), k) == sum_from(s, k) + x.1,
    decreases s.len() - k,
{
    if k >= s.len() {
        assert(sum_from(s.push(x), k + 1) == 0);
    } else {
        lemma_sum_from_push(s, x, k + 1);
    }
}

/// The index of the first entry for `account`, if any.
fn find(entries: &Vec<(AccountId, Balance)>, account: AccountId) -> (r: Option<usize>)
    ensures
        match r {
            Some(i) => i < entries@.len() && entries@[i as int].0 == account
                && forall|j: int| 0 <= j < i ==> (#[trigger] entries@[j]).0 != account,
            None => forall|j: int| 0 <= j < entries@.len() ==> (#[trigger] entries@[j]).0 != account,
        },
{
    let mut i: usize = 0;
    while i < entries.len()
        invariant
            i <= entries@.len(),
            forall|j: int| 0 <= j < i ==> (#[trigger] entries@[j]).0 != account,
        decreases entries@.len() - i,
    {
        if entries[i].0 == account {
            return Some(i);
        }
        i = i + 1;
    }
    None
}

/// The amount held by `account`, or zero when it has no entry.
pub fn get(entries: &Vec<(AccountId, Balance)>, account: AccountId) -> (amount: Balance)
    ensures
        amount == lookup(entries@, account),
{
    match find(entries, account) {
        Some(i) => {
            proof {
                lemma_lookup_from_prefix(entries@, account, i as int);
                assert(lookup_from(entries@, account, i as int) == entries@[i as int].1);
            }
            entries[i].1
        }
        None => {
            proof {
                lemma_lookup_from_prefix(entries@, account, entries@.len() as int);
                assert(lookup_from(entries@, account, entries@.len() as int) == 0);
            }
            0
        }
    }
}

/// Sets `account`'s amount to `value`, touching no other account and moving
/// the table's sum by exactly the difference.
pub fn put(entries: &mut Vec<(AccountId, Balance)>, account: AccountId, value: Balance)
    ensures
        lookup(final(entries)@, account) == value,
        forall|b: AccountId| b != account ==> #[trigger] lookup(final(entries)@, b) == lookup(old(entries)@, b),
        sum(final(entries)@) == sum(old(entries)@) - lookup(old(entries)@, account) + value,
{
    let ghost pre = entries@;
    match find(entries, account) {
        Some(i) => {
            entries[i] = (account, value);
            proof {
                let post = entries@;
                assert(post == pre.update(i as int, (account, value)));
                assert(forall|j: int| 0 <= j < i ==> (#[trigger] post[j]).0 != account);
                lemma_lookup_from_prefix(post, account, i as int);
                assert(lookup_from(post, account, i as int) == value);
                assert forall|b: AccountId| b != account implies #[trigger] lookup(post, b) == lookup(pre, b) by {
                    lemma_lookup_from_agree(pre, post, b, 0);
                }
                lemma_sum_from_update(pre, i as int, (account, value), 0);
                lemma_lookup_from_prefix(pre, account, i as int);
                assert(lookup_from(pre, account, i as int) == pre[i as int].1);
            }
        }
        None => {
            entries.push((account, value));
            proof {
                let post = entries@;
                assert(post == pre.push((account, value)));
                assert(forall|j: int| 0 <= j < pre.len() ==> (#[trigger] post[j]).0 != account);
                lemma_lookup_from_prefix(post, account, pre.len() as int);
                assert(lookup_from(post, account, pre.len() as int) == value);
                assert forall|b: AccountId| b != account implies #[trigger] lookup(post, b) == lookup(pre, b) by {
                    lemma_lookup_from_push_other(pre, (account, value), b, 0);
                }
                lemma_sum_from_push(pre, (account, value), 0);
                lemma_lookup_from_prefix(pre, account, pre.len() as int);
                assert(lookup_from(pre, account, pre.len() as int) == 0);
            }
        }
    }
}

} // verus!
