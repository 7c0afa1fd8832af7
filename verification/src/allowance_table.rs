//! Sparse allowance table: a sequence of `(owner, spender, amount)` entries
//! in which an absent pair implicitly holds zero.  The first entry for a
//! pair is authoritative; `put` updates it in place, so duplicates never
//! arise.

use vstd::prelude::*;

verus! {

use crate::AccountId;
use crate::Balance;

/// The amount `spender` may still move out of `owner`'s balance, scanning
/// the entries from index `i` on; zero when no entry matches.
pub open spec fn lookup_from(
    entries: Seq<(AccountId, AccountId, Balance)>,
    owner: AccountId,
    spender: AccountId,
    i: int,
) -> Balance
    decreases entries.len() - i,
{
    if i < 0 || i >= entries.len() {
        0
    } else if entries[i].0 == owner && entries[i].1 == spender {
        entries[i].2
    } else {
        lookup_from(entries, owner, spender, i + 1)
    }
}

/// The amount the pair `(owner, spender)` holds: its first entry, or zero
/// when absent.
pub open spec fn lookup(
    entries: Seq<(AccountId, AccountId, Balance)>,
    owner: AccountId,
    spender: AccountId,
) -> Balance {
    lookup_from(entries, owner, spender, 0)
}

/// Scanning past a prefix that never mentions the pair does not change the
/// lookup result.
pub proof fn lemma_lookup_from_prefix(
    entries: Seq<(AccountId, AccountId, Balance)>,
    owner: AccountId,
    spender: AccountId,
    i: int,
)
    requires
        0 <= i <= entries.len(),
        forall|j: int| 0 <= j < i ==> !((#[trigger] entries[j]).0 == owner && entries[j].1 == spender),
    ensures
        lookup_from(entries, owner, spender, 0) == lookup_from(entries, owner, spender, i),
    decreases i,
{
    if i > 0 {
        lemma_lookup_from_prefix(entries, owner, spender, i - 1);
        assert(lookup_from(entries, owner, spender, i - 1) == lookup_from(entries, owner, spender, i));
    }
}

/// Two equally long tables that differ only in entries not keyed by the
/// pair agree on the pair's lookup.
pub proof fn lemma_lookup_from_agree(
    s1: Seq<(AccountId, AccountId, Balance)>,
    s2: Seq<(AccountId, AccountId, Balance)>,
    owner: AccountId,
    spender: AccountId,
    k: int,
)
    requires
        s1.len() == s2.len(),
        0 <= k <= s1.len(),
        forall|j: int| 0 <= j < s1.len() ==> (s1[j] == s2[j]
            || (!((#[trigger] s1[j]).0 == owner && s1[j].1 == spender)
                && !((#[trigger] s2[j]).0 == owner && s2[j].1 == spender))),
    ensures
        lookup_from(s1, owner, spender, k) == lookup_from(s2, owner, spender, k),
    decreases s1.len() - k,
{
    if k >= s1.len() {
    } else {
        lemma_lookup_from_agree(s1, s2, owner, spender, k + 1);
    }
}

/// Appending an entry for a different pair does not change a lookup.
pub proof fn lemma_lookup_from_push_other(
    s: Seq<(AccountId, AccountId, Balance)>,
    x: (AccountId, AccountId, Balance),
    owner: AccountId,
    spender: AccountId,
    k: int,
)
    requires
        0 <= k <= s.len(),
        !(x.0 == owner && x.1 == spender),
    ensures
        lookup_from(s.push(x), owner, spender, k) == lookup_from(s, owner, spender, k),
    decreases s.len() - k,
{
    if k >= s.len() {
        assert(lookup_from(s.push(x), owner, spender, k + 1) == 0);
    } else {
        lemma_lookup_from_push_other(s, x, owner, spender, k + 1);
    }
}

/// The index of the first entry for the pair, if any.
fn find(
    entries: &Vec<(AccountId, AccountId, Balance)>,
    owner: AccountId,
    spender: AccountId,
) -> (r: Option<usize>)
    ensures
        match r {
            Some(i) => i < entries@.len()
                && entries@[i as int].0 == owner && entries@[i as int].1 == spender
                && forall|j: int| 0 <= j < i ==> !((#[trigger] entries@[j]).0 == owner && entries@[j].1 == spender),
            None => forall|j: int| 0 <= j < entries@.len() ==> !((#[trigger] entries@[j]).0 == owner && entries@[j].1 == spender),
        },
{
    let mut i: usize = 0;
    while i < entries.len()
        invariant
            i <= entries@.len(),
            forall|j: int| 0 <= j < i ==> !((#[trigger] entries@[j]).0 == owner && entries@[j].1 == spender),
        decreases entries@.len() - i,
    {
        if entries[i].0 == owner && entries[i].1 == spender {
            return Some(i);
        }
        i = i + 1;
    }
    None
}

/// The amount the pair holds, or zero when it has no entry.
pub fn get(
    entries: &Vec<(AccountId, AccountId, Balance)>,
    owner: AccountId,
    spender: AccountId,
) -> (amount: Balance)
    ensures
        amount == lookup(entries@, owner, spender),
{
    match find(entries, owner, spender) {
        Some(i) => {
            proof {
                lemma_lookup_from_prefix(entries@, owner, spender, i as int);
                assert(lookup_from(entries@, owner, spender, i as int) == entries@[i as int].2);
            }
            entries[i].2
        }
        None => {
            proof {
                lemma_lookup_from_prefix(entries@, owner, spender, entries@.len() as int);
                assert(lookup_from(entries@, owner, spender, entries@.len() as int) == 0);
            }
            0
        }
    }
}

/// Sets the pair's amount to `value`, touching no other pair.
pub fn put(
    entries: &mut Vec<(AccountId, AccountId, Balance)>,
    owner: AccountId,
    spender: AccountId,
    value: Balance,
)
    ensures
        lookup(final(entries)@, owner, spender) == value,
        forall|o: AccountId, s: AccountId| !(o == owner && s == spender)
            ==> #[trigger] lookup(final(entries)@, o, s) == lookup(old(entries)@, o, s),
{
    let ghost pre = entries@;
    match find(entries, owner, spender) {
        Some(i) => {
            entries[i] = (owner, spender, value);
            proof {
                let post = entries@;
                assert(post == pre.update(i as int, (owner, spender, value)));
                assert(forall|j: int| 0 <= j < i ==> !((#[trigger] post[j]).0 == owner && post[j].1 == spender));
                lemma_lookup_from_prefix(post, owner, spender, i as int);
                assert(lookup_from(post, owner, spender, i as int) == value);
                assert forall|o: AccountId, s: AccountId| !(o == owner && s == spender)
                    implies #[trigger] lookup(post, o, s) == lookup(pre, o, s) by {
                    lemma_lookup_from_agree(pre, post, o, s, 0);
                }
            }
        }
        None => {
            entries.push((owner, spender, value));
            proof {
                let post = entries@;
                assert(post == pre.push((owner, spender, value)));
                assert(forall|j: int| 0 <= j < pre.len() ==> !((#[trigger] post[j]).0 == owner && post[j].1 == spender));
                lemma_lookup_from_prefix(post, owner, spender, pre.len() as int);
                assert(lookup_from(post, owner, spender, pre.len() as int) == value);
                assert forall|o: AccountId, s: AccountId| !(o == owner && s == spender)
                    implies #[trigger] lookup(post, o, s) == lookup(pre, o, s) by {
                    lemma_lookup_from_push_other(pre, (owner, spender, value), o, s, 0);
                }
            }
        }
    }
}

} // verus!
