//! The token ledger itself: a fixed total supply, a balance table, an
//! allowance table, and an append-only event log.
//!
//! Each operation takes the identity of the calling account as an explicit
//! `caller` argument; the surrounding host supplies it.  A successful
//! mutation appends exactly one notification to the event log; a failed one
//! returns `false` and leaves the ledger bit-for-bit unchanged.

use vstd::prelude::*;

verus! {

use crate::AccountId;
use crate::Balance;
use crate::allowance_table;
use crate::balance_table;
use crate::events::Approval;
use crate::events::Event;
use crate::events::Transfer;

/// The ledger.  The fields are exposed so that the contracts below can
/// speak about them directly; the operations of this impl are the intended
/// mutation interface, and they alone preserve `wf`.
#[derive(Clone, Debug, PartialEq, Eq)]
pub struct Erc20Token {
    /// Number of token units in existence; fixed at construction.
    pub total_supply: Balance,
    /// Sparse balance table: absent accounts hold zero.
    pub balances: Vec<(AccountId, Balance)>,
    /// Sparse allowance table: absent pairs hold zero.
    pub allowances: Vec<(AccountId, AccountId, Balance)>,
    /// Notifications emitted so far, oldest first.
    pub events: Vec<Event>,
}

impl Erc20Token {
    /// The balance credited to `account`; zero for an account never seen.
    pub open spec fn spec_balance_of(self, account: AccountId) -> Balance {
        balance_table::lookup(self.balances@, account)
    }

    /// The amount `spender` may still move out of `owner`'s balance; zero
    /// for a pair never approved.
    pub open spec fn spec_allowance(self, owner: AccountId, spender: AccountId) -> Balance {
        allowance_table::lookup(self.allowances@, owner, spender)
    }

    /// Well-formedness: the balances sum to the total supply.  Established
    /// by `new` and preserved by every operation, this is what makes the
    /// supply a closed system.
    pub open spec fn wf(self) -> bool {
        balance_table::sum(self.balances@) == self.total_supply as int
    }

    /// A movement of `value` units out of `from` is accepted exactly when
    /// the value is positive and covered by `from`'s balance.
    pub open spec fn transfer_allowed(self, from: AccountId, value: Balance) -> bool {
        value > 0 && self.spec_balance_of(from) >= value
    }
}

/// `post` is `pre` after a successful movement of `value` units from `from`
/// to `to`: only those two balances change (a self-movement changes
/// nothing), allowances are untouched, and one `Transfer` notification is
/// appended.
pub open spec fn transfer_effect(
    pre: Erc20Token,
    post: Erc20Token,
    from: AccountId,
    to: AccountId,
    value: Balance,
) -> bool {
    &&& pre.transfer_allowed(from, value)
    &&& post.total_supply == pre.total_supply
    &&& forall|a: AccountId| #![trigger post.spec_balance_of(a)]
            post.spec_balance_of(a) as int == pre.spec_balance_of(a)
                - (if a == from { value as int } else { 0 })
                + (if a == to { value as int } else { 0 })
    &&& post.allowances@ == pre.allowances@
    &&& forall|o: AccountId, s: AccountId|
            #[trigger] post.spec_allowance(o, s) == pre.spec_allowance(o, s)
    &&& post.events@ == pre.events@.push(Event::Transfer(Transfer { from, to, value }))
}

/// `post` is `pre` after `owner` set `spender`'s allowance to `value`: the
/// prior allowance is overwritten, not added to, every other pair and all
/// balances are untouched, and one `Approval` notification is appended.
pub open spec fn approve_effect(
    pre: Erc20Token,
    post: Erc20Token,
    owner: AccountId,
    spender: AccountId,
    value: Balance,
) -> bool {
    &&& post.total_supply == pre.total_supply
    &&& post.balances@ == pre.balances@
    &&& forall|a: AccountId| #[trigger] post.spec_balance_of(a) == pre.spec_balance_of(a)
    &&& post.spec_allowance(owner, spender) == value
    &&& forall|o: AccountId, s: AccountId| !(o == owner && s == spender)
            ==> #[trigger] post.spec_allowance(o, s) == pre.spec_allowance(o, s)
    &&& post.events@ == pre.events@.push(Event::Approval(Approval { owner, spender, value }))
}

/// `post` is `pre` after `caller` successfully moved `value` units from
/// `from` to `to` on the strength of its allowance: the balances move as in
/// `transfer_effect`, the pair `(from, caller)` loses exactly the spent
/// amount, every other pair is untouched, and one `Transfer` notification
/// is appended.
pub open spec fn transfer_from_effect(
    pre: Erc20Token,
    post: Erc20Token,
    caller: AccountId,
    from: AccountId,
    to: AccountId,
    value: Balance,
) -> bool {
    &&& pre.spec_allowance(from, caller) >= value
    &&& pre.transfer_allowed(from, value)
    &&& post.total_supply == pre.total_supply
    &&& forall|a: AccountId| #![trigger post.spec_balance_of(a)]
            post.spec_balance_of(a) as int == pre.spec_balance_of(a)
                - (if a == from { value as int } else { 0 })
                + (if a == to { value as int } else { 0 })
    &&& post.spec_allowance(from, caller) as int == pre.spec_allowance(from, caller) - value
    &&& forall|o: AccountId, s: AccountId| !(o == from && s == caller)
            ==> #[trigger] post.spec_allowance(o, s) == pre.spec_allowance(o, s)
    &&& post.events@ == pre.events@.push(Event::Transfer(Transfer { from, to, value }))
}

impl Erc20Token {
    /// Creates the ledger: `creator` is credited with the entire supply,
    /// the allowance table is empty, and no notification is emitted.
    pub fn new(creator: AccountId, initial_supply: Balance) -> (token: Erc20Token)
        ensures
            token.wf(),
            token.total_supply == initial_supply,
            token.spec_balance_of(creator) == initial_supply,
            forall|a: AccountId| a != creator ==> #[trigger] token.spec_balance_of(a) == 0,
            forall|o: AccountId, s: AccountId| #[trigger] token.spec_allowance(o, s) == 0,
            token.events@.len() == 0,
    {
        let mut balances: Vec<(AccountId, Balance)> = Vec::new();
        balances.push((creator, initial_supply));
        let token = Erc20Token {
            total_supply: initial_supply,
            balances,
            allowances: Vec::new(),
            events: Vec::new(),
        };
        proof {
            let s = token.balances@;
            assert(s.len() == 1 && s[0] == (creator, initial_supply));
            assert(balance_table::lookup_from(s, creator, 0) == initial_supply);
            assert forall|a: AccountId| a != creator implies #[trigger] token.spec_balance_of(a) == 0 by {
                assert(balance_table::lookup_from(s, a, 1) == 0);
                assert(balance_table::lookup_from(s, a, 0) == 0);
            }
            assert(balance_table::sum_from(s, 1) == 0);
            assert(balance_table::sum_from(s, 0) == initial_supply as int);
            assert forall|o: AccountId, s2: AccountId| #[trigger] token.spec_allowance(o, s2) == 0 by {
                assert(allowance_table::lookup_from(token.allowances@, o, s2, 0) == 0);
            }
        }
        token
    }

    /// Pure read of the immutable supply.
    pub fn total_supply(&self) -> (supply: Balance)
        ensures
            supply == self.total_supply,
    {
        self.total_supply
    }

    /// The account's balance, or zero for an account never seen.
    pub fn balance_of(&self, account: AccountId) -> (amount: Balance)
        ensures
            amount == self.spec_balance_of(account),
    {
        balance_table::get(&self.balances, account)
    }

    /// The pair's remaining allowance, or zero for a pair never approved.
    pub fn allowance(&self, owner: AccountId, spender: AccountId) -> (amount: Balance)
        ensures
            amount == self.spec_allowance(owner, spender),
    {
        allowance_table::get(&self.allowances, owner, spender)
    }

    /// Moves `value` units from `caller` to `to`.  Fails, with no effect at
    /// all, when the value is zero or exceeds `caller`'s balance.
    pub fn transfer(&mut self, caller: AccountId, to: AccountId, value: Balance) -> (ok: bool)
        requires
            old(self).wf(),
        ensures
            final(self).wf(),
            ok == old(self).transfer_allowed(caller, value),
            ok ==> transfer_effect(*old(self), *final(self), caller, to, value),
            !ok ==> *final(self) == *old(self),
    {
        self.transfer_internal(caller, to, value)
    }

    /// Sets `spender`'s allowance out of `caller`'s balance to `value`,
    /// overwriting the prior allowance.  Always succeeds and always emits
    /// an `Approval` notification, even when the value is unchanged.
    pub fn approve(&mut self, caller: AccountId, spender: AccountId, value: Balance) -> (ok: bool)
        requires
            old(self).wf(),
        ensures
            final(self).wf(),
            ok,
            approve_effect(*old(self), *final(self), caller, spender, value),
    {
        allowance_table::put(&mut self.allowances, caller, spender, value);
        self.events.push(Event::Approval(Approval { owner: caller, spender, value }));
        true
    }

    /// Moves `value` units from `from` to `to` on the strength of the
    /// allowance `from` granted to `caller`, and spends that much of it.
    /// Fails, with no effect at all, when the allowance or the balance does
    /// not cover `value`, or the value is zero.
    pub fn transfer_from(
        &mut self,
        caller: AccountId,
        from: AccountId,
        to: AccountId,
        value: Balance,
    ) -> (ok: bool)
        requires
            old(self).wf(),
        ensures
            final(self).wf(),
            ok == (old(self).spec_allowance(from, caller) >= value
                && old(self).transfer_allowed(from, value)),
            ok ==> transfer_from_effect(*old(self), *final(self), caller, from, to, value),
            !ok ==> *final(self) == *old(self),
    {
        let allowance = allowance_table::get(&self.allowances, from, caller);
        if allowance < value {
            return false;
        }
        if !self.transfer_internal(from, to, value) {
            return false;
        }
        let ghost mid = *self;
        allowance_table::put(&mut self.allowances, from, caller, allowance - value);
        proof {
            assert(self.balances@ == mid.balances@);
            assert forall|a: AccountId| #[trigger] self.spec_balance_of(a) == mid.spec_balance_of(a) by {
            }
        }
        true
    }

    /// The transfer primitive shared by `transfer` and `transfer_from`:
    /// checks the value and the covering balance, then debits `from`,
    /// credits `to`, and emits the `Transfer` notification.
    fn transfer_internal(&mut self, from: AccountId, to: AccountId, value: Balance) -> (ok: bool)
        requires
            old(self).wf(),
        ensures
            final(self).wf(),
            ok == old(self).transfer_allowed(from, value),
            ok ==> transfer_effect(*old(self), *final(self), from, to, value),
            !ok ==> *final(self) == *old(self),
    {
        let ghost pre = *self;
        let from_balance = balance_table::get(&self.balances, from);
        if from_balance < value || value == 0 {
            return false;
        }
        balance_table::put(&mut self.balances, from, from_balance - value);
        let ghost mid = *self;
        let to_balance = balance_table::get(&self.balances, to);
        proof {
            balance_table::lemma_lookup_le_sum(mid.balances@, to);
            assert(balance_table::sum(mid.balances@) == pre.total_supply - value);
            assert(to_balance + value <= pre.total_supply);
        }
        balance_table::put(&mut self.balances, to, to_balance + value);
        self.events.push(Event::Transfer(Transfer { from, to, value }));
        proof {
            assert forall|a: AccountId| #![trigger self.spec_balance_of(a)]
                self.spec_balance_of(a) as int == pre.spec_balance_of(a)
                    - (if a == from { value as int } else { 0 })
                    + (if a == to { value as int } else { 0 }) by {
                assert(mid.spec_balance_of(a) == (if a == from { (from_balance - value) as u128 } else { pre.spec_balance_of(a) }));
                assert(self.spec_balance_of(a) == (if a == to { (to_balance + value) as u128 } else { mid.spec_balance_of(a) }));
            }
        }
        true
    }
}

/// Supply conservation: a well-formed ledger's balances sum to its total
/// supply.  `new` establishes `wf` and every operation requires and
/// preserves it while keeping `total_supply` itself unchanged, so this
/// holds at every observation point of any sequence of operations.
pub proof fn lemma_supply_conservation(token: Erc20Token)
    requires
        token.wf(),
    ensures
        balance_table::sum(token.balances@) == token.total_supply as int,
{
}

/// No negative values: every balance and every allowance is non-negative,
/// for any account and any pair.
pub proof fn lemma_no_negative_values(
    token: Erc20Token,
    account: AccountId,
    owner: AccountId,
    spender: AccountId,
)
    ensures
        token.spec_balance_of(account) >= 0,
        token.spec_allowance(owner, spender) >= 0,
{
}

/// Approve overwrites: after `owner` approves `spender` for `v1` and then
/// for `v2`, the allowance is exactly `v2`, not the sum.
pub proof fn lemma_approve_overwrites(
    t0: Erc20Token,
    t1: Erc20Token,
    t2: Erc20Token,
    owner: AccountId,
    spender: AccountId,
    v1: Balance,
    v2: Balance,
)
    requires
        approve_effect(t0, t1, owner, spender, v1),
        approve_effect(t1, t2, owner, spender, v2),
    ensures
        t2.spec_allowance(owner, spender) == v2,
{
}

/// Transfer-from decrements exactly by the spent amount: after `owner`
/// approves `spender` for `approved` and `spender` then successfully moves
/// `value`, the remaining allowance is exactly `approved - value`.
pub proof fn lemma_transfer_from_spends_allowance(
    t0: Erc20Token,
    t1: Erc20Token,
    t2: Erc20Token,
    owner: AccountId,
    spender: AccountId,
    to: AccountId,
    approved: Balance,
    value: Balance,
)
    requires
        approve_effect(t0, t1, owner, spender, approved),
        transfer_from_effect(t1, t2, spender, owner, to, value),
    ensures
        value <= approved,
        t2.spec_allowance(owner, spender) == approved - value,
{
}

} // verus!
