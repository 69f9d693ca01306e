//! The sum of a share ledger, and how it moves when one entry changes.

use vstd::prelude::*;
use crate::types::{AccountId, Balance};

verus! {

/// Sum of all balances of a finite ledger.
pub open spec fn sum(m: Map<AccountId, Balance>) -> nat
    decreases m.dom().len(),
    via sum_decreases
{
    if m.dom().finite() && m.dom().len() > 0 {
        let k = m.dom().choose();
        m[k] as nat + sum(m.remove(k))
    } else {
        0
    }
}

#[via_fn]
proof fn sum_decreases(m: Map<AccountId, Balance>) {
    if m.dom().finite() && m.dom().len() > 0 {
        let k = m.dom().choose();
        vstd::set_lib::axiom_is_empty(m.dom());
        assert(m.dom().contains(k));
        assert(m.remove(k).dom() =~= m.dom().remove(k));
    }
}

/// Balance of `who` in the ledger; an account without an entry holds nothing.
pub open spec fn balance_of(m: Map<AccountId, Balance>, who: AccountId) -> nat {
    if m.contains_key(who) {
        m[who] as nat
    } else {
        0
    }
}

/// An empty ledger sums to zero.
pub proof fn lemma_sum_empty()
    ensures
        sum(Map::<AccountId, Balance>::empty()) == 0,
{
    assert(Map::<AccountId, Balance>::empty().dom() =~= Set::empty());
}

/// The sum is the balance of any one entry plus the sum of the others.
pub proof fn lemma_sum_remove(m: Map<AccountId, Balance>, k: AccountId)
    requires
        m.dom().finite(),
        m.contains_key(k),
    ensures
        sum(m) == m[k] as nat + sum(m.remove(k)),
    decreases m.dom().len(),
{
    assert(m.dom().len() > 0) by {
        if m.dom().len() == 0 {
            assert(m.dom() =~= Set::empty());
        }
    }
    let c = m.dom().choose();
    vstd::set_lib::axiom_is_empty(m.dom());
    assert(m.contains_key(c));
    if c != k {
        let without_c = m.remove(c);
        let without_k = m.remove(k);
        assert(without_c.dom() =~= m.dom().remove(c));
        assert(without_k.dom() =~= m.dom().remove(k));
        lemma_sum_remove(without_c, k);
        lemma_sum_remove(without_k, c);
        assert(without_c.remove(k) =~= without_k.remove(c));
    }
}

/// Writing `v` at `k` moves the sum by the difference to what `k` held.
pub proof fn lemma_sum_insert(m: Map<AccountId, Balance>, k: AccountId, v: Balance)
    requires
        m.dom().finite(),
    ensures
        sum(m.insert(k, v)) + balance_of(m, k) == sum(m) + v as nat,
{
    let after = m.insert(k, v);
    assert(after.dom() =~= m.dom().insert(k));
    lemma_sum_remove(after, k);
    assert(after.remove(k) =~= m.remove(k));
    if m.contains_key(k) {
        lemma_sum_remove(m, k);
    } else {
        assert(m.remove(k) =~= m);
    }
}

/// No entry exceeds the sum.
pub proof fn lemma_entry_le_sum(m: Map<AccountId, Balance>, k: AccountId)
    requires
        m.dom().finite(),
    ensures
        balance_of(m, k) <= sum(m),
{
    if m.contains_key(k) {
        lemma_sum_remove(m, k);
    }
}

/// The ledger that a list of entries describes, each entry an account and
/// its balance; of two entries for one account the later one counts.
pub open spec fn ledger_of(entries: Seq<(AccountId, Balance)>) -> Map<AccountId, Balance>
    decreases entries.len(),
{
    if entries.len() == 0 {
        Map::empty()
    } else {
        ledger_of(entries.drop_last()).insert(entries.last().0, entries.last().1)
    }
}

/// Sum of the balances of a list of entries.
pub open spec fn entries_sum(entries: Seq<(AccountId, Balance)>) -> nat
    decreases entries.len(),
{
    if entries.len() == 0 {
        0
    } else {
        entries_sum(entries.drop_last()) + entries.last().1 as nat
    }
}

/// No account has two entries in the list.
pub open spec fn distinct_accounts(entries: Seq<(AccountId, Balance)>) -> bool {
    forall|i: int, j: int| 0 <= i < j < entries.len() ==> entries[i].0 != entries[j].0
}

/// The ledger of a list holds exactly the accounts of the list, and is
/// finite.
pub proof fn lemma_ledger_accounts(entries: Seq<(AccountId, Balance)>)
    ensures
        ledger_of(entries).dom().finite(),
        forall|who: AccountId| #[trigger]
            ledger_of(entries).contains_key(who) <==> exists|j: int|
                0 <= j < entries.len() && entries[j].0 == who,
    decreases entries.len(),
{
    if entries.len() > 0 {
        let front = entries.drop_last();
        lemma_ledger_accounts(front);
        assert forall|who: AccountId| #[trigger]
            ledger_of(entries).contains_key(who) <==> exists|j: int|
                0 <= j < entries.len() && entries[j].0 == who by {
            if ledger_of(entries).contains_key(who) {
                if who == entries.last().0 {
                    assert(entries[entries.len() - 1].0 == who);
                } else {
                    assert(ledger_of(front).contains_key(who));
                    let j = choose|j: int| 0 <= j < front.len() && front[j].0 == who;
                    assert(entries[j].0 == who);
                }
            }
            if exists|j: int| 0 <= j < entries.len() && entries[j].0 == who {
                let j = choose|j: int| 0 <= j < entries.len() && entries[j].0 == who;
                if j < entries.len() - 1 {
                    assert(front[j].0 == who);
                    assert(ledger_of(front).contains_key(who));
                }
            }
        }
    }
}

/// The ledger of a list without two entries for one account sums to the sum
/// of the list's balances.
pub proof fn lemma_ledger_sum(entries: Seq<(AccountId, Balance)>)
    requires
        distinct_accounts(entries),
    ensures
        sum(ledger_of(entries)) == entries_sum(entries),
    decreases entries.len(),
{
    if entries.len() == 0 {
        lemma_sum_empty();
    } else {
        let front = entries.drop_last();
        assert(distinct_accounts(front)) by {
            assert forall|i: int, j: int| 0 <= i < j < front.len() implies front[i].0
                != front[j].0 by {
                assert(entries[i].0 != entries[j].0);
            }
        }
        lemma_ledger_sum(front);
        lemma_ledger_accounts(front);
        let last = entries.last();
        if ledger_of(front).contains_key(last.0) {
            let j = choose|j: int| 0 <= j < front.len() && front[j].0 == last.0;
            assert(entries[j].0 == entries[entries.len() - 1].0);
        }
        lemma_sum_insert(ledger_of(front), last.0, last.1);
    }
}

/// In the ledger of a list without two entries for one account, every entry
/// of the list is found with its balance.
pub proof fn lemma_ledger_lookup(entries: Seq<(AccountId, Balance)>)
    requires
        distinct_accounts(entries),
    ensures
        forall|j: int|
            0 <= j < entries.len() ==> ledger_of(entries).contains_key(#[trigger] entries[j].0)
                && ledger_of(entries)[entries[j].0] == entries[j].1,
    decreases entries.len(),
{
    if entries.len() > 0 {
        let front = entries.drop_last();
        assert(distinct_accounts(front)) by {
            assert forall|i: int, j: int| 0 <= i < j < front.len() implies front[i].0
                != front[j].0 by {
                assert(entries[i].0 != entries[j].0);
            }
        }
        lemma_ledger_lookup(front);
        assert forall|j: int| 0 <= j < entries.len() implies ledger_of(entries).contains_key(
            #[trigger] entries[j].0,
        ) && ledger_of(entries)[entries[j].0] == entries[j].1 by {
            if j < entries.len() - 1 {
                assert(front[j] == entries[j]);
                assert(entries[j].0 != entries[entries.len() - 1].0);
            }
        }
    }
}

/// A list sums to at least as much as any of its beginnings.
pub proof fn lemma_entries_sum_grows(entries: Seq<(AccountId, Balance)>, n: int)
    requires
        0 <= n <= entries.len(),
    ensures
        entries_sum(entries.take(n)) <= entries_sum(entries),
    decreases entries.len(),
{
    if n == entries.len() {
        assert(entries.take(n) =~= entries);
    } else {
        let front = entries.drop_last();
        lemma_entries_sum_grows(front, n);
        assert(front.take(n) =~= entries.take(n));
    }
}

} // verus!
