//! The account table: addresses paired with the balance last fetched for
//! them. Addresses are unique keys; the table stands for the mapping
//! [`map_of`] from address to balance, and [`upsert`] is the only
//! operation that grows or changes it.

use vstd::pervasive::VecAdditionalExecFns;
use vstd::prelude::*;

verus! {

/// Every address occurs at most once in the table.
pub open spec fn keys_unique(s: Seq<(String, u64)>) -> bool {
    forall|i: int, j: int| 0 <= i < j < s.len() ==> s[i].0@ != s[j].0@
}

/// The mapping from address to balance that the table represents.
pub open spec fn map_of(s: Seq<(String, u64)>) -> Map<Seq<char>, u64>
    decreases s.len(),
{
    if s.len() == 0 {
        Map::<Seq<char>, u64>::empty()
    } else {
        map_of(s.drop_last()).insert(s.last().0@, s.last().1)
    }
}

/// Replacing the row that holds an address updates the mapping at that
/// address and nothing else.
pub proof fn lemma_map_of_update(s: Seq<(String, u64)>, i: int, x: (String, u64))
    requires
        keys_unique(s),
        0 <= i < s.len(),
        s[i].0@ == x.0@,
    ensures
        map_of(s.update(i, x)) == map_of(s).insert(x.0@, x.1),
    decreases s.len(),
{
    let t = s.update(i, x);
    if i == s.len() - 1 {
        assert(t.drop_last() =~= s.drop_last());
        assert(t.last() == x);
        assert(map_of(s).insert(x.0@, x.1) =~= map_of(s.drop_last()).insert(x.0@, x.1));
    } else {
        assert(t.drop_last() =~= s.drop_last().update(i, x));
        assert(t.last() == s.last());
        assert(keys_unique(s.drop_last())) by {
            assert forall|a: int, b: int|
                0 <= a < b < s.drop_last().len() implies s.drop_last()[a].0@
                != s.drop_last()[b].0@ by {
                assert(s[a].0@ != s[b].0@);
            }
        }
        assert(s.drop_last()[i] == s[i]);
        lemma_map_of_update(s.drop_last(), i, x);
        assert(s[i].0@ != s[s.len() - 1].0@);
        assert(map_of(s.drop_last()).insert(x.0@, x.1).insert(s.last().0@, s.last().1)
            =~= map_of(s.drop_last()).insert(s.last().0@, s.last().1).insert(x.0@, x.1));
    }
}

/// Appending a row with a fresh address extends the mapping by that address.
pub proof fn lemma_map_of_push(s: Seq<(String, u64)>, x: (String, u64))
    ensures
        map_of(s.push(x)) == map_of(s).insert(x.0@, x.1),
{
    assert(s.push(x).drop_last() =~= s);
    assert(s.push(x).last() == x);
}

/// Sets the balance recorded for an address, adding a row for it if none
/// holds it yet. The represented mapping gains or updates exactly that
/// address; all other addresses keep their balance.
pub fn upsert(accounts: &mut Vec<(String, u64)>, address: String, balance: u64)
    requires
        keys_unique(old(accounts)@),
    ensures
        keys_unique(final(accounts)@),
        map_of(final(accounts)@) == map_of(old(accounts)@).insert(address@, balance),
{
    let n: usize = accounts.len();
    let mut i: usize = 0;
    while i < n
        invariant
            n == accounts.len(),
            accounts@ == old(accounts)@,
            keys_unique(accounts@),
            i <= n,
            forall|j: int| 0 <= j < i ==> accounts@[j].0@ != address@,
        decreases n - i,
    {
        if accounts[i].0 == address {
            let row = (address, balance);
            let ghost entry = row;
            proof {
                lemma_map_of_update(accounts@, i as int, entry);
            }
            accounts.set(i, row);
            assert forall|a: int, b: int|
                0 <= a < b < accounts@.len() implies accounts@[a].0@ != accounts@[b].0@ by {
                assert(old(accounts)@[a].0@ != old(accounts)@[b].0@);
            }
            return;
        }
        i += 1;
    }
    let row = (address, balance);
    let ghost entry = row;
    proof {
        lemma_map_of_push(accounts@, entry);
    }
    accounts.push(row);
    assert forall|a: int, b: int|
        0 <= a < b < accounts@.len() implies accounts@[a].0@ != accounts@[b].0@ by {
        if b < accounts@.len() - 1 {
            assert(old(accounts)@[a].0@ != old(accounts)@[b].0@);
        } else {
            assert(old(accounts)@[a].0@ != entry.0@);
        }
    }
}

} // verus!
