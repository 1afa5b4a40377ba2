//! Per-account storage: a finite map from account identifiers to values.

use vstd::prelude::*;

verus! {

/// One stored account with its value.
#[derive(Debug)]
struct Entry<V> {
    key: String,
    value: V,
}

/// A finite map from account identifiers to values of type `V`.
///
/// Accounts are kept in the order in which they were first written. No account
/// is stored twice.
#[derive(Debug)]
pub struct AccountMap<V> {
    entries: Vec<Entry<V>>,
}

/// No two positions of `entries` hold the same account.
spec fn distinct_keys<V>(entries: Seq<Entry<V>>) -> bool {
    forall|i: int, j: int|
        0 <= i < entries.len() && 0 <= j < entries.len() && i != j
            ==> entries[i].key@ != entries[j].key@
}

/// Some position of `entries` holds the account `who`.
spec fn has_key<V>(entries: Seq<Entry<V>>, who: Seq<char>) -> bool {
    exists|i: int| 0 <= i < entries.len() && #[trigger] entries[i].key@ == who
}

/// A position of `entries` that holds the account `who`, if there is one.
spec fn position_of<V>(entries: Seq<Entry<V>>, who: Seq<char>) -> int {
    choose|i: int| 0 <= i < entries.len() && #[trigger] entries[i].key@ == who
}

/// The map that `entries` stand for.
spec fn entries_map<V>(entries: Seq<Entry<V>>) -> Map<Seq<char>, V> {
    Map::new(
        |who: Seq<char>| has_key(entries, who),
        |who: Seq<char>| entries[position_of(entries, who)].value,
    )
}

impl<V> AccountMap<V> {
    #[verifier::type_invariant]
    spec fn well_formed(self) -> bool {
        distinct_keys(self.entries@)
    }

    /// The stored accounts and their values.
    pub closed spec fn view(&self) -> Map<Seq<char>, V> {
        entries_map(self.entries@)
    }

    /// A map with no accounts.
    pub fn new() -> (m: Self)
        ensures
            m@ == Map::<Seq<char>, V>::empty(),
    {
        let m = AccountMap { entries: Vec::new() };
        assert(m@ =~= Map::<Seq<char>, V>::empty());
        m
    }

    /// The position at which `who` is stored, if it is stored.
    fn find(&self, who: &String) -> (found: Option<usize>)
        ensures
            match found {
                Some(i) => i < self.entries@.len() && self.entries@[i as int].key@ == who@,
                None => !has_key(self.entries@, who@),
            },
    {
        let mut i: usize = 0;
        while i < self.entries.len()
            invariant
                i <= self.entries@.len(),
                forall|j: int| 0 <= j < i ==> self.entries@[j].key@ != who@,
            decreases self.entries@.len() - i,
        {
            if self.entries[i].key == *who {
                return Some(i);
            }
            i += 1;
        }
        None
    }

    /// The value stored for `who`, or `None` where the account was never written.
    pub fn get(&self, who: &String) -> (value: Option<V>) where V: Copy
        ensures
            value == (if self@.contains_key(who@) {
                Some(self@[who@])
            } else {
                None
            }),
    {
        proof {
            use_type_invariant(&*self);
        }
        match self.find(who) {
            Some(i) => {
                assert(has_key(self.entries@, who@));
                Some(self.entries[i].value)
            },
            None => None,
        }
    }

    /// Stores `value` for `who`, replacing what was stored for that account.
    pub fn insert(&mut self, who: &String, value: V)
        ensures
            final(self)@ == old(self)@.insert(who@, value),
    {
        proof {
            use_type_invariant(&*self);
        }
        let found = self.find(who);
        let mut entries: Vec<Entry<V>> = Vec::new();
        std::mem::swap(&mut entries, &mut self.entries);
        let ghost before = entries@;
        let fresh = Entry { key: who.clone(), value };
        match found {
            Some(i) => {
                entries.set(i, fresh);
                proof {
                    lemma_overwrite(before, i as int, fresh);
                }
            },
            None => {
                entries.push(fresh);
                proof {
                    lemma_append(before, fresh);
                }
            },
        }
        self.entries = entries;
    }
}

/// Writing an entry over one with the same account updates the map at that account.
proof fn lemma_overwrite<V>(entries: Seq<Entry<V>>, i: int, fresh: Entry<V>)
    requires
        distinct_keys(entries),
        0 <= i < entries.len(),
        entries[i].key@ == fresh.key@,
    ensures
        distinct_keys(entries.update(i, fresh)),
        entries_map(entries.update(i, fresh)) == entries_map(entries).insert(
            fresh.key@,
            fresh.value,
        ),
{
    let after = entries.update(i, fresh);
    assert forall|who: Seq<char>| has_key(after, who) == has_key(entries, who) by {
        if has_key(entries, who) {
            let j = position_of(entries, who);
            assert(after[j].key@ == who);
        }
        if has_key(after, who) {
            let j = position_of(after, who);
            assert(entries[j].key@ == who);
        }
    }
    assert(has_key(entries, fresh.key@));
    assert forall|who: Seq<char>| has_key(after, who) implies after[position_of(
        after,
        who,
    )].value == (if who == fresh.key@ {
        fresh.value
    } else {
        entries[position_of(entries, who)].value
    }) by {
        let j = position_of(after, who);
        let k = position_of(entries, who);
        assert(entries[j].key@ == who);
        assert(j == k);
    }
    assert(entries_map(after) =~= entries_map(entries).insert(fresh.key@, fresh.value));
}

/// Appending an entry for an account that is not stored adds that account to the map.
proof fn lemma_append<V>(entries: Seq<Entry<V>>, fresh: Entry<V>)
    requires
        distinct_keys(entries),
        !has_key(entries, fresh.key@),
    ensures
        distinct_keys(entries.push(fresh)),
        entries_map(entries.push(fresh)) == entries_map(entries).insert(fresh.key@, fresh.value),
{
    let after = entries.push(fresh);
    let last = entries.len() as int;
    assert forall|i: int, j: int|
        0 <= i < after.len() && 0 <= j < after.len() && i != j implies after[i].key@
        != after[j].key@ by {
        if i < last && j < last {
        } else if i < last {
            assert(entries[i].key@ != fresh.key@);
        } else {
            assert(entries[j].key@ != fresh.key@);
        }
    }
    assert(after[last].key@ == fresh.key@);
    assert forall|who: Seq<char>|
        has_key(after, who) == (who == fresh.key@ || has_key(entries, who)) by {
        if has_key(entries, who) {
            let j = position_of(entries, who);
            assert(after[j].key@ == who);
        }
        if has_key(after, who) && who != fresh.key@ {
            let j = position_of(after, who);
            assert(entries[j].key@ == who);
        }
    }
    assert forall|who: Seq<char>| has_key(after, who) implies after[position_of(
        after,
        who,
    )].value == (if who == fresh.key@ {
        fresh.value
    } else {
        entries[position_of(entries, who)].value
    }) by {
        let j = position_of(after, who);
        if who != fresh.key@ {
            let k = position_of(entries, who);
            assert(entries[j].key@ == who);
            assert(j == k);
        } else {
            assert(j == last);
        }
    }
    assert(entries_map(after) =~= entries_map(entries).insert(fresh.key@, fresh.value));
}

} // verus!
