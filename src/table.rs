use vstd::prelude::*;
use crate::address::{Address, same_address};

verus! {

/// The map from address to record that a list of entries stands for.
pub open spec fn table_map<T>(s: Seq<(Address, T)>) -> Map<Seq<u8>, T>
    decreases s.len(),
{
    if s.len() == 0 {
        Map::empty()
    } else {
        table_map(s.drop_last()).insert(s.last().0@, s.last().1)
    }
}

/// No two entries share an address.
pub open spec fn keys_unique<T>(s: Seq<(Address, T)>) -> bool {
    forall|i: int, j: int| 0 <= i < j < s.len() ==> s[i].0@ != s[j].0@
}

/// Appending an entry inserts it into the map.
pub proof fn lemma_table_push<T>(s: Seq<(Address, T)>, e: (Address, T))
    ensures
        table_map(s.push(e)) == table_map(s).insert(e.0@, e.1),
{
    assert(s.push(e).drop_last() =~= s);
}

/// An address that no entry holds is not in the map.
pub proof fn lemma_table_absent<T>(s: Seq<(Address, T)>, k: Seq<u8>)
    requires
        forall|i: int| 0 <= i < s.len() ==> s[i].0@ != k,
    ensures
        !table_map(s).contains_key(k),
    decreases s.len(),
{
    if s.len() > 0 {
        lemma_table_absent(s.drop_last(), k);
    }
}

/// With unique addresses, each entry is what the map holds at its address.
pub proof fn lemma_table_at<T>(s: Seq<(Address, T)>, i: int)
    requires
        keys_unique(s),
        0 <= i < s.len(),
    ensures
        table_map(s).contains_key(s[i].0@),
        table_map(s)[s[i].0@] == s[i].1,
    decreases s.len(),
{
    if i < s.len() - 1 {
        lemma_table_at(s.drop_last(), i);
    }
}

/// With unique addresses, replacing an entry's record replaces the map's value.
pub proof fn lemma_table_update<T>(s: Seq<(Address, T)>, i: int, v: T)
    requires
        keys_unique(s),
        0 <= i < s.len(),
    ensures
        table_map(s.update(i, (s[i].0, v))) == table_map(s).insert(s[i].0@, v),
        keys_unique(s.update(i, (s[i].0, v))),
    decreases s.len(),
{
    let t = s.update(i, (s[i].0, v));
    if i == s.len() - 1 {
        assert(t.drop_last() =~= s.drop_last());
        lemma_table_absent(s.drop_last(), s[i].0@);
        assert(table_map(t) =~= table_map(s).insert(s[i].0@, v));
    } else {
        assert(t.drop_last() =~= s.drop_last().update(i, (s[i].0, v)));
        lemma_table_update(s.drop_last(), i, v);
        assert(table_map(t) =~= table_map(s).insert(s[i].0@, v));
    }
}

/// Position of the entry stored under `k`, if any.
pub fn find_index<T>(s: &Vec<(Address, T)>, k: &Address) -> (r: Option<usize>)
    ensures
        match r {
            Some(i) => i < s@.len() && s@[i as int].0@ == k@,
            None => forall|j: int| 0 <= j < s@.len() ==> s@[j].0@ != k@,
        },
{
    let mut i: usize = 0;
    while i < s.len()
        invariant
            i <= s@.len(),
            forall|j: int| 0 <= j < i ==> s@[j].0@ != k@,
        decreases s@.len() - i,
    {
        if same_address(&s[i].0, k) {
            return Some(i);
        }
        i = i + 1;
    }
    None
}

} // verus!
