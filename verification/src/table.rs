//! A small table from keys to values, for keys that are told apart by what they hold.
use vstd::prelude::*;

use crate::text;

verus! {

/// A key of a table: what it holds is its view.
pub trait TableKey: View + Sized {
    /// Whether two keys hold the same.
    fn same(&self, other: &Self) -> (r: bool)
        ensures
            r == (self@ == other@),
    ;

    /// A key that holds the same.
    fn copy(&self) -> (r: Self)
        ensures
            r@ == self@,
    ;
}

impl TableKey for String {
    fn same(&self, other: &Self) -> (r: bool) {
        text::same_text(self.as_str(), other.as_str())
    }

    fn copy(&self) -> (r: Self) {
        self.clone()
    }
}

impl TableKey for Vec<u8> {
    fn same(&self, other: &Self) -> (r: bool) {
        if self.len() != other.len() {
            return false;
        }
        let mut i: usize = 0;
        while i < self.len()
            invariant
                i <= self.len(),
                self@.len() == other@.len(),
                forall|j: int| 0 <= j < i ==> self@[j] == other@[j],
            decreases self.len() - i,
        {
            if self[i] != other[i] {
                return false;
            }
            i += 1;
        }
        assert(self@ == other@);
        true
    }

    fn copy(&self) -> (r: Self) {
        let mut out: Vec<u8> = Vec::new();
        let mut i: usize = 0;
        while i < self.len()
            invariant
                i <= self.len(),
                out@ == self@.take(i as int),
            decreases self.len() - i,
        {
            out.push(self[i]);
            i += 1;
            assert(self@.take(i as int) == self@.take(i - 1).push(self@[i - 1]));
        }
        assert(self@.take(i as int) == self@);
        out
    }
}

/// Whether no key occurs twice.
pub open spec fn distinct<K: TableKey, V>(entries: Seq<(K, V)>) -> bool {
    forall|i: int, j: int|
        0 <= i < j < entries.len() ==> (#[trigger] entries[i]).0@ != (#[trigger] entries[j]).0@
}

/// Whether the entry at `i` is that of `key`.
pub open spec fn is_entry<K: TableKey, V>(entries: Seq<(K, V)>, key: K::V, i: int) -> bool {
    0 <= i < entries.len() && entries[i].0@ == key
}

/// The table that a list of entries stands for.
pub open spec fn as_map<K: TableKey, V>(entries: Seq<(K, V)>) -> Map<K::V, V> {
    Map::new(
        |key: K::V| exists|i: int| is_entry(entries, key, i),
        |key: K::V| entries[choose|i: int| is_entry(entries, key, i)].1,
    )
}

/// What the entry at `i` says is what the table holds.
proof fn entry_is_held<K: TableKey, V>(entries: Seq<(K, V)>, i: int)
    requires
        distinct(entries),
        0 <= i < entries.len(),
    ensures
        as_map(entries).contains_key(entries[i].0@),
        as_map(entries)[entries[i].0@] == entries[i].1,
{
    let key = entries[i].0@;
    assert(is_entry(entries, key, i));
    let j = choose|j: int| is_entry(entries, key, j);
    if j < i {
        assert(entries[j].0@ != entries[i].0@);
    } else if i < j {
        assert(entries[i].0@ != entries[j].0@);
    }
}

/// Without the entry at `i`, the table lacks its key.
proof fn entry_is_gone<K: TableKey, V>(entries: Seq<(K, V)>, i: int)
    requires
        distinct(entries),
        0 <= i < entries.len(),
    ensures
        distinct(entries.remove(i)),
        as_map(entries.remove(i)) == as_map(entries).remove(entries[i].0@),
{
    let rest = entries.remove(i);
    let key = entries[i].0@;
    assert forall|a: int, b: int| 0 <= a < b < rest.len() implies (#[trigger] rest[a]).0@ != (
    #[trigger] rest[b]).0@ by {
        let x = if a < i { a } else { a + 1 };
        let y = if b < i { b } else { b + 1 };
        assert(rest[a] == entries[x] && rest[b] == entries[y]);
    }
    assert forall|k: K::V| #[trigger]
        as_map(rest).contains_key(k) <==> as_map(entries).remove(key).contains_key(k) by {
        if as_map(rest).contains_key(k) {
            let a = choose|a: int| is_entry(rest, k, a);
            let x = if a < i { a } else { a + 1 };
            assert(rest[a] == entries[x]);
            assert(is_entry(entries, k, x));
            if x < i {
                assert(entries[x].0@ != entries[i].0@);
            } else {
                assert(entries[i].0@ != entries[x].0@);
            }
        }
        if as_map(entries).remove(key).contains_key(k) {
            let x = choose|x: int| is_entry(entries, k, x);
            let a = if x < i { x } else { x - 1 };
            assert(rest[a] == entries[x]);
            assert(is_entry(rest, k, a));
        }
    }
    assert forall|k: K::V| #[trigger] as_map(rest).contains_key(k) implies as_map(rest)[k]
        == as_map(entries).remove(key)[k] by {
        let a = choose|a: int| is_entry(rest, k, a);
        let x = if a < i { a } else { a + 1 };
        assert(rest[a] == entries[x]);
        entry_is_held(rest, a);
        entry_is_held(entries, x);
    }
    assert(as_map(rest) =~= as_map(entries).remove(key));
}

/// With one more entry, the table holds one more key.
proof fn entry_is_added<K: TableKey, V>(entries: Seq<(K, V)>, key: K, value: V)
    requires
        distinct(entries),
        !as_map(entries).contains_key(key@),
    ensures
        distinct(entries.push((key, value))),
        as_map(entries.push((key, value))) == as_map(entries).insert(key@, value),
{
    let more = entries.push((key, value));
    assert forall|a: int, b: int| 0 <= a < b < more.len() implies (#[trigger] more[a]).0@ != (
    #[trigger] more[b]).0@ by {
        if b == entries.len() {
            if more[a].0@ == key@ {
                assert(is_entry(entries, key@, a));
            }
        } else {
            assert(entries[a].0@ != entries[b].0@);
        }
    }
    assert forall|k: K::V| #[trigger]
        as_map(more).contains_key(k) <==> as_map(entries).insert(key@, value).contains_key(k) by {
        if as_map(more).contains_key(k) {
            let a = choose|a: int| is_entry(more, k, a);
            if a < entries.len() {
                assert(is_entry(entries, k, a));
            }
        }
        if as_map(entries).contains_key(k) {
            let a = choose|a: int| is_entry(entries, k, a);
            assert(is_entry(more, k, a));
        }
        assert(is_entry(more, key@, entries.len() as int));
    }
    assert forall|k: K::V| #[trigger] as_map(more).contains_key(k) implies as_map(more)[k]
        == as_map(entries).insert(key@, value)[k] by {
        let a = choose|a: int| is_entry(more, k, a);
        entry_is_held(more, a);
        if a < entries.len() {
            entry_is_held(entries, a);
            assert(k != key@);
        }
    }
    assert(as_map(more) =~= as_map(entries).insert(key@, value));
}

/// A table in which every key occurs once.
#[derive(Debug)]
pub struct Table<K: TableKey, V> {
    entries: Vec<(K, V)>,
}

impl<K: TableKey, V> View for Table<K, V> {
    type V = Map<K::V, V>;

    closed spec fn view(&self) -> Map<K::V, V> {
        as_map(self.entries@)
    }
}

impl<K: TableKey, V> Table<K, V> {
    #[verifier::type_invariant]
    spec fn keys_are_distinct(self) -> bool {
        distinct(self.entries@)
    }

    /// A table without entries.
    pub fn new() -> (r: Self)
        ensures
            r@ == Map::<K::V, V>::empty(),
    {
        let r = Table { entries: Vec::new() };
        assert(as_map(r.entries@) =~= Map::<K::V, V>::empty());
        r
    }

    /// The position of a key's entry.
    fn position(entries: &Vec<(K, V)>, key: &K) -> (r: Option<usize>)
        ensures
            match r {
                Some(i) => is_entry(entries@, key@, i as int),
                None => !as_map(entries@).contains_key(key@),
            },
    {
        let mut i: usize = 0;
        while i < entries.len()
            invariant
                i <= entries.len(),
                forall|j: int| 0 <= j < i ==> !is_entry(entries@, key@, j),
            decreases entries.len() - i,
        {
            if entries[i].0.same(key) {
                return Some(i);
            }
            i += 1;
        }
        None
    }

    /// Sets the value of a key.
    pub fn insert(&mut self, key: K, value: V)
        ensures
            final(self)@ == old(self)@.insert(key@, value),
    {
        proof {
            use_type_invariant(&*self);
        }
        let mut entries: Vec<(K, V)> = Vec::new();
        std::mem::swap(&mut entries, &mut self.entries);
        let ghost before = entries@;
        if let Some(i) = Self::position(&entries, &key) {
            proof {
                entry_is_gone(before, i as int);
            }
            let _ = entries.remove(i);
            assert(entries@ == before.remove(i as int));
        }
        proof {
            assert(!as_map(entries@).contains_key(key@));
            entry_is_added(entries@, key, value);
            assert(as_map(entries@).insert(key@, value) =~= as_map(before).insert(key@, value));
        }
        entries.push((key, value));
        self.entries = entries;
    }

    /// Takes out a key's entry, and gives its value.
    pub fn remove(&mut self, key: &K) -> (r: Option<V>)
        ensures
            final(self)@ == old(self)@.remove(key@),
            r == (if old(self)@.contains_key(key@) {
                Some(old(self)@[key@])
            } else {
                None
            }),
    {
        proof {
            use_type_invariant(&*self);
        }
        let mut entries: Vec<(K, V)> = Vec::new();
        std::mem::swap(&mut entries, &mut self.entries);
        let ghost before = entries@;
        let mut r: Option<V> = None;
        if let Some(i) = Self::position(&entries, key) {
            proof {
                entry_is_held(before, i as int);
                entry_is_gone(before, i as int);
            }
            r = Some(entries.remove(i).1);
            assert(entries@ == before.remove(i as int));
        } else {
            assert(as_map(before).remove(key@) =~= as_map(before));
        }
        self.entries = entries;
        r
    }

    /// The value of a key.
    pub fn get(&self, key: &K) -> (r: Option<&V>)
        ensures
            r == (if self@.contains_key(key@) {
                Some(&self@[key@])
            } else {
                None
            }),
    {
        proof {
            use_type_invariant(self);
        }
        match Self::position(&self.entries, key) {
            Some(i) => {
                proof {
                    entry_is_held(self.entries@, i as int);
                }
                Some(&self.entries[i].1)
            },
            None => None,
        }
    }

    /// The keys of the table, each once.
    pub fn keys(&self) -> (r: Vec<K>)
        ensures
            forall|i: int, j: int| 0 <= i < j < r@.len() ==> (#[trigger] r@[i])@ != (#[trigger] r@[j])@,
            forall|i: int| 0 <= i < r@.len() ==> self@.contains_key((#[trigger] r@[i])@),
            forall|key: K::V| #[trigger]
                self@.contains_key(key) ==> exists|i: int| 0 <= i < r@.len() && (#[trigger] r@[i])@ == key,
    {
        proof {
            use_type_invariant(self);
        }
        let mut out: Vec<K> = Vec::new();
        let mut i: usize = 0;
        while i < self.entries.len()
            invariant
                i <= self.entries.len(),
                out@.len() == i,
                forall|j: int| 0 <= j < i ==> (#[trigger] out@[j])@ == self.entries@[j].0@,
            decreases self.entries.len() - i,
        {
            out.push(self.entries[i].0.copy());
            i += 1;
        }
        proof {
            assert forall|a: int| 0 <= a < out@.len() implies self@.contains_key((#[trigger] out@[a])@) by {
                entry_is_held(self.entries@, a);
            }
            assert forall|key: K::V| #[trigger] self@.contains_key(key) implies exists|a: int|
                0 <= a < out@.len() && (#[trigger] out@[a])@ == key by {
                let a = choose|a: int| is_entry(self.entries@, key, a);
                assert(out@[a]@ == key);
            }
        }
        out
    }

    /// Keeps the entries whose values `keep` accepts.
    pub(crate) fn retain<F: Fn(&V) -> bool>(&mut self, keep: F, Ghost(wanted): Ghost<spec_fn(V) -> bool>)
        requires
            forall|value: V| #[trigger] keep.requires((&value,)),
            forall|value: V, r: bool| #[trigger] keep.ensures((&value,), r) ==> r == wanted(value),
        ensures
            final(self)@ == old(self)@.restrict(
                Set::new(|key: K::V| old(self)@.contains_key(key) && wanted(old(self)@[key])),
            ),
    {
        proof {
            use_type_invariant(&*self);
        }
        let mut entries: Vec<(K, V)> = Vec::new();
        std::mem::swap(&mut entries, &mut self.entries);
        let ghost before = as_map(entries@);
        let mut kept: Vec<(K, V)> = Vec::new();
        assert(as_map(kept@) =~= Map::<K::V, V>::empty());
        // Every key is still to be looked at, kept, or refused.
        while entries.len() > 0
            invariant
                distinct(entries@),
                distinct(kept@),
                forall|value: V| #[trigger] keep.requires((&value,)),
                forall|value: V, r: bool| #[trigger] keep.ensures((&value,), r) ==> r == wanted(value),
                forall|key: K::V| #[trigger]
                    as_map(entries@).contains_key(key) ==> before.contains_key(key) && before[key]
                        == as_map(entries@)[key] && !as_map(kept@).contains_key(key),
                forall|key: K::V| #[trigger]
                    as_map(kept@).contains_key(key) ==> before.contains_key(key) && before[key]
                        == as_map(kept@)[key] && wanted(before[key]),
                forall|key: K::V| #[trigger]
                    before.contains_key(key) ==> as_map(entries@).contains_key(key) || as_map(
                        kept@,
                    ).contains_key(key) || !wanted(before[key]),
            decreases entries.len(),
        {
            let ghost all = entries@;
            let last: usize = entries.len() - 1;
            proof {
                entry_is_held(all, last as int);
                entry_is_gone(all, last as int);
            }
            let entry: (K, V) = entries.remove(last);
            assert(entries@ == all.remove(last as int));
            if keep(&entry.1) {
                proof {
                    entry_is_added(kept@, entry.0, entry.1);
                }
                kept.push(entry);
            }
        }
        proof {
            let wanted_keys = Set::new(
                |key: K::V| before.contains_key(key) && wanted(before[key]),
            );
            assert(as_map(entries@) =~= Map::<K::V, V>::empty()) by {
                assert forall|key: K::V| !as_map(entries@).contains_key(key) by {
                    assert(forall|i: int| !is_entry(entries@, key, i));
                }
            }
            assert(as_map(kept@) =~= before.restrict(wanted_keys));
        }
        self.entries = kept;
    }
}

/// A table gives back what was put in under a key, and nothing once it was taken out; the other keys are
/// not touched, and a new table holds nothing.
pub proof fn tables_give_back_what_was_put_in<K: TableKey, V>(
    table: &mut Table<K, V>,
    key: K,
    value: V,
    emptied: &mut Table<K, V>,
    taken: Option<V>,
    other: &K,
    before: Option<&V>,
    after: Option<&V>,
    left: Option<&V>,
    fresh: Table<K, V>,
    nothing: Option<&V>,
)
    requires
        call_ensures(Table::<K, V>::insert, (table, key, value), ()),
        call_ensures(Table::<K, V>::get, (&*table, other), before),
        call_ensures(Table::<K, V>::get, (final(table), other), after),
        *emptied == *final(table),
        call_ensures(Table::<K, V>::remove, (emptied, &key), taken),
        call_ensures(Table::<K, V>::get, (final(emptied), other), left),
        call_ensures(Table::<K, V>::new, (), fresh),
        call_ensures(Table::<K, V>::get, (&fresh, other), nothing),
    ensures
        other@ == key@ ==> after == Some(&value) && left is None,
        other@ != key@ ==> after == before && left == before,
        taken == Some(value),
        nothing is None,
{
}

} // verus!
