//! A keyed store whose indexes stay valid while other entries come and go.
//!
//! Entries are addressed by [`Index`] values rather than by shared pointers: an index is a
//! plain key, so it can be copied and stored anywhere without sharing the entry itself.
use std::collections::btree_map::Values;
use std::collections::BTreeMap;
use std::marker::PhantomData;
use vstd::prelude::*;
use vstd::laws_cmp::obeys_cmp;
use vstd::std_specs::cmp::OrdSpec;
use vstd::std_specs::btree::{increasing_seq, key_obeys_cmp_spec, spec_btree_map_iter};
use vstd::std_specs::iter::IteratorSpec;

verus! {

/// Distance from `start` to `key` when counting upwards with wrap-around at `usize::MAX`.
pub open spec fn wrapped_distance(start: usize, key: usize) -> nat {
    if key >= start {
        (key - start) as nat
    } else {
        (key + usize::MAX + 1 - start) as nat
    }
}

/// The key after `key` when counting upwards with wrap-around at `usize::MAX`.
pub open spec fn wrapping_successor(key: usize) -> usize {
    if key == usize::MAX {
        0
    } else {
        (key + 1) as usize
    }
}

/// `key` is the first key not in `dom` when counting upwards from `start`, with
/// wrap-around at `usize::MAX`.
pub open spec fn is_first_free_key(key: usize, start: usize, dom: Set<usize>) -> bool {
    &&& !dom.contains(key)
    &&& forall|k: usize|
        #[trigger] wrapped_distance(start, k) < wrapped_distance(start, key) ==> dom.contains(k)
}

/// `keys` lists every key of `dom` exactly once, in increasing order.
pub open spec fn keys_in_order(keys: Seq<usize>, dom: Set<usize>) -> bool {
    &&& keys.no_duplicates()
    &&& keys.to_set() == dom
    &&& forall|i: int, j: int| 0 <= i < j < keys.len() ==> keys[i] < keys[j]
}

/// `key` is the smallest key of `dom`.
pub open spec fn is_first_key(key: usize, dom: Set<usize>) -> bool {
    dom.contains(key) && forall|k: usize| #[trigger] dom.contains(k) ==> key <= k
}

/// `usize` keys are ordered as the `BTreeMap` specification expects.
proof fn lemma_usize_keys_ordered()
    ensures
        obeys_cmp::<usize>(),
        key_obeys_cmp_spec::<usize>(),
{
}

/// Keys that the `BTreeMap` specification calls increasing are strictly increasing numbers.
proof fn lemma_increasing_keys(keys: Seq<usize>)
    requires
        increasing_seq(keys),
    ensures
        forall|i: int, j: int| 0 <= i < j < keys.len() ==> keys[i] < keys[j],
{
    lemma_usize_keys_ordered();
    assert forall|i: int, j: int| 0 <= i < j < keys.len() implies keys[i] < keys[j] by {
        assert(keys[i].cmp_spec(&keys[j]) is Less);
    }
}

/// A store of `T` values, each addressed by the [`Index`] that `push` handed out for it.
///
/// A `BTreeMap` is used instead of a `Vec`, so that entries can be added and removed without
/// invalidating the indexes of the other entries.
pub struct List<T> {
    inner: BTreeMap<usize, T>,
    next_key: usize,
}

/// The address of one entry of a [`List`] of `T`.
pub struct Index<T> {
    inner: usize,
    type_bound: PhantomData<T>,
}

impl<T> View for List<T> {
    type V = Map<usize, T>;

    /// The entries of the store, by key.
    closed spec fn view(&self) -> Map<usize, T> {
        self.inner@
    }
}

impl<T> View for Index<T> {
    type V = usize;

    /// The key that the index addresses.
    closed spec fn view(&self) -> usize {
        self.inner
    }
}

impl<T> Index<T> {
    fn new(n: usize) -> (idx: Self)
        ensures
            idx@ == n,
    {
        Index { inner: n, type_bound: PhantomData }
    }

    /// Two indexes with the same key are the same value.
    pub proof fn lemma_view_injective(a: Self, b: Self)
        requires
            a@ == b@,
        ensures
            a == b,
    {
    }
}

impl<T> Default for List<T> {
    fn default() -> (list: Self)
        ensures
            list@ == Map::<usize, T>::empty(),
            list.spec_next_key() == 0,
    {
        Self::new()
    }
}

impl<T> Clone for Index<T> {
    fn clone(&self) -> (copy: Self)
        ensures
            copy == *self,
    {
        Index { inner: self.inner, type_bound: PhantomData }
    }
}

impl<T> Copy for Index<T> {

}

impl<T> PartialEq for Index<T> {
    fn eq(&self, other: &Self) -> (same: bool) {
        self.inner == other.inner
    }
}

impl<T> vstd::std_specs::cmp::PartialEqSpecImpl for Index<T> {
    open spec fn obeys_eq_spec() -> bool {
        true
    }

    open spec fn eq_spec(&self, other: &Self) -> bool {
        self@ == other@
    }
}

impl<T> List<T> {
    /// The key that the next search for an unused key starts from.
    pub closed spec fn spec_next_key(&self) -> usize {
        self.next_key
    }

    proof fn lemma_map_len_after_insert(m: Map<usize, T>, k: usize, v: T)
        requires
            m.dom().finite(),
            !m.contains_key(k),
        ensures
            m.insert(k, v).len() == m.len() + 1,
    {
    }

    /// An empty store.
    pub fn new() -> (list: Self)
        ensures
            list@ == Map::<usize, T>::empty(),
            list.spec_next_key() == 0,
    {
        List { inner: BTreeMap::new(), next_key: 0 }
    }

    /// Number of entries in the store.
    pub fn len(&self) -> (n: usize)
        ensures
            n == self@.len(),
    {
        self.inner.len()
    }

    proof fn lemma_len_fits(&self)
        ensures
            self@.dom().finite(),
            self@.len() <= usize::MAX,
    {
        assert(vstd::std_specs::btree::spec_btree_map_len(&self.inner) == self.inner@.len());
    }

    /// Moves `next_key` forward, with wrap-around, to the first key not in use.
    fn provide_next_unused_key(&mut self)
        ensures
            final(self)@ == old(self)@,
            is_first_free_key(final(self).spec_next_key(), old(self).spec_next_key(), old(self)@.dom()),
    {
        proof {
            self.lemma_len_fits();
        }
        let search_start = self.next_key;
        let ghost mut visited: Set<usize> = Set::empty();
        while self.inner.contains_key(&self.next_key)
            invariant
                self.inner@ == old(self).inner@,
                self.inner@.dom().finite(),
                self.inner@.len() <= usize::MAX,
                visited.finite(),
                visited.subset_of(self.inner@.dom()),
                visited.len() == wrapped_distance(search_start, self.next_key),
                forall|v: usize|
                    #[trigger] visited.contains(v) ==> wrapped_distance(search_start, v)
                        < wrapped_distance(search_start, self.next_key),
                forall|v: usize|
                    #[trigger] wrapped_distance(search_start, v) < wrapped_distance(
                        search_start,
                        self.next_key,
                    ) ==> self.inner@.dom().contains(v),
            decreases self.inner@.len() - visited.len(),
        {
            let ghost before = self.next_key;
            proof {
                assert(!visited.contains(before));
                visited = visited.insert(before);
                vstd::set_lib::lemma_len_subset(visited, self.inner@.dom());
            }
            self.next_key = self.next_key.wrapping_add(1);
            assert(wrapped_distance(search_start, self.next_key) == wrapped_distance(
                search_start,
                before,
            ) + 1);
            // the search never runs into its own start: some key is always free
            assert(search_start != self.next_key);
            assert forall|v: usize|
                #[trigger] wrapped_distance(search_start, v) < wrapped_distance(
                    search_start,
                    self.next_key,
                ) implies self.inner@.dom().contains(v) by {
                if wrapped_distance(search_start, v) == wrapped_distance(search_start, before) {
                    assert(v == before);
                }
            }
        }
    }

    /// Stores `item` under a key not in use and returns the index of that key.
    /// The key is the first one not in use, counting upwards from the key after the one
    /// handed out last, with wrap-around; so a deleted key is not handed out again before
    /// the count wraps around.
    pub fn push(&mut self, item: T) -> (idx: Index<T>)
        ensures
            is_first_free_key(idx@, old(self).spec_next_key(), old(self)@.dom()),
            !old(self)@.contains_key(idx@),
            final(self)@ == old(self)@.insert(idx@, item),
            final(self).spec_next_key() == wrapping_successor(idx@),
            final(self).spec_next_key() as int == (idx@ as int + 1) % (usize::MAX as int + 1),
    {
        self.provide_next_unused_key();
        let previous = self.inner.insert(self.next_key, item);
        assert(previous.is_none());
        let index_for_pushed = Index::new(self.next_key);
        self.next_key = self.next_key.wrapping_add(1);
        index_for_pushed
    }

    /// Removes the entry of `idx`, if there is one.
    pub fn delete(&mut self, idx: Index<T>)
        ensures
            final(self)@ == old(self)@.remove(idx@),
            final(self).spec_next_key() == old(self).spec_next_key(),
    {
        let _ = self.inner.remove(&idx.inner);
    }

    /// The entry of `idx`.
    pub fn index(&self, idx: Index<T>) -> (item: &T)
        requires
            self@.contains_key(idx@),
        ensures
            *item == self@[idx@],
    {
        self.inner.get(&idx.inner).unwrap()
    }

    /// The entries, in increasing order of their keys.
    pub fn iter(&self) -> (values: Values<'_, usize, T>)
        ensures
            exists|keys: Seq<usize>|
                {
                    &&& keys_in_order(keys, self@.dom())
                    &&& values.remaining() == keys.map(|i: int, k: usize| &self@[k])
                },
    {
        proof {
            lemma_usize_keys_ordered();
        }
        let values = self.inner.values();
        proof {
            let keys = choose|keys: Seq<usize>|
                {
                    &&& increasing_seq(keys)
                    &&& keys.to_set() == self.inner@.dom()
                    &&& keys.no_duplicates()
                    &&& values.remaining() == keys.map(|i: int, k: usize| &self.inner@[k])
                };
            lemma_increasing_keys(keys);
            assert(keys_in_order(keys, self@.dom()));
        }
        values
    }

    /// Each entry together with its index, in increasing order of the keys.
    pub fn enumerate(&self) -> (entries: Vec<(Index<T>, &T)>)
        ensures
            exists|keys: Seq<usize>|
                {
                    &&& keys_in_order(keys, self@.dom())
                    &&& entries@.len() == keys.len()
                    &&& forall|i: int|
                        0 <= i < keys.len() ==> #[trigger] entries@[i].0@ == keys[i]
                            && *entries@[i].1 == self@[keys[i]]
                },
    {
        proof {
            lemma_usize_keys_ordered();
        }
        let mut entries: Vec<(Index<T>, &T)> = Vec::new();
        let ghost pairs = spec_btree_map_iter(&self.inner).remaining();
        for kv in it: self.inner.iter()
            invariant
                it.seq() == pairs,
                entries@.len() == it.index(),
                forall|i: int|
                    0 <= i < it.index() ==> (#[trigger] entries@[i]).0@ == *pairs[i].0
                        && entries@[i].1 == pairs[i].1,
        {
            let (k, v) = kv;
            entries.push((Index::new(*k), v));
        }
        proof {
            let keys = pairs.map_values(|kv: (&usize, &T)| *kv.0);
            lemma_increasing_keys(keys);
            assert(entries@.len() == keys.len());
            assert forall|k: usize| #[trigger] self@.dom().contains(k) implies keys.contains(k) by {
                let i = choose|i: int| 0 <= i < pairs.len() && pairs[i] == (&k, &self.inner@[k]);
                assert(keys[i] == k);
            }
            assert(keys.to_set() =~= self@.dom());
            assert(keys_in_order(keys, self@.dom()));
        }
        entries
    }

    /// The index of the entry with the smallest key, or `None` for an empty store.
    pub fn first_index(&self) -> (first: Option<Index<T>>)
        ensures
            match first {
                Some(idx) => is_first_key(idx@, self@.dom()),
                None => self@.dom() == Set::<usize>::empty(),
            },
    {
        let entries = self.enumerate();
        if entries.len() > 0 {
            proof {
                let keys = choose|keys: Seq<usize>|
                    {
                        &&& keys_in_order(keys, self@.dom())
                        &&& entries@.len() == keys.len()
                        &&& forall|i: int|
                            0 <= i < keys.len() ==> #[trigger] entries@[i].0@ == keys[i]
                                && *entries@[i].1 == self@[keys[i]]
                    };
                assert(keys.contains(keys[0]));
                assert forall|k: usize| #[trigger] self@.dom().contains(k) implies keys[0] <= k by {
                    assert(keys.to_set().contains(k));
                    let i = choose|i: int| 0 <= i < keys.len() && keys[i] == k;
                    if i > 0 {
                        assert(keys[0] < keys[i]);
                    }
                }
            }
            Some(entries[0].0)
        } else {
            proof {
                let keys = choose|keys: Seq<usize>|
                    {
                        &&& keys_in_order(keys, self@.dom())
                        &&& entries@.len() == keys.len()
                        &&& forall|i: int|
                            0 <= i < keys.len() ==> #[trigger] entries@[i].0@ == keys[i]
                                && *entries@[i].1 == self@[keys[i]]
                    };
                assert(keys =~= Seq::<usize>::empty());
                assert(self@.dom() =~= keys.to_set());
            }
            None
        }
    }

    /// Stores `item` as the entry of `idx`, in place of the entry it had, if any; returns
    /// that entry.
    pub fn replace(&mut self, idx: Index<T>, item: T) -> (previous: Option<T>)
        ensures
            final(self)@ == old(self)@.insert(idx@, item),
            final(self).spec_next_key() == old(self).spec_next_key(),
            previous == (if old(self)@.contains_key(idx@) {
                Some(old(self)@[idx@])
            } else {
                None
            }),
    {
        self.inner.insert(idx.inner, item)
    }

    /// Removes the entry of `idx` and returns it, if there is one.
    pub fn take(&mut self, idx: Index<T>) -> (item: Option<T>)
        ensures
            final(self)@ == old(self)@.remove(idx@),
            final(self).spec_next_key() == old(self).spec_next_key(),
            item == (if old(self)@.contains_key(idx@) {
                Some(old(self)@[idx@])
            } else {
                None
            }),
    {
        self.inner.remove(&idx.inner)
    }

    /// The entry of `idx`, or `None` where the store has none.
    pub fn get(&self, idx: Index<T>) -> (item: Option<&T>)
        ensures
            match item {
                Some(v) => self@.contains_key(idx@) && *v == self@[idx@],
                None => !self@.contains_key(idx@),
            },
    {
        self.inner.get(&idx.inner)
    }
}

/// What `push` stores is read back through the index it returned.
pub proof fn law_push_then_index<T>(before: List<T>, after: List<T>, pushed: Index<T>, item: T)
    requires
        !before@.contains_key(pushed@),
        after@ == before@.insert(pushed@, item),
    ensures
        after@.contains_key(pushed@),
        after@[pushed@] == item,
        after@.len() == before@.len() + 1,
{
    List::<T>::lemma_map_len_after_insert(before@, pushed@, item);
}

/// The key that `push` hands out is determined: only one key is the first free one.
pub proof fn law_first_free_key_is_unique(a: usize, b: usize, start: usize, dom: Set<usize>)
    requires
        is_first_free_key(a, start, dom),
        is_first_free_key(b, start, dom),
    ensures
        a == b,
{
    if wrapped_distance(start, a) < wrapped_distance(start, b) {
        assert(dom.contains(a));
    } else if wrapped_distance(start, b) < wrapped_distance(start, a) {
        assert(dom.contains(b));
    }
}

/// The search for the next key starts one past the key handed out last, wrapping at
/// `usize::MAX`; it never starts at that key itself.
pub proof fn law_wrapping_successor_is_next(key: usize)
    ensures
        wrapping_successor(key) as int == (key as int + 1) % (usize::MAX as int + 1),
        wrapping_successor(key) != key,
        wrapped_distance(wrapping_successor(key), key) == usize::MAX,
{
    if key == usize::MAX {
        vstd::arithmetic::div_mod::lemma_mod_self_0(usize::MAX as int + 1);
    } else {
        vstd::arithmetic::div_mod::lemma_small_mod((key + 1) as nat, (usize::MAX + 1) as nat);
    }
}

/// A key handed out by `push` and deleted again is not handed out by the next `push`,
/// unless it is the only key left free (the count has wrapped around).
pub proof fn law_deleted_key_not_handed_out_next(
    pushed: usize,
    start: usize,
    dom: Set<usize>,
    next_pushed: usize,
    other_free: usize,
)
    requires
        is_first_free_key(pushed, start, dom),
        is_first_free_key(next_pushed, wrapping_successor(pushed), dom.insert(pushed).remove(pushed)),
        other_free != pushed,
        !dom.contains(other_free),
    ensures
        next_pushed != pushed,
{
    let s = wrapping_successor(pushed);
    if next_pushed == pushed {
        assert(wrapped_distance(s, pushed) == usize::MAX);
        assert(wrapped_distance(s, other_free) < wrapped_distance(s, pushed));
        assert(dom.insert(pushed).remove(pushed).contains(other_free));
    }
}

/// Where the search start is free, the search stays there: it is the first free key.
pub proof fn law_free_start_is_first_free_key(start: usize, dom: Set<usize>)
    requires
        !dom.contains(start),
    ensures
        is_first_free_key(start, start, dom),
{
}

/// An index keeps addressing its entry while other entries are pushed, and `push` never
/// hands out an index that is in use.
pub proof fn law_push_keeps_indexes<T>(
    before: List<T>,
    after: List<T>,
    pushed: Index<T>,
    item: T,
    idx: Index<T>,
)
    requires
        before@.contains_key(idx@),
        !before@.contains_key(pushed@),
        after@ == before@.insert(pushed@, item),
    ensures
        idx@ != pushed@,
        after@.contains_key(idx@),
        after@[idx@] == before@[idx@],
{
}

/// An index keeps addressing its entry while other entries are deleted.
pub proof fn law_delete_keeps_indexes<T>(
    before: List<T>,
    after: List<T>,
    deleted: Index<T>,
    idx: Index<T>,
)
    requires
        before@.contains_key(idx@),
        idx@ != deleted@,
        after@ == before@.remove(deleted@),
    ensures
        after@.contains_key(idx@),
        after@[idx@] == before@[idx@],
{
}

/// After `delete`, the index addresses nothing.
pub proof fn law_delete_then_get<T>(before: List<T>, after: List<T>, deleted: Index<T>)
    requires
        after@ == before@.remove(deleted@),
    ensures
        !after@.contains_key(deleted@),
{
}

} // verus!
