//! Keyed tables: sequences of entries in which no key occurs twice, kept in
//! the order in which the keys first came.

use vstd::prelude::*;

verus! {

/// A value that is found by a textual key.
pub trait Keyed {
    /// The key of the value.
    spec fn key(self) -> Seq<char>;
}

/// An entry of a table: its view carries the key it is stored under.
pub trait Entry: View + Sized where <Self as View>::V: Keyed {
    /// The key of the entry.
    fn key_text(&self) -> (k: &String)
        ensures
            k@ == self@.key(),
    ;
}

/// An entry that can be copied with its view kept.
pub trait Replicable: View + Sized {
    /// A copy of the entry.
    fn duplicate(&self) -> (copy: Self)
        ensures
            copy@ == self@,
    ;
}

/// Whether no key occurs twice in `items`.
pub open spec fn keys_distinct<V: Keyed>(items: Seq<V>) -> bool {
    forall|i: int, j: int| 0 <= i < j < items.len() ==> items[i].key() != items[j].key()
}

/// Whether `items` holds an entry under `id`.
pub open spec fn has_key<V: Keyed>(items: Seq<V>, id: Seq<char>) -> bool {
    exists|i: int| 0 <= i < items.len() && #[trigger] items[i].key() == id
}

/// The place of the entry stored under `id`.
pub open spec fn index_of<V: Keyed>(items: Seq<V>, id: Seq<char>) -> int {
    choose|i: int| 0 <= i < items.len() && #[trigger] items[i].key() == id
}

/// The entry stored under `id`.
pub open spec fn entry_of<V: Keyed>(items: Seq<V>, id: Seq<char>) -> V {
    items[index_of(items, id)]
}

/// `items` with `entry` stored under its key: in the place of the entry that
/// had the key, or at the end where the key is new.
pub open spec fn upsert<V: Keyed>(items: Seq<V>, entry: V) -> Seq<V> {
    if has_key(items, entry.key()) {
        items.update(index_of(items, entry.key()), entry)
    } else {
        items.push(entry)
    }
}

/// `items` without the entry stored under `id`.
pub open spec fn without_key<V: Keyed>(items: Seq<V>, id: Seq<char>) -> Seq<V> {
    if has_key(items, id) {
        items.remove(index_of(items, id))
    } else {
        items
    }
}

/// In a table with distinct keys, the place of a key is the one place that
/// holds it.
pub proof fn lemma_index_of<V: Keyed>(items: Seq<V>, i: int)
    requires
        keys_distinct(items),
        0 <= i < items.len(),
    ensures
        has_key(items, items[i].key()),
        index_of(items, items[i].key()) == i,
        entry_of(items, items[i].key()) == items[i],
{
}

/// Storing an entry keeps the keys distinct, makes its key present with the
/// entry under it, and leaves every other key as it was.
pub proof fn lemma_upsert<V: Keyed>(items: Seq<V>, entry: V)
    requires
        keys_distinct(items),
    ensures
        keys_distinct(upsert(items, entry)),
        has_key(upsert(items, entry), entry.key()),
        entry_of(upsert(items, entry), entry.key()) == entry,
        forall|id: Seq<char>|
            id != entry.key() ==> (#[trigger] has_key(upsert(items, entry), id) <==> has_key(
                items,
                id,
            )),
        forall|id: Seq<char>|
            id != entry.key() && has_key(items, id) ==> #[trigger] entry_of(
                upsert(items, entry),
                id,
            ) == entry_of(items, id),
{
    let after = upsert(items, entry);
    let key = entry.key();
    let place = if has_key(items, key) {
        index_of(items, key)
    } else {
        items.len() as int
    };
    assert(after[place] == entry);
    assert forall|i: int| 0 <= i < items.len() && i != place implies #[trigger] after[i]
        == items[i] by {}
    lemma_index_of(after, place);
    assert forall|id: Seq<char>| id != key implies (#[trigger] has_key(after, id) <==> has_key(
        items,
        id,
    )) by {
        if has_key(after, id) {
            assert(items[index_of(after, id)].key() == id);
        }
        if has_key(items, id) {
            assert(after[index_of(items, id)].key() == id);
        }
    }
    assert forall|id: Seq<char>| id != key && has_key(items, id) implies #[trigger] entry_of(
        after,
        id,
    ) == entry_of(items, id) by {
        lemma_index_of(after, index_of(items, id));
    }
}

/// Taking one place out keeps the keys distinct, removes the key that stood
/// there, and leaves every other key as it was.
pub proof fn lemma_remove<V: Keyed>(items: Seq<V>, k: int)
    requires
        keys_distinct(items),
        0 <= k < items.len(),
    ensures
        keys_distinct(items.remove(k)),
        !has_key(items.remove(k), items[k].key()),
        forall|id: Seq<char>|
            id != items[k].key() ==> (#[trigger] has_key(items.remove(k), id) <==> has_key(
                items,
                id,
            )),
        forall|id: Seq<char>|
            id != items[k].key() && has_key(items, id) ==> #[trigger] entry_of(
                items.remove(k),
                id,
            ) == entry_of(items, id),
{
    let after = items.remove(k);
    let key = items[k].key();
    // where the entry at a place of `after` stood in `items`, and the reverse
    let origin = |i: int| if i < k { i } else { i + 1 };
    let target = |i: int| if i < k { i } else { i - 1 };
    assert forall|i: int| 0 <= i < after.len() implies #[trigger] after[i] == items[origin(i)] by {}
    if has_key(after, key) {
        assert(items[origin(index_of(after, key))].key() == key);
    }
    assert forall|id: Seq<char>| id != key implies (#[trigger] has_key(after, id) <==> has_key(
        items,
        id,
    )) by {
        if has_key(after, id) {
            assert(items[origin(index_of(after, id))].key() == id);
        }
        if has_key(items, id) {
            assert(after[target(index_of(items, id))].key() == id);
        }
    }
    assert forall|id: Seq<char>| id != key && has_key(items, id) implies #[trigger] entry_of(
        after,
        id,
    ) == entry_of(items, id) by {
        lemma_index_of(after, target(index_of(items, id)));
    }
}

/// Filtering one element more: the element joins the result where the test
/// holds of it, and is left out where it does not.
pub proof fn lemma_filter_step<A>(s: Seq<A>, test: spec_fn(A) -> bool, k: int)
    requires
        0 <= k < s.len(),
    ensures
        s.take(k + 1).filter(test) == if test(s[k]) {
            s.take(k).filter(test).push(s[k])
        } else {
            s.take(k).filter(test)
        },
{
    reveal(Seq::filter);
    assert(s.take(k + 1).drop_last() =~= s.take(k));
}

/// What a filter lets through is what stood in the sequence and passes the
/// test, and the result is no longer than the sequence.
pub proof fn lemma_filter_members<A>(s: Seq<A>, test: spec_fn(A) -> bool)
    ensures
        forall|i: int| 0 <= i < s.len() && test(s[i]) ==> s.filter(test).contains(#[trigger] s[i]),
        forall|i: int|
            0 <= i < s.filter(test).len() ==> test(#[trigger] s.filter(test)[i]) && s.contains(
                s.filter(test)[i],
            ),
        s.filter(test).len() <= s.len(),
    decreases s.len(),
{
    reveal(Seq::filter);
    if s.len() > 0 {
        let front = s.drop_last();
        lemma_filter_members(front, test);
        let out = s.filter(test);
        assert forall|i: int| 0 <= i < s.len() && test(s[i]) implies out.contains(
            #[trigger] s[i],
        ) by {}
        assert forall|i: int| 0 <= i < out.len() implies test(#[trigger] out[i]) && s.contains(
            out[i],
        ) by {}
    }
}

/// A filter through which everything passes changes nothing.
pub proof fn lemma_filter_all<A>(s: Seq<A>, test: spec_fn(A) -> bool)
    requires
        forall|i: int| 0 <= i < s.len() ==> test(#[trigger] s[i]),
    ensures
        s.filter(test) == s,
    decreases s.len(),
{
    reveal(Seq::filter);
    if s.len() > 0 {
        let front = s.drop_last();
        assert forall|i: int| 0 <= i < front.len() implies test(#[trigger] front[i]) by {}
        lemma_filter_all(front, test);
    }
}

/// A test and its opposite part a sequence in two: what the one filter lets
/// through, the other holds back.
pub proof fn lemma_filter_split<A>(s: Seq<A>, take: spec_fn(A) -> bool, keep: spec_fn(A) -> bool)
    requires
        forall|v: A| #[trigger] keep(v) == !take(v),
    ensures
        s.filter(take).len() + s.filter(keep).len() == s.len(),
    decreases s.len(),
{
    reveal(Seq::filter);
    if s.len() > 0 {
        lemma_filter_split(s.drop_last(), take, keep);
    }
}

/// Filtering keeps the keys distinct; a key is present afterwards exactly
/// where it was present and its entry passes the test, and then with the
/// same entry.
pub proof fn lemma_filter_keys<V: Keyed>(s: Seq<V>, test: spec_fn(V) -> bool)
    requires
        keys_distinct(s),
    ensures
        keys_distinct(s.filter(test)),
        forall|id: Seq<char>| #[trigger]
            has_key(s.filter(test), id) <==> has_key(s, id) && test(entry_of(s, id)),
        forall|id: Seq<char>|
            has_key(s.filter(test), id) ==> #[trigger] entry_of(s.filter(test), id) == entry_of(
                s,
                id,
            ),
    decreases s.len(),
{
    reveal(Seq::filter);
    let out = s.filter(test);
    if s.len() == 0 {
        assert forall|id: Seq<char>| #[trigger]
            has_key(out, id) <==> has_key(s, id) && test(entry_of(s, id)) by {}
    } else {
        let front = s.drop_last();
        let inner = front.filter(test);
        let last = s.len() - 1;
        assert forall|i: int, j: int| 0 <= i < j < front.len() implies front[i].key()
            != front[j].key() by {}
        lemma_filter_keys(front, test);
        lemma_filter_members(front, test);
        // the key of the last entry does not stand in the front
        if has_key(front, s[last].key()) {
            assert(s[index_of(front, s[last].key())].key() == s[last].key());
        }
        assert forall|i: int, j: int| 0 <= i < j < out.len() implies out[i].key()
            != out[j].key() by {}
        assert forall|id: Seq<char>| #[trigger]
            has_key(out, id) <==> has_key(s, id) && test(entry_of(s, id)) by {
            if has_key(out, id) {
                if index_of(out, id) < inner.len() {
                    assert(inner[index_of(out, id)].key() == id);
                    lemma_index_of(s, index_of(front, id));
                } else {
                    lemma_index_of(s, last);
                }
            }
            if has_key(s, id) && test(entry_of(s, id)) {
                lemma_index_of(s, index_of(s, id));
                if index_of(s, id) < last {
                    lemma_index_of(front, index_of(s, id));
                    assert(out[index_of(inner, id)].key() == id);
                } else {
                    assert(out[out.len() - 1].key() == id);
                }
            }
        }
        assert forall|id: Seq<char>| has_key(out, id) implies #[trigger] entry_of(out, id)
            == entry_of(s, id) by {
            if index_of(out, id) < inner.len() {
                lemma_index_of(inner, index_of(out, id));
                lemma_index_of(s, index_of(front, id));
            } else {
                lemma_index_of(s, last);
            }
        }
    }
}

/// The views of a sequence of values.
pub open spec fn views<T: View>(items: Seq<T>) -> Seq<T::V> {
    Seq::new(items.len(), |i: int| items[i]@)
}

/// A table of entries, in the order in which their keys first came.
pub struct Table<T: Entry> where <T as View>::V: Keyed {
    items: Vec<T>,
}

impl<T: Entry> View for Table<T> where <T as View>::V: Keyed {
    type V = Seq<T::V>;

    closed spec fn view(&self) -> Seq<T::V> {
        views(self.items@)
    }
}

impl<T: Entry> Table<T> where <T as View>::V: Keyed {
    #[verifier::type_invariant]
    spec fn well_formed(self) -> bool {
        keys_distinct(self@)
    }

    /// The empty table.
    pub fn new() -> (t: Self)
        ensures
            t@ == Seq::<T::V>::empty(),
    {
        let items: Vec<T> = Vec::new();
        Table { items }
    }

    /// The number of entries. No key occurs twice among them.
    pub fn len(&self) -> (n: usize)
        ensures
            n == self@.len(),
            keys_distinct(self@),
    {
        proof {
            use_type_invariant(self);
        }
        self.items.len()
    }

    /// The place of the entry under `id`, if there is one.
    pub fn find(&self, id: &String) -> (found: Option<usize>)
        ensures
            found is Some <==> has_key(self@, id@),
            found is Some ==> found.unwrap() == index_of(self@, id@),
            keys_distinct(self@),
    {
        proof {
            use_type_invariant(self);
        }
        let mut i: usize = 0;
        while i < self.items.len()
            invariant
                i <= self.items@.len(),
                self@.len() == self.items@.len(),
                keys_distinct(self@),
                forall|j: int| 0 <= j < i ==> (#[trigger] self@[j]).key() != id@,
            decreases self.items@.len() - i,
        {
            if *self.items[i].key_text() == *id {
                assert(self@[i as int].key() == id@);
                return Some(i);
            }
            i = i + 1;
        }
        None
    }

    /// Whether there is an entry under `id`.
    pub fn contains(&self, id: &String) -> (present: bool)
        ensures
            present == has_key(self@, id@),
    {
        self.find(id).is_some()
    }

    /// The entry under `id`, if there is one.
    pub fn get(&self, id: &String) -> (found: Option<&T>)
        ensures
            found is Some <==> has_key(self@, id@),
            found is Some ==> found.unwrap()@ == entry_of(self@, id@),
    {
        match self.find(id) {
            Some(i) => Some(&self.items[i]),
            None => None,
        }
    }

    /// The entry at place `i`, if the table is that long.
    pub fn at(&self, i: usize) -> (found: Option<&T>)
        ensures
            found is Some <==> i < self@.len(),
            found is Some ==> found.unwrap()@ == self@[i as int],
    {
        if i < self.items.len() {
            Some(&self.items[i])
        } else {
            None
        }
    }

    /// Stores `entry` under its key: in the place of the entry that had the
    /// key, or at the end where the key is new.
    pub fn upsert(&mut self, entry: T)
        ensures
            final(self)@ == upsert(old(self)@, entry@),
            keys_distinct(final(self)@),
    {
        proof {
            use_type_invariant(&*self);
            lemma_upsert(self@, entry@);
        }
        let place = self.find(entry.key_text());
        let mut items: Vec<T> = Vec::new();
        core::mem::swap(&mut self.items, &mut items);
        match place {
            Some(i) => {
                items.set(i, entry);
            },
            None => {
                items.push(entry);
            },
        }
        assert(views(items@) =~= upsert(old(self)@, entry@));
        self.items = items;
    }

    /// Takes out the entry at place `i`, if the table is that long.
    pub fn remove_at(&mut self, i: usize) -> (taken: Option<T>)
        ensures
            taken is Some <==> i < old(self)@.len(),
            taken is Some ==> taken.unwrap()@ == old(self)@[i as int] && final(self)@ == old(
                self,
            )@.remove(i as int),
            taken is None ==> final(self)@ == old(self)@,
            keys_distinct(final(self)@),
    {
        proof {
            use_type_invariant(&*self);
        }
        if i < self.items.len() {
            proof {
                lemma_remove(self@, i as int);
            }
            let mut items: Vec<T> = Vec::new();
            core::mem::swap(&mut self.items, &mut items);
            let entry = items.remove(i);
            assert(views(items@) =~= old(self)@.remove(i as int));
            self.items = items;
            Some(entry)
        } else {
            None
        }
    }

    /// Takes out the entry under `id`, if there is one.
    pub fn remove(&mut self, id: &String) -> (taken: Option<T>)
        ensures
            taken is Some <==> has_key(old(self)@, id@),
            taken is Some ==> taken.unwrap()@ == entry_of(old(self)@, id@),
            final(self)@ == without_key(old(self)@, id@),
            keys_distinct(final(self)@),
    {
        match self.find(id) {
            Some(i) => self.remove_at(i),
            None => None,
        }
    }

    /// Takes out the entries of which `leaves` holds and hands them back, in
    /// the order in which they stood; the others stay, in their order.
    /// `take` is what `leaves` computes, and `keep` its opposite.
    pub(crate) fn extract<F: Fn(&T) -> bool>(
        &mut self,
        leaves: F,
        Ghost(take): Ghost<spec_fn(T::V) -> bool>,
        Ghost(keep): Ghost<spec_fn(T::V) -> bool>,
    ) -> (taken: Vec<T>)
        requires
            forall|t: &T| call_requires(leaves, (t,)),
            forall|t: &T, r: bool| call_ensures(leaves, (t,), r) ==> r == take(t@),
            forall|v: T::V| #[trigger] keep(v) == !take(v),
        ensures
            final(self)@ == old(self)@.filter(keep),
            views(taken@) == old(self)@.filter(take),
            keys_distinct(final(self)@),
    {
        proof {
            use_type_invariant(&*self);
        }
        let ghost before = self@;
        let mut items: Vec<T> = Vec::new();
        core::mem::swap(&mut self.items, &mut items);
        let mut taken: Vec<T> = Vec::new();
        let mut i: usize = 0;
        let ghost mut k: int = 0;
        proof {
            reveal(Seq::filter);
        }
        while i < items.len()
            invariant
                0 <= k <= before.len(),
                i == before.take(k).filter(keep).len(),
                views(items@) == before.take(k).filter(keep) + before.skip(k),
                views(taken@) == before.take(k).filter(take),
                keys_distinct(views(items@)),
                forall|t: &T| call_requires(leaves, (t,)),
                forall|t: &T, r: bool| call_ensures(leaves, (t,), r) ==> r == take(t@),
                forall|v: T::V| #[trigger] keep(v) == !take(v),
            decreases before.len() - k,
        {
            proof {
                lemma_filter_step(before, keep, k);
                lemma_filter_step(before, take, k);
                assert(views(items@)[i as int] == before.skip(k)[0]);
            }
            if leaves(&items[i]) {
                proof {
                    lemma_remove(views(items@), i as int);
                }
                let ghost prior = views(items@);
                let entry = items.remove(i);
                taken.push(entry);
                proof {
                    assert(views(items@) =~= prior.remove(i as int));
                    k = k + 1;
                }
            } else {
                proof {
                    k = k + 1;
                }
                i = i + 1;
            }
        }
        proof {
            assert(before.take(k) =~= before);
        }
        self.items = items;
        taken
    }
}

impl<T: Entry + Replicable> Table<T> where <T as View>::V: Keyed {
    /// A copy of the table.
    pub fn duplicate(&self) -> (copy: Self)
        ensures
            copy@ == self@,
    {
        proof {
            use_type_invariant(self);
        }
        let mut items: Vec<T> = Vec::new();
        let mut i: usize = 0;
        while i < self.items.len()
            invariant
                i <= self.items@.len(),
                items@.len() == i,
                forall|j: int| 0 <= j < i ==> (#[trigger] items@[j])@ == self.items@[j]@,
            decreases self.items@.len() - i,
        {
            items.push(self.items[i].duplicate());
            i = i + 1;
        }
        assert(views(items@) =~= self@);
        Table { items }
    }
}

} // verus!
