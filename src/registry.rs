use vstd::prelude::*;

use std::collections::HashMap;

verus! {

broadcast use vstd::std_specs::hash::group_hash_axioms;

/// One slot of a registry: an owned, heap-boxed payload. Destroying the
/// entry destroys the payload, and an entry is destroyed at most once.
pub struct Entry<T> {
    value: Box<T>,
}

impl<T> Entry<T> {
    /// The payload.
    pub closed spec fn view(&self) -> T {
        *self.value
    }

    /// Boxes `value` into a new entry.
    pub fn new(value: T) -> (r: Self)
        ensures
            r@ == value,
    {
        Entry { value: Box::new(value) }
    }

    /// Borrows the payload.
    pub fn value(&self) -> (r: &T)
        ensures
            *r == self@,
    {
        &*self.value
    }

    /// Mutably borrows the payload.
    pub fn value_mut(&mut self) -> (r: &mut T)
        ensures
            *r == old(self)@,
            final(self)@ == *final(r),
    {
        &mut *self.value
    }

    /// Takes the payload out, so that it is not destroyed with the entry.
    pub fn into_value(self) -> (r: T)
        ensures
            r == self@,
    {
        *self.value
    }
}

/// `after` is `before` with `entry` stored under `key`, a key that `before`
/// did not use: no stored entry is overwritten.
pub open spec fn inserted<T>(
    before: Map<usize, Entry<T>>,
    after: Map<usize, Entry<T>>,
    key: usize,
    entry: Entry<T>,
) -> bool {
    !before.contains_key(key) && after == before.insert(key, entry)
}

/// A table of entries under keys that the table hands out itself.
///
/// A key is never handed out twice by one registry: keys come from a
/// counter that only grows. Dropping the registry destroys every entry
/// still in it, each exactly once. A registry belongs to one thread, which
/// keeps it; the table itself makes no thread check.
pub struct Registry<T> {
    entries: HashMap<usize, Entry<T>>,
    next_key: usize,
}

impl<T> Registry<T> {
    /// Every stored key was handed out by the counter: it lies below it.
    pub closed spec fn wf(&self) -> bool {
        forall|k: usize| #[trigger] self.entries@.contains_key(k) ==> k < self.next_key
    }

    /// The entries, by key.
    pub closed spec fn view(&self) -> Map<usize, Entry<T>> {
        self.entries@
    }

    /// Whether every key has been handed out, so that no entry can be added.
    pub closed spec fn exhausted(&self) -> bool {
        self.next_key == usize::MAX
    }

    /// An empty registry.
    pub fn new() -> (r: Self)
        ensures
            r.wf(),
            r@ == Map::<usize, Entry<T>>::empty(),
            !r.exhausted(),
    {
        Registry { entries: HashMap::new(), next_key: 0 }
    }

    /// Stores `entry` under a key that is not in use, and returns the key.
    /// Hands the entry back when every key has been handed out.
    pub fn insert(&mut self, entry: Entry<T>) -> (r: Result<usize, Entry<T>>)
        requires
            old(self).wf(),
        ensures
            final(self).wf(),
            r is Err <==> old(self).exhausted(),
            r matches Ok(key) ==> inserted(old(self)@, final(self)@, key, entry),
            r matches Err(e) ==> e == entry && final(self)@ == old(self)@
                && final(self).exhausted(),
    {
        if self.next_key == usize::MAX {
            return Err(entry);
        }
        let key = self.next_key;
        self.next_key = key + 1;
        self.entries.insert(key, entry);
        Ok(key)
    }

    /// Whether an entry is stored under `key`.
    pub fn contains(&self, key: usize) -> (r: bool)
        ensures
            r == self@.contains_key(key),
    {
        self.entries.contains_key(&key)
    }

    /// The number of entries stored.
    pub fn len(&self) -> (r: usize)
        ensures
            r == self@.len(),
    {
        self.entries.len()
    }

    /// Borrows the entry stored under `key`, which must be present.
    pub fn get(&self, key: usize) -> (r: &Entry<T>)
        requires
            self@.contains_key(key),
        ensures
            *r == self@[key],
    {
        self.entries.get(&key).unwrap()
    }

    /// Mutably borrows the entry stored under `key`, which must be present.
    pub fn get_mut(&mut self, key: usize) -> (r: &mut Entry<T>)
        requires
            old(self).wf(),
            old(self)@.contains_key(key),
        ensures
            *r == old(self)@[key],
            final(self)@ == old(self)@.insert(key, *final(r)),
            final(self).wf(),
            final(self).exhausted() == old(self).exhausted(),
    {
        match self.entries.entry(key) {
            std::collections::hash_map::Entry::Occupied(o) => o.into_mut(),
            std::collections::hash_map::Entry::Vacant(_) => unreached(),
        }
    }

    /// Calls `f` on the entry stored under `key`, which must be present.
    pub fn with<R, F: FnOnce(&Entry<T>) -> R>(&self, key: usize, f: F) -> (r: R)
        requires
            self@.contains_key(key),
            f.requires((&self@[key],)),
        ensures
            f.ensures((&self@[key],), r),
    {
        f(self.get(key))
    }

    /// Removes and returns the entry stored under `key`, if there is one.
    pub fn try_remove(&mut self, key: usize) -> (r: Option<Entry<T>>)
        requires
            old(self).wf(),
        ensures
            final(self).wf(),
            r is Some <==> old(self)@.contains_key(key),
            r matches Some(e) ==> e == old(self)@[key],
            final(self)@ == old(self)@.remove(key),
            final(self).exhausted() == old(self).exhausted(),
    {
        self.entries.remove(&key)
    }

    /// Destroys every entry still stored, each exactly once, and returns how
    /// many there were. Keys already handed out are not handed out again.
    pub fn teardown(&mut self) -> (destroyed: usize)
        requires
            old(self).wf(),
        ensures
            final(self).wf(),
            destroyed == old(self)@.len(),
            final(self)@ == Map::<usize, Entry<T>>::empty(),
            final(self).exhausted() == old(self).exhausted(),
    {
        let destroyed = self.entries.len();
        self.entries.clear();
        destroyed
    }
}

} // verus!
