use vstd::prelude::*;

use std::marker::PhantomData;

use crate::errors::InvalidThreadAccess;
use crate::policy::{
    access_outcome, check_access, may_access, sticky_drop_action, sticky_drop_spec, StickyDrop,
};
use crate::registry::{inserted, Entry, Registry};
use crate::runtime::{get_thread_id, needs_cleanup};

verus! {

/// A `Sticky<T>` keeps a value in the registry of the thread that wrapped
/// it, and carries only the value's key and that thread's identity.
///
/// Only the home thread, with its own registry, can reach the value. The
/// wrapper is `Send` exactly when `T` is: it asserts nothing of its own.
/// Dropping the wrapper elsewhere leaves the entry in the home registry,
/// which destroys it when the home thread reclaims it or tears the registry
/// down.
pub struct Sticky<T> {
    item_id: usize,
    thread_id: usize,
    _marker: PhantomData<T>,
}

/// The earlier name of `Sticky`.
pub type SemiSticky<T> = Sticky<T>;

impl<T> Sticky<T> {
    /// The key of the value in the home registry.
    pub closed spec fn key(&self) -> usize {
        self.item_id
    }

    /// The identity of the thread that wrapped the value.
    pub closed spec fn home(&self) -> usize {
        self.thread_id
    }

    /// Stores `value` in `registry`, the registry of thread `home`, and
    /// returns a wrapper for it; hands `value` back when the registry has
    /// no key left to give.
    pub fn new_in(value: T, registry: &mut Registry<T>, home: usize) -> (r: Result<Self, T>)
        requires
            old(registry).wf(),
        ensures
            final(registry).wf(),
            r is Err <==> old(registry).exhausted(),
            r matches Ok(s) ==> s.home() == home && final(registry)@[s.key()]@ == value
                && inserted(old(registry)@, final(registry)@, s.key(), final(registry)@[s.key()]),
            r matches Err(v) ==> v == value && final(registry)@ == old(registry)@,
    {
        match registry.insert(Entry::new(value)) {
            Ok(key) => Ok(Sticky { item_id: key, thread_id: home, _marker: PhantomData }),
            Err(entry) => Err(entry.into_value()),
        }
    }

    /// Stores `value` in `registry`, which must be the calling thread's own,
    /// and returns a wrapper anchored to the calling thread.
    pub fn new(value: T, registry: &mut Registry<T>) -> (r: Result<Self, T>)
        requires
            old(registry).wf(),
        ensures
            final(registry).wf(),
            r is Err <==> old(registry).exhausted(),
            r matches Ok(s) ==> final(registry)@[s.key()]@ == value
                && inserted(old(registry)@, final(registry)@, s.key(), final(registry)@[s.key()]),
            r matches Err(v) ==> v == value && final(registry)@ == old(registry)@,
    {
        Sticky::new_in(value, registry, get_thread_id())
    }

    /// The key of the value in the home registry. Any thread may read it.
    pub fn item_id(&self) -> (r: usize)
        ensures
            r == self.key(),
    {
        self.item_id
    }

    /// The identity of the home thread. Any thread may read it.
    pub fn home_thread(&self) -> (r: usize)
        ensures
            r == self.home(),
    {
        self.thread_id
    }

    /// Whether thread `current` may reach the value. Here and below, a
    /// `current` argument is the identity of the asking thread, and
    /// `registry` is that thread's registry; the methods without the `_in`
    /// or `_on` suffix ask with the identity of the calling thread.
    pub fn is_same_thread_on(&self, current: usize) -> (r: bool)
        ensures
            r == may_access(self.home(), current),
    {
        self.thread_id == current
    }

    /// Whether the calling thread may reach the value.
    pub fn is_valid(&self) -> bool {
        self.is_same_thread_on(get_thread_id())
    }

    /// Borrows the value on behalf of thread `current`. Fails with
    /// `InvalidThreadAccess` on a foreign thread, and when `registry` holds
    /// no entry under the key.
    pub fn try_get_in<'a>(&self, registry: &'a Registry<T>, current: usize) -> (r: Result<&'a T, InvalidThreadAccess>)
        ensures
            r is Ok <==> may_access(self.home(), current) && registry@.contains_key(self.key()),
            r matches Ok(v) ==> access_outcome(self.home(), registry@[self.key()]@, current)
                == Ok::<T, InvalidThreadAccess>(*v),
    {
        match check_access(self.thread_id, current) {
            Ok(()) => {
                if registry.contains(self.item_id) {
                    Ok(registry.get(self.item_id).value())
                } else {
                    Err(InvalidThreadAccess)
                }
            },
            Err(e) => Err(e),
        }
    }

    /// Borrows the value from the calling thread's `registry`.
    pub fn try_get<'a>(&self, registry: &'a Registry<T>) -> (r: Result<&'a T, InvalidThreadAccess>)
        ensures
            r is Ok ==> registry@.contains_key(self.key()),
            r matches Ok(v) ==> *v == registry@[self.key()]@,
    {
        self.try_get_in(registry, get_thread_id())
    }

    /// Mutably borrows the value on behalf of thread `current`. Fails as
    /// `try_get_in` does, and then leaves `registry` unchanged.
    pub fn try_get_mut_in<'a>(&self, registry: &'a mut Registry<T>, current: usize) -> (r: Result<&'a mut T, InvalidThreadAccess>)
        requires
            old(registry).wf(),
        ensures
            final(registry).wf(),
            final(registry).exhausted() == old(registry).exhausted(),
            r is Ok <==> may_access(self.home(), current) && old(registry)@.contains_key(self.key()),
            r matches Ok(v) ==> *v == old(registry)@[self.key()]@
                && final(registry)@ == old(registry)@.insert(self.key(), final(registry)@[self.key()])
                && final(registry)@[self.key()]@ == *final(v),
            r is Err ==> final(registry)@ == old(registry)@,
    {
        match check_access(self.thread_id, current) {
            Ok(()) => {
                if registry.contains(self.item_id) {
                    Ok(registry.get_mut(self.item_id).value_mut())
                } else {
                    Err(InvalidThreadAccess)
                }
            },
            Err(e) => Err(e),
        }
    }

    /// Mutably borrows the value in the calling thread's `registry`.
    pub fn try_get_mut<'a>(&self, registry: &'a mut Registry<T>) -> (r: Result<&'a mut T, InvalidThreadAccess>)
        requires
            old(registry).wf(),
        ensures
            final(registry).wf(),
            r matches Ok(v) ==> *v == old(registry)@[self.key()]@
                && final(registry)@ == old(registry)@.insert(self.key(), final(registry)@[self.key()])
                && final(registry)@[self.key()]@ == *final(v),
            r is Err ==> final(registry)@ == old(registry)@,
    {
        self.try_get_mut_in(registry, get_thread_id())
    }

    /// Takes the value out of `registry` on behalf of thread `current`, or
    /// hands the wrapper back and leaves `registry` unchanged.
    pub fn try_into_inner_in(self, registry: &mut Registry<T>, current: usize) -> (r: Result<T, Self>)
        requires
            old(registry).wf(),
        ensures
            final(registry).wf(),
            final(registry).exhausted() == old(registry).exhausted(),
            r is Ok <==> may_access(self.home(), current) && old(registry)@.contains_key(self.key()),
            r matches Ok(v) ==> v == old(registry)@[self.key()]@
                && final(registry)@ == old(registry)@.remove(self.key()),
            r matches Err(w) ==> w == self && final(registry)@ == old(registry)@,
    {
        if self.thread_id == current {
            match registry.try_remove(self.item_id) {
                Some(entry) => Ok(entry.into_value()),
                None => Err(self),
            }
        } else {
            Err(self)
        }
    }

    /// Takes the value out of the calling thread's `registry`, or hands the
    /// wrapper back so that the home thread can still use it.
    pub fn try_into_inner(self, registry: &mut Registry<T>) -> (r: Result<T, Self>)
        requires
            old(registry).wf(),
        ensures
            final(registry).wf(),
            r matches Ok(v) ==> v == old(registry)@[self.key()]@
                && final(registry)@ == old(registry)@.remove(self.key()),
            r matches Err(w) ==> w == self && final(registry)@ == old(registry)@,
    {
        self.try_into_inner_in(registry, get_thread_id())
    }

    /// Disposes of the value as the wrapper is dropped by thread `current`,
    /// where `needs_cleanup` tells whether dropping a `T` runs code. On the
    /// home thread the entry is removed and destroyed now; on a foreign
    /// thread, or when there is nothing to clean up, `registry` is left as
    /// it is, so that the entry waits for the home thread. Returns what was
    /// decided.
    pub fn release_in(&self, registry: &mut Registry<T>, needs_cleanup: bool, current: usize) -> (r: StickyDrop)
        requires
            old(registry).wf(),
        ensures
            final(registry).wf(),
            final(registry).exhausted() == old(registry).exhausted(),
            r == sticky_drop_spec(needs_cleanup, self.home(), current),
            r == StickyDrop::Cleanup ==> final(registry)@ == old(registry)@.remove(self.key()),
            r != StickyDrop::Cleanup ==> final(registry)@ == old(registry)@,
    {
        let action = sticky_drop_action(needs_cleanup, self.thread_id, current);
        match action {
            StickyDrop::Cleanup => {
                let _destroyed = registry.try_remove(self.item_id);
            },
            _ => {},
        }
        action
    }

    /// Drops the wrapper on the calling thread, whose `registry` this is:
    /// `release_in` with what this thread and `T` are.
    pub fn release(self, registry: &mut Registry<T>) -> (r: StickyDrop)
        requires
            old(registry).wf(),
        ensures
            final(registry).wf(),
            r == StickyDrop::Cleanup ==> final(registry)@ == old(registry)@.remove(self.key()),
            r != StickyDrop::Cleanup ==> final(registry)@ == old(registry)@,
    {
        self.release_in(registry, needs_cleanup::<T>(), get_thread_id())
    }
}

} // verus!
