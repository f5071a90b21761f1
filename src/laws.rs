use vstd::prelude::*;

use crate::errors::InvalidThreadAccess;
use crate::registry::{inserted, Entry, Registry};
use crate::policy::{
    access_outcome, fragile_drop_spec, may_access, sticky_drop_spec, unwrap_outcome, FragileDrop,
    StickyDrop,
};

verus! {

/// Same-thread transparency: asked from its home thread, a wrapper lends
/// and hands out exactly the value it was given.
pub proof fn lemma_same_thread_transparency<T>(value: T, home: usize)
    ensures
        may_access(home, home),
        access_outcome(home, value, home) == Ok::<T, InvalidThreadAccess>(value),
        unwrap_outcome(home, value, home) == Ok::<T, (usize, T)>(value),
{
}

/// Cross-thread denial: asked from any other thread, every borrowing fails
/// with `InvalidThreadAccess`.
pub proof fn lemma_cross_thread_denial<T>(value: T, home: usize, current: usize)
    requires
        home != current,
    ensures
        !may_access(home, current),
        access_outcome(home, value, current) == Err::<T, InvalidThreadAccess>(InvalidThreadAccess),
{
}

/// Round trip: unwrapping on the home thread gives back the wrapped value;
/// on another thread it hands back a wrapper with the same home and value,
/// which the home thread can then unwrap to that value.
pub proof fn lemma_round_trip<T>(value: T, home: usize, current: usize)
    ensures
        unwrap_outcome(home, value, home) == Ok::<T, (usize, T)>(value),
        home != current ==> unwrap_outcome(home, value, current) == Err::<T, (usize, T)>((home, value)),
        home != current ==> unwrap_outcome(
            unwrap_outcome(home, value, current)->Err_0.0,
            unwrap_outcome(home, value, current)->Err_0.1,
            home,
        ) == Ok::<T, (usize, T)>(value),
{
}

/// Dropping a wrapper whose payload needs cleanup runs that cleanup on the
/// home thread only. On any other thread a `Fragile` reports a
/// thread-affinity violation and a `Sticky` leaves the entry in the home
/// registry; neither destroys the payload there. A payload that needs no cleanup is never a
/// concern.
pub proof fn lemma_drop_policies(home: usize, current: usize)
    ensures
        fragile_drop_spec(true, home, home) == FragileDrop::Cleanup,
        sticky_drop_spec(true, home, home) == StickyDrop::Cleanup,
        home != current ==> fragile_drop_spec(true, home, current) == FragileDrop::WrongThread,
        home != current ==> sticky_drop_spec(true, home, current)
            == StickyDrop::DeferredLeakOnForeignDrop,
        fragile_drop_spec(false, home, current) == FragileDrop::Nothing,
        sticky_drop_spec(false, home, current) == StickyDrop::Nothing,
{
}

/// Deferred cleanup: a `Sticky` dropped on a foreign thread leaves its entry,
/// unchanged, in the home registry, where the home thread can still reclaim
/// it and where a teardown destroys it.
pub proof fn lemma_deferred_cleanup<T>(
    before: Registry<T>,
    after: Registry<T>,
    key: usize,
    home: usize,
    current: usize,
)
    requires
        home != current,
        before@.contains_key(key),
        sticky_drop_spec(true, home, current) != StickyDrop::Cleanup ==> after@ == before@,
    ensures
        sticky_drop_spec(true, home, current) == StickyDrop::DeferredLeakOnForeignDrop,
        after@.contains_key(key),
        after@[key] == before@[key],
        may_access(home, home),
{
}

/// Two entries stored one after the other in a registry get distinct keys;
/// no entry is overwritten, each is found under its own key, and removing
/// both leaves the registry as it was.
pub proof fn lemma_two_entries_distinct_keys<T>(
    r0: Registry<T>,
    r1: Registry<T>,
    r2: Registry<T>,
    k1: usize,
    e1: Entry<T>,
    k2: usize,
    e2: Entry<T>,
)
    requires
        inserted(r0@, r1@, k1, e1),
        inserted(r1@, r2@, k2, e2),
    ensures
        k1 != k2,
        r2@[k1] == e1,
        r2@[k2] == e2,
        r2@.remove(k1).remove(k2) == r0@,
{
    assert(r2@.remove(k1).remove(k2) =~= r0@);
}

} // verus!
