use vstd::prelude::*;

use crate::errors::InvalidThreadAccess;

verus! {

/// Access to a wrapped value is granted exactly when the calling thread is
/// the home thread, the thread that wrapped the value.
pub open spec fn may_access(home: usize, current: usize) -> bool {
    home == current
}

/// What borrowing a value wrapped on thread `home` gives thread `current`:
/// the value, or `InvalidThreadAccess`.
pub open spec fn access_outcome<T>(home: usize, value: T, current: usize) -> Result<T, InvalidThreadAccess> {
    if may_access(home, current) {
        Ok(value)
    } else {
        Err(InvalidThreadAccess)
    }
}

/// What unwrapping a value wrapped on thread `home` gives thread `current`:
/// the value, or else the wrapper back, as its home and its value.
pub open spec fn unwrap_outcome<T>(home: usize, value: T, current: usize) -> Result<T, (usize, T)> {
    if may_access(home, current) {
        Ok(value)
    } else {
        Err((home, value))
    }
}

/// The thread check of the borrowing accessors of both wrappers.
pub fn check_access(home: usize, current: usize) -> (r: Result<(), InvalidThreadAccess>)
    ensures
        r is Ok <==> may_access(home, current),
{
    if home == current {
        Ok(())
    } else {
        Err(InvalidThreadAccess)
    }
}

/// What dropping a `Fragile` does with its payload.
#[derive(Debug, Clone, Copy, PartialEq, Eq, Structural)]
pub enum FragileDrop {
    /// The payload needs no cleanup: nothing thread-bound has to run.
    Nothing,
    /// The payload is destroyed now, on its home thread.
    Cleanup,
    /// The payload needs cleanup but the dropping thread is not its home:
    /// a thread-affinity violation. The cleanup must not run here.
    WrongThread,
}

/// What dropping a `Sticky` does with its payload.
#[derive(Debug, Clone, Copy, PartialEq, Eq, Structural)]
pub enum StickyDrop {
    /// The payload needs no cleanup: the entry is left to the registry.
    Nothing,
    /// The entry is removed from the home registry and destroyed now.
    Cleanup,
    /// The payload needs cleanup but the dropping thread is not its home:
    /// its entry stays in the home registry, to be destroyed there when the
    /// home thread reclaims it or tears the registry down.
    DeferredLeakOnForeignDrop,
}

pub open spec fn fragile_drop_spec(needs_cleanup: bool, home: usize, current: usize) -> FragileDrop {
    if !needs_cleanup {
        FragileDrop::Nothing
    } else if may_access(home, current) {
        FragileDrop::Cleanup
    } else {
        FragileDrop::WrongThread
    }
}

pub open spec fn sticky_drop_spec(needs_cleanup: bool, home: usize, current: usize) -> StickyDrop {
    if !needs_cleanup {
        StickyDrop::Nothing
    } else if may_access(home, current) {
        StickyDrop::Cleanup
    } else {
        StickyDrop::DeferredLeakOnForeignDrop
    }
}

/// Decides the fate of a `Fragile`'s payload when the wrapper is dropped by
/// thread `current`.
pub fn fragile_drop_action(needs_cleanup: bool, home: usize, current: usize) -> (r: FragileDrop)
    ensures
        r == fragile_drop_spec(needs_cleanup, home, current),
    no_unwind
{
    if !needs_cleanup {
        FragileDrop::Nothing
    } else if home == current {
        FragileDrop::Cleanup
    } else {
        FragileDrop::WrongThread
    }
}

/// Decides the fate of a `Sticky`'s payload when the wrapper is dropped by
/// thread `current`.
pub fn sticky_drop_action(needs_cleanup: bool, home: usize, current: usize) -> (r: StickyDrop)
    ensures
        r == sticky_drop_spec(needs_cleanup, home, current),
    no_unwind
{
    if !needs_cleanup {
        StickyDrop::Nothing
    } else if home == current {
        StickyDrop::Cleanup
    } else {
        StickyDrop::DeferredLeakOnForeignDrop
    }
}

} // verus!
