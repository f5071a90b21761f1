use vstd::prelude::*;

use crate::errors::InvalidThreadAccess;
use crate::runtime::{forget_value, get_thread_id, needs_cleanup};
use crate::policy::{
    access_outcome, check_access, fragile_drop_action, fragile_drop_spec, may_access,
    unwrap_outcome, FragileDrop,
};

verus! {

/// A `Fragile<T>` holds a value that belongs to the thread that wrapped it.
///
/// The wrapper itself may travel to other threads, but only the home thread
/// can reach the value. Dropping a wrapper whose value needs cleanup on
/// another thread is a thread-affinity violation. Such a drop should fail
/// fatally; verified code here cannot abort, so instead the cleanup is
/// withheld and the value leaked silently, never destroyed off its thread.
///
/// The wrapper is `Send` exactly when `T` is: it asserts nothing of its own.
pub struct Fragile<T> {
    value: Option<Box<T>>,
    thread_id: usize,
}

impl<T> Fragile<T> {
    /// The wrapper still holds its value: it has been neither unwrapped nor
    /// released.
    pub closed spec fn wf(&self) -> bool {
        self.value is Some
    }

    /// The wrapped value.
    pub closed spec fn view(&self) -> T {
        *self.value->Some_0
    }

    /// The identity of the thread that wrapped the value.
    pub closed spec fn home(&self) -> usize {
        self.thread_id
    }

    /// Wraps `value`, anchoring it to the thread `home`.
    fn new_on(value: T, home: usize) -> (r: Self)
        ensures
            r.wf(),
            r@ == value,
            r.home() == home,
    {
        Fragile { value: Some(Box::new(value)), thread_id: home }
    }

    /// Wraps `value`, anchoring it to the calling thread.
    pub fn new(value: T) -> (r: Self)
        ensures
            r.wf(),
            r@ == value,
    {
        Fragile::new_on(value, get_thread_id())
    }

    /// The identity of the home thread. Any thread may read it.
    pub fn home_thread(&self) -> (r: usize)
        ensures
            r == self.home(),
    {
        self.thread_id
    }

    /// Whether thread `current` may reach the value. Here and below, a
    /// `current` argument is the identity of the asking thread; the methods
    /// without the `_on` suffix ask with the identity of the calling thread.
    pub fn is_same_thread_on(&self, current: usize) -> (r: bool)
        ensures
            r == may_access(self.home(), current),
    {
        self.thread_id == current
    }

    /// Whether the calling thread may reach the value.
    pub fn is_valid(&self) -> bool {
        self.is_same_thread_on(get_thread_id())
    }

    /// Borrows the value on behalf of thread `current`.
    pub fn try_get_on(&self, current: usize) -> (r: Result<&T, InvalidThreadAccess>)
        requires
            self.wf(),
        ensures
            match r {
                Ok(v) => access_outcome(self.home(), self@, current) == Ok::<T, InvalidThreadAccess>(*v),
                Err(e) => access_outcome(self.home(), self@, current) == Err::<T, InvalidThreadAccess>(e),
            },
    {
        match check_access(self.thread_id, current) {
            Ok(()) => {
                match &self.value {
                    Some(b) => Ok(&**b),
                    None => Err(InvalidThreadAccess),
                }
            },
            Err(e) => Err(e),
        }
    }

    /// Borrows the value, or fails with `InvalidThreadAccess` when the
    /// calling thread is not the home thread.
    pub fn try_get(&self) -> (r: Result<&T, InvalidThreadAccess>)
        requires
            self.wf(),
        ensures
            r matches Ok(v) ==> *v == self@,
    {
        self.try_get_on(get_thread_id())
    }

    /// Mutably borrows the value on behalf of thread `current`.
    pub fn try_get_mut_on(&mut self, current: usize) -> (r: Result<&mut T, InvalidThreadAccess>)
        requires
            old(self).wf(),
        ensures
            r is Ok <==> may_access(old(self).home(), current),
            final(self).home() == old(self).home(),
            final(self).wf(),
            r matches Ok(v) ==> *v == old(self)@ && final(self)@ == *final(v),
            r is Err ==> final(self)@ == old(self)@,
    {
        match check_access(self.thread_id, current) {
            Ok(()) => {
                match &mut self.value {
                    Some(b) => Ok(&mut **b),
                    None => Err(InvalidThreadAccess),
                }
            },
            Err(e) => Err(e),
        }
    }

    /// Mutably borrows the value, or fails with `InvalidThreadAccess` when
    /// the calling thread is not the home thread.
    pub fn try_get_mut(&mut self) -> (r: Result<&mut T, InvalidThreadAccess>)
        requires
            old(self).wf(),
        ensures
            final(self).home() == old(self).home(),
            final(self).wf(),
            r matches Ok(v) ==> *v == old(self)@ && final(self)@ == *final(v),
            r is Err ==> final(self)@ == old(self)@,
    {
        self.try_get_mut_on(get_thread_id())
    }

    /// Unwraps the value on behalf of thread `current`, or hands the wrapper
    /// back unchanged.
    pub fn try_into_inner_on(self, current: usize) -> (r: Result<T, Self>)
        requires
            self.wf(),
        ensures
            match r {
                Ok(v) => unwrap_outcome(self.home(), self@, current) == Ok::<T, (usize, T)>(v),
                Err(w) => w.wf() && unwrap_outcome(self.home(), self@, current) == Err::<T, (usize, T)>((w.home(), w@)),
            },
    {
        if self.thread_id == current {
            let mut wrapper = self;
            let mut payload: Option<Box<T>> = None;
            std::mem::swap(&mut payload, &mut wrapper.value);
            match payload {
                Some(b) => Ok(*b),
                None => Err(wrapper),
            }
        } else {
            Err(self)
        }
    }

    /// Unwraps the value when called on the home thread; otherwise hands the
    /// wrapper back unchanged, so that the home thread can still use it.
    pub fn try_into_inner(self) -> (r: Result<T, Self>)
        requires
            self.wf(),
        ensures
            r matches Ok(v) ==> v == self@,
            r matches Err(w) ==> w.wf() && w@ == self@ && w.home() == self.home(),
    {
        self.try_into_inner_on(get_thread_id())
    }
}

impl<T> Fragile<T> {
    /// Gives up the payload as if the wrapper were dropped by thread
    /// `current`, where `needs_cleanup` tells whether dropping a `T` runs
    /// code. Returns what was decided, and the payload when it is withheld:
    /// exactly when it needs cleanup and `current` is a foreign thread. In
    /// every other case the payload is destroyed here.
    pub fn release_on(&mut self, needs_cleanup: bool, current: usize) -> (r: (FragileDrop, Option<Box<T>>))
        ensures
            r.0 == fragile_drop_spec(needs_cleanup, old(self).home(), current),
            r.1 is Some <==> old(self).wf() && r.0 == FragileDrop::WrongThread,
            r.1 matches Some(b) ==> *b == old(self)@,
            final(self).home() == old(self).home(),
            !final(self).wf(),
        no_unwind
    {
        let action = fragile_drop_action(needs_cleanup, self.thread_id, current);
        let mut payload: Option<Box<T>> = None;
        std::mem::swap(&mut payload, &mut self.value);
        match action {
            FragileDrop::WrongThread => (action, payload),
            _ => (action, None),
        }
    }

    /// The drop of this wrapper on the calling thread: a withheld payload is
    /// leaked, never destroyed off its thread.
    fn release_now(&mut self)
        no_unwind
    {
        let (_, withheld) = self.release_on(needs_cleanup::<T>(), get_thread_id());
        forget_value(withheld);
    }
}

impl<T> Drop for Fragile<T> {
    /// Runs `release_now`, where the decision is made and verified.
    #[verifier::external_body]
    fn drop(&mut self)
        opens_invariants none
        no_unwind
    {
        self.release_now();
    }
}

impl<T> From<T> for Fragile<T> {
    /// Wraps `t` on the calling thread, as `Fragile::new` does.
    fn from(t: T) -> Self {
        Fragile::new(t)
    }
}

impl<T> vstd::std_specs::convert::FromSpecImpl<T> for Fragile<T> {
    /// The home thread of the result is the calling thread, which no spec
    /// function of `t` can name.
    open spec fn obeys_from_spec() -> bool {
        false
    }

    open spec fn from_spec(t: T) -> Self {
        arbitrary()
    }
}

impl<T: Default> Default for Fragile<T> {
    /// Wraps `T::default()` on the calling thread.
    fn default() -> (r: Self)
        ensures
            r.wf(),
            call_ensures(T::default, (), r@),
    {
        Fragile::new(T::default())
    }
}

} // verus!
