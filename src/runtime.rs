use vstd::prelude::*;

verus! {

/// Relies on `thread_id::get`: a number that stays the same for the calling
/// thread and differs between any two threads that are alive at the same
/// time. It is the operating system's thread id, so a thread that starts
/// after another has exited may get that thread's number again. Which number
/// a thread gets depends on the machine, so nothing is promised of a single
/// call.
#[verifier::external_body]
pub(crate) fn get_thread_id() -> usize
    no_unwind
{
    thread_id::get()
}

/// Relies on `std::mem::needs_drop`: whether dropping a `T` may run code.
/// The answer depends on the type alone and is not stated here.
#[verifier::external_body]
pub(crate) fn needs_cleanup<T>() -> bool
    no_unwind
{
    std::mem::needs_drop::<T>()
}

/// Relies on `std::mem::forget`: the value is given up without running its
/// destructor.
#[verifier::external_body]
pub(crate) fn forget_value<T>(value: T)
    no_unwind
{
    std::mem::forget(value)
}

} // verus!
