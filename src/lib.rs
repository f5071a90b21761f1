//! Wrappers that let a value which must stay on one thread be moved across
//! threads, while only the thread that wrapped it may read, change or destroy
//! it. Every access compares the identity of the calling thread with the
//! identity recorded when the value was wrapped.

mod errors;
mod fragile;
mod laws;
mod policy;
mod registry;
mod runtime;
mod sticky;

pub use errors::InvalidThreadAccess;
pub use fragile::Fragile;
pub use registry::{inserted, Entry, Registry};
pub use sticky::{SemiSticky, Sticky};
pub use laws::{
    lemma_cross_thread_denial, lemma_deferred_cleanup, lemma_drop_policies, lemma_round_trip,
    lemma_same_thread_transparency, lemma_two_entries_distinct_keys,
};
pub use policy::{
    access_outcome, check_access, fragile_drop_action, fragile_drop_spec, may_access,
    sticky_drop_action, sticky_drop_spec, unwrap_outcome, FragileDrop, StickyDrop,
};
