use vstd::prelude::*;

pub mod child;
pub mod freshness;
pub mod signal;
pub mod store;
pub mod supervisor;

verus! {

/// Performs the per-process network-stack setup needed before running or
/// spawning the application; hosts without such global state need nothing.
pub fn global_init() {
}

/// Releases the per-process network-stack state taken by `global_init`, so
/// that a spawned process starts clean; hosts without such state need nothing.
pub fn global_cleanup() {
}

} // verus!
