use vstd::prelude::*;

pub mod address;
pub mod auth;
pub mod registry;

verus! {

/// The number of workers that serve the admin endpoint. A single worker keeps
/// requests from running in parallel; they may still interleave while one
/// waits on storage.
pub const ADMIN_WORKERS: usize = 1;

} // verus!
