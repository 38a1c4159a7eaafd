//! Plain values reported by and handed to the GPU context's resource
//! cache.

use vstd::prelude::*;

verus! {

/// The limits a resource cache is configured with.
#[derive(Clone, Copy, PartialEq, Eq, Structural, Debug)]
pub struct ResourceCacheLimits {
    /// The maximum number of resources held.
    pub max_resources: usize,
    /// The maximum number of bytes held.
    pub max_resource_bytes: usize,
}

/// What a resource cache currently holds.
#[derive(Clone, Copy, PartialEq, Eq, Structural, Debug)]
pub struct ResourceCacheUsage {
    /// The number of resources held.
    pub resource_count: usize,
    /// The number of bytes held.
    pub resource_bytes: usize,
}

} // verus!
