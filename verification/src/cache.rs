//! The client's cache.

use vstd::prelude::*;

verus! {

/// A cache of what the client learns from the gateway. It holds nothing yet.
#[derive(Clone, Copy, Debug, Default, PartialEq, Eq, Structural)]
pub struct CacheInstance {}

} // verus!
