//! The values that a profile stores.
use vstd::prelude::*;

verus! {

/// The secret of a credentials profile.
#[derive(Debug, Clone)]
pub struct Credentials {
    pub token: String,
}

/// The settings of a configuration profile.
#[derive(Debug, Clone)]
pub struct Config {
    /// The default cache.
    pub cache: String,
    /// The default time to live of an item, in seconds.
    pub ttl: u64,
}

} // verus!
