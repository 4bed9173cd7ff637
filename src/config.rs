use vstd::prelude::*;

verus! {

/// The default limit in bytes used when reading a request payload: 256 KiB.
pub const DEFAULT_LIMIT_BYTES: usize = 262_144;

/// Limits for the extractor, looked up per route.
///
/// `limit` is the largest payload, in bytes, that is accepted; `buf_size` is the
/// capacity reserved up front for the body, which avoids reallocation while it
/// is read.
#[derive(Clone, Copy, Debug)]
pub struct BincodeConfig {
    /// The maximum size in bytes of a request payload that can be decoded.
    pub limit: usize,
    /// The buffer size that is allocated for a single payload.
    pub buf_size: usize,
}

/// The limit that holds on a route: that of the registered config, or the default.
pub open spec fn limit_in_force(registered: Option<BincodeConfig>) -> usize {
    match registered {
        Some(c) => c.limit,
        None => DEFAULT_LIMIT_BYTES,
    }
}

impl BincodeConfig {
    /// A config with the given limit, which also serves as the buffer size.
    pub fn new(limit: usize) -> (r: Self)
        ensures
            r.limit == limit,
            r.buf_size == limit,
    {
        BincodeConfig { limit, buf_size: limit }
    }

    /// The config in force on a route: the one registered there, or the default.
    pub fn resolve(registered: Option<BincodeConfig>) -> (r: Self)
        ensures
            r.limit == limit_in_force(registered),
            registered matches Some(c) ==> r == c,
            registered is None ==> r.limit == DEFAULT_LIMIT_BYTES && r.buf_size
                == DEFAULT_LIMIT_BYTES,
    {
        match registered {
            Some(c) => c,
            None => BincodeConfig::default(),
        }
    }
}

impl Default for BincodeConfig {
    /// A config with a limit of 256 KiB.
    fn default() -> (r: Self)
        ensures
            r.limit == DEFAULT_LIMIT_BYTES,
            r.buf_size == DEFAULT_LIMIT_BYTES,
    {
        BincodeConfig { limit: DEFAULT_LIMIT_BYTES, buf_size: DEFAULT_LIMIT_BYTES }
    }
}

} // verus!
