//! Cached configuration blobs stamped with a schema version and a creation time.
use vstd::prelude::*;

use crate::clock::unix_time_ms;
use crate::text::str_eq;

verus! {

/// Schema version of the cache format.
pub const SCHEMA_VERSION: u32 = 1;

/// `a - b`, or 0 when `b` exceeds `a`.
pub open spec fn saturating_diff(a: u64, b: u64) -> u64 {
    if a >= b {
        (a - b) as u64
    } else {
        0
    }
}

/// Seconds since the Unix epoch on the system clock.
fn unix_time_secs() -> (r: u64) {
    (unix_time_ms() / 1000) as u64
}

/// A cached configuration with its metadata.
#[derive(Debug)]
pub struct ConfigCache<T> {
    /// Schema version the blob was written with.
    pub schema_version: u32,
    /// Creation time, in seconds since the Unix epoch.
    pub cached_at: u64,
    /// Path of the source the blob was made from.
    pub source_path: String,
    /// The configuration.
    pub data: T,
}

impl<T> ConfigCache<T> {
    /// A cache entry of the current schema, created at `now_secs`.
    pub fn new_at(data: T, source_path: &str, now_secs: u64) -> (r: Self)
        ensures
            r.schema_version == SCHEMA_VERSION,
            r.cached_at == now_secs,
            r.source_path@ == source_path@,
            r.data == data,
    {
        ConfigCache { schema_version: SCHEMA_VERSION, cached_at: now_secs, source_path: source_path.to_owned(), data }
    }

    /// A cache entry of the current schema, created now.
    pub fn new(data: T, source_path: &str) -> (r: Self)
        ensures
            r.schema_version == SCHEMA_VERSION,
            r.source_path@ == source_path@,
            r.data == data,
    {
        let now = unix_time_secs();
        ConfigCache::new_at(data, source_path, now)
    }

    /// Whether the entry was written with the current schema.
    pub fn is_valid(&self) -> (r: bool)
        ensures
            r == (self.schema_version == SCHEMA_VERSION),
    {
        self.schema_version == SCHEMA_VERSION
    }

    /// Age in seconds at `now_secs` (0 when the entry claims to be newer).
    pub fn age_at(&self, now_secs: u64) -> (r: u64)
        ensures
            r == saturating_diff(now_secs, self.cached_at),
    {
        if now_secs >= self.cached_at {
            now_secs - self.cached_at
        } else {
            0
        }
    }

    /// Age in seconds on the system clock.
    pub fn age(&self) -> (r: u64)
        ensures
            exists|now: u64| r == saturating_diff(now, self.cached_at),
    {
        let now = unix_time_secs();
        self.age_at(now)
    }
}


/// Why a cached configuration is not used.
#[derive(Debug, Clone, PartialEq, Eq)]
pub enum CacheMismatch {
    /// The entry was written with another schema version.
    Schema { cached: u32, expected: u32 },
    /// The entry was made from another source file.
    Source { cached: String, actual: String },
}

/// The configuration of a cache entry read for `source_path`: refused when it
/// was written with another schema, else when it was made from another source;
/// accepted otherwise.
pub fn accept_cache<T>(cache: ConfigCache<T>, source_path: &str) -> (r: Result<T, CacheMismatch>)
    ensures
        cache.schema_version != SCHEMA_VERSION ==> r == Err::<T, CacheMismatch>(
            CacheMismatch::Schema { cached: cache.schema_version, expected: SCHEMA_VERSION },
        ),
        cache.schema_version == SCHEMA_VERSION && cache.source_path@ != source_path@ ==> (r matches Err(
            CacheMismatch::Source { cached, actual },
        ) && cached == cache.source_path && actual@ == source_path@),
        cache.schema_version == SCHEMA_VERSION && cache.source_path@ == source_path@ ==> r == Ok::<T, CacheMismatch>(
            cache.data,
        ),
{
    if !cache.is_valid() {
        return Err(CacheMismatch::Schema { cached: cache.schema_version, expected: SCHEMA_VERSION });
    }
    if !str_eq(cache.source_path.as_str(), source_path) {
        return Err(CacheMismatch::Source { cached: cache.source_path, actual: source_path.to_owned() });
    }
    Ok(cache.data)
}

} // verus!
