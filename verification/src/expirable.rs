//! Types that can have an expiration time.
//!
//! The expiration time is absolute, in milliseconds since the Unix epoch. It
//! is what time-to-live of a stored value rests on.

use vstd::prelude::*;

verus! {

/// The expiration time, where none stands for "never expires".
pub open spec fn spec_or_never(at: Option<u64>) -> u64 {
    match at {
        Some(ms) => ms,
        None => u64::MAX,
    }
}

/// The expiration time, where none stands for "never expires": `u64::MAX`.
pub fn or_never(at: Option<u64>) -> (r: u64)
    ensures
        r == spec_or_never(at),
{
    match at {
        Some(ms) => ms,
        None => u64::MAX,
    }
}

/// Whether what expires at `expires_at_ms` is expired at `now_ms`. What
/// expires at `now_ms` itself is not yet expired.
pub fn is_expired_at(expires_at_ms: u64, now_ms: u64) -> (r: bool)
    ensures
        r == (expires_at_ms < now_ms),
{
    expires_at_ms < now_ms
}

/// A trait for evaluating and returning the absolute expiration time.
///
/// What `expires_at_ms_opt` returns is for the implementing type to say.
pub trait Expirable {
    /// Returns the optional expiration time in milliseconds since the Unix epoch (January 1, 1970).
    fn expires_at_ms_opt(&self) -> (r: Option<u64>);

    /// Evaluates and returns the absolute expiration time in milliseconds since the Unix epoch
    /// (January 1, 1970).
    ///
    /// If there is no expiration time, it returns `u64::MAX`.
    fn expires_at_ms(&self) -> (r: u64)
        ensures
            exists|at: Option<u64>| #[trigger]
                call_ensures(Self::expires_at_ms_opt, (self,), at) && r == spec_or_never(at),
    {
        or_never(self.expires_at_ms_opt())
    }
}

impl<T> Expirable for &T where T: Expirable {
    /// A reference expires when what it refers to expires.
    fn expires_at_ms_opt(&self) -> (r: Option<u64>)
        ensures
            call_ensures(T::expires_at_ms_opt, (*self,), r),
    {
        Expirable::expires_at_ms_opt(*self)
    }
}

impl<T> Expirable for Option<T> where T: Expirable {
    /// Metadata that is not there never expires.
    fn expires_at_ms_opt(&self) -> (r: Option<u64>)
        ensures
            match self {
                Some(e) => call_ensures(T::expires_at_ms_opt, (e,), r),
                None => r is None,
            },
    {
        match self {
            Some(e) => e.expires_at_ms_opt(),
            None => None,
        }
    }
}

} // verus!
