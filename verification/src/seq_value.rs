//! A uniform read interface over values with a sequence number and metadata.

use crate::expirable::is_expired_at;
use crate::expirable::or_never;
use crate::expirable::spec_or_never;
use crate::expirable::Expirable;
use vstd::prelude::*;

verus! {

/// Trait for a value with a sequence number and metadata.
///
/// [`SeqValue`] is intended for application use and does not include a
/// tombstone concept: what is deleted or was never written has sequence
/// number 0, no value and no metadata.
///
/// What the four required methods return is for the implementing type to say;
/// the provided methods are stated over what those return.
pub trait SeqValue<M, V = Vec<u8>> {
    /// Return the sequence number of the value.
    fn seq(&self) -> (r: u64);

    /// Return the reference of the value.
    fn value(&self) -> (r: Option<&V>);

    /// Consume the value and return the value.
    fn into_value(self) -> (r: Option<V>);

    /// Return the reference of metadata of the value.
    fn meta(&self) -> (r: Option<&M>);

    /// Consume self and return the sequence number and the value.
    fn unpack(self) -> (r: (u64, Option<V>)) where Self: Sized
        ensures
            call_ensures(Self::seq, (&self,), r.0),
            call_ensures(Self::into_value, (self,), r.1),
    {
        let seq = self.seq();
        (seq, self.into_value())
    }

    /// Return the absolute expire time in millisecond since 1970-01-01 00:00:00:
    /// that of the metadata, and none where there is no metadata.
    fn expires_at_ms_opt(&self) -> (r: Option<u64>) where M: Expirable
        ensures
            exists|meta: Option<&M>| #[trigger]
                call_ensures(Self::meta, (self,), meta) && match meta {
                    Some(m) => call_ensures(M::expires_at_ms_opt, (m,), r),
                    None => r is None,
                },
    {
        match self.meta() {
            Some(meta) => meta.expires_at_ms_opt(),
            None => None,
        }
    }

    /// Returns the absolute expiration time in milliseconds since the Unix epoch (1970-01-01
    /// 00:00:00 UTC).
    ///
    /// If there is no metadata or no expiration time is set, returns `u64::MAX`: the value
    /// never expires.
    fn expires_at_ms(&self) -> (r: u64) where M: Expirable
        ensures
            exists|at: Option<u64>| #[trigger]
                call_ensures(Self::expires_at_ms_opt, (self,), at) && r == spec_or_never(at),
    {
        or_never(self.expires_at_ms_opt())
    }

    /// Return true if the record is expired at the given time in milliseconds since the Unix epoch
    /// (1970-01-01 00:00:00 UTC). A record that expires at `now_ms` is not yet expired.
    fn is_expired(&self, now_ms: u64) -> (r: bool) where M: Expirable
        ensures
            exists|expires_at_ms: u64| #[trigger]
                call_ensures(Self::expires_at_ms, (self,), expires_at_ms) && r == (expires_at_ms
                    < now_ms),
    {
        is_expired_at(self.expires_at_ms(), now_ms)
    }
}

} // verus!
