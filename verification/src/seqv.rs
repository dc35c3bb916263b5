//! The value as an application sees it: sequence number, metadata and data.

use crate::seq_value::SeqValue;
use std::ops::Deref;
use std::ops::DerefMut;
use vstd::prelude::*;
use vstd::std_specs::cmp::PartialEqSpec;

verus! {

/// Some value bound with a seq number.
///
/// [`SeqV`] is the application-level value. Inside the store a value may be a
/// tombstone; a tombstone becomes `None::<SeqV>` and a normal value
/// `Some::<SeqV>`, so there is no tombstone state inside a `SeqV`.
#[derive(Eq)]
pub struct SeqV<M, T = Vec<u8>> {
    pub seq: u64,
    pub meta: Option<M>,
    pub data: T,
}

impl<M, T> SeqV<M, T> {
    /// What a reader sees of a record that may not be there: the sequence
    /// number, the value and the metadata. No record reads as sequence number
    /// 0, no value and no metadata.
    pub open spec fn spec_read(record: Option<SeqV<M, T>>) -> (u64, Option<T>, Option<M>) {
        match record {
            Some(v) => (v.seq, Some(v.data), v.meta),
            None => (0, None, None),
        }
    }

    /// Creates a value without metadata.
    pub fn new(seq: u64, data: T) -> (r: Self)
        ensures
            r == (SeqV::<M, T> { seq, meta: None, data }),
    {
        Self { seq, meta: None, data }
    }

    /// Creates a value with optional metadata.
    pub fn new_with_meta(seq: u64, meta: Option<M>, data: T) -> (r: Self)
        ensures
            r == (SeqV { seq, meta, data }),
    {
        Self { seq, meta, data }
    }

    /// Replaces the sequence number and keeps the other fields.
    #[must_use]
    pub fn with_seq(self, seq: u64) -> (r: Self)
        ensures
            r == (SeqV { seq, meta: self.meta, data: self.data }),
    {
        SeqV { seq, meta: self.meta, data: self.data }
    }

    /// Replaces the metadata and keeps the other fields.
    #[must_use]
    pub fn with_meta(self, m: Option<M>) -> (r: Self)
        ensures
            r == (SeqV { seq: self.seq, meta: m, data: self.data }),
    {
        SeqV { seq: self.seq, meta: m, data: self.data }
    }

    /// Replaces the data and keeps the other fields.
    #[must_use]
    pub fn with_value(self, v: T) -> (r: Self)
        ensures
            r == (SeqV { seq: self.seq, meta: self.meta, data: v }),
    {
        SeqV { seq: self.seq, meta: self.meta, data: v }
    }

    /// Convert data to type U and leave seq and meta unchanged.
    pub fn map<U>(self, f: impl FnOnce(T) -> U) -> (r: SeqV<M, U>)
        requires
            f.requires((self.data,)),
        ensures
            r.seq == self.seq,
            r.meta == self.meta,
            f.ensures((self.data,), r.data),
    {
        SeqV { seq: self.seq, meta: self.meta, data: f(self.data) }
    }

    /// Try to convert data to type U and leave seq and meta unchanged.
    /// The error of `f` is handed on unchanged.
    pub fn try_map<U, E>(self, f: impl FnOnce(T) -> Result<U, E>) -> (r: Result<SeqV<M, U>, E>)
        requires
            f.requires((self.data,)),
        ensures
            match r {
                Ok(v) => v.seq == self.seq && v.meta == self.meta && f.ensures(
                    (self.data,),
                    Ok(v.data),
                ),
                Err(e) => f.ensures((self.data,), Err(e)),
            },
    {
        match f(self.data) {
            Ok(u) => Ok(SeqV { seq: self.seq, meta: self.meta, data: u }),
            Err(e) => Err(e),
        }
    }
}

impl<M, T> Deref for SeqV<M, T> {
    type Target = T;

    fn deref(&self) -> (r: &T)
        ensures
            *r == self.data,
    {
        &self.data
    }
}

impl<M, T> DerefMut for SeqV<M, T> {
    fn deref_mut(&mut self) -> (r: &mut T)
        ensures
            *r == old(self).data,
            final(self).data == *final(r),
            final(self).seq == old(self).seq,
            final(self).meta == old(self).meta,
    {
        &mut self.data
    }
}

impl<M: Default, T: Default> Default for SeqV<M, T> {
    fn default() -> (r: Self)
        ensures
            r.seq == 0,
            r.meta is None,
            T::default.ensures((), r.data),
    {
        SeqV { seq: 0, meta: None, data: T::default() }
    }
}

impl<M: Clone, T: Clone> Clone for SeqV<M, T> {
    fn clone(&self) -> (r: Self)
        ensures
            r.seq == self.seq,
            match self.meta {
                Some(m) => r.meta is Some && cloned(m, r.meta->Some_0),
                None => r.meta is None,
            },
            cloned(self.data, r.data),
    {
        SeqV { seq: self.seq, meta: self.meta.clone(), data: self.data.clone() }
    }
}

impl<M: PartialEq, T: PartialEq> vstd::std_specs::cmp::PartialEqSpecImpl for SeqV<M, T> {
    open spec fn obeys_eq_spec() -> bool {
        M::obeys_eq_spec() && T::obeys_eq_spec()
    }

    open spec fn eq_spec(&self, other: &SeqV<M, T>) -> bool {
        &&& self.seq == other.seq
        &&& PartialEqSpec::eq_spec(&self.meta, &other.meta)
        &&& self.data.eq_spec(&other.data)
    }
}

impl<M: PartialEq, T: PartialEq> PartialEq for SeqV<M, T> {
    fn eq(&self, other: &SeqV<M, T>) -> (r: bool) {
        self.seq == other.seq && self.meta == other.meta && self.data == other.data
    }
}

impl<M, V> SeqValue<M, V> for SeqV<M, V> {
    fn seq(&self) -> (r: u64)
        ensures
            r == self.seq,
    {
        self.seq
    }

    fn value(&self) -> (r: Option<&V>)
        ensures
            r == Some(&self.data),
    {
        Some(&self.data)
    }

    fn into_value(self) -> (r: Option<V>)
        ensures
            r == Some(self.data),
    {
        Some(self.data)
    }

    fn meta(&self) -> (r: Option<&M>)
        ensures
            match self.meta {
                Some(m) => r == Some(&m),
                None => r is None,
            },
    {
        self.meta.as_ref()
    }
}

/// No record at all reads as sequence number 0, no value and no metadata.
impl<M, V> SeqValue<M, V> for Option<SeqV<M, V>> {
    fn seq(&self) -> (r: u64)
        ensures
            r == SeqV::spec_read(*self).0,
    {
        match self {
            Some(v) => v.seq,
            None => 0,
        }
    }

    fn value(&self) -> (r: Option<&V>)
        ensures
            match SeqV::spec_read(*self).1 {
                Some(v) => r == Some(&v),
                None => r is None,
            },
    {
        match self {
            Some(v) => Some(&v.data),
            None => None,
        }
    }

    fn into_value(self) -> (r: Option<V>)
        ensures
            r == SeqV::spec_read(self).1,
    {
        match self {
            Some(v) => Some(v.data),
            None => None,
        }
    }

    fn meta(&self) -> (r: Option<&M>)
        ensures
            match SeqV::spec_read(*self).2 {
                Some(m) => r == Some(&m),
                None => r is None,
            },
    {
        match self {
            Some(v) => v.meta.as_ref(),
            None => None,
        }
    }
}

} // verus!
