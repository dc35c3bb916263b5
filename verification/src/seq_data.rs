//! A sequence number paired with data that is always present.

use crate::internal_seq::InternalSeq;
use crate::marked::Marked;
use crate::seq_marked::SeqMarked;
use std::cmp::Ordering;
use vstd::prelude::*;
use vstd::std_specs::cmp::PartialEqSpec;
use vstd::std_specs::cmp::PartialOrdSpec;

verus! {

/// Sequence-numbered non-marked data.
///
/// It is a subset of [`SeqMarked`] where data is always normal. Ordered by
/// sequence number first, then by payload; `seq` is the first field, as it is
/// compared first.
#[derive(Debug, Copy, Eq, Ord)]
pub struct SeqData<D = Vec<u8>> {
    pub seq: u64,
    pub data: D,
}

impl<D> SeqData<D> {
    /// The order key: a normal key at the same sequence number.
    pub open spec fn spec_order_key(&self) -> SeqMarked<()> {
        SeqMarked { seq: self.seq, marked: Marked::Normal(()) }
    }

    /// The sequence number inside the store.
    pub open spec fn spec_internal_seq(&self) -> InternalSeq {
        InternalSeq { seq: self.seq }
    }

    /// The sequence number that an application sees: the same number.
    pub open spec fn spec_user_seq(&self) -> u64 {
        self.seq
    }

    /// Creates a value with sequence number.
    pub fn new(seq: u64, data: D) -> (r: Self)
        ensures
            r == (SeqData { seq, data }),
    {
        Self { seq, data }
    }

    /// Transforms data `D` to `U` while preserving the sequence number.
    pub fn map<U>(self, f: impl FnOnce(D) -> U) -> (r: SeqData<U>)
        requires
            f.requires((self.data,)),
        ensures
            r.seq == self.seq,
            f.ensures((self.data,), r.data),
            r.spec_order_key() == self.spec_order_key(),
    {
        SeqData { seq: self.seq, data: f(self.data) }
    }

    /// Transforms data `D` to `U` with a function that may fail; its error is
    /// handed on unchanged.
    pub fn try_map<U, E>(self, f: impl FnOnce(D) -> Result<U, E>) -> (r: Result<SeqData<U>, E>)
        requires
            f.requires((self.data,)),
        ensures
            match r {
                Ok(v) => v.seq == self.seq && f.ensures((self.data,), Ok(v.data)),
                Err(e) => f.ensures((self.data,), Err(e)),
            },
    {
        match f(self.data) {
            Ok(u) => Ok(SeqData { seq: self.seq, data: u }),
            Err(e) => Err(e),
        }
    }

    /// Creates reference to the data.
    pub fn as_ref(&self) -> (r: SeqData<&D>)
        ensures
            r == (SeqData { seq: self.seq, data: &self.data }),
    {
        SeqData { seq: self.seq, data: &self.data }
    }

    /// Returns ordering key (sequence + tombstone state only): always a normal key.
    #[verifier::when_used_as_spec(spec_order_key)]
    pub fn order_key(&self) -> (r: SeqMarked<()>)
        ensures
            r == self.spec_order_key(),
            r.marked is Normal,
    {
        SeqMarked::new_normal(self.seq, ())
    }

    /// Returns the sequence number for internal use.
    #[verifier::when_used_as_spec(spec_internal_seq)]
    pub fn internal_seq(&self) -> (r: InternalSeq)
        ensures
            r == self.spec_internal_seq(),
            r.seq == self.seq,
    {
        InternalSeq::new(self.seq)
    }

    /// Returns the sequence number for application use.
    #[verifier::when_used_as_spec(spec_user_seq)]
    pub fn user_seq(&self) -> (r: u64)
        ensures
            r == self.spec_user_seq(),
            r == self.seq,
    {
        self.seq
    }

    /// Returns the maximum of two values by their order keys; `b` where the keys are equal.
    pub fn max(a: Self, b: Self) -> (r: Self)
        ensures
            r == if a.spec_order_key().rank() > b.spec_order_key().rank() { a } else { b },
            r == if a.seq > b.seq { a } else { b },
    {
        if a.order_key().key_gt(&b.order_key()) {
            a
        } else {
            b
        }
    }

    /// Returns the maximum of two values by their order keys; `b` where the keys are equal.
    pub fn max_ref<'l>(a: &'l Self, b: &'l Self) -> (r: &'l Self)
        ensures
            r == if a.spec_order_key().rank() > b.spec_order_key().rank() { a } else { b },
            r == if a.seq > b.seq { a } else { b },
    {
        if a.order_key().key_gt(&b.order_key()) {
            a
        } else {
            b
        }
    }

    /// Returns reference to the data.
    pub fn data(&self) -> (r: &D)
        ensures
            *r == self.data,
    {
        &self.data
    }

    /// Consumes and returns the data.
    pub fn into_data(self) -> (r: D)
        ensures
            r == self.data,
    {
        self.data
    }

    /// Consumes and returns the sequence number and the data.
    pub fn into_parts(self) -> (r: (u64, D))
        ensures
            r == (self.seq, self.data),
    {
        (self.seq, self.data)
    }
}

impl<D: Clone> Clone for SeqData<D> {
    fn clone(&self) -> (r: Self)
        ensures
            r.seq == self.seq,
            cloned(self.data, r.data),
    {
        SeqData { seq: self.seq, data: self.data.clone() }
    }
}

impl<D: PartialEq> vstd::std_specs::cmp::PartialEqSpecImpl for SeqData<D> {
    open spec fn obeys_eq_spec() -> bool {
        D::obeys_eq_spec()
    }

    open spec fn eq_spec(&self, other: &SeqData<D>) -> bool {
        self.seq == other.seq && self.data.eq_spec(&other.data)
    }
}

impl<D: PartialEq> PartialEq for SeqData<D> {
    fn eq(&self, other: &SeqData<D>) -> (r: bool) {
        self.seq == other.seq && self.data == other.data
    }
}

impl<D: PartialOrd> vstd::std_specs::cmp::PartialOrdSpecImpl for SeqData<D> {
    open spec fn obeys_partial_cmp_spec() -> bool {
        D::obeys_partial_cmp_spec()
    }

    /// The sequence numbers decide; where they are equal, the payloads decide.
    open spec fn partial_cmp_spec(&self, other: &SeqData<D>) -> Option<Ordering> {
        if self.seq < other.seq {
            Some(Ordering::Less)
        } else if self.seq > other.seq {
            Some(Ordering::Greater)
        } else {
            self.data.partial_cmp_spec(&other.data)
        }
    }
}

impl<D: PartialOrd> PartialOrd for SeqData<D> {
    fn partial_cmp(&self, other: &SeqData<D>) -> (r: Option<Ordering>) {
        if self.seq < other.seq {
            Some(Ordering::Less)
        } else if self.seq > other.seq {
            Some(Ordering::Greater)
        } else {
            self.data.partial_cmp(&other.data)
        }
    }
}

} // verus!
