//! The sequence number as the storage layer counts it.

use std::cmp::Ordering;
use std::ops::Add;
use std::ops::AddAssign;
use std::ops::Deref;
use std::ops::DerefMut;
use vstd::prelude::*;

verus! {

/// Internal sequence number type.
///
/// The sequence number that an application sees is 0 for a tombstone; an
/// [`InternalSeq`] keeps the number that the tombstone was written with.
#[derive(Debug, Clone, Copy, PartialEq, Eq, Ord, Structural)]
pub struct InternalSeq {
    pub seq: u64,
}

impl InternalSeq {
    pub fn new(seq: u64) -> (r: Self)
        ensures
            r.seq == seq,
    {
        Self { seq }
    }
}

impl vstd::std_specs::cmp::PartialOrdSpecImpl for InternalSeq {
    open spec fn obeys_partial_cmp_spec() -> bool {
        true
    }

    /// Internal sequence numbers are ordered as their numbers are.
    open spec fn partial_cmp_spec(&self, other: &InternalSeq) -> Option<Ordering> {
        if self.seq < other.seq {
            Some(Ordering::Less)
        } else if self.seq > other.seq {
            Some(Ordering::Greater)
        } else {
            Some(Ordering::Equal)
        }
    }
}

impl PartialOrd for InternalSeq {
    fn partial_cmp(&self, other: &InternalSeq) -> (r: Option<Ordering>) {
        if self.seq < other.seq {
            Some(Ordering::Less)
        } else if self.seq > other.seq {
            Some(Ordering::Greater)
        } else {
            Some(Ordering::Equal)
        }
    }
}

impl Default for InternalSeq {
    fn default() -> (r: Self)
        ensures
            r.seq == 0,
    {
        Self { seq: 0 }
    }
}

impl Deref for InternalSeq {
    type Target = u64;

    fn deref(&self) -> (r: &u64)
        ensures
            *r == self.seq,
    {
        &self.seq
    }
}

impl DerefMut for InternalSeq {
    fn deref_mut(&mut self) -> (r: &mut u64)
        ensures
            *r == old(self).seq,
            final(self).seq == *final(r),
    {
        &mut self.seq
    }
}

impl vstd::std_specs::ops::AddSpecImpl<u64> for InternalSeq {
    open spec fn obeys_add_spec() -> bool {
        true
    }

    open spec fn add_req(self, rhs: u64) -> bool {
        self.seq + rhs <= u64::MAX
    }

    open spec fn add_spec(self, rhs: u64) -> InternalSeq {
        InternalSeq { seq: (self.seq + rhs) as u64 }
    }
}

impl Add<u64> for InternalSeq {
    type Output = InternalSeq;

    fn add(self, rhs: u64) -> (r: InternalSeq) {
        InternalSeq::new(self.seq + rhs)
    }
}

impl AddAssign<u64> for InternalSeq {
    fn add_assign(&mut self, rhs: u64)
        requires
            old(self).seq + rhs <= u64::MAX,
        ensures
            final(self).seq == old(self).seq + rhs,
    {
        self.seq = self.seq + rhs;
    }
}

} // verus!
