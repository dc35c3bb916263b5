//! A sequence number paired with data that may be a tombstone.

use crate::internal_seq::InternalSeq;
use crate::marked::Marked;
use crate::seq_value::SeqValue;
use std::cmp::Ordering;
use vstd::prelude::*;
use vstd::std_specs::cmp::PartialEqSpec;
use vstd::std_specs::cmp::PartialOrdSpec;

verus! {

/// Sequence-numbered marked value: the state of a key as of sequence number `seq`.
///
/// Ordered by sequence number first, then tombstone > normal, then by payload.
/// `seq` is the first field, as it is compared first.
#[derive(Debug, Copy, Eq, Ord)]
pub struct SeqMarked<D = Vec<u8>> {
    pub seq: u64,
    pub marked: Marked<D>,
}

impl<D> SeqMarked<D> {
    /// The sequence number and the presence, without the payload.
    pub open spec fn spec_order_key(&self) -> SeqMarked<()> {
        SeqMarked { seq: self.seq, marked: self.marked.presence() }
    }

    /// The position of the order key among all order keys: at one sequence
    /// number the normal value comes first and the tombstone second.
    pub open spec fn rank(&self) -> int {
        if self.marked is TombStone {
            2 * self.seq + 1
        } else {
            2 * self.seq
        }
    }

    /// The sequence number that an application sees: 0 for a tombstone.
    pub open spec fn spec_user_seq(&self) -> u64 {
        if self.marked is TombStone {
            0
        } else {
            self.seq
        }
    }

    /// The sequence number inside the store: a tombstone keeps its own.
    pub open spec fn spec_internal_seq(&self) -> InternalSeq {
        InternalSeq { seq: self.seq }
    }

    /// Whether the value is a deletion marker.
    pub open spec fn spec_is_tombstone(&self) -> bool {
        self.marked is TombStone
    }

    /// Whether the value carries a payload.
    pub open spec fn spec_is_normal(&self) -> bool {
        self.marked is Normal
    }

    /// The reserved state of a key that was never written.
    pub open spec fn spec_is_absent(&self) -> bool {
        self.seq == 0 && self.marked is TombStone
    }

    /// Creates a new `SeqMarked` with sequence number and marked data.
    pub fn new(seq: u64, marked: Marked<D>) -> (r: Self)
        ensures
            r == (SeqMarked { seq, marked }),
    {
        Self { seq, marked }
    }

    /// Creates normal value with sequence number.
    pub fn new_normal(seq: u64, data: D) -> (r: Self)
        ensures
            r == (SeqMarked { seq, marked: Marked::Normal(data) }),
    {
        Self { seq, marked: Marked::Normal(data) }
    }

    /// Creates tombstone with sequence number.
    pub fn new_tombstone(seq: u64) -> (r: Self)
        ensures
            r == (SeqMarked::<D> { seq, marked: Marked::TombStone }),
    {
        Self { seq, marked: Marked::TombStone }
    }

    /// Represents an absent record (not even marked as deleted).
    pub fn new_not_found() -> (r: Self)
        ensures
            r == (SeqMarked::<D> { seq: 0, marked: Marked::TombStone }),
            r.spec_is_absent(),
    {
        Self { seq: 0, marked: Marked::TombStone }
    }

    /// Represents an absent record: the same state as [`SeqMarked::new_not_found`].
    pub fn new_absent() -> (r: Self)
        ensures
            r == (SeqMarked::<D> { seq: 0, marked: Marked::TombStone }),
            r.spec_is_absent(),
    {
        Self::new_not_found()
    }

    /// Returns `true` if this is normal data.
    #[verifier::when_used_as_spec(spec_is_normal)]
    pub fn is_normal(&self) -> (r: bool)
        ensures
            r == (self.marked is Normal),
    {
        !self.is_tombstone()
    }

    /// Returns `true` if this is a tombstone.
    #[verifier::when_used_as_spec(spec_is_tombstone)]
    pub fn is_tombstone(&self) -> (r: bool)
        ensures
            r == (self.marked is TombStone),
    {
        match self.marked {
            Marked::Normal(_) => false,
            Marked::TombStone => true,
        }
    }

    /// Returns `true` if this is the absent state.
    #[verifier::when_used_as_spec(spec_is_absent)]
    pub fn is_not_found(&self) -> (r: bool)
        ensures
            r == self.spec_is_absent(),
    {
        self.is_absent()
    }

    /// Returns `true` if this is the absent state: sequence number 0 and a tombstone.
    #[verifier::when_used_as_spec(spec_is_absent)]
    pub fn is_absent(&self) -> (r: bool)
        ensures
            r == self.spec_is_absent(),
    {
        self.seq == 0 && self.is_tombstone()
    }

    /// Transforms data `D` to `U` while preserving sequence and tombstone state.
    ///
    /// `f` is called on the payload of a normal value, and not at all on a tombstone.
    pub fn map<U>(self, f: impl FnOnce(D) -> U) -> (r: SeqMarked<U>)
        requires
            self.marked is Normal ==> f.requires((self.marked->Normal_0,)),
        ensures
            r.seq == self.seq,
            match self.marked {
                Marked::Normal(d) => r.marked is Normal && f.ensures((d,), r.marked->Normal_0),
                Marked::TombStone => r.marked is TombStone,
            },
            r.spec_order_key() == self.spec_order_key(),
    {
        SeqMarked {
            seq: self.seq,
            marked: match self.marked {
                Marked::Normal(data) => Marked::<U>::Normal(f(data)),
                Marked::TombStone => Marked::<U>::TombStone,
            },
        }
    }

    /// Transforms data `D` to `U` with a function that may fail.
    ///
    /// A tombstone is kept as it is and `f` is not called. On a normal value
    /// the error of `f` is handed on unchanged.
    pub fn try_map<U, E>(self, f: impl FnOnce(D) -> Result<U, E>) -> (r: Result<SeqMarked<U>, E>)
        requires
            self.marked is Normal ==> f.requires((self.marked->Normal_0,)),
        ensures
            match self.marked {
                Marked::Normal(d) => match r {
                    Ok(v) => v.seq == self.seq && v.marked is Normal && f.ensures(
                        (d,),
                        Ok(v.marked->Normal_0),
                    ),
                    Err(e) => f.ensures((d,), Err(e)),
                },
                Marked::TombStone => r == Ok::<SeqMarked<U>, E>(
                    SeqMarked { seq: self.seq, marked: Marked::TombStone },
                ),
            },
            r is Ok ==> r->Ok_0.spec_order_key() == self.spec_order_key(),
    {
        match self.marked {
            Marked::Normal(data) => match f(data) {
                Ok(u) => Ok(SeqMarked { seq: self.seq, marked: Marked::<U>::Normal(u) }),
                Err(e) => Err(e),
            },
            Marked::TombStone => Ok(SeqMarked { seq: self.seq, marked: Marked::<U>::TombStone }),
        }
    }

    /// Creates reference to the data.
    pub fn as_ref(&self) -> (r: SeqMarked<&D>)
        ensures
            r.seq == self.seq,
            match self.marked {
                Marked::Normal(d) => r.marked == Marked::Normal(&d),
                Marked::TombStone => r.marked is TombStone,
            },
    {
        SeqMarked {
            seq: self.seq,
            marked: match &self.marked {
                Marked::Normal(data) => Marked::Normal(data),
                Marked::TombStone => Marked::TombStone,
            },
        }
    }

    /// Returns ordering key (sequence + tombstone state only).
    #[verifier::when_used_as_spec(spec_order_key)]
    pub fn order_key(&self) -> (r: SeqMarked<()>)
        ensures
            r == self.spec_order_key(),
    {
        SeqMarked {
            seq: self.seq,
            marked: match &self.marked {
                Marked::Normal(_) => Marked::Normal(()),
                Marked::TombStone => Marked::TombStone,
            },
        }
    }

    /// Returns the sequence number for internal use, tombstone also has a seq.
    #[verifier::when_used_as_spec(spec_internal_seq)]
    pub fn internal_seq(&self) -> (r: InternalSeq)
        ensures
            r == self.spec_internal_seq(),
            r.seq == self.seq,
    {
        InternalSeq::new(self.seq)
    }

    /// Returns the sequence number for application use, tombstone always has seq 0.
    #[verifier::when_used_as_spec(spec_user_seq)]
    pub fn user_seq(&self) -> (r: u64)
        ensures
            r == self.spec_user_seq(),
            self.marked is TombStone ==> r == 0,
            self.marked is Normal ==> r == self.seq,
    {
        if self.is_tombstone() {
            0
        } else {
            self.seq
        }
    }

    /// Whether the order key of `self` comes after that of `other`.
    pub fn key_gt(&self, other: &Self) -> (r: bool)
        ensures
            r == (self.rank() > other.rank()),
    {
        if self.seq != other.seq {
            self.seq > other.seq
        } else {
            self.is_tombstone() && !other.is_tombstone()
        }
    }

    /// Returns the maximum of two values by their order keys; `b` where the keys are equal.
    pub fn max(a: Self, b: Self) -> (r: Self)
        ensures
            r == if a.rank() > b.rank() { a } else { b },
            r.rank() >= a.rank() && r.rank() >= b.rank(),
    {
        if a.key_gt(&b) {
            a
        } else {
            b
        }
    }

    /// Returns the maximum of two values by their order keys; `b` where the keys are equal.
    pub fn max_ref<'l>(a: &'l Self, b: &'l Self) -> (r: &'l Self)
        ensures
            r == if a.rank() > b.rank() { a } else { b },
            r.rank() >= a.rank() && r.rank() >= b.rank(),
    {
        if a.key_gt(b) {
            a
        } else {
            b
        }
    }

    /// Returns reference to data if normal, `None` if tombstone.
    pub fn data_ref(&self) -> (r: Option<&D>)
        ensures
            match self.marked {
                Marked::Normal(d) => r == Some(&d),
                Marked::TombStone => r is None,
            },
    {
        match self.marked {
            Marked::Normal(ref d) => Some(d),
            Marked::TombStone => None,
        }
    }

    /// Consumes and returns data if normal, `None` if tombstone.
    pub fn into_data(self) -> (r: Option<D>)
        ensures
            r == self.marked.payload(),
    {
        match self.marked {
            Marked::Normal(data) => Some(data),
            Marked::TombStone => None,
        }
    }

    /// Consumes and returns the sequence number and the marked data.
    pub fn into_parts(self) -> (r: (u64, Marked<D>))
        ensures
            r == (self.seq, self.marked),
    {
        (self.seq, self.marked)
    }
}

impl<D: Clone> Clone for SeqMarked<D> {
    fn clone(&self) -> (r: Self)
        ensures
            r.seq == self.seq,
            match self.marked {
                Marked::Normal(d) => r.marked is Normal && cloned(d, r.marked->Normal_0),
                Marked::TombStone => r.marked is TombStone,
            },
    {
        SeqMarked { seq: self.seq, marked: self.marked.clone() }
    }
}

impl<D: PartialEq> vstd::std_specs::cmp::PartialEqSpecImpl for SeqMarked<D> {
    open spec fn obeys_eq_spec() -> bool {
        D::obeys_eq_spec()
    }

    open spec fn eq_spec(&self, other: &SeqMarked<D>) -> bool {
        self.seq == other.seq && PartialEqSpec::eq_spec(&self.marked, &other.marked)
    }
}

impl<D: PartialEq> PartialEq for SeqMarked<D> {
    fn eq(&self, other: &SeqMarked<D>) -> (r: bool) {
        self.seq == other.seq && self.marked == other.marked
    }
}

impl<D: PartialOrd> vstd::std_specs::cmp::PartialOrdSpecImpl for SeqMarked<D> {
    open spec fn obeys_partial_cmp_spec() -> bool {
        D::obeys_partial_cmp_spec()
    }

    /// The sequence numbers decide; where they are equal, the marked data decide:
    /// a tombstone is greater than a normal value, two normal values compare by payload.
    open spec fn partial_cmp_spec(&self, other: &SeqMarked<D>) -> Option<Ordering> {
        if self.seq < other.seq {
            Some(Ordering::Less)
        } else if self.seq > other.seq {
            Some(Ordering::Greater)
        } else {
            PartialOrdSpec::partial_cmp_spec(&self.marked, &other.marked)
        }
    }
}

impl<D: PartialOrd> PartialOrd for SeqMarked<D> {
    fn partial_cmp(&self, other: &SeqMarked<D>) -> (r: Option<Ordering>) {
        if self.seq < other.seq {
            Some(Ordering::Less)
        } else if self.seq > other.seq {
            Some(Ordering::Greater)
        } else {
            self.marked.partial_cmp(&other.marked)
        }
    }
}

impl SeqMarked<()> {
    /// Creates the smallest order key (seq=0, normal).
    pub fn zero() -> (r: Self)
        ensures
            r == (SeqMarked { seq: 0, marked: Marked::Normal(()) }),
            forall|k: SeqMarked<()>| r.rank() <= k.rank(),
    {
        Self { seq: 0, marked: Marked::Normal(()) }
    }

    /// Creates the greatest order key (the greatest seq, tombstone).
    pub fn max_value() -> (r: Self)
        ensures
            r == (SeqMarked::<()> { seq: u64::MAX, marked: Marked::TombStone }),
            forall|k: SeqMarked<()>| k.rank() <= r.rank(),
    {
        Self { seq: u64::MAX, marked: Marked::TombStone }
    }
}

impl<D> SeqMarked<&D> {
    /// Clones the referenced payload into an owned value.
    pub fn cloned(self) -> (r: SeqMarked<D>) where D: Clone
        ensures
            r.seq == self.seq,
            match self.marked {
                Marked::Normal(d) => r.marked is Normal && cloned(*d, r.marked->Normal_0),
                Marked::TombStone => r.marked is TombStone,
            },
    {
        self.map(|d: &D| -> (c: D) ensures cloned(*d, c) { d.clone() })
    }
}

impl<M, T> SeqMarked<(Option<M>, T)> {
    /// What a reader sees of the value: the sequence number, the value and
    /// the metadata. A tombstone reads as sequence number 0, no value and no
    /// metadata.
    pub open spec fn spec_read(&self) -> (u64, Option<T>, Option<M>) {
        match self.marked {
            Marked::Normal(d) => (self.seq, Some(d.1), d.0),
            Marked::TombStone => (0, None, None),
        }
    }
}

/// A [`SeqMarked`] of metadata and value reads as a [`SeqValue`]: a tombstone
/// has sequence number 0, no value and no metadata.
impl<M, T> SeqValue<M, T> for SeqMarked<(Option<M>, T)> {
    fn seq(&self) -> (r: u64)
        ensures
            r == self.spec_read().0,
            r == self.spec_user_seq(),
    {
        self.user_seq()
    }

    fn value(&self) -> (r: Option<&T>)
        ensures
            match self.spec_read().1 {
                Some(v) => r == Some(&v),
                None => r is None,
            },
    {
        match self.data_ref() {
            Some(d) => Some(&d.1),
            None => None,
        }
    }

    fn into_value(self) -> (r: Option<T>)
        ensures
            r == self.spec_read().1,
    {
        match self.into_data() {
            Some(d) => Some(d.1),
            None => None,
        }
    }

    fn meta(&self) -> (r: Option<&M>)
        ensures
            match self.spec_read().2 {
                Some(m) => r == Some(&m),
                None => r is None,
            },
    {
        match self.data_ref() {
            Some(d) => d.0.as_ref(),
            None => None,
        }
    }
}

} // verus!
