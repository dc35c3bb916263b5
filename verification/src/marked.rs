//! Data that is either present or marked as deleted.

use std::cmp::Ordering;
use vstd::prelude::*;
use vstd::std_specs::cmp::PartialEqSpec;
use vstd::std_specs::cmp::PartialOrdSpec;

verus! {

/// Data that can be marked as tombstone.
///
/// `Normal` is declared before `TombStone`: a tombstone is greater than every
/// normal value, and two normal values compare by their payload.
#[derive(Debug, Copy, Eq, Ord)]
pub enum Marked<D> {
    /// Normal data.
    Normal(D),
    /// Deletion marker.
    TombStone,
}

impl<D> Marked<D> {
    /// The payload, if there is one.
    pub open spec fn payload(self) -> Option<D> {
        match self {
            Marked::Normal(d) => Some(d),
            Marked::TombStone => None,
        }
    }

    /// The same presence with the payload dropped.
    pub open spec fn presence(self) -> Marked<()> {
        match self {
            Marked::Normal(_) => Marked::Normal(()),
            Marked::TombStone => Marked::TombStone,
        }
    }
}

impl<D: Clone> Clone for Marked<D> {
    fn clone(&self) -> (r: Self)
        ensures
            match *self {
                Marked::Normal(d) => r is Normal && cloned(d, r->Normal_0),
                Marked::TombStone => r is TombStone,
            },
    {
        match self {
            Marked::Normal(d) => Marked::Normal(d.clone()),
            Marked::TombStone => Marked::TombStone,
        }
    }
}

impl<D: PartialEq> vstd::std_specs::cmp::PartialEqSpecImpl for Marked<D> {
    open spec fn obeys_eq_spec() -> bool {
        D::obeys_eq_spec()
    }

    open spec fn eq_spec(&self, other: &Marked<D>) -> bool {
        match (*self, *other) {
            (Marked::Normal(a), Marked::Normal(b)) => a.eq_spec(&b),
            (Marked::TombStone, Marked::TombStone) => true,
            _ => false,
        }
    }
}

impl<D: PartialEq> PartialEq for Marked<D> {
    fn eq(&self, other: &Marked<D>) -> (r: bool) {
        match (self, other) {
            (Marked::Normal(a), Marked::Normal(b)) => a == b,
            (Marked::TombStone, Marked::TombStone) => true,
            _ => false,
        }
    }
}

impl<D: PartialOrd> vstd::std_specs::cmp::PartialOrdSpecImpl for Marked<D> {
    open spec fn obeys_partial_cmp_spec() -> bool {
        D::obeys_partial_cmp_spec()
    }

    open spec fn partial_cmp_spec(&self, other: &Marked<D>) -> Option<Ordering> {
        match (*self, *other) {
            (Marked::Normal(a), Marked::Normal(b)) => a.partial_cmp_spec(&b),
            (Marked::Normal(_), Marked::TombStone) => Some(Ordering::Less),
            (Marked::TombStone, Marked::Normal(_)) => Some(Ordering::Greater),
            (Marked::TombStone, Marked::TombStone) => Some(Ordering::Equal),
        }
    }
}

impl<D: PartialOrd> PartialOrd for Marked<D> {
    fn partial_cmp(&self, other: &Marked<D>) -> (r: Option<Ordering>) {
        match (self, other) {
            (Marked::Normal(a), Marked::Normal(b)) => a.partial_cmp(b),
            (Marked::Normal(_), Marked::TombStone) => Some(Ordering::Less),
            (Marked::TombStone, Marked::Normal(_)) => Some(Ordering::Greater),
            (Marked::TombStone, Marked::TombStone) => Some(Ordering::Equal),
        }
    }
}

} // verus!
