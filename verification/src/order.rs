//! What holds of the order of sequence-numbered marked values.
//!
//! The order is that of `partial_cmp`: by sequence number, then tombstone
//! after normal, then by payload. The order key keeps the first two levels,
//! and its [`SeqMarked::rank`] places it among all order keys.

use crate::marked::Marked;
use crate::seq_data::SeqData;
use crate::seq_marked::SeqMarked;
use std::cmp::Ordering;
use vstd::laws_cmp::obeys_partial_cmp_spec_properties;
use vstd::laws_eq::obeys_eq_spec_properties;
use vstd::prelude::*;
use vstd::std_specs::cmp::PartialOrdSpec;

verus! {

/// Whether `a < b` in the order of [`SeqMarked`].
pub open spec fn is_before<D: PartialOrd>(a: SeqMarked<D>, b: SeqMarked<D>) -> bool {
    PartialOrdSpec::partial_cmp_spec(&a, &b) == Some(Ordering::Less)
}

/// Whether `a > b` in the order of [`SeqMarked`].
pub open spec fn is_after<D: PartialOrd>(a: SeqMarked<D>, b: SeqMarked<D>) -> bool {
    PartialOrdSpec::partial_cmp_spec(&a, &b) == Some(Ordering::Greater)
}

/// Two normal values are ordered by sequence number, and at one sequence
/// number by payload.
pub proof fn lemma_normal_order<D: PartialOrd>(seq1: u64, d1: D, seq2: u64, d2: D)
    ensures
        is_before(
            SeqMarked { seq: seq1, marked: Marked::Normal(d1) },
            SeqMarked { seq: seq2, marked: Marked::Normal(d2) },
        ) <==> (seq1 < seq2 || (seq1 == seq2 && d1.partial_cmp_spec(&d2) == Some(
            Ordering::Less,
        ))),
{
}

/// A tombstone is greater than every normal value at its sequence number,
/// whatever the payload.
pub proof fn lemma_tombstone_after_normal<D: PartialOrd>(seq: u64, d: D)
    ensures
        is_after(
            SeqMarked::<D> { seq, marked: Marked::TombStone },
            SeqMarked { seq, marked: Marked::Normal(d) },
        ),
        is_before(
            SeqMarked { seq, marked: Marked::Normal(d) },
            SeqMarked::<D> { seq, marked: Marked::TombStone },
        ),
{
}

/// A tombstone is less than every normal value at a later sequence number,
/// whatever the payload.
pub proof fn lemma_tombstone_before_later<D: PartialOrd>(seq: u64, later: u64, d: D)
    requires
        seq < later,
    ensures
        is_before(
            SeqMarked::<D> { seq, marked: Marked::TombStone },
            SeqMarked { seq: later, marked: Marked::Normal(d) },
        ),
{
}

/// A value with the lower rank comes first, whatever the payloads: the order
/// key decides wherever two order keys differ.
pub proof fn lemma_rank_decides<D: PartialOrd>(a: SeqMarked<D>, b: SeqMarked<D>)
    ensures
        a.rank() < b.rank() ==> is_before(a, b),
        a.rank() > b.rank() ==> is_after(a, b),
        a.rank() == b.rank() <==> a.spec_order_key() == b.spec_order_key(),
        a.rank() == b.rank() && a.marked is TombStone ==> PartialOrdSpec::partial_cmp_spec(&a, &b)
            == Some(Ordering::Equal),
        a.rank() == b.rank() && a.marked is Normal ==> PartialOrdSpec::partial_cmp_spec(&a, &b)
            == a.marked->Normal_0.partial_cmp_spec(&b.marked->Normal_0),
{
}

/// Two [`SeqData`] are ordered as the normal [`SeqMarked`] that they convert to.
pub proof fn lemma_seq_data_order<D: PartialOrd>(a: SeqData<D>, b: SeqData<D>)
    ensures
        PartialOrdSpec::partial_cmp_spec(&a, &b) == PartialOrdSpec::partial_cmp_spec(
            &SeqMarked { seq: a.seq, marked: Marked::Normal(a.data) },
            &SeqMarked { seq: b.seq, marked: Marked::Normal(b.data) },
        ),
{
}

/// Where the order and the equality of the payloads obey the laws of an
/// order (equal means neither less nor greater, less is greater turned round,
/// both are transitive, and equality is symmetric and transitive), so do those
/// of [`Marked`], [`SeqMarked`] and [`SeqData`].
pub proof fn lemma_order_is_lawful<D: PartialOrd>()
    requires
        obeys_partial_cmp_spec_properties::<D>(),
    ensures
        obeys_partial_cmp_spec_properties::<Marked<D>>(),
        obeys_partial_cmp_spec_properties::<SeqMarked<D>>(),
        obeys_partial_cmp_spec_properties::<SeqData<D>>(),
{
    reveal(obeys_partial_cmp_spec_properties);
    reveal(obeys_eq_spec_properties);
}

/// Where any two payloads are comparable, any two values are: the order is total.
pub proof fn lemma_order_is_total<D: PartialOrd>(a: SeqMarked<D>, b: SeqMarked<D>)
    requires
        forall|x: D, y: D| #[trigger] x.partial_cmp_spec(&y) is Some,
    ensures
        PartialOrdSpec::partial_cmp_spec(&a, &b) is Some,
        is_before(a, b) || is_after(a, b) || PartialOrdSpec::partial_cmp_spec(&a, &b) == Some(
            Ordering::Equal,
        ),
{
}

/// A tombstone reads as sequence number 0 to an application and keeps its
/// sequence number inside the store; a normal value has the same number in both.
pub proof fn lemma_user_seq<D>(a: SeqMarked<D>)
    ensures
        a.is_tombstone() ==> a.user_seq() == 0,
        a.is_normal() ==> a.user_seq() == a.seq,
        a.internal_seq().seq == a.seq,
{
}

/// Only the tombstone at sequence number 0 is the absent state.
pub proof fn lemma_absent<D>(a: SeqMarked<D>)
    ensures
        a.is_absent() <==> a == (SeqMarked::<D> { seq: 0, marked: Marked::TombStone }),
        a.is_not_found() == a.is_absent(),
        a.is_absent() ==> a.user_seq() == 0 && a.rank() == 1,
{
}

} // verus!
