//! Conversions between the value shapes.
//!
//! Every conversion keeps the sequence number and the presence. Where the
//! target has no tombstone state, a tombstone converts to `None`.

use crate::marked::Marked;
use crate::seq_data::SeqData;
use crate::seq_marked::SeqMarked;
use crate::seqv::SeqV;
use vstd::prelude::*;
use vstd::std_specs::convert::FromSpec;

verus! {

impl<D> vstd::std_specs::convert::FromSpecImpl<SeqMarked<D>> for Option<SeqData<D>> {
    open spec fn obeys_from_spec() -> bool {
        true
    }

    open spec fn from_spec(value: SeqMarked<D>) -> Option<SeqData<D>> {
        match value.marked {
            Marked::TombStone => None,
            Marked::Normal(d) => Some(SeqData { seq: value.seq, data: d }),
        }
    }
}

impl<D> From<SeqMarked<D>> for Option<SeqData<D>> {
    /// A tombstone converts to `None`, a normal value to `Some` at the same sequence number.
    fn from(value: SeqMarked<D>) -> (r: Option<SeqData<D>>) {
        let (seq, marked) = value.into_parts();
        match marked {
            Marked::TombStone => None,
            Marked::Normal(d) => Some(SeqData::new(seq, d)),
        }
    }
}

impl<M, T> vstd::std_specs::convert::FromSpecImpl<SeqV<M, T>> for SeqData<(Option<M>, T)> {
    open spec fn obeys_from_spec() -> bool {
        true
    }

    open spec fn from_spec(value: SeqV<M, T>) -> SeqData<(Option<M>, T)> {
        SeqData { seq: value.seq, data: (value.meta, value.data) }
    }
}

impl<M, T> From<SeqV<M, T>> for SeqData<(Option<M>, T)> {
    fn from(value: SeqV<M, T>) -> (r: SeqData<(Option<M>, T)>) {
        SeqData::new(value.seq, (value.meta, value.data))
    }
}

impl<D> vstd::std_specs::convert::FromSpecImpl<SeqData<D>> for SeqMarked<D> {
    open spec fn obeys_from_spec() -> bool {
        true
    }

    open spec fn from_spec(value: SeqData<D>) -> SeqMarked<D> {
        SeqMarked { seq: value.seq, marked: Marked::Normal(value.data) }
    }
}

impl<D> From<SeqData<D>> for SeqMarked<D> {
    /// The result is always a normal value.
    fn from(value: SeqData<D>) -> (r: SeqMarked<D>) {
        let (seq, data) = value.into_parts();
        SeqMarked::new_normal(seq, data)
    }
}

impl<M, T> vstd::std_specs::convert::FromSpecImpl<SeqV<M, T>> for SeqMarked<(Option<M>, T)> {
    open spec fn obeys_from_spec() -> bool {
        true
    }

    open spec fn from_spec(value: SeqV<M, T>) -> SeqMarked<(Option<M>, T)> {
        SeqMarked { seq: value.seq, marked: Marked::Normal((value.meta, value.data)) }
    }
}

impl<M, T> From<SeqV<M, T>> for SeqMarked<(Option<M>, T)> {
    /// The result is always a normal value.
    fn from(value: SeqV<M, T>) -> (r: SeqMarked<(Option<M>, T)>) {
        SeqMarked::new_normal(value.seq, (value.meta, value.data))
    }
}

impl<M, T> vstd::std_specs::convert::FromSpecImpl<SeqData<(Option<M>, T)>> for SeqV<M, T> {
    open spec fn obeys_from_spec() -> bool {
        true
    }

    open spec fn from_spec(value: SeqData<(Option<M>, T)>) -> SeqV<M, T> {
        SeqV { seq: value.seq, meta: value.data.0, data: value.data.1 }
    }
}

impl<M, T> From<SeqData<(Option<M>, T)>> for SeqV<M, T> {
    fn from(value: SeqData<(Option<M>, T)>) -> (r: SeqV<M, T>) {
        let (seq, (meta, v)) = value.into_parts();
        SeqV::new_with_meta(seq, meta, v)
    }
}

impl<M, T> vstd::std_specs::convert::FromSpecImpl<SeqMarked<(Option<M>, T)>> for Option<SeqV<M, T>> {
    open spec fn obeys_from_spec() -> bool {
        true
    }

    open spec fn from_spec(value: SeqMarked<(Option<M>, T)>) -> Option<SeqV<M, T>> {
        match value.marked {
            Marked::TombStone => None,
            Marked::Normal(d) => Some(SeqV { seq: value.seq, meta: d.0, data: d.1 }),
        }
    }
}

impl<M, T> From<SeqMarked<(Option<M>, T)>> for Option<SeqV<M, T>> {
    /// A tombstone converts to `None`; its sequence number is dropped.
    fn from(value: SeqMarked<(Option<M>, T)>) -> (r: Option<SeqV<M, T>>) {
        let (seq, marked) = value.into_parts();
        match marked {
            Marked::TombStone => None,
            Marked::Normal((meta, v)) => Some(SeqV::new_with_meta(seq, meta, v)),
        }
    }
}

/// A normal value converted to a [`SeqData`] and back is the value it was.
/// A tombstone has no [`SeqData`]: it converts to `None`, and nothing converts back.
pub proof fn lemma_seq_data_round_trip<D>(value: SeqMarked<D>)
    ensures
        value.marked is Normal ==> {
            let there = <Option<SeqData<D>> as FromSpec<SeqMarked<D>>>::from_spec(value);
            &&& there is Some
            &&& <SeqMarked<D> as FromSpec<SeqData<D>>>::from_spec(there->Some_0) == value
        },
        value.marked is TombStone ==> <Option<SeqData<D>> as FromSpec<
            SeqMarked<D>,
        >>::from_spec(value) is None,
{
}

/// A [`SeqData`] converted to a [`SeqMarked`] and back is the value it was.
pub proof fn lemma_seq_marked_round_trip<D>(value: SeqData<D>)
    ensures
        <Option<SeqData<D>> as FromSpec<SeqMarked<D>>>::from_spec(
            <SeqMarked<D> as FromSpec<SeqData<D>>>::from_spec(value),
        ) == Some(value),
{
}

/// A [`SeqV`] converted to a [`SeqMarked`] and back is the value it was, and a
/// normal [`SeqMarked`] of metadata and value converted to a [`SeqV`] and back
/// is the value it was.
pub proof fn lemma_seqv_round_trip<M, T>(v: SeqV<M, T>, value: SeqMarked<(Option<M>, T)>)
    ensures
        <Option<SeqV<M, T>> as FromSpec<SeqMarked<(Option<M>, T)>>>::from_spec(
            <SeqMarked<(Option<M>, T)> as FromSpec<SeqV<M, T>>>::from_spec(v),
        ) == Some(v),
        value.marked is Normal ==> {
            let there = <Option<SeqV<M, T>> as FromSpec<SeqMarked<(Option<M>, T)>>>::from_spec(
                value,
            );
            &&& there is Some
            &&& <SeqMarked<(Option<M>, T)> as FromSpec<SeqV<M, T>>>::from_spec(there->Some_0)
                == value
        },
{
}

/// Every conversion keeps the sequence number and the presence: the order key
/// of the result is that of the value converted, and a [`SeqV`] is a normal
/// value at its sequence number.
pub proof fn lemma_conversions_keep_order_key<D, M, T>(
    data: SeqData<D>,
    marked: SeqMarked<D>,
    v: SeqV<M, T>,
)
    ensures
        <SeqMarked<D> as FromSpec<SeqData<D>>>::from_spec(data).spec_order_key()
            == data.spec_order_key(),
        marked.marked is Normal ==> <Option<SeqData<D>> as FromSpec<SeqMarked<D>>>::from_spec(
            marked,
        )->Some_0.spec_order_key() == marked.spec_order_key(),
        <SeqMarked<(Option<M>, T)> as FromSpec<SeqV<M, T>>>::from_spec(v).spec_order_key() == (
        SeqMarked { seq: v.seq, marked: Marked::Normal(()) }),
        <SeqData<(Option<M>, T)> as FromSpec<SeqV<M, T>>>::from_spec(v).spec_order_key() == (
        SeqMarked { seq: v.seq, marked: Marked::Normal(()) }),
{
}

/// A [`SeqMarked`] of metadata and value reads as the `Option<SeqV>` that it
/// converts to, and a [`SeqV`] reads as the [`SeqMarked`] that it converts to.
pub proof fn lemma_conversions_keep_what_is_read<M, T>(
    marked: SeqMarked<(Option<M>, T)>,
    v: SeqV<M, T>,
)
    ensures
        SeqV::spec_read(
            <Option<SeqV<M, T>> as FromSpec<SeqMarked<(Option<M>, T)>>>::from_spec(marked),
        ) == marked.spec_read(),
        <SeqMarked<(Option<M>, T)> as FromSpec<SeqV<M, T>>>::from_spec(v).spec_read()
            == SeqV::spec_read(Some(v)),
{
}

} // verus!
