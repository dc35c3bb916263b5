use seq_marked::Marked;
use seq_marked::SeqData;
use seq_marked::SeqMarked;
use seq_marked::SeqV;
use std::cmp::Ordering;
use std::cmp::Ordering::Equal;
use std::cmp::Ordering::Greater;
use std::cmp::Ordering::Less;

/// Create a normal `SeqMarked`.
fn norm<D>(seq: u64, d: D) -> SeqMarked<D> {
    SeqMarked::new_normal(seq, d)
}

/// Create a tombstone `SeqMarked`.
fn ts<D>(seq: u64) -> SeqMarked<D> {
    SeqMarked::new_tombstone(seq)
}

/// Create a `SeqData`.
fn data<D>(seq: u64, d: D) -> SeqData<D> {
    SeqData::new(seq, d)
}

#[test]
fn test_seq_marked_is_copy() {
    let seq_marked = SeqMarked::new(5, Marked::Normal("data"));
    let seq_marked_copy = seq_marked;
    assert_eq!(seq_marked, seq_marked_copy);
}

#[test]
fn test_seq_data_is_copy() {
    let seq_marked = SeqData::new(5, "data");
    let seq_marked_copy = seq_marked;
    assert_eq!(seq_marked, seq_marked_copy);
}

#[test]
fn mod_test_new() {
    // SeqMarked
    let seq_marked = SeqMarked::new(5, Marked::Normal("data"));
    assert_eq!(seq_marked.seq, 5);
    assert_eq!(seq_marked.marked, Marked::Normal("data"));

    // SeqData
    let seq_marked = SeqData::new(5, "data");
    assert_eq!(seq_marked.seq, 5);
    assert_eq!(seq_marked.data, "data");

    // SeqV
    let sv = SeqV::<(), _>::new(42, 100u64);
    assert_eq!(sv.seq, 42);
    assert_eq!(sv.meta, None);
    assert_eq!(sv.data, 100);
}

#[test]
fn mod_test_map() {
    // SeqMarked
    let a = norm(1, 1u64);
    assert_eq!(norm(1, 2u32), a.map(|x| (x * 2) as u32));

    let a = ts::<u64>(1);
    assert_eq!(ts::<u32>(1), a.map(|x| (x * 2) as u32));

    // SeqData
    let a = data(1, 1u64);
    assert_eq!(data(1, 2u32), a.map(|x| (x * 2) as u32));

    // SeqV
    let sv = SeqV::new_with_meta(10, Some("meta"), 5u64);
    let mapped = sv.map(|x| x * 2);

    assert_eq!(mapped.seq, 10);
    assert_eq!(mapped.meta, Some("meta"));
    assert_eq!(mapped.data, 10u64);
}

#[test]
fn mod_test_as_ref() {
    // SeqMarked
    let a = norm(1, 1u64);
    assert_eq!(norm(1, &1u64), a.as_ref());

    let a = ts::<u64>(1);
    assert_eq!(ts::<&u64>(1), a.as_ref());

    // SeqData
    let a = data(1, 1u64);
    assert_eq!(data(1, &1u64), a.as_ref());
}

#[test]
fn mod_test_order_key() {
    // SeqMarked
    assert!(norm(1, 1u64).order_key() == norm(1, 1u64).order_key());
    assert!(norm(1, 2u64).order_key() == norm(1, 1u64).order_key());
    assert!(norm(2, 2u64).order_key() > norm(1, 1u64).order_key());

    assert!(ts::<u64>(1).order_key() > norm(1, 1u64).order_key());
    assert!(ts::<u64>(2).order_key() > norm(1, 1u64).order_key());

    assert!(ts::<u64>(2).order_key() > ts::<u64>(1).order_key());
    assert!(ts::<u64>(1).order_key() == ts::<u64>(1).order_key());

    // SeqData
    assert!(data(1, 1u64).order_key() == data(1, 1u64).order_key());
    assert!(data(1, 2u64).order_key() == data(1, 1u64).order_key());
    assert!(data(2, 2u64).order_key() > data(1, 1u64).order_key());

    assert!(ts::<u64>(1).order_key() > data(1, 1u64).order_key());
    assert!(ts::<u64>(2).order_key() > data(1, 1u64).order_key());
}

#[test]
fn mod_test_partial_ord() {
    fn pcmp<D: PartialOrd>(a: &SeqMarked<D>, b: &SeqMarked<D>) -> Option<Ordering> {
        PartialOrd::partial_cmp(a, b)
    }

    // normal vs normal, with the same data

    assert_eq!(Some(Greater), pcmp(&norm(2, 2u64), &norm(1, 2u64)));
    assert_eq!(Some(Equal), pcmp(&norm(2, 2u64), &norm(2, 2u64)));
    assert_eq!(Some(Less), pcmp(&norm(2, 2u64), &norm(3, 2u64)));

    // normal vs normal, same seq, different value

    assert_eq!(Some(Greater), pcmp(&norm(2, 2u64), &norm(2, 1u64)));
    assert_eq!(Some(Equal), pcmp(&norm(2, 2u64), &norm(2, 2u64)));
    assert_eq!(Some(Less), pcmp(&norm(2, 2u64), &norm(2, 3u64)));

    // normal vs tombstone

    assert_eq!(Some(Greater), pcmp(&norm(2, 2u64), &ts(1)));
    assert_eq!(
        Some(Less),
        pcmp(&norm(2, 2u64), &ts(2)),
        "tombstone is greater than a normal with the same seq"
    );
    assert_eq!(Some(Less), pcmp(&norm(2, 2u64), &ts(3)));

    // tombstone vs normal

    assert_eq!(Some(Less), pcmp(&ts(1), &norm(2, 2u64)));
    assert_eq!(
        Some(Greater),
        pcmp(&ts(2), &norm(2, 2u64)),
        "tombstone is greater than a normal with the same seq"
    );
    assert_eq!(Some(Greater), pcmp(&ts(3), &norm(2, 2u64)));

    // tombstone vs tombstone

    assert_eq!(Some(Greater), pcmp(&ts::<()>(2), &ts(1)));
    assert_eq!(Some(Equal), pcmp(&ts::<()>(2), &ts(2)));
    assert_eq!(Some(Less), pcmp(&ts::<()>(2), &ts(3)));

    // SeqData

    fn dcmp<D: PartialOrd>(a: &SeqData<D>, b: &SeqData<D>) -> Option<Ordering> {
        PartialOrd::partial_cmp(a, b)
    }

    // same data

    assert_eq!(Some(Greater), dcmp(&data(2, 2u64), &data(1, 2u64)));
    assert_eq!(Some(Equal), dcmp(&data(2, 2u64), &data(2, 2u64)));
    assert_eq!(Some(Less), dcmp(&data(2, 2u64), &data(3, 2u64)));

    // same seq, different value

    assert_eq!(Some(Greater), dcmp(&data(2, 2u64), &data(2, 1u64)));
    assert_eq!(Some(Equal), dcmp(&data(2, 2u64), &data(2, 2u64)));
    assert_eq!(Some(Less), dcmp(&data(2, 2u64), &data(2, 3u64)));
}

#[test]
fn test_ord_operator() {
    // normal vs normal, with the same data

    assert!(norm(2, 2u64) > norm(1, 2u64));
    assert!(norm(2, 2u64) >= norm(1, 2u64));
    assert!(norm(2, 2u64) == norm(2, 2u64));
    assert!(norm(2, 2u64) <= norm(3, 2u64));
    assert!(norm(2, 2u64) < norm(3, 2u64));

    // normal vs normal, same seq, different value

    assert!(norm(2, 2u64) > norm(2, 1u64));
    assert!(norm(2, 2u64) >= norm(2, 1u64));
    assert!(norm(2, 2u64) == norm(2, 2u64));
    assert!(norm(2, 2u64) <= norm(2, 3u64));
    assert!(norm(2, 2u64) < norm(2, 3u64));

    // normal vs tombstone

    assert!(norm(2, 2u64) > ts(1));
    assert!(norm(2, 2u64) >= ts(1));
    assert!(
        norm(2, 2u64) < ts(2),
        "tombstone is greater than a normal with the same seq"
    );
    assert!(
        norm(2, 2u64) <= ts(2),
        "tombstone is greater than a normal with the same seq"
    );
    assert!(norm(2, 2u64) < ts(3));
    assert!(norm(2, 2u64) <= ts(3));

    // tombstone vs normal

    assert!(ts(1) < norm(2, 2u64));
    assert!(ts(1) <= norm(2, 2u64));
    assert!(
        ts(2) > norm(2, 2u64),
        "tombstone is greater than a normal with the same seq"
    );
    assert!(
        ts(2) >= norm(2, 2u64),
        "tombstone is greater than a normal with the same seq"
    );
    assert!(ts(3) > norm(2, 2u64));
    assert!(ts(3) >= norm(2, 2u64));

    // tombstone vs tombstone

    assert!(ts::<()>(2) > ts(1));
    assert!(ts::<()>(2) >= ts(1));
    assert!(ts::<()>(2) >= ts(2));
    assert!(ts::<()>(2) == ts(2));
    assert!(ts::<()>(2) <= ts(2));
    assert!(ts::<()>(2) <= ts(3));
    assert!(ts::<()>(2) < ts(3));
}

#[test]
fn test_new_absent() {
    let absent = SeqMarked::<u64>::new_not_found();
    assert_eq!(absent.seq, 0);
    assert!(absent.is_tombstone());
}

#[test]
fn test_seq_data_order_key() {
    let a = SeqData::new(1, "data1");

    assert_eq!(a.order_key(), SeqMarked::new_normal(1, ()));
}

#[test]
fn mod_test_max() {
    // SeqMarked
    assert_eq!(
        SeqMarked::<u64>::new_normal(2, 1),
        SeqMarked::<u64>::max(
            SeqMarked::<u64>::new_normal(1, 1),
            SeqMarked::<u64>::new_normal(2, 1)
        )
    );
    assert_eq!(
        SeqMarked::<u64>::new_normal(2, 1),
        SeqMarked::<u64>::max(
            SeqMarked::<u64>::new_normal(1, 2),
            SeqMarked::<u64>::new_normal(2, 1)
        )
    );
    assert_eq!(
        SeqMarked::<u64>::new_tombstone(2),
        SeqMarked::<u64>::max(
            SeqMarked::<u64>::new_normal(2, 1),
            SeqMarked::<u64>::new_tombstone(2)
        )
    );
    assert_eq!(
        SeqMarked::<u64>::new_tombstone(2),
        SeqMarked::<u64>::max(
            SeqMarked::<u64>::new_tombstone(1),
            SeqMarked::<u64>::new_tombstone(2)
        )
    );

    // SeqData
    assert_eq!(
        SeqData::<u64>::new(2, 1),
        SeqData::<u64>::max(SeqData::<u64>::new(1, 1), SeqData::<u64>::new(2, 1))
    );
    assert_eq!(
        SeqData::<u64>::new(2, 1),
        SeqData::<u64>::max(SeqData::<u64>::new(1, 2), SeqData::<u64>::new(2, 1))
    );
}

#[test]
fn mod_test_max_ref() {
    // SeqMarked
    let m1 = SeqMarked::new_normal(1, 2);
    let m2 = SeqMarked::new_normal(3, 2);
    let m3 = SeqMarked::new_tombstone(2);

    assert_eq!(SeqMarked::max_ref(&m1, &m2), &m2);
    assert_eq!(SeqMarked::max_ref(&m1, &m3), &m3);
    assert_eq!(SeqMarked::max_ref(&m2, &m3), &m2);

    assert_eq!(SeqMarked::max_ref(&m1, &m1), &m1);
    assert_eq!(SeqMarked::max_ref(&m2, &m2), &m2);
    assert_eq!(SeqMarked::max_ref(&m3, &m3), &m3);

    // SeqData
    let m1 = SeqData::new(1, 2);
    let m2 = SeqData::new(3, 2);

    assert_eq!(SeqData::max_ref(&m1, &m2), &m2);

    assert_eq!(SeqData::max_ref(&m1, &m1), &m1);
    assert_eq!(SeqData::max_ref(&m2, &m2), &m2);
}

#[test]
fn test_is_not_found() {
    assert!(SeqMarked::<u64>::new_not_found().is_not_found());
    assert!(SeqMarked::<u64>::new_tombstone(0).is_not_found());
    assert!(!SeqMarked::<u64>::new_tombstone(1).is_not_found());
    assert!(!SeqMarked::<u64>::new_normal(1, 1).is_not_found());
}

#[test]
fn mod_test_into_parts() {
    // SeqMarked
    let seq_marked = SeqMarked::new_normal(5, "data");
    let (seq, marked) = seq_marked.into_parts();
    assert_eq!(seq, 5);
    assert_eq!(marked, Marked::Normal("data"));

    // SeqData
    let seq_marked = SeqData::new(5, "data");
    let (seq, marked) = seq_marked.into_parts();
    assert_eq!(seq, 5);
    assert_eq!(marked, "data");
}

#[test]
fn mod_test_internal_seq() {
    // SeqMarked
    let seq_marked = SeqMarked::new_normal(5, "data");
    assert_eq!(*seq_marked.internal_seq(), 5);

    let seq_marked_tombstone = SeqMarked::<u64>::new_tombstone(10);
    assert_eq!(*seq_marked_tombstone.internal_seq(), 10);

    // SeqData
    let seq_marked = SeqData::new(5, "data");
    assert_eq!(*seq_marked.internal_seq(), 5);
}

#[test]
fn mod_test_user_seq() {
    // SeqMarked
    let seq_marked = SeqMarked::new_normal(5, "data");
    assert_eq!(seq_marked.user_seq(), 5);

    let seq_marked_tombstone = SeqMarked::<u64>::new_tombstone(10);
    assert_eq!(seq_marked_tombstone.user_seq(), 0);

    // SeqData
    let seq_marked = SeqData::new(5, "data");
    assert_eq!(seq_marked.user_seq(), 5);
}

#[test]
fn mod_test_display_with_debug() {
    // SeqMarked
    let seq_marked = SeqMarked::new_normal(5, "data");
    assert_eq!(seq_marked.display_with_debug(), "{seq: 5, (\"data\")}");

    // SeqData
    let seq_marked = SeqData::new(5, "data");
    assert_eq!(seq_marked.display_with_debug(), "{seq: 5, (\"data\")}");
}

#[test]
fn test_display_with_debug_tombstone() {
    let seq_marked = SeqMarked::<u64>::new_tombstone(5);
    assert_eq!(seq_marked.display_with_debug(), "{seq: 5, TOMBSTONE}");
}

#[test]
fn test_zero() {
    let zero = SeqMarked::<()>::zero();
    assert_eq!(zero.seq, 0);
    assert_eq!(zero.marked, Marked::Normal(()));
}

#[test]
fn order_key_test_max() {
    let max = SeqMarked::<()>::max_value();
    assert_eq!(max.seq, u64::MAX);
    assert!(max.is_tombstone());
}

#[test]
fn test_cloned() {
    let a = &1u64;
    let seq_marked = SeqMarked::<&u64>::new_normal(1, a);
    let cloned = seq_marked.cloned();
    assert_eq!(cloned.seq, 1);
    assert_eq!(cloned.marked, Marked::Normal(1));
}

#[test]
fn test_new_with_meta() {
    let sv = SeqV::new_with_meta(10, Some("metadata"), 200u64);
    assert_eq!(sv.seq, 10);
    assert_eq!(sv.meta, Some("metadata"));
    assert_eq!(sv.data, 200);

    let sv_none = SeqV::new_with_meta(5, None::<String>, 300u64);
    assert_eq!(sv_none.meta, None);
}

#[test]
fn test_builder_methods() {
    let sv = SeqV::new(1, 100u64).with_seq(42).with_meta(Some("test")).with_value(200u64);

    assert_eq!(sv.seq, 42);
    assert_eq!(sv.meta, Some("test"));
    assert_eq!(sv.data, 200);
}

#[test]
fn test_try_map_success() {
    let sv = SeqV::new_with_meta(20, Some("meta"), "123");
    let result = sv.try_map(|s| s.parse::<u64>());

    assert!(result.is_ok());
    let mapped = result.unwrap();
    assert_eq!(mapped.seq, 20);
    assert_eq!(mapped.meta, Some("meta"));
    assert_eq!(mapped.data, 123u64);
}

#[test]
fn test_try_map_error() {
    let sv = SeqV::<(), _>::new(30, "invalid");
    let result = sv.try_map(|s| s.parse::<u64>());

    assert!(result.is_err());
}

#[test]
fn test_deref() {
    let sv = SeqV::<(), _>::new(1, vec![1, 2, 3]);
    assert_eq!(sv.len(), 3);
    assert_eq!(sv[0], 1);
}

#[test]
fn test_deref_mut() {
    let mut sv = SeqV::<(), _>::new(1, vec![1, 2, 3]);
    sv[0] = 10;
    assert_eq!(sv.data[0], 10);
}

#[test]
fn test_default() {
    let sv = SeqV::<String, u64>::default();
    assert_eq!(sv.seq, 0);
    assert_eq!(sv.meta, None);
    assert_eq!(sv.data, 0);
}

#[test]
fn test_debug() {
    let sv = SeqV::new_with_meta(42, Some("test"), vec![1, 2, 3]);
    assert_eq!(
        "SeqV { seq: 42, meta: Some(\"test\"), data: \"[binary]\" }",
        sv.debug_string()
    );
}

#[test]
fn test_clone_eq() {
    let sv1 = SeqV::new_with_meta(10, Some("meta"), 100u64);
    let sv2 = sv1.clone();
    assert!(sv1 == sv2);
}
