use seq_marked::Expirable;
use seq_marked::SeqValue;

#[derive(Debug, Clone, Copy, PartialEq, Eq)]
struct ExpirableImpl {
    expires_at_ms: Option<u64>,
}

impl Expirable for ExpirableImpl {
    fn expires_at_ms_opt(&self) -> Option<u64> {
        self.expires_at_ms
    }
}

#[derive(Debug, Clone, Copy, PartialEq, Eq)]
struct SeqValueImpl {
    seq: u64,
    value: Option<u64>,
    meta: Option<ExpirableImpl>,
}

impl SeqValue<ExpirableImpl, u64> for SeqValueImpl {
    fn seq(&self) -> u64 {
        self.seq
    }

    fn value(&self) -> Option<&u64> {
        self.value.as_ref()
    }

    fn into_value(self) -> Option<u64> {
        self.value
    }

    fn meta(&self) -> Option<&ExpirableImpl> {
        self.meta.as_ref()
    }
}

#[test]
fn test_expirable() {
    let e1 = ExpirableImpl {
        expires_at_ms: Some(1),
    };
    assert_eq!(e1.expires_at_ms_opt(), Some(1));
    assert_eq!(e1.expires_at_ms(), 1);

    let e2 = ExpirableImpl {
        expires_at_ms: None,
    };
    assert_eq!(e2.expires_at_ms_opt(), None);
    assert_eq!(e2.expires_at_ms(), u64::MAX);

    // Test with a reference

    {
        let e1_ref = &e1;
        assert_eq!(e1_ref.expires_at_ms_opt(), Some(1));
        assert_eq!(e1_ref.expires_at_ms(), 1);
    }

    {
        let e2_ref = &e2;
        assert_eq!(e2_ref.expires_at_ms_opt(), None);
        assert_eq!(e2_ref.expires_at_ms(), u64::MAX);
    }

    // Test with Option

    {
        let e1_opt = Some(e1);
        assert_eq!(e1_opt.expires_at_ms_opt(), Some(1));
        assert_eq!(e1_opt.expires_at_ms(), 1);
    }

    {
        let e1_opt = None::<ExpirableImpl>;
        assert_eq!(e1_opt.expires_at_ms_opt(), None);
        assert_eq!(e1_opt.expires_at_ms(), u64::MAX);
    }

    {
        let e2_opt = Some(e1);
        assert_eq!(e2_opt.expires_at_ms_opt(), Some(1));
        assert_eq!(e2_opt.expires_at_ms(), 1);
    }
}

#[test]
fn test_expirable_through_references() {
    let e1 = ExpirableImpl {
        expires_at_ms: Some(7),
    };
    let r = &e1;
    assert_eq!(Expirable::expires_at_ms_opt(&r), Some(7));
    assert_eq!(Expirable::expires_at_ms(&r), 7);

    let none = None::<&ExpirableImpl>;
    assert_eq!(Expirable::expires_at_ms_opt(&none), None);
    assert_eq!(Expirable::expires_at_ms(&none), u64::MAX);

    let unset = Some(ExpirableImpl {
        expires_at_ms: None,
    });
    assert_eq!(unset.expires_at_ms_opt(), None);
    assert_eq!(unset.expires_at_ms(), u64::MAX);
}

#[test]
fn test_seq_value_basic() {
    let sv = SeqValueImpl {
        seq: 42,
        value: Some(100),
        meta: None,
    };

    assert_eq!(sv.seq(), 42);
    assert_eq!(sv.value(), Some(&100));
    assert_eq!(sv.meta(), None);

    let (seq, value) = sv.unpack();
    assert_eq!(seq, 42);
    assert_eq!(value, Some(100));
}

#[test]
fn test_seq_value_with_expiration() {
    let sv = SeqValueImpl {
        seq: 1,
        value: Some(200),
        meta: Some(ExpirableImpl {
            expires_at_ms: Some(1000),
        }),
    };

    assert_eq!(sv.expires_at_ms_opt(), Some(1000));
    assert_eq!(sv.expires_at_ms(), 1000);
    assert!(sv.is_expired(1001));
    assert!(!sv.is_expired(999));
}

#[test]
fn test_seq_value_no_expiration() {
    let sv = SeqValueImpl {
        seq: 2,
        value: None,
        meta: Some(ExpirableImpl {
            expires_at_ms: None,
        }),
    };

    assert_eq!(sv.expires_at_ms_opt(), None);
    assert_eq!(sv.expires_at_ms(), u64::MAX);
    assert!(!sv.is_expired(u64::MAX - 1));
}

#[test]
fn test_is_expired_boundary_is_exclusive() {
    let sv = SeqValueImpl {
        seq: 1,
        value: Some(1),
        meta: Some(ExpirableImpl {
            expires_at_ms: Some(1000),
        }),
    };
    assert!(!sv.is_expired(1000));
    assert!(sv.is_expired(1001));

    let no_meta = SeqValueImpl {
        seq: 1,
        value: Some(1),
        meta: None,
    };
    assert_eq!(no_meta.expires_at_ms_opt(), None);
    assert_eq!(no_meta.expires_at_ms(), u64::MAX);
    assert!(!no_meta.is_expired(u64::MAX));
}
