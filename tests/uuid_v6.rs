use fluuid::{new_v6, Context, GenError, Timestamp};

fn hyphenated(u: &fluuid::Uuid) -> String {
    uuid::Uuid::from_bytes(*u.as_bytes()).to_hyphenated().to_string()
}

#[test]
fn test_new_v6() {
    let time: u64 = 1_496_854_535;
    let time_fraction: u32 = 812_946_000;
    let node = [1, 2, 3, 4, 5, 6];
    let mut context = Context::new(0);

    {
        let uuid = new_v6(Timestamp::from_unix(&mut context, time, time_fraction), &node).unwrap();

        assert_eq!(uuid.as_bytes()[6] >> 4, 6);
        assert_eq!(hyphenated(&uuid), "1e74ba22-0616-6934-8000-010203040506");
    };

    {
        let uuid2 = new_v6(Timestamp::from_unix(&mut context, time, time_fraction), &node).unwrap();

        assert_eq!(hyphenated(&uuid2), "1e74ba22-0616-6934-8001-010203040506");
    };
}

#[test]
fn from_unix_ticks_and_counter() {
    let mut context = Context::new(7);
    let ts = Timestamp::from_unix(&mut context, 1_496_854_535, 812_946_000);
    assert_eq!(ts.to_rfc4122(), (0x01E7_4BA2_2061_6934, 7));
    let ts = Timestamp::from_unix(&mut context, 0, 0);
    assert_eq!(ts.to_rfc4122(), (0x01B2_1DD2_1381_4000, 8));
}

#[test]
fn counter_wraps() {
    let mut context = Context::new(u16::MAX);
    assert_eq!(context.next(), u16::MAX);
    assert_eq!(context.next(), 0);
    assert_eq!(context.next(), 1);
}

#[test]
fn new_v6_refuses_short_and_long_nodes() {
    let ts = Timestamp::from_rfc4122(0, 0);
    assert_eq!(
        new_v6(ts, &[1, 2, 3, 4, 5]),
        Err(GenError::InvalidNodeLength { expected: 6, got: 5 })
    );
    assert_eq!(
        new_v6(ts, &[1, 2, 3, 4, 5, 6, 7]),
        Err(GenError::InvalidNodeLength { expected: 6, got: 7 })
    );
    assert_eq!(new_v6(ts, &[]), Err(GenError::InvalidNodeLength { expected: 6, got: 0 }));
}

#[test]
fn new_v6_truncates_counter_to_fourteen_bits() {
    let node = [0xAA, 0xBB, 0xCC, 0xDD, 0xEE, 0xFF];
    let uuid = new_v6(Timestamp::from_rfc4122(0x0FFF_FFFF_FFFF_FFFF, 0xFFFF), &node).unwrap();
    assert_eq!(hyphenated(&uuid), "ffffffff-ffff-6fff-bfff-aabbccddeeff");
    let uuid = new_v6(Timestamp::from_rfc4122(0, 0x4001), &node).unwrap();
    assert_eq!(hyphenated(&uuid), "00000000-0000-6000-8001-aabbccddeeff");
}

#[test]
fn new_v6_sorts_by_ticks() {
    let node = [1, 2, 3, 4, 5, 6];
    let a = new_v6(Timestamp::from_rfc4122(0x0123_4567_89AB_CDEF, 9), &node).unwrap();
    let b = new_v6(Timestamp::from_rfc4122(0x0123_4567_89AB_CDF0, 0), &node).unwrap();
    assert!(a.as_bytes() < b.as_bytes());
}
