use fluuid::generator::{gen_random_node_id, gen_uuid_nil, gen_uuid_v4, mark_node, uuid_v4_from_random, Generator};
use fluuid::Uuid;

const SECS: u64 = 1_496_854_535;
const NANOS: u32 = 812_946_000;

fn hyphenated(u: &Uuid) -> String {
    uuid::Uuid::from_bytes(*u.as_bytes()).to_hyphenated().to_string()
}

fn clock_seq(u: &Uuid) -> u16 {
    (((u.as_bytes()[8] & 0x3F) as u16) << 8) | u.as_bytes()[9] as u16
}

#[test]
fn v1_has_version_one_and_persisted_node() {
    let mut g = Generator::new(0);
    let u = g.gen_uuid_v1(SECS, NANOS).unwrap();
    let node = g.persisted_node().unwrap();
    assert_eq!(u.as_bytes()[6] >> 4, 1);
    assert_eq!(u.as_bytes()[8] >> 6, 2);
    assert_eq!(&hyphenated(&u)[..23], "20616934-4ba2-11e7-8000");
    assert_eq!(&u.as_bytes()[10..16], &node[..]);
    assert_eq!(node[0] & 1, 1);
    let parsed = uuid::Uuid::from_bytes(*u.as_bytes());
    assert_eq!(parsed.get_version_num(), 1);
    assert_eq!(parsed.get_variant(), Some(uuid::Variant::RFC4122));
}

#[test]
fn v6_has_version_six_and_persisted_node() {
    let mut g = Generator::new(0);
    let u = g.gen_uuid_v6(SECS, NANOS).unwrap();
    let node = g.persisted_node().unwrap();
    assert_eq!(u.as_bytes()[6] >> 4, 6);
    assert_eq!(u.as_bytes()[8] >> 6, 2);
    assert_eq!(&hyphenated(&u)[..23], "1e74ba22-0616-6934-8000");
    assert_eq!(&u.as_bytes()[10..16], &node[..]);
}

#[test]
fn persisted_node_is_kept_across_calls() {
    let mut g = Generator::new(100);
    let a = g.gen_uuid_v6(SECS, NANOS).unwrap();
    let b = g.gen_uuid_v1(SECS, NANOS).unwrap();
    let c = g.gen_uuid_v6(SECS + 1, 0).unwrap();
    assert_eq!(&a.as_bytes()[10..16], &b.as_bytes()[10..16]);
    assert_eq!(&b.as_bytes()[10..16], &c.as_bytes()[10..16]);
    assert_eq!(g.persisted_node().unwrap(), g.persisted_node().unwrap());
}

#[test]
fn random_nodes_differ_and_are_marked() {
    let mut g = Generator::new(0);
    let kept = g.persisted_node().unwrap();
    let a = g.gen_uuid_v6_random_node(SECS, NANOS).unwrap();
    let b = g.gen_uuid_v6_random_node(SECS, NANOS).unwrap();
    let c = g.gen_uuid_v1_random_node(SECS, NANOS).unwrap();
    assert_ne!(&a.as_bytes()[10..16], &b.as_bytes()[10..16]);
    assert_ne!(&a.as_bytes()[10..16], &kept[..]);
    assert_ne!(&c.as_bytes()[10..16], &kept[..]);
    for u in [&a, &b, &c] {
        assert_eq!(u.as_bytes()[10] & 1, 1);
    }
    assert_eq!(c.as_bytes()[6] >> 4, 1);
    assert_eq!(a.as_bytes()[6] >> 4, 6);
    assert_eq!(g.persisted_node().unwrap(), kept);
}

#[test]
fn clock_sequence_moves_on_by_one() {
    let mut g = Generator::new(0x3FFE);
    let a = g.gen_uuid_v1(SECS, NANOS).unwrap();
    let b = g.gen_uuid_v1(SECS, NANOS).unwrap();
    let c = g.gen_uuid_v6_random_node(SECS, NANOS).unwrap();
    assert_eq!(clock_seq(&a), 0x3FFE);
    assert_eq!(clock_seq(&b), 0x3FFF);
    assert_eq!(clock_seq(&c), 0);
}

#[test]
fn clock_sequence_wraps_at_sixteen_bits() {
    let mut g = Generator::new(u16::MAX);
    let a = g.gen_uuid_v6(SECS, NANOS).unwrap();
    let b = g.gen_uuid_v6(SECS, NANOS).unwrap();
    assert_eq!(clock_seq(&a), 0x3FFF);
    assert_eq!(clock_seq(&b), 0);
}

#[test]
fn timestamp_read_back_is_within_a_second_of_now() {
    let now = std::time::SystemTime::now().duration_since(std::time::UNIX_EPOCH).unwrap();
    let mut g = Generator::new(0);
    let u = g.gen_uuid_v1(now.as_secs(), now.subsec_nanos()).unwrap();
    let ts = uuid::Uuid::from_bytes(*u.as_bytes()).to_timestamp().unwrap();
    let later = std::time::SystemTime::now().duration_since(std::time::UNIX_EPOCH).unwrap();
    let diff = later.as_nanos() as u64 - ts.to_unix_nanos();
    assert!(diff <= 1_000_000_000);
}

#[test]
fn v4_has_version_four() {
    let u = gen_uuid_v4().unwrap();
    assert_eq!(u.as_bytes()[6] >> 4, 4);
    assert_eq!(u.as_bytes()[8] >> 6, 2);
    let parsed = uuid::Uuid::from_bytes(*u.as_bytes());
    assert_eq!(parsed.get_version_num(), 4);
    assert_ne!(gen_uuid_v4().unwrap(), u);
}

#[test]
fn v4_tags_random_bytes() {
    let u = uuid_v4_from_random([0xFF; 16]);
    assert_eq!(hyphenated(&u), "ffffffff-ffff-4fff-bfff-ffffffffffff");
    let u = uuid_v4_from_random([0; 16]);
    assert_eq!(hyphenated(&u), "00000000-0000-4000-8000-000000000000");
}

#[test]
fn nil_is_all_zero() {
    let u = gen_uuid_nil();
    assert_eq!(u.as_bytes(), &[0u8; 16]);
    assert_eq!(uuid::Uuid::from_bytes(*u.as_bytes()), uuid::Uuid::nil());
}

#[test]
fn mark_node_sets_low_bit_only() {
    assert_eq!(mark_node([0, 0, 0, 0, 0, 0]), [1, 0, 0, 0, 0, 0]);
    assert_eq!(mark_node([0xFE, 2, 3, 4, 5, 6]), [0xFF, 2, 3, 4, 5, 6]);
    assert_eq!(mark_node([0x11, 2, 3, 4, 5, 6]), [0x11, 2, 3, 4, 5, 6]);
}

#[test]
fn random_node_ids_are_marked_and_differ() {
    let a = gen_random_node_id().unwrap();
    let b = gen_random_node_id().unwrap();
    assert_eq!(a[0] & 1, 1);
    assert_eq!(b[0] & 1, 1);
    assert_ne!(a, b);
}

#[test]
fn uuid_new_keeps_bytes() {
    let bytes = [1, 2, 3, 4, 5, 6, 7, 8, 9, 10, 11, 12, 13, 14, 15, 16];
    assert_eq!(Uuid::new(bytes).as_bytes(), &bytes);
}
