use snowberry::decode_id;
use snowberry::encode_id;
use snowberry::Snowberry;

#[test]
fn encode_places_each_field_in_its_bits() {
    assert_eq!(encode_id(0, 0, 0, 0), 0);
    assert_eq!(encode_id(0, 0, 0, 1), 1);
    assert_eq!(encode_id(0, 0, 1, 0), 0x1000);
    assert_eq!(encode_id(0, 1, 0, 0), 0x2_0000);
    assert_eq!(encode_id(1, 0, 0, 0), 0x40_0000);
    assert_eq!(
        encode_id(1_700_000_000_000, 30, 13, 0),
        7130316800003985408
    );
}

#[test]
fn decode_recovers_every_field() {
    let cases: [(i64, i64, i64, i64); 5] = [
        (0, 0, 0, 0),
        (1, 31, 31, 4095),
        (1_700_000_000_000, 30, 13, 5),
        (0x1ff_ffff_ffff, 0, 31, 0),
        (123_456_789, 17, 3, 2047),
    ];
    for &(t, seed, soil, count) in cases.iter() {
        let id = encode_id(t, seed, soil, count);
        assert_eq!(decode_id(id), (t, seed, soil, count));
    }
}

#[test]
fn distinct_identities_never_collide_at_equal_times() {
    let t = 1_700_000_000_000;
    let mut a = Snowberry::new(30, 13).unwrap();
    let mut b = Snowberry::new(30, 14).unwrap();
    let mut c = Snowberry::new(29, 13).unwrap();
    let id_a = a.harvest_from_time(t).unwrap();
    let id_b = b.harvest_from_time(t).unwrap();
    let id_c = c.harvest_from_time(t).unwrap();
    assert_ne!(id_a, id_b);
    assert_ne!(id_a, id_c);
    assert_ne!(id_b, id_c);
}
