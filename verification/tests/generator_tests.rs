use snowberry::Snowberry;
use snowberry::SnowberryError;
use snowberry::HARVESTED_COUNT_BITS;
use snowberry::MAX_SEED;
use snowberry::MAX_SOIL;
use std::collections::HashSet;
use std::time::SystemTime;
use std::time::UNIX_EPOCH;

fn now_ms() -> i64 {
    SystemTime::now()
        .duration_since(UNIX_EPOCH)
        .expect("failed to generate unix time from SystemTime")
        .as_millis() as i64
}

#[test]
fn it_works() {
    let mut s = Snowberry::new(30, 13).unwrap();
    let id = s.harvest_from_time(now_ms()).unwrap();
    assert!(0 < id, "{}", id);
}

#[test]
fn harvest_generates_uniq_berry() {
    let mut ids = HashSet::new();
    let base = 1_700_000_000_000;
    for seed in 0..MAX_SEED {
        for soil in 0..MAX_SOIL {
            let mut s = Snowberry::new(seed, soil).unwrap();

            for t in 0..5 {
                let id = s.harvest_from_time(base + 1 + t).unwrap();
                assert!(0 < id, "{}", id);
                assert!(
                    !ids.contains(&id),
                    "failed to gen uniq at count: {}, id: {}",
                    t,
                    id
                );
                ids.insert(id);
            }
        }
    }
}

#[test]
fn harvest_from_time_generates_uniq_berry() {
    let mut ids = HashSet::new();
    let now = now_ms();
    let mut s = Snowberry::new(0, 0).unwrap();

    for t in 0..(1 << HARVESTED_COUNT_BITS) {
        let id = s.harvest_from_time(now).unwrap();

        assert!(0 < id, "{}", id);
        assert!(
            !ids.contains(&id),
            "failed to gen uniq at count: {}, id: {}",
            t,
            id
        );
        ids.insert(id);
    }
}

#[test]
fn new_rejects_identities_outside_their_bit_widths() {
    assert_eq!(Snowberry::new(-1, 0).unwrap_err(), SnowberryError::Configuration);
    assert_eq!(Snowberry::new(32, 0).unwrap_err(), SnowberryError::Configuration);
    assert_eq!(Snowberry::new(0, -1).unwrap_err(), SnowberryError::Configuration);
    assert_eq!(Snowberry::new(0, 32).unwrap_err(), SnowberryError::Configuration);
    assert!(Snowberry::new(0, 0).is_ok());
    assert!(Snowberry::new(31, 31).is_ok());
}

#[test]
fn exhaustion_after_full_millisecond() {
    let t = 1_700_000_000_000;
    let mut s = Snowberry::new(1, 2).unwrap();
    for _ in 0..4096 {
        assert!(s.harvest_from_time(t).is_ok());
    }
    assert_eq!(
        s.harvest_from_time(t).unwrap_err(),
        SnowberryError::SequenceExhausted
    );
    // The next millisecond starts a fresh count even after exhaustion.
    let id = s.harvest_from_time(t + 1).unwrap();
    let (_, _, _, count) = snowberry::decode_id(id);
    assert_eq!(count, 0);
}

#[test]
fn generator_state_is_observable() {
    let mut s = Snowberry::new(7, 9).unwrap();
    assert_eq!(s.seed(), 7);
    assert_eq!(s.soil(), 9);
    assert_eq!(s.harvested_count(), 0);
    assert_eq!(s.last_harvested_at(), 0);
    s.harvest_from_time(55).unwrap();
    assert_eq!(s.last_harvested_at(), 55);
    assert_eq!(s.harvested_count(), 0);
    s.harvest_from_time(55).unwrap();
    assert_eq!(s.harvested_count(), 1);
}

#[test]
fn ids_increase_with_time_and_count() {
    let mut s = Snowberry::new(3, 4).unwrap();
    let times = [10, 10, 10, 11, 15, 15, 99];
    let mut last_id = 0;
    for &t in times.iter() {
        let id = s.harvest_from_time(t).unwrap();
        assert!(last_id < id);
        last_id = id;
    }
}

#[test]
fn five_consecutive_mints_embed_counts_zero_to_four() {
    let t = 1_700_000_000_000;
    let mut s = Snowberry::new(30, 13).unwrap();
    let mut ids = Vec::new();
    for _ in 0..5 {
        ids.push(s.harvest_from_time(t).unwrap());
    }
    for (k, &id) in ids.iter().enumerate() {
        let (dt, dseed, dsoil, dcount) = snowberry::decode_id(id);
        assert_eq!(dt, t);
        assert_eq!(dseed, 30);
        assert_eq!(dsoil, 13);
        assert_eq!(dcount, k as i64);
    }
    assert_eq!(ids[0], 7130316800003985408);
    assert_eq!(ids[4], 7130316800003985412);
    // A sixth mint at the same millisecond continues to count 5: not exhausted.
    let sixth = s.harvest_from_time(t).unwrap();
    let (_, _, _, dcount) = snowberry::decode_id(sixth);
    assert_eq!(dcount, 5);
}
