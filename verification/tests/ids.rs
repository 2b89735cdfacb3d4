use cistern::gen_id;
use cistern::ids::{batch_record_ids, compose_local_id, compose_record_id, truncate_millis};
use cistern::stamp::{new_batch_record_ids, new_record_id};
use std::sync::atomic::{AtomicU64, Ordering};

#[test]
fn local_id_packs_millis_above_counter() {
    assert_eq!(compose_local_id(1, 5), 1029);
    assert_eq!(compose_local_id(1, 1005), 1029);
    assert_eq!(compose_local_id(0, 999), 999);
    assert_eq!(compose_local_id(0, 1000), 0);
    assert_eq!(compose_local_id(1_700_000_000_000, 7), (1_700_000_000_000u64 << 10) | 7);
}

#[test]
fn local_id_drops_millis_bits_above_54() {
    assert_eq!(compose_local_id(u64::MAX, 0), 0xFFFF_FFFF_FFFF_FC00);
    assert_eq!(compose_local_id(1u64 << 54, 3), 3);
}

#[test]
fn record_id_packs_stamp_above_salt() {
    assert_eq!(compose_record_id(3, 0xFFFF_FFFF), 3 * 0x40_0000 + 0x3F_FFFF);
    assert_eq!(compose_record_id(0, 0x40_0001), 1);
    assert_eq!(compose_record_id(1u64 << 42, 9), 9);
}

#[test]
fn batch_ids_use_consecutive_stamps() {
    let ids = batch_record_ids(10, &vec![1, 2, 3]);
    assert_eq!(ids, vec![(10u64 << 22) | 1, (11u64 << 22) | 2, (12u64 << 22) | 3]);
}

#[test]
fn batch_ids_wrap_the_stamp() {
    let ids = batch_record_ids(u64::MAX, &vec![1, 2]);
    assert_eq!(ids[0], ((u64::MAX % (1u64 << 42)) << 22) | 1);
    assert_eq!(ids[1], 2);
}

#[test]
fn empty_batch_has_no_ids() {
    assert!(batch_record_ids(5, &Vec::new()).is_empty());
}

#[test]
fn truncation_keeps_low_bits() {
    assert_eq!(truncate_millis(u128::MAX), u64::MAX);
    assert_eq!(truncate_millis((1u128 << 64) + 5), 5);
    assert_eq!(truncate_millis(42), 42);
}

#[test]
fn gen_id_advances_the_counter() {
    let counter = AtomicU64::new(0);
    let first = gen_id(&counter).unwrap();
    let second = gen_id(&counter).unwrap();
    assert_eq!(first % 1024, 0);
    assert_eq!(second % 1024, 1);
    assert_ne!(first, second);
    assert_eq!(counter.load(Ordering::Relaxed), 2);
}

#[test]
fn gen_id_counter_wraps_at_thousand() {
    let counter = AtomicU64::new(999);
    let a = gen_id(&counter).unwrap();
    let b = gen_id(&counter).unwrap();
    assert_eq!(a % 1024, 999);
    assert_eq!(b % 1024, 0);
    assert!(b >> 10 >= a >> 10);
}

#[test]
fn new_record_id_is_some() {
    assert!(new_record_id().is_some());
}

#[test]
fn new_batch_ids_are_distinct_and_consecutive() {
    let ids = new_batch_record_ids(50).unwrap();
    assert_eq!(ids.len(), 50);
    for i in 0..ids.len() {
        for j in 0..ids.len() {
            if i != j {
                assert_ne!(ids[i], ids[j]);
            }
        }
    }
    for i in 1..ids.len() {
        assert_eq!((ids[i] >> 22) % (1u64 << 42), ((ids[0] >> 22) + i as u64) % (1u64 << 42));
    }
}

#[test]
fn later_stamp_gives_larger_record_id() {
    assert!(compose_record_id(5, u32::MAX) < compose_record_id(6, 0));
}

#[test]
fn ids_less_than_thousand_steps_apart_differ() {
    for step in 1..1000u64 {
        assert_ne!(compose_local_id(7, 3), compose_local_id(7, 3 + step));
    }
    assert_eq!(compose_local_id(7, 3), compose_local_id(7, 1003));
}
