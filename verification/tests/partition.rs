use abetal::kafka::{partition, NUM_PARTITIONS};
use abetal::uid::Uid;

#[test]
fn test_partition_consistency() {
    let key = Uid::new(uuid::Uuid::new_v4().as_u128());
    let p1 = partition(key);
    let p2 = partition(key);
    assert_eq!(p1, p2, "Partitioning should be consistent for the same key");
}

#[test]
fn partition_is_in_range() {
    for n in 0u128..50 {
        let p = partition(Uid::new(n * 0x1_0000_0001_u128 + 7));
        assert!(0 <= p && p < NUM_PARTITIONS);
    }
}

#[test]
fn partition_stable_for_fixed_key() {
    let key = Uid::new(0x0123_4567_89ab_cdef_0123_4567_89ab_cdef_u128);
    let first = partition(key);
    for _ in 0..10 {
        assert_eq!(partition(key), first);
    }
}
