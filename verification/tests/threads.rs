use atomic_id::thread::derive_thread_id;
use atomic_id::ThreadSlot;

#[test]
fn thread_id_is_low_seven_bits_plus_one() {
    assert_eq!(derive_thread_id(0), 1);
    assert_eq!(derive_thread_id(1), 2);
    assert_eq!(derive_thread_id(126), 127);
    assert_eq!(derive_thread_id(127), 128);
    assert_eq!(derive_thread_id(128), 1);
    assert_eq!(derive_thread_id(0xFFFF_FFFF_FFFF_FF80), 1);
    assert_eq!(derive_thread_id(u64::MAX), 128);
    assert_eq!(derive_thread_id(0x1234_5678_9ABC_DEF0), 0x70 + 1);
}

#[test]
fn thread_id_is_between_1_and_128() {
    for digest in 0..1000u64 {
        let id = derive_thread_id(digest.wrapping_mul(0x9E37_79B9_7F4A_7C15));
        assert!((1..=128).contains(&id));
    }
}

#[test]
fn a_new_slot_is_empty() {
    let slot = ThreadSlot::new();
    assert!(!slot.is_assigned());
}

#[test]
fn first_call_derives_the_identifier() {
    let mut slot = ThreadSlot::new();
    assert_eq!(slot.thread_id(5), 6);
    assert!(slot.is_assigned());
}

#[test]
fn later_calls_return_the_first_identifier() {
    let mut slot = ThreadSlot::new();
    let first = slot.thread_id(41);
    assert_eq!(first, 42);
    assert_eq!(slot.thread_id(41), 42);
    assert_eq!(slot.thread_id(0), 42);
    assert_eq!(slot.thread_id(u64::MAX), 42);
    assert!(slot.is_assigned());
}

#[test]
fn slots_are_independent() {
    let mut one = ThreadSlot::new();
    let mut other = ThreadSlot::new();
    assert_eq!(one.thread_id(0), 1);
    assert_eq!(other.thread_id(127), 128);
    assert_eq!(one.thread_id(127), 1);
    assert_eq!(other.thread_id(0), 128);
}
