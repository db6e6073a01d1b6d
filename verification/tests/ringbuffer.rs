use disruptor_rs::ringbuffer::{is_power_of_two, slot_index};

#[test]
fn powers_of_two_are_recognised() {
    assert!(is_power_of_two(1));
    assert!(is_power_of_two(2));
    assert!(is_power_of_two(1024));
    assert!(!is_power_of_two(0));
    assert!(!is_power_of_two(12));
    assert!(!is_power_of_two(1023));
}

#[test]
fn slot_index_keeps_the_low_bits() {
    assert_eq!(slot_index(0, 7), 0);
    assert_eq!(slot_index(9, 7), 1);
    assert_eq!(slot_index(255, 255), 255);
    assert_eq!(slot_index(256, 255), 0);
    assert_eq!(slot_index(-1, 7), 7);
}

#[test]
fn slot_index_repeats_every_lap() {
    for s in [0i64, 5, 255, 1000] {
        for k in 0..4i64 {
            assert_eq!(slot_index(s + k * 256, 255), slot_index(s, 255));
        }
    }
    assert_eq!(slot_index(300, 255), 44);
}
