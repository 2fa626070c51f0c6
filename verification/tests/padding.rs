use comms_freq_sync::{is_power_of_two, padded_length};

#[test]
fn short_streams_pad_to_the_next_power_of_two() {
    assert_eq!(padded_length(0), Some(1));
    assert_eq!(padded_length(1), Some(1));
    assert_eq!(padded_length(2), Some(2));
    assert_eq!(padded_length(3), Some(4));
    assert_eq!(padded_length(4), Some(4));
    assert_eq!(padded_length(5), Some(8));
    assert_eq!(padded_length(1000), Some(1024));
    assert_eq!(padded_length(1024), Some(1024));
    assert_eq!(padded_length(1025), Some(2048));
}

#[test]
fn a_power_of_two_is_never_padded() {
    let mut p: usize = 1;
    for _ in 0..(usize::BITS - 1) {
        assert_eq!(padded_length(p), Some(p));
        p *= 2;
    }
    assert_eq!(padded_length(p), Some(p));
}

#[test]
fn padding_stays_below_twice_the_length() {
    for n in 1..5000usize {
        let p = padded_length(n).unwrap();
        assert!(n <= p && p < 2 * n);
        assert!(p.is_power_of_two());
    }
}

#[test]
fn padded_length_agrees_with_the_machine() {
    for n in 0..5000usize {
        assert_eq!(padded_length(n), n.checked_next_power_of_two());
    }
}

#[test]
fn the_longest_streams_have_no_padded_length() {
    let top: usize = 1usize << (usize::BITS - 1);
    assert_eq!(padded_length(top - 1), Some(top));
    assert_eq!(padded_length(top), Some(top));
    assert_eq!(padded_length(top + 1), None);
    assert_eq!(padded_length(usize::MAX), None);
}

#[test]
fn powers_of_two_are_recognised() {
    assert!(!is_power_of_two(0));
    assert!(is_power_of_two(1));
    assert!(is_power_of_two(2));
    assert!(!is_power_of_two(3));
    assert!(is_power_of_two(1024));
    assert!(!is_power_of_two(1000));
    assert!(is_power_of_two(1usize << (usize::BITS - 1)));
    assert!(!is_power_of_two(usize::MAX));
    for n in 0..5000usize {
        assert_eq!(is_power_of_two(n), n.is_power_of_two());
    }
}
