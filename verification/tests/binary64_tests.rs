use gpu_dispatch::binary64::holds_index_doubles;
use gpu_dispatch::binary64::index_to_double_bits;

#[test]
fn zero_is_positive_zero() {
    assert_eq!(index_to_double_bits(0), 0);
    assert_eq!(f64::from_bits(index_to_double_bits(0)), 0.0);
}

#[test]
fn one_has_the_bias_as_exponent_and_no_fraction() {
    assert_eq!(index_to_double_bits(1), 0x3FF0_0000_0000_0000);
}

#[test]
fn small_indices_have_their_known_patterns() {
    assert_eq!(index_to_double_bits(2), 0x4000_0000_0000_0000);
    assert_eq!(index_to_double_bits(3), 0x4008_0000_0000_0000);
    assert_eq!(index_to_double_bits(4), 0x4010_0000_0000_0000);
    assert_eq!(index_to_double_bits(5), 0x4014_0000_0000_0000);
    assert_eq!(index_to_double_bits(64), 0x4050_0000_0000_0000);
}

#[test]
fn largest_index_is_exact() {
    assert_eq!(index_to_double_bits(u32::MAX), 0x41EF_FFFF_FFE0_0000);
    assert_eq!(f64::from_bits(index_to_double_bits(u32::MAX)), 4294967295.0);
}

#[test]
fn patterns_agree_with_the_machine_conversion() {
    let mut i: u32 = 0;
    while i < 100_000 {
        assert_eq!(index_to_double_bits(i), (i as f64).to_bits());
        i += 1;
    }
    let mut shift: u32 = 0;
    while shift < 32 {
        let power: u32 = 1 << shift;
        assert_eq!(index_to_double_bits(power), (power as f64).to_bits());
        assert_eq!(index_to_double_bits(power - 1), ((power - 1) as f64).to_bits());
        assert_eq!(index_to_double_bits(power | 1), ((power | 1) as f64).to_bits());
        shift += 1;
    }
}

#[test]
fn distinct_indices_have_distinct_patterns() {
    let mut i: u32 = 0;
    while i < 1000 {
        assert_ne!(index_to_double_bits(i), index_to_double_bits(i + 1));
        i += 1;
    }
}

#[test]
fn six_doubles_in_order_are_accepted() {
    let expected: Vec<f64> = vec![0.0, 1.0, 2.0, 3.0, 4.0, 5.0];
    let patterns: Vec<u64> = expected.iter().map(|x| x.to_bits()).collect();
    assert!(holds_index_doubles(&patterns, 6));
}

#[test]
fn wrong_length_is_refused() {
    let patterns: Vec<u64> = vec![0.0f64.to_bits(), 1.0f64.to_bits()];
    assert!(!holds_index_doubles(&patterns, 3));
    assert!(!holds_index_doubles(&patterns, 1));
    assert!(holds_index_doubles(&patterns, 2));
}

#[test]
fn wrong_element_is_refused() {
    let patterns: Vec<u64> = vec![0.0f64.to_bits(), 1.0f64.to_bits(), 2.5f64.to_bits()];
    assert!(!holds_index_doubles(&patterns, 3));
    let swapped: Vec<u64> = vec![1.0f64.to_bits(), 0.0f64.to_bits()];
    assert!(!holds_index_doubles(&swapped, 2));
}

#[test]
fn negative_zero_is_not_index_zero() {
    let patterns: Vec<u64> = vec![(-0.0f64).to_bits()];
    assert!(!holds_index_doubles(&patterns, 1));
}

#[test]
fn empty_output_is_the_empty_index_sequence() {
    let patterns: Vec<u64> = Vec::new();
    assert!(holds_index_doubles(&patterns, 0));
    assert!(!holds_index_doubles(&patterns, 1));
}
