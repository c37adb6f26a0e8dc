use rawudp::common::bytes::{hi_byte, lo_byte, u16_from_be};
use rawudp::proto::checksum::{internet_checksum, CHECKSUM_ALL_ONES};

fn reference_checksum(data: &[u8]) -> u16 {
    let mut sum: u64 = 0;
    let mut i = 0;
    while i < data.len() {
        let hi = data[i] as u64;
        let lo = if i + 1 < data.len() { data[i + 1] as u64 } else { 0 };
        sum += hi * 256 + lo;
        i += 2;
    }
    while sum > 0xFFFF {
        sum = sum % 0x10000 + sum / 0x10000;
    }
    let complement = 0xFFFF - sum as u16;
    if complement == 0 {
        0xFFFF
    } else {
        complement
    }
}

#[test]
fn checksum_of_the_textbook_example() {
    assert_eq!(internet_checksum(&[0x00, 0x01, 0xF2, 0x03, 0xF4, 0xF5, 0xF6, 0xF7]), 0x220D);
}

#[test]
fn checksum_pads_an_odd_length_with_zero() {
    assert_eq!(internet_checksum(&[0x01]), 0xFEFF);
    assert_eq!(internet_checksum(&[0x01]), internet_checksum(&[0x01, 0x00]));
    assert_eq!(internet_checksum(&[0x12, 0x34, 0x56]), internet_checksum(&[0x12, 0x34, 0x56, 0x00]));
}

#[test]
fn checksum_of_nothing_is_all_ones() {
    assert_eq!(internet_checksum(&[]), 0xFFFF);
}

#[test]
fn checksum_of_a_zero_sum_is_all_ones() {
    assert_eq!(internet_checksum(&[0, 0, 0, 0]), CHECKSUM_ALL_ONES);
}

#[test]
fn checksum_whose_complement_is_zero_is_all_ones() {
    assert_eq!(internet_checksum(&[0xFF, 0xFF]), 0xFFFF);
    assert_eq!(internet_checksum(&[0xFF, 0xFE, 0x00, 0x01]), 0xFFFF);
}

#[test]
fn checksum_folds_a_carry_back() {
    // 0xFFFF + 0x0002 = 0x10001, folded to 0x0002, complemented to 0xFFFD.
    assert_eq!(internet_checksum(&[0xFF, 0xFF, 0x00, 0x02]), 0xFFFD);
}

#[test]
fn checksum_is_the_same_when_computed_twice() {
    let data: Vec<u8> = (0..1000u32).map(|i| (i * 31 % 251) as u8).collect();
    assert_eq!(internet_checksum(&data), internet_checksum(&data));
    assert_eq!(internet_checksum(&data), internet_checksum(&data.clone()));
}

#[test]
fn checksum_is_never_zero() {
    for hi in 0..=255u8 {
        for lo in [0u8, 1, 0x7F, 0xFE, 0xFF] {
            assert_ne!(internet_checksum(&[hi, lo]), 0);
        }
    }
}

#[test]
fn checksum_of_a_long_input_agrees_with_a_wide_accumulator() {
    let data: Vec<u8> = (0..200001usize).map(|i| ((i * 7 + 3) % 256) as u8).collect();
    assert_eq!(internet_checksum(&data), 0x310E);
    assert_eq!(internet_checksum(&data), reference_checksum(&data));
}

#[test]
fn checksum_of_more_words_than_thirty_two_bits_hold() {
    let data = vec![0xFFu8; 140000];
    assert_eq!(internet_checksum(&data), 0xFFFF);
    assert_eq!(internet_checksum(&data), reference_checksum(&data));
}

#[test]
fn checksum_agrees_with_the_reference_on_short_inputs() {
    for len in 0..40usize {
        let data: Vec<u8> = (0..len).map(|i| (i * 37 + len * 11) as u8).collect();
        assert_eq!(internet_checksum(&data), reference_checksum(&data));
    }
}

#[test]
fn big_endian_bytes_of_a_word() {
    assert_eq!(u16_from_be(0x12, 0x34), 0x1234);
    assert_eq!(hi_byte(0x1234), 0x12);
    assert_eq!(lo_byte(0x1234), 0x34);
    assert_eq!(u16_from_be(0xFF, 0xFF), 0xFFFF);
    assert_eq!(u16_from_be(0, 0), 0);
    assert_eq!(u16_from_be(hi_byte(0xBEEF), lo_byte(0xBEEF)), 0xBEEF);
}
