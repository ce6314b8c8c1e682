use rom_dumper::lines::{decode_address, encode_address, low_levels, read_byte, set_address};

#[test]
fn address_round_trip_every_address_of_small_buses() {
    for n in 0..=12usize {
        for a in 0..(1u32 << n) {
            let levels = encode_address(a, n);
            assert_eq!(levels.len(), n);
            assert_eq!(decode_address(&levels), a);
        }
    }
}

#[test]
fn address_round_trip_wide_bus() {
    for &a in &[0u32, 1, 0x1_0000, 0x1_FFFF, 0x8000_0000, u32::MAX] {
        assert_eq!(decode_address(&encode_address(a, 32)), a);
    }
    assert_eq!(decode_address(&encode_address(0x1_2345, 17)), 0x1_2345);
}

#[test]
fn address_bits_least_significant_first() {
    assert_eq!(encode_address(0b1101, 4), vec![true, false, true, true]);
    assert_eq!(encode_address(6, 5), vec![false, true, true, false, false]);
}

#[test]
fn address_lines_past_bit_31_are_low() {
    let levels = encode_address(u32::MAX, 35);
    assert_eq!(levels.len(), 35);
    assert!(levels[..32].iter().all(|&l| l));
    assert!(levels[32..].iter().all(|&l| !l));
}

#[test]
fn set_address_overwrites_previous_levels() {
    let mut lines = vec![true; 8];
    set_address(&mut lines, 0x21);
    assert_eq!(lines, vec![true, false, false, false, false, true, false, false]);
    set_address(&mut lines, 0);
    assert_eq!(lines, vec![false; 8]);
}

#[test]
fn setup_levels_are_low() {
    assert_eq!(low_levels(17), vec![false; 17]);
    assert!(low_levels(0).is_empty());
}

#[test]
fn sampler_reads_every_byte_back() {
    for v in 0..=255u8 {
        let lines: Vec<bool> = (0..8).map(|i| (v >> i) & 1 == 1).collect();
        assert_eq!(read_byte(&lines), v);
    }
}

#[test]
fn sampler_bit_order() {
    assert_eq!(read_byte(&[true, false, false, false, false, false, false, false]), 0x01);
    assert_eq!(read_byte(&[false, false, false, false, false, false, false, true]), 0x80);
    assert_eq!(read_byte(&[true; 8]), 0xFF);
    assert_eq!(read_byte(&[false; 8]), 0x00);
}
