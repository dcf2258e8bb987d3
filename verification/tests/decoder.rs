use hr_osc_bridge::binary32::{
    scale_by_five_thousandths, FIVE_THOUSANDTHS, FIVE_THOUSANDTHS_SIGNIFICAND,
};
use hr_osc_bridge::config::HEART_RATE_DATA_INDEX;
use hr_osc_bridge::decoder::{decode, HeartRateReading};

#[test]
fn heart_rate_byte_is_the_fourth() {
    assert_eq!(HEART_RATE_DATA_INDEX, 3);
}

#[test]
fn payloads_shorter_than_four_bytes_decode_to_nothing() {
    assert_eq!(decode(&[]), None);
    assert_eq!(decode(&[80]), None);
    assert_eq!(decode(&[80, 80]), None);
    assert_eq!(decode(&[80, 80, 80]), None);
}

#[test]
fn payload_of_four_bytes_decodes_its_last_byte() {
    let reading = decode(&[1, 2, 3, 80]).unwrap();
    assert_eq!(reading.raw_byte, 80);
    assert_eq!(reading.thousandths(), 400);
}

#[test]
fn longer_payload_decodes_its_fourth_byte() {
    let reading = decode(&[9, 9, 9, 61, 200, 201, 202]).unwrap();
    assert_eq!(reading.raw_byte, 61);
    assert_eq!(reading.thousandths(), 305);
}

#[test]
fn byte_80_is_0_400() {
    let reading = decode(&[0, 0, 0, 80]).unwrap();
    let value = f32::from_bits(reading.normalized);
    assert_eq!(value, 80.0_f32 * 0.005_f32);
    assert_eq!(format!("{:.3}", value), "0.400");
    assert_eq!(reading.normalized, 0x3ECC_CCCC);
}

#[test]
fn byte_0_is_0_000() {
    let reading = decode(&[0, 0, 0, 0]).unwrap();
    assert_eq!(reading.normalized, 0);
    assert_eq!(f32::from_bits(reading.normalized), 0.0_f32);
    assert_eq!(format!("{:.3}", f32::from_bits(reading.normalized)), "0.000");
    assert_eq!(reading.thousandths(), 0);
}

#[test]
fn byte_255_is_1_275() {
    let reading = decode(&[0, 0, 0, 255]).unwrap();
    let value = f32::from_bits(reading.normalized);
    assert_eq!(value, 255.0_f32 * 0.005_f32);
    assert_eq!(format!("{:.3}", value), "1.275");
    assert_eq!(reading.thousandths(), 1275);
}

#[test]
fn extreme_bytes_are_not_clamped_or_dropped() {
    for raw in [0u8, 1, 29, 30, 220, 221, 254, 255] {
        let reading = decode(&[7, 7, 7, raw]).unwrap();
        assert_eq!(reading.raw_byte, raw);
        assert_eq!(reading.thousandths(), 5 * raw as u16);
    }
}

#[test]
fn normalized_is_the_single_precision_product_for_every_byte() {
    for raw in 0..=255u8 {
        let reading = decode(&[0, 0, 0, raw]).unwrap();
        let expected = raw as f32 * 0.005_f32;
        assert_eq!(reading.normalized, expected.to_bits(), "byte {}", raw);
        assert_eq!(reading, HeartRateReading { raw_byte: raw, normalized: expected.to_bits() });
    }
}

#[test]
fn normalized_rounds_to_the_exact_thousandths_for_every_byte() {
    for raw in 0..=255u8 {
        let reading = decode(&[0, 0, 0, raw]).unwrap();
        let value = f32::from_bits(reading.normalized) as f64;
        let exact = reading.thousandths() as f64 / 1000.0;
        assert!((value - exact).abs() < 1e-7, "byte {}", raw);
        let shown = format!("{:.3}", f32::from_bits(reading.normalized));
        let thousandths = reading.thousandths();
        assert_eq!(shown, format!("{}.{:03}", thousandths / 1000, thousandths % 1000));
    }
}

#[test]
fn five_thousandths_constant_is_the_single_precision_0_005() {
    assert_eq!(FIVE_THOUSANDTHS, 0.005_f32.to_bits());
    assert_eq!(FIVE_THOUSANDTHS_SIGNIFICAND, (FIVE_THOUSANDTHS & 0x007F_FFFF) | 0x0080_0000);
    assert_eq!(FIVE_THOUSANDTHS >> 23, 119);
}

#[test]
fn scaling_exact_patterns() {
    assert_eq!(scale_by_five_thousandths(0), 0);
    assert_eq!(scale_by_five_thousandths(1), 0x3BA3_D70A);
    assert_eq!(scale_by_five_thousandths(75), 0x3EC0_0000);
    assert_eq!(f32::from_bits(scale_by_five_thousandths(75)), 0.375_f32);
    assert_eq!(scale_by_five_thousandths(200), 0x3F80_0000);
    assert_eq!(f32::from_bits(scale_by_five_thousandths(200)), 1.0_f32);
    assert_eq!(scale_by_five_thousandths(255), 0x3FA3_3333);
}

#[test]
fn scaling_a_tie_goes_to_the_even_significand() {
    // 80 * 0xA3D70A is 0x3333332 * 16: two digits are dropped and they are exactly a half
    assert_eq!(scale_by_five_thousandths(80), 0x3ECC_CCCC);
    assert_ne!(scale_by_five_thousandths(80), 0.4_f32.to_bits());
}

#[test]
fn reading_of_a_byte() {
    assert_eq!(
        HeartRateReading::from_byte(100),
        HeartRateReading { raw_byte: 100, normalized: 0.5_f32.to_bits() },
    );
    assert_eq!(Some(HeartRateReading::from_byte(33)), decode(&[0, 0, 0, 33, 0]));
}
