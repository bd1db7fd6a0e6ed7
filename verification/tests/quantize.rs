use vertin::math::quantize_ratio;

fn float_quantize(v: f64, levels: f64) -> u16 {
    let v = v.min(1.0).max(0.0);
    (v * levels).round() as u16
}

#[test]
fn quantize_half_to_16_bits() {
    assert_eq!(quantize_ratio(1, 2, 65535), 32768);
}

#[test]
fn quantize_half_to_8_bits() {
    assert_eq!(quantize_ratio(1, 2, 255), 128);
}

#[test]
fn quantize_round_trip_16_bits() {
    let q = quantize_ratio(1, 2, 65535);
    let back = q as f64 / 65535.0;
    assert!((back - 0.5).abs() <= 1.0 / 65535.0);
    let mut num: u32 = 0;
    while num <= 1000 {
        let q = quantize_ratio(num, 1000, 65535);
        let back = q as f64 / 65535.0;
        assert!((back - num as f64 / 1000.0).abs() <= 1.0 / 65535.0);
        num += 1;
    }
}

#[test]
fn quantize_ends() {
    assert_eq!(quantize_ratio(0, 7, 65535), 0);
    assert_eq!(quantize_ratio(7, 7, 65535), 65535);
    assert_eq!(quantize_ratio(0, 1, 255), 0);
    assert_eq!(quantize_ratio(1, 1, 255), 255);
    assert_eq!(quantize_ratio(5, 9, 0), 0);
}

#[test]
fn quantize_cuts_off_above_one() {
    assert_eq!(quantize_ratio(9, 7, 255), 255);
    assert_eq!(quantize_ratio(u32::MAX, 1, 65535), 65535);
    assert_eq!(quantize_ratio(u32::MAX, u32::MAX, 65535), 65535);
}

#[test]
fn quantize_rounds_to_nearest() {
    assert_eq!(quantize_ratio(1, 3, 255), 85);
    assert_eq!(quantize_ratio(1, 4, 255), 64);
    assert_eq!(quantize_ratio(1, 8, 255), 32);
    assert_eq!(quantize_ratio(1, 510, 255), 1);
    assert_eq!(quantize_ratio(1, 511, 255), 0);
    assert_eq!(quantize_ratio(3, 4, 65535), 49151);
}

#[test]
fn quantize_agrees_with_float_rounding() {
    let mut den: u32 = 1;
    while den <= 64 {
        let mut num: u32 = 0;
        while num <= den + 2 {
            let v = num as f64 / den as f64;
            assert_eq!(quantize_ratio(num, den, 255), float_quantize(v, 255.0));
            assert_eq!(quantize_ratio(num, den, 65535), float_quantize(v, 65535.0));
            num += 1;
        }
        den += 1;
    }
}
