use itermcolors_rs::channel::channel_to_byte;
use itermcolors_rs::color::HexColor;
use itermcolors_rs::Real;

fn byte_of(x: f64) -> u8 {
    channel_to_byte(Real { bits: x.to_bits() })
}

#[test]
fn in_range_values_round_to_nearest() {
    assert_eq!(byte_of(0.0), 0);
    assert_eq!(byte_of(1.0), 255);
    assert_eq!(byte_of(0.5), 128); // 127.5 rounds half away from zero
    assert_eq!(byte_of(0.2), 51);
    // 255 * f64(0.7) is just below 178.5, so it rounds down
    assert_eq!(byte_of(0.7), 178);
    assert_eq!(byte_of(1.0 / 255.0), 1);
    assert_eq!(byte_of(0.999), 255); // 254.745 rounds to 255
    assert_eq!(byte_of(0.998), 254); // 254.49 rounds to 254
}

#[test]
fn out_of_range_values_clamp() {
    assert_eq!(byte_of(-0.25), 0);
    assert_eq!(byte_of(-1000.0), 0);
    assert_eq!(byte_of(1.0000001), 255);
    assert_eq!(byte_of(2.0), 255);
    assert_eq!(byte_of(1.0e300), 255);
    assert_eq!(byte_of(f64::NEG_INFINITY), 0);
    assert_eq!(byte_of(f64::INFINITY), 255);
}

#[test]
fn nan_maps_to_zero() {
    assert_eq!(byte_of(f64::NAN), 0);
}

#[test]
fn negative_zero_maps_to_zero() {
    assert_eq!(byte_of(-0.0), 0);
}

#[test]
fn tiny_values_round_down_to_zero() {
    assert_eq!(byte_of(f64::MIN_POSITIVE), 0);
    assert_eq!(byte_of(1.0e-300), 0);
    assert_eq!(byte_of(0.001), 0); // 0.255 rounds to 0
    assert_eq!(byte_of(0.002), 1); // 0.51 rounds to 1
}

#[test]
fn hex_rendering_is_zero_padded_lowercase() {
    assert_eq!(HexColor::new(0, 0, 0).as_string(), "000000");
    assert_eq!(HexColor::new(255, 255, 255).as_string(), "ffffff");
    assert_eq!(HexColor::new(0xab, 0xcd, 0xef).as_string(), "abcdef");
    assert_eq!(HexColor::new(1, 2, 3).as_string(), "010203");
}

#[test]
fn hex_round_trip_is_exact_for_every_byte() {
    for b in 0..=255u8 {
        let s = HexColor::new(b, 0, 0).as_string();
        let parsed = u8::from_str_radix(&s[0..2], 16).unwrap();
        assert_eq!(parsed, b);
    }
}
