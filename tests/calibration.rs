use adc_stream::{to_physical, CalibrationReference, KNOWN_REFERENCE_VALUE};

#[test]
fn mid_scale_reference_maps_to_known_value() {
    assert_eq!(KNOWN_REFERENCE_VALUE, 1200);
    assert_eq!(to_physical(2048, 2048), 1200);
    assert_eq!(to_physical(0, 2048), 0);
    assert_eq!(to_physical(4095, 2048), 2399);
}

#[test]
fn division_rounds_down() {
    // 1000 * 1200 / 1489 = 805.9...
    assert_eq!(to_physical(1000, 1489), 805);
    assert_eq!(to_physical(1, 1200), 1);
    assert_eq!(to_physical(1, 1201), 0);
}

#[test]
fn large_quotient_saturates() {
    assert_eq!(to_physical(65535, 1), 65535);
    assert_eq!(to_physical(4095, 1), 65535);
    // 54 * 1200 = 64800 still fits
    assert_eq!(to_physical(54, 1), 64800);
}

#[test]
fn physical_value_is_monotonic_in_raw() {
    let mut last = 0u16;
    for raw in 0..=4095u16 {
        let p = to_physical(raw, 1489);
        assert!(p >= last);
        last = p;
    }
}

#[test]
fn zero_reading_cannot_calibrate() {
    assert!(CalibrationReference::from_reading(0).is_none());
    let r = CalibrationReference::from_reading(2048).unwrap();
    assert_eq!(r.reading(), 2048);
    assert_eq!(r.to_physical(2048), 1200);
    assert_eq!(r.to_physical(4095), 2399);
}
