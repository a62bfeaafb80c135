use ebus_thermostat::temperature::Temperature;

fn t(v: f32) -> Temperature {
    Temperature { bits: v.to_bits() }
}

fn samples() -> Vec<f32> {
    vec![
        0.0,
        -0.0,
        f32::MIN_POSITIVE,
        1e-45,
        -1e-45,
        1e-40,
        0.5,
        0.99999994,
        1.0,
        1.0000001,
        -1.0,
        19.0,
        19.5,
        21.999998,
        22.0,
        23.0,
        45.0,
        127.5,
        254.99998,
        255.0,
        255.5,
        256.0,
        1e9,
        -273.15,
        f32::MAX,
        f32::MIN,
        f32::INFINITY,
        f32::NEG_INFINITY,
        f32::NAN,
        -f32::NAN,
        f32::from_bits(0x7f80_0001),
    ]
}

#[test]
fn order_is_the_order_of_numbers() {
    for a in samples() {
        for b in samples() {
            assert_eq!(t(a).at_most(&t(b)), a <= b, "{a} {b}");
            assert_eq!(t(a).equals(&t(b)), a == b, "{a} {b}");
        }
    }
}

#[test]
fn whole_degrees_are_cut_off_and_saturated() {
    for a in samples() {
        assert_eq!(t(a).whole_degrees(), a as u8, "{a}");
    }
    let mut bits: u32 = 0;
    while bits < 0xffff_0000 {
        let v = f32::from_bits(bits);
        assert_eq!(t(v).whole_degrees(), v as u8, "{bits:x}");
        bits += 0x1_0001;
    }
}

#[test]
fn degrees_become_the_same_number() {
    for d in 0..=255u8 {
        assert_eq!(Temperature::from_degrees(d).bits, (d as f32).to_bits());
    }
}

#[test]
fn degrees_come_back_unchanged() {
    for d in 0..=255u8 {
        assert_eq!(Temperature::from_degrees(d).whole_degrees(), d);
    }
}

#[test]
fn zeros_are_equal_and_nan_is_not() {
    assert!(t(0.0).equals(&t(-0.0)));
    assert!(t(-0.0).at_most(&t(0.0)));
    assert!(!t(f32::NAN).equals(&t(f32::NAN)));
    assert!(!t(f32::NAN).at_most(&t(1.0)));
    assert!(!t(1.0).at_most(&t(f32::NAN)));
}
