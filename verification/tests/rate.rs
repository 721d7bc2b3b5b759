use rust_roveri::rate::Rate;

const SAMPLES: [f32; 22] = [
    0.0,
    -0.0,
    1.0,
    -1.0,
    0.07,
    0.3,
    0.5,
    0.999_999_94,
    1.000_000_1,
    1.1,
    -0.1,
    2.0,
    3.402_823_5e38,
    -3.402_823_5e38,
    1.175_494_4e-38,
    1.0e-45,
    -1.0e-45,
    5.0e-40,
    f32::INFINITY,
    f32::NEG_INFINITY,
    f32::NAN,
    0.25,
];

fn rate(number: f32) -> Rate {
    Rate::from_bits(number.to_bits())
}

#[test]
fn numbers_are_ordered_as_they_are() {
    for a in SAMPLES {
        for b in SAMPLES {
            assert_eq!(rate(a).at_most(&rate(b)), a <= b, "{} <= {}", a, b);
        }
    }
}

#[test]
fn clamping_keeps_what_lies_inside() {
    for a in SAMPLES {
        assert_eq!(rate(a).clamped().to_bits(), a.clamp(0.0, 1.0).to_bits(), "{}", a);
        assert_eq!(rate(a).clamped().clamped(), rate(a).clamped());
    }
    assert_eq!(rate(1.1).clamped(), rate(1.0));
    assert_eq!(rate(-0.1).clamped(), rate(0.0));
}

#[test]
fn unit_interval_is_closed() {
    for a in SAMPLES {
        assert_eq!(rate(a).is_unit(), (0.0..=1.0).contains(&a), "{}", a);
    }
    assert!(rate(0.0).is_unit());
    assert!(rate(1.0).is_unit());
    assert!(!rate(1.000_000_1).is_unit());
}

#[test]
fn what_is_no_number_is_known() {
    for a in SAMPLES {
        assert_eq!(rate(a).is_nan(), a.is_nan(), "{}", a);
    }
    assert!(Rate::from_bits(0xffc0_0001).is_nan());
    assert!(!Rate::from_bits(0xff80_0000).is_nan());
}
