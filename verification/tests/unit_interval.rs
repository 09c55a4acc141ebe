use script_io::is_unit_interval;

#[test]
fn patterns_at_the_edges_of_the_unit_interval() {
    assert_eq!(1.0f64.to_bits(), 0x3FF0_0000_0000_0000);
    assert_eq!((-0.0f64).to_bits(), 0x8000_0000_0000_0000);
    assert!(is_unit_interval(0));
    assert!(is_unit_interval(1));
    assert!(is_unit_interval(0x3FEF_FFFF_FFFF_FFFF));
    assert!(!is_unit_interval(0x3FF0_0000_0000_0000));
    assert!(!is_unit_interval(0x3FF0_0000_0000_0001));
    assert!(is_unit_interval(0x8000_0000_0000_0000));
    assert!(!is_unit_interval(0x8000_0000_0000_0001));
    assert!(!is_unit_interval(0x7FFF_FFFF_FFFF_FFFF));
    assert!(!is_unit_interval(u64::MAX));
}

#[test]
fn pattern_is_inside_where_the_number_is() {
    let numbers: Vec<f64> = vec![
        0.0,
        -0.0,
        f64::MIN_POSITIVE,
        5e-324,
        0.1,
        0.25,
        0.5,
        0.75,
        0.999,
        1.0 - f64::EPSILON / 2.0,
        1.0,
        1.0 + f64::EPSILON,
        1.5,
        2.0,
        1e300,
        f64::MAX,
        f64::INFINITY,
        f64::NEG_INFINITY,
        f64::NAN,
        -f64::NAN,
        -5e-324,
        -0.5,
        -1.0,
        -1e300,
    ];
    for number in numbers {
        let inside = 0.0 <= number && number < 1.0;
        assert_eq!(is_unit_interval(number.to_bits()), inside, "{number}");
    }
}

#[test]
fn numbers_of_the_form_n_over_two_to_the_53_are_inside() {
    let scale = 1.0 / ((1u64 << 53) as f64);
    for n in [0u64, 1, 2, 3, 1 << 20, (1 << 52) - 1, 1 << 52, (1 << 53) - 2, (1 << 53) - 1] {
        let number = scale * (n as f64);
        assert!(is_unit_interval(number.to_bits()), "{n}");
    }
    assert!(!is_unit_interval((scale * ((1u64 << 53) as f64)).to_bits()));
}
