use benchviz::timing::{direction, Direction};

fn expected_direction(lhs: f64, rhs: f64) -> Direction {
    if lhs > rhs {
        Direction::Improved
    } else if lhs < rhs {
        Direction::Regressed
    } else if lhs == rhs {
        Direction::Unchanged
    } else {
        Direction::Unordered
    }
}

#[test]
fn direction_orders_bit_patterns_as_the_numbers() {
    let values = [
        0.0,
        -0.0,
        1.0,
        -1.0,
        80.0,
        100.0,
        0.1,
        -0.1,
        1e-320,
        -1e-320,
        f64::MIN_POSITIVE,
        f64::MAX,
        f64::MIN,
        f64::EPSILON,
        f64::INFINITY,
        f64::NEG_INFINITY,
        f64::NAN,
        -f64::NAN,
        f64::from_bits(0x7ff0_0000_0000_0001),
        f64::from_bits(0xfff8_0000_0000_0000),
        123456.789,
        -123456.789,
    ];
    for lhs in values {
        for rhs in values {
            assert_eq!(
                direction(lhs.to_bits(), rhs.to_bits()),
                expected_direction(lhs, rhs),
                "{:?} against {:?}",
                lhs,
                rhs
            );
        }
    }
}

#[test]
fn direction_of_plain_times() {
    assert_eq!(direction(100.0f64.to_bits(), 80.0f64.to_bits()), Direction::Improved);
    assert_eq!(direction(80.0f64.to_bits(), 100.0f64.to_bits()), Direction::Regressed);
    assert_eq!(direction(80.0f64.to_bits(), 80.0f64.to_bits()), Direction::Unchanged);
    assert_eq!(direction(0.0f64.to_bits(), (-0.0f64).to_bits()), Direction::Unchanged);
    assert_eq!(direction(f64::NAN.to_bits(), 80.0f64.to_bits()), Direction::Unordered);
    assert_eq!(direction(f64::INFINITY.to_bits(), f64::MAX.to_bits()), Direction::Improved);
    assert_eq!(direction(f64::NEG_INFINITY.to_bits(), f64::MIN.to_bits()), Direction::Regressed);
}
