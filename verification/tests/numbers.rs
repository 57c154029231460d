use say::binary64;
use say::Number;
use say::NumberType;
use say::Validator;
use say::Value;

fn float(v: f64) -> Number {
    Number::Float(v.to_bits())
}

fn range(min: Option<i64>, max: Option<i64>) -> NumberType {
    NumberType { optional: false, nullable: false, max, min }
}

#[test]
fn number_without_bounds_takes_every_number() {
    let number = range(None, None);
    assert_eq!(true, number.validate(&Value::Number(Number::PosInt(u64::MAX))));
    assert_eq!(true, number.validate(&Value::Number(Number::NegInt(i64::MIN))));
    assert_eq!(true, number.validate(&Value::Number(float(1.5e300))));
}

#[test]
fn number_bounds_are_inclusive() {
    let number = range(Some(-2), Some(5));
    assert_eq!(false, number.validate(&Value::Number(Number::NegInt(-3))));
    assert_eq!(true, number.validate(&Value::Number(Number::NegInt(-2))));
    assert_eq!(true, number.validate(&Value::Number(Number::PosInt(0))));
    assert_eq!(true, number.validate(&Value::Number(Number::PosInt(5))));
    assert_eq!(false, number.validate(&Value::Number(Number::PosInt(6))));
}

#[test]
fn number_with_one_bound() {
    let at_least = range(Some(10), None);
    assert_eq!(false, at_least.validate(&Value::Number(Number::PosInt(9))));
    assert_eq!(true, at_least.validate(&Value::Number(Number::PosInt(10))));
    assert_eq!(true, at_least.validate(&Value::Number(Number::PosInt(u64::MAX))));
    let at_most = range(None, Some(-10));
    assert_eq!(true, at_most.validate(&Value::Number(Number::NegInt(-10))));
    assert_eq!(false, at_most.validate(&Value::Number(Number::NegInt(-9))));
    assert_eq!(false, at_most.validate(&Value::Number(Number::PosInt(0))));
}

#[test]
fn integers_beyond_the_signed_range_are_compared_exactly() {
    let top = Number::PosInt(i64::MAX as u64 + 1);
    assert_eq!(true, top.at_least(i64::MAX));
    assert_eq!(false, top.at_most(i64::MAX));
    assert_eq!(true, Number::PosInt(i64::MAX as u64).at_most(i64::MAX));
    assert_eq!(true, Number::PosInt(0).at_least(i64::MIN));
    assert_eq!(false, Number::PosInt(0).at_most(-1));
    assert_eq!(true, Number::NegInt(i64::MIN).at_least(i64::MIN));
    assert_eq!(false, Number::NegInt(i64::MIN).at_least(i64::MIN + 1));
    // an integer held as `NegInt` need not be negative
    assert_eq!(true, Number::NegInt(3).at_least(3));
    assert_eq!(false, Number::NegInt(3).at_most(2));
}

#[test]
fn fractions_are_compared_with_integer_bounds() {
    let number = range(Some(1), Some(2));
    assert_eq!(false, number.validate(&Value::Number(float(0.999))));
    assert_eq!(true, number.validate(&Value::Number(float(1.0))));
    assert_eq!(true, number.validate(&Value::Number(float(1.5))));
    assert_eq!(true, number.validate(&Value::Number(float(2.0))));
    assert_eq!(false, number.validate(&Value::Number(float(2.000001))));
    let around_zero = range(Some(0), Some(0));
    assert_eq!(true, around_zero.validate(&Value::Number(float(0.0))));
    assert_eq!(true, around_zero.validate(&Value::Number(float(-0.0))));
    assert_eq!(false, around_zero.validate(&Value::Number(float(5e-324))));
    assert_eq!(false, around_zero.validate(&Value::Number(float(-5e-324))));
}

#[test]
fn float_order_agrees_with_the_hardware() {
    let values = [
        0.0,
        -0.0,
        5e-324,
        -5e-324,
        2.2250738585072014e-308,
        1e-20,
        -1e-20,
        0.5,
        -0.5,
        0.9999999999999999,
        1.0,
        1.0000000000000002,
        -1.0,
        2.5,
        -2.5,
        1023.75,
        4503599627370496.0,
        4503599627370496.5,
        9007199254740991.0,
        9007199254740992.0,
        -9007199254740992.0,
        4611686018427387904.0,
        9223372036854774784.0,
        9223372036854775808.0,
        -9223372036854775808.0,
        -9223372036854777856.0,
        18446744073709551616.0,
        1e19,
        -1e19,
        1e300,
        -1e300,
        f64::MAX,
        f64::MIN,
    ];
    // bounds that a float holds exactly, so that the hardware comparison is exact
    let bounds: [i64; 15] = [
        0,
        1,
        -1,
        2,
        -2,
        3,
        1023,
        1024,
        4503599627370496,
        9007199254740992,
        -9007199254740992,
        4611686018427387904,
        -4611686018427387904,
        9223372036854774784,
        i64::MIN,
    ];
    for v in values {
        for b in bounds {
            let exact = b as f64;
            assert_eq!(b, exact as i64);
            assert_eq!(exact <= v, float(v).at_least(b), "{} <= {}", b, v);
            assert_eq!(v <= exact, float(v).at_most(b), "{} <= {}", v, b);
            assert_eq!((exact <= v, v <= exact), binary64::relate(v.to_bits(), b));
        }
    }
}

#[test]
fn float_against_the_largest_bound() {
    // i64::MAX is no float: the floats next to it are 2^63 - 1024 and 2^63
    assert_eq!(true, float(9223372036854774784.0).at_most(i64::MAX));
    assert_eq!(false, float(9223372036854774784.0).at_least(i64::MAX));
    assert_eq!(false, float(9223372036854775808.0).at_most(i64::MAX));
    assert_eq!(true, float(9223372036854775808.0).at_least(i64::MAX));
    // i64::MIN is a float
    assert_eq!(true, float(-9223372036854775808.0).at_least(i64::MIN));
    assert_eq!(true, float(-9223372036854775808.0).at_most(i64::MIN));
    assert_eq!(false, float(-9223372036854777856.0).at_least(i64::MIN));
}

#[test]
fn what_is_not_finite_is_ordered_as_the_hardware_orders_it() {
    for b in [i64::MIN, -1, 0, 1, i64::MAX] {
        assert_eq!(true, float(f64::INFINITY).at_least(b));
        assert_eq!(false, float(f64::INFINITY).at_most(b));
        assert_eq!(false, float(f64::NEG_INFINITY).at_least(b));
        assert_eq!(true, float(f64::NEG_INFINITY).at_most(b));
        assert_eq!(false, float(f64::NAN).at_least(b));
        assert_eq!(false, float(f64::NAN).at_most(b));
        assert_eq!(false, float(-f64::NAN).at_least(b));
        assert_eq!(false, float(-f64::NAN).at_most(b));
    }
}

#[test]
fn within_checks_the_bounds_that_are_set() {
    assert_eq!(true, float(1.5).within(None, None));
    assert_eq!(true, float(1.5).within(Some(1), None));
    assert_eq!(false, float(1.5).within(Some(2), None));
    assert_eq!(true, float(1.5).within(None, Some(2)));
    assert_eq!(false, float(1.5).within(None, Some(1)));
    assert_eq!(true, float(1.5).within(Some(1), Some(2)));
    assert_eq!(false, float(f64::NAN).within(Some(1), None));
    assert_eq!(true, float(f64::NAN).within(None, None));
}

#[test]
fn number_from_integers() {
    assert_eq!(true, matches!(Number::from(1i8), Number::PosInt(1)));
    assert_eq!(true, matches!(Number::from(-1i8), Number::NegInt(-1)));
    assert_eq!(true, matches!(Number::from(0i64), Number::PosInt(0)));
    assert_eq!(true, matches!(Number::from(i64::MIN), Number::NegInt(i64::MIN)));
    assert_eq!(true, matches!(Number::from(i64::MAX), Number::PosInt(9223372036854775807)));
    assert_eq!(true, matches!(Number::from(u64::MAX), Number::PosInt(u64::MAX)));
}

#[test]
fn number_from_float_bits_takes_only_finite_values() {
    let bits = 1.5f64.to_bits();
    assert_eq!(true, matches!(Number::from_f64_bits(bits), Some(Number::Float(b)) if b == bits));
    assert_eq!(true, Number::from_f64_bits(f64::MAX.to_bits()).is_some());
    assert_eq!(true, Number::from_f64_bits((-0.0f64).to_bits()).is_some());
    assert_eq!(true, Number::from_f64_bits(f64::INFINITY.to_bits()).is_none());
    assert_eq!(true, Number::from_f64_bits(f64::NEG_INFINITY.to_bits()).is_none());
    assert_eq!(true, Number::from_f64_bits(f64::NAN.to_bits()).is_none());
}
