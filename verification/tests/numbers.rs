use blur::number::Num;
use blur::numeral::render_number;

fn num(x: f64) -> Num {
    Num::from_bits(x.to_bits())
}

fn back(x: Num) -> f64 {
    f64::from_bits(x.to_bits())
}

#[test]
fn arithmetic_agrees_with_the_machine() {
    let samples = [0.0, -0.0, 1.0, -1.0, 0.1, 0.2, 0.3, 5.5, 1e300, -1e300, 1e-320, 123456.789, 3.0, 7.0];
    for &a in samples.iter() {
        for &b in samples.iter() {
            assert_eq!(num(a).plus(num(b)).to_bits(), (a + b).to_bits());
            assert_eq!(num(a).minus(num(b)).to_bits(), (a - b).to_bits());
            assert_eq!(num(a).times(num(b)).to_bits(), (a * b).to_bits());
            if b != 0.0 {
                assert_eq!(num(a).over(num(b)).to_bits(), (a / b).to_bits());
                assert_eq!(back(num(a).modulo(num(b))), a % b);
            }
            assert_eq!(num(a).lt(num(b)), a < b);
            assert_eq!(num(a).le(num(b)), a <= b);
            assert_eq!(num(a).same(num(b)), a == b);
        }
        assert_eq!(num(a).ceil().to_bits(), a.ceil().to_bits());
        assert_eq!(num(a).to_i64(), a as i64);
        assert_eq!(num(a).to_u32(), a as u32);
        assert_eq!(num(a).to_usize(), a as usize);
        assert_eq!(num(a).neg().to_bits(), (-a).to_bits());
        assert_eq!(num(a).abs().to_bits(), a.abs().to_bits());
    }
}

#[test]
fn comparisons_with_nan_are_false() {
    let nan = num(f64::NAN);
    assert!(nan.is_nan());
    assert!(!nan.lt(num(1.0)));
    assert!(!num(1.0).lt(nan));
    assert!(!nan.le(nan));
    assert!(!nan.same(nan));
    assert_eq!(nan.to_i64(), 0);
}

#[test]
fn integers_become_the_nearest_number() {
    assert_eq!(back(Num::of_i64(5)), 5.0);
    assert_eq!(back(Num::of_i64(-7)), -7.0);
    assert_eq!(back(Num::of_i64(i64::MAX)), i64::MAX as f64);
    assert_eq!(back(Num::of_i64(i64::MIN)), i64::MIN as f64);
    assert_eq!(back(Num::of_usize(usize::MAX)), usize::MAX as f64);
    assert_eq!(back(Num::of_i64(9007199254740993)), 9007199254740993i64 as f64);
}

#[test]
fn truncation_saturates() {
    assert_eq!(num(1e30).to_i64(), i64::MAX);
    assert_eq!(num(-1e30).to_i64(), i64::MIN);
    assert_eq!(num(-3.9).to_i64(), -3);
    assert_eq!(num(300.0).to_u32(), 300);
    assert_eq!(num(-1.0).to_u32(), 0);
    assert_eq!(num(1e10).to_u32(), u32::MAX);
    assert_eq!(num(f64::INFINITY).to_usize(), usize::MAX);
}

#[test]
fn constants_have_their_values() {
    assert_eq!(back(Num::zero()), 0.0);
    assert_eq!(back(Num::one()), 1.0);
    assert_eq!(back(Num::half()), 0.5);
    assert_eq!(back(Num::epsilon()), f64::EPSILON);
}

#[test]
fn numbers_render_as_the_shortest_numeral() {
    let samples = [
        0.0, -0.0, 1.0, -1.0, 5.5, 7.0, 0.1, 0.2, 0.30000000000000004, 1e21, 1e-7, 123456.789,
        100.0, 1000000.0, 0.001, 2.5e-10, 1.7976931348623157e308, 5e-324, 6.25, 10.0, 1e15, 1e16,
        1e17, 0.9, 5.45, 3.3333333333333335, 12345678912345678.0,
    ];
    for &x in samples.iter() {
        assert_eq!(render_number(num(x)), format!("{}", x));
        assert_eq!(render_number(num(-x)), format!("{}", -x));
    }
    assert_eq!(render_number(num(f64::NAN)), "NaN");
    assert_eq!(render_number(num(f64::INFINITY)), "inf");
    assert_eq!(render_number(num(f64::NEG_INFINITY)), "-inf");
}

fn next(state: &mut u64) -> u64 {
    *state ^= *state << 13;
    *state ^= *state >> 7;
    *state ^= *state << 17;
    *state
}

fn same_number(got: Num, want: f64) -> bool {
    (want.is_nan() && back(got).is_nan()) || got.to_bits() == want.to_bits()
}

#[test]
fn arithmetic_agrees_with_the_machine_on_many_patterns() {
    let mut s = 0x2545F4914F6CDD1Du64;
    for i in 0..4000 {
        let mut a = f64::from_bits(next(&mut s));
        let mut b = f64::from_bits(next(&mut s));
        if i % 2 == 0 {
            // numbers of like size meet more cases of rounding
            a = (next(&mut s) % 1_000_000) as f64 / 977.0;
            b = (next(&mut s) % 1_000) as f64 / 13.0 - 30.0;
        }
        assert!(same_number(num(a).plus(num(b)), a + b), "{} + {}", a, b);
        assert!(same_number(num(a).minus(num(b)), a - b), "{} - {}", a, b);
        assert!(same_number(num(a).times(num(b)), a * b), "{} * {}", a, b);
        assert!(same_number(num(a).over(num(b)), a / b), "{} / {}", a, b);
        assert!(same_number(num(a).modulo(num(b)), a % b), "{} % {}", a, b);
        assert!(same_number(num(a).ceil(), a.ceil()), "ceil {}", a);
        assert_eq!(num(a).to_i64(), a as i64, "{}", a);
        assert_eq!(num(a).to_u32(), a as u32, "{}", a);
        assert_eq!(num(a).to_usize(), a as usize, "{}", a);
        assert_eq!(num(a).lt(num(b)), a < b, "{} < {}", a, b);
        assert_eq!(num(a).le(num(b)), a <= b, "{} <= {}", a, b);
        assert_eq!(num(a).same(num(b)), a == b, "{} == {}", a, b);
        let n = next(&mut s) as i64;
        assert_eq!(back(Num::of_i64(n)), n as f64);
    }
}

#[test]
fn numbers_render_as_the_machine_renders_them() {
    let mut s = 0x9E3779B97F4A7C15u64;
    for i in 0..3000u64 {
        let x = if i % 3 == 0 {
            f64::from_bits(next(&mut s))
        } else {
            (next(&mut s) % 2_000_000) as f64 / [1.0, 10.0, 100.0, 1000.0, 3.0, 7.0, 1e6][(i % 7) as usize]
        };
        if x.is_nan() {
            continue;
        }
        assert_eq!(render_number(num(x)), format!("{}", x));
    }
    for &x in [0.924118, 0.985513, 7.336903558016119e-26, -8.12139013702844e79, 9.5, 99.5, 0.95, 9.999999999999999e22, 1e23].iter() {
        assert_eq!(render_number(num(x)), format!("{}", x));
    }
}
