use blur::ast::Type;
use blur::average::{weighted_avg, weights};
use blur::history::BlurValue;
use blur::number::Num;
use blur::update::{apply_compound, Update};
use blur::ast::CompoundOp;
use blur::error::RuntimeError;
use blur::value::Value;

fn num(x: f64) -> Num {
    Num::from_bits(x.to_bits())
}

fn back(x: Num) -> f64 {
    f64::from_bits(x.to_bits())
}

fn history(cell: &BlurValue) -> Vec<f64> {
    cell.history.iter().map(|x| back(*x)).collect()
}

#[test]
fn pure_average_is_the_arithmetic_mean() {
    let samples = [5.0, 6.0, 10.0, -3.5, 0.25];
    let mut cell = BlurValue::new(Type::Float);
    let mut sum = 0.0;
    for (i, &s) in samples.iter().enumerate() {
        cell.push(num(s));
        sum += s;
        assert_eq!(back(cell.get_raw(num(1.0))), sum / (i + 1) as f64);
    }
    assert_eq!(history(&cell), samples.to_vec());
}

#[test]
fn raw_average_of_nothing_is_zero() {
    let cell = BlurValue::new(Type::Int);
    assert_eq!(back(cell.get_raw(num(1.0))), 0.0);
    assert_eq!(back(cell.get_raw(num(0.5))), 0.0);
    assert_eq!(cell.get(num(0.9)), Value::Int(0));
}

#[test]
fn newest_sample_weighs_most_under_decay() {
    for &decay in [0.0, 0.1, 0.5, 0.9, 0.999].iter() {
        let w = weights(num(decay), 6);
        assert_eq!(back(w[0]), 1.0);
        for age in 1..6 {
            assert!(back(w[age]) < back(w[0]));
            assert_eq!(back(w[age]), decay.powf(age as f64));
        }
    }
}

#[test]
fn weighted_average_follows_the_formula() {
    let values = vec![num(5.0), num(6.0), num(10.0)];
    // weights 0.25, 0.5, 1
    let expected = (5.0 * 0.25 + 6.0 * 0.5 + 10.0 * 1.0) / (0.25 + 0.5 + 1.0);
    assert_eq!(back(weighted_avg(&values, num(0.5))), expected);
    // decay zero: the last sample alone counts
    assert_eq!(back(weighted_avg(&values, num(0.0))), 10.0);
    // decay one and above: the plain mean
    assert_eq!(back(weighted_avg(&values, num(1.0))), 7.0);
    assert_eq!(back(weighted_avg(&values, num(3.0))), 7.0);
}

#[test]
fn sharp_push_keeps_one_sample() {
    let mut cell = BlurValue::new_sharp(Type::Int);
    for i in 0..5 {
        cell.push(num(i as f64));
        assert_eq!(cell.history.len(), 1);
    }
    assert_eq!(cell.get(num(0.9)), Value::Int(4));
    let mut flags = BlurValue::new_sharp(Type::Bool);
    flags.push_bool(true);
    flags.push_bool(false);
    assert_eq!(flags.bool_history, vec![false]);
    let mut text = BlurValue::new_sharp(Type::String);
    text.push_string("abc");
    text.push_string("x z");
    assert_eq!(text.string_history, vec![vec!['x'], vec![], vec!['z']]);
    assert_eq!(text.get(num(1.0)), Value::String("x z".to_string()));
}

#[test]
fn money_scenario() {
    // int money = 5; money++;  with decay 1.0
    let one = num(1.0);
    let mut money = BlurValue::new(Type::Int);
    money.assign(&Value::Int(5));
    money.step(true, one);
    assert_eq!(history(&money), vec![5.0, 6.0]);
    assert_eq!(back(money.get_raw(one)), 5.5);
    assert_eq!(money.get(one), Value::Int(6));
    money.assign(&Value::Int(10));
    assert_eq!(money.get(one), Value::Int(7));
}

#[test]
fn increment_adds_to_the_blurred_value() {
    let one = num(1.0);
    let mut x = BlurValue::new(Type::Float);
    x.push(num(1.0));
    x.push(num(3.0));
    // raw average 2, so the new sample is 3, not 4
    x.step(true, one);
    assert_eq!(history(&x), vec![1.0, 3.0, 3.0]);
    x.step(false, one);
    assert_eq!(back(*x.history.last().unwrap()), 7.0 / 3.0 - 1.0);
}

#[test]
fn bool_half_true_projects_to_true() {
    let one = num(1.0);
    let mut cell = BlurValue::new(Type::Bool);
    cell.push_bool(true);
    cell.push_bool(false);
    assert_eq!(cell.get(one), Value::Bool(true));
    cell.push_bool(false);
    assert_eq!(cell.get(one), Value::Bool(false));
    cell.push_bool(true);
    assert_eq!(cell.get(one), Value::Bool(true));
    let empty = BlurValue::new(Type::Bool);
    assert_eq!(empty.get(one), Value::Bool(false));
}

#[test]
fn bool_projection_weighs_recent_samples() {
    let mut cell = BlurValue::new(Type::Bool);
    cell.push_bool(true);
    cell.push_bool(true);
    cell.push_bool(false);
    // weights 0.01, 0.1, 1: true share 0.11 / 1.11
    assert_eq!(cell.get(num(0.1)), Value::Bool(false));
    assert_eq!(cell.get(num(1.0)), Value::Bool(true));
    let made = BlurValue::new_bool(true);
    assert_eq!(made.get(num(0.9)), Value::Bool(true));
}

#[test]
fn string_space_is_a_no_op() {
    let mut cell = BlurValue::new(Type::String);
    cell.push_string("ab");
    cell.push_string("a ");
    assert_eq!(cell.string_history, vec![vec!['a', 'a'], vec!['b']]);
    assert_eq!(cell.get(num(1.0)), Value::String("ab".to_string()));
    assert_eq!(cell.get(num(0.5)), Value::String("ab".to_string()));
    // under a decay of 0.9 the rounded average of two equal codes lies just above the code
    let first = ((0.0 + 97.0 * 0.9 + 97.0 * 1.0) / (0.0 + 0.9 + 1.0_f64)).ceil() as u8 as char;
    assert_eq!(cell.get(num(0.9)), Value::String(format!("{}b", first)));
}

#[test]
fn string_positions_blur_on_their_own() {
    let mut cell = BlurValue::new(Type::String);
    cell.push_string("a");
    cell.push_string("c  z");
    // position 0: a, c -> b; positions 1 and 2 empty; position 3: z
    assert_eq!(cell.get(num(1.0)), Value::String("b  z".to_string()));
    cell.push_string("d");
    // (97 + 99 + 100) / 3 = 98.67 -> 99
    assert_eq!(cell.get(num(1.0)), Value::String("c  z".to_string()));
    let empty = BlurValue::new(Type::String);
    assert_eq!(empty.get(num(1.0)), Value::String(String::new()));
}

#[test]
fn string_repeated_push_seeds_samples() {
    let mut cell = BlurValue::new(Type::String);
    cell.push_string_times("hi", 3);
    assert_eq!(cell.string_history, vec![vec!['h', 'h', 'h'], vec!['i', 'i', 'i']]);
    cell.push_string_times("zz", 0);
    assert_eq!(cell.string_history.len(), 2);
}

#[test]
fn string_average_outside_the_characters_is_a_space() {
    let mut cell = BlurValue::new(Type::String);
    // the mean of U+D000 and U+F000 is the surrogate U+E000 - 0x800... pick a pair around the gap
    cell.push_string("\u{D7FF}");
    cell.push_string("\u{E001}");
    // (0xD7FF + 0xE001) / 2 = 0xDC00, a surrogate
    assert_eq!(cell.get(num(1.0)), Value::String(" ".to_string()));
}

#[test]
fn char_projection_is_the_ceiling() {
    let mut cell = BlurValue::new(Type::Char);
    assert_eq!(cell.get(num(1.0)), Value::Char('\0'));
    cell.assign(&Value::Char('a'));
    cell.assign(&Value::Char('d'));
    // (97 + 100) / 2 = 98.5 -> 99
    assert_eq!(cell.get(num(1.0)), Value::Char('c'));
}

#[test]
fn int_projection_is_the_ceiling_and_float_is_exact() {
    let mut i = BlurValue::new(Type::Int);
    let mut f = BlurValue::new(Type::Float);
    for &s in [1.0, 2.0].iter() {
        i.push(num(s));
        f.push(num(s));
    }
    assert_eq!(i.get(num(1.0)), Value::Int(2));
    assert_eq!(f.get(num(1.0)), Value::Float(num(1.5)));
    let mut n = BlurValue::new(Type::Int);
    n.push(num(-1.0));
    n.push(num(-2.0));
    assert_eq!(n.get(num(1.0)), Value::Int(-1));
    assert_eq!(BlurValue::new(Type::Void).get(num(1.0)), Value::Void);
    assert_eq!(BlurValue::new(Type::Float).get(num(1.0)), Value::Float(num(0.0)));
}

#[test]
fn changing_decay_changes_the_projection() {
    let mut cell = BlurValue::new(Type::Int);
    cell.push(num(0.0));
    cell.push(num(10.0));
    assert_eq!(cell.get(num(1.0)), Value::Int(5));
    assert_eq!(cell.get(num(0.0)), Value::Int(10));
    assert_eq!(cell.get(num(0.5)), Value::Int(7));
    assert_eq!(cell.history.len(), 2);
}

#[test]
fn new_with_value_holds_one_sample() {
    let cell = BlurValue::new_with_value(Type::Float, num(2.5));
    assert_eq!(history(&cell), vec![2.5]);
    assert!(!cell.sharp);
    assert_eq!(cell.get(num(0.9)), Value::Float(num(2.5)));
}

#[test]
fn duplicate_copies_every_sample() {
    let mut cell = BlurValue::new(Type::String);
    cell.push(num(1.0));
    cell.push_bool(true);
    cell.push_string("xy");
    let mut copy = cell.duplicate();
    assert_eq!(copy.history, cell.history);
    assert_eq!(copy.bool_history, cell.bool_history);
    assert_eq!(copy.string_history, cell.string_history);
    copy.push(num(2.0));
    copy.push_string("z");
    assert_eq!(cell.history.len(), 1);
    assert_eq!(cell.string_history, vec![vec!['x'], vec!['y']]);
}

#[test]
fn assignment_goes_by_the_type_of_the_cell() {
    let mut b = BlurValue::new(Type::Bool);
    b.assign(&Value::Int(3));
    b.assign(&Value::Float(num(0.0)));
    assert_eq!(b.bool_history, vec![true, false]);
    assert!(b.history.is_empty());
    let mut s = BlurValue::new(Type::String);
    s.assign(&Value::String("ok".to_string()));
    s.assign(&Value::Int(3));
    assert_eq!(s.string_history, vec![vec!['o'], vec!['k']]);
    assert!(s.history.is_empty());
    let mut i = BlurValue::new(Type::Int);
    i.assign(&Value::Bool(true));
    i.assign(&Value::Char('A'));
    i.assign(&Value::String("x".to_string()));
    assert_eq!(history(&i), vec![1.0, 65.0, 0.0]);
}

#[test]
fn compound_assignment_uses_the_raw_average() {
    let one = num(1.0);
    let mut x = BlurValue::new(Type::Int);
    x.push(num(5.0));
    x.push(num(6.0));
    // raw 5.5, projection 6
    x.apply(&Update::Compound(CompoundOp::MulAssign, num(2.0)), one).unwrap();
    assert_eq!(history(&x), vec![5.0, 6.0, 11.0]);
    assert_eq!(apply_compound(CompoundOp::AddAssign, num(1.0), num(2.0)).unwrap(), num(3.0));
    assert_eq!(apply_compound(CompoundOp::SubAssign, num(1.0), num(2.0)).unwrap(), num(-1.0));
    assert_eq!(apply_compound(CompoundOp::DivAssign, num(1.0), num(2.0)).unwrap(), num(0.5));
    assert_eq!(apply_compound(CompoundOp::ModAssign, num(7.0), num(4.0)).unwrap(), num(3.0));
}

#[test]
fn compound_division_by_zero_fails_and_changes_nothing() {
    let one = num(1.0);
    let mut x = BlurValue::new(Type::Int);
    x.push(num(5.0));
    for &zero in [0.0, -0.0].iter() {
        assert_eq!(
            x.apply(&Update::Compound(CompoundOp::DivAssign, num(zero)), one),
            Err(RuntimeError::DivisionByZero)
        );
        assert_eq!(
            x.apply(&Update::Compound(CompoundOp::ModAssign, num(zero)), one),
            Err(RuntimeError::DivisionByZero)
        );
    }
    assert_eq!(history(&x), vec![5.0]);
}

fn next(state: &mut u64) -> u64 {
    *state ^= *state << 13;
    *state ^= *state >> 7;
    *state ^= *state << 17;
    *state
}

fn machine_average(values: &[f64], decay: f64) -> f64 {
    if values.is_empty() {
        return 0.0;
    }
    if decay >= 1.0 {
        return values.iter().fold(0.0, |a, b| a + b) / values.len() as f64;
    }
    let n = values.len();
    let mut weighted_sum = 0.0;
    let mut weight_total = 0.0;
    for (i, &val) in values.iter().enumerate() {
        let weight = decay.powf((n - 1 - i) as f64);
        weighted_sum += val * weight;
        weight_total += weight;
    }
    weighted_sum / weight_total
}

#[test]
fn weights_are_the_powers_of_the_decay() {
    let mut s = 0x9E3779B97F4A7C15u64;
    let mut differing = 0;
    let mut total = 0;
    for _ in 0..60 {
        let decay = (next(&mut s) % 1_000_000) as f64 / 1_000_000.0;
        let w = weights(num(decay), 120);
        for age in 0..120 {
            total += 1;
            let machine = decay.powf(age as f64);
            let ours = back(w[age]);
            if ours != machine {
                differing += 1;
                // a power that the machine rounds the other way is its neighbour
                assert!((ours - machine).abs() <= machine * f64::EPSILON, "{} ^ {}", decay, age);
            }
        }
    }
    assert!(differing * 200 < total, "{} of {}", differing, total);
}

#[test]
fn weighted_average_agrees_with_the_machine() {
    let histories: [&[f64]; 6] = [
        &[5.0, 5.0],
        &[5.0, 5.0, 5.0],
        &[5.0, 6.0, 10.0],
        &[1.0, 2.0, 3.0, 4.0, 5.0, 6.0, 7.0],
        &[0.1, 0.2, 0.3],
        &[97.0, 97.0, 98.0, 120.0],
    ];
    for &decay in [0.0, 0.1, 0.25, 0.5, 0.75, 0.9, 0.99, 1.0].iter() {
        for values in histories.iter() {
            let cells: Vec<Num> = values.iter().map(|v| num(*v)).collect();
            let expected = machine_average(values, decay);
            assert_eq!(back(weighted_avg(&cells, num(decay))), expected, "{:?} at {}", values, decay);
            let mut cell = BlurValue::new(Type::Int);
            for v in values.iter() {
                cell.push(num(*v));
            }
            assert_eq!(cell.get(num(decay)), Value::Int(expected.ceil() as i64));
        }
    }
}

#[test]
fn text_and_boolean_projections_agree_with_the_machine_without_decay() {
    let mut s = 0xA0761D6478BD642Fu64;
    for _ in 0..300 {
        let n = 1 + (next(&mut s) % 40) as usize;
        let chars: Vec<char> = (0..n).map(|_| char::from_u32(0x20 + (next(&mut s) % 0x3000) as u32).unwrap_or('x')).collect();
        let mean = chars.iter().map(|c| *c as u32 as f64).sum::<f64>() / n as f64;
        let expected = char::from_u32(mean.ceil() as u32).unwrap_or(' ');
        assert_eq!(blur::history::project_position(&chars, num(1.0)), expected);
        let flags: Vec<bool> = (0..n).map(|_| next(&mut s) % 2 == 0).collect();
        let ratio = flags.iter().filter(|b| **b).count() as f64 / n as f64;
        assert_eq!(blur::history::project_bool(&flags, num(1.0)), ratio >= 0.5);
        for &decay in [0.3, 0.9].iter() {
            let mut weighted_true = 0.0;
            let mut weight_total = 0.0;
            for (i, &b) in flags.iter().enumerate() {
                let weight = f64::powf(decay, (n - 1 - i) as f64);
                if b {
                    weighted_true += weight;
                }
                weight_total += weight;
            }
            assert_eq!(blur::history::project_bool(&flags, num(decay)), weighted_true / weight_total >= 0.5);
            let values: Vec<f64> = chars.iter().map(|c| *c as u32 as f64).collect();
            let code = machine_average(&values, decay).ceil() as u32;
            assert_eq!(blur::history::project_position(&chars, num(decay)), char::from_u32(code).unwrap_or(' '));
        }
    }
}

#[test]
fn sample_count_goes_by_the_type() {
    let mut flags = BlurValue::new(Type::Bool);
    flags.push_bool(true);
    flags.push_bool(false);
    flags.push(num(1.0));
    assert_eq!(flags.sample_count(), 2);
    let mut n = BlurValue::new(Type::Int);
    n.push(num(1.0));
    n.push_bool(true);
    n.push_bool(true);
    assert_eq!(n.sample_count(), 1);
    assert_eq!(BlurValue::new(Type::String).sample_count(), 0);
}

#[test]
fn values_and_types_are_copied() {
    let values = [
        Value::Int(3),
        Value::Float(num(2.5)),
        Value::Bool(true),
        Value::Char('x'),
        Value::String("text".to_string()),
        Value::Void,
    ];
    for v in values.iter() {
        assert_eq!(&v.duplicate(), v);
    }
    let t = Type::Array(Box::new(Type::Array(Box::new(Type::Char), 2)), 3);
    assert_eq!(t.duplicate(), t);
    assert_eq!(t.clone(), t);
}

#[test]
fn older_samples_weigh_less_under_every_fading_decay() {
    let mut s = 0x0123456789ABCDEFu64;
    for i in 0..200 {
        let decay = if i == 0 { 0.0 } else if i == 1 { -0.0 } else if i == 2 { 1.0 - f64::EPSILON / 2.0 } else { (next(&mut s) % 1_000_000) as f64 / 1_000_000.0 };
        let w = weights(num(decay), 40);
        assert_eq!(back(w[0]), 1.0);
        for age in 1..40 {
            assert!(back(w[age]) < 1.0, "{} ^ {}", decay, age);
        }
        assert_eq!(back(w[1]), decay);
    }
    // outside the range that a decay is kept in, the powers are as they come
    let w = weights(num(-2.0), 4);
    assert_eq!(back(w[2]), 4.0);
    assert_eq!(back(w[3]), -8.0);
}
