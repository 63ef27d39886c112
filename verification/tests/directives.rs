use blur::directive::process_directives;
use blur::interpreter::{get_decay, set_decay};
use blur::number::Num;
use blur::numeral::parse_number;
use blur::state::State;

fn num(x: f64) -> Num {
    Num::from_bits(x.to_bits())
}

fn back(x: Num) -> f64 {
    f64::from_bits(x.to_bits())
}

#[test]
fn a_directive_sets_the_decay_and_leaves_the_source() {
    let mut state = State::new(num(0.9));
    let rest = process_directives(&mut state, "#blur 0.5\nint x = 5;\n  #blur 0.25  \nprint(x);");
    assert_eq!(rest, "int x = 5;\nprint(x);");
    assert_eq!(back(get_decay(&state)), 0.25);
}

#[test]
fn a_directive_without_a_number_changes_nothing() {
    let mut state = State::new(num(0.9));
    let rest = process_directives(&mut state, "#blur\n#blur much\r\nx;\r\n");
    assert_eq!(rest, "x;");
    assert_eq!(back(get_decay(&state)), 0.9);
}

#[test]
fn a_directive_is_clamped() {
    let mut state = State::new(num(0.9));
    process_directives(&mut state, "#blur 7");
    assert_eq!(back(get_decay(&state)), 1.0);
    process_directives(&mut state, "#blur -3e2");
    assert_eq!(back(get_decay(&state)), 0.0);
}

#[test]
fn lines_are_joined_by_line_feeds() {
    let mut state = State::new(num(0.9));
    assert_eq!(process_directives(&mut state, ""), "");
    assert_eq!(process_directives(&mut state, "\n"), "");
    assert_eq!(process_directives(&mut state, "\n\n"), "\n");
    assert_eq!(process_directives(&mut state, "a\r\nb\r"), "a\nb\r");
    assert_eq!(process_directives(&mut state, "a\n#blur 1\n\nb\n"), "a\n\nb");
}

#[test]
fn set_decay_clamps() {
    let mut state = State::new(num(0.9));
    set_decay(&mut state, num(0.3));
    assert_eq!(back(get_decay(&state)), 0.3);
    set_decay(&mut state, num(1.5));
    assert_eq!(back(get_decay(&state)), 1.0);
    set_decay(&mut state, num(-0.5));
    assert_eq!(back(get_decay(&state)), 0.0);
    set_decay(&mut state, num(f64::NAN));
    assert!(back(get_decay(&state)).is_nan());
}

#[test]
fn numerals_read_as_the_machine_reads_them() {
    let good = [
        "0", "1", "0.5", ".5", "5.", "1e3", "1E3", "1e+3", "1.5e-3", "+2.5", "-2.5", "0.1", "0.9",
        "123456789012345678901234567890", "1e400", "1e-400", "4.9e-324", "inf", "-inf", "+inf",
        "Infinity", "INF", "0.30000000000000004", "9007199254740993", "2.2250738585072011e-308",
    ];
    for text in good.iter() {
        let expected: f64 = text.parse().unwrap();
        let got = parse_number(text).unwrap();
        assert_eq!(got.to_bits(), expected.to_bits(), "{}", text);
    }
    assert!(back(parse_number("nan").unwrap()).is_nan());
    assert!(back(parse_number("-NaN").unwrap()).is_nan());
    let bad = ["", " ", "1 ", " 1", ".", "e5", "1e", "1e+", "+", "-", "0x10", "1.2.3", "abc", "1_000", "infinit", "--1"];
    for text in bad.iter() {
        assert!(text.parse::<f64>().is_err(), "{}", text);
        assert!(parse_number(text).is_none(), "{}", text);
    }
}

fn next(state: &mut u64) -> u64 {
    *state ^= *state << 13;
    *state ^= *state >> 7;
    *state ^= *state << 17;
    *state
}

#[test]
fn many_numerals_read_as_the_machine_reads_them() {
    let mut s = 0xD1B54A32D192ED03u64;
    for i in 0..3000u64 {
        let mut text = String::new();
        if i % 5 == 0 {
            text.push('-');
        }
        let whole = 1 + next(&mut s) % 20;
        for _ in 0..whole {
            text.push((b'0' + (next(&mut s) % 10) as u8) as char);
        }
        if i % 2 == 0 {
            text.push('.');
            let fraction = next(&mut s) % 25;
            for _ in 0..fraction {
                text.push((b'0' + (next(&mut s) % 10) as u8) as char);
            }
        }
        if i % 3 == 0 {
            text.push(if i % 6 == 0 { 'e' } else { 'E' });
            let exponent = (next(&mut s) % 700) as i64 - 350;
            text.push_str(&exponent.to_string());
        }
        let expected: f64 = text.parse().unwrap();
        let got = parse_number(&text).unwrap();
        assert_eq!(got.to_bits(), expected.to_bits(), "{}", text);
    }
}
