use blur::ast::{Expr, Type};
use blur::error::{ParseError, RuntimeError};
use blur::eval::{eval_expr_as_blur, ControlFlow};
use blur::history::BlurValue;
use blur::interpreter::{set_decay, Failure, Interpreter};
use blur::number::Num;
use blur::parser::Parser;
use blur::state::Emit;
use blur::value::Value;

fn num(x: f64) -> Num {
    Num::from_bits(x.to_bits())
}

fn started(decay: f64) -> Interpreter {
    let mut interpreter = Interpreter::new();
    set_decay(&mut interpreter.state, num(decay));
    interpreter
}

fn run(source: &str, decay: f64) -> (Result<Value, RuntimeError>, Vec<Emit>) {
    let program = Parser::new(source).parse_program().expect("the program parses");
    let mut interpreter = started(decay);
    let result = interpreter.run(program);
    (result, interpreter.take_output())
}

fn lines(source: &str, decay: f64) -> Vec<String> {
    let (result, output) = run(source, decay);
    assert!(result.is_ok(), "{:?}", result);
    output
        .into_iter()
        .map(|e| match e {
            Emit::Line(text) => text,
            Emit::Warning(text) => format!("warning: {}", text),
        })
        .collect()
}

fn body(code: &str) -> String {
    format!("void blur() {{ {} }}", code)
}

#[test]
fn money_program() {
    let out = lines(&body("int money = 5; print(money); money++; print(money); money = 10; print(money);"), 1.0);
    assert_eq!(out, vec!["5", "6", "7"]);
}

#[test]
fn default_decay_is_nine_tenths() {
    let interpreter = Interpreter::new();
    assert_eq!(interpreter.state.decay, num(0.9));
    assert_eq!(interpreter.state.scopes.len(), 1);
    assert_eq!(interpreter.fuel, u64::MAX);
    let out = lines(&body("print(get_blur());"), 0.9);
    assert_eq!(out, vec!["0.9"]);
}

#[test]
fn print_joins_natural_texts_with_spaces() {
    let out = lines(
        "void nothing() { } void blur() { print(1, 2.5, true, false, 'c', \"text\", nothing(), 1 + 2, 7 / 2); print(); }",
        1.0,
    );
    assert_eq!(out, vec!["1 2.5 true false c text void 3 3.5", ""]);
}

#[test]
fn run_without_blur_gives_void() {
    let (result, output) = run("int f() { return 1; }", 0.9);
    assert_eq!(result, Ok(Value::Void));
    assert!(output.is_empty());
}

#[test]
fn run_gives_what_blur_returns() {
    let (result, _) = run("int blur() { return 3 * 4; }", 0.9);
    assert_eq!(result, Ok(Value::Float(num(12.0))));
    let (result, _) = run("int blur() { int x = 3; }", 0.9);
    assert_eq!(result, Ok(Value::Void));
}

#[test]
fn later_definition_replaces_an_earlier_one() {
    let (result, _) = run("int blur() { return 1; } int blur() { return 2; }", 0.9);
    assert_eq!(result, Ok(Value::Int(2)));
}

#[test]
fn index_out_of_bounds_carries_index_and_size() {
    for (code, index) in [("a[3] = 1;", 3), ("a[0 - 1] = 1;", -1), ("print(a[3]);", 3), ("print(a[-1]);", -1), ("a[3]++;", 3), ("a[7] += 1;", 7), ("f(a[3]);", 3)] {
        let (result, _) = run(&format!("void f(int p) {{ }} void blur() {{ int a[3]; {} }}", code), 0.9);
        assert_eq!(result, Err(RuntimeError::IndexOutOfBounds { index, size: 3 }), "{}", code);
    }
    let out = lines(&body("int a[3]; a[0] = 4; a[2] = 6; a[2.9] = 8; print(a[0], a[1], a[2]);"), 1.0);
    assert_eq!(out, vec!["4 0 7"]);
}

#[test]
fn division_and_remainder_by_zero_fail() {
    for code in ["print(1 / 0);", "print(1 % 0);", "print(1 / 0.0);", "print(5 % (2 - 2));", "int x = 1; x /= 0;", "int x = 1; x %= 0;", "int a[2]; a[0] /= 0;", "int a[2]; a[1] %= 0;", "print(1 / false);", "print(1 / \"text\");"] {
        let (result, _) = run(&body(code), 0.9);
        assert_eq!(result, Err(RuntimeError::DivisionByZero), "{}", code);
    }
    let out = lines(&body("print(7 / 2, 7 % 4, 1 / 0.5);"), 0.9);
    assert_eq!(out, vec!["3.5 3 2"]);
}

#[test]
fn argument_carries_history_by_value() {
    let out = lines(
        "void f(int p) { print(p); p = 100; print(p); } void blur() { int x = 5; x = 7; f(x); print(x); }",
        1.0,
    );
    // x holds 5 and 7; p starts with both, then holds 5, 7, 100
    assert_eq!(out, vec!["6", "38", "6"]);
}

#[test]
fn argument_cell_has_the_history_of_the_variable() {
    let mut interpreter = started(1.0);
    let mut x = BlurValue::new(Type::Int);
    x.push(num(1.0));
    x.push(num(2.0));
    x.push(num(3.0));
    interpreter.state.declare_var("x".to_string(), x);
    let mut cells = vec![BlurValue::new(Type::Int), BlurValue::new(Type::Int)];
    cells[1].push(num(9.0));
    interpreter.state.declare_array("a".to_string(), cells);
    let copy = eval_expr_as_blur(&interpreter.functions, &mut interpreter.state, &Expr::Var("x".to_string()), 10).unwrap();
    assert_eq!(copy.history.len(), 3);
    let element = eval_expr_as_blur(
        &interpreter.functions,
        &mut interpreter.state,
        &Expr::ArrayAccess("a".to_string(), Box::new(Expr::IntLit(1))),
        10,
    )
    .unwrap();
    assert_eq!(element.history, vec![num(9.0)]);
    let fresh = eval_expr_as_blur(&interpreter.functions, &mut interpreter.state, &Expr::IntLit(4), 10).unwrap();
    assert_eq!(fresh.history, vec![num(4.0)]);
    assert_eq!(fresh.var_type, Type::Float);
}

#[test]
fn any_other_argument_is_a_fresh_float() {
    let out = lines("void f(int p) { p = 2; print(p); } void blur() { int x = 1; f(x + 0); }", 1.0);
    assert_eq!(out, vec!["1.5"]);
}

#[test]
fn plain_for_loop_stops_after_a_thousand_turns() {
    let (result, output) = run(&body("int n = 0; for (;;) { n = n + 1; } print(n);"), 0.0);
    assert_eq!(result, Ok(Value::Void));
    assert_eq!(
        output,
        vec![
            Emit::Warning("Warning: for loop hit 1000 iteration limit (use 'sharp for' for unlimited)".to_string()),
            Emit::Line("1000".to_string()),
        ]
    );
}

#[test]
fn plain_for_loop_below_the_cap_does_not_warn() {
    let out = lines(&body("int n = 0; for (; n < 999; ) { n = n + 1; } print(n);"), 0.0);
    assert_eq!(out, vec!["999"]);
}

#[test]
fn sharp_for_loop_is_not_capped() {
    let out = lines(&body("int n = 0; sharp for (int i = 0; i < 1500; i++) { n = n + 1; } print(n);"), 0.0);
    assert_eq!(out, vec!["1500"]);
}

#[test]
fn sharp_counter_does_not_blur() {
    let out = lines(&body("sharp for (int i = 0; i < 4; i++) { print(i); }"), 1.0);
    assert_eq!(out, vec!["0", "1", "2", "3"]);
}

#[test]
fn plain_counter_blurs() {
    // i holds 0, then 0 and 1 (shown as 1), then 0, 1 and 1.5 (shown as 1), and so on
    let out = lines(&body("for (int i = 0; i < 2; i++) { print(i); }"), 1.0);
    assert_eq!(out[0], "0");
    assert_eq!(out[1], "1");
    assert!(out.len() > 2);
}

#[test]
fn while_loop_runs_until_the_condition_fails() {
    let out = lines(&body("int n = 0; while (n < 3) { n = n + 1; } print(n);"), 0.0);
    assert_eq!(out, vec!["3"]);
}

#[test]
fn if_takes_exactly_one_branch() {
    let out = lines(&body("if (1 < 2) print(1); else print(2); if (0) print(3); else print(4); if (0) print(5);"), 0.9);
    assert_eq!(out, vec!["1", "4"]);
}

#[test]
fn return_leaves_loops_and_blocks() {
    let out = lines(
        "int f() { while (true) { { for (;;) { return 7; } } } } void blur() { print(f()); print(1); }",
        0.9,
    );
    assert_eq!(out, vec!["7", "1"]);
}

#[test]
fn block_scope_ends_with_the_block() {
    let (result, output) = run(&body("int x = 1; { int x = 2; int y = 3; print(x); } print(x); print(y);"), 0.9);
    assert_eq!(result, Err(RuntimeError::UndefinedVar("y".to_string())));
    assert_eq!(output, vec![Emit::Line("2".to_string()), Emit::Line("1".to_string())]);
}

#[test]
fn undefined_names_fail() {
    let (result, _) = run(&body("print(x);"), 0.9);
    assert_eq!(result, Err(RuntimeError::UndefinedVar("x".to_string())));
    let (result, _) = run(&body("x = 1;"), 0.9);
    assert_eq!(result, Err(RuntimeError::UndefinedVar("x".to_string())));
    let (result, _) = run(&body("a[0] = 1;"), 0.9);
    assert_eq!(result, Err(RuntimeError::UndefinedVar("a".to_string())));
    let (result, _) = run(&body("f(1);"), 0.9);
    assert_eq!(result, Err(RuntimeError::UndefinedFunc("f".to_string())));
    // a variable and an array of one name do not hide each other
    let out = lines(&body("int v = 1; int v[2]; v[0] = 5; print(v, v[0]);"), 0.9);
    assert_eq!(out, vec!["1 5"]);
}

#[test]
fn increments_give_the_value_before_or_after() {
    let out = lines(&body("int x = 4; print(x++); print(x); print(++x); print(x--); print(--x);"), 0.0);
    assert_eq!(out, vec!["4", "5", "6", "6", "4"]);
    let out = lines(&body("int a[1]; a[0] = 4; print(a[0]++); print(++a[0]); print(a[0]--); print(--a[0]);"), 0.0);
    assert_eq!(out, vec!["4", "6", "6", "4"]);
}

#[test]
fn compound_assignments_work_on_the_raw_average() {
    let out = lines(&body("int x = 5; x = 6; x *= 2; print(x); float y = 1; y += 2; y -= 0.5; y /= 2; print(y);"), 1.0);
    // x holds 5, 6, 11; y holds 1, 3, 1.5, 0.9166...
    assert_eq!(out[0], "8");
    let expected = (1.0 + 3.0 + 1.5 + ((1.0 + 3.0 + 1.5) / 3.0) / 2.0) / 4.0_f64;
    assert_eq!(out[1], format!("{}", expected));
}

#[test]
fn operators_work_on_numbers_and_truth() {
    let out = lines(
        &body("print(1 + 2 * 3, (1 + 2) * 3, 7 - 10, -3, !0, !1, 1 < 2, 2 <= 2, 3 > 4, 4 >= 5, 1 == 1, 1 != 1, 1 && 0, 1 || 0, 'a' + 1, true + true);"),
        0.9,
    );
    assert_eq!(out, vec!["7 9 -3 -3 true false true true false false true false false true 98 2"]);
}

#[test]
fn equality_is_up_to_epsilon() {
    let out = lines(&body("print(0.1 + 0.2 == 0.3, 0.1 + 0.2 != 0.3, 1 == 1.0000001, 1 != 1.0000001);"), 0.9);
    assert_eq!(out, vec!["true false false true"]);
}

#[test]
fn negation_gives_a_float() {
    let mut interpreter = started(0.9);
    let mut parser = Parser::new("-5");
    let expr = parser.parse_expr().unwrap();
    assert_eq!(interpreter.eval_expr(&expr), Ok(Value::Float(num(-5.0))));
    let mut parser = Parser::new("5");
    let expr = parser.parse_expr().unwrap();
    assert_eq!(interpreter.eval_expr(&expr), Ok(Value::Int(5)));
}

#[test]
fn string_repeat_repeats_text_as_a_value() {
    let out = lines(&body("print(\"ab\" * 3); print(\"ab\" * 0); print(\"x\" * 2.9);"), 0.9);
    assert_eq!(out, vec!["ababab", "", "xx"]);
}

#[test]
fn string_repeat_seeds_samples_in_a_declaration() {
    let out = lines(&body("string s = \"a\" * 3; print(s); s = \"c\"; print(s); s = \"e\" * 2; print(s);"), 1.0);
    // s holds a, a, a; then a, a, a, c (97.5 -> b); then two e more (98.67 -> c)
    assert_eq!(out, vec!["a", "b", "c"]);
}

#[test]
fn blurstr_blends_its_arguments() {
    let out = lines(&body("print(blurstr(\"ac\", \"c \", \"a\" * 2)); print(blurstr()); print(blurstr(1, \"z\"));"), 1.0);
    // position 0: a, c, a, a -> 97.5 -> b; position 1: c
    assert_eq!(out, vec!["bc", "", "z"]);
}

#[test]
fn array_declaration_assigns_initial_values() {
    let out = lines(&body("int a[3] = {1, 2}; print(a[0], a[1], a[2]); bool b[2] = {1, 0, 1}; print(b[0], b[1]);"), 0.9);
    assert_eq!(out, vec!["1 2 0", "true false"]);
}

#[test]
fn bool_and_string_variables_blur_by_their_rules() {
    let out = lines(&body("bool b = true; b = false; print(b); b = false; print(b); string s = \"ab\"; s = \"a \"; print(s); char c = 'a'; c = 'c'; print(c);"), 1.0);
    assert_eq!(out, vec!["true", "false", "ab", "b"]);
}

#[test]
fn functions_see_the_scopes_of_their_callers() {
    let out = lines("void bump() { n = n + 1; } void blur() { int n = 1; bump(); print(n); }", 0.0);
    assert_eq!(out, vec!["2"]);
}

#[test]
fn recursion_works() {
    let out = lines(
        "int fact(int n) { if (n <= 1) { return 1; } return n * fact(n - 1); } void blur() { print(fact(5)); }",
        0.9,
    );
    assert_eq!(out, vec!["120"]);
}

#[test]
fn missing_arguments_leave_parameters_unbound() {
    let (result, _) = run("void f(int a, int b) { print(a); print(b); } void blur() { f(1); }", 0.9);
    assert_eq!(result, Err(RuntimeError::UndefinedVar("b".to_string())));
}

#[test]
fn evaluation_out_of_fuel_fails() {
    let program = Parser::new(&body("while (true) { }")).parse_program().unwrap();
    let mut interpreter = Interpreter::new();
    interpreter.fuel = 100;
    assert_eq!(interpreter.run(program), Err(RuntimeError::out_of_fuel()));
    assert_eq!(RuntimeError::out_of_fuel(), RuntimeError::InvalidOp("evaluation ran out of fuel".to_string()));
    let program = Parser::new("void blur() { blur(); }").parse_program().unwrap();
    let mut interpreter = Interpreter::new();
    interpreter.fuel = 1000;
    assert_eq!(interpreter.run(program), Err(RuntimeError::out_of_fuel()));
}

#[test]
fn statements_run_one_by_one_on_one_interpreter() {
    let mut interpreter = started(1.0);
    let mut parser = Parser::new("int x = 5; x = 7; return x; x;");
    let one = parser.parse_stmt().unwrap();
    let two = parser.parse_stmt().unwrap();
    let three = parser.parse_stmt().unwrap();
    assert!(matches!(interpreter.exec_stmt(&one), Ok(ControlFlow::Proceed)));
    assert!(matches!(interpreter.exec_stmt(&two), Ok(ControlFlow::Proceed)));
    match interpreter.exec_stmt(&three) {
        Ok(ControlFlow::Return(value)) => assert_eq!(value, Value::Int(6)),
        other => panic!("{:?}", other),
    }
    assert_eq!(interpreter.state.scopes.len(), 1);
    assert_eq!(interpreter.state.scopes[0].vars.entries.len(), 1);
    assert_eq!(interpreter.state.scopes[0].vars.entries[0].value.history.len(), 2);
}

#[test]
fn changing_decay_between_reads_changes_what_is_read() {
    let mut interpreter = started(1.0);
    let mut parser = Parser::new("int x = 0; x = 10;");
    let one = parser.parse_stmt().unwrap();
    let two = parser.parse_stmt().unwrap();
    interpreter.exec_stmt(&one).unwrap();
    interpreter.exec_stmt(&two).unwrap();
    let x = Parser::new("x").parse_expr().unwrap();
    assert_eq!(interpreter.eval_expr(&x), Ok(Value::Int(5)));
    set_decay(&mut interpreter.state, num(0.0));
    assert_eq!(interpreter.eval_expr(&x), Ok(Value::Int(10)));
    set_decay(&mut interpreter.state, num(0.5));
    assert_eq!(interpreter.eval_expr(&x), Ok(Value::Int(7)));
}

#[test]
fn call_function_binds_cells() {
    let mut interpreter = started(1.0);
    let program = Parser::new("int twice(int n) { return n * 2; }").parse_program().unwrap();
    interpreter.run(program).unwrap();
    let mut cell = BlurValue::new(Type::Int);
    cell.push(num(3.0));
    cell.push(num(4.0));
    assert_eq!(interpreter.call_function("twice", vec![cell]), Ok(Value::Float(num(8.0))));
    assert_eq!(interpreter.call_function("thrice", vec![]), Err(RuntimeError::UndefinedFunc("thrice".to_string())));
    assert_eq!(interpreter.state.scopes.len(), 1);
}

#[test]
fn errors_have_messages() {
    assert_eq!(RuntimeError::UndefinedVar("x".to_string()).message(), "Undefined variable: x");
    assert_eq!(RuntimeError::UndefinedFunc("f".to_string()).message(), "Undefined function: f");
    assert_eq!(RuntimeError::DivisionByZero.message(), "Division by zero");
    assert_eq!(
        RuntimeError::IndexOutOfBounds { index: -1, size: 3 }.message(),
        "Array index out of bounds: -1 for array of size 3"
    );
    assert_eq!(
        RuntimeError::TypeMismatch { expected: "int".to_string(), got: "bool".to_string() }.message(),
        "Type mismatch: expected int, got bool"
    );
    assert_eq!(RuntimeError::InvalidOp("nope".to_string()).message(), "Invalid operation: nope");
    assert_eq!(
        RuntimeError::IndexOutOfBounds { index: i64::MIN, size: usize::MAX }.message(),
        format!("Array index out of bounds: {} for array of size {}", i64::MIN, usize::MAX)
    );
}

#[test]
fn values_coerce_to_numbers_and_truth() {
    assert_eq!(Value::Int(-3).to_f64(), num(-3.0));
    assert_eq!(Value::Float(num(2.5)).to_f64(), num(2.5));
    assert_eq!(Value::Bool(true).to_f64(), num(1.0));
    assert_eq!(Value::Bool(false).to_f64(), num(0.0));
    assert_eq!(Value::Char('A').to_f64(), num(65.0));
    assert_eq!(Value::String("7".to_string()).to_f64(), num(0.0));
    assert_eq!(Value::Void.to_f64(), num(0.0));
    assert!(Value::Int(2).to_bool());
    assert!(!Value::Int(0).to_bool());
    assert!(!Value::Float(num(-0.0)).to_bool());
    assert!(Value::Float(num(f64::NAN)).to_bool());
    assert!(Value::Char('a').to_bool());
    assert!(!Value::Char('\0').to_bool());
    assert!(!Value::String("true".to_string()).to_bool());
    assert!(!Value::Void.to_bool());
    assert_eq!(Value::Int(1).kind_name(), "int");
    assert_eq!(Value::Float(num(1.0)).kind_name(), "float");
    assert_eq!(Value::Bool(true).kind_name(), "bool");
    assert_eq!(Value::Char('c').kind_name(), "char");
    assert_eq!(Value::String(String::new()).kind_name(), "string");
    assert_eq!(Value::Void.kind_name(), "void");
    assert_eq!(Value::Int(-42).render(), "-42");
    assert_eq!(Value::Int(i64::MIN).render(), i64::MIN.to_string());
    assert_eq!(Value::Void.render(), "void");
}

#[test]
fn a_declaration_replaces_one_of_the_same_scope() {
    let out = lines(&body("int x = 1; x = 3; int x = 5; print(x); { int x = 9; print(x); x = 11; } print(x);"), 1.0);
    assert_eq!(out, vec!["5", "9", "5"]);
}

#[test]
fn assignment_is_an_expression() {
    let mut interpreter = started(1.0);
    let stmt = Parser::new("int x = 4;").parse_stmt().unwrap();
    interpreter.exec_stmt(&stmt).unwrap();
    let assign = Expr::Assign("x".to_string(), Box::new(Expr::IntLit(6)));
    assert_eq!(interpreter.eval_expr(&assign), Ok(Value::Int(5)));
    let compound = Expr::CompoundAssign("x".to_string(), blur::ast::CompoundOp::AddAssign, Box::new(Expr::IntLit(1)));
    // raw average 5, so 6 is recorded: 4, 6, 6
    assert_eq!(interpreter.eval_expr(&compound), Ok(Value::Int(6)));
    let missing = Expr::Assign("y".to_string(), Box::new(Expr::IntLit(6)));
    assert_eq!(interpreter.eval_expr(&missing), Err(RuntimeError::UndefinedVar("y".to_string())));
}

#[test]
fn an_error_leaves_the_scopes_that_were_open() {
    let mut interpreter = started(1.0);
    let stmt = Parser::new("{ int x = 1; { print(y); } }").parse_stmt().unwrap();
    assert_eq!(interpreter.exec_stmt(&stmt).err(), Some(RuntimeError::UndefinedVar("y".to_string())));
    assert_eq!(interpreter.state.scopes.len(), 3);
    let stmt = Parser::new("{ int x = 1; { print(x); } }").parse_stmt().unwrap();
    assert!(interpreter.exec_stmt(&stmt).is_ok());
    assert_eq!(interpreter.state.scopes.len(), 3);
}

#[test]
fn a_source_is_parsed_and_run() {
    let mut interpreter = started(1.0);
    assert_eq!(interpreter.run_source("int blur() { print(1); return 2; }"), Ok(Value::Int(2)));
    assert_eq!(interpreter.take_output(), vec![Emit::Line("1".to_string())]);
    assert_eq!(interpreter.run_source("int blur() {"), Err(Failure::Parse(ParseError::UnexpectedEof)));
    // what did not parse has changed nothing
    assert_eq!(interpreter.run_source("int other() { return 3; }"), Ok(Value::Int(2)));
    assert_eq!(
        interpreter.run_source("void blur() { print(1 / 0); }"),
        Err(Failure::Runtime(RuntimeError::DivisionByZero))
    );
    assert!(interpreter.functions.contains("other"));
}

#[test]
fn a_character_counts_by_its_whole_code() {
    assert_eq!(Value::Char('\u{100}').to_f64(), num(256.0));
    assert_eq!(Value::Char('\u{20AC}').to_f64(), num(8364.0));
    assert_eq!(Value::Char('\u{10FFFF}').to_f64(), num(1114111.0));
    assert_eq!(Value::Char('\u{FF}').to_f64(), num(255.0));
    let out = lines(&body("print('\u{100}' + 1, '\u{20AC}' > 'z', '\u{100}' - '\u{FF}', '\u{100}' == 0);"), 0.9);
    assert_eq!(out, vec!["257 true 1 false"]);
    let out = lines(&body("int a[300]; a['\u{100}'] = 7; print(a[256]); int n = '\u{100}'; n += '\u{100}'; print(n);"), 0.0);
    assert_eq!(out, vec!["7", "512"]);
}

#[test]
fn a_character_cell_shows_characters_beyond_latin() {
    let out = lines(&body("char c = '\u{100}'; print(c); c = '\u{103}'; print(c); c = '\u{20AC}'; print(c);"), 1.0);
    // 256; then (256 + 259) / 2 = 257.5 -> 258; then (256 + 259 + 8364) / 3 = 2959.67 -> 2960
    assert_eq!(out, vec!["\u{100}", "\u{102}", "\u{B90}"]);
    let mut cell = BlurValue::new(Type::Char);
    cell.assign(&Value::Char('\u{D7FF}'));
    cell.assign(&Value::Char('\u{E001}'));
    // the mean 0xDC00 is the code of no character
    assert_eq!(cell.get(num(1.0)), Value::Char(' '));
    let mut low = BlurValue::new(Type::Char);
    low.push(num(-5.0));
    assert_eq!(low.get(num(1.0)), Value::Char('\0'));
    let mut high = BlurValue::new(Type::Char);
    high.push(num(1e12));
    assert_eq!(high.get(num(1.0)), Value::Char(' '));
    assert_eq!(BlurValue::new(Type::Char).get(num(1.0)), Value::Char('\0'));
}

#[test]
fn what_has_no_part_to_evaluate_needs_no_fuel() {
    let mut interpreter = started(0.0);
    let declare = Parser::new("int x = 4;").parse_stmt().unwrap();
    interpreter.exec_stmt(&declare).unwrap();
    interpreter.fuel = 0;
    assert_eq!(interpreter.eval_expr(&Expr::IntLit(3)), Ok(Value::Int(3)));
    assert_eq!(interpreter.eval_expr(&Expr::StringLit("s".to_string())), Ok(Value::String("s".to_string())));
    assert_eq!(interpreter.eval_expr(&Expr::Var("x".to_string())), Ok(Value::Int(4)));
    assert_eq!(interpreter.eval_expr(&Expr::PostIncrement("x".to_string())), Ok(Value::Int(4)));
    assert_eq!(interpreter.eval_expr(&Expr::PreDecrement("x".to_string())), Ok(Value::Int(4)));
    assert_eq!(interpreter.eval_expr(&Expr::Var("y".to_string())), Err(RuntimeError::UndefinedVar("y".to_string())));
    let step = Parser::new("x++;").parse_stmt().unwrap();
    assert!(matches!(interpreter.exec_stmt(&step), Ok(ControlFlow::Proceed)));
    let copy = eval_expr_as_blur(&interpreter.functions, &mut interpreter.state, &Expr::Var("x".to_string()), 0).unwrap();
    assert_eq!(copy.history.len(), 4);
    let sum = Parser::new("x + 1").parse_expr().unwrap();
    assert_eq!(interpreter.eval_expr(&sum), Err(RuntimeError::out_of_fuel()));
    assert_eq!(interpreter.exec_stmt(&declare).err(), Some(RuntimeError::out_of_fuel()));
    interpreter.fuel = 2;
    assert_eq!(interpreter.eval_expr(&sum), Ok(Value::Float(num(6.0))));
}
