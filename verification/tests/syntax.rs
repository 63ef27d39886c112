use blur::ast::{BinOp, CompoundOp, Expr, Stmt, Type, UnaryOp};
use blur::error::ParseError;
use blur::lexer::{looks_like_function, tokenize, Token};
use blur::number::Num;
use blur::parser::Parser;

fn num(x: f64) -> Num {
    Num::from_bits(x.to_bits())
}

fn id(name: &str) -> Token {
    Token::Identifier(name.to_string())
}

#[test]
fn tokens_of_a_small_program() {
    let tokens = tokenize("int main() { x += 1.5; // note\n return 'c'; /* long\n comment */ }");
    assert_eq!(
        tokens,
        vec![
            Token::Int,
            id("main"),
            Token::LParen,
            Token::RParen,
            Token::LBrace,
            id("x"),
            Token::PlusAssign,
            Token::FloatLiteral(num(1.5)),
            Token::Semicolon,
            Token::Return,
            Token::CharLiteral('c'),
            Token::Semicolon,
            Token::RBrace,
        ]
    );
}

#[test]
fn keywords_and_identifiers() {
    let tokens = tokenize("int float bool char string void if else while for return true false print sharp integer _x x1 Int");
    assert_eq!(
        tokens,
        vec![
            Token::Int, Token::Float, Token::Bool, Token::Char, Token::StringType, Token::Void,
            Token::If, Token::Else, Token::While, Token::For, Token::Return, Token::True,
            Token::False, Token::Print, Token::Sharp, id("integer"), id("_x"), id("x1"), id("Int"),
        ]
    );
}

#[test]
fn operators_take_the_longest_match() {
    let tokens = tokenize("+ ++ += - -- -= * *= / /= % %= = == ! != < <= > >= && || ( ) { } [ ] ; , +++ ===");
    assert_eq!(
        tokens,
        vec![
            Token::Plus, Token::PlusPlus, Token::PlusAssign, Token::Minus, Token::MinusMinus,
            Token::MinusAssign, Token::Star, Token::StarAssign, Token::Slash, Token::SlashAssign,
            Token::Percent, Token::PercentAssign, Token::Assign, Token::Equal, Token::Not,
            Token::NotEqual, Token::Less, Token::LessEqual, Token::Greater, Token::GreaterEqual,
            Token::And, Token::Or, Token::LParen, Token::RParen, Token::LBrace, Token::RBrace,
            Token::LBracket, Token::RBracket, Token::Semicolon, Token::Comma, Token::PlusPlus,
            Token::Plus, Token::Equal, Token::Assign,
        ]
    );
}

#[test]
fn literals() {
    let tokens = tokenize("12 007 3.25 1. .5 \"a b\" \"q\\\"q\" 'x' \"\"");
    assert_eq!(
        tokens,
        vec![
            Token::IntLiteral(12),
            Token::IntLiteral(7),
            Token::FloatLiteral(num(3.25)),
            Token::IntLiteral(1),
            Token::IntLiteral(5),
            Token::StringLiteral("a b".to_string()),
            Token::StringLiteral("q\\\"q".to_string()),
            Token::CharLiteral('x'),
            Token::StringLiteral(String::new()),
        ]
    );
    assert_eq!(tokenize("0.1"), vec![Token::FloatLiteral(num(0.1))]);
    assert_eq!(tokenize("'' 'x'"), vec![Token::CharLiteral(' '), id("x")]);
    assert_eq!(tokenize("'''"), vec![Token::CharLiteral('\'')]);
    assert_eq!(tokenize("9223372036854775807"), vec![Token::IntLiteral(i64::MAX)]);
}

#[test]
fn what_begins_no_token_is_passed_over() {
    assert_eq!(tokenize("a @ b # $ c"), vec![id("a"), id("b"), id("c")]);
    assert_eq!(tokenize("a & b | c"), vec![id("a"), id("b"), id("c")]);
    assert_eq!(tokenize("9223372036854775808 1"), vec![Token::IntLiteral(1)]);
    assert_eq!(tokenize("\"open"), vec![id("open")]);
    assert_eq!(tokenize("/* open"), vec![Token::Slash, Token::Star, id("open")]);
    assert_eq!(tokenize("/**/ 1 /***/ 2 /* * / */ 3"), vec![Token::IntLiteral(1), Token::IntLiteral(2), Token::IntLiteral(3)]);
    assert_eq!(tokenize(""), vec![]);
    assert_eq!(tokenize(" \t\r\n\u{c}"), vec![]);
}

#[test]
fn tokens_render_as_they_are_written() {
    assert_eq!(Token::Int.render(), "int");
    assert_eq!(Token::StringType.render(), "string");
    assert_eq!(id("abc").render(), "abc");
    assert_eq!(Token::FloatLiteral(num(1.5)).render(), "1.5");
    assert_eq!(Token::IntLiteral(42).render(), "42");
    assert_eq!(Token::StringLiteral("hi".to_string()).render(), "\"hi\"");
    assert_eq!(Token::CharLiteral('c').render(), "'c'");
    assert_eq!(Token::PlusAssign.render(), "+=");
    assert_eq!(Token::LBrace.render(), "{");
    assert_eq!(Token::Or.render(), "||");
}

#[test]
fn function_definitions_are_recognised() {
    assert!(looks_like_function("int add(int a, int b) { return a + b; }"));
    assert!(looks_like_function("void f("));
    assert!(looks_like_function("  string  name ( )"));
    assert!(!looks_like_function("int x = 5;"));
    assert!(!looks_like_function("add(3, 4);"));
    assert!(!looks_like_function("int add"));
    assert!(!looks_like_function(""));
    assert!(!looks_like_function("int int ("));
}

#[test]
fn expressions_follow_precedence() {
    let e = Parser::new("1 + 2 * 3 < 4 && !a || b == c").parse_expr().unwrap();
    let text = format!("{:?}", e);
    let expected = Expr::BinOp(
        Box::new(Expr::BinOp(
            Box::new(Expr::BinOp(
                Box::new(Expr::BinOp(
                    Box::new(Expr::IntLit(1)),
                    BinOp::Add,
                    Box::new(Expr::BinOp(Box::new(Expr::IntLit(2)), BinOp::Mul, Box::new(Expr::IntLit(3)))),
                )),
                BinOp::Lt,
                Box::new(Expr::IntLit(4)),
            )),
            BinOp::And,
            Box::new(Expr::UnaryOp(UnaryOp::Not, Box::new(Expr::Var("a".to_string())))),
        )),
        BinOp::Or,
        Box::new(Expr::BinOp(
            Box::new(Expr::Var("b".to_string())),
            BinOp::Eq,
            Box::new(Expr::Var("c".to_string())),
        )),
    );
    assert_eq!(text, format!("{:?}", expected));
}

#[test]
fn operators_associate_to_the_left() {
    let e = Parser::new("8 - 4 - 2").parse_expr().unwrap();
    let expected = Expr::BinOp(
        Box::new(Expr::BinOp(Box::new(Expr::IntLit(8)), BinOp::Sub, Box::new(Expr::IntLit(4)))),
        BinOp::Sub,
        Box::new(Expr::IntLit(2)),
    );
    assert_eq!(format!("{:?}", e), format!("{:?}", expected));
}

#[test]
fn a_literal_times_something_is_a_repeat() {
    let e = Parser::new("\"ab\" * 3").parse_expr().unwrap();
    assert!(matches!(e, Expr::StringRepeat(_, _)));
    let e = Parser::new("x * 3").parse_expr().unwrap();
    assert!(matches!(e, Expr::BinOp(_, BinOp::Mul, _)));
    let e = Parser::new("\"ab\" / 3").parse_expr().unwrap();
    assert!(matches!(e, Expr::BinOp(_, BinOp::Div, _)));
}

#[test]
fn postfix_and_prefix_forms() {
    let forms = [
        ("x++", "PostIncrement(\"x\")"),
        ("x--", "PostDecrement(\"x\")"),
        ("++x", "PreIncrement(\"x\")"),
        ("--x", "PreDecrement(\"x\")"),
        ("a[1]", "ArrayAccess(\"a\", IntLit(1))"),
        ("a[1]++", "ArrayPostIncrement(\"a\", IntLit(1))"),
        ("a[1]--", "ArrayPostDecrement(\"a\", IntLit(1))"),
        ("++a[1]", "ArrayPreIncrement(\"a\", IntLit(1))"),
        ("--a[1]", "ArrayPreDecrement(\"a\", IntLit(1))"),
        ("f()", "Call(\"f\", [])"),
        ("f(1, x)", "Call(\"f\", [IntLit(1), Var(\"x\")])"),
        ("(x)", "Var(\"x\")"),
        ("-x", "UnaryOp(Neg, Var(\"x\"))"),
        ("true", "BoolLit(true)"),
        ("'c'", "CharLit('c')"),
    ];
    for (source, expected) in forms.iter() {
        let e = Parser::new(source).parse_expr().unwrap();
        assert_eq!(format!("{:?}", e), *expected, "{}", source);
    }
}

#[test]
fn statements_of_every_kind() {
    let forms = [
        ("int x;", "VarDecl(Int, \"x\", None)"),
        ("float y = 1;", "VarDecl(Float, \"y\", Some(IntLit(1)))"),
        ("int a[3];", "ArrayDecl(Int, \"a\", 3, None)"),
        ("bool b[2] = {true, false};", "ArrayDecl(Bool, \"b\", 2, Some([BoolLit(true), BoolLit(false)]))"),
        ("int e[0] = {};", "ArrayDecl(Int, \"e\", 0, Some([]))"),
        ("x = 1;", "Assign(\"x\", IntLit(1))"),
        ("a[0] = 1;", "ArrayAssign(\"a\", IntLit(0), IntLit(1))"),
        ("x += 1;", "CompoundAssign(\"x\", AddAssign, IntLit(1))"),
        ("x %= 1;", "CompoundAssign(\"x\", ModAssign, IntLit(1))"),
        ("a[0] *= 2;", "ArrayCompoundAssign(\"a\", IntLit(0), MulAssign, IntLit(2))"),
        ("x++;", "PostIncrement(\"x\")"),
        ("--x;", "PreDecrement(\"x\")"),
        ("a[0]++;", "ArrayPostIncrement(\"a\", IntLit(0))"),
        ("++a[0];", "ArrayPreIncrement(\"a\", IntLit(0))"),
        ("f(1);", "Expr(Call(\"f\", [IntLit(1)]))"),
        ("x;", "Expr(Var(\"x\"))"),
        ("a[0];", "Expr(Var(\"a\"))"),
        ("1 + 2;", "Expr(BinOp(IntLit(1), Add, IntLit(2)))"),
        ("if (x) y = 1;", "If(Var(\"x\"), Assign(\"y\", IntLit(1)), None)"),
        ("if (x) { } else z++;", "If(Var(\"x\"), Block([]), Some(PostIncrement(\"z\")))"),
        ("while (x) { x--; }", "While(Var(\"x\"), Block([PostDecrement(\"x\")]))"),
        ("for (;;) { }", "For(None, None, None, Block([]))"),
        (
            "for (int i = 0; i < 3; i++) print(i);",
            "For(Some(VarDecl(Int, \"i\", Some(IntLit(0)))), Some(BinOp(Var(\"i\"), Lt, IntLit(3))), Some(PostIncrement(\"i\")), Print([Var(\"i\")]))",
        ),
        (
            "sharp for (i = 0; ; i += 1) { }",
            "SharpFor(Some(Assign(\"i\", IntLit(0))), None, Some(CompoundAssign(\"i\", AddAssign, IntLit(1))), Block([]))",
        ),
        ("print();", "Print([])"),
        ("return;", "Return(None)"),
        ("return x;", "Return(Some(Var(\"x\")))"),
    ];
    for (source, expected) in forms.iter() {
        let mut parser = Parser::new(source);
        let s = parser.parse_stmt().unwrap();
        assert_eq!(format!("{:?}", s), *expected, "{}", source);
        assert_eq!(parser.pos, parser.tokens.len(), "{}", source);
    }
}

#[test]
fn a_program_is_a_list_of_functions() {
    let program = Parser::new("int add(int a, float b) { return a + b; } void blur() { }").parse_program().unwrap();
    assert_eq!(program.functions.len(), 2);
    assert_eq!(program.functions[0].name, "add");
    assert_eq!(program.functions[0].return_type, Type::Int);
    assert_eq!(program.functions[0].params, vec![(Type::Int, "a".to_string()), (Type::Float, "b".to_string())]);
    assert_eq!(program.functions[0].body.len(), 1);
    assert_eq!(program.functions[1].name, "blur");
    assert!(program.functions[1].params.is_empty());
    assert!(program.functions[1].body.is_empty());
    assert!(Parser::new("").parse_program().unwrap().functions.is_empty());
}

#[test]
fn parse_errors() {
    let cases = [
        ("int", ParseError::UnexpectedEof),
        ("5", ParseError::UnexpectedToken("5".to_string())),
        ("int 5", ParseError::Expected { expected: "identifier".to_string(), found: "5".to_string() }),
        ("int f", ParseError::UnexpectedEof),
        ("int f {", ParseError::Expected { expected: "(".to_string(), found: "{".to_string() }),
        ("int f() {", ParseError::UnexpectedEof),
        ("int f() { x = ; }", ParseError::UnexpectedToken(";".to_string())),
        ("int f() { x = 1 }", ParseError::Expected { expected: ";".to_string(), found: "}".to_string() }),
        ("int f() { int a[x]; }", ParseError::Expected { expected: "array size".to_string(), found: "x".to_string() }),
        ("int f() { ++1; }", ParseError::Expected { expected: "identifier".to_string(), found: "1".to_string() }),
        ("int f() { y = ++1; }", ParseError::InvalidExpr),
        ("int f() { sharp while (1) { } }", ParseError::Expected { expected: "for".to_string(), found: "while".to_string() }),
        ("int f(int) { }", ParseError::Expected { expected: "identifier".to_string(), found: ")".to_string() }),
        ("int f(x) { }", ParseError::UnexpectedToken("x".to_string())),
        ("int f() { print(1; }", ParseError::Expected { expected: ")".to_string(), found: ";".to_string() }),
    ];
    for (source, expected) in cases.iter() {
        let result = Parser::new(source).parse_program();
        assert_eq!(result.err(), Some(expected.clone()), "{}", source);
    }
    assert_eq!(ParseError::UnexpectedEof.message(), "Unexpected end of input");
    assert_eq!(ParseError::InvalidExpr.message(), "Invalid expression");
    assert_eq!(ParseError::UnexpectedToken("x".to_string()).message(), "Unexpected token: x");
    assert_eq!(
        ParseError::Expected { expected: ";".to_string(), found: "}".to_string() }.message(),
        "Expected ;, found }"
    );
}

#[test]
fn compound_operators_are_distinct() {
    let ops = [("+=", CompoundOp::AddAssign), ("-=", CompoundOp::SubAssign), ("*=", CompoundOp::MulAssign), ("/=", CompoundOp::DivAssign), ("%=", CompoundOp::ModAssign)];
    for (text, op) in ops.iter() {
        let s = Parser::new(&format!("x {} 1;", text)).parse_stmt().unwrap();
        match s {
            Stmt::CompoundAssign(_, got, _) => assert_eq!(got, *op),
            other => panic!("{:?}", other),
        }
    }
}
