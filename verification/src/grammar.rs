//! The grammar: what a sequence of tokens parses to.
//!
//! Each rule takes the tokens and a place among them and gives the place
//! behind what it has read, with a tree or an error. A rule never moves
//! backwards or beyond the end; where a rule goes on from the place that
//! another rule gave, that place is taken as far as it keeps to this.

use crate::ast::{BinOp, CompoundOp, ExprView, FunctionView, StmtView, Type, UnaryOp};
use crate::error::ParseErrorView;
use crate::lexer::TokenView;
use vstd::prelude::*;

verus! {

/// The tokens of a source.
pub type Tokens = Seq<TokenView>;

/// The place behind what was read, and what it was.
pub type Parsed<T> = (int, Result<T, ParseErrorView>);

/// Whether the token at a place is a given one.
pub open spec fn at(ts: Tokens, p: int, token: TokenView) -> bool {
    0 <= p < ts.len() && ts[p] == token
}

/// The place behind the token at a place; the end stays the end.
pub open spec fn advance(ts: Tokens, p: int) -> int {
    if 0 <= p < ts.len() {
        p + 1
    } else {
        p
    }
}

/// A place that a rule gave, taken as not before `from` and not beyond the
/// end.
pub open spec fn onward(ts: Tokens, next: int, from: int) -> int {
    if from <= next <= ts.len() {
        next
    } else {
        from
    }
}

/// The error of a token where another thing was expected.
pub open spec fn expected(what: Seq<char>, found: TokenView) -> ParseErrorView {
    ParseErrorView::Expected { expected: what, found: found.text() }
}

/// A given token: it is read, or the error says what stands in its place.
pub open spec fn expect(ts: Tokens, p: int, token: TokenView) -> Parsed<()> {
    if 0 <= p < ts.len() {
        if ts[p] == token {
            (p + 1, Ok(()))
        } else {
            (p, Err(expected(token.text(), ts[p])))
        }
    } else {
        (p, Err(ParseErrorView::UnexpectedEof))
    }
}

/// An identifier. Any other token is read too, and is an error.
pub open spec fn identifier(ts: Tokens, p: int) -> Parsed<Seq<char>> {
    if 0 <= p < ts.len() {
        match ts[p] {
            TokenView::Identifier(name) => (p + 1, Ok(name)),
            other => (p + 1, Err(expected("identifier"@, other))),
        }
    } else {
        (p, Err(ParseErrorView::UnexpectedEof))
    }
}

/// The name behind a prefix `++` or `--` in an expression.
pub open spec fn operand_name(ts: Tokens, p: int) -> Parsed<Seq<char>> {
    if 0 <= p < ts.len() {
        match ts[p] {
            TokenView::Identifier(name) => (p + 1, Ok(name)),
            _ => (p + 1, Err(ParseErrorView::InvalidExpr)),
        }
    } else {
        (p, Err(ParseErrorView::InvalidExpr))
    }
}

/// The type that a token names.
pub open spec fn type_of(token: TokenView) -> Option<Type> {
    match token {
        TokenView::Int => Some(Type::Int),
        TokenView::Float => Some(Type::Float),
        TokenView::Bool => Some(Type::Bool),
        TokenView::Char => Some(Type::Char),
        TokenView::StringType => Some(Type::String),
        TokenView::Void => Some(Type::Void),
        _ => None,
    }
}

/// Whether the token at a place names a type.
pub open spec fn at_type(ts: Tokens, p: int) -> bool {
    0 <= p < ts.len() && type_of(ts[p]) is Some
}

/// A type. Any other token is read too, and is an error.
pub open spec fn parse_type(ts: Tokens, p: int) -> Parsed<Type> {
    if 0 <= p < ts.len() {
        match type_of(ts[p]) {
            Some(t) => (p + 1, Ok(t)),
            None => (p + 1, Err(ParseErrorView::UnexpectedToken(ts[p].text()))),
        }
    } else {
        (p, Err(ParseErrorView::UnexpectedEof))
    }
}

/// The compound operator at a place, if one stands there.
pub open spec fn compound_at(ts: Tokens, p: int) -> Option<CompoundOp> {
    if 0 <= p < ts.len() {
        match ts[p] {
            TokenView::PlusAssign => Some(CompoundOp::AddAssign),
            TokenView::MinusAssign => Some(CompoundOp::SubAssign),
            TokenView::StarAssign => Some(CompoundOp::MulAssign),
            TokenView::SlashAssign => Some(CompoundOp::DivAssign),
            TokenView::PercentAssign => Some(CompoundOp::ModAssign),
            _ => None,
        }
    } else {
        None
    }
}

/// The loosest level of binary operators, that of `||`. The tightest, that
/// of `* / %`, is level 0.
pub const LOGICAL_OR: u8 = 5;

/// The binary operator of a level that a token stands for: `* / %`, then
/// `+ -`, then `< > <= >=`, then `== !=`, then `&&`, then `||`.
pub open spec fn operator_of(level: nat, token: TokenView) -> Option<BinOp> {
    if level == 0 {
        match token {
            TokenView::Star => Some(BinOp::Mul),
            TokenView::Slash => Some(BinOp::Div),
            TokenView::Percent => Some(BinOp::Mod),
            _ => None,
        }
    } else if level == 1 {
        match token {
            TokenView::Plus => Some(BinOp::Add),
            TokenView::Minus => Some(BinOp::Sub),
            _ => None,
        }
    } else if level == 2 {
        match token {
            TokenView::Less => Some(BinOp::Lt),
            TokenView::Greater => Some(BinOp::Gt),
            TokenView::LessEqual => Some(BinOp::Le),
            TokenView::GreaterEqual => Some(BinOp::Ge),
            _ => None,
        }
    } else if level == 3 {
        match token {
            TokenView::Equal => Some(BinOp::Eq),
            TokenView::NotEqual => Some(BinOp::Ne),
            _ => None,
        }
    } else if level == 4 {
        match token {
            TokenView::And => Some(BinOp::And),
            _ => None,
        }
    } else {
        match token {
            TokenView::Or => Some(BinOp::Or),
            _ => None,
        }
    }
}

/// The binary operator of a level at a place, if one stands there.
pub open spec fn operator_at(ts: Tokens, p: int, level: nat) -> Option<BinOp> {
    if 0 <= p < ts.len() {
        operator_of(level, ts[p])
    } else {
        None
    }
}

/// Two operands under an operator: a text literal times something repeats
/// the text, anything else is a binary operation.
pub open spec fn combined(left: ExprView, op: BinOp, right: ExprView) -> ExprView {
    if op == BinOp::Mul && left is StringLit {
        ExprView::StringRepeat(Box::new(left), Box::new(right))
    } else {
        ExprView::BinOp(Box::new(left), op, Box::new(right))
    }
}

/// A literal, a variable, a call or an expression in parentheses.
pub open spec fn parse_primary(ts: Tokens, p: int) -> Parsed<ExprView>
    decreases ts.len() - p, 0nat,
{
    if 0 <= p < ts.len() {
        match ts[p] {
            TokenView::IntLiteral(n) => (p + 1, Ok(ExprView::IntLit(n))),
            TokenView::FloatLiteral(x) => (p + 1, Ok(ExprView::FloatLit(x))),
            TokenView::True => (p + 1, Ok(ExprView::BoolLit(true))),
            TokenView::False => (p + 1, Ok(ExprView::BoolLit(false))),
            TokenView::CharLiteral(c) => (p + 1, Ok(ExprView::CharLit(c))),
            TokenView::StringLiteral(s) => (p + 1, Ok(ExprView::StringLit(s))),
            TokenView::Identifier(name) => if at(ts, p + 1, TokenView::LParen) {
                let (to1, r1) = arguments(ts, p + 2);
                match r1 {
                    Ok(args) => (to1, Ok(ExprView::Call(name, args))),
                    Err(e) => (to1, Err(e)),
                }
            } else {
                (p + 1, Ok(ExprView::Var(name)))
            },
            TokenView::LParen => {
                let (to1, r1) = parse_expr(ts, p + 1);
                match r1 {
                    Ok(e) => {
                        let (to2, r2) = expect(ts, to1, TokenView::RParen);
                        match r2 {
                            Ok(_) => (to2, Ok(e)),
                            Err(err) => (to2, Err(err)),
                        }
                    },
                    Err(e) => (to1, Err(e)),
                }
            },
            other => (p, Err(ParseErrorView::UnexpectedToken(other.text()))),
        }
    } else {
        (p, Err(ParseErrorView::UnexpectedEof))
    }
}

/// The arguments of a call or of `print`, behind the opening parenthesis and
/// up to the closing one.
pub open spec fn arguments(ts: Tokens, p: int) -> Parsed<Seq<ExprView>>
    decreases ts.len() - p, 25nat,
{
    let (to1, r1) = expr_list(ts, p, TokenView::RParen);
    match r1 {
        Ok(args) => {
            let (to2, r2) = expect(ts, to1, TokenView::RParen);
            match r2 {
                Ok(_) => (to2, Ok(args)),
                Err(e) => (to2, Err(e)),
            }
        },
        Err(e) => (to1, Err(e)),
    }
}

/// Expressions separated by commas, none where the closing token stands
/// first.
pub open spec fn expr_list(ts: Tokens, p: int, closer: TokenView) -> Parsed<Seq<ExprView>>
    decreases ts.len() - p, 24nat,
{
    if at(ts, p, closer) {
        (p, Ok(Seq::empty()))
    } else {
        list_items(ts, p, Seq::empty())
    }
}

/// One expression and those behind commas that follow it, after those in
/// `done`.
pub open spec fn list_items(ts: Tokens, p: int, done: Seq<ExprView>) -> Parsed<Seq<ExprView>>
    decreases ts.len() - p, 23nat,
{
    let (to1, r1) = parse_expr(ts, p);
    match r1 {
        Ok(e) => {
            let next = onward(ts, to1, p);
            if at(ts, next, TokenView::Comma) {
                list_items(ts, next + 1, done.push(e))
            } else {
                (to1, Ok(done.push(e)))
            }
        },
        Err(e) => (to1, Err(e)),
    }
}

/// What follows a variable in an expression: an index, with a postfix step
/// of the element or without, or a postfix step of the variable.
pub open spec fn parse_postfix(ts: Tokens, p: int) -> Parsed<ExprView>
    decreases ts.len() - p, 1nat,
{
    let (to1, r1) = parse_primary(ts, p);
    match r1 {
        Ok(ExprView::Var(name)) => if at(ts, onward(ts, to1, p), TokenView::LBracket) {
            let (to2, r2) = parse_expr(ts, onward(ts, to1, p) + 1);
            match r2 {
                Ok(index) => {
                    let (to3, r3) = expect(ts, to2, TokenView::RBracket);
                    match r3 {
                        Ok(_) => if at(ts, to3, TokenView::PlusPlus) {
                            (to3 + 1, Ok(ExprView::ArrayPostIncrement(name, Box::new(index))))
                        } else if at(ts, to3, TokenView::MinusMinus) {
                            (to3 + 1, Ok(ExprView::ArrayPostDecrement(name, Box::new(index))))
                        } else {
                            (to3, Ok(ExprView::ArrayAccess(name, Box::new(index))))
                        },
                        Err(e) => (to3, Err(e)),
                    }
                },
                Err(e) => (to2, Err(e)),
            }
        } else if at(ts, to1, TokenView::PlusPlus) {
            (to1 + 1, Ok(ExprView::PostIncrement(name)))
        } else if at(ts, to1, TokenView::MinusMinus) {
            (to1 + 1, Ok(ExprView::PostDecrement(name)))
        } else {
            (to1, Ok(ExprView::Var(name)))
        },
        Ok(e) => (to1, Ok(e)),
        Err(e) => (to1, Err(e)),
    }
}

/// The operand of a prefix `++` or `--`, behind the operator: a name, with
/// an index or without.
pub open spec fn prefix_step(ts: Tokens, p: int, up: bool) -> Parsed<ExprView>
    decreases ts.len() - p, 2nat,
{
    let (to1, r1) = operand_name(ts, p);
    match r1 {
        Ok(name) => if at(ts, onward(ts, to1, p), TokenView::LBracket) {
            let (to2, r2) = parse_expr(ts, onward(ts, to1, p) + 1);
            match r2 {
                Ok(index) => {
                    let (to3, r3) = expect(ts, to2, TokenView::RBracket);
                    match r3 {
                        Ok(_) => if up {
                            (to3, Ok(ExprView::ArrayPreIncrement(name, Box::new(index))))
                        } else {
                            (to3, Ok(ExprView::ArrayPreDecrement(name, Box::new(index))))
                        },
                        Err(e) => (to3, Err(e)),
                    }
                },
                Err(e) => (to2, Err(e)),
            }
        } else if up {
            (to1, Ok(ExprView::PreIncrement(name)))
        } else {
            (to1, Ok(ExprView::PreDecrement(name)))
        },
        Err(e) => (to1, Err(e)),
    }
}

/// A unary expression: `-` and `!` before a unary expression, `++` and `--`
/// before a name, or a postfix expression.
pub open spec fn parse_unary(ts: Tokens, p: int) -> Parsed<ExprView>
    decreases ts.len() - p, 3nat,
{
    if at(ts, p, TokenView::Minus) {
        let (to1, r1) = parse_unary(ts, p + 1);
        match r1 {
            Ok(e) => (to1, Ok(ExprView::UnaryOp(UnaryOp::Neg, Box::new(e)))),
            Err(e) => (to1, Err(e)),
        }
    } else if at(ts, p, TokenView::Not) {
        let (to1, r1) = parse_unary(ts, p + 1);
        match r1 {
            Ok(e) => (to1, Ok(ExprView::UnaryOp(UnaryOp::Not, Box::new(e)))),
            Err(e) => (to1, Err(e)),
        }
    } else if at(ts, p, TokenView::PlusPlus) {
        prefix_step(ts, p + 1, true)
    } else if at(ts, p, TokenView::MinusMinus) {
        prefix_step(ts, p + 1, false)
    } else {
        parse_postfix(ts, p)
    }
}

/// An operand of a level: a unary expression for the tightest level, else an
/// expression of the next tighter level.
pub open spec fn parse_operand(ts: Tokens, p: int, level: nat) -> Parsed<ExprView>
    decreases ts.len() - p, 4 + 3 * level,
{
    if level == 0 {
        parse_unary(ts, p)
    } else {
        parse_binary(ts, p, (level - 1) as nat)
    }
}

/// The operators of a level and their right operands that follow a left
/// operand; the operators associate to the left.
pub open spec fn binary_rest(ts: Tokens, p: int, level: nat, left: ExprView) -> Parsed<ExprView>
    decreases ts.len() - p, 5 + 3 * level,
{
    match operator_at(ts, p, level) {
        Some(op) => {
            let (to1, r1) = parse_operand(ts, p + 1, level);
            match r1 {
                Ok(right) => binary_rest(ts, onward(ts, to1, p + 1), level, combined(left, op, right)),
                Err(e) => (to1, Err(e)),
            }
        },
        None => (p, Ok(left)),
    }
}

/// An expression of a level of binary operators.
pub open spec fn parse_binary(ts: Tokens, p: int, level: nat) -> Parsed<ExprView>
    decreases ts.len() - p, 6 + 3 * level,
{
    let (to1, r1) = parse_operand(ts, p, level);
    match r1 {
        Ok(left) => binary_rest(ts, onward(ts, to1, p), level, left),
        Err(e) => (to1, Err(e)),
    }
}

/// An expression.
pub open spec fn parse_expr(ts: Tokens, p: int) -> Parsed<ExprView>
    decreases ts.len() - p, 22nat,
{
    parse_binary(ts, p, LOGICAL_OR as nat)
}

/// The size that an integer literal gives to an array: the integer, and the
/// nearest size where it is none.
pub open spec fn array_size(n: i64) -> usize {
    if n < 0 {
        0
    } else if n > usize::MAX {
        usize::MAX
    } else {
        n as usize
    }
}

/// An expression and the token that has to follow it.
pub open spec fn expr_then(ts: Tokens, p: int, closer: TokenView) -> Parsed<ExprView>
    decreases ts.len() - p, 26nat,
{
    let (to1, r1) = parse_expr(ts, p);
    match r1 {
        Ok(e) => {
            let (to2, r2) = expect(ts, to1, closer);
            match r2 {
                Ok(_) => (to2, Ok(e)),
                Err(err) => (to2, Err(err)),
            }
        },
        Err(e) => (to1, Err(e)),
    }
}

/// What can follow a name in a statement, but for an index: a postfix step,
/// an assignment, the arguments of a call, or nothing.
pub open spec fn plain_stmt(ts: Tokens, p: int, name: Seq<char>) -> Parsed<StmtView>
    decreases ts.len() - p, 27nat,
{
    if at(ts, p, TokenView::PlusPlus) {
        (p + 1, Ok(StmtView::PostIncrement(name)))
    } else if at(ts, p, TokenView::MinusMinus) {
        (p + 1, Ok(StmtView::PostDecrement(name)))
    } else if at(ts, p, TokenView::Assign) {
        let (to1, r1) = parse_expr(ts, p + 1);
        match r1 {
            Ok(value) => (to1, Ok(StmtView::Assign(name, value))),
            Err(e) => (to1, Err(e)),
        }
    } else if compound_at(ts, p) is Some {
        let (to1, r1) = parse_expr(ts, p + 1);
        match r1 {
            Ok(value) => (to1, Ok(StmtView::CompoundAssign(name, compound_at(ts, p)->0, value))),
            Err(e) => (to1, Err(e)),
        }
    } else if at(ts, p, TokenView::LParen) {
        let (to1, r1) = arguments(ts, p + 1);
        match r1 {
            Ok(args) => (to1, Ok(StmtView::Expr(ExprView::Call(name, args)))),
            Err(e) => (to1, Err(e)),
        }
    } else {
        (p, Ok(StmtView::Expr(ExprView::Var(name))))
    }
}

/// What can follow an indexed name in a statement: a postfix step or an
/// assignment of the element. Where none of them follows, the index is
/// dropped and the name is read on as a plain one.
pub open spec fn indexed_stmt(ts: Tokens, p: int, name: Seq<char>, index: ExprView) -> Parsed<
    StmtView,
>
    decreases ts.len() - p, 28nat,
{
    if at(ts, p, TokenView::PlusPlus) {
        (p + 1, Ok(StmtView::ArrayPostIncrement(name, index)))
    } else if at(ts, p, TokenView::MinusMinus) {
        (p + 1, Ok(StmtView::ArrayPostDecrement(name, index)))
    } else if at(ts, p, TokenView::Assign) {
        let (to1, r1) = parse_expr(ts, p + 1);
        match r1 {
            Ok(value) => (to1, Ok(StmtView::ArrayAssign(name, index, value))),
            Err(e) => (to1, Err(e)),
        }
    } else if compound_at(ts, p) is Some {
        let (to1, r1) = parse_expr(ts, p + 1);
        match r1 {
            Ok(value) => (
                to1,
                Ok(StmtView::ArrayCompoundAssign(name, index, compound_at(ts, p)->0, value)),
            ),
            Err(e) => (to1, Err(e)),
        }
    } else {
        plain_stmt(ts, p, name)
    }
}

/// What follows a name at the start of a statement.
pub open spec fn named_stmt(ts: Tokens, p: int, name: Seq<char>) -> Parsed<StmtView>
    decreases ts.len() - p, 29nat,
{
    if at(ts, p, TokenView::LBracket) {
        let (to1, r1) = expr_then(ts, p + 1, TokenView::RBracket);
        match r1 {
            Ok(index) => indexed_stmt(ts, onward(ts, to1, p), name, index),
            Err(e) => (to1, Err(e)),
        }
    } else {
        plain_stmt(ts, p, name)
    }
}

/// The operand of a prefix `++` or `--` that begins a statement, behind the
/// operator.
pub open spec fn stepped_stmt(ts: Tokens, p: int, up: bool) -> Parsed<StmtView>
    decreases ts.len() - p, 29nat,
{
    let (to1, r1) = identifier(ts, p);
    match r1 {
        Ok(name) => if at(ts, to1, TokenView::LBracket) {
            let (to2, r2) = expr_then(ts, to1 + 1, TokenView::RBracket);
            match r2 {
                Ok(index) => if up {
                    (to2, Ok(StmtView::ArrayPreIncrement(name, index)))
                } else {
                    (to2, Ok(StmtView::ArrayPreDecrement(name, index)))
                },
                Err(e) => (to2, Err(e)),
            }
        } else if up {
            (to1, Ok(StmtView::PreIncrement(name)))
        } else {
            (to1, Ok(StmtView::PreDecrement(name)))
        },
        Err(e) => (to1, Err(e)),
    }
}

/// A statement that is an expression, a step or an assignment, without the
/// semicolon behind it.
pub open spec fn parse_expr_stmt(ts: Tokens, p: int) -> Parsed<StmtView>
    decreases ts.len() - p, 30nat,
{
    if at(ts, p, TokenView::PlusPlus) {
        stepped_stmt(ts, p + 1, true)
    } else if at(ts, p, TokenView::MinusMinus) {
        stepped_stmt(ts, p + 1, false)
    } else if 0 <= p < ts.len() && ts[p] is Identifier {
        named_stmt(ts, p + 1, ts[p]->Identifier_0)
    } else {
        let (to1, r1) = parse_expr(ts, p);
        match r1 {
            Ok(e) => (to1, Ok(StmtView::Expr(e))),
            Err(e) => (to1, Err(e)),
        }
    }
}

/// A statement and the semicolon behind it.
pub open spec fn expr_stmt_then_semicolon(ts: Tokens, p: int) -> Parsed<StmtView>
    decreases ts.len() - p, 31nat,
{
    let (to1, r1) = parse_expr_stmt(ts, p);
    match r1 {
        Ok(s) => {
            let (to2, r2) = expect(ts, to1, TokenView::Semicolon);
            match r2 {
                Ok(_) => (to2, Ok(s)),
                Err(e) => (to2, Err(e)),
            }
        },
        Err(e) => (to1, Err(e)),
    }
}

/// What follows the name in a declaration of a variable: an initializer or
/// none, and a semicolon.
pub open spec fn decl_tail(ts: Tokens, p: int, var_type: Type, name: Seq<char>) -> Parsed<StmtView>
    decreases ts.len() - p, 27nat,
{
    if at(ts, p, TokenView::Assign) {
        let (to1, r1) = expr_then(ts, p + 1, TokenView::Semicolon);
        match r1 {
            Ok(init) => (to1, Ok(StmtView::VarDecl(var_type, name, Some(init)))),
            Err(e) => (to1, Err(e)),
        }
    } else {
        let (to1, r1) = expect(ts, p, TokenView::Semicolon);
        match r1 {
            Ok(_) => (to1, Ok(StmtView::VarDecl(var_type, name, None))),
            Err(e) => (to1, Err(e)),
        }
    }
}

/// The size of an array in its declaration: an integer literal. Any other
/// token is read too, and is an error.
pub open spec fn size_literal(ts: Tokens, p: int) -> Parsed<usize> {
    if 0 <= p < ts.len() {
        match ts[p] {
            TokenView::IntLiteral(n) => (p + 1, Ok(array_size(n))),
            other => (p + 1, Err(expected("array size"@, other))),
        }
    } else {
        (p, Err(ParseErrorView::UnexpectedEof))
    }
}

/// The initial values of an array, between braces, if an assignment sign
/// announces them.
pub open spec fn array_init(ts: Tokens, p: int) -> Parsed<Option<Seq<ExprView>>>
    decreases ts.len() - p, 27nat,
{
    if at(ts, p, TokenView::Assign) {
        let (to1, r1) = expect(ts, p + 1, TokenView::LBrace);
        match r1 {
            Ok(_) => {
                let (to2, r2) = expr_list(ts, to1, TokenView::RBrace);
                match r2 {
                    Ok(values) => {
                        let (to3, r3) = expect(ts, to2, TokenView::RBrace);
                        match r3 {
                            Ok(_) => (to3, Ok(Some(values))),
                            Err(e) => (to3, Err(e)),
                        }
                    },
                    Err(e) => (to2, Err(e)),
                }
            },
            Err(e) => (to1, Err(e)),
        }
    } else {
        (p, Ok(None))
    }
}

/// What follows the opening bracket in a declaration of an array: the size,
/// the closing bracket, initial values or none, and a semicolon.
pub open spec fn array_decl_tail(ts: Tokens, p: int, elem_type: Type, name: Seq<char>) -> Parsed<
    StmtView,
>
    decreases ts.len() - p, 28nat,
{
    let (to1, r1) = size_literal(ts, p);
    match r1 {
        Ok(size) => {
            let (to2, r2) = expect(ts, to1, TokenView::RBracket);
            match r2 {
                Ok(_) => {
                    let (to3, r3) = array_init(ts, to2);
                    match r3 {
                        Ok(init) => {
                            let (to4, r4) = expect(ts, to3, TokenView::Semicolon);
                            match r4 {
                                Ok(_) => (to4, Ok(StmtView::ArrayDecl(elem_type, name, size, init))),
                                Err(e) => (to4, Err(e)),
                            }
                        },
                        Err(e) => (to3, Err(e)),
                    }
                },
                Err(e) => (to2, Err(e)),
            }
        },
        Err(e) => (to1, Err(e)),
    }
}

/// A declaration, which begins with a type: of an array where a bracket
/// follows the name and arrays are allowed, else of a variable.
pub open spec fn declaration(ts: Tokens, p: int, arrays: bool) -> Parsed<StmtView>
    decreases ts.len() - p, 29nat,
{
    let (to1, r1) = parse_type(ts, p);
    match r1 {
        Ok(var_type) => {
            let (to2, r2) = identifier(ts, to1);
            match r2 {
                Ok(name) => if arrays && at(ts, to2, TokenView::LBracket) {
                    array_decl_tail(ts, to2 + 1, var_type, name)
                } else {
                    decl_tail(ts, to2, var_type, name)
                },
                Err(e) => (to2, Err(e)),
            }
        },
        Err(e) => (to1, Err(e)),
    }
}

/// The first clause of a `for` loop, with its semicolon: a declaration of a
/// variable or a statement.
pub open spec fn parse_for_init(ts: Tokens, p: int) -> Parsed<StmtView>
    decreases ts.len() - p, 32nat,
{
    if at_type(ts, p) {
        declaration(ts, p, false)
    } else {
        expr_stmt_then_semicolon(ts, p)
    }
}

/// The clauses of a `for` loop, between its parentheses: each of the three
/// may be empty.
pub open spec fn loop_clauses(ts: Tokens, p: int) -> Parsed<
    (Option<Box<StmtView>>, Option<ExprView>, Option<Box<StmtView>>),
>
    decreases ts.len() - p, 33nat,
{
    let (to1, r1) = expect(ts, p, TokenView::LParen);
    match r1 {
        Ok(_) => {
            let (to2, r2) = if at(ts, to1, TokenView::Semicolon) {
                (to1 + 1, Ok(None))
            } else {
                match parse_for_init(ts, to1) {
                    (q, Ok(s)) => (q, Ok(Some(Box::new(s)))),
                    (q, Err(e)) => (q, Err(e)),
                }
            };
            match r2 {
                Ok(init) => {
                    let a = onward(ts, to2, to1);
                    let (to3, r3) = if at(ts, a, TokenView::Semicolon) {
                        (a + 1, Ok(None))
                    } else {
                        match expr_then(ts, a, TokenView::Semicolon) {
                            (q, Ok(e)) => (q, Ok(Some(e))),
                            (q, Err(e)) => (q, Err(e)),
                        }
                    };
                    match r3 {
                        Ok(condition) => {
                            let b = onward(ts, to3, a);
                            let (to4, r4) = if at(ts, b, TokenView::RParen) {
                                (b, Ok(None))
                            } else {
                                match parse_expr_stmt(ts, b) {
                                    (q, Ok(s)) => (q, Ok(Some(Box::new(s)))),
                                    (q, Err(e)) => (q, Err(e)),
                                }
                            };
                            match r4 {
                                Ok(update) => {
                                    let (to5, r5) = expect(ts, to4, TokenView::RParen);
                                    match r5 {
                                        Ok(_) => (to5, Ok((init, condition, update))),
                                        Err(e) => (to5, Err(e)),
                                    }
                                },
                                Err(e) => (to4, Err(e)),
                            }
                        },
                        Err(e) => (to3, Err(e)),
                    }
                },
                Err(e) => (to2, Err(e)),
            }
        },
        Err(e) => (to1, Err(e)),
    }
}

/// A `for` loop behind its keyword: the clauses and the body.
pub open spec fn for_loop(ts: Tokens, p: int, sharp: bool) -> Parsed<StmtView>
    decreases ts.len() - p, 34nat,
{
    if !(0 <= p < ts.len()) {
        (p, Err(ParseErrorView::UnexpectedEof))
    } else {
        let (to1, r1) = loop_clauses(ts, p);
        match r1 {
            Ok((init, condition, update)) => {
                let (to2, r2) = parse_stmt(ts, onward(ts, to1, p + 1));
                match r2 {
                    Ok(body) => if sharp {
                        (to2, Ok(StmtView::SharpFor(init, condition, update, Box::new(body))))
                    } else {
                        (to2, Ok(StmtView::For(init, condition, update, Box::new(body))))
                    },
                    Err(e) => (to2, Err(e)),
                }
            },
            Err(e) => (to1, Err(e)),
        }
    }
}

/// A condition between parentheses.
pub open spec fn condition(ts: Tokens, p: int) -> Parsed<ExprView>
    decreases ts.len() - p, 27nat,
{
    let (to1, r1) = expect(ts, p, TokenView::LParen);
    match r1 {
        Ok(_) => expr_then(ts, to1, TokenView::RParen),
        Err(e) => (to1, Err(e)),
    }
}

/// The branch behind `else`, if `else` follows.
pub open spec fn else_part(ts: Tokens, p: int) -> Parsed<Option<Box<StmtView>>>
    decreases ts.len() - p, 43nat,
{
    if at(ts, p, TokenView::Else) {
        let (to1, r1) = parse_stmt(ts, p + 1);
        match r1 {
            Ok(branch) => (to1, Ok(Some(Box::new(branch)))),
            Err(e) => (to1, Err(e)),
        }
    } else {
        (p, Ok(None))
    }
}

/// An `if` behind its keyword: the condition, a statement, and another one
/// behind `else` if that follows.
pub open spec fn if_stmt(ts: Tokens, p: int) -> Parsed<StmtView>
    decreases ts.len() - p, 44nat,
{
    if !(0 <= p < ts.len()) {
        (p, Err(ParseErrorView::UnexpectedEof))
    } else {
        let (to1, r1) = condition(ts, p);
        match r1 {
            Ok(c) => {
                let (to2, r2) = parse_stmt(ts, onward(ts, to1, p + 1));
                match r2 {
                    Ok(then_branch) => {
                        let (to3, r3) = else_part(ts, onward(ts, to2, p + 1));
                        match r3 {
                            Ok(else_branch) => (
                                to3,
                                Ok(StmtView::If(c, Box::new(then_branch), else_branch)),
                            ),
                            Err(e) => (to3, Err(e)),
                        }
                    },
                    Err(e) => (to2, Err(e)),
                }
            },
            Err(e) => (to1, Err(e)),
        }
    }
}

/// A `while` behind its keyword: the condition and the body.
pub open spec fn while_stmt(ts: Tokens, p: int) -> Parsed<StmtView>
    decreases ts.len() - p, 34nat,
{
    if !(0 <= p < ts.len()) {
        (p, Err(ParseErrorView::UnexpectedEof))
    } else {
        let (to1, r1) = condition(ts, p);
        match r1 {
            Ok(c) => {
                let (to2, r2) = parse_stmt(ts, onward(ts, to1, p + 1));
                match r2 {
                    Ok(body) => (to2, Ok(StmtView::While(c, Box::new(body)))),
                    Err(e) => (to2, Err(e)),
                }
            },
            Err(e) => (to1, Err(e)),
        }
    }
}

/// A `print` behind its keyword: the arguments in parentheses and a
/// semicolon.
pub open spec fn print_stmt(ts: Tokens, p: int) -> Parsed<StmtView>
    decreases ts.len() - p, 27nat,
{
    let (to1, r1) = expect(ts, p, TokenView::LParen);
    match r1 {
        Ok(_) => {
            let (to2, r2) = arguments(ts, to1);
            match r2 {
                Ok(args) => {
                    let (to3, r3) = expect(ts, to2, TokenView::Semicolon);
                    match r3 {
                        Ok(_) => (to3, Ok(StmtView::Print(args))),
                        Err(e) => (to3, Err(e)),
                    }
                },
                Err(e) => (to2, Err(e)),
            }
        },
        Err(e) => (to1, Err(e)),
    }
}

/// A `return` behind its keyword: an expression or none, and a semicolon.
pub open spec fn return_stmt(ts: Tokens, p: int) -> Parsed<StmtView>
    decreases ts.len() - p, 27nat,
{
    if at(ts, p, TokenView::Semicolon) {
        (p + 1, Ok(StmtView::Return(None)))
    } else {
        let (to1, r1) = expr_then(ts, p, TokenView::Semicolon);
        match r1 {
            Ok(e) => (to1, Ok(StmtView::Return(Some(e)))),
            Err(e) => (to1, Err(e)),
        }
    }
}

/// The statements up to a closing brace, after those in `done`. The brace is
/// not read.
pub open spec fn stmt_list(ts: Tokens, p: int, done: Seq<StmtView>) -> Parsed<Seq<StmtView>>
    decreases ts.len() - p, 41nat,
{
    if at(ts, p, TokenView::RBrace) {
        (p, Ok(done))
    } else if !(0 <= p < ts.len()) {
        (p, Err(ParseErrorView::UnexpectedEof))
    } else {
        let (to1, r1) = parse_stmt(ts, p);
        match r1 {
            Ok(s) => stmt_list(ts, onward(ts, to1, p + 1), done.push(s)),
            Err(e) => (to1, Err(e)),
        }
    }
}

/// The statements of a block or of a function's body behind the opening
/// brace, and the closing brace.
pub open spec fn block_body(ts: Tokens, p: int) -> Parsed<Seq<StmtView>>
    decreases ts.len() - p, 42nat,
{
    let (to1, r1) = stmt_list(ts, p, Seq::empty());
    match r1 {
        Ok(stmts) => {
            let (to2, r2) = expect(ts, to1, TokenView::RBrace);
            match r2 {
                Ok(_) => (to2, Ok(stmts)),
                Err(e) => (to2, Err(e)),
            }
        },
        Err(e) => (to1, Err(e)),
    }
}

/// A block behind its opening brace.
pub open spec fn block_stmt(ts: Tokens, p: int) -> Parsed<StmtView>
    decreases ts.len() - p, 43nat,
{
    let (to1, r1) = block_body(ts, p);
    match r1 {
        Ok(stmts) => (to1, Ok(StmtView::Block(stmts))),
        Err(e) => (to1, Err(e)),
    }
}

/// A statement.
pub open spec fn parse_stmt(ts: Tokens, p: int) -> Parsed<StmtView>
    decreases ts.len() - p, 40nat,
{
    if at_type(ts, p) {
        declaration(ts, p, true)
    } else if at(ts, p, TokenView::If) {
        if_stmt(ts, p + 1)
    } else if at(ts, p, TokenView::While) {
        while_stmt(ts, p + 1)
    } else if at(ts, p, TokenView::Sharp) {
        let (to1, r1) = expect(ts, p + 1, TokenView::For);
        match r1 {
            Ok(_) => for_loop(ts, to1, true),
            Err(e) => (to1, Err(e)),
        }
    } else if at(ts, p, TokenView::For) {
        for_loop(ts, p + 1, false)
    } else if at(ts, p, TokenView::LBrace) {
        block_stmt(ts, p + 1)
    } else if at(ts, p, TokenView::Print) {
        print_stmt(ts, p + 1)
    } else if at(ts, p, TokenView::Return) {
        return_stmt(ts, p + 1)
    } else {
        expr_stmt_then_semicolon(ts, p)
    }
}

/// Parameters separated by commas, after those in `done`: each a type and a
/// name.
pub open spec fn param_items(ts: Tokens, p: int, done: Seq<(Type, Seq<char>)>) -> Parsed<
    Seq<(Type, Seq<char>)>,
>
    decreases ts.len() - p,
{
    let (to1, r1) = parse_type(ts, p);
    match r1 {
        Ok(param_type) => {
            let (to2, r2) = identifier(ts, to1);
            match r2 {
                Ok(name) => if at(ts, to2, TokenView::Comma) {
                    param_items(ts, to2 + 1, done.push((param_type, name)))
                } else {
                    (to2, Ok(done.push((param_type, name))))
                },
                Err(e) => (to2, Err(e)),
            }
        },
        Err(e) => (to1, Err(e)),
    }
}

/// The parameters of a function between their parentheses.
pub open spec fn parameters(ts: Tokens, p: int) -> Parsed<Seq<(Type, Seq<char>)>> {
    let (to1, r1) = expect(ts, p, TokenView::LParen);
    match r1 {
        Ok(_) => {
            let (to2, r2) = if at(ts, to1, TokenView::RParen) {
                (to1, Ok(Seq::empty()))
            } else {
                param_items(ts, to1, Seq::empty())
            };
            match r2 {
                Ok(params) => {
                    let (to3, r3) = expect(ts, to2, TokenView::RParen);
                    match r3 {
                        Ok(_) => (to3, Ok(params)),
                        Err(e) => (to3, Err(e)),
                    }
                },
                Err(e) => (to2, Err(e)),
            }
        },
        Err(e) => (to1, Err(e)),
    }
}

/// A function: its return type, its name, its parameters and its body in
/// braces.
pub open spec fn parse_function(ts: Tokens, p: int) -> Parsed<FunctionView> {
    let (to1, r1) = parse_type(ts, p);
    match r1 {
        Ok(return_type) => {
            let (to2, r2) = identifier(ts, to1);
            match r2 {
                Ok(name) => {
                    let (to3, r3) = parameters(ts, to2);
                    match r3 {
                        Ok(params) => {
                            let (to4, r4) = expect(ts, to3, TokenView::LBrace);
                            match r4 {
                                Ok(_) => {
                                    let (to5, r5) = block_body(ts, to4);
                                    match r5 {
                                        Ok(body) => (
                                            to5,
                                            Ok(FunctionView { name, params, return_type, body }),
                                        ),
                                        Err(e) => (to5, Err(e)),
                                    }
                                },
                                Err(e) => (to4, Err(e)),
                            }
                        },
                        Err(e) => (to3, Err(e)),
                    }
                },
                Err(e) => (to2, Err(e)),
            }
        },
        Err(e) => (to1, Err(e)),
    }
}

/// The functions from a place to the end, after those in `done`.
pub open spec fn functions_from(ts: Tokens, p: int, done: Seq<FunctionView>) -> Parsed<
    Seq<FunctionView>,
>
    decreases ts.len() - p,
{
    if !(0 <= p < ts.len()) {
        (p, Ok(done))
    } else {
        let (to1, r1) = parse_function(ts, p);
        match r1 {
            Ok(function) => functions_from(ts, onward(ts, to1, p + 1), done.push(function)),
            Err(e) => (to1, Err(e)),
        }
    }
}

/// A program: functions up to the end of the tokens.
pub open spec fn parse_program(ts: Tokens) -> Parsed<Seq<FunctionView>> {
    functions_from(ts, 0, Seq::empty())
}

} // verus!
