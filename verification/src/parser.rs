//! The parser: tokens to a program, by recursive descent as the grammar
//! says.

use crate::ast::{
    exprs_view, functions_view, optional_expr_view, optional_stmt_view, params_view,
    stmts_view, BinOp, CompoundOp, Expr, ExprView, Function, FunctionView, Program, Stmt,
    StmtView, Type, UnaryOp,
};
use crate::error::{ParseError, ParseErrorView};
use crate::grammar;
use crate::grammar::{Parsed, Tokens};
use crate::lexer::{lex, tokenize, tokens_view, Token};
use vstd::prelude::*;

verus! {

/// A parser at a place among the tokens of a source.
#[derive(Debug)]
pub struct Parser {
    pub tokens: Vec<Token>,
    pub pos: usize,
}

/// A result of the parser as a result over views.
pub open spec fn viewed<T: View>(r: Result<T, ParseError>) -> Result<T::V, ParseErrorView> {
    match r {
        Ok(x) => Ok(x@),
        Err(e) => Err(e@),
    }
}

/// A result without a view of its own as a result over views.
pub open spec fn plain<T>(r: Result<T, ParseError>) -> Result<T, ParseErrorView> {
    match r {
        Ok(x) => Ok(x),
        Err(e) => Err(e@),
    }
}

/// Expressions, or an error, as a result over views.
pub open spec fn viewed_exprs(r: Result<Vec<Expr>, ParseError>) -> Result<
    Seq<ExprView>,
    ParseErrorView,
> {
    match r {
        Ok(x) => Ok(exprs_view(x@)),
        Err(e) => Err(e@),
    }
}

/// Statements, or an error, as a result over views.
pub open spec fn viewed_stmts(r: Result<Vec<Stmt>, ParseError>) -> Result<
    Seq<StmtView>,
    ParseErrorView,
> {
    match r {
        Ok(x) => Ok(stmts_view(x@)),
        Err(e) => Err(e@),
    }
}

/// A branch that may be absent, or an error, as a result over views.
pub open spec fn viewed_branch(r: Result<Option<Box<Stmt>>, ParseError>) -> Result<
    Option<Box<StmtView>>,
    ParseErrorView,
> {
    match r {
        Ok(branch) => Ok(optional_stmt_view(branch)),
        Err(e) => Err(e@),
    }
}

/// Initial values of an array, or an error, as a result over views.
pub open spec fn viewed_init(r: Result<Option<Vec<Expr>>, ParseError>) -> Result<
    Option<Seq<ExprView>>,
    ParseErrorView,
> {
    match r {
        Ok(Some(x)) => Ok(Some(exprs_view(x@))),
        Ok(None) => Ok(None),
        Err(e) => Err(e@),
    }
}

/// Parameters, or an error, as a result over views.
pub open spec fn viewed_params(r: Result<Vec<(Type, String)>, ParseError>) -> Result<
    Seq<(Type, Seq<char>)>,
    ParseErrorView,
> {
    match r {
        Ok(x) => Ok(params_view(x@)),
        Err(e) => Err(e@),
    }
}

/// The clauses of a loop, or an error, as a result over views.
pub open spec fn viewed_clauses(
    r: Result<(Option<Box<Stmt>>, Option<Expr>, Option<Box<Stmt>>), ParseError>,
) -> Result<(Option<Box<StmtView>>, Option<ExprView>, Option<Box<StmtView>>), ParseErrorView> {
    match r {
        Ok((init, condition, update)) => Ok(
            (optional_stmt_view(init), optional_expr_view(condition), optional_stmt_view(update)),
        ),
        Err(e) => Err(e@),
    }
}

/// A program, or an error, as a result over views.
pub open spec fn viewed_program(r: Result<Program, ParseError>) -> Result<
    Seq<FunctionView>,
    ParseErrorView,
> {
    match r {
        Ok(x) => Ok(x@),
        Err(e) => Err(e@),
    }
}

/// Whether a step of the parser went as a rule of the grammar says: the
/// tokens are as they were, the place is where the rule ends, not before
/// where it began and not beyond the end, and the result is the rule's.
pub open spec fn obeys<V>(
    before: Parser,
    after: Parser,
    rule: Parsed<V>,
    got: Result<V, ParseErrorView>,
) -> bool {
    &&& after.tokens == before.tokens
    &&& after.pos == rule.0
    &&& got == rule.1
    &&& before.pos <= after.pos <= before.tokens@.len()
}

/// The error of a token where another thing was expected.
pub fn expected_error(what: &str, found: &Token) -> (e: ParseError)
    ensures
        e@ == grammar::expected(what@, found@),
{
    ParseError::Expected { expected: what.to_owned(), found: found.render() }
}

/// The type that a token names.
pub fn type_of(token: &Token) -> (r: Option<Type>)
    ensures
        r == grammar::type_of(token@),
{
    match token {
        Token::Int => Some(Type::Int),
        Token::Float => Some(Type::Float),
        Token::Bool => Some(Type::Bool),
        Token::Char => Some(Type::Char),
        Token::StringType => Some(Type::String),
        Token::Void => Some(Type::Void),
        _ => None,
    }
}

/// The binary operator of a level that a token stands for.
pub fn operator_of(level: u8, token: &Token) -> (r: Option<BinOp>)
    ensures
        r == grammar::operator_of(level as nat, token@),
{
    if level == 0 {
        match token {
            Token::Star => Some(BinOp::Mul),
            Token::Slash => Some(BinOp::Div),
            Token::Percent => Some(BinOp::Mod),
            _ => None,
        }
    } else if level == 1 {
        match token {
            Token::Plus => Some(BinOp::Add),
            Token::Minus => Some(BinOp::Sub),
            _ => None,
        }
    } else if level == 2 {
        match token {
            Token::Less => Some(BinOp::Lt),
            Token::Greater => Some(BinOp::Gt),
            Token::LessEqual => Some(BinOp::Le),
            Token::GreaterEqual => Some(BinOp::Ge),
            _ => None,
        }
    } else if level == 3 {
        match token {
            Token::Equal => Some(BinOp::Eq),
            Token::NotEqual => Some(BinOp::Ne),
            _ => None,
        }
    } else if level == 4 {
        match token {
            Token::And => Some(BinOp::And),
            _ => None,
        }
    } else {
        match token {
            Token::Or => Some(BinOp::Or),
            _ => None,
        }
    }
}

/// Two operands under an operator.
pub fn combine(left: Expr, op: BinOp, right: Expr) -> (r: Expr)
    ensures
        r@ == grammar::combined(left@, op, right@),
{
    let repeat: bool = match (&left, op) {
        (Expr::StringLit(_), BinOp::Mul) => true,
        _ => false,
    };
    if repeat {
        Expr::StringRepeat(Box::new(left), Box::new(right))
    } else {
        Expr::BinOp(Box::new(left), op, Box::new(right))
    }
}

/// The size that an integer literal gives to an array.
pub fn array_size(n: i64) -> (r: usize)
    ensures
        r == grammar::array_size(n),
{
    if n < 0 {
        0
    } else if n as u64 > usize::MAX as u64 {
        usize::MAX
    } else {
        n as usize
    }
}

impl Parser {
    /// The tokens as the grammar sees them.
    pub open spec fn ts(&self) -> Tokens {
        tokens_view(self.tokens@)
    }

    /// The place as the grammar sees it.
    pub open spec fn at(&self) -> int {
        self.pos as int
    }

    /// Whether the place is among the tokens or at their end.
    pub open spec fn wf(&self) -> bool {
        self.pos <= self.tokens@.len()
    }

    /// A parser at the start of the tokens of a source.
    pub fn new(source: &str) -> (r: Parser)
        ensures
            r.ts() == lex(source@),
            r.pos == 0,
            r.wf(),
    {
        Parser { tokens: tokenize(source), pos: 0 }
    }

    /// Moves behind the token at the place.
    pub fn advance(&mut self)
        requires
            old(self).pos < old(self).tokens@.len(),
        ensures
            final(self).tokens == old(self).tokens,
            final(self).pos == old(self).pos + 1,
    {
        let end: usize = self.tokens.len();
        if self.pos < end {
            self.pos += 1;
        }
    }

    /// Whether the token at the place is a given one.
    pub fn check(&self, token: &Token) -> (r: bool)
        requires
            self.wf(),
        ensures
            r == grammar::at(self.ts(), self.at(), token@),
    {
        self.pos < self.tokens.len() && self.tokens[self.pos].same(token)
    }

    /// Whether the token at the place names a type.
    pub fn is_type(&self) -> (r: bool)
        requires
            self.wf(),
        ensures
            r == grammar::at_type(self.ts(), self.at()),
    {
        self.pos < self.tokens.len() && type_of(&self.tokens[self.pos]).is_some()
    }

    /// Reads a given token.
    pub fn expect(&mut self, token: &Token) -> (r: Result<(), ParseError>)
        requires
            old(self).wf(),
        ensures
            obeys(
                *old(self),
                *final(self),
                grammar::expect(old(self).ts(), old(self).at(), token@),
                plain(r),
            ),
    {
        if self.pos < self.tokens.len() {
            if self.tokens[self.pos].same(token) {
                self.pos += 1;
                Ok(())
            } else {
                Err(
                    ParseError::Expected {
                        expected: token.render(),
                        found: self.tokens[self.pos].render(),
                    },
                )
            }
        } else {
            Err(ParseError::UnexpectedEof)
        }
    }

    /// Reads an identifier.
    pub fn identifier(&mut self) -> (r: Result<String, ParseError>)
        requires
            old(self).wf(),
        ensures
            obeys(
                *old(self),
                *final(self),
                grammar::identifier(old(self).ts(), old(self).at()),
                viewed(r),
            ),
    {
        if self.pos < self.tokens.len() {
            let at: usize = self.pos;
            self.pos += 1;
            match &self.tokens[at] {
                Token::Identifier(name) => Ok(name.clone()),
                other => Err(expected_error("identifier", other)),
            }
        } else {
            Err(ParseError::UnexpectedEof)
        }
    }

    /// Reads the name behind a prefix `++` or `--` in an expression.
    pub fn operand_name(&mut self) -> (r: Result<String, ParseError>)
        requires
            old(self).wf(),
        ensures
            obeys(
                *old(self),
                *final(self),
                grammar::operand_name(old(self).ts(), old(self).at()),
                viewed(r),
            ),
    {
        if self.pos < self.tokens.len() {
            let at: usize = self.pos;
            self.pos += 1;
            match &self.tokens[at] {
                Token::Identifier(name) => Ok(name.clone()),
                _ => Err(ParseError::InvalidExpr),
            }
        } else {
            Err(ParseError::InvalidExpr)
        }
    }

    /// Reads a type.
    pub fn parse_type(&mut self) -> (r: Result<Type, ParseError>)
        requires
            old(self).wf(),
        ensures
            obeys(
                *old(self),
                *final(self),
                grammar::parse_type(old(self).ts(), old(self).at()),
                plain(r),
            ),
    {
        if self.pos < self.tokens.len() {
            let at: usize = self.pos;
            self.pos += 1;
            match type_of(&self.tokens[at]) {
                Some(t) => Ok(t),
                None => Err(ParseError::UnexpectedToken(self.tokens[at].render())),
            }
        } else {
            Err(ParseError::UnexpectedEof)
        }
    }

    /// The compound operator at the place, if one stands there. It is not
    /// read.
    pub fn compound_at(&self) -> (r: Option<CompoundOp>)
        requires
            self.wf(),
        ensures
            r == grammar::compound_at(self.ts(), self.at()),
    {
        if self.pos < self.tokens.len() {
            match &self.tokens[self.pos] {
                Token::PlusAssign => Some(CompoundOp::AddAssign),
                Token::MinusAssign => Some(CompoundOp::SubAssign),
                Token::StarAssign => Some(CompoundOp::MulAssign),
                Token::SlashAssign => Some(CompoundOp::DivAssign),
                Token::PercentAssign => Some(CompoundOp::ModAssign),
                _ => None,
            }
        } else {
            None
        }
    }

    /// The binary operator of a level at the place, if one stands there. It
    /// is not read.
    pub fn operator_at(&self, level: u8) -> (r: Option<BinOp>)
        requires
            self.wf(),
        ensures
            r == grammar::operator_at(self.ts(), self.at(), level as nat),
    {
        if self.pos < self.tokens.len() {
            operator_of(level, &self.tokens[self.pos])
        } else {
            None
        }
    }

    /// Reads a literal, a variable, a call or an expression in parentheses.
    #[verifier::rlimit(50)]
    pub fn parse_primary(&mut self) -> (r: Result<Expr, ParseError>)
        requires
            old(self).wf(),
        ensures
            obeys(
                *old(self),
                *final(self),
                grammar::parse_primary(old(self).ts(), old(self).at()),
                viewed(r),
            ),
        decreases old(self).tokens@.len() - old(self).pos, 0nat,
    {
        if self.pos >= self.tokens.len() {
            return Err(ParseError::UnexpectedEof);
        }
        let at: usize = self.pos;
        match &self.tokens[at] {
            Token::IntLiteral(n) => {
                let e = Expr::IntLit(*n);
                self.advance();
                Ok(e)
            },
            Token::FloatLiteral(x) => {
                let e = Expr::FloatLit(*x);
                self.advance();
                Ok(e)
            },
            Token::True => {
                self.advance();
                Ok(Expr::BoolLit(true))
            },
            Token::False => {
                self.advance();
                Ok(Expr::BoolLit(false))
            },
            Token::CharLiteral(c) => {
                let e = Expr::CharLit(*c);
                self.advance();
                Ok(e)
            },
            Token::StringLiteral(s) => {
                let e = Expr::StringLit(s.clone());
                self.advance();
                Ok(e)
            },
            Token::Identifier(name) => {
                let name: String = name.clone();
                self.advance();
                if self.check(&Token::LParen) {
                    self.advance();
                    match self.arguments() {
                        Ok(args) => Ok(Expr::Call(name, args)),
                        Err(e) => Err(e),
                    }
                } else {
                    Ok(Expr::Var(name))
                }
            },
            Token::LParen => {
                self.advance();
                match self.parse_expr() {
                    Ok(e) => match self.expect(&Token::RParen) {
                        Ok(()) => Ok(e),
                        Err(err) => Err(err),
                    },
                    Err(e) => Err(e),
                }
            },
            other => Err(ParseError::UnexpectedToken(other.render())),
        }
    }

    /// Reads the arguments of a call or of `print`, behind the opening
    /// parenthesis and up to the closing one.
    pub fn arguments(&mut self) -> (r: Result<Vec<Expr>, ParseError>)
        requires
            old(self).wf(),
        ensures
            obeys(
                *old(self),
                *final(self),
                grammar::arguments(old(self).ts(), old(self).at()),
                viewed_exprs(r),
            ),
        decreases old(self).tokens@.len() - old(self).pos, 25nat,
    {
        match self.expr_list(&Token::RParen) {
            Ok(args) => match self.expect(&Token::RParen) {
                Ok(()) => Ok(args),
                Err(e) => Err(e),
            },
            Err(e) => Err(e),
        }
    }

    /// Reads expressions separated by commas, none where the closing token
    /// stands first.
    pub fn expr_list(&mut self, closer: &Token) -> (r: Result<Vec<Expr>, ParseError>)
        requires
            old(self).wf(),
        ensures
            obeys(
                *old(self),
                *final(self),
                grammar::expr_list(old(self).ts(), old(self).at(), closer@),
                viewed_exprs(r),
            ),
        decreases old(self).tokens@.len() - old(self).pos, 24nat,
    {
        let mut done: Vec<Expr> = Vec::new();
        assert(exprs_view(done@) =~= Seq::<ExprView>::empty());
        if self.check(closer) {
            return Ok(done);
        }
        loop
            invariant
                self.wf(),
                self.tokens == old(self).tokens,
                old(self).pos <= self.pos,
                grammar::expr_list(old(self).ts(), old(self).at(), closer@) == grammar::list_items(
                    self.ts(),
                    self.at(),
                    exprs_view(done@),
                ),
            decreases self.tokens@.len() - self.pos,
        {
            let ghost before = exprs_view(done@);
            match self.parse_expr() {
                Ok(e) => {
                    done.push(e);
                    assert(exprs_view(done@) =~= before.push(e@));
                    if self.check(&Token::Comma) {
                        self.advance();
                    } else {
                        return Ok(done);
                    }
                },
                Err(e) => {
                    return Err(e);
                },
            }
        }
    }

    /// Reads what follows a variable in an expression.
    #[verifier::rlimit(50)]
    pub fn parse_postfix(&mut self) -> (r: Result<Expr, ParseError>)
        requires
            old(self).wf(),
        ensures
            obeys(
                *old(self),
                *final(self),
                grammar::parse_postfix(old(self).ts(), old(self).at()),
                viewed(r),
            ),
        decreases old(self).tokens@.len() - old(self).pos, 1nat,
    {
        match self.parse_primary() {
            Ok(Expr::Var(name)) => {
                if self.check(&Token::LBracket) {
                    self.advance();
                    match self.parse_expr() {
                        Ok(index) => match self.expect(&Token::RBracket) {
                            Ok(()) => {
                                if self.check(&Token::PlusPlus) {
                                    self.advance();
                                    Ok(Expr::ArrayPostIncrement(name, Box::new(index)))
                                } else if self.check(&Token::MinusMinus) {
                                    self.advance();
                                    Ok(Expr::ArrayPostDecrement(name, Box::new(index)))
                                } else {
                                    Ok(Expr::ArrayAccess(name, Box::new(index)))
                                }
                            },
                            Err(e) => Err(e),
                        },
                        Err(e) => Err(e),
                    }
                } else if self.check(&Token::PlusPlus) {
                    self.advance();
                    Ok(Expr::PostIncrement(name))
                } else if self.check(&Token::MinusMinus) {
                    self.advance();
                    Ok(Expr::PostDecrement(name))
                } else {
                    Ok(Expr::Var(name))
                }
            },
            Ok(e) => Ok(e),
            Err(e) => Err(e),
        }
    }

    /// Reads the operand of a prefix `++` or `--`, behind the operator.
    #[verifier::rlimit(50)]
    pub fn prefix_step(&mut self, up: bool) -> (r: Result<Expr, ParseError>)
        requires
            old(self).wf(),
        ensures
            obeys(
                *old(self),
                *final(self),
                grammar::prefix_step(old(self).ts(), old(self).at(), up),
                viewed(r),
            ),
        decreases old(self).tokens@.len() - old(self).pos, 2nat,
    {
        match self.operand_name() {
            Ok(name) => {
                if self.check(&Token::LBracket) {
                    self.advance();
                    match self.parse_expr() {
                        Ok(index) => match self.expect(&Token::RBracket) {
                            Ok(()) => {
                                if up {
                                    Ok(Expr::ArrayPreIncrement(name, Box::new(index)))
                                } else {
                                    Ok(Expr::ArrayPreDecrement(name, Box::new(index)))
                                }
                            },
                            Err(e) => Err(e),
                        },
                        Err(e) => Err(e),
                    }
                } else if up {
                    Ok(Expr::PreIncrement(name))
                } else {
                    Ok(Expr::PreDecrement(name))
                }
            },
            Err(e) => Err(e),
        }
    }

    /// Reads a unary expression.
    pub fn parse_unary(&mut self) -> (r: Result<Expr, ParseError>)
        requires
            old(self).wf(),
        ensures
            obeys(
                *old(self),
                *final(self),
                grammar::parse_unary(old(self).ts(), old(self).at()),
                viewed(r),
            ),
        decreases old(self).tokens@.len() - old(self).pos, 3nat,
    {
        if self.check(&Token::Minus) {
            self.advance();
            match self.parse_unary() {
                Ok(e) => Ok(Expr::UnaryOp(UnaryOp::Neg, Box::new(e))),
                Err(e) => Err(e),
            }
        } else if self.check(&Token::Not) {
            self.advance();
            match self.parse_unary() {
                Ok(e) => Ok(Expr::UnaryOp(UnaryOp::Not, Box::new(e))),
                Err(e) => Err(e),
            }
        } else if self.check(&Token::PlusPlus) {
            self.advance();
            self.prefix_step(true)
        } else if self.check(&Token::MinusMinus) {
            self.advance();
            self.prefix_step(false)
        } else {
            self.parse_postfix()
        }
    }

    /// Reads an operand of a level of binary operators.
    pub fn parse_operand(&mut self, level: u8) -> (r: Result<Expr, ParseError>)
        requires
            old(self).wf(),
            level <= grammar::LOGICAL_OR,
        ensures
            obeys(
                *old(self),
                *final(self),
                grammar::parse_operand(old(self).ts(), old(self).at(), level as nat),
                viewed(r),
            ),
        decreases old(self).tokens@.len() - old(self).pos, 4 + 3 * level,
    {
        if level == 0 {
            self.parse_unary()
        } else {
            self.parse_binary(level - 1)
        }
    }

    /// Reads an expression of a level of binary operators, which associate
    /// to the left.
    pub fn parse_binary(&mut self, level: u8) -> (r: Result<Expr, ParseError>)
        requires
            old(self).wf(),
            level <= grammar::LOGICAL_OR,
        ensures
            obeys(
                *old(self),
                *final(self),
                grammar::parse_binary(old(self).ts(), old(self).at(), level as nat),
                viewed(r),
            ),
        decreases old(self).tokens@.len() - old(self).pos, 6 + 3 * level,
    {
        let mut left: Expr = match self.parse_operand(level) {
            Ok(e) => e,
            Err(e) => {
                return Err(e);
            },
        };
        loop
            invariant
                self.wf(),
                level <= grammar::LOGICAL_OR,
                self.tokens == old(self).tokens,
                old(self).pos <= self.pos,
                grammar::parse_binary(old(self).ts(), old(self).at(), level as nat)
                    == grammar::binary_rest(self.ts(), self.at(), level as nat, left@),
            decreases self.tokens@.len() - self.pos,
        {
            match self.operator_at(level) {
                Some(op) => {
                    self.advance();
                    match self.parse_operand(level) {
                        Ok(right) => {
                            left = combine(left, op, right);
                        },
                        Err(e) => {
                            return Err(e);
                        },
                    }
                },
                None => {
                    return Ok(left);
                },
            }
        }
    }

    /// Reads an expression.
    pub fn parse_expr(&mut self) -> (r: Result<Expr, ParseError>)
        requires
            old(self).wf(),
        ensures
            obeys(
                *old(self),
                *final(self),
                grammar::parse_expr(old(self).ts(), old(self).at()),
                viewed(r),
            ),
        decreases old(self).tokens@.len() - old(self).pos, 22nat,
    {
        self.parse_binary(grammar::LOGICAL_OR)
    }

    /// Reads an expression and the token that has to follow it.
    pub fn expr_then(&mut self, closer: &Token) -> (r: Result<Expr, ParseError>)
        requires
            old(self).wf(),
        ensures
            obeys(
                *old(self),
                *final(self),
                grammar::expr_then(old(self).ts(), old(self).at(), closer@),
                viewed(r),
            ),
        decreases old(self).tokens@.len() - old(self).pos, 26nat,
    {
        match self.parse_expr() {
            Ok(e) => match self.expect(closer) {
                Ok(()) => Ok(e),
                Err(err) => Err(err),
            },
            Err(e) => Err(e),
        }
    }

    /// Reads what can follow a name in a statement, but for an index.
    #[verifier::rlimit(50)]
    pub fn plain_stmt(&mut self, name: String) -> (r: Result<Stmt, ParseError>)
        requires
            old(self).wf(),
        ensures
            obeys(
                *old(self),
                *final(self),
                grammar::plain_stmt(old(self).ts(), old(self).at(), name@),
                viewed(r),
            ),
        decreases old(self).tokens@.len() - old(self).pos, 27nat,
    {
        if self.check(&Token::PlusPlus) {
            self.advance();
            return Ok(Stmt::PostIncrement(name));
        }
        if self.check(&Token::MinusMinus) {
            self.advance();
            return Ok(Stmt::PostDecrement(name));
        }
        if self.check(&Token::Assign) {
            self.advance();
            return match self.parse_expr() {
                Ok(value) => Ok(Stmt::Assign(name, value)),
                Err(e) => Err(e),
            };
        }
        match self.compound_at() {
            Some(op) => {
                self.advance();
                return match self.parse_expr() {
                    Ok(value) => Ok(Stmt::CompoundAssign(name, op, value)),
                    Err(e) => Err(e),
                };
            },
            None => {},
        }
        if self.check(&Token::LParen) {
            self.advance();
            return match self.arguments() {
                Ok(args) => Ok(Stmt::Expr(Expr::Call(name, args))),
                Err(e) => Err(e),
            };
        }
        Ok(Stmt::Expr(Expr::Var(name)))
    }

    /// Reads what can follow an indexed name in a statement.
    #[verifier::rlimit(50)]
    pub fn indexed_stmt(&mut self, name: String, index: Expr) -> (r: Result<Stmt, ParseError>)
        requires
            old(self).wf(),
        ensures
            obeys(
                *old(self),
                *final(self),
                grammar::indexed_stmt(old(self).ts(), old(self).at(), name@, index@),
                viewed(r),
            ),
        decreases old(self).tokens@.len() - old(self).pos, 28nat,
    {
        if self.check(&Token::PlusPlus) {
            self.advance();
            return Ok(Stmt::ArrayPostIncrement(name, index));
        }
        if self.check(&Token::MinusMinus) {
            self.advance();
            return Ok(Stmt::ArrayPostDecrement(name, index));
        }
        if self.check(&Token::Assign) {
            self.advance();
            return match self.parse_expr() {
                Ok(value) => Ok(Stmt::ArrayAssign(name, index, value)),
                Err(e) => Err(e),
            };
        }
        match self.compound_at() {
            Some(op) => {
                self.advance();
                return match self.parse_expr() {
                    Ok(value) => Ok(Stmt::ArrayCompoundAssign(name, index, op, value)),
                    Err(e) => Err(e),
                };
            },
            None => {},
        }
        self.plain_stmt(name)
    }

    /// Reads what follows a name at the start of a statement.
    pub fn named_stmt(&mut self, name: String) -> (r: Result<Stmt, ParseError>)
        requires
            old(self).wf(),
        ensures
            obeys(
                *old(self),
                *final(self),
                grammar::named_stmt(old(self).ts(), old(self).at(), name@),
                viewed(r),
            ),
        decreases old(self).tokens@.len() - old(self).pos, 29nat,
    {
        if self.check(&Token::LBracket) {
            self.advance();
            match self.expr_then(&Token::RBracket) {
                Ok(index) => self.indexed_stmt(name, index),
                Err(e) => Err(e),
            }
        } else {
            self.plain_stmt(name)
        }
    }

    /// Reads the operand of a prefix `++` or `--` that begins a statement.
    #[verifier::rlimit(50)]
    pub fn stepped_stmt(&mut self, up: bool) -> (r: Result<Stmt, ParseError>)
        requires
            old(self).wf(),
        ensures
            obeys(
                *old(self),
                *final(self),
                grammar::stepped_stmt(old(self).ts(), old(self).at(), up),
                viewed(r),
            ),
        decreases old(self).tokens@.len() - old(self).pos, 29nat,
    {
        match self.identifier() {
            Ok(name) => {
                if self.check(&Token::LBracket) {
                    self.advance();
                    match self.expr_then(&Token::RBracket) {
                        Ok(index) => {
                            if up {
                                Ok(Stmt::ArrayPreIncrement(name, index))
                            } else {
                                Ok(Stmt::ArrayPreDecrement(name, index))
                            }
                        },
                        Err(e) => Err(e),
                    }
                } else if up {
                    Ok(Stmt::PreIncrement(name))
                } else {
                    Ok(Stmt::PreDecrement(name))
                }
            },
            Err(e) => Err(e),
        }
    }

    /// Reads a statement that is an expression, a step or an assignment,
    /// without the semicolon behind it.
    pub fn parse_expr_stmt(&mut self) -> (r: Result<Stmt, ParseError>)
        requires
            old(self).wf(),
        ensures
            obeys(
                *old(self),
                *final(self),
                grammar::parse_expr_stmt(old(self).ts(), old(self).at()),
                viewed(r),
            ),
        decreases old(self).tokens@.len() - old(self).pos, 30nat,
    {
        if self.check(&Token::PlusPlus) {
            self.advance();
            return self.stepped_stmt(true);
        }
        if self.check(&Token::MinusMinus) {
            self.advance();
            return self.stepped_stmt(false);
        }
        if self.pos < self.tokens.len() {
            let at: usize = self.pos;
            match &self.tokens[at] {
                Token::Identifier(name) => {
                    let name: String = name.clone();
                    self.advance();
                    return self.named_stmt(name);
                },
                _ => {},
            }
        }
        match self.parse_expr() {
            Ok(e) => Ok(Stmt::Expr(e)),
            Err(e) => Err(e),
        }
    }

    /// Reads a statement and the semicolon behind it.
    pub fn expr_stmt_then_semicolon(&mut self) -> (r: Result<Stmt, ParseError>)
        requires
            old(self).wf(),
        ensures
            r is Ok ==> final(self).pos > old(self).pos,
            obeys(
                *old(self),
                *final(self),
                grammar::expr_stmt_then_semicolon(old(self).ts(), old(self).at()),
                viewed(r),
            ),
        decreases old(self).tokens@.len() - old(self).pos, 31nat,
    {
        match self.parse_expr_stmt() {
            Ok(s) => match self.expect(&Token::Semicolon) {
                Ok(()) => Ok(s),
                Err(e) => Err(e),
            },
            Err(e) => Err(e),
        }
    }

    /// Reads what follows the name in a declaration of a variable.
    pub fn decl_tail(&mut self, var_type: Type, name: String) -> (r: Result<Stmt, ParseError>)
        requires
            old(self).wf(),
        ensures
            obeys(
                *old(self),
                *final(self),
                grammar::decl_tail(old(self).ts(), old(self).at(), var_type, name@),
                viewed(r),
            ),
        decreases old(self).tokens@.len() - old(self).pos, 27nat,
    {
        if self.check(&Token::Assign) {
            self.advance();
            match self.expr_then(&Token::Semicolon) {
                Ok(init) => Ok(Stmt::VarDecl(var_type, name, Some(init))),
                Err(e) => Err(e),
            }
        } else {
            match self.expect(&Token::Semicolon) {
                Ok(()) => Ok(Stmt::VarDecl(var_type, name, None)),
                Err(e) => Err(e),
            }
        }
    }

    /// Reads the size of an array in its declaration.
    pub fn size_literal(&mut self) -> (r: Result<usize, ParseError>)
        requires
            old(self).wf(),
        ensures
            obeys(
                *old(self),
                *final(self),
                grammar::size_literal(old(self).ts(), old(self).at()),
                plain(r),
            ),
    {
        if self.pos < self.tokens.len() {
            let at: usize = self.pos;
            self.pos += 1;
            match &self.tokens[at] {
                Token::IntLiteral(n) => Ok(array_size(*n)),
                other => Err(expected_error("array size", other)),
            }
        } else {
            Err(ParseError::UnexpectedEof)
        }
    }

    /// Reads the initial values of an array, if there are any.
    pub fn array_init(&mut self) -> (r: Result<Option<Vec<Expr>>, ParseError>)
        requires
            old(self).wf(),
        ensures
            obeys(
                *old(self),
                *final(self),
                grammar::array_init(old(self).ts(), old(self).at()),
                viewed_init(r),
            ),
        decreases old(self).tokens@.len() - old(self).pos, 27nat,
    {
        if self.check(&Token::Assign) {
            self.advance();
            match self.expect(&Token::LBrace) {
                Ok(()) => match self.expr_list(&Token::RBrace) {
                    Ok(values) => match self.expect(&Token::RBrace) {
                        Ok(()) => Ok(Some(values)),
                        Err(e) => Err(e),
                    },
                    Err(e) => Err(e),
                },
                Err(e) => Err(e),
            }
        } else {
            Ok(None)
        }
    }

    /// Reads what follows the opening bracket in a declaration of an array.
    #[verifier::rlimit(50)]
    pub fn array_decl_tail(&mut self, elem_type: Type, name: String) -> (r: Result<Stmt, ParseError>)
        requires
            old(self).wf(),
        ensures
            obeys(
                *old(self),
                *final(self),
                grammar::array_decl_tail(old(self).ts(), old(self).at(), elem_type, name@),
                viewed(r),
            ),
        decreases old(self).tokens@.len() - old(self).pos, 28nat,
    {
        match self.size_literal() {
            Ok(size) => match self.expect(&Token::RBracket) {
                Ok(()) => match self.array_init() {
                    Ok(init) => match self.expect(&Token::Semicolon) {
                        Ok(()) => Ok(Stmt::ArrayDecl(elem_type, name, size, init)),
                        Err(e) => Err(e),
                    },
                    Err(e) => Err(e),
                },
                Err(e) => Err(e),
            },
            Err(e) => Err(e),
        }
    }

    /// Reads a declaration, of an array only where arrays are allowed.
    pub fn declaration(&mut self, arrays: bool) -> (r: Result<Stmt, ParseError>)
        requires
            old(self).wf(),
        ensures
            r is Ok ==> final(self).pos > old(self).pos,
            obeys(
                *old(self),
                *final(self),
                grammar::declaration(old(self).ts(), old(self).at(), arrays),
                viewed(r),
            ),
        decreases old(self).tokens@.len() - old(self).pos, 29nat,
    {
        match self.parse_type() {
            Ok(var_type) => match self.identifier() {
                Ok(name) => {
                    if arrays && self.check(&Token::LBracket) {
                        self.advance();
                        self.array_decl_tail(var_type, name)
                    } else {
                        self.decl_tail(var_type, name)
                    }
                },
                Err(e) => Err(e),
            },
            Err(e) => Err(e),
        }
    }

    /// Reads the first clause of a `for` loop, with its semicolon.
    pub fn parse_for_init(&mut self) -> (r: Result<Stmt, ParseError>)
        requires
            old(self).wf(),
        ensures
            obeys(
                *old(self),
                *final(self),
                grammar::parse_for_init(old(self).ts(), old(self).at()),
                viewed(r),
            ),
        decreases old(self).tokens@.len() - old(self).pos, 32nat,
    {
        if self.is_type() {
            self.declaration(false)
        } else {
            self.expr_stmt_then_semicolon()
        }
    }

    /// Reads the clauses of a `for` loop, between its parentheses.
    #[verifier::rlimit(50)]
    pub fn loop_clauses(&mut self) -> (r: Result<(Option<Box<Stmt>>, Option<Expr>, Option<Box<Stmt>>), ParseError>)
        requires
            old(self).wf(),
        ensures
            r is Ok ==> final(self).pos > old(self).pos,
            obeys(
                *old(self),
                *final(self),
                grammar::loop_clauses(old(self).ts(), old(self).at()),
                viewed_clauses(r),
            ),
        decreases old(self).tokens@.len() - old(self).pos, 33nat,
    {
        match self.expect(&Token::LParen) {
            Ok(()) => {},
            Err(e) => {
                return Err(e);
            },
        }
        let init: Option<Box<Stmt>> = if self.check(&Token::Semicolon) {
            self.advance();
            None
        } else {
            match self.parse_for_init() {
                Ok(s) => Some(Box::new(s)),
                Err(e) => {
                    return Err(e);
                },
            }
        };
        let condition: Option<Expr> = if self.check(&Token::Semicolon) {
            self.advance();
            None
        } else {
            match self.expr_then(&Token::Semicolon) {
                Ok(e) => Some(e),
                Err(e) => {
                    return Err(e);
                },
            }
        };
        let update: Option<Box<Stmt>> = if self.check(&Token::RParen) {
            None
        } else {
            match self.parse_expr_stmt() {
                Ok(s) => Some(Box::new(s)),
                Err(e) => {
                    return Err(e);
                },
            }
        };
        match self.expect(&Token::RParen) {
            Ok(()) => Ok((init, condition, update)),
            Err(e) => Err(e),
        }
    }

    /// Reads a `for` loop behind its keyword.
    #[verifier::rlimit(50)]
    pub fn for_loop(&mut self, sharp: bool) -> (r: Result<Stmt, ParseError>)
        requires
            old(self).wf(),
        ensures
            obeys(
                *old(self),
                *final(self),
                grammar::for_loop(old(self).ts(), old(self).at(), sharp),
                viewed(r),
            ),
        decreases old(self).tokens@.len() - old(self).pos, 34nat,
    {
        if self.pos >= self.tokens.len() {
            return Err(ParseError::UnexpectedEof);
        }
        match self.loop_clauses() {
            Ok((init, condition, update)) => match self.parse_stmt() {
                Ok(body) => {
                    if sharp {
                        Ok(Stmt::SharpFor(init, condition, update, Box::new(body)))
                    } else {
                        Ok(Stmt::For(init, condition, update, Box::new(body)))
                    }
                },
                Err(e) => Err(e),
            },
            Err(e) => Err(e),
        }
    }

    /// Reads a condition between parentheses.
    pub fn condition(&mut self) -> (r: Result<Expr, ParseError>)
        requires
            old(self).wf(),
        ensures
            r is Ok ==> final(self).pos > old(self).pos,
            obeys(
                *old(self),
                *final(self),
                grammar::condition(old(self).ts(), old(self).at()),
                viewed(r),
            ),
        decreases old(self).tokens@.len() - old(self).pos, 27nat,
    {
        match self.expect(&Token::LParen) {
            Ok(()) => self.expr_then(&Token::RParen),
            Err(e) => Err(e),
        }
    }

    /// Reads the branch behind `else`, if `else` follows.
    #[verifier::rlimit(50)]
    pub fn else_part(&mut self) -> (r: Result<Option<Box<Stmt>>, ParseError>)
        requires
            old(self).wf(),
        ensures
            obeys(
                *old(self),
                *final(self),
                grammar::else_part(old(self).ts(), old(self).at()),
                viewed_branch(r),
            ),
        decreases old(self).tokens@.len() - old(self).pos, 43nat,
    {
        if self.check(&Token::Else) {
            self.advance();
            match self.parse_stmt() {
                Ok(branch) => Ok(Some(Box::new(branch))),
                Err(e) => Err(e),
            }
        } else {
            Ok(None)
        }
    }

    /// Reads an `if` behind its keyword.
    #[verifier::rlimit(50)]
    pub fn if_stmt(&mut self) -> (r: Result<Stmt, ParseError>)
        requires
            old(self).wf(),
        ensures
            obeys(
                *old(self),
                *final(self),
                grammar::if_stmt(old(self).ts(), old(self).at()),
                viewed(r),
            ),
        decreases old(self).tokens@.len() - old(self).pos, 44nat,
    {
        if self.pos >= self.tokens.len() {
            return Err(ParseError::UnexpectedEof);
        }
        let c: Expr = match self.condition() {
            Ok(c) => c,
            Err(e) => {
                return Err(e);
            },
        };
        let then_branch: Stmt = match self.parse_stmt() {
            Ok(s) => s,
            Err(e) => {
                return Err(e);
            },
        };
        match self.else_part() {
            Ok(else_branch) => Ok(Stmt::If(c, Box::new(then_branch), else_branch)),
            Err(e) => Err(e),
        }
    }

    /// Reads a `while` behind its keyword.
    pub fn while_stmt(&mut self) -> (r: Result<Stmt, ParseError>)
        requires
            old(self).wf(),
        ensures
            obeys(
                *old(self),
                *final(self),
                grammar::while_stmt(old(self).ts(), old(self).at()),
                viewed(r),
            ),
        decreases old(self).tokens@.len() - old(self).pos, 34nat,
    {
        if self.pos >= self.tokens.len() {
            return Err(ParseError::UnexpectedEof);
        }
        match self.condition() {
            Ok(c) => match self.parse_stmt() {
                Ok(body) => Ok(Stmt::While(c, Box::new(body))),
                Err(e) => Err(e),
            },
            Err(e) => Err(e),
        }
    }

    /// Reads a `print` behind its keyword.
    pub fn print_stmt(&mut self) -> (r: Result<Stmt, ParseError>)
        requires
            old(self).wf(),
        ensures
            obeys(
                *old(self),
                *final(self),
                grammar::print_stmt(old(self).ts(), old(self).at()),
                viewed(r),
            ),
        decreases old(self).tokens@.len() - old(self).pos, 27nat,
    {
        match self.expect(&Token::LParen) {
            Ok(()) => match self.arguments() {
                Ok(args) => match self.expect(&Token::Semicolon) {
                    Ok(()) => Ok(Stmt::Print(args)),
                    Err(e) => Err(e),
                },
                Err(e) => Err(e),
            },
            Err(e) => Err(e),
        }
    }

    /// Reads a `return` behind its keyword.
    pub fn return_stmt(&mut self) -> (r: Result<Stmt, ParseError>)
        requires
            old(self).wf(),
        ensures
            obeys(
                *old(self),
                *final(self),
                grammar::return_stmt(old(self).ts(), old(self).at()),
                viewed(r),
            ),
        decreases old(self).tokens@.len() - old(self).pos, 27nat,
    {
        if self.check(&Token::Semicolon) {
            self.advance();
            Ok(Stmt::Return(None))
        } else {
            match self.expr_then(&Token::Semicolon) {
                Ok(e) => Ok(Stmt::Return(Some(e))),
                Err(e) => Err(e),
            }
        }
    }

    /// Reads the statements up to a closing brace, which is not read.
    pub fn stmt_list(&mut self) -> (r: Result<Vec<Stmt>, ParseError>)
        requires
            old(self).wf(),
        ensures
            obeys(
                *old(self),
                *final(self),
                grammar::stmt_list(old(self).ts(), old(self).at(), Seq::empty()),
                viewed_stmts(r),
            ),
        decreases old(self).tokens@.len() - old(self).pos, 41nat,
    {
        let mut done: Vec<Stmt> = Vec::new();
        assert(stmts_view(done@) =~= Seq::<StmtView>::empty());
        loop
            invariant
                self.wf(),
                self.tokens == old(self).tokens,
                old(self).pos <= self.pos,
                grammar::stmt_list(old(self).ts(), old(self).at(), Seq::empty())
                    == grammar::stmt_list(self.ts(), self.at(), stmts_view(done@)),
            decreases self.tokens@.len() - self.pos,
        {
            if self.check(&Token::RBrace) {
                return Ok(done);
            }
            if self.pos >= self.tokens.len() {
                return Err(ParseError::UnexpectedEof);
            }
            let ghost before = stmts_view(done@);
            match self.parse_stmt() {
                Ok(s) => {
                    done.push(s);
                    assert(stmts_view(done@) =~= before.push(s@));
                },
                Err(e) => {
                    return Err(e);
                },
            }
        }
    }

    /// Reads the statements of a block or of a body, and the closing brace.
    pub fn block_body(&mut self) -> (r: Result<Vec<Stmt>, ParseError>)
        requires
            old(self).wf(),
        ensures
            obeys(
                *old(self),
                *final(self),
                grammar::block_body(old(self).ts(), old(self).at()),
                viewed_stmts(r),
            ),
        decreases old(self).tokens@.len() - old(self).pos, 42nat,
    {
        match self.stmt_list() {
            Ok(stmts) => match self.expect(&Token::RBrace) {
                Ok(()) => Ok(stmts),
                Err(e) => Err(e),
            },
            Err(e) => Err(e),
        }
    }

    /// Reads a block behind its opening brace.
    pub fn block_stmt(&mut self) -> (r: Result<Stmt, ParseError>)
        requires
            old(self).wf(),
        ensures
            obeys(
                *old(self),
                *final(self),
                grammar::block_stmt(old(self).ts(), old(self).at()),
                viewed(r),
            ),
        decreases old(self).tokens@.len() - old(self).pos, 43nat,
    {
        match self.block_body() {
            Ok(stmts) => Ok(Stmt::Block(stmts)),
            Err(e) => Err(e),
        }
    }

    /// Reads a statement.
    #[verifier::rlimit(50)]
    pub fn parse_stmt(&mut self) -> (r: Result<Stmt, ParseError>)
        requires
            old(self).wf(),
        ensures
            r is Ok ==> final(self).pos > old(self).pos,
            obeys(
                *old(self),
                *final(self),
                grammar::parse_stmt(old(self).ts(), old(self).at()),
                viewed(r),
            ),
        decreases old(self).tokens@.len() - old(self).pos, 40nat,
    {
        if self.is_type() {
            self.declaration(true)
        } else if self.check(&Token::If) {
            self.advance();
            self.if_stmt()
        } else if self.check(&Token::While) {
            self.advance();
            self.while_stmt()
        } else if self.check(&Token::Sharp) {
            self.advance();
            match self.expect(&Token::For) {
                Ok(()) => self.for_loop(true),
                Err(e) => Err(e),
            }
        } else if self.check(&Token::For) {
            self.advance();
            self.for_loop(false)
        } else if self.check(&Token::LBrace) {
            self.advance();
            self.block_stmt()
        } else if self.check(&Token::Print) {
            self.advance();
            self.print_stmt()
        } else if self.check(&Token::Return) {
            self.advance();
            self.return_stmt()
        } else {
            self.expr_stmt_then_semicolon()
        }
    }

    /// Reads parameters separated by commas: each a type and a name.
    pub fn param_items(&mut self) -> (r: Result<Vec<(Type, String)>, ParseError>)
        requires
            old(self).wf(),
        ensures
            obeys(
                *old(self),
                *final(self),
                grammar::param_items(old(self).ts(), old(self).at(), Seq::empty()),
                viewed_params(r),
            ),
    {
        let mut done: Vec<(Type, String)> = Vec::new();
        assert(params_view(done@) =~= Seq::<(Type, Seq<char>)>::empty());
        loop
            invariant
                self.wf(),
                self.tokens == old(self).tokens,
                old(self).pos <= self.pos,
                grammar::param_items(old(self).ts(), old(self).at(), Seq::empty())
                    == grammar::param_items(self.ts(), self.at(), params_view(done@)),
            decreases self.tokens@.len() - self.pos,
        {
            let ghost before = params_view(done@);
            let param_type: Type = match self.parse_type() {
                Ok(t) => t,
                Err(e) => {
                    return Err(e);
                },
            };
            let name: String = match self.identifier() {
                Ok(n) => n,
                Err(e) => {
                    return Err(e);
                },
            };
            done.push((param_type, name));
            assert(params_view(done@) =~= before.push((param_type, name@)));
            if self.check(&Token::Comma) {
                self.advance();
            } else {
                return Ok(done);
            }
        }
    }

    /// Reads the parameters of a function between their parentheses.
    pub fn parameters(&mut self) -> (r: Result<Vec<(Type, String)>, ParseError>)
        requires
            old(self).wf(),
        ensures
            obeys(
                *old(self),
                *final(self),
                grammar::parameters(old(self).ts(), old(self).at()),
                viewed_params(r),
            ),
    {
        match self.expect(&Token::LParen) {
            Ok(()) => {},
            Err(e) => {
                return Err(e);
            },
        }
        let params: Vec<(Type, String)> = if self.check(&Token::RParen) {
            let none: Vec<(Type, String)> = Vec::new();
            assert(params_view(none@) =~= Seq::<(Type, Seq<char>)>::empty());
            none
        } else {
            match self.param_items() {
                Ok(p) => p,
                Err(e) => {
                    return Err(e);
                },
            }
        };
        match self.expect(&Token::RParen) {
            Ok(()) => Ok(params),
            Err(e) => Err(e),
        }
    }

    /// Reads a function.
    pub fn parse_function(&mut self) -> (r: Result<Function, ParseError>)
        requires
            old(self).wf(),
        ensures
            r is Ok ==> final(self).pos > old(self).pos,
            obeys(
                *old(self),
                *final(self),
                grammar::parse_function(old(self).ts(), old(self).at()),
                viewed(r),
            ),
    {
        let return_type: Type = match self.parse_type() {
            Ok(t) => t,
            Err(e) => {
                return Err(e);
            },
        };
        let name: String = match self.identifier() {
            Ok(n) => n,
            Err(e) => {
                return Err(e);
            },
        };
        let params: Vec<(Type, String)> = match self.parameters() {
            Ok(p) => p,
            Err(e) => {
                return Err(e);
            },
        };
        match self.expect(&Token::LBrace) {
            Ok(()) => {},
            Err(e) => {
                return Err(e);
            },
        }
        match self.block_body() {
            Ok(body) => Ok(Function { name, params, return_type, body }),
            Err(e) => Err(e),
        }
    }

    /// Reads a program: functions up to the end of the tokens.
    pub fn parse_program(&mut self) -> (r: Result<Program, ParseError>)
        requires
            old(self).wf(),
        ensures
            obeys(
                *old(self),
                *final(self),
                grammar::functions_from(old(self).ts(), old(self).at(), Seq::empty()),
                viewed_program(r),
            ),
    {
        let mut done: Vec<Function> = Vec::new();
        assert(functions_view(done@) =~= Seq::<FunctionView>::empty());
        while self.pos < self.tokens.len()
            invariant
                self.wf(),
                self.tokens == old(self).tokens,
                old(self).pos <= self.pos,
                grammar::functions_from(old(self).ts(), old(self).at(), Seq::empty())
                    == grammar::functions_from(self.ts(), self.at(), functions_view(done@)),
            decreases self.tokens@.len() - self.pos,
        {
            let ghost before = functions_view(done@);
            match self.parse_function() {
                Ok(function) => {
                    done.push(function);
                    assert(functions_view(done@) =~= before.push(function@));
                },
                Err(e) => {
                    return Err(e);
                },
            }
        }
        Ok(Program { functions: done })
    }
}

} // verus!
