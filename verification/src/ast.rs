//! The syntax tree that the interpreter walks.

use crate::number::Num;
use vstd::prelude::*;

verus! {

/// The declared type of a variable, an array element or a function result.
#[derive(Debug, PartialEq)]
pub enum Type {
    Int,
    Float,
    Bool,
    Char,
    String,
    Void,
    /// An array of an element type and a fixed size.
    Array(Box<Type>, usize),
}

/// A binary operator.
#[derive(Debug, Clone, Copy, PartialEq, Eq, Structural)]
pub enum BinOp {
    Add,
    Sub,
    Mul,
    Div,
    Mod,
    Eq,
    Ne,
    Lt,
    Gt,
    Le,
    Ge,
    And,
    Or,
}

/// A unary operator.
#[derive(Debug, Clone, Copy, PartialEq, Eq, Structural)]
pub enum UnaryOp {
    Neg,
    Not,
}

/// The operator of a compound assignment.
#[derive(Debug, Clone, Copy, PartialEq, Eq, Structural)]
pub enum CompoundOp {
    AddAssign,
    SubAssign,
    MulAssign,
    DivAssign,
    ModAssign,
}

/// An expression.
#[derive(Debug)]
pub enum Expr {
    IntLit(i64),
    FloatLit(Num),
    BoolLit(bool),
    CharLit(char),
    StringLit(String),
    /// A variable read.
    Var(String),
    /// `array[index]`.
    ArrayAccess(String, Box<Expr>),
    BinOp(Box<Expr>, BinOp, Box<Expr>),
    UnaryOp(UnaryOp, Box<Expr>),
    PreIncrement(String),
    PreDecrement(String),
    PostIncrement(String),
    PostDecrement(String),
    ArrayPreIncrement(String, Box<Expr>),
    ArrayPreDecrement(String, Box<Expr>),
    ArrayPostIncrement(String, Box<Expr>),
    ArrayPostDecrement(String, Box<Expr>),
    /// A call of a built-in or of a registered function.
    Call(String, Vec<Expr>),
    /// `"text" * count`.
    StringRepeat(Box<Expr>, Box<Expr>),
    Assign(String, Box<Expr>),
    /// `array[index] = value`.
    ArrayAssign(String, Box<Expr>, Box<Expr>),
    CompoundAssign(String, CompoundOp, Box<Expr>),
    ArrayCompoundAssign(String, Box<Expr>, CompoundOp, Box<Expr>),
}

/// A statement.
#[derive(Debug)]
pub enum Stmt {
    /// A declaration with an optional initializer.
    VarDecl(Type, String, Option<Expr>),
    /// `type name[size]`, with optional initial values.
    ArrayDecl(Type, String, usize, Option<Vec<Expr>>),
    Assign(String, Expr),
    ArrayAssign(String, Expr, Expr),
    CompoundAssign(String, CompoundOp, Expr),
    ArrayCompoundAssign(String, Expr, CompoundOp, Expr),
    PreIncrement(String),
    PreDecrement(String),
    PostIncrement(String),
    PostDecrement(String),
    ArrayPreIncrement(String, Expr),
    ArrayPreDecrement(String, Expr),
    ArrayPostIncrement(String, Expr),
    ArrayPostDecrement(String, Expr),
    If(Expr, Box<Stmt>, Option<Box<Stmt>>),
    While(Expr, Box<Stmt>),
    /// `for (init; condition; update) body`, capped in its iterations.
    For(Option<Box<Stmt>>, Option<Expr>, Option<Box<Stmt>>, Box<Stmt>),
    /// The same loop without a cap, whose declared counter does not blur.
    SharpFor(Option<Box<Stmt>>, Option<Expr>, Option<Box<Stmt>>, Box<Stmt>),
    Block(Vec<Stmt>),
    Expr(Expr),
    Print(Vec<Expr>),
    Return(Option<Expr>),
}

/// A function: its name, its parameters, its declared return type, which is
/// not enforced, and its body.
#[derive(Debug)]
pub struct Function {
    pub name: String,
    pub params: Vec<(Type, String)>,
    pub return_type: Type,
    pub body: Vec<Stmt>,
}

/// A program: its functions in the order in which they are written.
#[derive(Debug)]
pub struct Program {
    pub functions: Vec<Function>,
}

impl Clone for Type {
    fn clone(&self) -> (r: Type)
        ensures
            r == *self,
    {
        self.duplicate()
    }
}

impl Type {
    /// A copy of the type.
    pub fn duplicate(&self) -> (r: Type)
        ensures
            r == *self,
        decreases *self,
    {
        match self {
            Type::Int => Type::Int,
            Type::Float => Type::Float,
            Type::Bool => Type::Bool,
            Type::Char => Type::Char,
            Type::String => Type::String,
            Type::Void => Type::Void,
            Type::Array(elem, size) => Type::Array(Box::new(elem.duplicate()), *size),
        }
    }
}

/// The mathematical content of an [`Expr`].
pub enum ExprView {
    IntLit(i64),
    FloatLit(Num),
    BoolLit(bool),
    CharLit(char),
    StringLit(Seq<char>),
    Var(Seq<char>),
    ArrayAccess(Seq<char>, Box<ExprView>),
    BinOp(Box<ExprView>, BinOp, Box<ExprView>),
    UnaryOp(UnaryOp, Box<ExprView>),
    PreIncrement(Seq<char>),
    PreDecrement(Seq<char>),
    PostIncrement(Seq<char>),
    PostDecrement(Seq<char>),
    ArrayPreIncrement(Seq<char>, Box<ExprView>),
    ArrayPreDecrement(Seq<char>, Box<ExprView>),
    ArrayPostIncrement(Seq<char>, Box<ExprView>),
    ArrayPostDecrement(Seq<char>, Box<ExprView>),
    Call(Seq<char>, Seq<ExprView>),
    StringRepeat(Box<ExprView>, Box<ExprView>),
    Assign(Seq<char>, Box<ExprView>),
    ArrayAssign(Seq<char>, Box<ExprView>, Box<ExprView>),
    CompoundAssign(Seq<char>, CompoundOp, Box<ExprView>),
    ArrayCompoundAssign(Seq<char>, Box<ExprView>, CompoundOp, Box<ExprView>),
}

/// The mathematical content of a [`Stmt`].
pub enum StmtView {
    VarDecl(Type, Seq<char>, Option<ExprView>),
    ArrayDecl(Type, Seq<char>, usize, Option<Seq<ExprView>>),
    Assign(Seq<char>, ExprView),
    ArrayAssign(Seq<char>, ExprView, ExprView),
    CompoundAssign(Seq<char>, CompoundOp, ExprView),
    ArrayCompoundAssign(Seq<char>, ExprView, CompoundOp, ExprView),
    PreIncrement(Seq<char>),
    PreDecrement(Seq<char>),
    PostIncrement(Seq<char>),
    PostDecrement(Seq<char>),
    ArrayPreIncrement(Seq<char>, ExprView),
    ArrayPreDecrement(Seq<char>, ExprView),
    ArrayPostIncrement(Seq<char>, ExprView),
    ArrayPostDecrement(Seq<char>, ExprView),
    If(ExprView, Box<StmtView>, Option<Box<StmtView>>),
    While(ExprView, Box<StmtView>),
    For(Option<Box<StmtView>>, Option<ExprView>, Option<Box<StmtView>>, Box<StmtView>),
    SharpFor(Option<Box<StmtView>>, Option<ExprView>, Option<Box<StmtView>>, Box<StmtView>),
    Block(Seq<StmtView>),
    Expr(ExprView),
    Print(Seq<ExprView>),
    Return(Option<ExprView>),
}

/// The mathematical content of a [`Function`].
pub struct FunctionView {
    pub name: Seq<char>,
    pub params: Seq<(Type, Seq<char>)>,
    pub return_type: Type,
    pub body: Seq<StmtView>,
}

/// The contents of expressions.
pub open spec fn exprs_view(exprs: Seq<Expr>) -> Seq<ExprView>
    decreases exprs,
{
    Seq::new(
        exprs.len(),
        |i: int|
            if 0 <= i < exprs.len() {
                expr_view(exprs[i])
            } else {
                ExprView::IntLit(0)
            },
    )
}

/// The content of an expression.
pub open spec fn expr_view(expr: Expr) -> ExprView
    decreases expr,
{
    match expr {
        Expr::IntLit(n) => ExprView::IntLit(n),
        Expr::FloatLit(x) => ExprView::FloatLit(x),
        Expr::BoolLit(b) => ExprView::BoolLit(b),
        Expr::CharLit(c) => ExprView::CharLit(c),
        Expr::StringLit(s) => ExprView::StringLit(s@),
        Expr::Var(name) => ExprView::Var(name@),
        Expr::ArrayAccess(name, index) => ExprView::ArrayAccess(name@, Box::new(expr_view(*index))),
        Expr::BinOp(left, op, right) => ExprView::BinOp(
            Box::new(expr_view(*left)),
            op,
            Box::new(expr_view(*right)),
        ),
        Expr::UnaryOp(op, operand) => ExprView::UnaryOp(op, Box::new(expr_view(*operand))),
        Expr::PreIncrement(name) => ExprView::PreIncrement(name@),
        Expr::PreDecrement(name) => ExprView::PreDecrement(name@),
        Expr::PostIncrement(name) => ExprView::PostIncrement(name@),
        Expr::PostDecrement(name) => ExprView::PostDecrement(name@),
        Expr::ArrayPreIncrement(name, index) => ExprView::ArrayPreIncrement(
            name@,
            Box::new(expr_view(*index)),
        ),
        Expr::ArrayPreDecrement(name, index) => ExprView::ArrayPreDecrement(
            name@,
            Box::new(expr_view(*index)),
        ),
        Expr::ArrayPostIncrement(name, index) => ExprView::ArrayPostIncrement(
            name@,
            Box::new(expr_view(*index)),
        ),
        Expr::ArrayPostDecrement(name, index) => ExprView::ArrayPostDecrement(
            name@,
            Box::new(expr_view(*index)),
        ),
        Expr::Call(name, args) => ExprView::Call(name@, exprs_view(args@)),
        Expr::StringRepeat(text, count) => ExprView::StringRepeat(
            Box::new(expr_view(*text)),
            Box::new(expr_view(*count)),
        ),
        Expr::Assign(name, value) => ExprView::Assign(name@, Box::new(expr_view(*value))),
        Expr::ArrayAssign(name, index, value) => ExprView::ArrayAssign(
            name@,
            Box::new(expr_view(*index)),
            Box::new(expr_view(*value)),
        ),
        Expr::CompoundAssign(name, op, value) => ExprView::CompoundAssign(
            name@,
            op,
            Box::new(expr_view(*value)),
        ),
        Expr::ArrayCompoundAssign(name, index, op, value) => ExprView::ArrayCompoundAssign(
            name@,
            Box::new(expr_view(*index)),
            op,
            Box::new(expr_view(*value)),
        ),
    }
}

/// The content of an expression that may be absent.
pub open spec fn optional_expr_view(expr: Option<Expr>) -> Option<ExprView> {
    match expr {
        Some(e) => Some(expr_view(e)),
        None => None,
    }
}

/// The contents of statements.
pub open spec fn stmts_view(stmts: Seq<Stmt>) -> Seq<StmtView>
    decreases stmts,
{
    Seq::new(
        stmts.len(),
        |i: int|
            if 0 <= i < stmts.len() {
                stmt_view(stmts[i])
            } else {
                StmtView::Return(None)
            },
    )
}

/// The content of a statement that may be absent.
pub open spec fn optional_stmt_view(stmt: Option<Box<Stmt>>) -> Option<Box<StmtView>>
    decreases stmt,
{
    match stmt {
        Some(s) => Some(Box::new(stmt_view(*s))),
        None => None,
    }
}

/// The content of a statement.
pub open spec fn stmt_view(stmt: Stmt) -> StmtView
    decreases stmt,
{
    match stmt {
        Stmt::VarDecl(var_type, name, init) => StmtView::VarDecl(
            var_type,
            name@,
            optional_expr_view(init),
        ),
        Stmt::ArrayDecl(elem_type, name, size, init) => StmtView::ArrayDecl(
            elem_type,
            name@,
            size,
            match init {
                Some(values) => Some(exprs_view(values@)),
                None => None,
            },
        ),
        Stmt::Assign(name, value) => StmtView::Assign(name@, expr_view(value)),
        Stmt::ArrayAssign(name, index, value) => StmtView::ArrayAssign(
            name@,
            expr_view(index),
            expr_view(value),
        ),
        Stmt::CompoundAssign(name, op, value) => StmtView::CompoundAssign(
            name@,
            op,
            expr_view(value),
        ),
        Stmt::ArrayCompoundAssign(name, index, op, value) => StmtView::ArrayCompoundAssign(
            name@,
            expr_view(index),
            op,
            expr_view(value),
        ),
        Stmt::PreIncrement(name) => StmtView::PreIncrement(name@),
        Stmt::PreDecrement(name) => StmtView::PreDecrement(name@),
        Stmt::PostIncrement(name) => StmtView::PostIncrement(name@),
        Stmt::PostDecrement(name) => StmtView::PostDecrement(name@),
        Stmt::ArrayPreIncrement(name, index) => StmtView::ArrayPreIncrement(name@, expr_view(index)),
        Stmt::ArrayPreDecrement(name, index) => StmtView::ArrayPreDecrement(name@, expr_view(index)),
        Stmt::ArrayPostIncrement(name, index) => StmtView::ArrayPostIncrement(
            name@,
            expr_view(index),
        ),
        Stmt::ArrayPostDecrement(name, index) => StmtView::ArrayPostDecrement(
            name@,
            expr_view(index),
        ),
        Stmt::If(condition, then_branch, else_branch) => StmtView::If(
            expr_view(condition),
            Box::new(stmt_view(*then_branch)),
            optional_stmt_view(else_branch),
        ),
        Stmt::While(condition, body) => StmtView::While(
            expr_view(condition),
            Box::new(stmt_view(*body)),
        ),
        Stmt::For(init, condition, update, body) => StmtView::For(
            optional_stmt_view(init),
            optional_expr_view(condition),
            optional_stmt_view(update),
            Box::new(stmt_view(*body)),
        ),
        Stmt::SharpFor(init, condition, update, body) => StmtView::SharpFor(
            optional_stmt_view(init),
            optional_expr_view(condition),
            optional_stmt_view(update),
            Box::new(stmt_view(*body)),
        ),
        Stmt::Block(stmts) => StmtView::Block(stmts_view(stmts@)),
        Stmt::Expr(e) => StmtView::Expr(expr_view(e)),
        Stmt::Print(exprs) => StmtView::Print(exprs_view(exprs@)),
        Stmt::Return(value) => StmtView::Return(optional_expr_view(value)),
    }
}

/// The names and types of parameters.
pub open spec fn params_view(params: Seq<(Type, String)>) -> Seq<(Type, Seq<char>)> {
    Seq::new(params.len(), |i: int| (params[i].0, params[i].1@))
}

impl View for Expr {
    type V = ExprView;

    open spec fn view(&self) -> ExprView {
        expr_view(*self)
    }
}

impl View for Stmt {
    type V = StmtView;

    open spec fn view(&self) -> StmtView {
        stmt_view(*self)
    }
}

impl View for Function {
    type V = FunctionView;

    open spec fn view(&self) -> FunctionView {
        FunctionView {
            name: self.name@,
            params: params_view(self.params@),
            return_type: self.return_type,
            body: stmts_view(self.body@),
        }
    }
}

/// The contents of functions.
pub open spec fn functions_view(functions: Seq<Function>) -> Seq<FunctionView> {
    Seq::new(functions.len(), |i: int| functions[i]@)
}

impl View for Program {
    type V = Seq<FunctionView>;

    open spec fn view(&self) -> Seq<FunctionView> {
        functions_view(self.functions@)
    }
}

} // verus!
