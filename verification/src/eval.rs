//! The evaluator: a recursive walk over expressions and statements that
//! changes the state as the semantics says.

use crate::ast::{
    exprs_view, optional_expr_view, optional_stmt_view, params_view, stmts_view, BinOp, CompoundOp,
    Expr, ExprView, Function, Stmt, Type, UnaryOp,
};
use crate::error::{ErrorView, RuntimeError};
use crate::history::{BlurValue, BlurView};
use crate::number::Num;
use crate::scope::cells_view;
use crate::semantics;
use crate::semantics::{balanced, FlowView};
use crate::state::{cell_result, value_result, Emit, State};
use crate::table::Table;
use crate::text::{push_text, same_text, string_of};
use crate::update::{Update, UpdateView};
use crate::value::Value;
use vstd::prelude::*;

verus! {

/// How a statement ended.
#[derive(Debug)]
pub enum ControlFlow {
    /// Execution goes on with the next statement.
    Proceed,
    /// The enclosing call returns the value.
    Return(Value),
}

impl View for ControlFlow {
    type V = FlowView;

    open spec fn view(&self) -> FlowView {
        match self {
            ControlFlow::Proceed => FlowView::Proceed,
            ControlFlow::Return(value) => FlowView::Returned(value@),
        }
    }
}

/// A statement's end, or an error, as a result over views.
pub open spec fn flow_result(r: Result<ControlFlow, RuntimeError>) -> Result<FlowView, ErrorView> {
    match r {
        Ok(flow) => Ok(flow@),
        Err(e) => Err(e@),
    }
}

/// An update, or an error, as a result over views.
pub open spec fn update_result(r: Result<Update, RuntimeError>) -> Result<UpdateView, ErrorView> {
    match r {
        Ok(update) => Ok(update@),
        Err(e) => Err(e@),
    }
}

/// Cells, or an error, as a result over views.
pub open spec fn cells_result(r: Result<Vec<BlurValue>, RuntimeError>) -> Result<
    Seq<BlurView>,
    ErrorView,
> {
    match r {
        Ok(cells) => Ok(cells_view(cells@)),
        Err(e) => Err(e@),
    }
}

/// The texts of strings.
pub open spec fn texts_view(texts: Seq<String>) -> Seq<Seq<char>> {
    Seq::new(texts.len(), |i: int| texts[i]@)
}

/// The index that a value stands for.
pub fn index_of(value: &Value) -> (r: i64)
    ensures
        r == semantics::index_of(value@),
{
    value.to_f64().to_i64()
}

/// The count that a value stands for.
pub fn count_of(value: &Value) -> (r: usize)
    ensures
        r == semantics::count_of(value@),
{
    value.to_f64().to_usize()
}

/// The value of a text repeated in a place where a value is asked for.
pub fn repeat(value: &Value, times: usize) -> (r: Value)
    ensures
        r@ == semantics::repeated(value@, times as nat),
{
    match value {
        Value::String(text) => {
            let mut out: String = String::new();
            let mut n: usize = 0;
            while n < times
                invariant
                    n <= times,
                    out@ == semantics::repeated_text(text@, n as nat),
                decreases times - n,
            {
                out.append(text.as_str());
                n += 1;
            }
            Value::String(out)
        },
        _ => Value::String(String::new()),
    }
}

/// The result of a binary operator on two values.
pub fn eval_binop(left: &Value, op: BinOp, right: &Value) -> (r: Result<Value, RuntimeError>)
    ensures
        value_result(r) == semantics::binop_result(left@, op, right@),
{
    let l: Num = left.to_f64();
    let r: Num = right.to_f64();
    match op {
        BinOp::Add => Ok(Value::Float(l.plus(r))),
        BinOp::Sub => Ok(Value::Float(l.minus(r))),
        BinOp::Mul => Ok(Value::Float(l.times(r))),
        BinOp::Div => {
            if r.same(Num::zero()) {
                Err(RuntimeError::DivisionByZero)
            } else {
                Ok(Value::Float(l.over(r)))
            }
        },
        BinOp::Mod => {
            if r.same(Num::zero()) {
                Err(RuntimeError::DivisionByZero)
            } else {
                Ok(Value::Float(l.modulo(r)))
            }
        },
        BinOp::Eq => Ok(Value::Bool(l.minus(r).abs().lt(Num::epsilon()))),
        BinOp::Ne => Ok(Value::Bool(Num::epsilon().le(l.minus(r).abs()))),
        BinOp::Lt => Ok(Value::Bool(l.lt(r))),
        BinOp::Gt => Ok(Value::Bool(r.lt(l))),
        BinOp::Le => Ok(Value::Bool(l.le(r))),
        BinOp::Ge => Ok(Value::Bool(r.le(l))),
        BinOp::And => Ok(Value::Bool(left.to_bool() && right.to_bool())),
        BinOp::Or => Ok(Value::Bool(left.to_bool() || right.to_bool())),
    }
}

/// The result of a unary operator on a value.
pub fn eval_unary(op: UnaryOp, value: &Value) -> (r: Value)
    ensures
        r@ == semantics::unary_result(op, value@),
{
    match op {
        UnaryOp::Neg => Value::Float(value.to_f64().neg()),
        UnaryOp::Not => Value::Bool(!value.to_bool()),
    }
}

/// Texts joined by single spaces.
pub fn join(texts: &Vec<String>) -> (r: String)
    ensures
        r@ == semantics::joined(texts_view(texts@)),
{
    let mut out: Vec<char> = Vec::new();
    let mut i: usize = 0;
    assert(texts_view(texts@).take(0) =~= Seq::<Seq<char>>::empty());
    while i < texts.len()
        invariant
            i <= texts@.len(),
            out@ == semantics::joined(texts_view(texts@).take(i as int)),
        decreases texts.len() - i,
    {
        assert(texts_view(texts@).take(i + 1).drop_last() =~= texts_view(texts@).take(i as int));
        if i > 0 {
            out.push(' ');
        }
        push_text(&mut out, texts[i].as_str());
        proof {
            let upto = texts_view(texts@).take(i + 1);
            assert(upto.last() == texts@[i as int]@);
            if i == 0 {
                assert(upto[0] == texts@[0]@);
                assert(out@ =~= semantics::joined(upto));
            } else {
                assert(out@ =~= semantics::joined(upto));
            }
        }
        i += 1;
    }
    assert(texts_view(texts@).take(texts@.len() as int) =~= texts_view(texts@));
    string_of(&out)
}

/// The registered functions as the semantics sees them.
pub open spec fn registry(funcs: &Table<Function>) -> semantics::Functions {
    funcs@.map_values(|function: Function| function@)
}

/// The initial values of an array, if there are any, as the semantics sees
/// them.
pub open spec fn optional_exprs_view(values: Option<Vec<Expr>>) -> Option<Seq<ExprView>> {
    match values {
        Some(v) => Some(exprs_view(v@)),
        None => None,
    }
}

/// An index, or an error, as a result over views.
pub open spec fn index_result(r: Result<i64, RuntimeError>) -> Result<i64, ErrorView> {
    match r {
        Ok(i) => Ok(i),
        Err(e) => Err(e@),
    }
}

/// Texts, or an error, as a result over views.
pub open spec fn texts_result(r: Result<Vec<String>, RuntimeError>) -> Result<
    Seq<Seq<char>>,
    ErrorView,
> {
    match r {
        Ok(texts) => Ok(texts_view(texts@)),
        Err(e) => Err(e@),
    }
}

/// The end of a loop's turn, or an error, as a result over views.
pub open spec fn turn_result(r: Result<Option<ControlFlow>, RuntimeError>) -> Result<
    Option<FlowView>,
    ErrorView,
> {
    match r {
        Ok(Some(flow)) => Ok(Some(flow@)),
        Ok(None) => Ok(None),
        Err(e) => Err(e@),
    }
}

/// A statement's end for an expression's result: the value is dropped.
pub fn dropped(evaluated: Result<Value, RuntimeError>) -> (r: Result<ControlFlow, RuntimeError>)
    ensures
        flow_result(r) == match value_result(evaluated) {
            Ok(_) => Ok::<FlowView, ErrorView>(FlowView::Proceed),
            Err(e) => Err::<FlowView, ErrorView>(e),
        },
        r is Ok == evaluated is Ok,
{
    match evaluated {
        Ok(_) => Ok(ControlFlow::Proceed),
        Err(e) => Err(e),
    }
}

/// The update that assigns an evaluated value.
pub fn assigned_value(evaluated: Result<Value, RuntimeError>) -> (r: Result<Update, RuntimeError>)
    ensures
        update_result(r) == match value_result(evaluated) {
            Ok(value) => Ok::<UpdateView, ErrorView>(UpdateView::Assign(value)),
            Err(e) => Err::<UpdateView, ErrorView>(e),
        },
        r is Ok == evaluated is Ok,
{
    match evaluated {
        Ok(value) => Ok(Update::Assign(value)),
        Err(e) => Err(e),
    }
}

/// The cells of a new array: `size` empty cells of a type.
pub fn blank_cells(elem_type: &Type, size: usize) -> (cells: Vec<BlurValue>)
    ensures
        cells_view(cells@) == Seq::new(size as nat, |i: int| BlurView::fresh(*elem_type, false)),
{
    let mut cells: Vec<BlurValue> = Vec::new();
    let mut i: usize = 0;
    while i < size
        invariant
            i <= size,
            cells@.len() == i,
            forall|j: int| 0 <= j < i ==> (#[trigger] cells@[j])@ == BlurView::fresh(*elem_type, false),
        decreases size - i,
    {
        cells.push(BlurValue::new(elem_type.duplicate()));
        i += 1;
    }
    assert(cells_view(cells@) =~= Seq::new(size as nat, |i: int| BlurView::fresh(*elem_type, false)));
    cells
}

/// Whether an expression has no part to evaluate.
pub fn simple(expr: &Expr) -> (r: bool)
    ensures
        r == semantics::is_simple(expr@),
{
    match expr {
        Expr::IntLit(_) => true,
        Expr::FloatLit(_) => true,
        Expr::BoolLit(_) => true,
        Expr::CharLit(_) => true,
        Expr::StringLit(_) => true,
        Expr::Var(_) => true,
        Expr::PreIncrement(_) => true,
        Expr::PreDecrement(_) => true,
        Expr::PostIncrement(_) => true,
        Expr::PostDecrement(_) => true,
        _ => false,
    }
}

/// Whether a statement has no part to evaluate.
pub fn simple_stmt(stmt: &Stmt) -> (r: bool)
    ensures
        r == semantics::is_simple_stmt(stmt@),
{
    match stmt {
        Stmt::PreIncrement(_) => true,
        Stmt::PreDecrement(_) => true,
        Stmt::PostIncrement(_) => true,
        Stmt::PostDecrement(_) => true,
        _ => false,
    }
}

/// The update that the right side of an assignment or a declaration asks for.
pub fn assignment(
    funcs: &Table<Function>,
    state: &mut State,
    rhs: &Expr,
    fuel: u64,
) -> (r: Result<Update, RuntimeError>)
    requires
        old(state)@.scopes.len() > 0,
    ensures
        final(state)@ == semantics::assignment(registry(funcs), rhs@, old(state)@, fuel as nat).0,
        update_result(r) == semantics::assignment(registry(funcs), rhs@, old(state)@, fuel as nat).1,
        balanced(old(state)@, final(state)@, r is Ok),
    decreases fuel, 0nat,
{
    if fuel == 0 {
        return Err(RuntimeError::out_of_fuel());
    }
    let fuel: u64 = fuel - 1;
    if let Expr::StringRepeat(text, count) = rhs {
        assert(rhs@ == ExprView::StringRepeat(Box::new(text@), Box::new(count@)));
        if let Expr::StringLit(literal) = &**text {
            assert(text@ == ExprView::StringLit(literal@));
            return match eval_expr(funcs, state, count, fuel) {
                Ok(times) => Ok(Update::Repeat(literal.clone(), count_of(&times))),
                Err(e) => Err(e),
            };
        }
        assert(!(text@ is StringLit));
    }
    assigned_value(eval_expr(funcs, state, rhs, fuel))
}

/// Evaluates an expression to an index.
pub fn eval_index(
    funcs: &Table<Function>,
    state: &mut State,
    index: &Expr,
    fuel: u64,
) -> (r: Result<i64, RuntimeError>)
    requires
        old(state)@.scopes.len() > 0,
    ensures
        final(state)@ == semantics::eval_index(registry(funcs), index@, old(state)@, fuel as nat).0,
        index_result(r) == semantics::eval_index(registry(funcs), index@, old(state)@, fuel as nat).1,
        balanced(old(state)@, final(state)@, r is Ok),
    decreases fuel, 1nat,
{
    match eval_expr(funcs, state, index, fuel) {
        Ok(value) => Ok(index_of(&value)),
        Err(e) => Err(e),
    }
}

/// Evaluates a text times a count where a value is asked for.
pub fn eval_repeat(
    funcs: &Table<Function>,
    state: &mut State,
    text: &Expr,
    count: &Expr,
    fuel: u64,
) -> (r: Result<Value, RuntimeError>)
    requires
        old(state)@.scopes.len() > 0,
    ensures
        final(state)@ == semantics::eval_repeat(registry(funcs), text@, count@, old(state)@, fuel as nat).0,
        value_result(r) == semantics::eval_repeat(registry(funcs), text@, count@, old(state)@, fuel as nat).1,
        balanced(old(state)@, final(state)@, r is Ok),
    decreases fuel, 1nat,
{
    match eval_expr(funcs, state, text, fuel) {
        Ok(value) => match eval_expr(funcs, state, count, fuel) {
            Ok(times) => Ok(repeat(&value, count_of(&times))),
            Err(e) => Err(e),
        },
        Err(e) => Err(e),
    }
}

/// Evaluates a binary operation: the left operand, then the right one.
pub fn eval_binary(
    funcs: &Table<Function>,
    state: &mut State,
    left: &Expr,
    op: BinOp,
    right: &Expr,
    fuel: u64,
) -> (r: Result<Value, RuntimeError>)
    requires
        old(state)@.scopes.len() > 0,
    ensures
        final(state)@ == semantics::eval_binary(registry(funcs), left@, op, right@, old(state)@, fuel as nat).0,
        value_result(r) == semantics::eval_binary(registry(funcs), left@, op, right@, old(state)@, fuel as nat).1,
        balanced(old(state)@, final(state)@, r is Ok),
    decreases fuel, 1nat,
{
    match eval_expr(funcs, state, left, fuel) {
        Ok(l) => match eval_expr(funcs, state, right, fuel) {
            Ok(r) => eval_binop(&l, op, &r),
            Err(e) => Err(e),
        },
        Err(e) => Err(e),
    }
}

/// Evaluates a unary operation.
pub fn eval_unary_op(
    funcs: &Table<Function>,
    state: &mut State,
    op: UnaryOp,
    operand: &Expr,
    fuel: u64,
) -> (r: Result<Value, RuntimeError>)
    requires
        old(state)@.scopes.len() > 0,
    ensures
        final(state)@ == semantics::eval_unary(registry(funcs), op, operand@, old(state)@, fuel as nat).0,
        value_result(r) == semantics::eval_unary(registry(funcs), op, operand@, old(state)@, fuel as nat).1,
        balanced(old(state)@, final(state)@, r is Ok),
    decreases fuel, 1nat,
{
    match eval_expr(funcs, state, operand, fuel) {
        Ok(value) => Ok(eval_unary(op, &value)),
        Err(e) => Err(e),
    }
}

/// Reads an array element: the index is evaluated before the array is
/// looked up.
pub fn eval_cell_read(
    funcs: &Table<Function>,
    state: &mut State,
    name: &str,
    index: &Expr,
    fuel: u64,
) -> (r: Result<Value, RuntimeError>)
    requires
        old(state)@.scopes.len() > 0,
    ensures
        final(state)@ == semantics::eval_cell_read(registry(funcs), name@, index@, old(state)@, fuel as nat).0,
        value_result(r) == semantics::eval_cell_read(registry(funcs), name@, index@, old(state)@, fuel as nat).1,
        balanced(old(state)@, final(state)@, r is Ok),
    decreases fuel, 2nat,
{
    match eval_index(funcs, state, index, fuel) {
        Ok(i) => state.read_cell(name, i),
        Err(e) => Err(e),
    }
}

/// Extends the history of an array element and gives the value that it shows
/// then: the index is evaluated before the array is looked up.
pub fn eval_cell_update(
    funcs: &Table<Function>,
    state: &mut State,
    name: &str,
    index: &Expr,
    update: &Update,
    fuel: u64,
) -> (r: Result<Value, RuntimeError>)
    requires
        old(state)@.scopes.len() > 0,
    ensures
        final(state)@ == semantics::eval_cell_update(registry(funcs), name@, index@, update@, old(state)@, fuel as nat).0,
        value_result(r) == semantics::eval_cell_update(registry(funcs), name@, index@, update@, old(state)@, fuel as nat).1,
        balanced(old(state)@, final(state)@, r is Ok),
    decreases fuel, 2nat,
{
    match eval_index(funcs, state, index, fuel) {
        Ok(i) => state.update_cell(name, i, update),
        Err(e) => Err(e),
    }
}

/// Steps an array element and gives the value that it showed before.
pub fn eval_cell_post(
    funcs: &Table<Function>,
    state: &mut State,
    name: &str,
    index: &Expr,
    up: bool,
    fuel: u64,
) -> (r: Result<Value, RuntimeError>)
    requires
        old(state)@.scopes.len() > 0,
    ensures
        final(state)@ == semantics::eval_cell_post(registry(funcs), name@, index@, up, old(state)@, fuel as nat).0,
        value_result(r) == semantics::eval_cell_post(registry(funcs), name@, index@, up, old(state)@, fuel as nat).1,
        balanced(old(state)@, final(state)@, r is Ok),
    decreases fuel, 2nat,
{
    match eval_index(funcs, state, index, fuel) {
        Ok(i) => state.post_step_cell(name, i, up),
        Err(e) => Err(e),
    }
}

/// Evaluates a call of a built-in or of a registered function.
pub fn eval_call(
    funcs: &Table<Function>,
    state: &mut State,
    name: &str,
    args: &Vec<Expr>,
    fuel: u64,
) -> (r: Result<Value, RuntimeError>)
    requires
        old(state)@.scopes.len() > 0,
    ensures
        final(state)@ == semantics::eval_call(registry(funcs), name@, exprs_view(args@), old(state)@, fuel as nat).0,
        value_result(r) == semantics::eval_call(registry(funcs), name@, exprs_view(args@), old(state)@, fuel as nat).1,
        balanced(old(state)@, final(state)@, r is Ok),
    decreases fuel, 1nat,
{
    if same_text(name, "get_blur") {
        Ok(Value::Float(state.decay))
    } else if same_text(name, "blurstr") {
        match blend_args(funcs, state, args, fuel) {
            Ok(cell) => Ok(cell.get(state.decay)),
            Err(e) => Err(e),
        }
    } else {
        match eval_args(funcs, state, args, fuel) {
            Ok(cells) => call_function(funcs, state, name, cells, fuel),
            Err(e) => Err(e),
        }
    }
}

/// Assigns to a variable and gives the value that it shows then.
pub fn eval_assign(
    funcs: &Table<Function>,
    state: &mut State,
    name: &str,
    value: &Expr,
    fuel: u64,
) -> (r: Result<Value, RuntimeError>)
    requires
        old(state)@.scopes.len() > 0,
    ensures
        final(state)@ == semantics::eval_assign(registry(funcs), name@, value@, old(state)@, fuel as nat).0,
        value_result(r) == semantics::eval_assign(registry(funcs), name@, value@, old(state)@, fuel as nat).1,
        balanced(old(state)@, final(state)@, r is Ok),
    decreases fuel, 1nat,
{
    match assignment(funcs, state, value, fuel) {
        Ok(update) => state.update_var(name, &update),
        Err(e) => Err(e),
    }
}

/// Applies a compound assignment to a variable and gives the value that it
/// shows then.
pub fn eval_compound(
    funcs: &Table<Function>,
    state: &mut State,
    name: &str,
    op: CompoundOp,
    value: &Expr,
    fuel: u64,
) -> (r: Result<Value, RuntimeError>)
    requires
        old(state)@.scopes.len() > 0,
    ensures
        final(state)@ == semantics::eval_compound(registry(funcs), name@, op, value@, old(state)@, fuel as nat).0,
        value_result(r) == semantics::eval_compound(registry(funcs), name@, op, value@, old(state)@, fuel as nat).1,
        balanced(old(state)@, final(state)@, r is Ok),
    decreases fuel, 1nat,
{
    match eval_expr(funcs, state, value, fuel) {
        Ok(v) => state.update_var(name, &Update::Compound(op, v.to_f64())),
        Err(e) => Err(e),
    }
}

/// Assigns to an array element and gives the value that it shows then.
pub fn eval_array_assign(
    funcs: &Table<Function>,
    state: &mut State,
    name: &str,
    index: &Expr,
    value: &Expr,
    fuel: u64,
) -> (r: Result<Value, RuntimeError>)
    requires
        old(state)@.scopes.len() > 0,
    ensures
        final(state)@ == semantics::eval_array_assign(registry(funcs), name@, index@, value@, old(state)@, fuel as nat).0,
        value_result(r) == semantics::eval_array_assign(registry(funcs), name@, index@, value@, old(state)@, fuel as nat).1,
        balanced(old(state)@, final(state)@, r is Ok),
    decreases fuel, 2nat,
{
    match eval_index(funcs, state, index, fuel) {
        Ok(i) => match eval_expr(funcs, state, value, fuel) {
            Ok(v) => state.update_cell(name, i, &Update::Assign(v)),
            Err(e) => Err(e),
        },
        Err(e) => Err(e),
    }
}

/// Applies a compound assignment to an array element and gives the value
/// that it shows then.
pub fn eval_array_compound(
    funcs: &Table<Function>,
    state: &mut State,
    name: &str,
    index: &Expr,
    op: CompoundOp,
    value: &Expr,
    fuel: u64,
) -> (r: Result<Value, RuntimeError>)
    requires
        old(state)@.scopes.len() > 0,
    ensures
        final(state)@ == semantics::eval_array_compound(registry(funcs), name@, index@, op, value@, old(state)@, fuel as nat).0,
        value_result(r) == semantics::eval_array_compound(registry(funcs), name@, index@, op, value@, old(state)@, fuel as nat).1,
        balanced(old(state)@, final(state)@, r is Ok),
    decreases fuel, 2nat,
{
    match eval_index(funcs, state, index, fuel) {
        Ok(i) => match eval_expr(funcs, state, value, fuel) {
            Ok(v) => state.update_cell(name, i, &Update::Compound(op, v.to_f64())),
            Err(e) => Err(e),
        },
        Err(e) => Err(e),
    }
}

/// Evaluates an expression, with the changes that it makes to the state.
pub fn eval_expr(
    funcs: &Table<Function>,
    state: &mut State,
    expr: &Expr,
    fuel: u64,
) -> (r: Result<Value, RuntimeError>)
    requires
        old(state)@.scopes.len() > 0,
    ensures
        final(state)@ == semantics::eval(registry(funcs), expr@, old(state)@, fuel as nat).0,
        value_result(r) == semantics::eval(registry(funcs), expr@, old(state)@, fuel as nat).1,
        balanced(old(state)@, final(state)@, r is Ok),
    decreases fuel, 0nat,
{
    if fuel == 0 && !simple(expr) {
        return Err(RuntimeError::out_of_fuel());
    }
    let fuel: u64 = if fuel > 0 {
        fuel - 1
    } else {
        0
    };
    match expr {
        Expr::IntLit(n) => Ok(Value::Int(*n)),
        Expr::FloatLit(x) => Ok(Value::Float(*x)),
        Expr::BoolLit(b) => Ok(Value::Bool(*b)),
        Expr::CharLit(c) => Ok(Value::Char(*c)),
        Expr::StringLit(s) => Ok(Value::String(s.clone())),
        Expr::StringRepeat(text, count) => eval_repeat(funcs, state, text, count, fuel),
        Expr::Var(name) => state.read_var(name.as_str()),
        Expr::ArrayAccess(name, index) => eval_cell_read(funcs, state, name.as_str(), index, fuel),
        Expr::BinOp(left, op, right) => eval_binary(funcs, state, left, *op, right, fuel),
        Expr::UnaryOp(op, operand) => eval_unary_op(funcs, state, *op, operand, fuel),
        Expr::PreIncrement(name) => state.update_var(name.as_str(), &Update::Step(true)),
        Expr::PreDecrement(name) => state.update_var(name.as_str(), &Update::Step(false)),
        Expr::PostIncrement(name) => state.post_step_var(name.as_str(), true),
        Expr::PostDecrement(name) => state.post_step_var(name.as_str(), false),
        Expr::ArrayPreIncrement(name, index) => eval_cell_update(
            funcs,
            state,
            name.as_str(),
            index,
            &Update::Step(true),
            fuel,
        ),
        Expr::ArrayPreDecrement(name, index) => eval_cell_update(
            funcs,
            state,
            name.as_str(),
            index,
            &Update::Step(false),
            fuel,
        ),
        Expr::ArrayPostIncrement(name, index) => eval_cell_post(
            funcs,
            state,
            name.as_str(),
            index,
            true,
            fuel,
        ),
        Expr::ArrayPostDecrement(name, index) => eval_cell_post(
            funcs,
            state,
            name.as_str(),
            index,
            false,
            fuel,
        ),
        Expr::Call(name, args) => eval_call(funcs, state, name.as_str(), args, fuel),
        Expr::Assign(name, value) => eval_assign(funcs, state, name.as_str(), value, fuel),
        Expr::ArrayAssign(name, index, value) => eval_array_assign(
            funcs,
            state,
            name.as_str(),
            index,
            value,
            fuel,
        ),
        Expr::CompoundAssign(name, op, value) => eval_compound(
            funcs,
            state,
            name.as_str(),
            *op,
            value,
            fuel,
        ),
        Expr::ArrayCompoundAssign(name, index, op, value) => eval_array_compound(
            funcs,
            state,
            name.as_str(),
            index,
            *op,
            value,
            fuel,
        ),
    }
}

/// Evaluates an argument to the cell that a call is handed: a copy of the
/// whole history of a variable or an array element, or a fresh float cell
/// with the argument's number.
pub fn eval_expr_as_blur(
    funcs: &Table<Function>,
    state: &mut State,
    arg: &Expr,
    fuel: u64,
) -> (r: Result<BlurValue, RuntimeError>)
    requires
        old(state)@.scopes.len() > 0,
    ensures
        final(state)@ == semantics::eval_cell(registry(funcs), arg@, old(state)@, fuel as nat).0,
        cell_result(r) == semantics::eval_cell(registry(funcs), arg@, old(state)@, fuel as nat).1,
        balanced(old(state)@, final(state)@, r is Ok),
    decreases fuel, 0nat,
{
    if let Expr::Var(name) = arg {
        return state.copy_var(name.as_str());
    }
    if fuel == 0 {
        return Err(RuntimeError::out_of_fuel());
    }
    let fuel: u64 = fuel - 1;
    match arg {
        Expr::ArrayAccess(name, index) => {
            match eval_index(funcs, state, index, fuel) {
                Ok(i) => state.copy_cell(name.as_str(), i),
                Err(e) => Err(e),
            }
        },
        _ => {
            match eval_expr(funcs, state, arg, fuel) {
                Ok(value) => Ok(BlurValue::new_with_value(Type::Float, value.to_f64())),
                Err(e) => Err(e),
            }
        },
    }
}

/// Evaluates the arguments of a call to cells, in order.
pub fn eval_args(
    funcs: &Table<Function>,
    state: &mut State,
    args: &Vec<Expr>,
    fuel: u64,
) -> (r: Result<Vec<BlurValue>, RuntimeError>)
    requires
        old(state)@.scopes.len() > 0,
    ensures
        final(state)@ == semantics::eval_args(registry(funcs), exprs_view(args@), 0, Seq::empty(), old(state)@, fuel as nat).0,
        cells_result(r) == semantics::eval_args(registry(funcs), exprs_view(args@), 0, Seq::empty(), old(state)@, fuel as nat).1,
        balanced(old(state)@, final(state)@, r is Ok),
    decreases fuel, 0nat,
{
    let mut done: Vec<BlurValue> = Vec::new();
    let mut i: usize = 0;
    let mut left: u64 = fuel;
    assert(cells_view(done@) =~= Seq::<BlurView>::empty());
    while i < args.len()
        invariant
            i <= args@.len(),
            left <= fuel,
            state@.scopes.len() == old(state)@.scopes.len(),
            state@.scopes.len() > 0,
            semantics::eval_args(registry(funcs), exprs_view(args@), 0, Seq::empty(), old(state)@, fuel as nat)
                == semantics::eval_args(
                registry(funcs),
                exprs_view(args@),
                i as nat,
                cells_view(done@),
                state@,
                left as nat,
            ),
        decreases args.len() - i,
    {
        if left == 0 {
            return Err(RuntimeError::out_of_fuel());
        }
        left = left - 1;
        let ghost before = cells_view(done@);
        match eval_expr_as_blur(funcs, state, &args[i], left) {
            Ok(cell) => {
                done.push(cell);
                assert(cells_view(done@) =~= before.push(cell@));
            },
            Err(e) => {
                return Err(e);
            },
        }
        i += 1;
    }
    Ok(done)
}

/// Blends the arguments of `blurstr` into a fresh text cell, in order.
pub fn blend_args(
    funcs: &Table<Function>,
    state: &mut State,
    args: &Vec<Expr>,
    fuel: u64,
) -> (r: Result<BlurValue, RuntimeError>)
    requires
        old(state)@.scopes.len() > 0,
    ensures
        final(state)@ == semantics::blend_args(
            registry(funcs),
            exprs_view(args@),
            0,
            BlurView::fresh(Type::String, false),
            old(state)@,
            fuel as nat,
        ).0,
        cell_result(r) == semantics::blend_args(
            registry(funcs),
            exprs_view(args@),
            0,
            BlurView::fresh(Type::String, false),
            old(state)@,
            fuel as nat,
        ).1,
        balanced(old(state)@, final(state)@, r is Ok),
    decreases fuel, 0nat,
{
    let mut cell: BlurValue = BlurValue::new(Type::String);
    let mut i: usize = 0;
    let mut left: u64 = fuel;
    while i < args.len()
        invariant
            i <= args@.len(),
            left <= fuel,
            state@.scopes.len() == old(state)@.scopes.len(),
            state@.scopes.len() > 0,
            semantics::blend_args(
                registry(funcs),
                exprs_view(args@),
                0,
                BlurView::fresh(Type::String, false),
                old(state)@,
                fuel as nat,
            ) == semantics::blend_args(registry(funcs), exprs_view(args@), i as nat, cell@, state@, left as nat),
        decreases args.len() - i,
    {
        if left == 0 {
            return Err(RuntimeError::out_of_fuel());
        }
        left = left - 1;
        match assignment(funcs, state, &args[i], left) {
            Ok(update) => {
                match cell.apply(&update, state.decay) {
                    Ok(()) => {},
                    Err(e) => {
                        return Err(e);
                    },
                }
            },
            Err(e) => {
                return Err(e);
            },
        }
        i += 1;
    }
    Ok(cell)
}

/// Evaluates the arguments of `print` to their texts, in order.
pub fn eval_texts(
    funcs: &Table<Function>,
    state: &mut State,
    exprs: &Vec<Expr>,
    fuel: u64,
) -> (r: Result<Vec<String>, RuntimeError>)
    requires
        old(state)@.scopes.len() > 0,
    ensures
        final(state)@ == semantics::eval_texts(registry(funcs), exprs_view(exprs@), 0, Seq::empty(), old(state)@, fuel as nat).0,
        texts_result(r) == semantics::eval_texts(registry(funcs), exprs_view(exprs@), 0, Seq::empty(), old(state)@, fuel as nat).1,
        balanced(old(state)@, final(state)@, r is Ok),
    decreases fuel, 0nat,
{
    let mut done: Vec<String> = Vec::new();
    let mut i: usize = 0;
    let mut left: u64 = fuel;
    assert(texts_view(done@) =~= Seq::<Seq<char>>::empty());
    while i < exprs.len()
        invariant
            i <= exprs@.len(),
            left <= fuel,
            state@.scopes.len() == old(state)@.scopes.len(),
            state@.scopes.len() > 0,
            semantics::eval_texts(registry(funcs), exprs_view(exprs@), 0, Seq::empty(), old(state)@, fuel as nat)
                == semantics::eval_texts(
                registry(funcs),
                exprs_view(exprs@),
                i as nat,
                texts_view(done@),
                state@,
                left as nat,
            ),
        decreases exprs.len() - i,
    {
        if left == 0 {
            return Err(RuntimeError::out_of_fuel());
        }
        left = left - 1;
        let ghost before = texts_view(done@);
        match eval_expr(funcs, state, &exprs[i], left) {
            Ok(value) => {
                let text: String = value.render();
                done.push(text);
                assert(texts_view(done@) =~= before.push(value@.text()));
            },
            Err(e) => {
                return Err(e);
            },
        }
        i += 1;
    }
    Ok(done)
}

/// Makes the cells of an array and assigns the initial values to them.
pub fn fill(
    funcs: &Table<Function>,
    state: &mut State,
    elem_type: &Type,
    size: usize,
    values: &Vec<Expr>,
    fuel: u64,
) -> (r: Result<Vec<BlurValue>, RuntimeError>)
    requires
        old(state)@.scopes.len() > 0,
    ensures
        final(state)@ == semantics::fill(
            registry(funcs),
            exprs_view(values@),
            0,
            Seq::new(size as nat, |i: int| BlurView::fresh(*elem_type, false)),
            old(state)@,
            fuel as nat,
        ).0,
        cells_result(r) == semantics::fill(
            registry(funcs),
            exprs_view(values@),
            0,
            Seq::new(size as nat, |i: int| BlurView::fresh(*elem_type, false)),
            old(state)@,
            fuel as nat,
        ).1,
        balanced(old(state)@, final(state)@, r is Ok),
    decreases fuel, 0nat,
{
    let mut cells: Vec<BlurValue> = blank_cells(elem_type, size);
    let mut i: usize = 0;
    let mut left: u64 = fuel;
    while i < values.len() && i < size
        invariant
            i <= values@.len(),
            i <= size,
            cells@.len() == size,
            left <= fuel,
            state@.scopes.len() == old(state)@.scopes.len(),
            state@.scopes.len() > 0,
            semantics::fill(
                registry(funcs),
                exprs_view(values@),
                0,
                Seq::new(size as nat, |i: int| BlurView::fresh(*elem_type, false)),
                old(state)@,
                fuel as nat,
            ) == semantics::fill(registry(funcs), exprs_view(values@), i as nat, cells_view(cells@), state@, left as nat),
        decreases values.len() - i,
    {
        if left == 0 {
            return Err(RuntimeError::out_of_fuel());
        }
        left = left - 1;
        let ghost before = cells_view(cells@);
        match eval_expr(funcs, state, &values[i], left) {
            Ok(value) => {
                cells[i].assign(&value);
                assert(cells_view(cells@) =~= before.update(i as int, before[i as int].assigned(value@)));
            },
            Err(e) => {
                return Err(e);
            },
        }
        i += 1;
    }
    Ok(cells)
}

/// Calls a function on cells: binds them to its parameters in a new scope,
/// runs its body and closes the scope.
pub fn call_function(
    funcs: &Table<Function>,
    state: &mut State,
    name: &str,
    args: Vec<BlurValue>,
    fuel: u64,
) -> (r: Result<Value, RuntimeError>)
    requires
        old(state)@.scopes.len() > 0,
    ensures
        final(state)@ == semantics::call(registry(funcs), name@, cells_view(args@), old(state)@, fuel as nat).0,
        value_result(r) == semantics::call(
            registry(funcs),
            name@,
            cells_view(args@),
            old(state)@,
            fuel as nat,
        ).1,
        balanced(old(state)@, final(state)@, r is Ok),
    decreases fuel, 0nat,
{
    if fuel == 0 {
        return Err(RuntimeError::out_of_fuel());
    }
    let found: Option<usize> = funcs.find(name);
    match found {
        None => Err(RuntimeError::UndefinedFunc(name.to_owned())),
        Some(at) => {
            let function: &Function = &funcs.entries[at].value;
            state.push_scope();
            let mut i: usize = 0;
            while i < function.params.len()
                invariant
                    i <= function.params@.len(),
                    state@.scopes.len() == old(state)@.scopes.len() + 1,
                    semantics::bind_params(
                        params_view(function.params@),
                        cells_view(args@),
                        0,
                        old(state)@.pushed_scope(),
                    ) == semantics::bind_params(
                        params_view(function.params@),
                        cells_view(args@),
                        i as nat,
                        state@,
                    ),
                decreases function.params.len() - i,
            {
                if i < args.len() {
                    state.declare_var(function.params[i].1.clone(), args[i].duplicate());
                }
                i += 1;
            }
            match exec_list(funcs, state, &function.body, fuel - 1) {
                Ok(ControlFlow::Return(value)) => {
                    state.pop_scope();
                    Ok(value)
                },
                Ok(ControlFlow::Proceed) => {
                    state.pop_scope();
                    Ok(Value::Void)
                },
                Err(e) => Err(e),
            }
        },
    }
}

/// Runs statements in order, up to the first that returns.
pub fn exec_list(
    funcs: &Table<Function>,
    state: &mut State,
    stmts: &Vec<Stmt>,
    fuel: u64,
) -> (r: Result<ControlFlow, RuntimeError>)
    requires
        old(state)@.scopes.len() > 0,
    ensures
        final(state)@ == semantics::exec_list(registry(funcs), stmts_view(stmts@), 0, old(state)@, fuel as nat).0,
        flow_result(r) == semantics::exec_list(registry(funcs), stmts_view(stmts@), 0, old(state)@, fuel as nat).1,
        balanced(old(state)@, final(state)@, r is Ok),
    decreases fuel, 0nat,
{
    let mut i: usize = 0;
    let mut left: u64 = fuel;
    while i < stmts.len()
        invariant
            i <= stmts@.len(),
            left <= fuel,
            state@.scopes.len() == old(state)@.scopes.len(),
            state@.scopes.len() > 0,
            semantics::exec_list(registry(funcs), stmts_view(stmts@), 0, old(state)@, fuel as nat)
                == semantics::exec_list(registry(funcs), stmts_view(stmts@), i as nat, state@, left as nat),
        decreases stmts.len() - i,
    {
        if left == 0 {
            return Err(RuntimeError::out_of_fuel());
        }
        left = left - 1;
        match exec_stmt(funcs, state, &stmts[i], left) {
            Ok(ControlFlow::Proceed) => {},
            Ok(ControlFlow::Return(value)) => {
                return Ok(ControlFlow::Return(value));
            },
            Err(e) => {
                return Err(e);
            },
        }
        i += 1;
    }
    Ok(ControlFlow::Proceed)
}

/// Runs a `while` loop.
pub fn loop_while(
    funcs: &Table<Function>,
    state: &mut State,
    condition: &Expr,
    body: &Stmt,
    fuel: u64,
) -> (r: Result<ControlFlow, RuntimeError>)
    requires
        old(state)@.scopes.len() > 0,
    ensures
        final(state)@ == semantics::loop_while(registry(funcs), condition@, body@, old(state)@, fuel as nat).0,
        flow_result(r) == semantics::loop_while(registry(funcs), condition@, body@, old(state)@, fuel as nat).1,
        balanced(old(state)@, final(state)@, r is Ok),
    decreases fuel, 0nat,
{
    let mut left: u64 = fuel;
    loop
        invariant
            left <= fuel,
            state@.scopes.len() == old(state)@.scopes.len(),
            state@.scopes.len() > 0,
            semantics::loop_while(registry(funcs), condition@, body@, old(state)@, fuel as nat)
                == semantics::loop_while(registry(funcs), condition@, body@, state@, left as nat),
        decreases left,
    {
        if left == 0 {
            return Err(RuntimeError::out_of_fuel());
        }
        left = left - 1;
        match eval_expr(funcs, state, condition, left) {
            Ok(value) => {
                if !value.to_bool() {
                    return Ok(ControlFlow::Proceed);
                }
            },
            Err(e) => {
                return Err(e);
            },
        }
        match exec_stmt(funcs, state, body, left) {
            Ok(ControlFlow::Proceed) => {},
            Ok(ControlFlow::Return(value)) => {
                return Ok(ControlFlow::Return(value));
            },
            Err(e) => {
                return Err(e);
            },
        }
    }
}

/// Runs one turn of a `for` loop. `Ok(None)` says that the loop goes on.
pub fn turn(
    funcs: &Table<Function>,
    state: &mut State,
    condition: &Option<Expr>,
    update: &Option<Box<Stmt>>,
    body: &Stmt,
    fuel: u64,
) -> (r: Result<Option<ControlFlow>, RuntimeError>)
    requires
        old(state)@.scopes.len() > 0,
    ensures
        final(state)@ == semantics::turn(registry(funcs), optional_expr_view(*condition), optional_stmt_view(*update), body@, old(state)@, fuel as nat).0,
        turn_result(r) == semantics::turn(registry(funcs), optional_expr_view(*condition), optional_stmt_view(*update), body@, old(state)@, fuel as nat).1,
        balanced(old(state)@, final(state)@, r is Ok),
    decreases fuel, 1nat,
{
    match condition {
        Some(c) => {
            match eval_expr(funcs, state, c, fuel) {
                Ok(value) => {
                    if !value.to_bool() {
                        return Ok(Some(ControlFlow::Proceed));
                    }
                },
                Err(e) => {
                    return Err(e);
                },
            }
        },
        None => {},
    }
    match exec_stmt(funcs, state, body, fuel) {
        Ok(ControlFlow::Proceed) => {},
        Ok(ControlFlow::Return(value)) => {
            return Ok(Some(ControlFlow::Return(value)));
        },
        Err(e) => {
            return Err(e);
        },
    }
    match update {
        Some(u) => {
            match exec_stmt(funcs, state, u, fuel) {
                Ok(_) => Ok(None),
                Err(e) => Err(e),
            }
        },
        None => Ok(None),
    }
}

/// Runs the turns of a `for` loop.
pub fn loop_for(
    funcs: &Table<Function>,
    state: &mut State,
    condition: &Option<Expr>,
    update: &Option<Box<Stmt>>,
    body: &Stmt,
    capped: bool,
    fuel: u64,
) -> (r: Result<ControlFlow, RuntimeError>)
    requires
        old(state)@.scopes.len() > 0,
    ensures
        final(state)@ == semantics::loop_for(
            registry(funcs),
            optional_expr_view(*condition),
            optional_stmt_view(*update),
            body@,
            capped,
            0,
            old(state)@,
            fuel as nat,
        ).0,
        flow_result(r) == semantics::loop_for(
            registry(funcs),
            optional_expr_view(*condition),
            optional_stmt_view(*update),
            body@,
            capped,
            0,
            old(state)@,
            fuel as nat,
        ).1,
        balanced(old(state)@, final(state)@, r is Ok),
    decreases fuel, 0nat,
{
    let mut left: u64 = fuel;
    let mut done: u64 = 0;
    loop
        invariant
            left <= fuel,
            done + left <= fuel,
            state@.scopes.len() == old(state)@.scopes.len(),
            state@.scopes.len() > 0,
            semantics::loop_for(
                registry(funcs),
                optional_expr_view(*condition),
                optional_stmt_view(*update),
                body@,
                capped,
                0,
                old(state)@,
                fuel as nat,
            ) == semantics::loop_for(
                registry(funcs),
                optional_expr_view(*condition),
                optional_stmt_view(*update),
                body@,
                capped,
                done as nat,
                state@,
                left as nat,
            ),
        decreases left,
    {
        if capped && done >= semantics::MAX_ITERATIONS {
            state.emit(
                Emit::Warning(
                    "Warning: for loop hit 1000 iteration limit (use 'sharp for' for unlimited)".to_owned(),
                ),
            );
            return Ok(ControlFlow::Proceed);
        }
        if left == 0 {
            return Err(RuntimeError::out_of_fuel());
        }
        left = left - 1;
        match turn(funcs, state, condition, update, body, left) {
            Ok(None) => {},
            Ok(Some(flow)) => {
                return Ok(flow);
            },
            Err(e) => {
                return Err(e);
            },
        }
        done = done + 1;
    }
}

/// Declares a variable: makes its cell, extends it by what the initializer
/// asks for, and binds it in the innermost scope.
pub fn exec_var_decl(
    funcs: &Table<Function>,
    state: &mut State,
    var_type: &Type,
    name: &String,
    init: &Option<Expr>,
    fuel: u64,
) -> (r: Result<ControlFlow, RuntimeError>)
    requires
        old(state)@.scopes.len() > 0,
    ensures
        final(state)@ == semantics::exec_var_decl(registry(funcs), *var_type, name@, optional_expr_view(*init), old(state)@, fuel as nat).0,
        flow_result(r) == semantics::exec_var_decl(registry(funcs), *var_type, name@, optional_expr_view(*init), old(state)@, fuel as nat).1,
        balanced(old(state)@, final(state)@, r is Ok),
    decreases fuel, 1nat,
{
    let mut cell: BlurValue = BlurValue::new(var_type.duplicate());
    match init {
        Some(e) => {
            match assignment(funcs, state, e, fuel) {
                Ok(update) => {
                    match cell.apply(&update, state.decay) {
                        Ok(()) => {},
                        Err(e) => {
                            return Err(e);
                        },
                    }
                },
                Err(e) => {
                    return Err(e);
                },
            }
        },
        None => {},
    }
    state.declare_var(name.clone(), cell);
    Ok(ControlFlow::Proceed)
}

/// Declares a variable in the first clause of a sharp loop: its cell is
/// sharp.
pub fn exec_sharp_decl(
    funcs: &Table<Function>,
    state: &mut State,
    var_type: &Type,
    name: &String,
    init: &Option<Expr>,
    fuel: u64,
) -> (r: Result<ControlFlow, RuntimeError>)
    requires
        old(state)@.scopes.len() > 0,
    ensures
        final(state)@ == semantics::exec_sharp_decl(registry(funcs), *var_type, name@, optional_expr_view(*init), old(state)@, fuel as nat).0,
        flow_result(r) == semantics::exec_sharp_decl(registry(funcs), *var_type, name@, optional_expr_view(*init), old(state)@, fuel as nat).1,
        balanced(old(state)@, final(state)@, r is Ok),
    decreases fuel, 1nat,
{
    let mut cell: BlurValue = BlurValue::new_sharp(var_type.duplicate());
    match init {
        Some(e) => {
            match eval_expr(funcs, state, e, fuel) {
                Ok(value) => {
                    cell.assign(&value);
                },
                Err(e) => {
                    return Err(e);
                },
            }
        },
        None => {},
    }
    state.declare_var(name.clone(), cell);
    Ok(ControlFlow::Proceed)
}

/// Declares an array: makes its cells, assigns the initial values, and binds
/// it in the innermost scope.
pub fn exec_array_decl(
    funcs: &Table<Function>,
    state: &mut State,
    elem_type: &Type,
    name: &String,
    size: usize,
    init: &Option<Vec<Expr>>,
    fuel: u64,
) -> (r: Result<ControlFlow, RuntimeError>)
    requires
        old(state)@.scopes.len() > 0,
    ensures
        final(state)@ == semantics::exec_array_decl(
            registry(funcs),
            *elem_type,
            name@,
            size,
            optional_exprs_view(*init),
            old(state)@,
            fuel as nat,
        ).0,
        flow_result(r) == semantics::exec_array_decl(
            registry(funcs),
            *elem_type,
            name@,
            size,
            optional_exprs_view(*init),
            old(state)@,
            fuel as nat,
        ).1,
        balanced(old(state)@, final(state)@, r is Ok),
    decreases fuel, 1nat,
{
    match init {
        Some(values) => {
            match fill(funcs, state, elem_type, size, values, fuel) {
                Ok(cells) => {
                    state.declare_array(name.clone(), cells);
                    Ok(ControlFlow::Proceed)
                },
                Err(e) => Err(e),
            }
        },
        None => {
            let cells: Vec<BlurValue> = blank_cells(elem_type, size);
            state.declare_array(name.clone(), cells);
            Ok(ControlFlow::Proceed)
        },
    }
}

/// Runs an `if`: exactly one branch.
pub fn exec_if(
    funcs: &Table<Function>,
    state: &mut State,
    condition: &Expr,
    then_branch: &Stmt,
    else_branch: &Option<Box<Stmt>>,
    fuel: u64,
) -> (r: Result<ControlFlow, RuntimeError>)
    requires
        old(state)@.scopes.len() > 0,
    ensures
        final(state)@ == semantics::exec_if(
            registry(funcs),
            condition@,
            then_branch@,
            optional_stmt_view(*else_branch),
            old(state)@,
            fuel as nat,
        ).0,
        flow_result(r) == semantics::exec_if(
            registry(funcs),
            condition@,
            then_branch@,
            optional_stmt_view(*else_branch),
            old(state)@,
            fuel as nat,
        ).1,
        balanced(old(state)@, final(state)@, r is Ok),
    decreases fuel, 1nat,
{
    match eval_expr(funcs, state, condition, fuel) {
        Ok(value) => {
            if value.to_bool() {
                exec_stmt(funcs, state, then_branch, fuel)
            } else {
                match else_branch {
                    Some(other) => exec_stmt(funcs, state, other, fuel),
                    None => Ok(ControlFlow::Proceed),
                }
            }
        },
        Err(e) => Err(e),
    }
}

/// Runs a block in a scope of its own.
pub fn exec_block(
    funcs: &Table<Function>,
    state: &mut State,
    stmts: &Vec<Stmt>,
    fuel: u64,
) -> (r: Result<ControlFlow, RuntimeError>)
    requires
        old(state)@.scopes.len() > 0,
    ensures
        final(state)@ == semantics::exec_block(registry(funcs), stmts_view(stmts@), old(state)@, fuel as nat).0,
        flow_result(r) == semantics::exec_block(registry(funcs), stmts_view(stmts@), old(state)@, fuel as nat).1,
        balanced(old(state)@, final(state)@, r is Ok),
    decreases fuel, 1nat,
{
    state.push_scope();
    match exec_list(funcs, state, stmts, fuel) {
        Ok(flow) => {
            state.pop_scope();
            Ok(flow)
        },
        Err(e) => Err(e),
    }
}

/// Runs a `print`: one line of the arguments' texts, joined by spaces.
pub fn exec_print(
    funcs: &Table<Function>,
    state: &mut State,
    exprs: &Vec<Expr>,
    fuel: u64,
) -> (r: Result<ControlFlow, RuntimeError>)
    requires
        old(state)@.scopes.len() > 0,
    ensures
        final(state)@ == semantics::exec_print(registry(funcs), exprs_view(exprs@), old(state)@, fuel as nat).0,
        flow_result(r) == semantics::exec_print(registry(funcs), exprs_view(exprs@), old(state)@, fuel as nat).1,
        balanced(old(state)@, final(state)@, r is Ok),
    decreases fuel, 1nat,
{
    match eval_texts(funcs, state, exprs, fuel) {
        Ok(texts) => {
            state.emit(Emit::Line(join(&texts)));
            Ok(ControlFlow::Proceed)
        },
        Err(e) => Err(e),
    }
}

/// Runs a `return`.
pub fn exec_return(
    funcs: &Table<Function>,
    state: &mut State,
    value: &Option<Expr>,
    fuel: u64,
) -> (r: Result<ControlFlow, RuntimeError>)
    requires
        old(state)@.scopes.len() > 0,
    ensures
        final(state)@ == semantics::exec_return(registry(funcs), optional_expr_view(*value), old(state)@, fuel as nat).0,
        flow_result(r) == semantics::exec_return(registry(funcs), optional_expr_view(*value), old(state)@, fuel as nat).1,
        balanced(old(state)@, final(state)@, r is Ok),
    decreases fuel, 1nat,
{
    match value {
        Some(e) => match eval_expr(funcs, state, e, fuel) {
            Ok(v) => Ok(ControlFlow::Return(v)),
            Err(e) => Err(e),
        },
        None => Ok(ControlFlow::Return(Value::Void)),
    }
}

/// Runs the first clause of a sharp loop: a declaration makes a sharp cell.
pub fn exec_sharp_stmt(
    funcs: &Table<Function>,
    state: &mut State,
    stmt: &Stmt,
    fuel: u64,
) -> (r: Result<ControlFlow, RuntimeError>)
    requires
        old(state)@.scopes.len() > 0,
    ensures
        final(state)@ == semantics::exec_sharp(registry(funcs), stmt@, old(state)@, fuel as nat).0,
        flow_result(r) == semantics::exec_sharp(registry(funcs), stmt@, old(state)@, fuel as nat).1,
        balanced(old(state)@, final(state)@, r is Ok),
    decreases fuel, 0nat,
{
    if fuel == 0 {
        return Err(RuntimeError::out_of_fuel());
    }
    let fuel: u64 = fuel - 1;
    match stmt {
        Stmt::VarDecl(var_type, name, init) => exec_sharp_decl(
            funcs,
            state,
            var_type,
            name,
            init,
            fuel,
        ),
        _ => exec_stmt(funcs, state, stmt, fuel),
    }
}

/// Runs a `for` loop, plain or sharp, in a scope of its own.
pub fn exec_for(
    funcs: &Table<Function>,
    state: &mut State,
    init: &Option<Box<Stmt>>,
    condition: &Option<Expr>,
    update: &Option<Box<Stmt>>,
    body: &Stmt,
    capped: bool,
    fuel: u64,
) -> (r: Result<ControlFlow, RuntimeError>)
    requires
        old(state)@.scopes.len() > 0,
    ensures
        final(state)@ == semantics::exec_for(
            registry(funcs),
            optional_stmt_view(*init),
            optional_expr_view(*condition),
            optional_stmt_view(*update),
            body@,
            capped,
            old(state)@,
            fuel as nat,
        ).0,
        flow_result(r) == semantics::exec_for(
            registry(funcs),
            optional_stmt_view(*init),
            optional_expr_view(*condition),
            optional_stmt_view(*update),
            body@,
            capped,
            old(state)@,
            fuel as nat,
        ).1,
        balanced(old(state)@, final(state)@, r is Ok),
    decreases fuel, 0nat,
{
    if fuel == 0 {
        return Err(RuntimeError::out_of_fuel());
    }
    let fuel: u64 = fuel - 1;
    state.push_scope();
    match init {
        Some(first) => {
            let started = if capped {
                exec_stmt(funcs, state, first, fuel)
            } else {
                exec_sharp_stmt(funcs, state, first, fuel)
            };
            match started {
                Ok(_) => {},
                Err(e) => {
                    return Err(e);
                },
            }
        },
        None => {},
    }
    match loop_for(funcs, state, condition, update, body, capped, fuel) {
        Ok(flow) => {
            state.pop_scope();
            Ok(flow)
        },
        Err(e) => Err(e),
    }
}

/// Runs a statement, with the changes that it makes to the state.
pub fn exec_stmt(
    funcs: &Table<Function>,
    state: &mut State,
    stmt: &Stmt,
    fuel: u64,
) -> (r: Result<ControlFlow, RuntimeError>)
    requires
        old(state)@.scopes.len() > 0,
    ensures
        final(state)@ == semantics::exec(registry(funcs), stmt@, old(state)@, fuel as nat).0,
        flow_result(r) == semantics::exec(registry(funcs), stmt@, old(state)@, fuel as nat).1,
        balanced(old(state)@, final(state)@, r is Ok),
    decreases fuel, 0nat,
{
    if fuel == 0 && !simple_stmt(stmt) {
        return Err(RuntimeError::out_of_fuel());
    }
    let fuel: u64 = if fuel > 0 {
        fuel - 1
    } else {
        0
    };
    match stmt {
        Stmt::VarDecl(var_type, name, init) => exec_var_decl(funcs, state, var_type, name, init, fuel),
        Stmt::ArrayDecl(elem_type, name, size, init) => exec_array_decl(
            funcs,
            state,
            elem_type,
            name,
            *size,
            init,
            fuel,
        ),
        Stmt::Assign(name, value) => dropped(eval_assign(funcs, state, name.as_str(), value, fuel)),
        Stmt::ArrayAssign(name, index, value) => dropped(
            eval_array_assign(funcs, state, name.as_str(), index, value, fuel),
        ),
        Stmt::CompoundAssign(name, op, value) => dropped(
            eval_compound(funcs, state, name.as_str(), *op, value, fuel),
        ),
        Stmt::ArrayCompoundAssign(name, index, op, value) => dropped(
            eval_array_compound(funcs, state, name.as_str(), index, *op, value, fuel),
        ),
        Stmt::PreIncrement(name) => dropped(state.update_var(name.as_str(), &Update::Step(true))),
        Stmt::PostIncrement(name) => dropped(state.update_var(name.as_str(), &Update::Step(true))),
        Stmt::PreDecrement(name) => dropped(state.update_var(name.as_str(), &Update::Step(false))),
        Stmt::PostDecrement(name) => dropped(state.update_var(name.as_str(), &Update::Step(false))),
        Stmt::ArrayPreIncrement(name, index) => dropped(
            eval_cell_update(funcs, state, name.as_str(), index, &Update::Step(true), fuel),
        ),
        Stmt::ArrayPostIncrement(name, index) => dropped(
            eval_cell_update(funcs, state, name.as_str(), index, &Update::Step(true), fuel),
        ),
        Stmt::ArrayPreDecrement(name, index) => dropped(
            eval_cell_update(funcs, state, name.as_str(), index, &Update::Step(false), fuel),
        ),
        Stmt::ArrayPostDecrement(name, index) => dropped(
            eval_cell_update(funcs, state, name.as_str(), index, &Update::Step(false), fuel),
        ),
        Stmt::If(condition, then_branch, else_branch) => exec_if(
            funcs,
            state,
            condition,
            then_branch,
            else_branch,
            fuel,
        ),
        Stmt::While(condition, body) => loop_while(funcs, state, condition, body, fuel),
        Stmt::For(init, condition, update, body) => exec_for(
            funcs,
            state,
            init,
            condition,
            update,
            body,
            true,
            fuel,
        ),
        Stmt::SharpFor(init, condition, update, body) => exec_for(
            funcs,
            state,
            init,
            condition,
            update,
            body,
            false,
            fuel,
        ),
        Stmt::Block(stmts) => exec_block(funcs, state, stmts, fuel),
        Stmt::Expr(e) => dropped(eval_expr(funcs, state, e, fuel)),
        Stmt::Print(exprs) => exec_print(funcs, state, exprs, fuel),
        Stmt::Return(value) => exec_return(funcs, state, value, fuel),
    }
}

} // verus!
