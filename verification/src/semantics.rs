//! What a program means: the state and the result that each expression and
//! statement leads to.
//!
//! Evaluation is given fuel. A step that evaluates a part hands the part one
//! unit less than it was given itself, and fails if it was given none. So
//! the fuel bounds how deep evaluation nests, where each turn of a loop and
//! each statement of a sequence nests in the one before it. A step that has
//! no part to evaluate (a literal, a variable, a step of a variable up or
//! down) needs no fuel.

use crate::ast::{BinOp, CompoundOp, ExprView, FunctionView, StmtView, Type, UnaryOp};
use crate::error::ErrorView;
use crate::history::BlurView;
use crate::number::Num;
use crate::state::{EmitView, StateView};
use crate::update::UpdateView;
use crate::value::ValueView;
use vstd::prelude::*;

verus! {

/// How a statement ends: execution goes on, or the enclosing call returns.
pub enum FlowView {
    Proceed,
    Returned(ValueView),
}

/// The functions that can be called, by name.
pub type Functions = Map<Seq<char>, FunctionView>;

/// A state and the value that an expression gave, or the error that ended it.
pub type Evaluated = (StateView, Result<ValueView, ErrorView>);

/// A state and the way a statement ended, or the error that ended it.
pub type Executed = (StateView, Result<FlowView, ErrorView>);

/// Whether evaluation kept the scopes in balance: it never leaves fewer
/// scopes than it found, and leaves as many where it did not fail.
pub open spec fn balanced(before: StateView, after: StateView, ok: bool) -> bool {
    &&& after.scopes.len() >= before.scopes.len()
    &&& ok ==> after.scopes.len() == before.scopes.len()
}

/// The most iterations that a plain `for` loop makes.
pub const MAX_ITERATIONS: u64 = 1000;

/// What a plain `for` loop says when it is cut short.
pub open spec fn loop_warning() -> Seq<char> {
    "Warning: for loop hit 1000 iteration limit (use 'sharp for' for unlimited)"@
}

/// The index that a value stands for: its number, truncated toward zero.
pub open spec fn index_of(value: ValueView) -> i64 {
    value.to_num().spec_trunc(i64::MIN as int, i64::MAX as int) as i64
}

/// The count that a value stands for: its number, truncated toward zero, and
/// zero if that is negative.
pub open spec fn count_of(value: ValueView) -> nat {
    value.to_num().spec_trunc(0, usize::MAX as int) as nat
}

/// A text, `times` times in a row.
pub open spec fn repeated_text(text: Seq<char>, times: nat) -> Seq<char>
    decreases times,
{
    if times == 0 {
        Seq::empty()
    } else {
        repeated_text(text, (times - 1) as nat) + text
    }
}

/// The value of a text repeated in a place where a value is asked for: the
/// repeated text, or the empty text if what is repeated is no text.
pub open spec fn repeated(value: ValueView, times: nat) -> ValueView {
    match value {
        ValueView::String(text) => ValueView::String(repeated_text(text, times)),
        _ => ValueView::String(Seq::empty()),
    }
}

/// The result of a binary operator. Arithmetic and comparison work on the
/// operands' numbers and `&&`, `||` on their truth. Equality holds of numbers
/// less than the machine epsilon apart. Division and remainder by a number
/// that equals zero fail.
pub open spec fn binop_result(left: ValueView, op: BinOp, right: ValueView) -> Result<
    ValueView,
    ErrorView,
> {
    let l = left.to_num();
    let r = right.to_num();
    match op {
        BinOp::Add => Ok(ValueView::Float(l.spec_plus(r))),
        BinOp::Sub => Ok(ValueView::Float(l.spec_minus(r))),
        BinOp::Mul => Ok(ValueView::Float(l.spec_times(r))),
        BinOp::Div => if r.spec_same(Num::spec_zero()) {
            Err(ErrorView::DivisionByZero)
        } else {
            Ok(ValueView::Float(l.spec_over(r)))
        },
        BinOp::Mod => if r.spec_same(Num::spec_zero()) {
            Err(ErrorView::DivisionByZero)
        } else {
            Ok(ValueView::Float(l.spec_modulo(r)))
        },
        BinOp::Eq => Ok(ValueView::Bool(l.spec_minus(r).spec_abs().spec_lt(Num::spec_epsilon()))),
        BinOp::Ne => Ok(ValueView::Bool(Num::spec_epsilon().spec_le(l.spec_minus(r).spec_abs()))),
        BinOp::Lt => Ok(ValueView::Bool(l.spec_lt(r))),
        BinOp::Gt => Ok(ValueView::Bool(r.spec_lt(l))),
        BinOp::Le => Ok(ValueView::Bool(l.spec_le(r))),
        BinOp::Ge => Ok(ValueView::Bool(r.spec_le(l))),
        BinOp::And => Ok(ValueView::Bool(left.truthy() && right.truthy())),
        BinOp::Or => Ok(ValueView::Bool(left.truthy() || right.truthy())),
    }
}

/// The result of a unary operator: negation gives a float whatever it is
/// applied to, and `!` the opposite of the operand's truth.
pub open spec fn unary_result(op: UnaryOp, value: ValueView) -> ValueView {
    match op {
        UnaryOp::Neg => ValueView::Float(value.to_num().spec_neg()),
        UnaryOp::Not => ValueView::Bool(!value.truthy()),
    }
}

/// Texts joined by single spaces.
pub open spec fn joined(texts: Seq<Seq<char>>) -> Seq<char>
    decreases texts.len(),
{
    if texts.len() == 0 {
        Seq::empty()
    } else if texts.len() == 1 {
        texts[0]
    } else {
        joined(texts.drop_last()) + seq![' '] + texts.last()
    }
}

/// A statement's end for an expression's result: the value is dropped.
pub open spec fn as_flow(evaluated: Evaluated) -> Executed {
    match evaluated.1 {
        Ok(_) => (evaluated.0, Ok(FlowView::Proceed)),
        Err(e) => (evaluated.0, Err(e)),
    }
}

/// The functions after more were registered in order: a later one takes the
/// place of an earlier one of its name.
pub open spec fn registered(funcs: Functions, more: Seq<FunctionView>) -> Functions
    decreases more.len(),
{
    if more.len() == 0 {
        funcs
    } else {
        registered(funcs, more.drop_last()).insert(more.last().name, more.last())
    }
}

/// The state after the parameters from `i` on were bound to their arguments
/// in the innermost scope. A parameter without an argument is not bound.
pub open spec fn bind_params(
    params: Seq<(Type, Seq<char>)>,
    args: Seq<BlurView>,
    i: nat,
    st: StateView,
) -> StateView
    decreases params.len() - i,
{
    if i >= params.len() {
        st
    } else if i < args.len() {
        bind_params(params, args, i + 1, st.declared_var(params[i as int].1, args[i as int]))
    } else {
        bind_params(params, args, i + 1, st)
    }
}

/// The update that the right side of an assignment or a declaration asks for:
/// a text literal times a count is blended in that many times over, anything
/// else is evaluated and assigned.
pub open spec fn assignment(funcs: Functions, rhs: ExprView, st: StateView, fuel: nat) -> (
    StateView,
    Result<UpdateView, ErrorView>,
)
    decreases fuel, 0nat,
{
    if fuel == 0 {
        (st, Err(ErrorView::out_of_fuel()))
    } else {
        let fuel = (fuel - 1) as nat;
        match rhs {
            ExprView::StringRepeat(text, count) => match *text {
                ExprView::StringLit(literal) => {
                    let (st1, r1) = eval(funcs, *count, st, fuel);
                    match r1 {
                        Ok(times) => (st1, Ok(UpdateView::Repeat(literal, count_of(times)))),
                        Err(e) => (st1, Err(e)),
                    }
                },
                _ => assigned_value(eval(funcs, rhs, st, fuel)),
            },
            _ => assigned_value(eval(funcs, rhs, st, fuel)),
        }
    }
}

/// The update that assigns an evaluated value.
pub open spec fn assigned_value(evaluated: Evaluated) -> (StateView, Result<UpdateView, ErrorView>) {
    match evaluated.1 {
        Ok(value) => (evaluated.0, Ok(UpdateView::Assign(value))),
        Err(e) => (evaluated.0, Err(e)),
    }
}

/// The index that an expression evaluates to.
pub open spec fn eval_index(funcs: Functions, index: ExprView, st: StateView, fuel: nat) -> (
    StateView,
    Result<i64, ErrorView>,
)
    decreases fuel, 1nat,
{
    let (st1, r1) = eval(funcs, index, st, fuel);
    match r1 {
        Ok(value) => (st1, Ok(index_of(value))),
        Err(e) => (st1, Err(e)),
    }
}

/// A text times a count where a value is asked for: both are evaluated, the
/// text first.
pub open spec fn eval_repeat(funcs: Functions, text: ExprView, count: ExprView, st: StateView, fuel: nat) -> Evaluated
    decreases fuel, 1nat,
{
    let (st1, r1) = eval(funcs, text, st, fuel);
    match r1 {
        Ok(value) => {
            let (st2, r2) = eval(funcs, count, st1, fuel);
            match r2 {
                Ok(times) => (st2, Ok(repeated(value, count_of(times)))),
                Err(e) => (st2, Err(e)),
            }
        },
        Err(e) => (st1, Err(e)),
    }
}

/// A binary operation: both operands are evaluated, the left one first.
pub open spec fn eval_binary(
    funcs: Functions,
    left: ExprView,
    op: BinOp,
    right: ExprView,
    st: StateView,
    fuel: nat,
) -> Evaluated
    decreases fuel, 1nat,
{
    let (st1, r1) = eval(funcs, left, st, fuel);
    match r1 {
        Ok(l) => {
            let (st2, r2) = eval(funcs, right, st1, fuel);
            match r2 {
                Ok(r) => (st2, binop_result(l, op, r)),
                Err(e) => (st2, Err(e)),
            }
        },
        Err(e) => (st1, Err(e)),
    }
}

/// A unary operation on an evaluated operand.
pub open spec fn eval_unary(funcs: Functions, op: UnaryOp, operand: ExprView, st: StateView, fuel: nat) -> Evaluated
    decreases fuel, 1nat,
{
    let (st1, r1) = eval(funcs, operand, st, fuel);
    match r1 {
        Ok(value) => (st1, Ok(unary_result(op, value))),
        Err(e) => (st1, Err(e)),
    }
}

/// An array element read: the index is evaluated before the array is looked
/// up.
pub open spec fn eval_cell_read(
    funcs: Functions,
    name: Seq<char>,
    index: ExprView,
    st: StateView,
    fuel: nat,
) -> Evaluated
    decreases fuel, 2nat,
{
    let (st1, r1) = eval_index(funcs, index, st, fuel);
    match r1 {
        Ok(i) => (st1, st1.read_cell(name, i)),
        Err(e) => (st1, Err(e)),
    }
}

/// An update of an array element, which gives the value that the element
/// shows then: the index is evaluated before the array is looked up.
pub open spec fn eval_cell_update(
    funcs: Functions,
    name: Seq<char>,
    index: ExprView,
    update: UpdateView,
    st: StateView,
    fuel: nat,
) -> Evaluated
    decreases fuel, 2nat,
{
    let (st1, r1) = eval_index(funcs, index, st, fuel);
    match r1 {
        Ok(i) => st1.updated_cell(name, i, update),
        Err(e) => (st1, Err(e)),
    }
}

/// A postfix step of an array element, which gives the value that the element
/// showed before.
pub open spec fn eval_cell_post(
    funcs: Functions,
    name: Seq<char>,
    index: ExprView,
    up: bool,
    st: StateView,
    fuel: nat,
) -> Evaluated
    decreases fuel, 2nat,
{
    let (st1, r1) = eval_index(funcs, index, st, fuel);
    match r1 {
        Ok(i) => st1.post_stepped_cell(name, i, up),
        Err(e) => (st1, Err(e)),
    }
}

/// A call: `get_blur` gives the decay and `blurstr` the blend of its
/// arguments; any other name calls a registered function on the cells of the
/// arguments, which are evaluated before the function is looked up.
pub open spec fn eval_call(
    funcs: Functions,
    name: Seq<char>,
    args: Seq<ExprView>,
    st: StateView,
    fuel: nat,
) -> Evaluated
    decreases fuel, 1nat,
{
    if name == "get_blur"@ {
        (st, Ok(ValueView::Float(st.decay)))
    } else if name == "blurstr"@ {
        let (st1, r1) = blend_args(funcs, args, 0, BlurView::fresh(Type::String, false), st, fuel);
        match r1 {
            Ok(cell) => (st1, Ok(cell.projection(st1.decay))),
            Err(e) => (st1, Err(e)),
        }
    } else {
        let (st1, r1) = eval_args(funcs, args, 0, Seq::empty(), st, fuel);
        match r1 {
            Ok(cells) => call(funcs, name, cells, st1, fuel),
            Err(e) => (st1, Err(e)),
        }
    }
}

/// An assignment to a variable, which gives the value that the variable
/// shows then: the right side is evaluated before the variable is looked up.
pub open spec fn eval_assign(
    funcs: Functions,
    name: Seq<char>,
    value: ExprView,
    st: StateView,
    fuel: nat,
) -> Evaluated
    decreases fuel, 1nat,
{
    let (st1, r1) = assignment(funcs, value, st, fuel);
    match r1 {
        Ok(update) => st1.updated_var(name, update),
        Err(e) => (st1, Err(e)),
    }
}

/// A compound assignment to a variable.
pub open spec fn eval_compound(
    funcs: Functions,
    name: Seq<char>,
    op: CompoundOp,
    value: ExprView,
    st: StateView,
    fuel: nat,
) -> Evaluated
    decreases fuel, 1nat,
{
    let (st1, r1) = eval(funcs, value, st, fuel);
    match r1 {
        Ok(v) => st1.updated_var(name, UpdateView::Compound(op, v.to_num())),
        Err(e) => (st1, Err(e)),
    }
}

/// An assignment to an array element: the index is evaluated, then the right
/// side, then the array is looked up.
pub open spec fn eval_array_assign(
    funcs: Functions,
    name: Seq<char>,
    index: ExprView,
    value: ExprView,
    st: StateView,
    fuel: nat,
) -> Evaluated
    decreases fuel, 2nat,
{
    let (st1, r1) = eval_index(funcs, index, st, fuel);
    match r1 {
        Ok(i) => {
            let (st2, r2) = eval(funcs, value, st1, fuel);
            match r2 {
                Ok(v) => st2.updated_cell(name, i, UpdateView::Assign(v)),
                Err(e) => (st2, Err(e)),
            }
        },
        Err(e) => (st1, Err(e)),
    }
}

/// A compound assignment to an array element.
pub open spec fn eval_array_compound(
    funcs: Functions,
    name: Seq<char>,
    index: ExprView,
    op: CompoundOp,
    value: ExprView,
    st: StateView,
    fuel: nat,
) -> Evaluated
    decreases fuel, 2nat,
{
    let (st1, r1) = eval_index(funcs, index, st, fuel);
    match r1 {
        Ok(i) => {
            let (st2, r2) = eval(funcs, value, st1, fuel);
            match r2 {
                Ok(v) => st2.updated_cell(name, i, UpdateView::Compound(op, v.to_num())),
                Err(e) => (st2, Err(e)),
            }
        },
        Err(e) => (st1, Err(e)),
    }
}

/// Whether an expression has no part to evaluate: a literal, a variable, or
/// a step of a variable up or down.
pub open spec fn is_simple(expr: ExprView) -> bool {
    ||| expr is IntLit
    ||| expr is FloatLit
    ||| expr is BoolLit
    ||| expr is CharLit
    ||| expr is StringLit
    ||| expr is Var
    ||| expr is PreIncrement
    ||| expr is PreDecrement
    ||| expr is PostIncrement
    ||| expr is PostDecrement
}

/// Whether a statement has no part to evaluate: a step of a variable up or
/// down.
pub open spec fn is_simple_stmt(stmt: StmtView) -> bool {
    ||| stmt is PreIncrement
    ||| stmt is PreDecrement
    ||| stmt is PostIncrement
    ||| stmt is PostDecrement
}

/// The fuel that a step hands on: one unit less than it has.
pub open spec fn handed_on(fuel: nat) -> nat {
    if fuel > 0 {
        (fuel - 1) as nat
    } else {
        0
    }
}

/// The value of an expression and the state that its evaluation leaves.
pub open spec fn eval(funcs: Functions, expr: ExprView, st: StateView, fuel: nat) -> Evaluated
    decreases fuel, 0nat,
{
    if fuel == 0 && !is_simple(expr) {
        (st, Err(ErrorView::out_of_fuel()))
    } else {
        let fuel = handed_on(fuel);
        match expr {
            ExprView::IntLit(n) => (st, Ok(ValueView::Int(n))),
            ExprView::FloatLit(x) => (st, Ok(ValueView::Float(x))),
            ExprView::BoolLit(b) => (st, Ok(ValueView::Bool(b))),
            ExprView::CharLit(c) => (st, Ok(ValueView::Char(c))),
            ExprView::StringLit(s) => (st, Ok(ValueView::String(s))),
            ExprView::StringRepeat(text, count) => eval_repeat(funcs, *text, *count, st, fuel),
            ExprView::Var(name) => (st, st.read_var(name)),
            ExprView::ArrayAccess(name, index) => eval_cell_read(funcs, name, *index, st, fuel),
            ExprView::BinOp(left, op, right) => eval_binary(funcs, *left, op, *right, st, fuel),
            ExprView::UnaryOp(op, operand) => eval_unary(funcs, op, *operand, st, fuel),
            ExprView::PreIncrement(name) => st.updated_var(name, UpdateView::Step(true)),
            ExprView::PreDecrement(name) => st.updated_var(name, UpdateView::Step(false)),
            ExprView::PostIncrement(name) => st.post_stepped_var(name, true),
            ExprView::PostDecrement(name) => st.post_stepped_var(name, false),
            ExprView::ArrayPreIncrement(name, index) => eval_cell_update(
                funcs,
                name,
                *index,
                UpdateView::Step(true),
                st,
                fuel,
            ),
            ExprView::ArrayPreDecrement(name, index) => eval_cell_update(
                funcs,
                name,
                *index,
                UpdateView::Step(false),
                st,
                fuel,
            ),
            ExprView::ArrayPostIncrement(name, index) => eval_cell_post(
                funcs,
                name,
                *index,
                true,
                st,
                fuel,
            ),
            ExprView::ArrayPostDecrement(name, index) => eval_cell_post(
                funcs,
                name,
                *index,
                false,
                st,
                fuel,
            ),
            ExprView::Call(name, args) => eval_call(funcs, name, args, st, fuel),
            ExprView::Assign(name, value) => eval_assign(funcs, name, *value, st, fuel),
            ExprView::ArrayAssign(name, index, value) => eval_array_assign(
                funcs,
                name,
                *index,
                *value,
                st,
                fuel,
            ),
            ExprView::CompoundAssign(name, op, value) => eval_compound(
                funcs,
                name,
                op,
                *value,
                st,
                fuel,
            ),
            ExprView::ArrayCompoundAssign(name, index, op, value) => eval_array_compound(
                funcs,
                name,
                *index,
                op,
                *value,
                st,
                fuel,
            ),
        }
    }
}

/// The cell that an argument hands to a call: a copy of the whole history
/// where the argument is a variable or an array element, else a fresh float
/// cell that holds the argument's number as its one sample. A variable is
/// copied without any fuel, for nothing is evaluated.
pub open spec fn eval_cell(funcs: Functions, arg: ExprView, st: StateView, fuel: nat) -> (
    StateView,
    Result<BlurView, ErrorView>,
)
    decreases fuel, 0nat,
{
    match arg {
        ExprView::Var(name) => (st, st.copy_var(name)),
        _ => if fuel == 0 {
            (st, Err(ErrorView::out_of_fuel()))
        } else {
            let fuel = (fuel - 1) as nat;
            match arg {
                ExprView::ArrayAccess(name, index) => {
                    let (st1, r1) = eval_index(funcs, *index, st, fuel);
                    match r1 {
                        Ok(i) => (st1, st1.copy_cell(name, i)),
                        Err(e) => (st1, Err(e)),
                    }
                },
                _ => {
                    let (st1, r1) = eval(funcs, arg, st, fuel);
                    match r1 {
                        Ok(value) => (
                            st1,
                            Ok(BlurView::fresh(Type::Float, false).pushed(value.to_num())),
                        ),
                        Err(e) => (st1, Err(e)),
                    }
                },
            }
        },
    }
}

/// The cells of the arguments from `i` on, after those in `done`.
pub open spec fn eval_args(
    funcs: Functions,
    args: Seq<ExprView>,
    i: nat,
    done: Seq<BlurView>,
    st: StateView,
    fuel: nat,
) -> (StateView, Result<Seq<BlurView>, ErrorView>)
    decreases fuel, 0nat,
{
    if i >= args.len() {
        (st, Ok(done))
    } else if fuel == 0 {
        (st, Err(ErrorView::out_of_fuel()))
    } else {
        let fuel = (fuel - 1) as nat;
        let (st1, r1) = eval_cell(funcs, args[i as int], st, fuel);
        match r1 {
            Ok(cell) => eval_args(funcs, args, i + 1, done.push(cell), st1, fuel),
            Err(e) => (st1, Err(e)),
        }
    }
}

/// The text cell after the arguments from `i` on were blended into it.
pub open spec fn blend_args(
    funcs: Functions,
    args: Seq<ExprView>,
    i: nat,
    cell: BlurView,
    st: StateView,
    fuel: nat,
) -> (StateView, Result<BlurView, ErrorView>)
    decreases fuel, 0nat,
{
    if i >= args.len() {
        (st, Ok(cell))
    } else if fuel == 0 {
        (st, Err(ErrorView::out_of_fuel()))
    } else {
        let fuel = (fuel - 1) as nat;
        let (st1, r1) = assignment(funcs, args[i as int], st, fuel);
        match r1 {
            Ok(update) => match cell.applied(update, st1.decay) {
                Ok(blended) => blend_args(funcs, args, i + 1, blended, st1, fuel),
                Err(e) => (st1, Err(e)),
            },
            Err(e) => (st1, Err(e)),
        }
    }
}

/// The texts of the values of the expressions from `i` on, after those in
/// `done`.
pub open spec fn eval_texts(
    funcs: Functions,
    exprs: Seq<ExprView>,
    i: nat,
    done: Seq<Seq<char>>,
    st: StateView,
    fuel: nat,
) -> (StateView, Result<Seq<Seq<char>>, ErrorView>)
    decreases fuel, 0nat,
{
    if i >= exprs.len() {
        (st, Ok(done))
    } else if fuel == 0 {
        (st, Err(ErrorView::out_of_fuel()))
    } else {
        let fuel = (fuel - 1) as nat;
        let (st1, r1) = eval(funcs, exprs[i as int], st, fuel);
        match r1 {
            Ok(value) => eval_texts(funcs, exprs, i + 1, done.push(value.text()), st1, fuel),
            Err(e) => (st1, Err(e)),
        }
    }
}

/// The cells of an array after the initial values from `i` on were assigned
/// to them. Values beyond the array's size are not evaluated.
pub open spec fn fill(
    funcs: Functions,
    values: Seq<ExprView>,
    i: nat,
    cells: Seq<BlurView>,
    st: StateView,
    fuel: nat,
) -> (StateView, Result<Seq<BlurView>, ErrorView>)
    decreases fuel, 0nat,
{
    if i >= values.len() || i >= cells.len() {
        (st, Ok(cells))
    } else if fuel == 0 {
        (st, Err(ErrorView::out_of_fuel()))
    } else {
        let fuel = (fuel - 1) as nat;
        let (st1, r1) = eval(funcs, values[i as int], st, fuel);
        match r1 {
            Ok(value) => fill(
                funcs,
                values,
                i + 1,
                cells.update(i as int, cells[i as int].assigned(value)),
                st1,
                fuel,
            ),
            Err(e) => (st1, Err(e)),
        }
    }
}

/// A call: the arguments are bound to the parameters in a new scope, the body
/// runs until a statement returns, and the scope is closed. A body that does
/// not return gives void. An error leaves the scopes as they were when it
/// occurred.
pub open spec fn call(
    funcs: Functions,
    name: Seq<char>,
    args: Seq<BlurView>,
    st: StateView,
    fuel: nat,
) -> Evaluated
    decreases fuel, 0nat,
{
    if fuel == 0 {
        (st, Err(ErrorView::out_of_fuel()))
    } else if !funcs.contains_key(name) {
        (st, Err(ErrorView::UndefinedFunc(name)))
    } else {
        let fuel = (fuel - 1) as nat;
        let function = funcs[name];
        let entered = bind_params(function.params, args, 0, st.pushed_scope());
        let (st1, r1) = exec_list(funcs, function.body, 0, entered, fuel);
        match r1 {
            Ok(FlowView::Returned(value)) => (st1.popped_scope(), Ok(value)),
            Ok(FlowView::Proceed) => (st1.popped_scope(), Ok(ValueView::Void)),
            Err(e) => (st1, Err(e)),
        }
    }
}

/// The statements from `i` on, in order, up to the first that returns.
pub open spec fn exec_list(
    funcs: Functions,
    stmts: Seq<StmtView>,
    i: nat,
    st: StateView,
    fuel: nat,
) -> Executed
    decreases fuel, 0nat,
{
    if i >= stmts.len() {
        (st, Ok(FlowView::Proceed))
    } else if fuel == 0 {
        (st, Err(ErrorView::out_of_fuel()))
    } else {
        let fuel = (fuel - 1) as nat;
        let (st1, r1) = exec(funcs, stmts[i as int], st, fuel);
        match r1 {
            Ok(FlowView::Proceed) => exec_list(funcs, stmts, i + 1, st1, fuel),
            Ok(FlowView::Returned(value)) => (st1, Ok(FlowView::Returned(value))),
            Err(e) => (st1, Err(e)),
        }
    }
}

/// A `while` loop: the condition is tested before each turn, and a turn that
/// returns ends the loop.
pub open spec fn loop_while(
    funcs: Functions,
    condition: ExprView,
    body: StmtView,
    st: StateView,
    fuel: nat,
) -> Executed
    decreases fuel, 0nat,
{
    if fuel == 0 {
        (st, Err(ErrorView::out_of_fuel()))
    } else {
        let fuel = (fuel - 1) as nat;
        let (st1, r1) = eval(funcs, condition, st, fuel);
        match r1 {
            Ok(value) => if value.truthy() {
                let (st2, r2) = exec(funcs, body, st1, fuel);
                match r2 {
                    Ok(FlowView::Proceed) => loop_while(funcs, condition, body, st2, fuel),
                    Ok(FlowView::Returned(v)) => (st2, Ok(FlowView::Returned(v))),
                    Err(e) => (st2, Err(e)),
                }
            } else {
                (st1, Ok(FlowView::Proceed))
            },
            Err(e) => (st1, Err(e)),
        }
    }
}

/// One turn of a `for` loop: the condition is tested, the body runs, then
/// the update. `Ok(None)` says that the loop goes on, `Ok(Some(..))` how it
/// ended. A loop without a condition goes on.
pub open spec fn turn(
    funcs: Functions,
    condition: Option<ExprView>,
    update: Option<Box<StmtView>>,
    body: StmtView,
    st: StateView,
    fuel: nat,
) -> (StateView, Result<Option<FlowView>, ErrorView>)
    decreases fuel, 1nat,
{
    let (st1, r1) = match condition {
        Some(c) => eval(funcs, c, st, fuel),
        None => (st, Ok(ValueView::Bool(true))),
    };
    match r1 {
        Ok(value) => if value.truthy() {
            let (st2, r2) = exec(funcs, body, st1, fuel);
            match r2 {
                Ok(FlowView::Proceed) => {
                    let (st3, r3) = match update {
                        Some(u) => exec(funcs, *u, st2, fuel),
                        None => (st2, Ok(FlowView::Proceed)),
                    };
                    match r3 {
                        Ok(_) => (st3, Ok(None)),
                        Err(e) => (st3, Err(e)),
                    }
                },
                Ok(FlowView::Returned(v)) => (st2, Ok(Some(FlowView::Returned(v)))),
                Err(e) => (st2, Err(e)),
            }
        } else {
            (st1, Ok(Some(FlowView::Proceed)))
        },
        Err(e) => (st1, Err(e)),
    }
}

/// The turns of a `for` loop after `done` of them. A capped loop that has
/// made all its turns warns and ends.
pub open spec fn loop_for(
    funcs: Functions,
    condition: Option<ExprView>,
    update: Option<Box<StmtView>>,
    body: StmtView,
    capped: bool,
    done: nat,
    st: StateView,
    fuel: nat,
) -> Executed
    decreases fuel, 0nat,
{
    if capped && done >= MAX_ITERATIONS {
        (st.emitted(EmitView::Warning(loop_warning())), Ok(FlowView::Proceed))
    } else if fuel == 0 {
        (st, Err(ErrorView::out_of_fuel()))
    } else {
        let fuel = (fuel - 1) as nat;
        let (st1, r1) = turn(funcs, condition, update, body, st, fuel);
        match r1 {
            Ok(None) => loop_for(funcs, condition, update, body, capped, done + 1, st1, fuel),
            Ok(Some(flow)) => (st1, Ok(flow)),
            Err(e) => (st1, Err(e)),
        }
    }
}

/// A declaration of a variable: the cell is made, extended by what the
/// initializer asks for, and bound in the innermost scope.
pub open spec fn exec_var_decl(
    funcs: Functions,
    var_type: Type,
    name: Seq<char>,
    init: Option<ExprView>,
    st: StateView,
    fuel: nat,
) -> Executed
    decreases fuel, 1nat,
{
    match init {
        Some(e) => {
            let (st1, r1) = assignment(funcs, e, st, fuel);
            match r1 {
                Ok(update) => match BlurView::fresh(var_type, false).applied(update, st1.decay) {
                    Ok(cell) => (st1.declared_var(name, cell), Ok(FlowView::Proceed)),
                    Err(e) => (st1, Err(e)),
                },
                Err(e) => (st1, Err(e)),
            }
        },
        None => (st.declared_var(name, BlurView::fresh(var_type, false)), Ok(FlowView::Proceed)),
    }
}

/// A declaration of a variable in the first clause of a sharp loop: the cell
/// is sharp, and the initializer is evaluated and assigned.
pub open spec fn exec_sharp_decl(
    funcs: Functions,
    var_type: Type,
    name: Seq<char>,
    init: Option<ExprView>,
    st: StateView,
    fuel: nat,
) -> Executed
    decreases fuel, 1nat,
{
    match init {
        Some(e) => {
            let (st1, r1) = eval(funcs, e, st, fuel);
            match r1 {
                Ok(value) => (
                    st1.declared_var(name, BlurView::fresh(var_type, true).assigned(value)),
                    Ok(FlowView::Proceed),
                ),
                Err(e) => (st1, Err(e)),
            }
        },
        None => (st.declared_var(name, BlurView::fresh(var_type, true)), Ok(FlowView::Proceed)),
    }
}

/// A declaration of an array: `size` empty cells, the first of which are
/// assigned the initial values.
pub open spec fn exec_array_decl(
    funcs: Functions,
    elem_type: Type,
    name: Seq<char>,
    size: usize,
    init: Option<Seq<ExprView>>,
    st: StateView,
    fuel: nat,
) -> Executed
    decreases fuel, 1nat,
{
    let blank = Seq::new(size as nat, |i: int| BlurView::fresh(elem_type, false));
    match init {
        Some(values) => {
            let (st1, r1) = fill(funcs, values, 0, blank, st, fuel);
            match r1 {
                Ok(cells) => (st1.declared_array(name, cells), Ok(FlowView::Proceed)),
                Err(e) => (st1, Err(e)),
            }
        },
        None => (st.declared_array(name, blank), Ok(FlowView::Proceed)),
    }
}

/// An `if`: the condition is evaluated and exactly one branch runs.
pub open spec fn exec_if(
    funcs: Functions,
    condition: ExprView,
    then_branch: StmtView,
    else_branch: Option<Box<StmtView>>,
    st: StateView,
    fuel: nat,
) -> Executed
    decreases fuel, 1nat,
{
    let (st1, r1) = eval(funcs, condition, st, fuel);
    match r1 {
        Ok(value) => if value.truthy() {
            exec(funcs, then_branch, st1, fuel)
        } else {
            match else_branch {
                Some(other) => exec(funcs, *other, st1, fuel),
                None => (st1, Ok(FlowView::Proceed)),
            }
        },
        Err(e) => (st1, Err(e)),
    }
}

/// A block: its statements run in a scope of their own, which is closed
/// unless an error ended them.
pub open spec fn exec_block(funcs: Functions, stmts: Seq<StmtView>, st: StateView, fuel: nat) -> Executed
    decreases fuel, 1nat,
{
    let (st1, r1) = exec_list(funcs, stmts, 0, st.pushed_scope(), fuel);
    match r1 {
        Ok(flow) => (st1.popped_scope(), Ok(flow)),
        Err(e) => (st1, Err(e)),
    }
}

/// A `print`: the texts of the arguments' values, joined by single spaces,
/// are one line of output.
pub open spec fn exec_print(funcs: Functions, exprs: Seq<ExprView>, st: StateView, fuel: nat) -> Executed
    decreases fuel, 1nat,
{
    let (st1, r1) = eval_texts(funcs, exprs, 0, Seq::empty(), st, fuel);
    match r1 {
        Ok(texts) => (st1.emitted(EmitView::Line(joined(texts))), Ok(FlowView::Proceed)),
        Err(e) => (st1, Err(e)),
    }
}

/// A `return`: the value of its expression, or void, is handed to the
/// enclosing call.
pub open spec fn exec_return(funcs: Functions, value: Option<ExprView>, st: StateView, fuel: nat) -> Executed
    decreases fuel, 1nat,
{
    match value {
        Some(e) => {
            let (st1, r1) = eval(funcs, e, st, fuel);
            match r1 {
                Ok(v) => (st1, Ok(FlowView::Returned(v))),
                Err(e) => (st1, Err(e)),
            }
        },
        None => (st, Ok(FlowView::Returned(ValueView::Void))),
    }
}

/// The first clause of a sharp loop: a declaration makes a sharp cell, any
/// other statement runs as it always does.
pub open spec fn exec_sharp(funcs: Functions, stmt: StmtView, st: StateView, fuel: nat) -> Executed
    decreases fuel, 0nat,
{
    if fuel == 0 {
        (st, Err(ErrorView::out_of_fuel()))
    } else {
        let fuel = (fuel - 1) as nat;
        match stmt {
            StmtView::VarDecl(var_type, name, init) => exec_sharp_decl(
                funcs,
                var_type,
                name,
                init,
                st,
                fuel,
            ),
            _ => exec(funcs, stmt, st, fuel),
        }
    }
}

/// A `for` loop, plain or sharp: a scope is opened, the first clause runs
/// once, the turns follow, and the scope is closed unless an error ended the
/// loop.
pub open spec fn exec_for(
    funcs: Functions,
    init: Option<Box<StmtView>>,
    condition: Option<ExprView>,
    update: Option<Box<StmtView>>,
    body: StmtView,
    capped: bool,
    st: StateView,
    fuel: nat,
) -> Executed
    decreases fuel, 0nat,
{
    if fuel == 0 {
        (st, Err(ErrorView::out_of_fuel()))
    } else {
        let fuel = (fuel - 1) as nat;
        let (st1, r1) = match init {
            Some(first) => if capped {
                exec(funcs, *first, st.pushed_scope(), fuel)
            } else {
                exec_sharp(funcs, *first, st.pushed_scope(), fuel)
            },
            None => (st.pushed_scope(), Ok(FlowView::Proceed)),
        };
        match r1 {
            Ok(_) => {
                let (st2, r2) = loop_for(funcs, condition, update, body, capped, 0, st1, fuel);
                match r2 {
                    Ok(flow) => (st2.popped_scope(), Ok(flow)),
                    Err(e) => (st2, Err(e)),
                }
            },
            Err(e) => (st1, Err(e)),
        }
    }
}

/// The way a statement ends and the state that it leaves.
pub open spec fn exec(funcs: Functions, stmt: StmtView, st: StateView, fuel: nat) -> Executed
    decreases fuel, 0nat,
{
    if fuel == 0 && !is_simple_stmt(stmt) {
        (st, Err(ErrorView::out_of_fuel()))
    } else {
        let fuel = handed_on(fuel);
        match stmt {
            StmtView::VarDecl(var_type, name, init) => exec_var_decl(
                funcs,
                var_type,
                name,
                init,
                st,
                fuel,
            ),
            StmtView::ArrayDecl(elem_type, name, size, init) => exec_array_decl(
                funcs,
                elem_type,
                name,
                size,
                init,
                st,
                fuel,
            ),
            StmtView::Assign(name, value) => as_flow(eval_assign(funcs, name, value, st, fuel)),
            StmtView::ArrayAssign(name, index, value) => as_flow(
                eval_array_assign(funcs, name, index, value, st, fuel),
            ),
            StmtView::CompoundAssign(name, op, value) => as_flow(
                eval_compound(funcs, name, op, value, st, fuel),
            ),
            StmtView::ArrayCompoundAssign(name, index, op, value) => as_flow(
                eval_array_compound(funcs, name, index, op, value, st, fuel),
            ),
            StmtView::PreIncrement(name) => as_flow(st.updated_var(name, UpdateView::Step(true))),
            StmtView::PostIncrement(name) => as_flow(st.updated_var(name, UpdateView::Step(true))),
            StmtView::PreDecrement(name) => as_flow(st.updated_var(name, UpdateView::Step(false))),
            StmtView::PostDecrement(name) => as_flow(st.updated_var(name, UpdateView::Step(false))),
            StmtView::ArrayPreIncrement(name, index) => as_flow(
                eval_cell_update(funcs, name, index, UpdateView::Step(true), st, fuel),
            ),
            StmtView::ArrayPostIncrement(name, index) => as_flow(
                eval_cell_update(funcs, name, index, UpdateView::Step(true), st, fuel),
            ),
            StmtView::ArrayPreDecrement(name, index) => as_flow(
                eval_cell_update(funcs, name, index, UpdateView::Step(false), st, fuel),
            ),
            StmtView::ArrayPostDecrement(name, index) => as_flow(
                eval_cell_update(funcs, name, index, UpdateView::Step(false), st, fuel),
            ),
            StmtView::If(condition, then_branch, else_branch) => exec_if(
                funcs,
                condition,
                *then_branch,
                else_branch,
                st,
                fuel,
            ),
            StmtView::While(condition, body) => loop_while(funcs, condition, *body, st, fuel),
            StmtView::For(init, condition, update, body) => exec_for(
                funcs,
                init,
                condition,
                update,
                *body,
                true,
                st,
                fuel,
            ),
            StmtView::SharpFor(init, condition, update, body) => exec_for(
                funcs,
                init,
                condition,
                update,
                *body,
                false,
                st,
                fuel,
            ),
            StmtView::Block(stmts) => exec_block(funcs, stmts, st, fuel),
            StmtView::Expr(e) => as_flow(eval(funcs, e, st, fuel)),
            StmtView::Print(exprs) => exec_print(funcs, exprs, st, fuel),
            StmtView::Return(value) => exec_return(funcs, value, st, fuel),
        }
    }
}

/// A run: the program's functions are registered, and `blur` is called
/// without arguments if it is among the functions then. Without it the run
/// gives void.
pub open spec fn run(funcs: Functions, program: Seq<FunctionView>, st: StateView, fuel: nat) -> Evaluated {
    let all = registered(funcs, program);
    if all.contains_key("blur"@) {
        call(all, "blur"@, Seq::empty(), st, fuel)
    } else {
        (st, Ok(ValueView::Void))
    }
}

} // verus!
