//! What evaluation leaves as it is: whatever is evaluated, no scope that was
//! open before is closed, and every scope that was opened is closed again
//! unless an error ended the evaluation; and the decay is not touched.
//!
//! Each rule of the semantics has its lemma here; the lemmas follow the rules
//! by induction on the fuel.

use crate::ast::{BinOp, CompoundOp, ExprView, StmtView, Type, UnaryOp};
use crate::history::BlurView;
use crate::semantics::{
    assignment, balanced, bind_params, blend_args, call, eval, eval_args, eval_array_assign,
    eval_array_compound, eval_assign, eval_binary, eval_call, eval_cell, eval_cell_post,
    eval_cell_read, eval_cell_update, eval_compound, eval_index, eval_repeat, eval_texts,
    eval_unary, exec, exec_array_decl, exec_block, exec_for, exec_if, exec_list, exec_print,
    exec_return, exec_sharp, exec_sharp_decl, exec_var_decl, fill, handed_on, is_simple,
    is_simple_stmt, loop_for, loop_while, turn, FlowView, Functions, MAX_ITERATIONS,
};
use crate::state::StateView;
use crate::update::UpdateView;
use vstd::prelude::*;

verus! {

/// Whether evaluation left alone what it has to: the scopes are in balance
/// and the decay is as it was.
pub open spec fn steady(before: StateView, after: StateView, ok: bool) -> bool {
    balanced(before, after, ok) && after.decay == before.decay
}

/// An update of a variable or of an array element opens and closes no scope.
pub proof fn lemma_update_keeps_depth(st: StateView, name: Seq<char>, index: i64, update: UpdateView, up: bool)
    ensures
        st.updated_var(name, update).0.scopes.len() == st.scopes.len(),
        st.updated_cell(name, index, update).0.scopes.len() == st.scopes.len(),
        st.post_stepped_var(name, up).0.scopes.len() == st.scopes.len(),
        st.post_stepped_cell(name, index, up).0.scopes.len() == st.scopes.len(),
        st.updated_var(name, update).0.decay == st.decay,
        st.updated_cell(name, index, update).0.decay == st.decay,
        st.post_stepped_var(name, up).0.decay == st.decay,
        st.post_stepped_cell(name, index, up).0.decay == st.decay,
{
    crate::laws::lemma_var_home_in_range(st.scopes, name);
    lemma_array_home_in_range(st.scopes, name);
}

/// The innermost scope that declares an array is one of the scopes.
pub proof fn lemma_array_home_in_range(scopes: Seq<crate::scope::ScopeView>, name: Seq<char>)
    ensures
        crate::state::array_home(scopes, name) matches Some(home) ==> 0 <= home < scopes.len(),
    decreases scopes.len(),
{
    if scopes.len() > 0 && !scopes.last().arrays.contains_key(name) {
        lemma_array_home_in_range(scopes.drop_last(), name);
    }
}

/// Binding parameters opens and closes no scope.
pub proof fn lemma_bind_keeps_depth(
    params: Seq<(Type, Seq<char>)>,
    args: Seq<BlurView>,
    i: nat,
    st: StateView,
)
    requires
        st.scopes.len() > 0,
    ensures
        bind_params(params, args, i, st).scopes.len() == st.scopes.len(),
        bind_params(params, args, i, st).decay == st.decay,
    decreases params.len() - i,
{
    if i < params.len() {
        if i < args.len() {
            lemma_bind_keeps_depth(
                params,
                args,
                i + 1,
                st.declared_var(params[i as int].1, args[i as int]),
            );
        } else {
            lemma_bind_keeps_depth(params, args, i + 1, st);
        }
    }
}

/// The rule `assignment` leaves the state steady.
pub proof fn lemma_assignment(funcs: Functions, rhs: ExprView, st: StateView, fuel: nat)
    requires
        st.scopes.len() > 0,
    ensures
        steady(st, assignment(funcs, rhs, st, fuel).0, assignment(funcs, rhs, st, fuel).1 is Ok),
    decreases fuel, 0nat,
{
    if fuel > 0 {
        let fuel = (fuel - 1) as nat;
        match rhs {
            ExprView::StringRepeat(text, count) => match *text {
                ExprView::StringLit(_) => lemma_eval(funcs, *count, st, fuel),
                _ => lemma_eval(funcs, rhs, st, fuel),
            },
            _ => lemma_eval(funcs, rhs, st, fuel),
        }
    }
}

/// The rule `eval_index` leaves the state steady.
pub proof fn lemma_eval_index(funcs: Functions, index: ExprView, st: StateView, fuel: nat)
    requires
        st.scopes.len() > 0,
    ensures
        steady(st, eval_index(funcs, index, st, fuel).0, eval_index(funcs, index, st, fuel).1 is Ok),
    decreases fuel, 1nat,
{
    lemma_eval(funcs, index, st, fuel);
}

/// The rule `eval_repeat` leaves the state steady.
pub proof fn lemma_eval_repeat(funcs: Functions, text: ExprView, count: ExprView, st: StateView, fuel: nat)
    requires
        st.scopes.len() > 0,
    ensures
        steady(
            st,
            eval_repeat(funcs, text, count, st, fuel).0,
            eval_repeat(funcs, text, count, st, fuel).1 is Ok,
        ),
    decreases fuel, 1nat,
{
    lemma_eval(funcs, text, st, fuel);
    let (st1, r1) = eval(funcs, text, st, fuel);
    if r1 is Ok {
        lemma_eval(funcs, count, st1, fuel);
    }
}

/// The rule `eval_binary` leaves the state steady.
pub proof fn lemma_eval_binary(
    funcs: Functions,
    left: ExprView,
    op: BinOp,
    right: ExprView,
    st: StateView,
    fuel: nat,
)
    requires
        st.scopes.len() > 0,
    ensures
        steady(
            st,
            eval_binary(funcs, left, op, right, st, fuel).0,
            eval_binary(funcs, left, op, right, st, fuel).1 is Ok,
        ),
    decreases fuel, 1nat,
{
    lemma_eval(funcs, left, st, fuel);
    let (st1, r1) = eval(funcs, left, st, fuel);
    if r1 is Ok {
        lemma_eval(funcs, right, st1, fuel);
    }
}

/// The rule `eval_unary` leaves the state steady.
pub proof fn lemma_eval_unary(funcs: Functions, op: UnaryOp, operand: ExprView, st: StateView, fuel: nat)
    requires
        st.scopes.len() > 0,
    ensures
        steady(
            st,
            eval_unary(funcs, op, operand, st, fuel).0,
            eval_unary(funcs, op, operand, st, fuel).1 is Ok,
        ),
    decreases fuel, 1nat,
{
    lemma_eval(funcs, operand, st, fuel);
}

/// The rule `eval_cell_read` leaves the state steady.
pub proof fn lemma_eval_cell_read(funcs: Functions, name: Seq<char>, index: ExprView, st: StateView, fuel: nat)
    requires
        st.scopes.len() > 0,
    ensures
        steady(
            st,
            eval_cell_read(funcs, name, index, st, fuel).0,
            eval_cell_read(funcs, name, index, st, fuel).1 is Ok,
        ),
    decreases fuel, 2nat,
{
    lemma_eval_index(funcs, index, st, fuel);
}

/// The rule `eval_cell_update` leaves the state steady.
pub proof fn lemma_eval_cell_update(
    funcs: Functions,
    name: Seq<char>,
    index: ExprView,
    update: UpdateView,
    st: StateView,
    fuel: nat,
)
    requires
        st.scopes.len() > 0,
    ensures
        steady(
            st,
            eval_cell_update(funcs, name, index, update, st, fuel).0,
            eval_cell_update(funcs, name, index, update, st, fuel).1 is Ok,
        ),
    decreases fuel, 2nat,
{
    lemma_eval_index(funcs, index, st, fuel);
    let (st1, r1) = eval_index(funcs, index, st, fuel);
    if let Ok(i) = r1 {
        lemma_update_keeps_depth(st1, name, i, update, true);
    }
}

/// The rule `eval_cell_post` leaves the state steady.
pub proof fn lemma_eval_cell_post(
    funcs: Functions,
    name: Seq<char>,
    index: ExprView,
    up: bool,
    st: StateView,
    fuel: nat,
)
    requires
        st.scopes.len() > 0,
    ensures
        steady(
            st,
            eval_cell_post(funcs, name, index, up, st, fuel).0,
            eval_cell_post(funcs, name, index, up, st, fuel).1 is Ok,
        ),
    decreases fuel, 2nat,
{
    lemma_eval_index(funcs, index, st, fuel);
    let (st1, r1) = eval_index(funcs, index, st, fuel);
    if let Ok(i) = r1 {
        lemma_update_keeps_depth(st1, name, i, UpdateView::Step(up), up);
    }
}

/// The rule `eval_call` leaves the state steady.
pub proof fn lemma_eval_call(funcs: Functions, name: Seq<char>, args: Seq<ExprView>, st: StateView, fuel: nat)
    requires
        st.scopes.len() > 0,
    ensures
        steady(
            st,
            eval_call(funcs, name, args, st, fuel).0,
            eval_call(funcs, name, args, st, fuel).1 is Ok,
        ),
    decreases fuel, 1nat,
{
    if name == "get_blur"@ {
    } else if name == "blurstr"@ {
        lemma_blend_args(funcs, args, 0, BlurView::fresh(Type::String, false), st, fuel);
    } else {
        lemma_eval_args(funcs, args, 0, Seq::empty(), st, fuel);
        let (st1, r1) = eval_args(funcs, args, 0, Seq::empty(), st, fuel);
        if let Ok(cells) = r1 {
            lemma_call(funcs, name, cells, st1, fuel);
        }
    }
}

/// The rule `eval_assign` leaves the state steady.
pub proof fn lemma_eval_assign(funcs: Functions, name: Seq<char>, value: ExprView, st: StateView, fuel: nat)
    requires
        st.scopes.len() > 0,
    ensures
        steady(
            st,
            eval_assign(funcs, name, value, st, fuel).0,
            eval_assign(funcs, name, value, st, fuel).1 is Ok,
        ),
    decreases fuel, 1nat,
{
    lemma_assignment(funcs, value, st, fuel);
    let (st1, r1) = assignment(funcs, value, st, fuel);
    if let Ok(update) = r1 {
        lemma_update_keeps_depth(st1, name, 0, update, true);
    }
}

/// The rule `eval_compound` leaves the state steady.
pub proof fn lemma_eval_compound(
    funcs: Functions,
    name: Seq<char>,
    op: CompoundOp,
    value: ExprView,
    st: StateView,
    fuel: nat,
)
    requires
        st.scopes.len() > 0,
    ensures
        steady(
            st,
            eval_compound(funcs, name, op, value, st, fuel).0,
            eval_compound(funcs, name, op, value, st, fuel).1 is Ok,
        ),
    decreases fuel, 1nat,
{
    lemma_eval(funcs, value, st, fuel);
    let (st1, r1) = eval(funcs, value, st, fuel);
    if let Ok(v) = r1 {
        lemma_update_keeps_depth(st1, name, 0, UpdateView::Compound(op, v.to_num()), true);
    }
}

/// The rule `eval_array_assign` leaves the state steady.
pub proof fn lemma_eval_array_assign(
    funcs: Functions,
    name: Seq<char>,
    index: ExprView,
    value: ExprView,
    st: StateView,
    fuel: nat,
)
    requires
        st.scopes.len() > 0,
    ensures
        steady(
            st,
            eval_array_assign(funcs, name, index, value, st, fuel).0,
            eval_array_assign(funcs, name, index, value, st, fuel).1 is Ok,
        ),
    decreases fuel, 2nat,
{
    lemma_eval_index(funcs, index, st, fuel);
    let (st1, r1) = eval_index(funcs, index, st, fuel);
    if let Ok(i) = r1 {
        lemma_eval(funcs, value, st1, fuel);
        let (st2, r2) = eval(funcs, value, st1, fuel);
        if let Ok(v) = r2 {
            lemma_update_keeps_depth(st2, name, i, UpdateView::Assign(v), true);
        }
    }
}

/// The rule `eval_array_compound` leaves the state steady.
pub proof fn lemma_eval_array_compound(
    funcs: Functions,
    name: Seq<char>,
    index: ExprView,
    op: CompoundOp,
    value: ExprView,
    st: StateView,
    fuel: nat,
)
    requires
        st.scopes.len() > 0,
    ensures
        steady(
            st,
            eval_array_compound(funcs, name, index, op, value, st, fuel).0,
            eval_array_compound(funcs, name, index, op, value, st, fuel).1 is Ok,
        ),
    decreases fuel, 2nat,
{
    lemma_eval_index(funcs, index, st, fuel);
    let (st1, r1) = eval_index(funcs, index, st, fuel);
    if let Ok(i) = r1 {
        lemma_eval(funcs, value, st1, fuel);
        let (st2, r2) = eval(funcs, value, st1, fuel);
        if let Ok(v) = r2 {
            lemma_update_keeps_depth(st2, name, i, UpdateView::Compound(op, v.to_num()), true);
        }
    }
}

/// The evaluation of an expression leaves the state steady.
pub proof fn lemma_eval(funcs: Functions, expr: ExprView, st: StateView, fuel: nat)
    requires
        st.scopes.len() > 0,
    ensures
        steady(st, eval(funcs, expr, st, fuel).0, eval(funcs, expr, st, fuel).1 is Ok),
    decreases fuel, 0nat,
{
    if fuel > 0 || is_simple(expr) {
        let fuel = handed_on(fuel);
        match expr {
            ExprView::StringRepeat(text, count) => lemma_eval_repeat(funcs, *text, *count, st, fuel),
            ExprView::ArrayAccess(name, index) => lemma_eval_cell_read(funcs, name, *index, st, fuel),
            ExprView::BinOp(left, op, right) => lemma_eval_binary(
                funcs,
                *left,
                op,
                *right,
                st,
                fuel,
            ),
            ExprView::UnaryOp(op, operand) => lemma_eval_unary(funcs, op, *operand, st, fuel),
            ExprView::PreIncrement(name) => lemma_update_keeps_depth(
                st,
                name,
                0,
                UpdateView::Step(true),
                true,
            ),
            ExprView::PreDecrement(name) => lemma_update_keeps_depth(
                st,
                name,
                0,
                UpdateView::Step(false),
                false,
            ),
            ExprView::PostIncrement(name) => lemma_update_keeps_depth(
                st,
                name,
                0,
                UpdateView::Step(true),
                true,
            ),
            ExprView::PostDecrement(name) => lemma_update_keeps_depth(
                st,
                name,
                0,
                UpdateView::Step(false),
                false,
            ),
            ExprView::ArrayPreIncrement(name, index) => lemma_eval_cell_update(
                funcs,
                name,
                *index,
                UpdateView::Step(true),
                st,
                fuel,
            ),
            ExprView::ArrayPreDecrement(name, index) => lemma_eval_cell_update(
                funcs,
                name,
                *index,
                UpdateView::Step(false),
                st,
                fuel,
            ),
            ExprView::ArrayPostIncrement(name, index) => lemma_eval_cell_post(
                funcs,
                name,
                *index,
                true,
                st,
                fuel,
            ),
            ExprView::ArrayPostDecrement(name, index) => lemma_eval_cell_post(
                funcs,
                name,
                *index,
                false,
                st,
                fuel,
            ),
            ExprView::Call(name, args) => lemma_eval_call(funcs, name, args, st, fuel),
            ExprView::Assign(name, value) => lemma_eval_assign(funcs, name, *value, st, fuel),
            ExprView::ArrayAssign(name, index, value) => lemma_eval_array_assign(
                funcs,
                name,
                *index,
                *value,
                st,
                fuel,
            ),
            ExprView::CompoundAssign(name, op, value) => lemma_eval_compound(
                funcs,
                name,
                op,
                *value,
                st,
                fuel,
            ),
            ExprView::ArrayCompoundAssign(name, index, op, value) => lemma_eval_array_compound(
                funcs,
                name,
                *index,
                op,
                *value,
                st,
                fuel,
            ),
            _ => {},
        }
    }
}

/// The rule `eval_cell` leaves the state steady.
pub proof fn lemma_eval_cell(funcs: Functions, arg: ExprView, st: StateView, fuel: nat)
    requires
        st.scopes.len() > 0,
    ensures
        steady(st, eval_cell(funcs, arg, st, fuel).0, eval_cell(funcs, arg, st, fuel).1 is Ok),
    decreases fuel, 0nat,
{
    if fuel > 0 {
        let fuel = (fuel - 1) as nat;
        match arg {
            ExprView::Var(_) => {},
            ExprView::ArrayAccess(_, index) => lemma_eval_index(funcs, *index, st, fuel),
            _ => lemma_eval(funcs, arg, st, fuel),
        }
    }
}

/// The rule `eval_args` leaves the state steady.
pub proof fn lemma_eval_args(
    funcs: Functions,
    args: Seq<ExprView>,
    i: nat,
    done: Seq<BlurView>,
    st: StateView,
    fuel: nat,
)
    requires
        st.scopes.len() > 0,
    ensures
        steady(
            st,
            eval_args(funcs, args, i, done, st, fuel).0,
            eval_args(funcs, args, i, done, st, fuel).1 is Ok,
        ),
    decreases fuel, 0nat,
{
    if i < args.len() && fuel > 0 {
        let fuel = (fuel - 1) as nat;
        lemma_eval_cell(funcs, args[i as int], st, fuel);
        let (st1, r1) = eval_cell(funcs, args[i as int], st, fuel);
        if let Ok(cell) = r1 {
            lemma_eval_args(funcs, args, i + 1, done.push(cell), st1, fuel);
        }
    }
}

/// The rule `blend_args` leaves the state steady.
pub proof fn lemma_blend_args(
    funcs: Functions,
    args: Seq<ExprView>,
    i: nat,
    cell: BlurView,
    st: StateView,
    fuel: nat,
)
    requires
        st.scopes.len() > 0,
    ensures
        steady(
            st,
            blend_args(funcs, args, i, cell, st, fuel).0,
            blend_args(funcs, args, i, cell, st, fuel).1 is Ok,
        ),
    decreases fuel, 0nat,
{
    if i < args.len() && fuel > 0 {
        let fuel = (fuel - 1) as nat;
        lemma_assignment(funcs, args[i as int], st, fuel);
        let (st1, r1) = assignment(funcs, args[i as int], st, fuel);
        if let Ok(update) = r1 {
            if let Ok(blended) = cell.applied(update, st1.decay) {
                lemma_blend_args(funcs, args, i + 1, blended, st1, fuel);
            }
        }
    }
}

/// The rule `eval_texts` leaves the state steady.
pub proof fn lemma_eval_texts(
    funcs: Functions,
    exprs: Seq<ExprView>,
    i: nat,
    done: Seq<Seq<char>>,
    st: StateView,
    fuel: nat,
)
    requires
        st.scopes.len() > 0,
    ensures
        steady(
            st,
            eval_texts(funcs, exprs, i, done, st, fuel).0,
            eval_texts(funcs, exprs, i, done, st, fuel).1 is Ok,
        ),
    decreases fuel, 0nat,
{
    if i < exprs.len() && fuel > 0 {
        let fuel = (fuel - 1) as nat;
        lemma_eval(funcs, exprs[i as int], st, fuel);
        let (st1, r1) = eval(funcs, exprs[i as int], st, fuel);
        if let Ok(value) = r1 {
            lemma_eval_texts(funcs, exprs, i + 1, done.push(value.text()), st1, fuel);
        }
    }
}

/// The rule `fill` leaves the state steady.
pub proof fn lemma_fill(
    funcs: Functions,
    values: Seq<ExprView>,
    i: nat,
    cells: Seq<BlurView>,
    st: StateView,
    fuel: nat,
)
    requires
        st.scopes.len() > 0,
    ensures
        steady(
            st,
            fill(funcs, values, i, cells, st, fuel).0,
            fill(funcs, values, i, cells, st, fuel).1 is Ok,
        ),
    decreases fuel, 0nat,
{
    if i < values.len() && i < cells.len() && fuel > 0 {
        let fuel = (fuel - 1) as nat;
        lemma_eval(funcs, values[i as int], st, fuel);
        let (st1, r1) = eval(funcs, values[i as int], st, fuel);
        if let Ok(value) = r1 {
            lemma_fill(
                funcs,
                values,
                i + 1,
                cells.update(i as int, cells[i as int].assigned(value)),
                st1,
                fuel,
            );
        }
    }
}

/// A call keeps the scopes in balance: the scope that it opens is closed
/// when the body has run.
pub proof fn lemma_call(funcs: Functions, name: Seq<char>, args: Seq<BlurView>, st: StateView, fuel: nat)
    requires
        st.scopes.len() > 0,
    ensures
        steady(st, call(funcs, name, args, st, fuel).0, call(funcs, name, args, st, fuel).1 is Ok),
    decreases fuel, 0nat,
{
    if fuel > 0 && funcs.contains_key(name) {
        let fuel = (fuel - 1) as nat;
        let function = funcs[name];
        lemma_bind_keeps_depth(function.params, args, 0, st.pushed_scope());
        let entered = bind_params(function.params, args, 0, st.pushed_scope());
        lemma_exec_list(funcs, function.body, 0, entered, fuel);
    }
}

/// The rule `exec_list` leaves the state steady.
pub proof fn lemma_exec_list(funcs: Functions, stmts: Seq<StmtView>, i: nat, st: StateView, fuel: nat)
    requires
        st.scopes.len() > 0,
    ensures
        steady(
            st,
            exec_list(funcs, stmts, i, st, fuel).0,
            exec_list(funcs, stmts, i, st, fuel).1 is Ok,
        ),
    decreases fuel, 0nat,
{
    if i < stmts.len() && fuel > 0 {
        let fuel = (fuel - 1) as nat;
        lemma_exec(funcs, stmts[i as int], st, fuel);
        let (st1, r1) = exec(funcs, stmts[i as int], st, fuel);
        if r1 == Ok::<FlowView, crate::error::ErrorView>(FlowView::Proceed) {
            lemma_exec_list(funcs, stmts, i + 1, st1, fuel);
        }
    }
}

/// The rule `loop_while` leaves the state steady.
pub proof fn lemma_loop_while(funcs: Functions, condition: ExprView, body: StmtView, st: StateView, fuel: nat)
    requires
        st.scopes.len() > 0,
    ensures
        steady(
            st,
            loop_while(funcs, condition, body, st, fuel).0,
            loop_while(funcs, condition, body, st, fuel).1 is Ok,
        ),
    decreases fuel, 0nat,
{
    if fuel > 0 {
        let fuel = (fuel - 1) as nat;
        lemma_eval(funcs, condition, st, fuel);
        let (st1, r1) = eval(funcs, condition, st, fuel);
        if let Ok(value) = r1 {
            if value.truthy() {
                lemma_exec(funcs, body, st1, fuel);
                let (st2, r2) = exec(funcs, body, st1, fuel);
                if r2 == Ok::<FlowView, crate::error::ErrorView>(FlowView::Proceed) {
                    lemma_loop_while(funcs, condition, body, st2, fuel);
                }
            }
        }
    }
}

/// The rule `turn` leaves the state steady.
pub proof fn lemma_turn(
    funcs: Functions,
    condition: Option<ExprView>,
    update: Option<Box<StmtView>>,
    body: StmtView,
    st: StateView,
    fuel: nat,
)
    requires
        st.scopes.len() > 0,
    ensures
        steady(
            st,
            turn(funcs, condition, update, body, st, fuel).0,
            turn(funcs, condition, update, body, st, fuel).1 is Ok,
        ),
    decreases fuel, 1nat,
{
    let (st1, r1) = match condition {
        Some(c) => {
            lemma_eval(funcs, c, st, fuel);
            eval(funcs, c, st, fuel)
        },
        None => (st, Ok(crate::value::ValueView::Bool(true))),
    };
    if let Ok(value) = r1 {
        if value.truthy() {
            lemma_exec(funcs, body, st1, fuel);
            let (st2, r2) = exec(funcs, body, st1, fuel);
            if r2 == Ok::<FlowView, crate::error::ErrorView>(FlowView::Proceed) {
                if let Some(u) = update {
                    lemma_exec(funcs, *u, st2, fuel);
                }
            }
        }
    }
}

/// The rule `loop_for` leaves the state steady.
pub proof fn lemma_loop_for(
    funcs: Functions,
    condition: Option<ExprView>,
    update: Option<Box<StmtView>>,
    body: StmtView,
    capped: bool,
    done: nat,
    st: StateView,
    fuel: nat,
)
    requires
        st.scopes.len() > 0,
    ensures
        steady(
            st,
            loop_for(funcs, condition, update, body, capped, done, st, fuel).0,
            loop_for(funcs, condition, update, body, capped, done, st, fuel).1 is Ok,
        ),
    decreases fuel, 0nat,
{
    if capped && done >= MAX_ITERATIONS {
    } else if fuel > 0 {
        let fuel = (fuel - 1) as nat;
        lemma_turn(funcs, condition, update, body, st, fuel);
        let (st1, r1) = turn(funcs, condition, update, body, st, fuel);
        if r1 == Ok::<Option<FlowView>, crate::error::ErrorView>(None) {
            lemma_loop_for(funcs, condition, update, body, capped, done + 1, st1, fuel);
        }
    }
}

/// The rule `exec_var_decl` leaves the state steady.
pub proof fn lemma_exec_var_decl(
    funcs: Functions,
    var_type: Type,
    name: Seq<char>,
    init: Option<ExprView>,
    st: StateView,
    fuel: nat,
)
    requires
        st.scopes.len() > 0,
    ensures
        steady(
            st,
            exec_var_decl(funcs, var_type, name, init, st, fuel).0,
            exec_var_decl(funcs, var_type, name, init, st, fuel).1 is Ok,
        ),
    decreases fuel, 1nat,
{
    if let Some(e) = init {
        lemma_assignment(funcs, e, st, fuel);
    }
}

/// The rule `exec_sharp_decl` leaves the state steady.
pub proof fn lemma_exec_sharp_decl(
    funcs: Functions,
    var_type: Type,
    name: Seq<char>,
    init: Option<ExprView>,
    st: StateView,
    fuel: nat,
)
    requires
        st.scopes.len() > 0,
    ensures
        steady(
            st,
            exec_sharp_decl(funcs, var_type, name, init, st, fuel).0,
            exec_sharp_decl(funcs, var_type, name, init, st, fuel).1 is Ok,
        ),
    decreases fuel, 1nat,
{
    if let Some(e) = init {
        lemma_eval(funcs, e, st, fuel);
    }
}

/// The rule `exec_array_decl` leaves the state steady.
pub proof fn lemma_exec_array_decl(
    funcs: Functions,
    elem_type: Type,
    name: Seq<char>,
    size: usize,
    init: Option<Seq<ExprView>>,
    st: StateView,
    fuel: nat,
)
    requires
        st.scopes.len() > 0,
    ensures
        steady(
            st,
            exec_array_decl(funcs, elem_type, name, size, init, st, fuel).0,
            exec_array_decl(funcs, elem_type, name, size, init, st, fuel).1 is Ok,
        ),
    decreases fuel, 1nat,
{
    if let Some(values) = init {
        lemma_fill(
            funcs,
            values,
            0,
            Seq::new(size as nat, |i: int| BlurView::fresh(elem_type, false)),
            st,
            fuel,
        );
    }
}

/// The rule `exec_if` leaves the state steady.
pub proof fn lemma_exec_if(
    funcs: Functions,
    condition: ExprView,
    then_branch: StmtView,
    else_branch: Option<Box<StmtView>>,
    st: StateView,
    fuel: nat,
)
    requires
        st.scopes.len() > 0,
    ensures
        steady(
            st,
            exec_if(funcs, condition, then_branch, else_branch, st, fuel).0,
            exec_if(funcs, condition, then_branch, else_branch, st, fuel).1 is Ok,
        ),
    decreases fuel, 1nat,
{
    lemma_eval(funcs, condition, st, fuel);
    let (st1, r1) = eval(funcs, condition, st, fuel);
    if let Ok(value) = r1 {
        if value.truthy() {
            lemma_exec(funcs, then_branch, st1, fuel);
        } else if let Some(other) = else_branch {
            lemma_exec(funcs, *other, st1, fuel);
        }
    }
}

/// A block keeps the scopes in balance: its scope is closed on every way out
/// but that of an error.
pub proof fn lemma_exec_block(funcs: Functions, stmts: Seq<StmtView>, st: StateView, fuel: nat)
    requires
        st.scopes.len() > 0,
    ensures
        steady(
            st,
            exec_block(funcs, stmts, st, fuel).0,
            exec_block(funcs, stmts, st, fuel).1 is Ok,
        ),
    decreases fuel, 1nat,
{
    lemma_exec_list(funcs, stmts, 0, st.pushed_scope(), fuel);
}

/// The rule `exec_print` leaves the state steady.
pub proof fn lemma_exec_print(funcs: Functions, exprs: Seq<ExprView>, st: StateView, fuel: nat)
    requires
        st.scopes.len() > 0,
    ensures
        steady(
            st,
            exec_print(funcs, exprs, st, fuel).0,
            exec_print(funcs, exprs, st, fuel).1 is Ok,
        ),
    decreases fuel, 1nat,
{
    lemma_eval_texts(funcs, exprs, 0, Seq::empty(), st, fuel);
}

/// The rule `exec_return` leaves the state steady.
pub proof fn lemma_exec_return(funcs: Functions, value: Option<ExprView>, st: StateView, fuel: nat)
    requires
        st.scopes.len() > 0,
    ensures
        steady(
            st,
            exec_return(funcs, value, st, fuel).0,
            exec_return(funcs, value, st, fuel).1 is Ok,
        ),
    decreases fuel, 1nat,
{
    if let Some(e) = value {
        lemma_eval(funcs, e, st, fuel);
    }
}

/// The rule `exec_sharp` leaves the state steady.
pub proof fn lemma_exec_sharp(funcs: Functions, stmt: StmtView, st: StateView, fuel: nat)
    requires
        st.scopes.len() > 0,
    ensures
        steady(st, exec_sharp(funcs, stmt, st, fuel).0, exec_sharp(funcs, stmt, st, fuel).1 is Ok),
    decreases fuel, 0nat,
{
    if fuel > 0 {
        let fuel = (fuel - 1) as nat;
        match stmt {
            StmtView::VarDecl(var_type, name, init) => lemma_exec_sharp_decl(
                funcs,
                var_type,
                name,
                init,
                st,
                fuel,
            ),
            _ => lemma_exec(funcs, stmt, st, fuel),
        }
    }
}

/// A `for` loop keeps the scopes in balance: its scope is closed on every
/// way out but that of an error.
pub proof fn lemma_exec_for(
    funcs: Functions,
    init: Option<Box<StmtView>>,
    condition: Option<ExprView>,
    update: Option<Box<StmtView>>,
    body: StmtView,
    capped: bool,
    st: StateView,
    fuel: nat,
)
    requires
        st.scopes.len() > 0,
    ensures
        steady(
            st,
            exec_for(funcs, init, condition, update, body, capped, st, fuel).0,
            exec_for(funcs, init, condition, update, body, capped, st, fuel).1 is Ok,
        ),
    decreases fuel, 0nat,
{
    if fuel > 0 {
        let fuel = (fuel - 1) as nat;
        let (st1, r1) = match init {
            Some(first) => if capped {
                lemma_exec(funcs, *first, st.pushed_scope(), fuel);
                exec(funcs, *first, st.pushed_scope(), fuel)
            } else {
                lemma_exec_sharp(funcs, *first, st.pushed_scope(), fuel);
                exec_sharp(funcs, *first, st.pushed_scope(), fuel)
            },
            None => (st.pushed_scope(), Ok(FlowView::Proceed)),
        };
        if r1 is Ok {
            lemma_loop_for(funcs, condition, update, body, capped, 0, st1, fuel);
        }
    }
}

/// The execution of a statement leaves the state steady.
pub proof fn lemma_exec(funcs: Functions, stmt: StmtView, st: StateView, fuel: nat)
    requires
        st.scopes.len() > 0,
    ensures
        steady(st, exec(funcs, stmt, st, fuel).0, exec(funcs, stmt, st, fuel).1 is Ok),
    decreases fuel, 0nat,
{
    if fuel > 0 || is_simple_stmt(stmt) {
        let fuel = handed_on(fuel);
        match stmt {
            StmtView::VarDecl(var_type, name, init) => lemma_exec_var_decl(
                funcs,
                var_type,
                name,
                init,
                st,
                fuel,
            ),
            StmtView::ArrayDecl(elem_type, name, size, init) => lemma_exec_array_decl(
                funcs,
                elem_type,
                name,
                size,
                init,
                st,
                fuel,
            ),
            StmtView::Assign(name, value) => lemma_eval_assign(funcs, name, value, st, fuel),
            StmtView::ArrayAssign(name, index, value) => lemma_eval_array_assign(
                funcs,
                name,
                index,
                value,
                st,
                fuel,
            ),
            StmtView::CompoundAssign(name, op, value) => lemma_eval_compound(
                funcs,
                name,
                op,
                value,
                st,
                fuel,
            ),
            StmtView::ArrayCompoundAssign(name, index, op, value) => lemma_eval_array_compound(
                funcs,
                name,
                index,
                op,
                value,
                st,
                fuel,
            ),
            StmtView::PreIncrement(name) => lemma_update_keeps_depth(
                st,
                name,
                0,
                UpdateView::Step(true),
                true,
            ),
            StmtView::PostIncrement(name) => lemma_update_keeps_depth(
                st,
                name,
                0,
                UpdateView::Step(true),
                true,
            ),
            StmtView::PreDecrement(name) => lemma_update_keeps_depth(
                st,
                name,
                0,
                UpdateView::Step(false),
                false,
            ),
            StmtView::PostDecrement(name) => lemma_update_keeps_depth(
                st,
                name,
                0,
                UpdateView::Step(false),
                false,
            ),
            StmtView::ArrayPreIncrement(name, index) => lemma_eval_cell_update(
                funcs,
                name,
                index,
                UpdateView::Step(true),
                st,
                fuel,
            ),
            StmtView::ArrayPostIncrement(name, index) => lemma_eval_cell_update(
                funcs,
                name,
                index,
                UpdateView::Step(true),
                st,
                fuel,
            ),
            StmtView::ArrayPreDecrement(name, index) => lemma_eval_cell_update(
                funcs,
                name,
                index,
                UpdateView::Step(false),
                st,
                fuel,
            ),
            StmtView::ArrayPostDecrement(name, index) => lemma_eval_cell_update(
                funcs,
                name,
                index,
                UpdateView::Step(false),
                st,
                fuel,
            ),
            StmtView::If(condition, then_branch, else_branch) => lemma_exec_if(
                funcs,
                condition,
                *then_branch,
                else_branch,
                st,
                fuel,
            ),
            StmtView::While(condition, body) => lemma_loop_while(funcs, condition, *body, st, fuel),
            StmtView::For(init, condition, update, body) => lemma_exec_for(
                funcs,
                init,
                condition,
                update,
                *body,
                true,
                st,
                fuel,
            ),
            StmtView::SharpFor(init, condition, update, body) => lemma_exec_for(
                funcs,
                init,
                condition,
                update,
                *body,
                false,
                st,
                fuel,
            ),
            StmtView::Block(stmts) => lemma_exec_block(funcs, stmts, st, fuel),
            StmtView::Expr(e) => lemma_eval(funcs, e, st, fuel),
            StmtView::Print(exprs) => lemma_exec_print(funcs, exprs, st, fuel),
            StmtView::Return(value) => lemma_exec_return(funcs, value, st, fuel),
        }
    }
}

} // verus!
