//! What holds of the model whatever the program: properties of histories,
//! of the operators and of the scopes, proved from the definitions.

use crate::ast::{BinOp, CompoundOp, ExprView, StmtView, Type, UnaryOp};
use crate::average::{fades, is_pure, mean, weight};
use crate::interpreter::clamped;
use crate::error::ErrorView;
use crate::history::{bool_projection, count_true, lemma_reach_bound, BlurView};
use crate::number::Num;
use crate::semantics::{
    binop_result, eval, eval_cell, loop_for, loop_warning, turn, unary_result, Functions, FlowView,
    MAX_ITERATIONS,
};
use crate::state::{array_home, var_home, EmitView, StateView};
use crate::update::{compound_result, UpdateView};
use crate::value::ValueView;
use vstd::prelude::*;

verus! {

/// A cell after samples were pushed one after the other.
pub open spec fn pushed_all(cell: BlurView, samples: Seq<Num>) -> BlurView
    decreases samples.len(),
{
    if samples.len() == 0 {
        cell
    } else {
        pushed_all(cell, samples.drop_last()).pushed(samples.last())
    }
}

/// An accumulating cell keeps every pushed sample, in the order of the
/// pushes.
pub proof fn law_history_accumulates(cell: BlurView, samples: Seq<Num>)
    requires
        !cell.sharp,
    ensures
        pushed_all(cell, samples).history == cell.history + samples,
        !pushed_all(cell, samples).sharp,
    decreases samples.len(),
{
    if samples.len() == 0 {
        assert(cell.history + samples =~= cell.history);
    } else {
        law_history_accumulates(cell, samples.drop_last());
        assert(cell.history + samples =~= (cell.history + samples.drop_last()).push(samples.last()));
    }
}

/// Without decay the raw average of a cell is the unweighted arithmetic mean
/// of the samples that were pushed to it, whatever they are. Of no samples
/// it is zero.
pub proof fn law_pure_average_is_mean(var_type: Type, samples: Seq<Num>, decay: Num)
    requires
        is_pure(decay),
    ensures
        samples.len() > 0 ==> pushed_all(BlurView::fresh(var_type, false), samples).raw(decay)
            == mean(samples),
        samples.len() == 0 ==> pushed_all(BlurView::fresh(var_type, false), samples).raw(decay)
            == Num::spec_zero(),
{
    law_history_accumulates(BlurView::fresh(var_type, false), samples);
    assert(Seq::<Num>::empty() + samples =~= samples);
}

/// A decay of one asks for the plain mean.
pub proof fn law_one_is_pure()
    ensures
        is_pure(Num::spec_one()),
{
}

/// The most recent sample has the weight one, whatever the decay is, even a
/// decay of zero.
pub proof fn law_newest_weight_is_one(decay: Num)
    ensures
        weight(decay, 0) == Num::spec_one(),
{
}

/// Under a decay of at least zero and below one the most recent sample has
/// strictly the largest weight: every older sample weighs less than one.
pub proof fn law_newest_weight_is_largest(decay: Num, age: nat)
    requires
        fades(decay),
        age >= 1,
    ensures
        weight(decay, age).spec_lt(weight(decay, 0)),
{
}

/// A decay below one that is not negative makes older samples fade; so does
/// every decay that was set and is below one.
pub proof fn law_set_decay_fades(decay: Num)
    ensures
        clamped(decay).spec_lt(Num::spec_one()) ==> fades(clamped(decay)),
{
}

/// Any push on a sharp cell leaves exactly one sample, however many there
/// were: one number, one boolean, and at most one character at each position
/// of a text, exactly one where the text holds no space.
pub proof fn law_sharp_push_keeps_one(cell: BlurView, sample: Num, flag: bool, text: Seq<char>)
    requires
        cell.sharp,
    ensures
        cell.pushed(sample).history == seq![sample],
        cell.pushed(sample).history.len() == 1,
        cell.pushed_bool(flag).bool_history == seq![flag],
        cell.pushed_bool(flag).bool_history.len() == 1,
        forall|i: int|
            0 <= i < cell.pushed_string(text).string_history.len() ==> (
            #[trigger] cell.pushed_string(text).string_history[i]).len() == if text[i] != ' ' {
                1nat
            } else {
                0nat
            },
{
    lemma_reach_bound(text, text.len());
}

/// A boolean history of which at least half is true projects to true when
/// there is no decay; so does one of which exactly half is true.
pub proof fn law_half_true_is_true(samples: Seq<bool>, decay: Num)
    requires
        is_pure(decay),
        samples.len() > 0,
    ensures
        bool_projection(samples, decay) == (2 * count_true(samples) >= samples.len()),
        2 * count_true(samples) == samples.len() ==> bool_projection(samples, decay),
{
}

/// An index below zero or not below the size of an array fails with the
/// offending index and the size, on a read, on a copy and on an update, and
/// leaves the state as it was.
pub proof fn law_index_out_of_bounds(st: StateView, name: Seq<char>, index: i64, update: UpdateView)
    requires
        array_home(st.scopes, name) is Some,
        st.scopes[array_home(st.scopes, name)->0].arrays[name].len() <= usize::MAX,
        index < 0 || index >= st.scopes[array_home(st.scopes, name)->0].arrays[name].len(),
    ensures
        ({
            let size = st.scopes[array_home(st.scopes, name)->0].arrays[name].len() as usize;
            let error = ErrorView::IndexOutOfBounds { index, size };
            &&& st.read_cell(name, index) == Err::<ValueView, ErrorView>(error)
            &&& st.copy_cell(name, index) == Err::<BlurView, ErrorView>(error)
            &&& st.updated_cell(name, index, update) == (st, Err::<ValueView, ErrorView>(error))
            &&& st.post_stepped_cell(name, index, true) == (st, Err::<ValueView, ErrorView>(error))
        }),
{
}

/// An index within an array never fails for its place.
pub proof fn law_index_in_bounds(st: StateView, name: Seq<char>, index: i64)
    requires
        array_home(st.scopes, name) is Some,
        0 <= index < st.scopes[array_home(st.scopes, name)->0].arrays[name].len(),
    ensures
        st.read_cell(name, index) is Ok,
        st.copy_cell(name, index) == Ok::<BlurView, ErrorView>(
            st.scopes[array_home(st.scopes, name)->0].arrays[name][index as int],
        ),
{
}

/// Division and remainder fail with `DivisionByZero` exactly when the right
/// operand's number equals zero, as binary operators and as compound
/// assignments.
pub proof fn law_division_by_zero(left: ValueView, right: ValueView, current: Num)
    ensures
        right.to_num().spec_same(Num::spec_zero()) ==> {
            &&& binop_result(left, BinOp::Div, right) == Err::<ValueView, ErrorView>(
                ErrorView::DivisionByZero,
            )
            &&& binop_result(left, BinOp::Mod, right) == Err::<ValueView, ErrorView>(
                ErrorView::DivisionByZero,
            )
            &&& compound_result(CompoundOp::DivAssign, current, right.to_num()) == Err::<
                Num,
                ErrorView,
            >(ErrorView::DivisionByZero)
            &&& compound_result(CompoundOp::ModAssign, current, right.to_num()) == Err::<
                Num,
                ErrorView,
            >(ErrorView::DivisionByZero)
        },
        !right.to_num().spec_same(Num::spec_zero()) ==> {
            &&& binop_result(left, BinOp::Div, right) is Ok
            &&& binop_result(left, BinOp::Mod, right) is Ok
            &&& compound_result(CompoundOp::DivAssign, current, right.to_num()) is Ok
            &&& compound_result(CompoundOp::ModAssign, current, right.to_num()) is Ok
        },
{
}

/// Both zeros equal zero, and nothing else does.
pub proof fn law_zero_is_zero(x: Num)
    ensures
        x.spec_same(Num::spec_zero()) == (x.bits == 0 || x.bits == crate::number::SIGN_BIT),
{
}

/// A literal evaluates to itself and a variable to what it shows, and the
/// state is left as it was; a step of a variable records one more or one less
/// than its raw average, and gives what the variable shows after it as a
/// prefix, before it as a postfix. None of them needs fuel.
pub proof fn law_simple_expressions(
    funcs: Functions,
    st: StateView,
    fuel: nat,
    n: i64,
    x: Num,
    b: bool,
    c: char,
    text: Seq<char>,
    name: Seq<char>,
)
    ensures
        eval(funcs, ExprView::IntLit(n), st, fuel) == (st, Ok::<ValueView, ErrorView>(ValueView::Int(n))),
        eval(funcs, ExprView::FloatLit(x), st, fuel) == (
            st,
            Ok::<ValueView, ErrorView>(ValueView::Float(x)),
        ),
        eval(funcs, ExprView::BoolLit(b), st, fuel) == (
            st,
            Ok::<ValueView, ErrorView>(ValueView::Bool(b)),
        ),
        eval(funcs, ExprView::CharLit(c), st, fuel) == (
            st,
            Ok::<ValueView, ErrorView>(ValueView::Char(c)),
        ),
        eval(funcs, ExprView::StringLit(text), st, fuel) == (
            st,
            Ok::<ValueView, ErrorView>(ValueView::String(text)),
        ),
        eval(funcs, ExprView::Var(name), st, fuel) == (st, st.read_var(name)),
        eval(funcs, ExprView::PreIncrement(name), st, fuel) == st.updated_var(
            name,
            UpdateView::Step(true),
        ),
        eval(funcs, ExprView::PreDecrement(name), st, fuel) == st.updated_var(
            name,
            UpdateView::Step(false),
        ),
        eval(funcs, ExprView::PostIncrement(name), st, fuel) == st.post_stepped_var(name, true),
        eval(funcs, ExprView::PostDecrement(name), st, fuel) == st.post_stepped_var(name, false),
{
}

/// A negation gives a float whatever it is applied to, an integer too.
pub proof fn law_negation_is_a_float(value: ValueView)
    ensures
        unary_result(UnaryOp::Neg, value) is Float,
        unary_result(UnaryOp::Not, value) is Bool,
{
}

/// A variable that is passed as an argument is handed over as a copy of its
/// cell, with its whole history, and the state is left as it was, whatever
/// the fuel.
pub proof fn law_argument_carries_history(
    funcs: Functions,
    name: Seq<char>,
    st: StateView,
    fuel: nat,
)
    ensures
        eval_cell(funcs, ExprView::Var(name), st, fuel) == (st, st.copy_var(name)),
        var_home(st.scopes, name) matches Some(home) ==> st.copy_var(name) == Ok::<
            BlurView,
            ErrorView,
        >(st.scopes[home].vars[name]),
{
}

/// A parameter is bound to its argument's cell in the scope of the call, and
/// an update of the parameter changes that scope alone: the scopes of the
/// caller are as they were, whatever the parameter is called, and are all
/// that is left when the call's scope is closed.
pub proof fn law_parameter_is_a_copy(
    st: StateView,
    parameter: Seq<char>,
    cell: BlurView,
    update: UpdateView,
)
    ensures
        ({
            let callee = st.pushed_scope().declared_var(parameter, cell);
            let after = callee.updated_var(parameter, update).0;
            &&& callee.copy_var(parameter) == Ok::<BlurView, ErrorView>(cell)
            &&& callee.copy_var(parameter)->Ok_0.history.len() == cell.history.len()
            &&& after.scopes.len() == st.scopes.len() + 1
            &&& after.scopes.take(st.scopes.len() as int) == st.scopes
            &&& after.popped_scope().scopes == st.scopes
            &&& callee.popped_scope().scopes == st.scopes
        }),
{
    let callee = st.pushed_scope().declared_var(parameter, cell);
    let top = st.scopes.len() as int;
    assert(callee.scopes.len() == top + 1);
    assert(callee.scopes.last().vars.contains_key(parameter));
    assert(var_home(callee.scopes, parameter) == Some(top));
    assert(callee.scopes[top].vars[parameter] == cell);
    let after = callee.updated_var(parameter, update).0;
    assert(after.scopes.take(top) =~= st.scopes);
    assert(after.popped_scope().scopes =~= st.scopes);
    assert(callee.popped_scope().scopes =~= st.scopes);
}

/// An update of a variable changes the innermost scope that declares it and
/// no other, and in that scope no other variable and no array.
pub proof fn law_update_is_local(st: StateView, name: Seq<char>, update: UpdateView)
    ensures
        ({
            let after = st.updated_var(name, update).0;
            &&& after.scopes.len() == st.scopes.len()
            &&& after.decay == st.decay
            &&& after.output == st.output
            &&& forall|s: int|
                0 <= s < st.scopes.len() && var_home(st.scopes, name) != Some(s) ==> after.scopes[s]
                    == st.scopes[s]
            &&& var_home(st.scopes, name) matches Some(home) ==> {
                &&& after.scopes[home].arrays == st.scopes[home].arrays
                &&& after.scopes[home].vars.remove(name) == st.scopes[home].vars.remove(name)
            }
        }),
{
    lemma_var_home_in_range(st.scopes, name);
    let after = st.updated_var(name, update).0;
    match var_home(st.scopes, name) {
        Some(home) => {
            assert(after.scopes[home].vars.remove(name) =~= st.scopes[home].vars.remove(name));
        },
        None => {},
    }
}

/// The innermost scope that declares a variable is one of the scopes, it
/// declares the variable, and no scope within it does.
pub proof fn lemma_var_home_in_range(scopes: Seq<crate::scope::ScopeView>, name: Seq<char>)
    ensures
        var_home(scopes, name) matches Some(home) ==> {
            &&& 0 <= home < scopes.len()
            &&& scopes[home].vars.contains_key(name)
            &&& forall|s: int| home < s < scopes.len() ==> !scopes[s].vars.contains_key(name)
        },
        var_home(scopes, name) is None ==> forall|s: int|
            0 <= s < scopes.len() ==> !scopes[s].vars.contains_key(name),
    decreases scopes.len(),
{
    if scopes.len() > 0 && !scopes.last().vars.contains_key(name) {
        lemma_var_home_in_range(scopes.drop_last(), name);
        assert forall|s: int| 0 <= s < scopes.len() - 1 implies scopes[s] == scopes.drop_last()[s] by {}
    }
}

/// A plain `for` loop that has made all its turns ends with a warning instead
/// of another turn, whatever its condition says and however much fuel is
/// left; what the turns before have done stays.
pub proof fn law_loop_is_capped(
    funcs: Functions,
    condition: Option<ExprView>,
    update: Option<Box<StmtView>>,
    body: StmtView,
    done: nat,
    st: StateView,
    fuel: nat,
)
    requires
        done >= MAX_ITERATIONS,
    ensures
        loop_for(funcs, condition, update, body, true, done, st, fuel) == (
            st.emitted(EmitView::Warning(loop_warning())),
            Ok::<FlowView, ErrorView>(FlowView::Proceed),
        ),
{
}

/// Before the cap a `for` loop with fuel makes a turn, and goes on with one
/// turn more on its count where the turn says so. A sharp loop does so after
/// any number of turns.
pub proof fn law_loop_makes_a_turn(
    funcs: Functions,
    condition: Option<ExprView>,
    update: Option<Box<StmtView>>,
    body: StmtView,
    capped: bool,
    done: nat,
    st: StateView,
    fuel: nat,
)
    requires
        fuel > 0,
        !capped || done < MAX_ITERATIONS,
    ensures
        ({
            let (st1, r1) = turn(funcs, condition, update, body, st, (fuel - 1) as nat);
            loop_for(funcs, condition, update, body, capped, done, st, fuel) == match r1 {
                Ok(None) => loop_for(
                    funcs,
                    condition,
                    update,
                    body,
                    capped,
                    done + 1,
                    st1,
                    (fuel - 1) as nat,
                ),
                Ok(Some(flow)) => (st1, Ok::<FlowView, ErrorView>(flow)),
                Err(e) => (st1, Err::<FlowView, ErrorView>(e)),
            }
        }),
{
}

/// The state after `k` turns of a loop that all say that the loop goes on;
/// none where a turn ends the loop, fails, or lacks fuel.
pub open spec fn after_turns(
    funcs: Functions,
    condition: Option<ExprView>,
    update: Option<Box<StmtView>>,
    body: StmtView,
    st: StateView,
    fuel: nat,
    k: nat,
) -> Option<StateView>
    decreases k,
{
    if k == 0 {
        Some(st)
    } else if fuel == 0 {
        None
    } else {
        match turn(funcs, condition, update, body, st, (fuel - 1) as nat) {
            (st1, Ok(None)) => after_turns(
                funcs,
                condition,
                update,
                body,
                st1,
                (fuel - 1) as nat,
                (k - 1) as nat,
            ),
            _ => None,
        }
    }
}

/// A plain `for` loop whose turns all go on stops after exactly as many turns
/// as are left up to the cap, with a warning, and keeps what those turns have
/// done: from the start that is after exactly a thousand turns.
pub proof fn law_plain_loop_stops_at_the_cap(
    funcs: Functions,
    condition: Option<ExprView>,
    update: Option<Box<StmtView>>,
    body: StmtView,
    done: nat,
    st: StateView,
    fuel: nat,
    k: nat,
)
    requires
        done + k == MAX_ITERATIONS,
        after_turns(funcs, condition, update, body, st, fuel, k) is Some,
    ensures
        loop_for(funcs, condition, update, body, true, done, st, fuel) == (
            after_turns(funcs, condition, update, body, st, fuel, k)->0.emitted(
                EmitView::Warning(loop_warning()),
            ),
            Ok::<FlowView, ErrorView>(FlowView::Proceed),
        ),
    decreases k,
{
    if k > 0 {
        let (st1, r1) = turn(funcs, condition, update, body, st, (fuel - 1) as nat);
        law_plain_loop_stops_at_the_cap(
            funcs,
            condition,
            update,
            body,
            done + 1,
            st1,
            (fuel - 1) as nat,
            (k - 1) as nat,
        );
    }
}

/// A sharp `for` loop is never capped: after any number of turns that go on
/// it goes on with the turn after them.
pub proof fn law_sharp_loop_is_not_capped(
    funcs: Functions,
    condition: Option<ExprView>,
    update: Option<Box<StmtView>>,
    body: StmtView,
    done: nat,
    st: StateView,
    fuel: nat,
    k: nat,
)
    requires
        after_turns(funcs, condition, update, body, st, fuel, k) is Some,
    ensures
        k <= fuel,
        loop_for(funcs, condition, update, body, false, done, st, fuel) == loop_for(
            funcs,
            condition,
            update,
            body,
            false,
            done + k,
            after_turns(funcs, condition, update, body, st, fuel, k)->0,
            (fuel - k) as nat,
        ),
    decreases k,
{
    if k > 0 {
        let (st1, r1) = turn(funcs, condition, update, body, st, (fuel - 1) as nat);
        law_sharp_loop_is_not_capped(
            funcs,
            condition,
            update,
            body,
            done + 1,
            st1,
            (fuel - 1) as nat,
            (k - 1) as nat,
        );
    }
}

} // verus!
