//! The interpreter: the registered functions, the state of the run, and the
//! fuel that every evaluation is given.

use crate::ast::{functions_view, Expr, Function, Program, Stmt};
use crate::error::{ErrorView, ParseError, ParseErrorView, RuntimeError};
use crate::eval;
use crate::eval::{flow_result, registry, ControlFlow};
use crate::history::BlurValue;
use crate::number::Num;
use crate::scope::cells_view;
use crate::semantics;
use crate::semantics::balanced;
use crate::state::{value_result, Emit, EmitView, State, StateView};
use crate::scope::ScopeView;
use crate::grammar;
use crate::lexer::lex;
use crate::parser::Parser;
use crate::table::Table;
use crate::value::ValueView;
use crate::value::Value;
use vstd::prelude::*;

verus! {

/// The pattern of the decay that a new interpreter starts with, `0.9`.
pub const DEFAULT_DECAY_BITS: u64 = 0x3FEC_CCCC_CCCC_CCCD;

/// The fuel that a new interpreter gives to every evaluation.
pub const DEFAULT_FUEL: u64 = 0xFFFF_FFFF_FFFF_FFFF;

/// A decay as it is kept: a number below zero counts as zero and one above
/// one as one. A NaN is kept as it is.
pub open spec fn clamped(decay: Num) -> Num {
    if decay.spec_lt(Num::spec_zero()) {
        Num::spec_zero()
    } else if Num::spec_one().spec_lt(decay) {
        Num::spec_one()
    } else {
        decay
    }
}

/// Sets the decay of a state, clamped to `0.0..=1.0`. Every later projection
/// goes by it.
pub fn set_decay(state: &mut State, decay: Num)
    ensures
        final(state)@ == (StateView { decay: clamped(decay), ..old(state)@ }),
{
    if decay.lt(Num::zero()) {
        state.decay = Num::zero();
    } else if Num::one().lt(decay) {
        state.decay = Num::one();
    } else {
        state.decay = decay;
    }
}

/// The decay of a state.
pub fn get_decay(state: &State) -> (r: Num)
    ensures
        r == state@.decay,
{
    state.decay
}

/// Why a source did not run to its end.
#[derive(Debug, Clone, PartialEq)]
pub enum Failure {
    /// The source is no program.
    Parse(ParseError),
    /// The program failed while it ran.
    Runtime(RuntimeError),
}

/// The mathematical content of a [`Failure`].
pub enum FailureView {
    Parse(ParseErrorView),
    Runtime(ErrorView),
}

impl View for Failure {
    type V = FailureView;

    open spec fn view(&self) -> FailureView {
        match self {
            Failure::Parse(e) => FailureView::Parse(e@),
            Failure::Runtime(e) => FailureView::Runtime(e@),
        }
    }
}

/// What a source gives, or why it failed, as a result over views.
pub open spec fn source_result(r: Result<Value, Failure>) -> Result<ValueView, FailureView> {
    match r {
        Ok(v) => Ok(v@),
        Err(e) => Err(e@),
    }
}

/// What running a source leads to: a source that does not parse changes
/// nothing, a program is run.
pub open spec fn run_source(
    funcs: semantics::Functions,
    source: Seq<char>,
    st: StateView,
    fuel: nat,
) -> (semantics::Functions, StateView, Result<ValueView, FailureView>) {
    match grammar::parse_program(lex(source)).1 {
        Ok(program) => {
            let (st1, r1) = semantics::run(funcs, program, st, fuel);
            (
                semantics::registered(funcs, program),
                st1,
                match r1 {
                    Ok(v) => Ok(v),
                    Err(e) => Err(FailureView::Runtime(e)),
                },
            )
        },
        Err(e) => (funcs, st, Err(FailureView::Parse(e))),
    }
}

/// The Blur interpreter.
#[derive(Debug)]
pub struct Interpreter {
    /// The functions that can be called, by name.
    pub functions: Table<Function>,
    /// The scopes, the decay and the output.
    pub state: State,
    /// The fuel that each evaluation is given: a bound on how deep it nests.
    pub fuel: u64,
}

impl Interpreter {
    /// An interpreter without functions, with one empty scope, the decay
    /// `0.9` and all the fuel there is.
    pub fn new() -> (r: Interpreter)
        ensures
            r.functions@ == Map::<Seq<char>, Function>::empty(),
            r.state@ == (StateView {
                scopes: seq![ScopeView::empty()],
                decay: Num { bits: DEFAULT_DECAY_BITS },
                output: Seq::<EmitView>::empty(),
            }),
            r.fuel == DEFAULT_FUEL,
    {
        Interpreter {
            functions: Table::new(),
            state: State::new(Num::from_bits(DEFAULT_DECAY_BITS)),
            fuel: DEFAULT_FUEL,
        }
    }

    /// Registers a function, in place of one of the same name.
    pub fn register(&mut self, function: Function)
        ensures
            final(self).functions@ == old(self).functions@.insert(function.name@, function),
            registry(&final(self).functions) == registry(&old(self).functions).insert(
                function.name@,
                function@,
            ),
            final(self).state == old(self).state,
            final(self).fuel == old(self).fuel,
    {
        let name: String = function.name.clone();
        self.functions.insert(name, function);
        assert(registry(&self.functions) =~= registry(&old(self).functions).insert(
            function.name@,
            function@,
        ));
    }

    /// Registers the functions of a program, then calls `blur` without
    /// arguments if it is registered. Without it the run gives void.
    pub fn run(&mut self, program: Program) -> (r: Result<Value, RuntimeError>)
        requires
            old(self).state@.scopes.len() > 0,
        ensures
            registry(&final(self).functions) == semantics::registered(
                registry(&old(self).functions),
                functions_view(program.functions@),
            ),
            final(self).fuel == old(self).fuel,
            final(self).state@ == semantics::run(
                registry(&old(self).functions),
                functions_view(program.functions@),
                old(self).state@,
                old(self).fuel as nat,
            ).0,
            value_result(r) == semantics::run(
                registry(&old(self).functions),
                functions_view(program.functions@),
                old(self).state@,
                old(self).fuel as nat,
            ).1,
            balanced(old(self).state@, final(self).state@, r is Ok),
    {
        let mut rest: Vec<Function> = program.functions;
        let ghost all: Seq<Function> = rest@;
        let total: usize = rest.len();
        let mut count: usize = 0;
        assert(functions_view(all.take(0)) =~= Seq::<crate::ast::FunctionView>::empty());
        while rest.len() > 0
            invariant
                all.len() == total,
                count + rest@.len() == all.len(),
                rest@ == all.skip(count as int),
                registry(&self.functions) == semantics::registered(
                    registry(&old(self).functions),
                    functions_view(all.take(count as int)),
                ),
                self.state == old(self).state,
                self.fuel == old(self).fuel,
            decreases rest.len(),
        {
            let function: Function = rest.remove(0);
            assert(function == all[count as int]);
            assert(functions_view(all.take(count + 1)).drop_last() =~= functions_view(
                all.take(count as int),
            ));
            assert(functions_view(all.take(count + 1)).last() == function@);
            assert(rest@ =~= all.skip(count + 1));
            self.register(function);
            count += 1;
        }
        assert(all.take(count as int) =~= all);
        if self.functions.contains("blur") {
            let none: Vec<BlurValue> = Vec::new();
            assert(cells_view(none@) =~= Seq::<crate::history::BlurView>::empty());
            self.call_function("blur", none)
        } else {
            Ok(Value::Void)
        }
    }

    /// Reads a source as a program and runs it.
    pub fn run_source(&mut self, source: &str) -> (r: Result<Value, Failure>)
        requires
            old(self).state@.scopes.len() > 0,
        ensures
            final(self).fuel == old(self).fuel,
            registry(&final(self).functions) == run_source(
                registry(&old(self).functions),
                source@,
                old(self).state@,
                old(self).fuel as nat,
            ).0,
            final(self).state@ == run_source(
                registry(&old(self).functions),
                source@,
                old(self).state@,
                old(self).fuel as nat,
            ).1,
            source_result(r) == run_source(
                registry(&old(self).functions),
                source@,
                old(self).state@,
                old(self).fuel as nat,
            ).2,
    {
        let mut parser: Parser = Parser::new(source);
        match parser.parse_program() {
            Ok(program) => match self.run(program) {
                Ok(value) => Ok(value),
                Err(e) => Err(Failure::Runtime(e)),
            },
            Err(e) => Err(Failure::Parse(e)),
        }
    }

    /// Calls a registered function on cells.
    pub fn call_function(&mut self, name: &str, args: Vec<BlurValue>) -> (r: Result<
        Value,
        RuntimeError,
    >)
        requires
            old(self).state@.scopes.len() > 0,
        ensures
            final(self).functions == old(self).functions,
            final(self).fuel == old(self).fuel,
            final(self).state@ == semantics::call(
                registry(&old(self).functions),
                name@,
                cells_view(args@),
                old(self).state@,
                old(self).fuel as nat,
            ).0,
            value_result(r) == semantics::call(
                registry(&old(self).functions),
                name@,
                cells_view(args@),
                old(self).state@,
                old(self).fuel as nat,
            ).1,
            balanced(old(self).state@, final(self).state@, r is Ok),
    {
        let fuel: u64 = self.fuel;
        eval::call_function(&self.functions, &mut self.state, name, args, fuel)
    }

    /// Runs a statement.
    pub fn exec_stmt(&mut self, stmt: &Stmt) -> (r: Result<ControlFlow, RuntimeError>)
        requires
            old(self).state@.scopes.len() > 0,
        ensures
            final(self).functions == old(self).functions,
            final(self).fuel == old(self).fuel,
            final(self).state@ == semantics::exec(
                registry(&old(self).functions),
                stmt@,
                old(self).state@,
                old(self).fuel as nat,
            ).0,
            flow_result(r) == semantics::exec(
                registry(&old(self).functions),
                stmt@,
                old(self).state@,
                old(self).fuel as nat,
            ).1,
            balanced(old(self).state@, final(self).state@, r is Ok),
    {
        let fuel: u64 = self.fuel;
        eval::exec_stmt(&self.functions, &mut self.state, stmt, fuel)
    }

    /// Evaluates an expression.
    pub fn eval_expr(&mut self, expr: &Expr) -> (r: Result<Value, RuntimeError>)
        requires
            old(self).state@.scopes.len() > 0,
        ensures
            final(self).functions == old(self).functions,
            final(self).fuel == old(self).fuel,
            final(self).state@ == semantics::eval(
                registry(&old(self).functions),
                expr@,
                old(self).state@,
                old(self).fuel as nat,
            ).0,
            value_result(r) == semantics::eval(
                registry(&old(self).functions),
                expr@,
                old(self).state@,
                old(self).fuel as nat,
            ).1,
            balanced(old(self).state@, final(self).state@, r is Ok),
    {
        let fuel: u64 = self.fuel;
        eval::eval_expr(&self.functions, &mut self.state, expr, fuel)
    }

    /// Hands over what was printed since the output was last taken.
    pub fn take_output(&mut self) -> (r: Vec<Emit>)
        ensures
            r == old(self).state.output,
            final(self).state.output@.len() == 0,
            final(self).state.scopes == old(self).state.scopes,
            final(self).state.decay == old(self).state.decay,
            final(self).functions == old(self).functions,
            final(self).fuel == old(self).fuel,
    {
        let mut taken: Vec<Emit> = Vec::new();
        core::mem::swap(&mut taken, &mut self.state.output);
        taken
    }
}

} // verus!
