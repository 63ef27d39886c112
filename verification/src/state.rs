//! What a run changes: the stack of scopes, the decay and what was printed.

use crate::error::{ErrorView, RuntimeError};
use crate::history::{BlurValue, BlurView};
use crate::number::Num;
use crate::scope::{cells_view, Scope, ScopeView};
use crate::table::{is_first, lemma_replace};
use crate::update::{Update, UpdateView};
use crate::value::{Value, ValueView};
use vstd::prelude::*;

verus! {

/// One thing that a run hands to the outside.
#[derive(Debug, Clone, PartialEq)]
pub enum Emit {
    /// A line for the standard output.
    Line(String),
    /// A warning for the standard error.
    Warning(String),
}

/// The mathematical content of an [`Emit`].
pub enum EmitView {
    Line(Seq<char>),
    Warning(Seq<char>),
}

impl View for Emit {
    type V = EmitView;

    open spec fn view(&self) -> EmitView {
        match self {
            Emit::Line(text) => EmitView::Line(text@),
            Emit::Warning(text) => EmitView::Warning(text@),
        }
    }
}

/// The state of a run.
#[derive(Debug)]
pub struct State {
    /// The scopes, the innermost last.
    pub scopes: Vec<Scope>,
    /// The weight that one step of age takes from a sample.
    pub decay: Num,
    /// What was printed and not yet taken.
    pub output: Vec<Emit>,
}

/// The mathematical content of a [`State`].
pub struct StateView {
    pub scopes: Seq<ScopeView>,
    pub decay: Num,
    pub output: Seq<EmitView>,
}

impl View for State {
    type V = StateView;

    open spec fn view(&self) -> StateView {
        StateView {
            scopes: Seq::new(self.scopes@.len(), |i: int| self.scopes@[i]@),
            decay: self.decay,
            output: Seq::new(self.output@.len(), |i: int| self.output@[i]@),
        }
    }
}

/// The innermost scope that declares a variable.
pub open spec fn var_home(scopes: Seq<ScopeView>, name: Seq<char>) -> Option<int>
    decreases scopes.len(),
{
    if scopes.len() == 0 {
        None
    } else if scopes.last().vars.contains_key(name) {
        Some(scopes.len() - 1)
    } else {
        var_home(scopes.drop_last(), name)
    }
}

/// The innermost scope that declares an array.
pub open spec fn array_home(scopes: Seq<ScopeView>, name: Seq<char>) -> Option<int>
    decreases scopes.len(),
{
    if scopes.len() == 0 {
        None
    } else if scopes.last().arrays.contains_key(name) {
        Some(scopes.len() - 1)
    } else {
        array_home(scopes.drop_last(), name)
    }
}

/// The place of an index in an array of a size, or the error of an index
/// outside of it.
pub open spec fn checked_index(index: i64, size: nat) -> Result<int, ErrorView> {
    if index < 0 || index >= size {
        Err(ErrorView::IndexOutOfBounds { index, size: size as usize })
    } else {
        Ok(index as int)
    }
}

/// A result of the library as a result over views.
pub open spec fn value_result(r: Result<Value, RuntimeError>) -> Result<ValueView, ErrorView> {
    match r {
        Ok(v) => Ok(v@),
        Err(e) => Err(e@),
    }
}

/// A copied cell, or an error, as a result over views.
pub open spec fn cell_result(r: Result<BlurValue, RuntimeError>) -> Result<BlurView, ErrorView> {
    match r {
        Ok(v) => Ok(v@),
        Err(e) => Err(e@),
    }
}

impl StateView {
    /// The state with one more, empty scope.
    pub open spec fn pushed_scope(self) -> StateView {
        StateView { scopes: self.scopes.push(ScopeView::empty()), ..self }
    }

    /// The state without its innermost scope.
    pub open spec fn popped_scope(self) -> StateView {
        if self.scopes.len() == 0 {
            self
        } else {
            StateView { scopes: self.scopes.drop_last(), ..self }
        }
    }

    /// The state with one more thing printed.
    pub open spec fn emitted(self, emit: EmitView) -> StateView {
        StateView { output: self.output.push(emit), ..self }
    }

    /// The state with a variable bound in its innermost scope.
    pub open spec fn declared_var(self, name: Seq<char>, cell: BlurView) -> StateView {
        self.with_var(self.scopes.len() - 1, name, cell)
    }

    /// The state with an array bound in its innermost scope.
    pub open spec fn declared_array(self, name: Seq<char>, cells: Seq<BlurView>) -> StateView {
        self.with_array(self.scopes.len() - 1, name, cells)
    }

    /// The state with a variable bound in the scope `s`.
    pub open spec fn with_var(self, s: int, name: Seq<char>, cell: BlurView) -> StateView {
        StateView {
            scopes: self.scopes.update(
                s,
                ScopeView { vars: self.scopes[s].vars.insert(name, cell), ..self.scopes[s] },
            ),
            ..self
        }
    }

    /// The state with an array bound in the scope `s`.
    pub open spec fn with_array(self, s: int, name: Seq<char>, cells: Seq<BlurView>) -> StateView {
        StateView {
            scopes: self.scopes.update(
                s,
                ScopeView { arrays: self.scopes[s].arrays.insert(name, cells), ..self.scopes[s] },
            ),
            ..self
        }
    }

    /// The cell of a variable, or the error of a name that no scope declares.
    pub open spec fn copy_var(self, name: Seq<char>) -> Result<BlurView, ErrorView> {
        match var_home(self.scopes, name) {
            Some(s) => Ok(self.scopes[s].vars[name]),
            None => Err(ErrorView::UndefinedVar(name)),
        }
    }

    /// The value that a variable shows.
    pub open spec fn read_var(self, name: Seq<char>) -> Result<ValueView, ErrorView> {
        match self.copy_var(name) {
            Ok(cell) => Ok(cell.projection(self.decay)),
            Err(e) => Err(e),
        }
    }

    /// The cell of an array element, or the error of an undeclared array or
    /// of an index outside of it.
    pub open spec fn copy_cell(self, name: Seq<char>, index: i64) -> Result<BlurView, ErrorView> {
        match array_home(self.scopes, name) {
            Some(s) => {
                let cells = self.scopes[s].arrays[name];
                match checked_index(index, cells.len()) {
                    Ok(i) => Ok(cells[i]),
                    Err(e) => Err(e),
                }
            },
            None => Err(ErrorView::UndefinedVar(name)),
        }
    }

    /// The value that an array element shows.
    pub open spec fn read_cell(self, name: Seq<char>, index: i64) -> Result<ValueView, ErrorView> {
        match self.copy_cell(name, index) {
            Ok(cell) => Ok(cell.projection(self.decay)),
            Err(e) => Err(e),
        }
    }

    /// The state after a variable's history was extended, and the value that
    /// the variable shows then; or the state as it was, and the error.
    pub open spec fn updated_var(self, name: Seq<char>, update: UpdateView) -> (
        StateView,
        Result<ValueView, ErrorView>,
    ) {
        match var_home(self.scopes, name) {
            Some(s) => match self.scopes[s].vars[name].applied(update, self.decay) {
                Ok(cell) => (self.with_var(s, name, cell), Ok(cell.projection(self.decay))),
                Err(e) => (self, Err(e)),
            },
            None => (self, Err(ErrorView::UndefinedVar(name))),
        }
    }

    /// The state after a postfix step of a variable, and the value that the
    /// variable showed before.
    pub open spec fn post_stepped_var(self, name: Seq<char>, up: bool) -> (
        StateView,
        Result<ValueView, ErrorView>,
    ) {
        match self.read_var(name) {
            Ok(before) => (self.updated_var(name, UpdateView::Step(up)).0, Ok(before)),
            Err(e) => (self, Err(e)),
        }
    }

    /// The state after a postfix step of an array element, and the value that
    /// the element showed before.
    pub open spec fn post_stepped_cell(self, name: Seq<char>, index: i64, up: bool) -> (
        StateView,
        Result<ValueView, ErrorView>,
    ) {
        match self.read_cell(name, index) {
            Ok(before) => (self.updated_cell(name, index, UpdateView::Step(up)).0, Ok(before)),
            Err(e) => (self, Err(e)),
        }
    }

    /// The state after an array element's history was extended, and the value
    /// that the element shows then; or the state as it was, and the error.
    pub open spec fn updated_cell(self, name: Seq<char>, index: i64, update: UpdateView) -> (
        StateView,
        Result<ValueView, ErrorView>,
    ) {
        match array_home(self.scopes, name) {
            Some(s) => {
                let cells = self.scopes[s].arrays[name];
                match checked_index(index, cells.len()) {
                    Ok(i) => match cells[i].applied(update, self.decay) {
                        Ok(cell) => (
                            self.with_array(s, name, cells.update(i, cell)),
                            Ok(cell.projection(self.decay)),
                        ),
                        Err(e) => (self, Err(e)),
                    },
                    Err(e) => (self, Err(e)),
                }
            },
            None => (self, Err(ErrorView::UndefinedVar(name))),
        }
    }
}

/// The place of an index in an array of a size.
pub fn check_index(index: i64, size: usize) -> (r: Result<usize, RuntimeError>)
    ensures
        match r {
            Ok(i) => checked_index(index, size as nat) == Ok::<int, ErrorView>(i as int),
            Err(e) => checked_index(index, size as nat) == Err::<int, ErrorView>(e@),
        },
{
    if index < 0 || index as u64 >= size as u64 {
        Err(RuntimeError::IndexOutOfBounds { index, size })
    } else {
        Ok(index as usize)
    }
}

impl State {
    /// A state of one empty scope, with nothing printed.
    pub fn new(decay: Num) -> (r: State)
        ensures
            r@ == (StateView { scopes: seq![ScopeView::empty()], decay, output: Seq::empty() }),
    {
        let mut scopes: Vec<Scope> = Vec::new();
        scopes.push(Scope::new());
        let r = State { scopes, decay, output: Vec::new() };
        assert(r@.scopes =~= seq![ScopeView::empty()]);
        assert(r@.output =~= Seq::<EmitView>::empty());
        r
    }

    /// Opens a scope.
    pub fn push_scope(&mut self)
        ensures
            final(self)@ == old(self)@.pushed_scope(),
            final(self)@.scopes.len() == old(self)@.scopes.len() + 1,
    {
        self.scopes.push(Scope::new());
        assert(self@.scopes =~= old(self)@.pushed_scope().scopes);
        assert(self@.output =~= old(self)@.output);
    }

    /// Closes the innermost scope, with all that it declares.
    pub fn pop_scope(&mut self)
        ensures
            final(self)@ == old(self)@.popped_scope(),
            old(self)@.scopes.len() > 0 ==> final(self)@.scopes.len() == old(self)@.scopes.len() - 1,
    {
        self.scopes.pop();
        assert(self@.scopes =~= old(self)@.popped_scope().scopes);
        assert(self@.output =~= old(self)@.output);
    }

    /// Hands one thing to the outside.
    pub fn emit(&mut self, emit: Emit)
        ensures
            final(self)@ == old(self)@.emitted(emit@),
            final(self)@.scopes.len() == old(self)@.scopes.len(),
    {
        self.output.push(emit);
        assert(self@.output =~= old(self)@.emitted(emit@).output);
        assert(self@.scopes =~= old(self)@.scopes);
    }

    /// Binds a variable in the innermost scope.
    pub fn declare_var(&mut self, name: String, cell: BlurValue)
        requires
            old(self).scopes@.len() > 0,
        ensures
            final(self)@ == old(self)@.declared_var(name@, cell@),
            final(self)@.scopes.len() == old(self)@.scopes.len(),
    {
        let top: usize = self.scopes.len() - 1;
        self.scopes[top].declare_var(name, cell);
        assert(self@.scopes =~= old(self)@.declared_var(name@, cell@).scopes);
        assert(self@.output =~= old(self)@.output);
    }

    /// Binds an array in the innermost scope.
    pub fn declare_array(&mut self, name: String, cells: Vec<BlurValue>)
        requires
            old(self).scopes@.len() > 0,
        ensures
            final(self)@ == old(self)@.declared_array(name@, cells_view(cells@)),
            final(self)@.scopes.len() == old(self)@.scopes.len(),
    {
        let top: usize = self.scopes.len() - 1;
        self.scopes[top].declare_array(name, cells);
        assert(self@.scopes =~= old(self)@.declared_array(name@, cells_view(cells@)).scopes);
        assert(self@.output =~= old(self)@.output);
    }

    /// The scope and the entry of the innermost declaration of a variable.
    pub fn find_var(&self, name: &str) -> (r: Option<(usize, usize)>)
        ensures
            match r {
                Some((s, e)) => {
                    &&& var_home(self@.scopes, name@) == Some(s as int)
                    &&& s < self.scopes@.len()
                    &&& is_first(self.scopes@[s as int].vars.entries@, name@, e as int)
                    &&& self@.scopes[s as int].vars[name@] == self.scopes@[s as int].vars.entries@[e as int].value@
                },
                None => var_home(self@.scopes, name@) is None,
            },
    {
        let mut s: usize = self.scopes.len();
        assert(self@.scopes.take(s as int) =~= self@.scopes);
        while s > 0
            invariant
                s <= self.scopes@.len(),
                var_home(self@.scopes, name@) == var_home(self@.scopes.take(s as int), name@),
            decreases s,
        {
            assert(self@.scopes.take(s as int).last() == self.scopes@[s - 1]@);
            assert(self@.scopes.take(s as int).drop_last() =~= self@.scopes.take(s - 1));
            match self.scopes[s - 1].vars.find(name) {
                Some(e) => {
                    return Some((s - 1, e));
                },
                None => {},
            }
            s -= 1;
        }
        assert(self@.scopes.take(0) =~= Seq::<ScopeView>::empty());
        None
    }

    /// The scope and the entry of the innermost declaration of an array.
    pub fn find_array(&self, name: &str) -> (r: Option<(usize, usize)>)
        ensures
            match r {
                Some((s, e)) => {
                    &&& array_home(self@.scopes, name@) == Some(s as int)
                    &&& s < self.scopes@.len()
                    &&& is_first(self.scopes@[s as int].arrays.entries@, name@, e as int)
                    &&& self@.scopes[s as int].arrays[name@] == cells_view(
                        self.scopes@[s as int].arrays.entries@[e as int].value@,
                    )
                },
                None => array_home(self@.scopes, name@) is None,
            },
    {
        let mut s: usize = self.scopes.len();
        assert(self@.scopes.take(s as int) =~= self@.scopes);
        while s > 0
            invariant
                s <= self.scopes@.len(),
                array_home(self@.scopes, name@) == array_home(self@.scopes.take(s as int), name@),
            decreases s,
        {
            assert(self@.scopes.take(s as int).last() == self.scopes@[s - 1]@);
            assert(self@.scopes.take(s as int).drop_last() =~= self@.scopes.take(s - 1));
            match self.scopes[s - 1].arrays.find(name) {
                Some(e) => {
                    return Some((s - 1, e));
                },
                None => {},
            }
            s -= 1;
        }
        assert(self@.scopes.take(0) =~= Seq::<ScopeView>::empty());
        None
    }

    /// A copy of a variable's cell, with all of its samples.
    pub fn copy_var(&self, name: &str) -> (r: Result<BlurValue, RuntimeError>)
        ensures
            cell_result(r) == self@.copy_var(name@),
    {
        match self.find_var(name) {
            Some((s, e)) => Ok(self.scopes[s].vars.entries[e].value.duplicate()),
            None => Err(RuntimeError::UndefinedVar(name.to_owned())),
        }
    }

    /// The value that a variable shows.
    pub fn read_var(&self, name: &str) -> (r: Result<Value, RuntimeError>)
        ensures
            value_result(r) == self@.read_var(name@),
    {
        match self.find_var(name) {
            Some((s, e)) => Ok(self.scopes[s].vars.entries[e].value.get(self.decay)),
            None => Err(RuntimeError::UndefinedVar(name.to_owned())),
        }
    }

    /// A copy of an array element's cell, with all of its samples.
    pub fn copy_cell(&self, name: &str, index: i64) -> (r: Result<BlurValue, RuntimeError>)
        ensures
            cell_result(r) == self@.copy_cell(name@, index),
    {
        match self.find_array(name) {
            Some((s, e)) => {
                let cells: &Vec<BlurValue> = &self.scopes[s].arrays.entries[e].value;
                match check_index(index, cells.len()) {
                    Ok(i) => Ok(cells[i].duplicate()),
                    Err(err) => Err(err),
                }
            },
            None => Err(RuntimeError::UndefinedVar(name.to_owned())),
        }
    }

    /// The value that an array element shows.
    pub fn read_cell(&self, name: &str, index: i64) -> (r: Result<Value, RuntimeError>)
        ensures
            value_result(r) == self@.read_cell(name@, index),
    {
        match self.find_array(name) {
            Some((s, e)) => {
                let cells: &Vec<BlurValue> = &self.scopes[s].arrays.entries[e].value;
                match check_index(index, cells.len()) {
                    Ok(i) => Ok(cells[i].get(self.decay)),
                    Err(err) => Err(err),
                }
            },
            None => Err(RuntimeError::UndefinedVar(name.to_owned())),
        }
    }

    /// Extends the history of a variable and gives the value that it shows
    /// then. On an error nothing has changed.
    pub fn update_var(&mut self, name: &str, update: &Update) -> (r: Result<Value, RuntimeError>)
        ensures
            final(self)@ == old(self)@.updated_var(name@, update@).0,
            value_result(r) == old(self)@.updated_var(name@, update@).1,
            final(self)@.scopes.len() == old(self)@.scopes.len(),
    {
        match self.find_var(name) {
            Some((s, e)) => {
                let decay: Num = self.decay;
                match self.scopes[s].vars.entries[e].value.apply(update, decay) {
                    Ok(()) => {
                        proof {
                            lemma_replace(
                                old(self).scopes@[s as int].vars.entries@,
                                self.scopes@[s as int].vars.entries@,
                                name@,
                                e as int,
                            );
                            let cell = self.scopes@[s as int].vars.entries@[e as int].value@;
                            assert(self.scopes@[s as int]@.vars =~= old(self).scopes@[s as int]@.vars.insert(
                                name@,
                                cell,
                            ));
                            assert(self.scopes@[s as int]@.arrays == old(self).scopes@[s as int]@.arrays);
                            assert(self@.scopes =~= old(self)@.with_var(s as int, name@, cell).scopes);
                            assert(self@.output =~= old(self)@.output);
                        }
                        Ok(self.scopes[s].vars.entries[e].value.get(decay))
                    },
                    Err(err) => {
                        proof {
                            assert(self@.scopes =~= old(self)@.scopes) by {
                                assert forall|i: int| 0 <= i < self.scopes@.len() implies self.scopes@[i]@
                                    == old(self).scopes@[i]@ by {
                                    if i == s {
                                        lemma_replace(
                                            old(self).scopes@[s as int].vars.entries@,
                                            self.scopes@[s as int].vars.entries@,
                                            name@,
                                            e as int,
                                        );
                                        assert(self.scopes@[i]@.vars =~= old(self).scopes@[i]@.vars);
                                    }
                                }
                            }
                            assert(self@.output =~= old(self)@.output);
                        }
                        Err(err)
                    },
                }
            },
            None => Err(RuntimeError::UndefinedVar(name.to_owned())),
        }
    }

    /// Extends the history of an array element and gives the value that it
    /// shows then. On an error nothing has changed.
    pub fn update_cell(&mut self, name: &str, index: i64, update: &Update) -> (r: Result<
        Value,
        RuntimeError,
    >)
        ensures
            final(self)@ == old(self)@.updated_cell(name@, index, update@).0,
            value_result(r) == old(self)@.updated_cell(name@, index, update@).1,
            final(self)@.scopes.len() == old(self)@.scopes.len(),
    {
        match self.find_array(name) {
            Some((s, e)) => {
                let decay: Num = self.decay;
                let size: usize = self.scopes[s].arrays.entries[e].value.len();
                match check_index(index, size) {
                    Ok(i) => {
                        let ghost before = old(self).scopes@[s as int].arrays.entries@[e as int].value@;
                        let applied = self.scopes[s].arrays.entries[e].value[i].apply(update, decay);
                        proof {
                            let after = self.scopes@[s as int].arrays.entries@[e as int].value@;
                            lemma_replace(
                                old(self).scopes@[s as int].arrays.entries@,
                                self.scopes@[s as int].arrays.entries@,
                                name@,
                                e as int,
                            );
                            assert(cells_view(after) =~= cells_view(before).update(
                                i as int,
                                after[i as int]@,
                            ));
                            assert(self.scopes@[s as int]@.arrays =~= old(self).scopes@[s as int]@.arrays.insert(
                                name@,
                                cells_view(after),
                            ));
                            assert(self.scopes@[s as int]@.vars == old(self).scopes@[s as int]@.vars);
                            assert(self@.scopes =~= old(self)@.with_array(
                                s as int,
                                name@,
                                cells_view(after),
                            ).scopes);
                            assert(self@.output =~= old(self)@.output);
                        }
                        match applied {
                            Ok(()) => Ok(self.scopes[s].arrays.entries[e].value[i].get(decay)),
                            Err(err) => {
                                proof {
                                    let after = self.scopes@[s as int].arrays.entries@[e as int].value@;
                                    assert(cells_view(after) =~= cells_view(before));
                                    assert(old(self).scopes@[s as int]@.arrays.insert(
                                        name@,
                                        cells_view(before),
                                    ) =~= old(self).scopes@[s as int]@.arrays);
                                    assert(self@.scopes =~= old(self)@.scopes);
                                }
                                Err(err)
                            },
                        }
                    },
                    Err(err) => Err(err),
                }
            },
            None => Err(RuntimeError::UndefinedVar(name.to_owned())),
        }
    }

    /// Steps a variable up or down and gives the value that it showed before.
    pub fn post_step_var(&mut self, name: &str, up: bool) -> (r: Result<Value, RuntimeError>)
        ensures
            final(self)@ == old(self)@.post_stepped_var(name@, up).0,
            value_result(r) == old(self)@.post_stepped_var(name@, up).1,
            final(self)@.scopes.len() == old(self)@.scopes.len(),
    {
        match self.read_var(name) {
            Ok(before) => {
                let _ = self.update_var(name, &Update::Step(up));
                Ok(before)
            },
            Err(e) => Err(e),
        }
    }

    /// Steps an array element up or down and gives the value that it showed
    /// before.
    pub fn post_step_cell(&mut self, name: &str, index: i64, up: bool) -> (r: Result<
        Value,
        RuntimeError,
    >)
        ensures
            final(self)@ == old(self)@.post_stepped_cell(name@, index, up).0,
            value_result(r) == old(self)@.post_stepped_cell(name@, index, up).1,
            final(self)@.scopes.len() == old(self)@.scopes.len(),
    {
        match self.read_cell(name, index) {
            Ok(before) => {
                let _ = self.update_cell(name, index, &Update::Step(up));
                Ok(before)
            },
            Err(e) => Err(e),
        }
    }
}

} // verus!
