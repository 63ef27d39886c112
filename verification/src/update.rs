//! The ways in which a statement or an expression extends a history.

use crate::ast::{CompoundOp, Type};
use crate::error::{ErrorView, RuntimeError};
use crate::history::{BlurValue, BlurView};
use crate::number::Num;
use crate::value::{Value, ValueView};
use vstd::prelude::*;

verus! {

/// One extension of a history.
#[derive(Debug)]
pub enum Update {
    /// An assigned value, recorded as the cell's type asks.
    Assign(Value),
    /// A text literal to blend in a number of times over.
    Repeat(String, usize),
    /// An increment (`true`) or a decrement by one.
    Step(bool),
    /// A compound assignment with the right operand's number.
    Compound(CompoundOp, Num),
}

/// The mathematical content of an [`Update`].
pub enum UpdateView {
    Assign(ValueView),
    Repeat(Seq<char>, nat),
    Step(bool),
    Compound(CompoundOp, Num),
}

impl View for Update {
    type V = UpdateView;

    open spec fn view(&self) -> UpdateView {
        match self {
            Update::Assign(value) => UpdateView::Assign(value@),
            Update::Repeat(text, times) => UpdateView::Repeat(text@, *times as nat),
            Update::Step(up) => UpdateView::Step(*up),
            Update::Compound(op, rhs) => UpdateView::Compound(*op, *rhs),
        }
    }
}

/// What a compound assignment records: the operator applied to the raw
/// average of the target and to the right operand. Division and remainder by
/// a right operand that equals zero fail.
pub open spec fn compound_result(op: CompoundOp, current: Num, rhs: Num) -> Result<Num, ErrorView> {
    match op {
        CompoundOp::AddAssign => Ok(current.spec_plus(rhs)),
        CompoundOp::SubAssign => Ok(current.spec_minus(rhs)),
        CompoundOp::MulAssign => Ok(current.spec_times(rhs)),
        CompoundOp::DivAssign => if rhs.spec_same(Num::spec_zero()) {
            Err(ErrorView::DivisionByZero)
        } else {
            Ok(current.spec_over(rhs))
        },
        CompoundOp::ModAssign => if rhs.spec_same(Num::spec_zero()) {
            Err(ErrorView::DivisionByZero)
        } else {
            Ok(current.spec_modulo(rhs))
        },
    }
}

/// What a compound assignment records.
pub fn apply_compound(op: CompoundOp, current: Num, rhs: Num) -> (r: Result<Num, RuntimeError>)
    ensures
        match r {
            Ok(x) => compound_result(op, current, rhs) == Ok::<Num, ErrorView>(x),
            Err(e) => compound_result(op, current, rhs) == Err::<Num, ErrorView>(e@),
        },
{
    match op {
        CompoundOp::AddAssign => Ok(current.plus(rhs)),
        CompoundOp::SubAssign => Ok(current.minus(rhs)),
        CompoundOp::MulAssign => Ok(current.times(rhs)),
        CompoundOp::DivAssign => {
            if rhs.same(Num::zero()) {
                Err(RuntimeError::DivisionByZero)
            } else {
                Ok(current.over(rhs))
            }
        },
        CompoundOp::ModAssign => {
            if rhs.same(Num::zero()) {
                Err(RuntimeError::DivisionByZero)
            } else {
                Ok(current.modulo(rhs))
            }
        },
    }
}

impl BlurView {
    /// The cell after a value was assigned: a boolean cell records the
    /// value's truth, a text cell blends a text in and ignores any other
    /// value, every other cell records the value's number.
    pub open spec fn assigned(self, value: ValueView) -> BlurView {
        match self.var_type {
            Type::Bool => self.pushed_bool(value.truthy()),
            Type::String => match value {
                ValueView::String(text) => self.pushed_string(text),
                _ => self,
            },
            _ => self.pushed(value.to_num()),
        }
    }

    /// The cell after an increment or decrement: one more or less than the
    /// raw average is recorded as a new sample.
    pub open spec fn stepped(self, up: bool, decay: Num) -> BlurView {
        if up {
            self.pushed(self.raw(decay).spec_plus(Num::spec_one()))
        } else {
            self.pushed(self.raw(decay).spec_minus(Num::spec_one()))
        }
    }

    /// The cell after an update, or the error that kept the update from it.
    pub open spec fn applied(self, update: UpdateView, decay: Num) -> Result<BlurView, ErrorView> {
        match update {
            UpdateView::Assign(value) => Ok(self.assigned(value)),
            UpdateView::Repeat(text, times) => Ok(self.pushed_string_times(text, times)),
            UpdateView::Step(up) => Ok(self.stepped(up, decay)),
            UpdateView::Compound(op, rhs) => match compound_result(op, self.raw(decay), rhs) {
                Ok(sample) => Ok(self.pushed(sample)),
                Err(e) => Err(e),
            },
        }
    }
}

impl BlurValue {
    /// Records an assigned value as the cell's type asks.
    pub fn assign(&mut self, value: &Value)
        ensures
            final(self)@ == old(self)@.assigned(value@),
    {
        match &self.var_type {
            Type::Bool => {
                self.push_bool(value.to_bool());
            },
            Type::String => {
                match value {
                    Value::String(text) => {
                        self.push_string(text.as_str());
                    },
                    _ => {},
                }
            },
            _ => {
                self.push(value.to_f64());
            },
        }
    }

    /// Records one more or one less than the raw average.
    pub fn step(&mut self, up: bool, decay: Num)
        ensures
            final(self)@ == old(self)@.stepped(up, decay),
    {
        let current: Num = self.get_raw(decay);
        if up {
            self.push(current.plus(Num::one()));
        } else {
            self.push(current.minus(Num::one()));
        }
    }

    /// Extends the history by an update. A failed update leaves the cell as
    /// it was.
    pub fn apply(&mut self, update: &Update, decay: Num) -> (r: Result<(), RuntimeError>)
        ensures
            match r {
                Ok(()) => old(self)@.applied(update@, decay) == Ok::<BlurView, ErrorView>(final(self)@),
                Err(e) => old(self)@.applied(update@, decay) == Err::<BlurView, ErrorView>(e@)
                    && final(self)@ == old(self)@,
            },
    {
        match update {
            Update::Assign(value) => {
                self.assign(value);
                Ok(())
            },
            Update::Repeat(text, times) => {
                self.push_string_times(text.as_str(), *times);
                Ok(())
            },
            Update::Step(up) => {
                self.step(*up, decay);
                Ok(())
            },
            Update::Compound(op, rhs) => {
                let current: Num = self.get_raw(decay);
                match apply_compound(*op, current, *rhs) {
                    Ok(sample) => {
                        self.push(sample);
                        Ok(())
                    },
                    Err(e) => Err(e),
                }
            },
        }
    }
}

} // verus!
