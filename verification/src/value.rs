//! The transient result of evaluating one expression.

use crate::number::Num;
use crate::numeral::{number_text, render_number};
use crate::text::{push_signed_decimal, signed_decimal, string_of};
use vstd::prelude::*;

verus! {

/// What an expression evaluates to.
#[derive(Debug, Clone, PartialEq)]
pub enum Value {
    Int(i64),
    Float(Num),
    Bool(bool),
    Char(char),
    String(String),
    Void,
}

/// The mathematical content of a [`Value`].
pub enum ValueView {
    Int(i64),
    Float(Num),
    Bool(bool),
    Char(char),
    String(Seq<char>),
    Void,
}

impl View for Value {
    type V = ValueView;

    open spec fn view(&self) -> ValueView {
        match self {
            Value::Int(n) => ValueView::Int(*n),
            Value::Float(x) => ValueView::Float(*x),
            Value::Bool(b) => ValueView::Bool(*b),
            Value::Char(c) => ValueView::Char(*c),
            Value::String(s) => ValueView::String(s@),
            Value::Void => ValueView::Void,
        }
    }
}

impl ValueView {
    /// The numeric coercion: an integer by its value, a boolean as one or
    /// zero, a character by its code, text and void as zero.
    pub open spec fn to_num(self) -> Num {
        match self {
            ValueView::Int(n) => Num::spec_of_int(n as int),
            ValueView::Float(x) => x,
            ValueView::Bool(b) => if b {
                Num::spec_one()
            } else {
                Num::spec_zero()
            },
            ValueView::Char(c) => Num::spec_of_int(c as u32 as int),
            _ => Num::spec_zero(),
        }
    }

    /// The boolean coercion: a number is true unless it compares equal to
    /// zero, a character unless it is NUL; text and void are false.
    pub open spec fn truthy(self) -> bool {
        match self {
            ValueView::Bool(b) => b,
            ValueView::Int(n) => n != 0,
            ValueView::Float(x) => !x.spec_same(Num::spec_zero()),
            ValueView::Char(c) => c != '\0',
            _ => false,
        }
    }
}

impl ValueView {
    /// The natural text of the value.
    pub open spec fn text(self) -> Seq<char> {
        match self {
            ValueView::Int(n) => signed_decimal(n as int),
            ValueView::Float(x) => number_text(x),
            ValueView::Bool(b) => if b {
                "true"@
            } else {
                "false"@
            },
            ValueView::Char(c) => seq![c],
            ValueView::String(s) => s,
            ValueView::Void => "void"@,
        }
    }
}

impl Value {
    /// The natural text of the value.
    pub fn render(&self) -> (r: String)
        ensures
            r@ == self@.text(),
    {
        match self {
            Value::Int(n) => {
                let mut out: Vec<char> = Vec::new();
                push_signed_decimal(&mut out, *n);
                assert(out@ =~= signed_decimal(*n as int));
                string_of(&out)
            },
            Value::Float(x) => render_number(*x),
            Value::Bool(b) => if *b {
                "true".to_owned()
            } else {
                "false".to_owned()
            },
            Value::Char(c) => {
                let mut out: Vec<char> = Vec::new();
                out.push(*c);
                assert(out@ =~= seq![*c]);
                string_of(&out)
            },
            Value::String(s) => s.clone(),
            Value::Void => "void".to_owned(),
        }
    }

    /// The numeric coercion of the value.
    pub fn to_f64(&self) -> (r: Num)
        ensures
            r == self@.to_num(),
    {
        match self {
            Value::Int(n) => Num::of_i64(*n),
            Value::Float(x) => *x,
            Value::Bool(b) => if *b {
                Num::one()
            } else {
                Num::zero()
            },
            Value::Char(c) => {
                let code: u32 = *c as u32;
                Num::of_i64(code as i64)
            },
            _ => Num::zero(),
        }
    }

    /// The boolean coercion of the value.
    pub fn to_bool(&self) -> (r: bool)
        ensures
            r == self@.truthy(),
    {
        match self {
            Value::Bool(b) => *b,
            Value::Int(n) => *n != 0,
            Value::Float(x) => !x.same(Num::zero()),
            Value::Char(c) => *c != '\0',
            _ => false,
        }
    }

    /// The name of the value's type.
    pub fn kind_name(&self) -> (r: &'static str)
        ensures
            r@ == match self@ {
                ValueView::Int(_) => "int"@,
                ValueView::Float(_) => "float"@,
                ValueView::Bool(_) => "bool"@,
                ValueView::Char(_) => "char"@,
                ValueView::String(_) => "string"@,
                ValueView::Void => "void"@,
            },
    {
        match self {
            Value::Int(_) => "int",
            Value::Float(_) => "float",
            Value::Bool(_) => "bool",
            Value::Char(_) => "char",
            Value::String(_) => "string",
            Value::Void => "void",
        }
    }

    /// A copy of the value.
    pub fn duplicate(&self) -> (r: Value)
        ensures
            r@ == self@,
    {
        match self {
            Value::Int(n) => Value::Int(*n),
            Value::Float(x) => Value::Float(*x),
            Value::Bool(b) => Value::Bool(*b),
            Value::Char(c) => Value::Char(*c),
            Value::String(s) => Value::String(s.clone()),
            Value::Void => Value::Void,
        }
    }
}

} // verus!
