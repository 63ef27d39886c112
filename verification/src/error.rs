//! What can go wrong while a program is read or run.

use crate::text::{decimal, push_decimal, push_signed_decimal, push_text, signed_decimal, string_of};
use vstd::prelude::*;

verus! {

/// An error that ends the current run.
#[derive(Debug, Clone, PartialEq)]
pub enum RuntimeError {
    /// No scope holds a variable or array of this name.
    UndefinedVar(String),
    /// No function of this name is registered.
    UndefinedFunc(String),
    TypeMismatch { expected: String, got: String },
    /// The right operand of a division or a remainder is zero.
    DivisionByZero,
    /// An array was indexed outside `0..size`.
    IndexOutOfBounds { index: i64, size: usize },
    InvalidOp(String),
}

/// The mathematical content of a [`RuntimeError`].
pub enum ErrorView {
    UndefinedVar(Seq<char>),
    UndefinedFunc(Seq<char>),
    TypeMismatch { expected: Seq<char>, got: Seq<char> },
    DivisionByZero,
    IndexOutOfBounds { index: i64, size: usize },
    InvalidOp(Seq<char>),
}

impl View for RuntimeError {
    type V = ErrorView;

    open spec fn view(&self) -> ErrorView {
        match self {
            RuntimeError::UndefinedVar(name) => ErrorView::UndefinedVar(name@),
            RuntimeError::UndefinedFunc(name) => ErrorView::UndefinedFunc(name@),
            RuntimeError::TypeMismatch { expected, got } => ErrorView::TypeMismatch {
                expected: expected@,
                got: got@,
            },
            RuntimeError::DivisionByZero => ErrorView::DivisionByZero,
            RuntimeError::IndexOutOfBounds { index, size } => ErrorView::IndexOutOfBounds {
                index: *index,
                size: *size,
            },
            RuntimeError::InvalidOp(what) => ErrorView::InvalidOp(what@),
        }
    }
}

impl ErrorView {
    /// The error that ends an evaluation which ran out of fuel.
    pub open spec fn out_of_fuel() -> ErrorView {
        ErrorView::InvalidOp("evaluation ran out of fuel"@)
    }

    /// The text that describes the error.
    pub open spec fn message(self) -> Seq<char> {
        match self {
            ErrorView::UndefinedVar(name) => "Undefined variable: "@ + name,
            ErrorView::UndefinedFunc(name) => "Undefined function: "@ + name,
            ErrorView::TypeMismatch { expected, got } => "Type mismatch: expected "@ + expected
                + ", got "@ + got,
            ErrorView::DivisionByZero => "Division by zero"@,
            ErrorView::IndexOutOfBounds { index, size } => "Array index out of bounds: "@
                + signed_decimal(index as int) + " for array of size "@ + decimal(size as nat),
            ErrorView::InvalidOp(what) => "Invalid operation: "@ + what,
        }
    }
}

impl RuntimeError {
    /// The error that ends an evaluation which ran out of fuel.
    pub fn out_of_fuel() -> (e: RuntimeError)
        ensures
            e@ == ErrorView::out_of_fuel(),
    {
        RuntimeError::InvalidOp("evaluation ran out of fuel".to_owned())
    }

    /// The text that describes the error.
    pub fn message(&self) -> (r: String)
        ensures
            r@ == self@.message(),
    {
        let mut out: Vec<char> = Vec::new();
        match self {
            RuntimeError::UndefinedVar(name) => {
                push_text(&mut out, "Undefined variable: ");
                push_text(&mut out, name.as_str());
            },
            RuntimeError::UndefinedFunc(name) => {
                push_text(&mut out, "Undefined function: ");
                push_text(&mut out, name.as_str());
            },
            RuntimeError::TypeMismatch { expected, got } => {
                push_text(&mut out, "Type mismatch: expected ");
                push_text(&mut out, expected.as_str());
                push_text(&mut out, ", got ");
                push_text(&mut out, got.as_str());
            },
            RuntimeError::DivisionByZero => {
                push_text(&mut out, "Division by zero");
            },
            RuntimeError::IndexOutOfBounds { index, size } => {
                push_text(&mut out, "Array index out of bounds: ");
                push_signed_decimal(&mut out, *index);
                push_text(&mut out, " for array of size ");
                push_decimal(&mut out, *size as u64);
            },
            RuntimeError::InvalidOp(what) => {
                push_text(&mut out, "Invalid operation: ");
                push_text(&mut out, what.as_str());
            },
        }
        assert(out@ =~= self@.message());
        string_of(&out)
    }
}

/// An error that ends the reading of a program.
#[derive(Debug, Clone, PartialEq)]
pub enum ParseError {
    UnexpectedToken(String),
    Expected { expected: String, found: String },
    UnexpectedEof,
    InvalidExpr,
}

/// The mathematical content of a [`ParseError`].
pub enum ParseErrorView {
    UnexpectedToken(Seq<char>),
    Expected { expected: Seq<char>, found: Seq<char> },
    UnexpectedEof,
    InvalidExpr,
}

impl View for ParseError {
    type V = ParseErrorView;

    open spec fn view(&self) -> ParseErrorView {
        match self {
            ParseError::UnexpectedToken(token) => ParseErrorView::UnexpectedToken(token@),
            ParseError::Expected { expected, found } => ParseErrorView::Expected {
                expected: expected@,
                found: found@,
            },
            ParseError::UnexpectedEof => ParseErrorView::UnexpectedEof,
            ParseError::InvalidExpr => ParseErrorView::InvalidExpr,
        }
    }
}

impl ParseErrorView {
    /// The text that describes the error.
    pub open spec fn message(self) -> Seq<char> {
        match self {
            ParseErrorView::UnexpectedToken(token) => "Unexpected token: "@ + token,
            ParseErrorView::Expected { expected, found } => "Expected "@ + expected + ", found "@
                + found,
            ParseErrorView::UnexpectedEof => "Unexpected end of input"@,
            ParseErrorView::InvalidExpr => "Invalid expression"@,
        }
    }
}

impl ParseError {
    /// The text that describes the error.
    pub fn message(&self) -> (r: String)
        ensures
            r@ == self@.message(),
    {
        let mut out: Vec<char> = Vec::new();
        match self {
            ParseError::UnexpectedToken(token) => {
                push_text(&mut out, "Unexpected token: ");
                push_text(&mut out, token.as_str());
            },
            ParseError::Expected { expected, found } => {
                push_text(&mut out, "Expected ");
                push_text(&mut out, expected.as_str());
                push_text(&mut out, ", found ");
                push_text(&mut out, found.as_str());
            },
            ParseError::UnexpectedEof => {
                push_text(&mut out, "Unexpected end of input");
            },
            ParseError::InvalidExpr => {
                push_text(&mut out, "Invalid expression");
            },
        }
        assert(out@ =~= self@.message());
        string_of(&out)
    }
}

} // verus!
