//! What the interpreter asks of the program around it: the output channel,
//! chance, and the arithmetic of decimal numbers.
//!
//! A decimal number is the bit pattern of a 64-bit binary floating-point
//! number. The library carries such patterns and decides when a computation on
//! them is due; the computation itself is the host's. Nothing is assumed of
//! what a host answers: whatever the library proves holds for every host.
//!
//! A function that asks the host says in its contract what it asks: which
//! method of the host is called, with which arguments and in which order,
//! and that the answer is the result. A text that holds decimal numbers is
//! stated around the texts that the host gives for those numbers. The
//! evaluator keeps account of the answers, and its contracts say what an
//! evaluation gives for the answers that were given.

use crate::ast::BinaryOperator;
use vstd::prelude::*;

verus! {

/// A function of one decimal number.
#[derive(Clone, Copy, Debug, PartialEq, Eq, Structural)]
pub enum DecimalFunction {
    Negate,
    Abs,
    Floor,
    Ceil,
    Trunc,
    Round,
    Sqrt,
}

pub trait Host {
    /// Writes one line to the output.
    fn print(&mut self, line: String);

    /// A decimal number drawn at random from the half-open unit interval.
    fn random(&mut self) -> u64;

    /// The decimal number nearest to an integer.
    fn decimal_from_integer(&mut self, value: isize) -> u64;

    /// The sum, difference, product, quotient or remainder of two decimal
    /// numbers. The library asks this for the five arithmetic operators only.
    fn decimal_arithmetic(&mut self, operator: BinaryOperator, left: u64, right: u64) -> u64;

    /// Whether a comparison of two decimal numbers holds. The library asks
    /// this for the four comparison operators only.
    fn decimal_compare(&mut self, operator: BinaryOperator, left: u64, right: u64) -> bool;

    /// A function of one decimal number.
    fn decimal_apply(&mut self, function: DecimalFunction, value: u64) -> u64;

    /// `base` raised to `exponent`.
    fn decimal_power(&mut self, base: u64, exponent: u64) -> u64;

    /// A decimal number as text.
    fn decimal_text(&mut self, value: u64) -> String;
}

} // verus!
