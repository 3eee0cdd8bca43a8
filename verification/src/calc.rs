//! Reading a number out of an arithmetic expression.
//!
//! Nothing is computed: an expression that is a single number or percentage
//! gives that number, and every other expression gives nothing. A text that
//! is no expression counts where it is a decimal number. Numbers are
//! single-precision and carried as their bit patterns.

use vstd::prelude::*;
use crate::channel::exponent_of;
use crate::numeral::{is_decimal_number, reads_as_decimal_number, trimmed};
use crate::results::CalcResult;

verus! {

/// A leaf of an expression tree.
#[derive(Clone, Copy, Debug, PartialEq, Eq, Structural)]
pub enum Leaf {
    /// A plain number.
    Number(u32),
    /// A percentage, as the fraction it stands for.
    Percentage(u32),
    /// A value with a unit: a length, an angle, a time, a resolution.
    Dimension,
}

/// An expression tree, as far as its root tells.
#[derive(Clone, Copy, Debug, PartialEq, Eq, Structural)]
pub enum CalcNode {
    Leaf(Leaf),
    /// Any node with operands: a sum, a product, a function.
    Operation,
}

/// The number that an expression is, if it is just a number.
pub open spec fn numeric_value(node: CalcNode) -> Option<u32> {
    match node {
        CalcNode::Leaf(Leaf::Number(n)) => Some(n),
        CalcNode::Leaf(Leaf::Percentage(p)) => Some(p),
        _ => None,
    }
}

/// Whether a bit pattern is a number with a value: neither an infinity nor
/// one of the patterns that are no number.
pub open spec fn is_finite(bits: u32) -> bool {
    exponent_of(bits) != 255
}

/// What a text gives when it is read as a number: the value that was read
/// for it, where the text without the white space at its ends is a decimal
/// number and the value is finite. A word such as `NaN` or `inf` gives
/// nothing, whatever was read for it, and neither does a number too large
/// to have a finite value.
pub open spec fn number_reading(text: Seq<char>, number: Option<u32>) -> Option<u32> {
    match number {
        Some(value) => if is_decimal_number(trimmed(text)) && is_finite(value) {
            Some(value)
        } else {
            None
        },
        None => None,
    }
}

/// The value of a text: that of its expression where this is just a number,
/// else what the text gives when it is read as a number.
pub open spec fn calc_value(
    text: Seq<char>,
    calc: Option<CalcNode>,
    number: Option<u32>,
) -> Option<u32> {
    match calc {
        Some(node) => if numeric_value(node) is Some {
            numeric_value(node)
        } else {
            number_reading(text, number)
        },
        None => number_reading(text, number),
    }
}

/// The record for a value that was or was not found.
pub open spec fn calc_result_of(value: Option<u32>) -> CalcResult {
    match value {
        Some(v) => CalcResult { value: v, success: true },
        None => CalcResult { value: 0, success: false },
    }
}

/// Reads the number out of an expression that is a single number or
/// percentage. Every other expression gives nothing.
pub fn try_extract_numeric_value(node: &CalcNode) -> (value: Option<u32>)
    ensures
        value == numeric_value(*node),
{
    match node {
        CalcNode::Leaf(Leaf::Number(n)) => Some(*n),
        CalcNode::Leaf(Leaf::Percentage(p)) => Some(*p),
        _ => None,
    }
}

/// Tells whether a bit pattern is a number with a value.
pub fn bits_are_finite(bits: u32) -> (r: bool)
    ensures
        r == is_finite(bits),
{
    (bits / 0x80_0000) % 256 != 255
}

/// Reads a text as a number, given the value that was read for it.
pub fn read_number(expr: &str, number: Option<u32>) -> (value: Option<u32>)
    ensures
        value == number_reading(expr@, number),
{
    match number {
        Some(value) => {
            if bits_are_finite(value) && reads_as_decimal_number(expr) {
                Some(value)
            } else {
                None
            }
        },
        None => None,
    }
}

/// Gives the value of a text from the text and its two readings: `calc` is
/// the expression tree where the text is a `calc()` function that the grammar
/// accepts, `number` the value of the trimmed text where it was read as a
/// number.
///
/// The expression comes first, and counts only where it is a single number or
/// percentage. Else the number counts, but only where the trimmed text is a
/// decimal number and the value is finite. Where neither gives a value the
/// request fails with the value 0.
pub fn evaluate_calc_expression(
    expr: &str,
    calc: Option<CalcNode>,
    number: Option<u32>,
) -> (r: CalcResult)
    ensures
        r == calc_result_of(calc_value(expr@, calc, number)),
        r.success <==> calc_value(expr@, calc, number) is Some,
        r.success && !(calc matches Some(node) && numeric_value(node) is Some) ==> is_finite(
            r.value,
        ) && is_decimal_number(trimmed(expr@)) && number == Some(r.value),
{
    if let Some(node) = calc {
        if let Some(value) = try_extract_numeric_value(&node) {
            return CalcResult { value, success: true };
        }
    }
    if let Some(value) = read_number(expr, number) {
        return CalcResult { value, success: true };
    }
    CalcResult { value: 0, success: false }
}

} // verus!
