//! The flat records that cross the boundary to the host: a flag, a payload
//! and, where something can go wrong, a message.

use vstd::prelude::*;
use vstd::string::*;

verus! {

/// The outcome of a request that yields nothing but success or failure.
pub struct ParseResult {
    pub success: bool,
    pub error_message: String,
}

/// A `ParseResult` with its message as a sequence of characters.
pub struct ParseResultView {
    pub success: bool,
    pub error_message: Seq<char>,
}

impl View for ParseResult {
    type V = ParseResultView;

    open spec fn view(&self) -> ParseResultView {
        ParseResultView { success: self.success, error_message: self.error_message@ }
    }
}

/// The record of a success: no message.
pub open spec fn accepted() -> ParseResultView {
    ParseResultView { success: true, error_message: Seq::empty() }
}

/// The record of a failure: what was being parsed, then the diagnostic.
pub open spec fn rejected(prefix: Seq<char>, diagnostic: Seq<char>) -> ParseResultView {
    ParseResultView { success: false, error_message: prefix + diagnostic }
}

impl ParseResult {
    /// A success.
    pub fn accepted() -> (r: ParseResult)
        ensures
            r@ == accepted(),
    {
        ParseResult { success: true, error_message: String::new() }
    }

    /// A failure whose message is `prefix` followed by `diagnostic`.
    pub fn rejected(prefix: &str, diagnostic: &str) -> (r: ParseResult)
        ensures
            r@ == rejected(prefix@, diagnostic@),
    {
        ParseResult { success: false, error_message: String::from_str(prefix).concat(diagnostic) }
    }
}

/// The outcome of a request for a single CSS value.
pub struct ParsedCSSValue {
    pub value: String,
    pub success: bool,
}

/// A `ParsedCSSValue` with its value as a sequence of characters.
pub struct ParsedCSSValueView {
    pub value: Seq<char>,
    pub success: bool,
}

impl View for ParsedCSSValue {
    type V = ParsedCSSValueView;

    open spec fn view(&self) -> ParsedCSSValueView {
        ParsedCSSValueView { value: self.value@, success: self.success }
    }
}

/// The outcome of reading a number out of an arithmetic expression. The
/// value is the bit pattern of a single-precision number.
#[derive(Clone, Copy, Debug, PartialEq, Eq, Structural)]
pub struct CalcResult {
    pub value: u32,
    pub success: bool,
}

/// The outcome of matching a selector text against an element.
pub struct SelectorMatchResult {
    pub matches: bool,
    pub error_message: String,
}

/// A `SelectorMatchResult` with its message as a sequence of characters.
pub struct SelectorMatchResultView {
    pub matches: bool,
    pub error_message: Seq<char>,
}

impl View for SelectorMatchResult {
    type V = SelectorMatchResultView;

    open spec fn view(&self) -> SelectorMatchResultView {
        SelectorMatchResultView { matches: self.matches, error_message: self.error_message@ }
    }
}

} // verus!
