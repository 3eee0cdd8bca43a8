//! The decision core of a bridge between a host document and a CSS engine.
//!
//! The host owns the document and hands out handles to its elements. The
//! engine owns the grammars of selectors, colours, media queries and
//! arithmetic expressions. This library decides what lies between them: how a
//! handle answers as an element, how a match request runs, which colours can
//! be reported and how they are packed, which texts are decimal numbers, and
//! what is said when something fails.
//!
//! Single-precision numbers cross this library as their bit patterns.

pub mod calc;
pub mod channel;
pub mod color;
pub mod element;
pub mod numeral;
pub mod results;
pub mod selector;
pub mod state;
pub mod text;

pub use calc::{
    bits_are_finite, evaluate_calc_expression, read_number, try_extract_numeric_value, CalcNode, Leaf,
};
pub use channel::{channel_to_byte, pack_rgba};
pub use color::{
    pack_nscolor, parse_color, parse_color_to_nscolor, AbsoluteColor, ColorComponents, ColorSpace,
    ParsedColor, ParsedNsColor, SpecifiedColor,
};
pub use element::{FFIElement, FFIElementWrapper};
pub use numeral::{char_is_whitespace, reads_as_decimal_number};
pub use results::{CalcResult, ParseResult, ParsedCSSValue, SelectorMatchResult};
pub use selector::{match_selector, parse_selector, MatchState};
pub use state::{known_state, match_non_ts_pseudo_class, PseudoClass, StateFlag};
pub use text::{
    css_value_result, get_computed_value, parse_css_value, parse_media_query, parse_stylesheet,
    stylesheet_result,
};
