//! Requests that are answered from the text alone: a stylesheet with its base
//! URL, a single value, a media query.

use vstd::prelude::*;
use vstd::string::*;
use crate::results::{accepted, rejected, ParseResult, ParseResultView, ParsedCSSValue, ParsedCSSValueView};

verus! {

/// What `url::Url::parse` holds against a text as an absolute URL: nothing,
/// or the name of the error it returns.
pub uninterp spec fn url_parse_error(text: Seq<char>) -> Option<Seq<char>>;

/// Whether `cssparser::Parser::expect_no_error_token` finds a text free of
/// error tokens, blocks and functions in it included.
pub uninterp spec fn no_error_token(text: Seq<char>) -> bool;

/// Calls `url::Url::parse` on the text and drops the URL.
///
/// Trusted: the call returns an error exactly where `url_parse_error` names
/// one, and then `failure` is that error as `Debug` prints it, which for this
/// enum without fields is the variant's name.
#[verifier::external_body]
fn url_failure(text: &str) -> (failure: Option<String>)
    ensures
        failure is Some <==> url_parse_error(text@) is Some,
        failure matches Some(name) ==> url_parse_error(text@) == Some(name@),
{
    match url::Url::parse(text) {
        Ok(_) => None,
        Err(error) => Some(format!("{:?}", error)),
    }
}

/// Calls `cssparser::Parser::expect_no_error_token` on a new parser over the
/// text.
///
/// Trusted: the call returns `Ok` exactly where `no_error_token` holds. It
/// reads the text to its end and fails on a bad string, a bad URL, a closing
/// bracket without its opening one, or blocks nested too deep.
#[verifier::external_body]
fn is_free_of_error_tokens(text: &str) -> (clean: bool)
    ensures
        clean == no_error_token(text@),
{
    cssparser::Parser::new(text).expect_no_error_token().is_ok()
}

/// The verdict on a stylesheet, given what was held against its base URL.
pub open spec fn stylesheet_verdict(url_error: Option<Seq<char>>) -> ParseResultView {
    match url_error {
        None => accepted(),
        Some(name) => rejected("Invalid base URL: "@, name),
    }
}

/// An error's name as a sequence of characters.
pub open spec fn error_name(url_error: Option<String>) -> Option<Seq<char>> {
    match url_error {
        None => None,
        Some(name) => Some(name@),
    }
}

/// Gives the verdict on a stylesheet from what was held against its base
/// URL: `None` where the URL is absolute, else the name of the error.
pub fn stylesheet_result(url_error: Option<String>) -> (r: ParseResult)
    ensures
        r@ == stylesheet_verdict(error_name(url_error)),
        r.success <==> url_error is None,
{
    match url_error {
        None => ParseResult::accepted(),
        Some(name) => ParseResult::rejected("Invalid base URL: ", name.as_str()),
    }
}

/// Gives the verdict on a stylesheet.
///
/// Only the base URL decides: the rules of a sheet are read with error
/// recovery, so no sheet is refused for what it holds. The request fails
/// exactly where the base URL is not an absolute URL, and the message then
/// names the error.
pub fn parse_stylesheet(css: &str, base_url: &str) -> (r: ParseResult)
    ensures
        r@ == stylesheet_verdict(url_parse_error(base_url@)),
        r.success <==> url_parse_error(base_url@) is None,
{
    stylesheet_result(url_failure(base_url))
}

/// The record for a single value: the value itself where it is free of error
/// tokens, nothing where it is not.
pub open spec fn css_value_of(value: Seq<char>, clean: bool) -> ParsedCSSValueView {
    if clean {
        ParsedCSSValueView { value: value, success: true }
    } else {
        ParsedCSSValueView { value: Seq::empty(), success: false }
    }
}

/// Builds the record for a single value from whether it is free of error
/// tokens.
pub fn css_value_result(value: &str, clean: bool) -> (r: ParsedCSSValue)
    ensures
        r@ == css_value_of(value@, clean),
{
    if clean {
        ParsedCSSValue { value: String::from_str(value), success: true }
    } else {
        ParsedCSSValue { value: String::new(), success: false }
    }
}

/// Checks a single value: it succeeds, and is handed back unchanged, exactly
/// where it holds no error token. The property's name plays no part.
pub fn parse_css_value(value: &str, property_name: &str) -> (r: ParsedCSSValue)
    ensures
        r@ == css_value_of(value@, no_error_token(value@)),
        r.success <==> no_error_token(value@),
{
    css_value_result(value, is_free_of_error_tokens(value))
}

/// Hands a value back as its own computed value: unchanged, and a success
/// exactly where it is not empty. Neither the property's name nor the base
/// font size, a single-precision number given by its bit pattern, plays a
/// part.
pub fn get_computed_value(
    value: &str,
    property_name: &str,
    base_font_size: u32,
) -> (r: ParsedCSSValue)
    ensures
        r.value@ == value@,
        r.success <==> value@.len() > 0,
{
    ParsedCSSValue { value: String::from_str(value), success: !value.is_empty() }
}

/// The verdict on a media query, given what the media query grammar made of
/// it.
pub open spec fn media_query_verdict(parsed: Result<(), String>) -> ParseResultView {
    match parsed {
        Ok(_) => accepted(),
        Err(diagnostic) => rejected("Failed to parse media query: "@, diagnostic@),
    }
}

/// Gives the verdict on a media query from what the media query grammar made
/// of its text: `Ok` where it accepted the text, `Err` with its diagnostic
/// where it did not.
pub fn parse_media_query(parsed: Result<(), String>) -> (r: ParseResult)
    ensures
        r@ == media_query_verdict(parsed),
        r.success <==> parsed is Ok,
{
    match parsed {
        Ok(_) => ParseResult::accepted(),
        Err(diagnostic) => ParseResult::rejected("Failed to parse media query: ", diagnostic.as_str()),
    }
}

} // verus!
