//! Requests answered from the text alone, and the reading of numbers.

use style_ffi::{
    css_value_result, evaluate_calc_expression, get_computed_value, parse_css_value,
    parse_media_query, parse_stylesheet, stylesheet_result, try_extract_numeric_value, CalcNode,
    CalcResult, Leaf,
};

fn as_number(text: &str) -> Option<u32> {
    text.trim().parse::<f32>().ok().map(f32::to_bits)
}

#[test]
fn relative_base_url_is_named_in_the_message() {
    let result = parse_stylesheet("a { color: red }", "not a url");
    assert!(!result.success);
    assert_eq!(result.error_message, "Invalid base URL: RelativeUrlWithoutBase");
}

#[test]
fn empty_base_url_is_refused() {
    let result = parse_stylesheet("", "");
    assert!(!result.success);
    assert_eq!(result.error_message, "Invalid base URL: RelativeUrlWithoutBase");
}

#[test]
fn base_url_with_a_bad_port_is_refused() {
    let result = parse_stylesheet("", "https://example.com:99999/");
    assert!(!result.success);
    assert_eq!(result.error_message, "Invalid base URL: InvalidPort");
}

#[test]
fn base_url_without_a_host_is_refused() {
    let result = parse_stylesheet("", "https://");
    assert!(!result.success);
    assert_eq!(result.error_message, "Invalid base URL: EmptyHost");
}

#[test]
fn base_url_with_a_bad_address_is_refused() {
    let result = parse_stylesheet("", "http://[::1::2]/");
    assert!(!result.success);
    assert_eq!(result.error_message, "Invalid base URL: InvalidIpv6Address");
}

#[test]
fn absolute_base_urls_are_accepted() {
    for url in ["about:blank", "http://example.com", "file:///tmp/a.css", "data:text/css,a{}"] {
        let result = parse_stylesheet("a { color: red }", url);
        assert!(result.success, "{}", url);
        assert!(result.error_message.is_empty());
    }
}

#[test]
fn no_stylesheet_is_refused_for_what_it_holds() {
    for css in ["", "}}}} {{{", "a { color: ", "@import 'x", "\u{0}\u{FFFD}\u{1F600}"] {
        let result = parse_stylesheet(css, "https://example.com/style.css");
        assert!(result.success, "{:?}", css);
        assert!(result.error_message.is_empty());
    }
}

#[test]
fn base_url_decides_the_same_way_each_time() {
    for url in ["https://example.com/", "not a url", "", "about:blank", "//host/path"] {
        let first = parse_stylesheet("a{}", url);
        let second = parse_stylesheet("b{}", url);
        assert_eq!(first.success, second.success);
        assert_eq!(first.error_message, second.error_message);
    }
}

#[test]
fn stylesheet_verdict_follows_what_was_held_against_the_url() {
    let accepted = stylesheet_result(None);
    assert!(accepted.success);
    assert_eq!(accepted.error_message, "");
    let refused = stylesheet_result(Some(String::from("EmptyHost")));
    assert!(!refused.success);
    assert_eq!(refused.error_message, "Invalid base URL: EmptyHost");
}

#[test]
fn clean_value_is_handed_back_unchanged() {
    for value in ["10px", "  red ", "calc(1px + 2em)", "url(a.png)", "f(g(h([{x}])))", ""] {
        let result = parse_css_value(value, "width");
        assert!(result.success, "{:?}", value);
        assert_eq!(result.value, value);
    }
}

#[test]
fn value_with_an_unmatched_closing_bracket_is_refused() {
    for value in [")", "10px)", "a ] b", "}", "f(x))"] {
        let result = parse_css_value(value, "width");
        assert!(!result.success, "{:?}", value);
        assert_eq!(result.value, "");
    }
}

#[test]
fn value_with_a_bad_string_is_refused() {
    let result = parse_css_value("\"broken\nstring\"", "content");
    assert!(!result.success);
    assert_eq!(result.value, "");
}

#[test]
fn value_with_a_bad_url_is_refused() {
    let result = parse_css_value("url(a b)", "background");
    assert!(!result.success);
    assert_eq!(result.value, "");
}

#[test]
fn error_token_inside_a_block_is_found() {
    let result = parse_css_value("f(1, [ \"a\nb\" ])", "x");
    assert!(!result.success);
    assert_eq!(result.value, "");
    let matched = parse_css_value("f(1, [ (a) ])", "x");
    assert!(matched.success);
}

#[test]
fn property_name_plays_no_part_in_a_value() {
    for value in ["10px", ")", "url(a b)", "red"] {
        let a = parse_css_value(value, "width");
        let b = parse_css_value(value, "");
        let c = parse_css_value(value, "no-such-property");
        assert_eq!(a.success, b.success);
        assert_eq!(a.success, c.success);
        assert_eq!(a.value, b.value);
        assert_eq!(a.value, c.value);
    }
}

#[test]
fn value_record_follows_the_finding() {
    let clean = css_value_result("1em", true);
    assert!(clean.success);
    assert_eq!(clean.value, "1em");
    let unclean = css_value_result("1em", false);
    assert!(!unclean.success);
    assert_eq!(unclean.value, "");
}

#[test]
fn computed_value_is_the_value_itself() {
    let result = get_computed_value("2em", "font-size", 16.0f32.to_bits());
    assert!(result.success);
    assert_eq!(result.value, "2em");
    let odd = get_computed_value(" ", "", f32::NAN.to_bits());
    assert!(odd.success);
    assert_eq!(odd.value, " ");
}

#[test]
fn empty_value_has_no_computed_value() {
    let result = get_computed_value("", "font-size", 16.0f32.to_bits());
    assert!(!result.success);
    assert_eq!(result.value, "");
}

#[test]
fn refused_media_query_gives_the_diagnostic() {
    let result = parse_media_query(Err(String::from("InvalidMediaFeature")));
    assert!(!result.success);
    assert_eq!(result.error_message, "Failed to parse media query: InvalidMediaFeature");
}

#[test]
fn accepted_media_query_gives_no_message() {
    let result = parse_media_query(Ok(()));
    assert!(result.success);
    assert_eq!(result.error_message, "");
}

#[test]
fn single_number_is_read_out_of_an_expression() {
    let node = CalcNode::Leaf(Leaf::Number(5.0f32.to_bits()));
    assert_eq!(try_extract_numeric_value(&node), Some(5.0f32.to_bits()));
}

#[test]
fn single_percentage_is_read_out_of_an_expression() {
    // "calc(50%)"
    let node = CalcNode::Leaf(Leaf::Percentage(0.5f32.to_bits()));
    assert_eq!(try_extract_numeric_value(&node), Some(0.5f32.to_bits()));
    let result = evaluate_calc_expression("calc(50%)", Some(node), as_number("calc(50%)"));
    assert!(result.success);
    assert_eq!(f32::from_bits(result.value), 0.5);
}

#[test]
fn value_with_a_unit_is_not_a_number() {
    // "calc(10px)"
    let node = CalcNode::Leaf(Leaf::Dimension);
    assert_eq!(try_extract_numeric_value(&node), None);
    let result = evaluate_calc_expression("calc(10px)", Some(node), as_number("calc(10px)"));
    assert_eq!(result, CalcResult { value: 0, success: false });
}

#[test]
fn sum_is_not_evaluated() {
    // "calc(1 + 2)"
    assert_eq!(try_extract_numeric_value(&CalcNode::Operation), None);
    let result =
        evaluate_calc_expression("calc(1 + 2)", Some(CalcNode::Operation), as_number("calc(1 + 2)"));
    assert!(!result.success);
    assert_eq!(result.value, 0);
    assert_eq!(f32::from_bits(result.value), 0.0);
}

#[test]
fn plain_number_is_read_from_the_trimmed_text() {
    for (text, expected) in [("42", 42.0f32), ("  3.5\n", 3.5), ("-0.25", -0.25), ("1e3", 1000.0)] {
        let result = evaluate_calc_expression(text, None, as_number(text));
        assert!(result.success, "{:?}", text);
        assert_eq!(f32::from_bits(result.value), expected);
    }
}

#[test]
fn text_that_is_neither_fails_with_zero() {
    for text in ["", "   ", "abc", "10px", "calc(", "4 2"] {
        let result = evaluate_calc_expression(text, None, as_number(text));
        assert_eq!(result, CalcResult { value: 0, success: false }, "{:?}", text);
    }
}

#[test]
fn expression_counts_before_the_plain_number() {
    let node = CalcNode::Leaf(Leaf::Number(7.0f32.to_bits()));
    let result = evaluate_calc_expression("9", Some(node), Some(9.0f32.to_bits()));
    assert!(result.success);
    assert_eq!(f32::from_bits(result.value), 7.0);
}

#[test]
fn plain_number_counts_where_the_expression_gives_none() {
    let result = evaluate_calc_expression(" 9 ", Some(CalcNode::Operation), Some(9.0f32.to_bits()));
    assert!(result.success);
    assert_eq!(f32::from_bits(result.value), 9.0);
    let result = evaluate_calc_expression("1e-45", Some(CalcNode::Leaf(Leaf::Dimension)), Some(1));
    assert_eq!(result, CalcResult { value: 1, success: true });
}

#[test]
fn number_zero_is_a_success() {
    let result = evaluate_calc_expression("0", None, as_number("0"));
    assert_eq!(result, CalcResult { value: 0, success: true });
    let node = CalcNode::Leaf(Leaf::Number(0));
    assert_eq!(
        evaluate_calc_expression("calc(0)", Some(node), None),
        CalcResult { value: 0, success: true }
    );
}

#[test]
fn blocks_nested_too_deep_are_refused() {
    let shallow = "(".repeat(10);
    assert!(parse_css_value(&shallow, "x").success);
    let deep = "(".repeat(200);
    let result = parse_css_value(&deep, "x");
    assert!(!result.success);
    assert_eq!(result.value, "");
}

#[test]
fn value_in_any_script_is_handed_back_unchanged() {
    for value in ["\u{1F600}", "ширина", "\u{0}", "\u{FFFD}\u{FFFD}", "a\u{200B}b"] {
        let result = parse_css_value(value, "x");
        assert!(result.success, "{:?}", value);
        assert_eq!(result.value, value);
        let computed = get_computed_value(value, "x", 0);
        assert!(computed.success);
        assert_eq!(computed.value, value);
    }
}
