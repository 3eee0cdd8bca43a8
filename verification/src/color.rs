//! Resolution of a parsed CSS colour into a flat record.
//!
//! The colour grammar is the style engine's. This module starts from what the
//! grammar produced and decides what can be reported: an absolute colour is
//! reported as it stands, anything that needs cascade context is refused with
//! a message of its own.
//!
//! Channel values are IEEE-754 single-precision numbers and are carried as
//! their bit patterns, so that every field of a record is an integer.

use vstd::prelude::*;
use vstd::string::*;
use crate::channel::{channel_byte, channel_to_byte, pack_rgba, packed_rgba};

verus! {

/// The colour spaces an absolute colour can be tagged with.
#[derive(Clone, Copy, Debug, PartialEq, Eq, Structural)]
pub enum ColorSpace {
    Srgb,
    Hsl,
    Hwb,
    Lab,
    Lch,
    Oklab,
    Oklch,
    SrgbLinear,
    DisplayP3,
    A98Rgb,
    ProphotoRgb,
    Rec2020,
    XyzD50,
    XyzD65,
}

impl ColorSpace {
    /// The number that stands for a colour space on the host side.
    pub open spec fn spec_tag(self) -> u8 {
        match self {
            ColorSpace::Srgb => 0,
            ColorSpace::Hsl => 1,
            ColorSpace::Hwb => 2,
            ColorSpace::Lab => 3,
            ColorSpace::Lch => 4,
            ColorSpace::Oklab => 5,
            ColorSpace::Oklch => 6,
            ColorSpace::SrgbLinear => 7,
            ColorSpace::DisplayP3 => 8,
            ColorSpace::A98Rgb => 9,
            ColorSpace::ProphotoRgb => 10,
            ColorSpace::Rec2020 => 11,
            ColorSpace::XyzD50 => 12,
            ColorSpace::XyzD65 => 13,
        }
    }

    /// The colour space that a number stands for, if it stands for one.
    pub open spec fn spec_from_tag(tag: u8) -> Option<ColorSpace> {
        if tag == 0 {
            Some(ColorSpace::Srgb)
        } else if tag == 1 {
            Some(ColorSpace::Hsl)
        } else if tag == 2 {
            Some(ColorSpace::Hwb)
        } else if tag == 3 {
            Some(ColorSpace::Lab)
        } else if tag == 4 {
            Some(ColorSpace::Lch)
        } else if tag == 5 {
            Some(ColorSpace::Oklab)
        } else if tag == 6 {
            Some(ColorSpace::Oklch)
        } else if tag == 7 {
            Some(ColorSpace::SrgbLinear)
        } else if tag == 8 {
            Some(ColorSpace::DisplayP3)
        } else if tag == 9 {
            Some(ColorSpace::A98Rgb)
        } else if tag == 10 {
            Some(ColorSpace::ProphotoRgb)
        } else if tag == 11 {
            Some(ColorSpace::Rec2020)
        } else if tag == 12 {
            Some(ColorSpace::XyzD50)
        } else if tag == 13 {
            Some(ColorSpace::XyzD65)
        } else {
            None
        }
    }

    #[verifier::when_used_as_spec(spec_tag)]
    pub fn tag(self) -> (t: u8)
        ensures
            t == self.spec_tag(),
            t < 14,
    {
        match self {
            ColorSpace::Srgb => 0,
            ColorSpace::Hsl => 1,
            ColorSpace::Hwb => 2,
            ColorSpace::Lab => 3,
            ColorSpace::Lch => 4,
            ColorSpace::Oklab => 5,
            ColorSpace::Oklch => 6,
            ColorSpace::SrgbLinear => 7,
            ColorSpace::DisplayP3 => 8,
            ColorSpace::A98Rgb => 9,
            ColorSpace::ProphotoRgb => 10,
            ColorSpace::Rec2020 => 11,
            ColorSpace::XyzD50 => 12,
            ColorSpace::XyzD65 => 13,
        }
    }

    pub fn from_tag(tag: u8) -> (space: Option<ColorSpace>)
        ensures
            space == Self::spec_from_tag(tag),
            space is Some <==> tag < 14,
    {
        match tag {
            0 => Some(ColorSpace::Srgb),
            1 => Some(ColorSpace::Hsl),
            2 => Some(ColorSpace::Hwb),
            3 => Some(ColorSpace::Lab),
            4 => Some(ColorSpace::Lch),
            5 => Some(ColorSpace::Oklab),
            6 => Some(ColorSpace::Oklch),
            7 => Some(ColorSpace::SrgbLinear),
            8 => Some(ColorSpace::DisplayP3),
            9 => Some(ColorSpace::A98Rgb),
            10 => Some(ColorSpace::ProphotoRgb),
            11 => Some(ColorSpace::Rec2020),
            12 => Some(ColorSpace::XyzD50),
            13 => Some(ColorSpace::XyzD65),
            _ => None,
        }
    }

    /// A colour space is found again from its number, so two colour spaces
    /// never share one.
    pub proof fn lemma_tag_round_trip(space: ColorSpace)
        ensures
            Self::spec_from_tag(space.spec_tag()) == Some(space),
    {
    }

    /// A number that stands for a colour space is the number of that space.
    pub proof fn lemma_from_tag_round_trip(tag: u8)
        requires
            tag < 14,
        ensures
            Self::spec_from_tag(tag) is Some,
            Self::spec_from_tag(tag)->0.spec_tag() == tag,
    {
    }
}

/// Three channel values, each the bit pattern of a single-precision number.
/// Their meaning depends on the colour space: red, green, blue for sRGB,
/// hue, saturation, lightness for HSL, and so on.
#[derive(Clone, Copy, Debug, PartialEq, Eq, Structural)]
pub struct ColorComponents {
    pub c0: u32,
    pub c1: u32,
    pub c2: u32,
}

/// A colour that needs nothing from the cascade: a colour space, three
/// channels in that space and an alpha value, the last four as bit patterns.
/// Nothing is clamped here.
#[derive(Clone, Copy, Debug, PartialEq, Eq, Structural)]
pub struct AbsoluteColor {
    pub color_space: ColorSpace,
    pub components: ColorComponents,
    pub alpha: u32,
}

/// What the colour grammar made of a text that it accepted.
#[derive(Clone, Copy, Debug, PartialEq, Eq, Structural)]
pub enum SpecifiedColor {
    /// A colour with all channels known.
    Absolute(AbsoluteColor),
    /// The `currentColor` keyword.
    CurrentColor,
    /// Any other colour that is only known once styles are computed, such as
    /// an unresolved `color-mix()`.
    Unresolved,
}

/// The record handed back for a colour text.
pub struct ParsedColor {
    pub success: bool,
    pub components: ColorComponents,
    pub alpha: u32,
    pub color_space: ColorSpace,
    pub error_message: String,
}

/// A `ParsedColor` with its message as a sequence of characters.
pub struct ParsedColorView {
    pub success: bool,
    pub components: ColorComponents,
    pub alpha: u32,
    pub color_space: ColorSpace,
    pub error_message: Seq<char>,
}

impl View for ParsedColor {
    type V = ParsedColorView;

    open spec fn view(&self) -> ParsedColorView {
        ParsedColorView {
            success: self.success,
            components: self.components,
            alpha: self.alpha,
            color_space: self.color_space,
            error_message: self.error_message@,
        }
    }
}

/// The message for `currentColor`.
pub open spec fn current_color_message() -> Seq<char> {
    "CurrentColor cannot be converted to absolute color"@
}

/// The message for a colour that only computed styles can resolve.
pub open spec fn unresolved_color_message() -> Seq<char> {
    "Color cannot be resolved to absolute color at parse time"@
}

/// The message for a text that the grammar refused, given the grammar's own
/// diagnostic.
pub open spec fn color_syntax_message(diagnostic: Seq<char>) -> Seq<char> {
    "Failed to parse color: "@ + diagnostic
}

/// The record of a colour that was resolved.
pub open spec fn resolved_color(color: AbsoluteColor) -> ParsedColorView {
    ParsedColorView {
        success: true,
        components: color.components,
        alpha: color.alpha,
        color_space: color.color_space,
        error_message: Seq::empty(),
    }
}

/// The record of a failure: all channels zero, the tag of sRGB, and the
/// message.
pub open spec fn failed_color(message: Seq<char>) -> ParsedColorView {
    ParsedColorView {
        success: false,
        components: ColorComponents { c0: 0, c1: 0, c2: 0 },
        alpha: 0,
        color_space: ColorSpace::Srgb,
        error_message: message,
    }
}

/// Why a parsed colour cannot be reported as an absolute colour, if it
/// cannot.
pub open spec fn color_failure(parsed: Result<SpecifiedColor, String>) -> Option<Seq<char>> {
    match parsed {
        Ok(SpecifiedColor::Absolute(_)) => None,
        Ok(SpecifiedColor::CurrentColor) => Some(current_color_message()),
        Ok(SpecifiedColor::Unresolved) => Some(unresolved_color_message()),
        Err(diagnostic) => Some(color_syntax_message(diagnostic@)),
    }
}

/// The record that belongs to each outcome of the colour grammar.
pub open spec fn parsed_color_of(parsed: Result<SpecifiedColor, String>) -> ParsedColorView {
    match parsed {
        Ok(SpecifiedColor::Absolute(color)) => resolved_color(color),
        _ => failed_color(color_failure(parsed)->0),
    }
}

fn color_failed(message: String) -> (r: ParsedColor)
    ensures
        r@ == failed_color(message@),
{
    ParsedColor {
        success: false,
        components: ColorComponents { c0: 0, c1: 0, c2: 0 },
        alpha: 0,
        color_space: ColorSpace::Srgb,
        error_message: message,
    }
}

/// Reports a colour from what the colour grammar made of its text: `Ok` with
/// the value that the grammar produced, `Err` with the grammar's diagnostic.
///
/// An absolute colour succeeds with its channels, alpha and colour space
/// untouched, whatever their values. `currentColor`, a colour that only
/// computed styles can resolve, and a text that the grammar refused each fail
/// with a message of their own.
pub fn parse_color(parsed: Result<SpecifiedColor, String>) -> (r: ParsedColor)
    ensures
        r@ == parsed_color_of(parsed),
        r.success <==> parsed matches Ok(SpecifiedColor::Absolute(_)),
{
    match parsed {
        Ok(SpecifiedColor::Absolute(color)) => ParsedColor {
            success: true,
            components: color.components,
            alpha: color.alpha,
            color_space: color.color_space,
            error_message: String::new(),
        },
        Ok(SpecifiedColor::CurrentColor) => color_failed(
            String::from_str("CurrentColor cannot be converted to absolute color"),
        ),
        Ok(SpecifiedColor::Unresolved) => color_failed(
            String::from_str("Color cannot be resolved to absolute color at parse time"),
        ),
        Err(diagnostic) => color_failed(
            String::from_str("Failed to parse color: ").concat(diagnostic.as_str()),
        ),
    }
}

/// The record handed back for a colour text that was to be packed.
pub struct ParsedNsColor {
    pub success: bool,
    /// Red, green, blue and alpha, one byte each, red in the lowest byte.
    pub nscolor: u32,
    pub error_message: String,
}

/// A `ParsedNsColor` with its message as a sequence of characters.
pub struct ParsedNsColorView {
    pub success: bool,
    pub nscolor: u32,
    pub error_message: Seq<char>,
}

impl View for ParsedNsColor {
    type V = ParsedNsColorView;

    open spec fn view(&self) -> ParsedNsColorView {
        ParsedNsColorView {
            success: self.success,
            nscolor: self.nscolor,
            error_message: self.error_message@,
        }
    }
}

/// The packed form of a colour whose channels are red, green and blue: each
/// channel and the alpha value as its byte, red lowest and alpha highest.
pub open spec fn nscolor_of(color: AbsoluteColor) -> int {
    packed_rgba(
        channel_byte(color.components.c0),
        channel_byte(color.components.c1),
        channel_byte(color.components.c2),
        channel_byte(color.alpha),
    )
}

/// The packed record that belongs to each outcome of the colour grammar.
pub open spec fn parsed_nscolor_of(parsed: Result<SpecifiedColor, String>) -> ParsedNsColorView {
    match parsed {
        Ok(SpecifiedColor::Absolute(color)) => ParsedNsColorView {
            success: true,
            nscolor: nscolor_of(color) as u32,
            error_message: Seq::empty(),
        },
        _ => ParsedNsColorView {
            success: false,
            nscolor: 0,
            error_message: color_failure(parsed)->0,
        },
    }
}

/// Packs a colour of the sRGB space, whose channels are red, green and
/// blue. A colour of another space is converted by the caller first.
pub fn pack_nscolor(color: &AbsoluteColor) -> (packed: u32)
    requires
        color.color_space == ColorSpace::Srgb,
    ensures
        packed == nscolor_of(*color),
{
    pack_rgba(
        channel_to_byte(color.components.c0),
        channel_to_byte(color.components.c1),
        channel_to_byte(color.components.c2),
        channel_to_byte(color.alpha),
    )
}

fn nscolor_failed(message: String) -> (r: ParsedNsColor)
    ensures
        r.success == false,
        r.nscolor == 0,
        r.error_message@ == message@,
{
    ParsedNsColor { success: false, nscolor: 0, error_message: message }
}

/// Whether an outcome of the colour grammar is ready to be packed: an
/// absolute colour is one of the sRGB space.
pub open spec fn is_in_srgb(parsed: Result<SpecifiedColor, String>) -> bool {
    parsed matches Ok(SpecifiedColor::Absolute(color)) ==> color.color_space == ColorSpace::Srgb
}

/// Reports a packed colour from what the colour grammar made of its text,
/// an absolute colour having been converted into the sRGB space.
///
/// An absolute colour succeeds with its packed form: channels outside 0 to 1
/// are clamped, none is refused. Every other outcome fails as in
/// [`parse_color`], with the same message and a packed value of 0.
pub fn parse_color_to_nscolor(parsed: Result<SpecifiedColor, String>) -> (r: ParsedNsColor)
    requires
        is_in_srgb(parsed),
    ensures
        r@ == parsed_nscolor_of(parsed),
        r.success <==> parsed matches Ok(SpecifiedColor::Absolute(_)),
        r.success ==> r.nscolor == nscolor_of(parsed->Ok_0->Absolute_0),
{
    match parsed {
        Ok(SpecifiedColor::Absolute(color)) => ParsedNsColor {
            success: true,
            nscolor: pack_nscolor(&color),
            error_message: String::new(),
        },
        Ok(SpecifiedColor::CurrentColor) => nscolor_failed(
            String::from_str("CurrentColor cannot be converted to absolute color"),
        ),
        Ok(SpecifiedColor::Unresolved) => nscolor_failed(
            String::from_str("Color cannot be resolved to absolute color at parse time"),
        ),
        Err(diagnostic) => nscolor_failed(
            String::from_str("Failed to parse color: ").concat(diagnostic.as_str()),
        ),
    }
}

/// The two refusals of a colour that the grammar accepted are told apart by
/// their messages, and no failure comes with an empty message.
pub proof fn lemma_color_failures_are_told_apart(parsed: Result<SpecifiedColor, String>)
    ensures
        current_color_message() != unresolved_color_message(),
        color_failure(parsed) matches Some(message) ==> message.len() > 0,
        color_failure(parsed) is None <==> parsed matches Ok(SpecifiedColor::Absolute(_)),
{
    reveal_strlit("CurrentColor cannot be converted to absolute color");
    reveal_strlit("Color cannot be resolved to absolute color at parse time");
    reveal_strlit("Failed to parse color: ");
    assert(current_color_message().len() == 50);
    assert(unresolved_color_message().len() == 56);
}

} // verus!
