//! Colours as plain numbers.
use vstd::prelude::*;

verus! {

/// How opaque a colour is.
#[derive(Copy, Clone, PartialEq, Eq, Structural, Debug)]
pub enum Alpha {
    /// So many parts of 255.
    Byte(u8),
    /// So many parts of 100.
    Percent(u8),
}

/// An sRGB colour, each channel in parts of 255.
#[derive(Copy, Clone, PartialEq, Eq, Structural, Debug)]
pub struct Color {
    pub red: u8,
    pub green: u8,
    pub blue: u8,
    pub alpha: Alpha,
}

/// The opaque colour with the given channels.
pub open spec fn opaque(red: u8, green: u8, blue: u8) -> Color {
    rgba(red, green, blue, 255)
}

/// The colour with the given channels and an opacity in parts of 255.
pub open spec fn rgba(red: u8, green: u8, blue: u8, alpha: u8) -> Color {
    Color { red, green, blue, alpha: Alpha::Byte(alpha) }
}

/// `color` with its opacity set to `percent`.
pub open spec fn faded(color: Color, percent: u8) -> Color {
    Color { alpha: Alpha::Percent(percent), ..color }
}

/// The opaque colour with the given channels.
pub fn rgb(red: u8, green: u8, blue: u8) -> (color: Color)
    ensures
        color == opaque(red, green, blue),
{
    rgba8(red, green, blue, 255)
}

/// The colour with the given channels and an opacity in parts of 255.
pub(crate) fn rgba8(red: u8, green: u8, blue: u8, alpha: u8) -> (color: Color)
    ensures
        color == rgba(red, green, blue, alpha),
{
    Color { red, green, blue, alpha: Alpha::Byte(alpha) }
}

/// `color` with its opacity replaced; the channels stay.
pub fn with_alpha(color: Color, percent: u8) -> (result: Color)
    ensures
        result == faded(color, percent),
{
    let mut result = color;
    result.alpha = Alpha::Percent(percent);
    result
}

/// Whether a colour has the channels of a code such as `0xRRGGBB`.
pub open spec fn has_code(color: Color, code: int) -> bool {
    color.red * 0x1_0000 + color.green * 0x100 + color.blue == code
}

/// Whether two colours have the same channels, however opaque they are.
pub open spec fn same_channels(one: Color, other: Color) -> bool {
    one.red == other.red && one.green == other.green && one.blue == other.blue
}

/// A colour has the channels that it was made of, in their order, and the opacity that was asked
/// for, in parts of 255.
pub proof fn law_colors_keep_their_channels(red: u8, green: u8, blue: u8, alpha: u8)
    ensures
        has_code(opaque(red, green, blue), red * 0x1_0000 + green * 0x100 + blue),
        has_code(rgba(red, green, blue, alpha), red * 0x1_0000 + green * 0x100 + blue),
        opaque(red, green, blue).alpha == Alpha::Byte(255),
        rgba(red, green, blue, alpha).alpha == Alpha::Byte(alpha),
{
}

/// Fading a colour leaves its channels alone, sets its opacity to the percentage asked for whatever
/// it was before, and so undoes any fading before it.
pub proof fn law_fading_sets_the_opacity(color: Color, first: u8, last: u8)
    ensures
        same_channels(faded(color, last), color),
        faded(color, last).alpha == Alpha::Percent(last),
        faded(faded(color, first), last) == faded(color, last),
{
}

} // verus!
