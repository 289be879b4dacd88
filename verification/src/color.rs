//! Plain color values with exact channel arithmetic.
//!
//! The native toolkit stores a color as four floating-point channels in
//! `[0, 1]`. This model keeps each channel as an integer count of
//! `1/255` units instead, so that every channel value is exact: `0` is an
//! empty channel, [`CHANNEL_MAX`] a full one, and the conventional `0.5` is
//! `128` (rounded to the nearest unit). Equality is exact and field-wise.

use vstd::prelude::*;

verus! {

/// A full channel: one in `1/255` units.
pub const CHANNEL_MAX: u8 = 255;

/// A color: red, green, blue and alpha channels, each in `1/255` units.
#[derive(Clone, Copy, Debug, PartialEq, Eq, Structural)]
pub struct ColorValue {
    pub red: u8,
    pub green: u8,
    pub blue: u8,
    pub alpha: u8,
}

/// Opaque white, the value every builder starts from.
pub open spec fn opaque_white() -> ColorValue {
    ColorValue { red: 255, green: 255, blue: 255, alpha: 255 }
}

/// What replacing one red channel leaves behind.
pub open spec fn with_red_spec(c: ColorValue, red: u8) -> ColorValue {
    ColorValue { red, ..c }
}

/// What replacing one green channel leaves behind.
pub open spec fn with_green_spec(c: ColorValue, green: u8) -> ColorValue {
    ColorValue { green, ..c }
}

/// What replacing one blue channel leaves behind.
pub open spec fn with_blue_spec(c: ColorValue, blue: u8) -> ColorValue {
    ColorValue { blue, ..c }
}

/// What replacing one alpha channel leaves behind.
pub open spec fn with_alpha_spec(c: ColorValue, alpha: u8) -> ColorValue {
    ColorValue { alpha, ..c }
}

impl ColorValue {
    /// Pure construction from the four channels; never fails.
    pub fn new(red: u8, green: u8, blue: u8, alpha: u8) -> (c: ColorValue)
        ensures
            c == (ColorValue { red, green, blue, alpha }),
    {
        ColorValue { red, green, blue, alpha }
    }

    /// A copy of `self` whose red channel is `red`; the others are kept.
    pub fn with_red(self, red: u8) -> (c: ColorValue)
        ensures
            c == with_red_spec(self, red),
    {
        ColorValue { red, ..self }
    }

    /// A copy of `self` whose green channel is `green`; the others are kept.
    pub fn with_green(self, green: u8) -> (c: ColorValue)
        ensures
            c == with_green_spec(self, green),
    {
        ColorValue { green, ..self }
    }

    /// A copy of `self` whose blue channel is `blue`; the others are kept.
    pub fn with_blue(self, blue: u8) -> (c: ColorValue)
        ensures
            c == with_blue_spec(self, blue),
    {
        ColorValue { blue, ..self }
    }

    /// A copy of `self` whose alpha channel is `alpha`; the others are kept.
    pub fn with_alpha(self, alpha: u8) -> (c: ColorValue)
        ensures
            c == with_alpha_spec(self, alpha),
    {
        ColorValue { alpha, ..self }
    }

    /// A builder starting from opaque white.
    pub fn builder() -> (b: ColorValueBuilder)
        ensures
            b.color == opaque_white(),
    {
        ColorValueBuilder { color: ColorValue { red: 255, green: 255, blue: 255, alpha: 255 } }
    }

    /// The red channel.
    pub fn red(&self) -> (r: u8)
        ensures
            r == self.red,
    {
        self.red
    }

    /// Replaces the red channel in place.
    pub fn set_red(&mut self, red: u8)
        ensures
            *final(self) == with_red_spec(*old(self), red),
    {
        self.red = red;
    }

    /// The green channel.
    pub fn green(&self) -> (r: u8)
        ensures
            r == self.green,
    {
        self.green
    }

    /// Replaces the green channel in place.
    pub fn set_green(&mut self, green: u8)
        ensures
            *final(self) == with_green_spec(*old(self), green),
    {
        self.green = green;
    }

    /// The blue channel.
    pub fn blue(&self) -> (r: u8)
        ensures
            r == self.blue,
    {
        self.blue
    }

    /// Replaces the blue channel in place.
    pub fn set_blue(&mut self, blue: u8)
        ensures
            *final(self) == with_blue_spec(*old(self), blue),
    {
        self.blue = blue;
    }

    /// The alpha channel.
    pub fn alpha(&self) -> (r: u8)
        ensures
            r == self.alpha,
    {
        self.alpha
    }

    /// Replaces the alpha channel in place.
    pub fn set_alpha(&mut self, alpha: u8)
        ensures
            *final(self) == with_alpha_spec(*old(self), alpha),
    {
        self.alpha = alpha;
    }
}

impl Default for ColorValue {
    /// Opaque white.
    fn default() -> (c: ColorValue)
        ensures
            c == opaque_white(),
    {
        ColorValue { red: 255, green: 255, blue: 255, alpha: 255 }
    }
}

/// The builder a fresh chain starts from.
pub open spec fn builder_start() -> ColorValueBuilder {
    ColorValueBuilder { color: opaque_white() }
}

/// One builder step overriding the red channel.
pub open spec fn builder_red_spec(b: ColorValueBuilder, v: u8) -> ColorValueBuilder {
    ColorValueBuilder { color: with_red_spec(b.color, v) }
}

/// One builder step overriding the green channel.
pub open spec fn builder_green_spec(b: ColorValueBuilder, v: u8) -> ColorValueBuilder {
    ColorValueBuilder { color: with_green_spec(b.color, v) }
}

/// One builder step overriding the blue channel.
pub open spec fn builder_blue_spec(b: ColorValueBuilder, v: u8) -> ColorValueBuilder {
    ColorValueBuilder { color: with_blue_spec(b.color, v) }
}

/// One builder step overriding the alpha channel.
pub open spec fn builder_alpha_spec(b: ColorValueBuilder, v: u8) -> ColorValueBuilder {
    ColorValueBuilder { color: with_alpha_spec(b.color, v) }
}

/// A chainable, consuming builder for [`ColorValue`]; it starts from opaque
/// white and overrides one channel per step.
#[derive(Clone, Copy, Debug, PartialEq, Eq, Structural)]
pub struct ColorValueBuilder {
    pub color: ColorValue,
}

impl ColorValueBuilder {
    /// A builder holding opaque white.
    pub fn new() -> (b: ColorValueBuilder)
        ensures
            b == builder_start(),
    {
        ColorValueBuilder { color: ColorValue { red: 255, green: 255, blue: 255, alpha: 255 } }
    }

    /// Overrides the red channel.
    pub fn red(self, red: u8) -> (b: ColorValueBuilder)
        ensures
            b == builder_red_spec(self, red),
    {
        ColorValueBuilder { color: self.color.with_red(red) }
    }

    /// Overrides the green channel.
    pub fn green(self, green: u8) -> (b: ColorValueBuilder)
        ensures
            b == builder_green_spec(self, green),
    {
        ColorValueBuilder { color: self.color.with_green(green) }
    }

    /// Overrides the blue channel.
    pub fn blue(self, blue: u8) -> (b: ColorValueBuilder)
        ensures
            b == builder_blue_spec(self, blue),
    {
        ColorValueBuilder { color: self.color.with_blue(blue) }
    }

    /// Overrides the alpha channel.
    pub fn alpha(self, alpha: u8) -> (b: ColorValueBuilder)
        ensures
            b == builder_alpha_spec(self, alpha),
    {
        ColorValueBuilder { color: self.color.with_alpha(alpha) }
    }

    /// The accumulated color.
    pub fn build(self) -> (c: ColorValue)
        ensures
            c == self.color,
    {
        self.color
    }
}

impl Default for ColorValueBuilder {
    /// A builder holding opaque white.
    fn default() -> (b: ColorValueBuilder)
        ensures
            b.color == opaque_white(),
    {
        ColorValueBuilder { color: ColorValue { red: 255, green: 255, blue: 255, alpha: 255 } }
    }
}

/// The builder path and the direct update path agree: starting a builder,
/// overriding one channel and building gives the same color that replacing
/// that channel on the default color gives, for every channel value.
pub proof fn lemma_builder_agrees_with_update(v: u8)
    ensures
        builder_red_spec(builder_start(), v).color == with_red_spec(opaque_white(), v),
        builder_green_spec(builder_start(), v).color == with_green_spec(opaque_white(), v),
        builder_blue_spec(builder_start(), v).color == with_blue_spec(opaque_white(), v),
        builder_alpha_spec(builder_start(), v).color == with_alpha_spec(opaque_white(), v),
{
}

/// Rejection of a color string that the textual grammar does not cover.
#[derive(Clone, Copy, Debug, PartialEq, Eq, Structural)]
pub struct ParseError {}

/// Whether `c` is an ASCII decimal digit.
pub open spec fn is_digit(c: char) -> bool {
    48 <= (c as u32) && (c as u32) <= 57
}

/// The value of an ASCII decimal digit.
pub open spec fn digit_val(c: char) -> int {
    (c as u32) - 48
}

/// Whether `c` is an ASCII hexadecimal digit, either case.
pub open spec fn is_hex_digit(c: char) -> bool {
    is_digit(c) || (97 <= (c as u32) && (c as u32) <= 102) || (65 <= (c as u32) && (c as u32)
        <= 70)
}

/// The value of an ASCII hexadecimal digit, either case.
pub open spec fn hex_val(c: char) -> int {
    if is_digit(c) {
        (c as u32) - 48
    } else if 97 <= (c as u32) {
        (c as u32) - 87
    } else {
        (c as u32) - 55
    }
}

/// Whether every character from position `i` on is a hexadecimal digit.
pub open spec fn all_hex_from(s: Seq<char>, i: int) -> bool {
    forall|k: int| i <= k < s.len() ==> is_hex_digit(s[k])
}

/// The hexadecimal forms of the grammar: `#` followed by 3, 4, 6 or 8
/// hexadecimal digits. A single digit per channel is doubled, so `#fff`
/// is `#ffffff`; three or six digits leave the alpha channel full.
pub open spec fn hex_color(s: Seq<char>) -> Option<ColorValue> {
    if s.len() >= 1 && s[0] == '#' && all_hex_from(s, 1) {
        if s.len() == 4 {
            Some(
                ColorValue {
                    red: (17 * hex_val(s[1])) as u8,
                    green: (17 * hex_val(s[2])) as u8,
                    blue: (17 * hex_val(s[3])) as u8,
                    alpha: 255,
                },
            )
        } else if s.len() == 5 {
            Some(
                ColorValue {
                    red: (17 * hex_val(s[1])) as u8,
                    green: (17 * hex_val(s[2])) as u8,
                    blue: (17 * hex_val(s[3])) as u8,
                    alpha: (17 * hex_val(s[4])) as u8,
                },
            )
        } else if s.len() == 7 {
            Some(
                ColorValue {
                    red: (16 * hex_val(s[1]) + hex_val(s[2])) as u8,
                    green: (16 * hex_val(s[3]) + hex_val(s[4])) as u8,
                    blue: (16 * hex_val(s[5]) + hex_val(s[6])) as u8,
                    alpha: 255,
                },
            )
        } else if s.len() == 9 {
            Some(
                ColorValue {
                    red: (16 * hex_val(s[1]) + hex_val(s[2])) as u8,
                    green: (16 * hex_val(s[3]) + hex_val(s[4])) as u8,
                    blue: (16 * hex_val(s[5]) + hex_val(s[6])) as u8,
                    alpha: (16 * hex_val(s[7]) + hex_val(s[8])) as u8,
                },
            )
        } else {
            None
        }
    } else {
        None
    }
}

/// The color a recognized name denotes, if any. The table is the CSS
/// named-color set plus `transparent`; names are matched without regard
/// to ASCII case.
pub open spec fn named_color(s: Seq<char>) -> Option<ColorValue> {
    if crate::text::eq_ignore_ascii_case(s, "aliceblue"@) {
        Some(ColorValue { red: 240, green: 248, blue: 255, alpha: 255 })
    } else if crate::text::eq_ignore_ascii_case(s, "antiquewhite"@) {
        Some(ColorValue { red: 250, green: 235, blue: 215, alpha: 255 })
    } else if crate::text::eq_ignore_ascii_case(s, "aqua"@) {
        Some(ColorValue { red: 0, green: 255, blue: 255, alpha: 255 })
    } else if crate::text::eq_ignore_ascii_case(s, "aquamarine"@) {
        Some(ColorValue { red: 127, green: 255, blue: 212, alpha: 255 })
    } else if crate::text::eq_ignore_ascii_case(s, "azure"@) {
        Some(ColorValue { red: 240, green: 255, blue: 255, alpha: 255 })
    } else if crate::text::eq_ignore_ascii_case(s, "beige"@) {
        Some(ColorValue { red: 245, green: 245, blue: 220, alpha: 255 })
    } else if crate::text::eq_ignore_ascii_case(s, "bisque"@) {
        Some(ColorValue { red: 255, green: 228, blue: 196, alpha: 255 })
    } else if crate::text::eq_ignore_ascii_case(s, "black"@) {
        Some(ColorValue { red: 0, green: 0, blue: 0, alpha: 255 })
    } else if crate::text::eq_ignore_ascii_case(s, "blanchedalmond"@) {
        Some(ColorValue { red: 255, green: 235, blue: 205, alpha: 255 })
    } else if crate::text::eq_ignore_ascii_case(s, "blue"@) {
        Some(ColorValue { red: 0, green: 0, blue: 255, alpha: 255 })
    } else if crate::text::eq_ignore_ascii_case(s, "blueviolet"@) {
        Some(ColorValue { red: 138, green: 43, blue: 226, alpha: 255 })
    } else if crate::text::eq_ignore_ascii_case(s, "brown"@) {
        Some(ColorValue { red: 165, green: 42, blue: 42, alpha: 255 })
    } else if crate::text::eq_ignore_ascii_case(s, "burlywood"@) {
        Some(ColorValue { red: 222, green: 184, blue: 135, alpha: 255 })
    } else if crate::text::eq_ignore_ascii_case(s, "cadetblue"@) {
        Some(ColorValue { red: 95, green: 158, blue: 160, alpha: 255 })
    } else if crate::text::eq_ignore_ascii_case(s, "chartreuse"@) {
        Some(ColorValue { red: 127, green: 255, blue: 0, alpha: 255 })
    } else if crate::text::eq_ignore_ascii_case(s, "chocolate"@) {
        Some(ColorValue { red: 210, green: 105, blue: 30, alpha: 255 })
    } else if crate::text::eq_ignore_ascii_case(s, "coral"@) {
        Some(ColorValue { red: 255, green: 127, blue: 80, alpha: 255 })
    } else if crate::text::eq_ignore_ascii_case(s, "cornflowerblue"@) {
        Some(ColorValue { red: 100, green: 149, blue: 237, alpha: 255 })
    } else if crate::text::eq_ignore_ascii_case(s, "cornsilk"@) {
        Some(ColorValue { red: 255, green: 248, blue: 220, alpha: 255 })
    } else if crate::text::eq_ignore_ascii_case(s, "crimson"@) {
        Some(ColorValue { red: 220, green: 20, blue: 60, alpha: 255 })
    } else if crate::text::eq_ignore_ascii_case(s, "cyan"@) {
        Some(ColorValue { red: 0, green: 255, blue: 255, alpha: 255 })
    } else if crate::text::eq_ignore_ascii_case(s, "darkblue"@) {
        Some(ColorValue { red: 0, green: 0, blue: 139, alpha: 255 })
    } else if crate::text::eq_ignore_ascii_case(s, "darkcyan"@) {
        Some(ColorValue { red: 0, green: 139, blue: 139, alpha: 255 })
    } else if crate::text::eq_ignore_ascii_case(s, "darkgoldenrod"@) {
        Some(ColorValue { red: 184, green: 134, blue: 11, alpha: 255 })
    } else if crate::text::eq_ignore_ascii_case(s, "darkgray"@) {
        Some(ColorValue { red: 169, green: 169, blue: 169, alpha: 255 })
    } else if crate::text::eq_ignore_ascii_case(s, "darkgreen"@) {
        Some(ColorValue { red: 0, green: 100, blue: 0, alpha: 255 })
    } else if crate::text::eq_ignore_ascii_case(s, "darkgrey"@) {
        Some(ColorValue { red: 169, green: 169, blue: 169, alpha: 255 })
    } else if crate::text::eq_ignore_ascii_case(s, "darkkhaki"@) {
        Some(ColorValue { red: 189, green: 183, blue: 107, alpha: 255 })
    } else if crate::text::eq_ignore_ascii_case(s, "darkmagenta"@) {
        Some(ColorValue { red: 139, green: 0, blue: 139, alpha: 255 })
    } else if crate::text::eq_ignore_ascii_case(s, "darkolivegreen"@) {
        Some(ColorValue { red: 85, green: 107, blue: 47, alpha: 255 })
    } else if crate::text::eq_ignore_ascii_case(s, "darkorange"@) {
        Some(ColorValue { red: 255, green: 140, blue: 0, alpha: 255 })
    } else if crate::text::eq_ignore_ascii_case(s, "darkorchid"@) {
        Some(ColorValue { red: 153, green: 50, blue: 204, alpha: 255 })
    } else if crate::text::eq_ignore_ascii_case(s, "darkred"@) {
        Some(ColorValue { red: 139, green: 0, blue: 0, alpha: 255 })
    } else if crate::text::eq_ignore_ascii_case(s, "darksalmon"@) {
        Some(ColorValue { red: 233, green: 150, blue: 122, alpha: 255 })
    } else if crate::text::eq_ignore_ascii_case(s, "darkseagreen"@) {
        Some(ColorValue { red: 143, green: 188, blue: 143, alpha: 255 })
    } else if crate::text::eq_ignore_ascii_case(s, "darkslateblue"@) {
        Some(ColorValue { red: 72, green: 61, blue: 139, alpha: 255 })
    } else if crate::text::eq_ignore_ascii_case(s, "darkslategray"@) {
        Some(ColorValue { red: 47, green: 79, blue: 79, alpha: 255 })
    } else if crate::text::eq_ignore_ascii_case(s, "darkslategrey"@) {
        Some(ColorValue { red: 47, green: 79, blue: 79, alpha: 255 })
    } else if crate::text::eq_ignore_ascii_case(s, "darkturquoise"@) {
        Some(ColorValue { red: 0, green: 206, blue: 209, alpha: 255 })
    } else if crate::text::eq_ignore_ascii_case(s, "darkviolet"@) {
        Some(ColorValue { red: 148, green: 0, blue: 211, alpha: 255 })
    } else if crate::text::eq_ignore_ascii_case(s, "deeppink"@) {
        Some(ColorValue { red: 255, green: 20, blue: 147, alpha: 255 })
    } else if crate::text::eq_ignore_ascii_case(s, "deepskyblue"@) {
        Some(ColorValue { red: 0, green: 191, blue: 255, alpha: 255 })
    } else if crate::text::eq_ignore_ascii_case(s, "dimgray"@) {
        Some(ColorValue { red: 105, green: 105, blue: 105, alpha: 255 })
    } else if crate::text::eq_ignore_ascii_case(s, "dimgrey"@) {
        Some(ColorValue { red: 105, green: 105, blue: 105, alpha: 255 })
    } else if crate::text::eq_ignore_ascii_case(s, "dodgerblue"@) {
        Some(ColorValue { red: 30, green: 144, blue: 255, alpha: 255 })
    } else if crate::text::eq_ignore_ascii_case(s, "firebrick"@) {
        Some(ColorValue { red: 178, green: 34, blue: 34, alpha: 255 })
    } else if crate::text::eq_ignore_ascii_case(s, "floralwhite"@) {
        Some(ColorValue { red: 255, green: 250, blue: 240, alpha: 255 })
    } else if crate::text::eq_ignore_ascii_case(s, "forestgreen"@) {
        Some(ColorValue { red: 34, green: 139, blue: 34, alpha: 255 })
    } else if crate::text::eq_ignore_ascii_case(s, "fuchsia"@) {
        Some(ColorValue { red: 255, green: 0, blue: 255, alpha: 255 })
    } else if crate::text::eq_ignore_ascii_case(s, "gainsboro"@) {
        Some(ColorValue { red: 220, green: 220, blue: 220, alpha: 255 })
    } else if crate::text::eq_ignore_ascii_case(s, "ghostwhite"@) {
        Some(ColorValue { red: 248, green: 248, blue: 255, alpha: 255 })
    } else if crate::text::eq_ignore_ascii_case(s, "gold"@) {
        Some(ColorValue { red: 255, green: 215, blue: 0, alpha: 255 })
    } else if crate::text::eq_ignore_ascii_case(s, "goldenrod"@) {
        Some(ColorValue { red: 218, green: 165, blue: 32, alpha: 255 })
    } else if crate::text::eq_ignore_ascii_case(s, "gray"@) {
        Some(ColorValue { red: 128, green: 128, blue: 128, alpha: 255 })
    } else if crate::text::eq_ignore_ascii_case(s, "green"@) {
        Some(ColorValue { red: 0, green: 128, blue: 0, alpha: 255 })
    } else if crate::text::eq_ignore_ascii_case(s, "greenyellow"@) {
        Some(ColorValue { red: 173, green: 255, blue: 47, alpha: 255 })
    } else if crate::text::eq_ignore_ascii_case(s, "grey"@) {
        Some(ColorValue { red: 128, green: 128, blue: 128, alpha: 255 })
    } else if crate::text::eq_ignore_ascii_case(s, "honeydew"@) {
        Some(ColorValue { red: 240, green: 255, blue: 240, alpha: 255 })
    } else if crate::text::eq_ignore_ascii_case(s, "hotpink"@) {
        Some(ColorValue { red: 255, green: 105, blue: 180, alpha: 255 })
    } else if crate::text::eq_ignore_ascii_case(s, "indianred"@) {
        Some(ColorValue { red: 205, green: 92, blue: 92, alpha: 255 })
    } else if crate::text::eq_ignore_ascii_case(s, "indigo"@) {
        Some(ColorValue { red: 75, green: 0, blue: 130, alpha: 255 })
    } else if crate::text::eq_ignore_ascii_case(s, "ivory"@) {
        Some(ColorValue { red: 255, green: 255, blue: 240, alpha: 255 })
    } else if crate::text::eq_ignore_ascii_case(s, "khaki"@) {
        Some(ColorValue { red: 240, green: 230, blue: 140, alpha: 255 })
    } else if crate::text::eq_ignore_ascii_case(s, "lavender"@) {
        Some(ColorValue { red: 230, green: 230, blue: 250, alpha: 255 })
    } else if crate::text::eq_ignore_ascii_case(s, "lavenderblush"@) {
        Some(ColorValue { red: 255, green: 240, blue: 245, alpha: 255 })
    } else if crate::text::eq_ignore_ascii_case(s, "lawngreen"@) {
        Some(ColorValue { red: 124, green: 252, blue: 0, alpha: 255 })
    } else if crate::text::eq_ignore_ascii_case(s, "lemonchiffon"@) {
        Some(ColorValue { red: 255, green: 250, blue: 205, alpha: 255 })
    } else if crate::text::eq_ignore_ascii_case(s, "lightblue"@) {
        Some(ColorValue { red: 173, green: 216, blue: 230, alpha: 255 })
    } else if crate::text::eq_ignore_ascii_case(s, "lightcoral"@) {
        Some(ColorValue { red: 240, green: 128, blue: 128, alpha: 255 })
    } else if crate::text::eq_ignore_ascii_case(s, "lightcyan"@) {
        Some(ColorValue { red: 224, green: 255, blue: 255, alpha: 255 })
    } else if crate::text::eq_ignore_ascii_case(s, "lightgoldenrodyellow"@) {
        Some(ColorValue { red: 250, green: 250, blue: 210, alpha: 255 })
    } else if crate::text::eq_ignore_ascii_case(s, "lightgray"@) {
        Some(ColorValue { red: 211, green: 211, blue: 211, alpha: 255 })
    } else if crate::text::eq_ignore_ascii_case(s, "lightgreen"@) {
        Some(ColorValue { red: 144, green: 238, blue: 144, alpha: 255 })
    } else if crate::text::eq_ignore_ascii_case(s, "lightgrey"@) {
        Some(ColorValue { red: 211, green: 211, blue: 211, alpha: 255 })
    } else if crate::text::eq_ignore_ascii_case(s, "lightpink"@) {
        Some(ColorValue { red: 255, green: 182, blue: 193, alpha: 255 })
    } else if crate::text::eq_ignore_ascii_case(s, "lightsalmon"@) {
        Some(ColorValue { red: 255, green: 160, blue: 122, alpha: 255 })
    } else if crate::text::eq_ignore_ascii_case(s, "lightseagreen"@) {
        Some(ColorValue { red: 32, green: 178, blue: 170, alpha: 255 })
    } else if crate::text::eq_ignore_ascii_case(s, "lightskyblue"@) {
        Some(ColorValue { red: 135, green: 206, blue: 250, alpha: 255 })
    } else if crate::text::eq_ignore_ascii_case(s, "lightslategray"@) {
        Some(ColorValue { red: 119, green: 136, blue: 153, alpha: 255 })
    } else if crate::text::eq_ignore_ascii_case(s, "lightslategrey"@) {
        Some(ColorValue { red: 119, green: 136, blue: 153, alpha: 255 })
    } else if crate::text::eq_ignore_ascii_case(s, "lightsteelblue"@) {
        Some(ColorValue { red: 176, green: 196, blue: 222, alpha: 255 })
    } else if crate::text::eq_ignore_ascii_case(s, "lightyellow"@) {
        Some(ColorValue { red: 255, green: 255, blue: 224, alpha: 255 })
    } else if crate::text::eq_ignore_ascii_case(s, "lime"@) {
        Some(ColorValue { red: 0, green: 255, blue: 0, alpha: 255 })
    } else if crate::text::eq_ignore_ascii_case(s, "limegreen"@) {
        Some(ColorValue { red: 50, green: 205, blue: 50, alpha: 255 })
    } else if crate::text::eq_ignore_ascii_case(s, "linen"@) {
        Some(ColorValue { red: 250, green: 240, blue: 230, alpha: 255 })
    } else if crate::text::eq_ignore_ascii_case(s, "magenta"@) {
        Some(ColorValue { red: 255, green: 0, blue: 255, alpha: 255 })
    } else if crate::text::eq_ignore_ascii_case(s, "maroon"@) {
        Some(ColorValue { red: 128, green: 0, blue: 0, alpha: 255 })
    } else if crate::text::eq_ignore_ascii_case(s, "mediumaquamarine"@) {
        Some(ColorValue { red: 102, green: 205, blue: 170, alpha: 255 })
    } else if crate::text::eq_ignore_ascii_case(s, "mediumblue"@) {
        Some(ColorValue { red: 0, green: 0, blue: 205, alpha: 255 })
    } else if crate::text::eq_ignore_ascii_case(s, "mediumorchid"@) {
        Some(ColorValue { red: 186, green: 85, blue: 211, alpha: 255 })
    } else if crate::text::eq_ignore_ascii_case(s, "mediumpurple"@) {
        Some(ColorValue { red: 147, green: 112, blue: 219, alpha: 255 })
    } else if crate::text::eq_ignore_ascii_case(s, "mediumseagreen"@) {
        Some(ColorValue { red: 60, green: 179, blue: 113, alpha: 255 })
    } else if crate::text::eq_ignore_ascii_case(s, "mediumslateblue"@) {
        Some(ColorValue { red: 123, green: 104, blue: 238, alpha: 255 })
    } else if crate::text::eq_ignore_ascii_case(s, "mediumspringgreen"@) {
        Some(ColorValue { red: 0, green: 250, blue: 154, alpha: 255 })
    } else if crate::text::eq_ignore_ascii_case(s, "mediumturquoise"@) {
        Some(ColorValue { red: 72, green: 209, blue: 204, alpha: 255 })
    } else if crate::text::eq_ignore_ascii_case(s, "mediumvioletred"@) {
        Some(ColorValue { red: 199, green: 21, blue: 133, alpha: 255 })
    } else if crate::text::eq_ignore_ascii_case(s, "midnightblue"@) {
        Some(ColorValue { red: 25, green: 25, blue: 112, alpha: 255 })
    } else if crate::text::eq_ignore_ascii_case(s, "mintcream"@) {
        Some(ColorValue { red: 245, green: 255, blue: 250, alpha: 255 })
    } else if crate::text::eq_ignore_ascii_case(s, "mistyrose"@) {
        Some(ColorValue { red: 255, green: 228, blue: 225, alpha: 255 })
    } else if crate::text::eq_ignore_ascii_case(s, "moccasin"@) {
        Some(ColorValue { red: 255, green: 228, blue: 181, alpha: 255 })
    } else if crate::text::eq_ignore_ascii_case(s, "navajowhite"@) {
        Some(ColorValue { red: 255, green: 222, blue: 173, alpha: 255 })
    } else if crate::text::eq_ignore_ascii_case(s, "navy"@) {
        Some(ColorValue { red: 0, green: 0, blue: 128, alpha: 255 })
    } else if crate::text::eq_ignore_ascii_case(s, "oldlace"@) {
        Some(ColorValue { red: 253, green: 245, blue: 230, alpha: 255 })
    } else if crate::text::eq_ignore_ascii_case(s, "olive"@) {
        Some(ColorValue { red: 128, green: 128, blue: 0, alpha: 255 })
    } else if crate::text::eq_ignore_ascii_case(s, "olivedrab"@) {
        Some(ColorValue { red: 107, green: 142, blue: 35, alpha: 255 })
    } else if crate::text::eq_ignore_ascii_case(s, "orange"@) {
        Some(ColorValue { red: 255, green: 165, blue: 0, alpha: 255 })
    } else if crate::text::eq_ignore_ascii_case(s, "orangered"@) {
        Some(ColorValue { red: 255, green: 69, blue: 0, alpha: 255 })
    } else if crate::text::eq_ignore_ascii_case(s, "orchid"@) {
        Some(ColorValue { red: 218, green: 112, blue: 214, alpha: 255 })
    } else if crate::text::eq_ignore_ascii_case(s, "palegoldenrod"@) {
        Some(ColorValue { red: 238, green: 232, blue: 170, alpha: 255 })
    } else if crate::text::eq_ignore_ascii_case(s, "palegreen"@) {
        Some(ColorValue { red: 152, green: 251, blue: 152, alpha: 255 })
    } else if crate::text::eq_ignore_ascii_case(s, "paleturquoise"@) {
        Some(ColorValue { red: 175, green: 238, blue: 238, alpha: 255 })
    } else if crate::text::eq_ignore_ascii_case(s, "palevioletred"@) {
        Some(ColorValue { red: 219, green: 112, blue: 147, alpha: 255 })
    } else if crate::text::eq_ignore_ascii_case(s, "papayawhip"@) {
        Some(ColorValue { red: 255, green: 239, blue: 213, alpha: 255 })
    } else if crate::text::eq_ignore_ascii_case(s, "peachpuff"@) {
        Some(ColorValue { red: 255, green: 218, blue: 185, alpha: 255 })
    } else if crate::text::eq_ignore_ascii_case(s, "peru"@) {
        Some(ColorValue { red: 205, green: 133, blue: 63, alpha: 255 })
    } else if crate::text::eq_ignore_ascii_case(s, "pink"@) {
        Some(ColorValue { red: 255, green: 192, blue: 203, alpha: 255 })
    } else if crate::text::eq_ignore_ascii_case(s, "plum"@) {
        Some(ColorValue { red: 221, green: 160, blue: 221, alpha: 255 })
    } else if crate::text::eq_ignore_ascii_case(s, "powderblue"@) {
        Some(ColorValue { red: 176, green: 224, blue: 230, alpha: 255 })
    } else if crate::text::eq_ignore_ascii_case(s, "purple"@) {
        Some(ColorValue { red: 128, green: 0, blue: 128, alpha: 255 })
    } else if crate::text::eq_ignore_ascii_case(s, "red"@) {
        Some(ColorValue { red: 255, green: 0, blue: 0, alpha: 255 })
    } else if crate::text::eq_ignore_ascii_case(s, "rosybrown"@) {
        Some(ColorValue { red: 188, green: 143, blue: 143, alpha: 255 })
    } else if crate::text::eq_ignore_ascii_case(s, "royalblue"@) {
        Some(ColorValue { red: 65, green: 105, blue: 225, alpha: 255 })
    } else if crate::text::eq_ignore_ascii_case(s, "saddlebrown"@) {
        Some(ColorValue { red: 139, green: 69, blue: 19, alpha: 255 })
    } else if crate::text::eq_ignore_ascii_case(s, "salmon"@) {
        Some(ColorValue { red: 250, green: 128, blue: 114, alpha: 255 })
    } else if crate::text::eq_ignore_ascii_case(s, "sandybrown"@) {
        Some(ColorValue { red: 244, green: 164, blue: 96, alpha: 255 })
    } else if crate::text::eq_ignore_ascii_case(s, "seagreen"@) {
        Some(ColorValue { red: 46, green: 139, blue: 87, alpha: 255 })
    } else if crate::text::eq_ignore_ascii_case(s, "seashell"@) {
        Some(ColorValue { red: 255, green: 245, blue: 238, alpha: 255 })
    } else if crate::text::eq_ignore_ascii_case(s, "sienna"@) {
        Some(ColorValue { red: 160, green: 82, blue: 45, alpha: 255 })
    } else if crate::text::eq_ignore_ascii_case(s, "silver"@) {
        Some(ColorValue { red: 192, green: 192, blue: 192, alpha: 255 })
    } else if crate::text::eq_ignore_ascii_case(s, "skyblue"@) {
        Some(ColorValue { red: 135, green: 206, blue: 235, alpha: 255 })
    } else if crate::text::eq_ignore_ascii_case(s, "slateblue"@) {
        Some(ColorValue { red: 106, green: 90, blue: 205, alpha: 255 })
    } else if crate::text::eq_ignore_ascii_case(s, "slategray"@) {
        Some(ColorValue { red: 112, green: 128, blue: 144, alpha: 255 })
    } else if crate::text::eq_ignore_ascii_case(s, "slategrey"@) {
        Some(ColorValue { red: 112, green: 128, blue: 144, alpha: 255 })
    } else if crate::text::eq_ignore_ascii_case(s, "snow"@) {
        Some(ColorValue { red: 255, green: 250, blue: 250, alpha: 255 })
    } else if crate::text::eq_ignore_ascii_case(s, "springgreen"@) {
        Some(ColorValue { red: 0, green: 255, blue: 127, alpha: 255 })
    } else if crate::text::eq_ignore_ascii_case(s, "steelblue"@) {
        Some(ColorValue { red: 70, green: 130, blue: 180, alpha: 255 })
    } else if crate::text::eq_ignore_ascii_case(s, "tan"@) {
        Some(ColorValue { red: 210, green: 180, blue: 140, alpha: 255 })
    } else if crate::text::eq_ignore_ascii_case(s, "teal"@) {
        Some(ColorValue { red: 0, green: 128, blue: 128, alpha: 255 })
    } else if crate::text::eq_ignore_ascii_case(s, "thistle"@) {
        Some(ColorValue { red: 216, green: 191, blue: 216, alpha: 255 })
    } else if crate::text::eq_ignore_ascii_case(s, "tomato"@) {
        Some(ColorValue { red: 255, green: 99, blue: 71, alpha: 255 })
    } else if crate::text::eq_ignore_ascii_case(s, "turquoise"@) {
        Some(ColorValue { red: 64, green: 224, blue: 208, alpha: 255 })
    } else if crate::text::eq_ignore_ascii_case(s, "violet"@) {
        Some(ColorValue { red: 238, green: 130, blue: 238, alpha: 255 })
    } else if crate::text::eq_ignore_ascii_case(s, "wheat"@) {
        Some(ColorValue { red: 245, green: 222, blue: 179, alpha: 255 })
    } else if crate::text::eq_ignore_ascii_case(s, "white"@) {
        Some(ColorValue { red: 255, green: 255, blue: 255, alpha: 255 })
    } else if crate::text::eq_ignore_ascii_case(s, "whitesmoke"@) {
        Some(ColorValue { red: 245, green: 245, blue: 245, alpha: 255 })
    } else if crate::text::eq_ignore_ascii_case(s, "yellow"@) {
        Some(ColorValue { red: 255, green: 255, blue: 0, alpha: 255 })
    } else if crate::text::eq_ignore_ascii_case(s, "yellowgreen"@) {
        Some(ColorValue { red: 154, green: 205, blue: 50, alpha: 255 })
    } else if crate::text::eq_ignore_ascii_case(s, "transparent"@) {
        Some(ColorValue { red: 0, green: 0, blue: 0, alpha: 0 })
    } else {
        None
    }
}

/// The first position at or after `i` that does not hold a space.
pub open spec fn skip_spaces(s: Seq<char>, i: int) -> int
    decreases s.len() - i,
{
    if 0 <= i < s.len() && s[i] == ' ' {
        skip_spaces(s, i + 1)
    } else {
        i
    }
}

/// The first position at or after `i` that does not hold a decimal digit.
pub open spec fn digits_end(s: Seq<char>, i: int) -> int
    decreases s.len() - i,
{
    if 0 <= i < s.len() && is_digit(s[i]) {
        digits_end(s, i + 1)
    } else {
        i
    }
}

/// The decimal value of the digits at positions `i` up to `j`.
pub open spec fn digits_val(s: Seq<char>, i: int, j: int) -> int
    decreases j - i,
{
    if i < j {
        10 * digits_val(s, i, j - 1) + digit_val(s[j - 1])
    } else {
        0
    }
}

/// Ten to the power `k`.
pub open spec fn pow10(k: nat) -> int
    decreases k,
{
    if k == 0 {
        1
    } else {
        10 * pow10((k - 1) as nat)
    }
}

/// `j - i` digits spell a value below ten to the `j - i`.
pub proof fn lemma_digits_val_bound(s: Seq<char>, i: int, j: int)
    requires
        i <= j,
        forall|k: int| i <= k < j ==> is_digit(s[k]),
    ensures
        0 <= digits_val(s, i, j) < pow10((j - i) as nat),
    decreases j - i,
{
    if i < j {
        lemma_digits_val_bound(s, i, j - 1);
        assert(pow10((j - i) as nat) == 10 * pow10((j - i - 1) as nat));
    }
}

/// `pow10` grows with its argument.
pub proof fn lemma_pow10_increases(a: nat, b: nat)
    requires
        a <= b,
    ensures
        pow10(a) <= pow10(b),
    decreases b,
{
    if a < b {
        lemma_pow10_increases(a, (b - 1) as nat);
        assert(pow10(b) == 10 * pow10((b - 1) as nat));
        assert(pow10((b - 1) as nat) >= 1) by {
            lemma_pow10_increases(0, (b - 1) as nat);
        }
    }
}

/// The position after `i` when character `c` stands there.
pub open spec fn expect_char(s: Seq<char>, i: int, c: char) -> Option<int> {
    if 0 <= i < s.len() && s[i] == c {
        Some(i + 1)
    } else {
        None
    }
}

/// One `0`-to-`255` component of a functional form, with surrounding
/// spaces allowed: its value and the position after its trailing spaces.
pub open spec fn parse_component(s: Seq<char>, i: int) -> Option<(int, int)> {
    let a = skip_spaces(s, i);
    let b = digits_end(s, a);
    if a < b && b - a <= 3 {
        let v = digits_val(s, a, b);
        if v <= 255 {
            Some((v, skip_spaces(s, b)))
        } else {
            None
        }
    } else {
        None
    }
}

/// The channel value nearest to the fraction `num / den`, in `1/255` units.
pub open spec fn alpha_byte(num: int, den: int) -> int {
    (510 * num + den) / (2 * den)
}

/// The alpha component of the functional form: `0` or `1`, with an optional
/// fraction of one to eight digits, surrounded by optional spaces. Its value
/// is rounded to the nearest `1/255` unit.
pub open spec fn parse_alpha(s: Seq<char>, i: int) -> Option<(int, int)> {
    let a = skip_spaces(s, i);
    let b = digits_end(s, a);
    if b == a + 1 && digit_val(s[a]) <= 1 {
        let ip = digit_val(s[a]);
        if 0 <= b < s.len() && s[b] == '.' {
            let c = b + 1;
            let d = digits_end(s, c);
            if c < d && d - c <= 8 {
                let num = ip * pow10((d - c) as nat) + digits_val(s, c, d);
                let den = pow10((d - c) as nat);
                if num <= den {
                    Some((alpha_byte(num, den), skip_spaces(s, d)))
                } else {
                    None
                }
            } else {
                None
            }
        } else {
            Some((ip * 255, skip_spaces(s, b)))
        }
    } else {
        None
    }
}

/// Whether `s` opens a `rgb(` form.
pub open spec fn starts_rgb(s: Seq<char>) -> bool {
    s.len() >= 4 && s[0] == 'r' && s[1] == 'g' && s[2] == 'b' && s[3] == '('
}

/// Whether `s` opens a `rgba(` form.
pub open spec fn starts_rgba(s: Seq<char>) -> bool {
    s.len() >= 5 && s[0] == 'r' && s[1] == 'g' && s[2] == 'b' && s[3] == 'a' && s[4] == '('
}

/// The functional form `rgb(R, G, B)`: three `0`-to-`255` components and a
/// full alpha channel.
pub open spec fn rgb_color(s: Seq<char>) -> Option<ColorValue> {
    if starts_rgb(s) {
        match parse_component(s, 4) {
            None => None,
            Some((r, i1)) => match expect_char(s, i1, ',') {
                None => None,
                Some(i2) => match parse_component(s, i2) {
                    None => None,
                    Some((g, i3)) => match expect_char(s, i3, ',') {
                        None => None,
                        Some(i4) => match parse_component(s, i4) {
                            None => None,
                            Some((b, i5)) => match expect_char(s, i5, ')') {
                                None => None,
                                Some(i6) => if i6 == s.len() {
                                    Some(
                                        ColorValue {
                                            red: r as u8,
                                            green: g as u8,
                                            blue: b as u8,
                                            alpha: 255,
                                        },
                                    )
                                } else {
                                    None
                                },
                            },
                        },
                    },
                },
            },
        }
    } else {
        None
    }
}

/// The functional form `rgba(R, G, B, A)`: three `0`-to-`255` components and
/// an alpha fraction between `0` and `1`.
pub open spec fn rgba_color(s: Seq<char>) -> Option<ColorValue> {
    if starts_rgba(s) {
        match parse_component(s, 5) {
            None => None,
            Some((r, i1)) => match expect_char(s, i1, ',') {
                None => None,
                Some(i2) => match parse_component(s, i2) {
                    None => None,
                    Some((g, i3)) => match expect_char(s, i3, ',') {
                        None => None,
                        Some(i4) => match parse_component(s, i4) {
                            None => None,
                            Some((b, i5)) => match expect_char(s, i5, ',') {
                                None => None,
                                Some(i6) => match parse_alpha(s, i6) {
                                    None => None,
                                    Some((a, i7)) => match expect_char(s, i7, ')') {
                                        None => None,
                                        Some(i8) => if i8 == s.len() {
                                            Some(
                                                ColorValue {
                                                    red: r as u8,
                                                    green: g as u8,
                                                    blue: b as u8,
                                                    alpha: a as u8,
                                                },
                                            )
                                        } else {
                                            None
                                        },
                                    },
                                },
                            },
                        },
                    },
                },
            },
        }
    } else {
        None
    }
}

/// The whole textual color grammar: a recognized name, a hexadecimal form,
/// or a functional `rgb()`/`rgba()` form.
pub open spec fn parse_color(s: Seq<char>) -> Option<ColorValue> {
    match named_color(s) {
        Some(c) => Some(c),
        None => match hex_color(s) {
            Some(c) => Some(c),
            None => match rgb_color(s) {
                Some(c) => Some(c),
                None => rgba_color(s),
            },
        },
    }
}

impl ColorValue {
    /// Parses a textual color. The grammar covers the CSS color names
    /// (matched without regard to ASCII case), the hexadecimal forms
    /// `#RGB`, `#RGBA`, `#RRGGBB` and `#RRGGBBAA` with digits in either
    /// letter case, and the functional forms `rgb(R, G, B)` and
    /// `rgba(R, G, B, A)`, their keywords lower case, with decimal
    /// components between `0` and `255` and an alpha fraction between `0`
    /// and `1`. Anything else is rejected with [`ParseError`], and no
    /// partial value is produced.
    pub fn parse(s: &str) -> (r: Result<ColorValue, ParseError>)
        ensures
            ({
                let sp = parse_color(s@);
                match r {
                    Ok(c) => sp == Some(c),
                    Err(e) => sp is None && e == (ParseError {  }),
                }
            }),
    {
        let v = crate::text::to_chars(s);
        match named_color_x(&v) {
            Some(c) => Ok(c),
            None => match hex_color_x(&v) {
                Some(c) => Ok(c),
                None => match rgb_color_x(&v) {
                    Some(c) => Ok(c),
                    None => match rgba_color_x(&v) {
                        Some(c) => Ok(c),
                        None => Err(ParseError {  }),
                    },
                },
            },
        }
    }
}

/// Looks `v` up in the table of recognized color names, ignoring ASCII
/// case.
fn named_color_x(v: &Vec<char>) -> (r: Option<ColorValue>)
    ensures
        r == named_color(v@),
{
    if crate::text::chars_eq_str_ci(v, "aliceblue") {
        Some(ColorValue { red: 240, green: 248, blue: 255, alpha: 255 })
    } else if crate::text::chars_eq_str_ci(v, "antiquewhite") {
        Some(ColorValue { red: 250, green: 235, blue: 215, alpha: 255 })
    } else if crate::text::chars_eq_str_ci(v, "aqua") {
        Some(ColorValue { red: 0, green: 255, blue: 255, alpha: 255 })
    } else if crate::text::chars_eq_str_ci(v, "aquamarine") {
        Some(ColorValue { red: 127, green: 255, blue: 212, alpha: 255 })
    } else if crate::text::chars_eq_str_ci(v, "azure") {
        Some(ColorValue { red: 240, green: 255, blue: 255, alpha: 255 })
    } else if crate::text::chars_eq_str_ci(v, "beige") {
        Some(ColorValue { red: 245, green: 245, blue: 220, alpha: 255 })
    } else if crate::text::chars_eq_str_ci(v, "bisque") {
        Some(ColorValue { red: 255, green: 228, blue: 196, alpha: 255 })
    } else if crate::text::chars_eq_str_ci(v, "black") {
        Some(ColorValue { red: 0, green: 0, blue: 0, alpha: 255 })
    } else if crate::text::chars_eq_str_ci(v, "blanchedalmond") {
        Some(ColorValue { red: 255, green: 235, blue: 205, alpha: 255 })
    } else if crate::text::chars_eq_str_ci(v, "blue") {
        Some(ColorValue { red: 0, green: 0, blue: 255, alpha: 255 })
    } else if crate::text::chars_eq_str_ci(v, "blueviolet") {
        Some(ColorValue { red: 138, green: 43, blue: 226, alpha: 255 })
    } else if crate::text::chars_eq_str_ci(v, "brown") {
        Some(ColorValue { red: 165, green: 42, blue: 42, alpha: 255 })
    } else if crate::text::chars_eq_str_ci(v, "burlywood") {
        Some(ColorValue { red: 222, green: 184, blue: 135, alpha: 255 })
    } else if crate::text::chars_eq_str_ci(v, "cadetblue") {
        Some(ColorValue { red: 95, green: 158, blue: 160, alpha: 255 })
    } else if crate::text::chars_eq_str_ci(v, "chartreuse") {
        Some(ColorValue { red: 127, green: 255, blue: 0, alpha: 255 })
    } else if crate::text::chars_eq_str_ci(v, "chocolate") {
        Some(ColorValue { red: 210, green: 105, blue: 30, alpha: 255 })
    } else if crate::text::chars_eq_str_ci(v, "coral") {
        Some(ColorValue { red: 255, green: 127, blue: 80, alpha: 255 })
    } else if crate::text::chars_eq_str_ci(v, "cornflowerblue") {
        Some(ColorValue { red: 100, green: 149, blue: 237, alpha: 255 })
    } else if crate::text::chars_eq_str_ci(v, "cornsilk") {
        Some(ColorValue { red: 255, green: 248, blue: 220, alpha: 255 })
    } else if crate::text::chars_eq_str_ci(v, "crimson") {
        Some(ColorValue { red: 220, green: 20, blue: 60, alpha: 255 })
    } else if crate::text::chars_eq_str_ci(v, "cyan") {
        Some(ColorValue { red: 0, green: 255, blue: 255, alpha: 255 })
    } else if crate::text::chars_eq_str_ci(v, "darkblue") {
        Some(ColorValue { red: 0, green: 0, blue: 139, alpha: 255 })
    } else if crate::text::chars_eq_str_ci(v, "darkcyan") {
        Some(ColorValue { red: 0, green: 139, blue: 139, alpha: 255 })
    } else if crate::text::chars_eq_str_ci(v, "darkgoldenrod") {
        Some(ColorValue { red: 184, green: 134, blue: 11, alpha: 255 })
    } else if crate::text::chars_eq_str_ci(v, "darkgray") {
        Some(ColorValue { red: 169, green: 169, blue: 169, alpha: 255 })
    } else if crate::text::chars_eq_str_ci(v, "darkgreen") {
        Some(ColorValue { red: 0, green: 100, blue: 0, alpha: 255 })
    } else if crate::text::chars_eq_str_ci(v, "darkgrey") {
        Some(ColorValue { red: 169, green: 169, blue: 169, alpha: 255 })
    } else if crate::text::chars_eq_str_ci(v, "darkkhaki") {
        Some(ColorValue { red: 189, green: 183, blue: 107, alpha: 255 })
    } else if crate::text::chars_eq_str_ci(v, "darkmagenta") {
        Some(ColorValue { red: 139, green: 0, blue: 139, alpha: 255 })
    } else if crate::text::chars_eq_str_ci(v, "darkolivegreen") {
        Some(ColorValue { red: 85, green: 107, blue: 47, alpha: 255 })
    } else if crate::text::chars_eq_str_ci(v, "darkorange") {
        Some(ColorValue { red: 255, green: 140, blue: 0, alpha: 255 })
    } else if crate::text::chars_eq_str_ci(v, "darkorchid") {
        Some(ColorValue { red: 153, green: 50, blue: 204, alpha: 255 })
    } else if crate::text::chars_eq_str_ci(v, "darkred") {
        Some(ColorValue { red: 139, green: 0, blue: 0, alpha: 255 })
    } else if crate::text::chars_eq_str_ci(v, "darksalmon") {
        Some(ColorValue { red: 233, green: 150, blue: 122, alpha: 255 })
    } else if crate::text::chars_eq_str_ci(v, "darkseagreen") {
        Some(ColorValue { red: 143, green: 188, blue: 143, alpha: 255 })
    } else if crate::text::chars_eq_str_ci(v, "darkslateblue") {
        Some(ColorValue { red: 72, green: 61, blue: 139, alpha: 255 })
    } else if crate::text::chars_eq_str_ci(v, "darkslategray") {
        Some(ColorValue { red: 47, green: 79, blue: 79, alpha: 255 })
    } else if crate::text::chars_eq_str_ci(v, "darkslategrey") {
        Some(ColorValue { red: 47, green: 79, blue: 79, alpha: 255 })
    } else if crate::text::chars_eq_str_ci(v, "darkturquoise") {
        Some(ColorValue { red: 0, green: 206, blue: 209, alpha: 255 })
    } else if crate::text::chars_eq_str_ci(v, "darkviolet") {
        Some(ColorValue { red: 148, green: 0, blue: 211, alpha: 255 })
    } else if crate::text::chars_eq_str_ci(v, "deeppink") {
        Some(ColorValue { red: 255, green: 20, blue: 147, alpha: 255 })
    } else if crate::text::chars_eq_str_ci(v, "deepskyblue") {
        Some(ColorValue { red: 0, green: 191, blue: 255, alpha: 255 })
    } else if crate::text::chars_eq_str_ci(v, "dimgray") {
        Some(ColorValue { red: 105, green: 105, blue: 105, alpha: 255 })
    } else if crate::text::chars_eq_str_ci(v, "dimgrey") {
        Some(ColorValue { red: 105, green: 105, blue: 105, alpha: 255 })
    } else if crate::text::chars_eq_str_ci(v, "dodgerblue") {
        Some(ColorValue { red: 30, green: 144, blue: 255, alpha: 255 })
    } else if crate::text::chars_eq_str_ci(v, "firebrick") {
        Some(ColorValue { red: 178, green: 34, blue: 34, alpha: 255 })
    } else if crate::text::chars_eq_str_ci(v, "floralwhite") {
        Some(ColorValue { red: 255, green: 250, blue: 240, alpha: 255 })
    } else if crate::text::chars_eq_str_ci(v, "forestgreen") {
        Some(ColorValue { red: 34, green: 139, blue: 34, alpha: 255 })
    } else if crate::text::chars_eq_str_ci(v, "fuchsia") {
        Some(ColorValue { red: 255, green: 0, blue: 255, alpha: 255 })
    } else if crate::text::chars_eq_str_ci(v, "gainsboro") {
        Some(ColorValue { red: 220, green: 220, blue: 220, alpha: 255 })
    } else if crate::text::chars_eq_str_ci(v, "ghostwhite") {
        Some(ColorValue { red: 248, green: 248, blue: 255, alpha: 255 })
    } else if crate::text::chars_eq_str_ci(v, "gold") {
        Some(ColorValue { red: 255, green: 215, blue: 0, alpha: 255 })
    } else if crate::text::chars_eq_str_ci(v, "goldenrod") {
        Some(ColorValue { red: 218, green: 165, blue: 32, alpha: 255 })
    } else if crate::text::chars_eq_str_ci(v, "gray") {
        Some(ColorValue { red: 128, green: 128, blue: 128, alpha: 255 })
    } else if crate::text::chars_eq_str_ci(v, "green") {
        Some(ColorValue { red: 0, green: 128, blue: 0, alpha: 255 })
    } else if crate::text::chars_eq_str_ci(v, "greenyellow") {
        Some(ColorValue { red: 173, green: 255, blue: 47, alpha: 255 })
    } else if crate::text::chars_eq_str_ci(v, "grey") {
        Some(ColorValue { red: 128, green: 128, blue: 128, alpha: 255 })
    } else if crate::text::chars_eq_str_ci(v, "honeydew") {
        Some(ColorValue { red: 240, green: 255, blue: 240, alpha: 255 })
    } else if crate::text::chars_eq_str_ci(v, "hotpink") {
        Some(ColorValue { red: 255, green: 105, blue: 180, alpha: 255 })
    } else if crate::text::chars_eq_str_ci(v, "indianred") {
        Some(ColorValue { red: 205, green: 92, blue: 92, alpha: 255 })
    } else if crate::text::chars_eq_str_ci(v, "indigo") {
        Some(ColorValue { red: 75, green: 0, blue: 130, alpha: 255 })
    } else if crate::text::chars_eq_str_ci(v, "ivory") {
        Some(ColorValue { red: 255, green: 255, blue: 240, alpha: 255 })
    } else if crate::text::chars_eq_str_ci(v, "khaki") {
        Some(ColorValue { red: 240, green: 230, blue: 140, alpha: 255 })
    } else if crate::text::chars_eq_str_ci(v, "lavender") {
        Some(ColorValue { red: 230, green: 230, blue: 250, alpha: 255 })
    } else if crate::text::chars_eq_str_ci(v, "lavenderblush") {
        Some(ColorValue { red: 255, green: 240, blue: 245, alpha: 255 })
    } else if crate::text::chars_eq_str_ci(v, "lawngreen") {
        Some(ColorValue { red: 124, green: 252, blue: 0, alpha: 255 })
    } else if crate::text::chars_eq_str_ci(v, "lemonchiffon") {
        Some(ColorValue { red: 255, green: 250, blue: 205, alpha: 255 })
    } else if crate::text::chars_eq_str_ci(v, "lightblue") {
        Some(ColorValue { red: 173, green: 216, blue: 230, alpha: 255 })
    } else if crate::text::chars_eq_str_ci(v, "lightcoral") {
        Some(ColorValue { red: 240, green: 128, blue: 128, alpha: 255 })
    } else if crate::text::chars_eq_str_ci(v, "lightcyan") {
        Some(ColorValue { red: 224, green: 255, blue: 255, alpha: 255 })
    } else if crate::text::chars_eq_str_ci(v, "lightgoldenrodyellow") {
        Some(ColorValue { red: 250, green: 250, blue: 210, alpha: 255 })
    } else if crate::text::chars_eq_str_ci(v, "lightgray") {
        Some(ColorValue { red: 211, green: 211, blue: 211, alpha: 255 })
    } else if crate::text::chars_eq_str_ci(v, "lightgreen") {
        Some(ColorValue { red: 144, green: 238, blue: 144, alpha: 255 })
    } else if crate::text::chars_eq_str_ci(v, "lightgrey") {
        Some(ColorValue { red: 211, green: 211, blue: 211, alpha: 255 })
    } else if crate::text::chars_eq_str_ci(v, "lightpink") {
        Some(ColorValue { red: 255, green: 182, blue: 193, alpha: 255 })
    } else if crate::text::chars_eq_str_ci(v, "lightsalmon") {
        Some(ColorValue { red: 255, green: 160, blue: 122, alpha: 255 })
    } else if crate::text::chars_eq_str_ci(v, "lightseagreen") {
        Some(ColorValue { red: 32, green: 178, blue: 170, alpha: 255 })
    } else if crate::text::chars_eq_str_ci(v, "lightskyblue") {
        Some(ColorValue { red: 135, green: 206, blue: 250, alpha: 255 })
    } else if crate::text::chars_eq_str_ci(v, "lightslategray") {
        Some(ColorValue { red: 119, green: 136, blue: 153, alpha: 255 })
    } else if crate::text::chars_eq_str_ci(v, "lightslategrey") {
        Some(ColorValue { red: 119, green: 136, blue: 153, alpha: 255 })
    } else if crate::text::chars_eq_str_ci(v, "lightsteelblue") {
        Some(ColorValue { red: 176, green: 196, blue: 222, alpha: 255 })
    } else if crate::text::chars_eq_str_ci(v, "lightyellow") {
        Some(ColorValue { red: 255, green: 255, blue: 224, alpha: 255 })
    } else if crate::text::chars_eq_str_ci(v, "lime") {
        Some(ColorValue { red: 0, green: 255, blue: 0, alpha: 255 })
    } else if crate::text::chars_eq_str_ci(v, "limegreen") {
        Some(ColorValue { red: 50, green: 205, blue: 50, alpha: 255 })
    } else if crate::text::chars_eq_str_ci(v, "linen") {
        Some(ColorValue { red: 250, green: 240, blue: 230, alpha: 255 })
    } else if crate::text::chars_eq_str_ci(v, "magenta") {
        Some(ColorValue { red: 255, green: 0, blue: 255, alpha: 255 })
    } else if crate::text::chars_eq_str_ci(v, "maroon") {
        Some(ColorValue { red: 128, green: 0, blue: 0, alpha: 255 })
    } else if crate::text::chars_eq_str_ci(v, "mediumaquamarine") {
        Some(ColorValue { red: 102, green: 205, blue: 170, alpha: 255 })
    } else if crate::text::chars_eq_str_ci(v, "mediumblue") {
        Some(ColorValue { red: 0, green: 0, blue: 205, alpha: 255 })
    } else if crate::text::chars_eq_str_ci(v, "mediumorchid") {
        Some(ColorValue { red: 186, green: 85, blue: 211, alpha: 255 })
    } else if crate::text::chars_eq_str_ci(v, "mediumpurple") {
        Some(ColorValue { red: 147, green: 112, blue: 219, alpha: 255 })
    } else if crate::text::chars_eq_str_ci(v, "mediumseagreen") {
        Some(ColorValue { red: 60, green: 179, blue: 113, alpha: 255 })
    } else if crate::text::chars_eq_str_ci(v, "mediumslateblue") {
        Some(ColorValue { red: 123, green: 104, blue: 238, alpha: 255 })
    } else if crate::text::chars_eq_str_ci(v, "mediumspringgreen") {
        Some(ColorValue { red: 0, green: 250, blue: 154, alpha: 255 })
    } else if crate::text::chars_eq_str_ci(v, "mediumturquoise") {
        Some(ColorValue { red: 72, green: 209, blue: 204, alpha: 255 })
    } else if crate::text::chars_eq_str_ci(v, "mediumvioletred") {
        Some(ColorValue { red: 199, green: 21, blue: 133, alpha: 255 })
    } else if crate::text::chars_eq_str_ci(v, "midnightblue") {
        Some(ColorValue { red: 25, green: 25, blue: 112, alpha: 255 })
    } else if crate::text::chars_eq_str_ci(v, "mintcream") {
        Some(ColorValue { red: 245, green: 255, blue: 250, alpha: 255 })
    } else if crate::text::chars_eq_str_ci(v, "mistyrose") {
        Some(ColorValue { red: 255, green: 228, blue: 225, alpha: 255 })
    } else if crate::text::chars_eq_str_ci(v, "moccasin") {
        Some(ColorValue { red: 255, green: 228, blue: 181, alpha: 255 })
    } else if crate::text::chars_eq_str_ci(v, "navajowhite") {
        Some(ColorValue { red: 255, green: 222, blue: 173, alpha: 255 })
    } else if crate::text::chars_eq_str_ci(v, "navy") {
        Some(ColorValue { red: 0, green: 0, blue: 128, alpha: 255 })
    } else if crate::text::chars_eq_str_ci(v, "oldlace") {
        Some(ColorValue { red: 253, green: 245, blue: 230, alpha: 255 })
    } else if crate::text::chars_eq_str_ci(v, "olive") {
        Some(ColorValue { red: 128, green: 128, blue: 0, alpha: 255 })
    } else if crate::text::chars_eq_str_ci(v, "olivedrab") {
        Some(ColorValue { red: 107, green: 142, blue: 35, alpha: 255 })
    } else if crate::text::chars_eq_str_ci(v, "orange") {
        Some(ColorValue { red: 255, green: 165, blue: 0, alpha: 255 })
    } else if crate::text::chars_eq_str_ci(v, "orangered") {
        Some(ColorValue { red: 255, green: 69, blue: 0, alpha: 255 })
    } else if crate::text::chars_eq_str_ci(v, "orchid") {
        Some(ColorValue { red: 218, green: 112, blue: 214, alpha: 255 })
    } else if crate::text::chars_eq_str_ci(v, "palegoldenrod") {
        Some(ColorValue { red: 238, green: 232, blue: 170, alpha: 255 })
    } else if crate::text::chars_eq_str_ci(v, "palegreen") {
        Some(ColorValue { red: 152, green: 251, blue: 152, alpha: 255 })
    } else if crate::text::chars_eq_str_ci(v, "paleturquoise") {
        Some(ColorValue { red: 175, green: 238, blue: 238, alpha: 255 })
    } else if crate::text::chars_eq_str_ci(v, "palevioletred") {
        Some(ColorValue { red: 219, green: 112, blue: 147, alpha: 255 })
    } else if crate::text::chars_eq_str_ci(v, "papayawhip") {
        Some(ColorValue { red: 255, green: 239, blue: 213, alpha: 255 })
    } else if crate::text::chars_eq_str_ci(v, "peachpuff") {
        Some(ColorValue { red: 255, green: 218, blue: 185, alpha: 255 })
    } else if crate::text::chars_eq_str_ci(v, "peru") {
        Some(ColorValue { red: 205, green: 133, blue: 63, alpha: 255 })
    } else if crate::text::chars_eq_str_ci(v, "pink") {
        Some(ColorValue { red: 255, green: 192, blue: 203, alpha: 255 })
    } else if crate::text::chars_eq_str_ci(v, "plum") {
        Some(ColorValue { red: 221, green: 160, blue: 221, alpha: 255 })
    } else if crate::text::chars_eq_str_ci(v, "powderblue") {
        Some(ColorValue { red: 176, green: 224, blue: 230, alpha: 255 })
    } else if crate::text::chars_eq_str_ci(v, "purple") {
        Some(ColorValue { red: 128, green: 0, blue: 128, alpha: 255 })
    } else if crate::text::chars_eq_str_ci(v, "red") {
        Some(ColorValue { red: 255, green: 0, blue: 0, alpha: 255 })
    } else if crate::text::chars_eq_str_ci(v, "rosybrown") {
        Some(ColorValue { red: 188, green: 143, blue: 143, alpha: 255 })
    } else if crate::text::chars_eq_str_ci(v, "royalblue") {
        Some(ColorValue { red: 65, green: 105, blue: 225, alpha: 255 })
    } else if crate::text::chars_eq_str_ci(v, "saddlebrown") {
        Some(ColorValue { red: 139, green: 69, blue: 19, alpha: 255 })
    } else if crate::text::chars_eq_str_ci(v, "salmon") {
        Some(ColorValue { red: 250, green: 128, blue: 114, alpha: 255 })
    } else if crate::text::chars_eq_str_ci(v, "sandybrown") {
        Some(ColorValue { red: 244, green: 164, blue: 96, alpha: 255 })
    } else if crate::text::chars_eq_str_ci(v, "seagreen") {
        Some(ColorValue { red: 46, green: 139, blue: 87, alpha: 255 })
    } else if crate::text::chars_eq_str_ci(v, "seashell") {
        Some(ColorValue { red: 255, green: 245, blue: 238, alpha: 255 })
    } else if crate::text::chars_eq_str_ci(v, "sienna") {
        Some(ColorValue { red: 160, green: 82, blue: 45, alpha: 255 })
    } else if crate::text::chars_eq_str_ci(v, "silver") {
        Some(ColorValue { red: 192, green: 192, blue: 192, alpha: 255 })
    } else if crate::text::chars_eq_str_ci(v, "skyblue") {
        Some(ColorValue { red: 135, green: 206, blue: 235, alpha: 255 })
    } else if crate::text::chars_eq_str_ci(v, "slateblue") {
        Some(ColorValue { red: 106, green: 90, blue: 205, alpha: 255 })
    } else if crate::text::chars_eq_str_ci(v, "slategray") {
        Some(ColorValue { red: 112, green: 128, blue: 144, alpha: 255 })
    } else if crate::text::chars_eq_str_ci(v, "slategrey") {
        Some(ColorValue { red: 112, green: 128, blue: 144, alpha: 255 })
    } else if crate::text::chars_eq_str_ci(v, "snow") {
        Some(ColorValue { red: 255, green: 250, blue: 250, alpha: 255 })
    } else if crate::text::chars_eq_str_ci(v, "springgreen") {
        Some(ColorValue { red: 0, green: 255, blue: 127, alpha: 255 })
    } else if crate::text::chars_eq_str_ci(v, "steelblue") {
        Some(ColorValue { red: 70, green: 130, blue: 180, alpha: 255 })
    } else if crate::text::chars_eq_str_ci(v, "tan") {
        Some(ColorValue { red: 210, green: 180, blue: 140, alpha: 255 })
    } else if crate::text::chars_eq_str_ci(v, "teal") {
        Some(ColorValue { red: 0, green: 128, blue: 128, alpha: 255 })
    } else if crate::text::chars_eq_str_ci(v, "thistle") {
        Some(ColorValue { red: 216, green: 191, blue: 216, alpha: 255 })
    } else if crate::text::chars_eq_str_ci(v, "tomato") {
        Some(ColorValue { red: 255, green: 99, blue: 71, alpha: 255 })
    } else if crate::text::chars_eq_str_ci(v, "turquoise") {
        Some(ColorValue { red: 64, green: 224, blue: 208, alpha: 255 })
    } else if crate::text::chars_eq_str_ci(v, "violet") {
        Some(ColorValue { red: 238, green: 130, blue: 238, alpha: 255 })
    } else if crate::text::chars_eq_str_ci(v, "wheat") {
        Some(ColorValue { red: 245, green: 222, blue: 179, alpha: 255 })
    } else if crate::text::chars_eq_str_ci(v, "white") {
        Some(ColorValue { red: 255, green: 255, blue: 255, alpha: 255 })
    } else if crate::text::chars_eq_str_ci(v, "whitesmoke") {
        Some(ColorValue { red: 245, green: 245, blue: 245, alpha: 255 })
    } else if crate::text::chars_eq_str_ci(v, "yellow") {
        Some(ColorValue { red: 255, green: 255, blue: 0, alpha: 255 })
    } else if crate::text::chars_eq_str_ci(v, "yellowgreen") {
        Some(ColorValue { red: 154, green: 205, blue: 50, alpha: 255 })
    } else if crate::text::chars_eq_str_ci(v, "transparent") {
        Some(ColorValue { red: 0, green: 0, blue: 0, alpha: 0 })
    } else {
        None
    }
}

/// Whether `c` is a decimal digit.
fn is_digit_x(c: char) -> (r: bool)
    ensures
        r == is_digit(c),
{
    let d: u32 = c as u32;
    48 <= d && d <= 57
}

/// Whether `c` is a hexadecimal digit.
fn is_hex_digit_x(c: char) -> (r: bool)
    ensures
        r == is_hex_digit(c),
{
    let d: u32 = c as u32;
    (48 <= d && d <= 57) || (97 <= d && d <= 102) || (65 <= d && d <= 70)
}

/// The value of a hexadecimal digit.
fn hex_val_x(c: char) -> (r: u32)
    requires
        is_hex_digit(c),
    ensures
        r as int == hex_val(c),
        r <= 15,
{
    let d: u32 = c as u32;
    if d <= 57 {
        d - 48
    } else if d >= 97 {
        d - 87
    } else {
        d - 55
    }
}

/// Decodes the hexadecimal forms.
fn hex_color_x(v: &Vec<char>) -> (r: Option<ColorValue>)
    ensures
        r == hex_color(v@),
{
    let n = v.len();
    if n < 1 || v[0] != '#' {
        return None;
    }
    let mut k: usize = 1;
    while k < n
        invariant
            n == v@.len(),
            1 <= k <= n,
            forall|j: int| 1 <= j < k ==> is_hex_digit(v@[j]),
        decreases n - k,
    {
        if !is_hex_digit_x(v[k]) {
            return None;
        }
        k = k + 1;
    }
    if n == 4 {
        let red: u32 = 17 * hex_val_x(v[1]);
        let green: u32 = 17 * hex_val_x(v[2]);
        let blue: u32 = 17 * hex_val_x(v[3]);
        Some(ColorValue { red: red as u8, green: green as u8, blue: blue as u8, alpha: 255 })
    } else if n == 5 {
        let red: u32 = 17 * hex_val_x(v[1]);
        let green: u32 = 17 * hex_val_x(v[2]);
        let blue: u32 = 17 * hex_val_x(v[3]);
        let alpha: u32 = 17 * hex_val_x(v[4]);
        Some(
            ColorValue { red: red as u8, green: green as u8, blue: blue as u8, alpha: alpha as u8 },
        )
    } else if n == 7 {
        let red: u32 = 16 * hex_val_x(v[1]) + hex_val_x(v[2]);
        let green: u32 = 16 * hex_val_x(v[3]) + hex_val_x(v[4]);
        let blue: u32 = 16 * hex_val_x(v[5]) + hex_val_x(v[6]);
        Some(ColorValue { red: red as u8, green: green as u8, blue: blue as u8, alpha: 255 })
    } else if n == 9 {
        let red: u32 = 16 * hex_val_x(v[1]) + hex_val_x(v[2]);
        let green: u32 = 16 * hex_val_x(v[3]) + hex_val_x(v[4]);
        let blue: u32 = 16 * hex_val_x(v[5]) + hex_val_x(v[6]);
        let alpha: u32 = 16 * hex_val_x(v[7]) + hex_val_x(v[8]);
        Some(
            ColorValue { red: red as u8, green: green as u8, blue: blue as u8, alpha: alpha as u8 },
        )
    } else {
        None
    }
}

/// The first position at or after `i` without a space.
fn skip_spaces_x(v: &Vec<char>, i: usize) -> (r: usize)
    requires
        i <= v@.len(),
    ensures
        r as int == skip_spaces(v@, i as int),
        i <= r <= v@.len(),
    decreases v@.len() - i,
{
    if i < v.len() && v[i] == ' ' {
        skip_spaces_x(v, i + 1)
    } else {
        i
    }
}

/// The first position at or after `i` without a decimal digit.
fn digits_end_x(v: &Vec<char>, i: usize) -> (r: usize)
    requires
        i <= v@.len(),
    ensures
        r as int == digits_end(v@, i as int),
        i <= r <= v@.len(),
        forall|k: int| i <= k < r ==> is_digit(v@[k]),
    decreases v@.len() - i,
{
    if i < v.len() && is_digit_x(v[i]) {
        digits_end_x(v, i + 1)
    } else {
        i
    }
}

/// The decimal value of the digits between `i` and `j`.
fn digits_val_x(v: &Vec<char>, i: usize, j: usize) -> (r: u32)
    requires
        i <= j <= v@.len(),
        j - i <= 8,
        forall|k: int| i <= k < j ==> is_digit(v@[k]),
    ensures
        r as int == digits_val(v@, i as int, j as int),
{
    let mut acc: u32 = 0;
    let mut k: usize = i;
    while k < j
        invariant
            i <= k <= j <= v@.len(),
            j - i <= 8,
            forall|m: int| i <= m < j ==> is_digit(v@[m]),
            acc as int == digits_val(v@, i as int, k as int),
            (acc as int) < pow10((k - i) as nat),
        decreases j - k,
    {
        proof {
            lemma_digits_val_bound(v@, i as int, k as int);
            lemma_pow10_increases((k - i) as nat, 7);
            assert(pow10(7) == 10000000) by {
                reveal_with_fuel(pow10, 9);
            }
            assert(pow10(((k - i) + 1) as nat) == 10 * pow10((k - i) as nat));
        }
        let d: u32 = (v[k] as u32) - 48;
        acc = acc * 10 + d;
        k = k + 1;
    }
    acc
}

/// The position after `i` when character `c` stands there.
fn expect_char_x(v: &Vec<char>, i: usize, c: char) -> (r: Option<usize>)
    requires
        i <= v@.len(),
    ensures
        ({
            let sp = expect_char(v@, i as int, c);
            match r {
                Some(p) => sp == Some(p as int) && p <= v@.len(),
                None => sp is None,
            }
        }),
{
    if i < v.len() && v[i] == c {
        Some(i + 1)
    } else {
        None
    }
}

/// One decimal component of a functional form.
fn parse_component_x(v: &Vec<char>, i: usize) -> (r: Option<(u32, usize)>)
    requires
        i <= v@.len(),
    ensures
        ({
            let sp = parse_component(v@, i as int);
            match r {
                Some(p) => sp == Some((p.0 as int, p.1 as int)) && p.1 <= v@.len() && p.0 <= 255,
                None => sp is None,
            }
        }),
{
    let a = skip_spaces_x(v, i);
    let b = digits_end_x(v, a);
    if a < b && b - a <= 3 {
        let val = digits_val_x(v, a, b);
        if val <= 255 {
            let c = skip_spaces_x(v, b);
            Some((val, c))
        } else {
            None
        }
    } else {
        None
    }
}

/// The alpha component of a functional form, rounded to `1/255` units.
fn parse_alpha_x(v: &Vec<char>, i: usize) -> (r: Option<(u32, usize)>)
    requires
        i <= v@.len(),
    ensures
        ({
            let sp = parse_alpha(v@, i as int);
            match r {
                Some(p) => sp == Some((p.0 as int, p.1 as int)) && p.1 <= v@.len() && p.0 <= 255,
                None => sp is None,
            }
        }),
{
    let a = skip_spaces_x(v, i);
    let b = digits_end_x(v, a);
    if a < b && b - a == 1 && (v[a] as u32) - 48 <= 1 {
        let ip: u32 = (v[a] as u32) - 48;
        if b < v.len() && v[b] == '.' {
            let c = b + 1;
            let d = digits_end_x(v, c);
            if c < d && d - c <= 8 {
                let frac = digits_val_x(v, c, d);
                let den = pow10_x((d - c) as u32);
                proof {
                    lemma_digits_val_bound(v@, c as int, d as int);
                    lemma_pow10_increases((d - c) as nat, 8);
                    assert(pow10(8) == 100000000) by {
                        reveal_with_fuel(pow10, 9);
                    }
                }
                proof {
                    assert(ip * den <= den) by {
                        if ip == 0 {
                            assert(ip * den == 0);
                        } else {
                            assert(ip * den == den);
                        }
                    }
                }
                let num: u32 = ip * den + frac;
                if num <= den {
                    let byte = alpha_byte_x(num, den);
                    let e = skip_spaces_x(v, d);
                    Some((byte, e))
                } else {
                    None
                }
            } else {
                None
            }
        } else {
            Some((ip * 255, skip_spaces_x(v, b)))
        }
    } else {
        None
    }
}

/// Ten to the power `k`, for small `k`.
fn pow10_x(k: u32) -> (r: u32)
    requires
        k <= 8,
    ensures
        r as int == pow10(k as nat),
        1 <= r <= 100000000,
    decreases k,
{
    proof {
        assert(pow10(8) == 100000000) by {
            reveal_with_fuel(pow10, 9);
        }
        lemma_pow10_increases(k as nat, 8);
        lemma_pow10_increases(0, k as nat);
    }
    if k == 0 {
        1
    } else {
        10 * pow10_x(k - 1)
    }
}

/// The channel value nearest to `num / den`, in `1/255` units.
fn alpha_byte_x(num: u32, den: u32) -> (r: u32)
    requires
        1 <= den <= 100000000,
        num <= den,
    ensures
        r as int == alpha_byte(num as int, den as int),
        r <= 255,
{
    let wide: u64 = (510u64 * (num as u64) + (den as u64)) / (2u64 * (den as u64));
    proof {
        assert((510 * (num as int) + den) / (2 * (den as int)) <= 255) by (nonlinear_arith)
            requires
                1 <= den,
                num <= den,
        ;
        assert((510 * (num as int) + den) / (2 * (den as int)) >= 0) by (nonlinear_arith)
            requires
                1 <= den,
                0 <= num,
        ;
    }
    wide as u32
}

/// Decodes the functional form `rgb(R, G, B)`.
fn rgb_color_x(v: &Vec<char>) -> (r: Option<ColorValue>)
    ensures
        r == rgb_color(v@),
{
    if !(v.len() >= 4 && v[0] == 'r' && v[1] == 'g' && v[2] == 'b' && v[3] == '(') {
        return None;
    }
    match parse_component_x(v, 4) {
        None => None,
        Some((red, i1)) => match expect_char_x(v, i1, ',') {
            None => None,
            Some(i2) => match parse_component_x(v, i2) {
                None => None,
                Some((green, i3)) => match expect_char_x(v, i3, ',') {
                    None => None,
                    Some(i4) => match parse_component_x(v, i4) {
                        None => None,
                        Some((blue, i5)) => match expect_char_x(v, i5, ')') {
                            None => None,
                            Some(i6) => if i6 == v.len() {
                                Some(
                                    ColorValue {
                                        red: red as u8,
                                        green: green as u8,
                                        blue: blue as u8,
                                        alpha: 255,
                                    },
                                )
                            } else {
                                None
                            },
                        },
                    },
                },
            },
        },
    }
}

/// Decodes the functional form `rgba(R, G, B, A)`.
fn rgba_color_x(v: &Vec<char>) -> (r: Option<ColorValue>)
    ensures
        r == rgba_color(v@),
{
    if !(v.len() >= 5 && v[0] == 'r' && v[1] == 'g' && v[2] == 'b' && v[3] == 'a' && v[4] == '(') {
        return None;
    }
    match parse_component_x(v, 5) {
        None => None,
        Some((red, i1)) => match expect_char_x(v, i1, ',') {
            None => None,
            Some(i2) => match parse_component_x(v, i2) {
                None => None,
                Some((green, i3)) => match expect_char_x(v, i3, ',') {
                    None => None,
                    Some(i4) => match parse_component_x(v, i4) {
                        None => None,
                        Some((blue, i5)) => match expect_char_x(v, i5, ',') {
                            None => None,
                            Some(i6) => match parse_alpha_x(v, i6) {
                                None => None,
                                Some((alpha, i7)) => match expect_char_x(v, i7, ')') {
                                    None => None,
                                    Some(i8) => if i8 == v.len() {
                                        Some(
                                            ColorValue {
                                                red: red as u8,
                                                green: green as u8,
                                                blue: blue as u8,
                                                alpha: alpha as u8,
                                            },
                                        )
                                    } else {
                                        None
                                    },
                                },
                            },
                        },
                    },
                },
            },
        },
    }
}

} // verus!
