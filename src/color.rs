use vstd::prelude::*;
use crate::gamma::{
    decode_level, encode_level, is_decoded_level, is_encoded_value, lemma_encoded_value_unique,
};
use crate::decimal::{channels_text, format_channels};
use crate::hex::{
    hex_byte_text, hex_digit_value, hex_pair_value, is_hex_digit, push_hex_byte,
    lemma_hex_digit, lemma_hex_byte_round_trip, upper_hex_char, upper_hex_text,
};

verus! {

/// The basic colors of the rainbow, and the three greyscale shades.
#[derive(Debug, Clone, Copy, PartialEq, Eq, Structural, PartialOrd, Ord, Hash)]
pub enum BaseColor {
    Black,
    Grey,
    White,
    Red,
    Yellow,
    Green,
    Cyan,
    Blue,
    Magenta,
}

/// The lower-case English name of a base color.
pub open spec fn base_color_name(c: BaseColor) -> Seq<char> {
    match c {
        BaseColor::Black => "black"@,
        BaseColor::Grey => "grey"@,
        BaseColor::White => "white"@,
        BaseColor::Red => "red"@,
        BaseColor::Yellow => "yellow"@,
        BaseColor::Green => "green"@,
        BaseColor::Cyan => "cyan"@,
        BaseColor::Blue => "blue"@,
        BaseColor::Magenta => "magenta"@,
    }
}

/// The 24-bit sRGB channels of a base color: each channel is off (0) or fully on
/// (255), but for grey, whose channels all sit at 128.
pub open spec fn base_color_channels(c: BaseColor) -> (u8, u8, u8) {
    match c {
        BaseColor::Black => (0, 0, 0),
        BaseColor::Grey => (128, 128, 128),
        BaseColor::White => (255, 255, 255),
        BaseColor::Red => (255, 0, 0),
        BaseColor::Yellow => (255, 255, 0),
        BaseColor::Green => (0, 255, 0),
        BaseColor::Cyan => (0, 255, 255),
        BaseColor::Blue => (0, 0, 255),
        BaseColor::Magenta => (255, 0, 255),
    }
}

impl BaseColor {
    /// The lower-case English name of this color.
    pub fn name(&self) -> (r: &'static str)
        ensures
            r@ == base_color_name(*self),
    {
        match self {
            BaseColor::Black => "black",
            BaseColor::Grey => "grey",
            BaseColor::White => "white",
            BaseColor::Red => "red",
            BaseColor::Yellow => "yellow",
            BaseColor::Green => "green",
            BaseColor::Cyan => "cyan",
            BaseColor::Blue => "blue",
            BaseColor::Magenta => "magenta",
        }
    }

    /// This color in the 24-bit sRGB color space.
    pub fn srgb24(&self) -> (r: SRGB24Color)
        ensures
            r.to_tuple_spec() == base_color_channels(*self),
    {
        match self {
            BaseColor::Black => SRGB24Color::new(0, 0, 0),
            BaseColor::Grey => SRGB24Color::new(128, 128, 128),
            BaseColor::White => SRGB24Color::new(255, 255, 255),
            BaseColor::Red => SRGB24Color::new(255, 0, 0),
            BaseColor::Yellow => SRGB24Color::new(255, 255, 0),
            BaseColor::Green => SRGB24Color::new(0, 255, 0),
            BaseColor::Cyan => SRGB24Color::new(0, 255, 255),
            BaseColor::Blue => SRGB24Color::new(0, 0, 255),
            BaseColor::Magenta => SRGB24Color::new(255, 0, 255),
        }
    }
}

/// Whether `s` is a hex code: exactly six hex digits.
pub open spec fn is_hex_code(s: Seq<char>) -> bool {
    s.len() == 6 && forall|i: int| 0 <= i < 6 ==> is_hex_digit(#[trigger] s[i])
}

/// The red, green and blue bytes of a hex code, two digits each, in that order.
pub open spec fn hex_code_channels(s: Seq<char>) -> (u8, u8, u8) {
    (hex_pair_value(s, 0) as u8, hex_pair_value(s, 2) as u8, hex_pair_value(s, 4) as u8)
}

/// The six upper-case hex digits of three channels.
pub open spec fn hex_code_text(r: u8, g: u8, b: u8) -> Seq<char> {
    hex_byte_text(r as int) + hex_byte_text(g as int) + hex_byte_text(b as int)
}

/// A color in the sRGB color space with 8 bits per channel.
#[derive(Debug, Clone, Copy, PartialEq, Eq, Structural, PartialOrd, Ord, Hash, Default)]
pub struct SRGB24Color {
    pub r: u8,
    pub g: u8,
    pub b: u8,
}

impl SRGB24Color {
    /// The channels as a tuple.
    pub open spec fn to_tuple_spec(&self) -> (u8, u8, u8) {
        (self.r, self.g, self.b)
    }

    /// Creates a color from its red, green and blue channels.
    pub fn new(r: u8, g: u8, b: u8) -> (c: SRGB24Color)
        ensures
            c.r == r && c.g == g && c.b == b,
    {
        SRGB24Color { r, g, b }
    }

    /// The channels as a tuple.
    pub fn to_tuple(&self) -> (t: (u8, u8, u8))
        ensures
            t == self.to_tuple_spec(),
    {
        (self.r, self.g, self.b)
    }

    /// The channels in decimal, each right-aligned in 3 characters, separated by
    /// a comma and a space.
    pub fn to_string(&self) -> (s: String)
        ensures
            s@ == channels_text(self.r as nat, self.g as nat, self.b as nat, 3),
    {
        format_channels(self.r as u16, self.g as u16, self.b as u16, 3)
    }

    /// Reads a six-digit hex code (digits in either case, no prefix): `None` unless
    /// `hex` is exactly six hex digits.
    pub fn from_hex(hex: &str) -> (c: Option<SRGB24Color>)
        ensures
            c.is_some() <==> is_hex_code(hex@),
            c matches Some(col) ==> col.to_tuple_spec() == hex_code_channels(hex@),
    {
        if hex.unicode_len() != 6 {
            return None;
        }
        let mut vals: [u8; 6] = [0; 6];
        let mut i: usize = 0;
        while i < 6
            invariant
                hex@.len() == 6,
                0 <= i <= 6,
                forall|j: int| 0 <= j < i ==> is_hex_digit(#[trigger] hex@[j]),
                forall|j: int|
                    0 <= j < i ==> vals@[j] as int == crate::hex::hex_value(#[trigger] hex@[j]),
            decreases 6 - i,
        {
            match hex_digit_value(hex.get_char(i)) {
                Some(v) => {
                    vals[i] = v;
                },
                None => {
                    return None;
                },
            }
            i = i + 1;
        }
        proof {
            assert forall|j: int| 0 <= j < 6 implies 0 <= #[trigger] vals@[j] < 16 by {
                crate::hex::lemma_hex_digit(hex@[j], 0);
            }
        }
        let r = 16 * vals[0] + vals[1];
        let g = 16 * vals[2] + vals[3];
        let b = 16 * vals[4] + vals[5];
        Some(SRGB24Color::new(r, g, b))
    }

    /// The color as six upper-case hex digits, red first.
    pub fn to_hex(&self) -> (s: String)
        ensures
            s@ == hex_code_text(self.r, self.g, self.b),
    {
        let mut s = String::new();
        push_hex_byte(&mut s, self.r);
        push_hex_byte(&mut s, self.g);
        push_hex_byte(&mut s, self.b);
        assert(s@ =~= hex_code_text(self.r, self.g, self.b));
        s
    }

    /// This color in the linear color space at 16 bits per channel: each channel
    /// is the largest level `l` with `l <= 65535 * decode(channel / 255)`.
    pub fn lin_rgb48(&self) -> (c: LinRGB48Color)
        ensures
            is_decoded_level(self.r as int, c.r as int),
            is_decoded_level(self.g as int, c.g as int),
            is_decoded_level(self.b as int, c.b as int),
            is_encoded_value(c.r as int, self.r as int),
            is_encoded_value(c.g as int, self.g as int),
            is_encoded_value(c.b as int, self.b as int),
    {
        LinRGB48Color::new(decode_level(self.r), decode_level(self.g), decode_level(self.b))
    }

    /// This color in the linear color space at 8 bits per channel: each channel
    /// is `255 * decode(channel / 255)` truncated, read off the 16-bit level.
    pub fn lin_rgb24(&self) -> (c: LinRGB24Color)
        ensures
            exists|l: int| is_decoded_level(self.r as int, l) && c.r == l / 257,
            exists|l: int| is_decoded_level(self.g as int, l) && c.g == l / 257,
            exists|l: int| is_decoded_level(self.b as int, l) && c.b == l / 257,
    {
        self.lin_rgb48().lin_rgb24()
    }
}

/// A color in the linear RGB color space with 8 bits per channel.
#[derive(Debug, Clone, Copy, PartialEq, Eq, Structural, PartialOrd, Ord, Hash, Default)]
pub struct LinRGB24Color {
    pub r: u8,
    pub g: u8,
    pub b: u8,
}

impl LinRGB24Color {
    /// The channels as a tuple.
    pub open spec fn to_tuple_spec(&self) -> (u8, u8, u8) {
        (self.r, self.g, self.b)
    }

    /// Creates a color from its red, green and blue channels.
    pub fn new(r: u8, g: u8, b: u8) -> (c: LinRGB24Color)
        ensures
            c.r == r && c.g == g && c.b == b,
    {
        LinRGB24Color { r, g, b }
    }

    /// The channels as a tuple.
    pub fn to_tuple(&self) -> (t: (u8, u8, u8))
        ensures
            t == self.to_tuple_spec(),
    {
        (self.r, self.g, self.b)
    }

    /// The channels in decimal, each right-aligned in 3 characters, separated by
    /// a comma and a space.
    pub fn to_string(&self) -> (s: String)
        ensures
            s@ == channels_text(self.r as nat, self.g as nat, self.b as nat, 3),
    {
        format_channels(self.r as u16, self.g as u16, self.b as u16, 3)
    }

    /// This color at 16 bits per channel: each channel scaled from `0..=255` to
    /// `0..=65535`, which is exact.
    pub fn lin_rgb48(&self) -> (c: LinRGB48Color)
        ensures
            c.r == self.r as int * 257,
            c.g == self.g as int * 257,
            c.b == self.b as int * 257,
    {
        LinRGB48Color::new(self.r as u16 * 257, self.g as u16 * 257, self.b as u16 * 257)
    }

    /// This color in the sRGB color space at 8 bits per channel: each channel is
    /// `255 * encode(channel / 255)` rounded to the nearest integer.
    ///
    /// Rounding, rather than truncating as a plain quantization would, is what
    /// lets an 8-bit sRGB value survive the trip through linear light unchanged;
    /// it can give one more than truncation, e.g. `(55, 255, 9)` gives
    /// `(128, 255, 53)` where truncation gives `(127, 255, 52)`.
    pub fn srgb24(&self) -> (c: SRGB24Color)
        ensures
            is_encoded_value(self.r as int * 257, c.r as int),
            is_encoded_value(self.g as int * 257, c.g as int),
            is_encoded_value(self.b as int * 257, c.b as int),
    {
        self.lin_rgb48().srgb24()
    }
}

/// A color in the linear RGB color space with 16 bits per channel.
#[derive(Debug, Clone, Copy, PartialEq, Eq, Structural, PartialOrd, Ord, Hash, Default)]
pub struct LinRGB48Color {
    pub r: u16,
    pub g: u16,
    pub b: u16,
}

impl LinRGB48Color {
    /// The channels as a tuple.
    pub open spec fn to_tuple_spec(&self) -> (u16, u16, u16) {
        (self.r, self.g, self.b)
    }

    /// Creates a color from its red, green and blue channels.
    pub fn new(r: u16, g: u16, b: u16) -> (c: LinRGB48Color)
        ensures
            c.r == r && c.g == g && c.b == b,
    {
        LinRGB48Color { r, g, b }
    }

    /// The channels as a tuple.
    pub fn to_tuple(&self) -> (t: (u16, u16, u16))
        ensures
            t == self.to_tuple_spec(),
    {
        (self.r, self.g, self.b)
    }

    /// The channels in decimal, each right-aligned in 5 characters, separated by
    /// a comma and a space.
    pub fn to_string(&self) -> (s: String)
        ensures
            s@ == channels_text(self.r as nat, self.g as nat, self.b as nat, 5),
    {
        format_channels(self.r, self.g, self.b, 5)
    }

    /// This color at 8 bits per channel: each channel scaled from `0..=65535` to
    /// `0..=255` and truncated.
    pub fn lin_rgb24(&self) -> (c: LinRGB24Color)
        ensures
            c.r == self.r / 257,
            c.g == self.g / 257,
            c.b == self.b / 257,
    {
        LinRGB24Color::new((self.r / 257) as u8, (self.g / 257) as u8, (self.b / 257) as u8)
    }

    /// This color in the sRGB color space at 8 bits per channel: each channel is
    /// `255 * encode(channel / 65535)` rounded to the nearest integer.
    ///
    /// Rounding, rather than truncating as a plain quantization would, makes the
    /// trip from 8-bit sRGB through 16-bit linear light and back exact.
    pub fn srgb24(&self) -> (c: SRGB24Color)
        ensures
            is_encoded_value(self.r as int, c.r as int),
            is_encoded_value(self.g as int, c.g as int),
            is_encoded_value(self.b as int, c.b as int),
    {
        SRGB24Color::new(encode_level(self.r), encode_level(self.g), encode_level(self.b))
    }

    /// Channel-wise sum; every sum must fit in 16 bits.
    pub fn add(self, rhs: LinRGB48Color) -> (c: LinRGB48Color)
        requires
            self.r + rhs.r <= u16::MAX,
            self.g + rhs.g <= u16::MAX,
            self.b + rhs.b <= u16::MAX,
        ensures
            c.r == self.r + rhs.r,
            c.g == self.g + rhs.g,
            c.b == self.b + rhs.b,
    {
        LinRGB48Color::new(self.r + rhs.r, self.g + rhs.g, self.b + rhs.b)
    }

    /// Channel-wise difference; no channel of `rhs` may exceed that of `self`.
    pub fn sub(self, rhs: LinRGB48Color) -> (c: LinRGB48Color)
        requires
            rhs.r <= self.r,
            rhs.g <= self.g,
            rhs.b <= self.b,
        ensures
            c.r == self.r - rhs.r,
            c.g == self.g - rhs.g,
            c.b == self.b - rhs.b,
    {
        LinRGB48Color::new(self.r - rhs.r, self.g - rhs.g, self.b - rhs.b)
    }

    /// Every channel multiplied by `k`; every product must fit in 16 bits.
    pub fn mul(self, k: u16) -> (c: LinRGB48Color)
        requires
            self.r * k <= u16::MAX,
            self.g * k <= u16::MAX,
            self.b * k <= u16::MAX,
        ensures
            c.r == self.r * k,
            c.g == self.g * k,
            c.b == self.b * k,
    {
        LinRGB48Color::new(self.r * k, self.g * k, self.b * k)
    }

    /// Every channel divided by `k`, rounded down.
    pub fn div(self, k: u16) -> (c: LinRGB48Color)
        requires
            k != 0,
        ensures
            c.r == self.r / k,
            c.g == self.g / k,
            c.b == self.b / k,
    {
        LinRGB48Color::new(self.r / k, self.g / k, self.b / k)
    }

    /// `n` divided by each channel, rounded down; no channel may be zero.
    pub fn divided_from(self, n: u16) -> (c: LinRGB48Color)
        requires
            self.r != 0,
            self.g != 0,
            self.b != 0,
        ensures
            c.r == n / self.r,
            c.g == n / self.g,
            c.b == n / self.b,
    {
        LinRGB48Color::new(n / self.r, n / self.g, n / self.b)
    }
}

/// Converting an 8-bit sRGB color to 16-bit linear light (`lin_rgb48`) and back
/// (`srgb24`) gives the same color.
pub proof fn lemma_srgb24_linear_round_trip(
    s: SRGB24Color,
    lin: LinRGB48Color,
    back: SRGB24Color,
)
    requires
        is_encoded_value(lin.r as int, s.r as int),
        is_encoded_value(lin.g as int, s.g as int),
        is_encoded_value(lin.b as int, s.b as int),
        is_encoded_value(lin.r as int, back.r as int),
        is_encoded_value(lin.g as int, back.g as int),
        is_encoded_value(lin.b as int, back.b as int),
    ensures
        back == s,
{
    lemma_encoded_value_unique(lin.r as int, s.r as int, back.r as int);
    lemma_encoded_value_unique(lin.g as int, s.g as int, back.g as int);
    lemma_encoded_value_unique(lin.b as int, s.b as int, back.b as int);
}

/// Reading a hex code and writing the color back gives the same code with its
/// digits in upper case.
pub proof fn lemma_hex_code_round_trip(s: Seq<char>)
    requires
        is_hex_code(s),
    ensures
        ({
            let (r, g, b) = hex_code_channels(s);
            hex_code_text(r, g, b) == upper_hex_text(s)
        }),
{
    assert(is_hex_digit(s[0]) && is_hex_digit(s[1]) && is_hex_digit(s[2]));
    assert(is_hex_digit(s[3]) && is_hex_digit(s[4]) && is_hex_digit(s[5]));
    lemma_hex_digit(s[0], 0);
    lemma_hex_digit(s[1], 0);
    lemma_hex_digit(s[2], 0);
    lemma_hex_digit(s[3], 0);
    lemma_hex_digit(s[4], 0);
    lemma_hex_digit(s[5], 0);
    lemma_hex_byte_round_trip(s[0], s[1], 0);
    lemma_hex_byte_round_trip(s[2], s[3], 0);
    lemma_hex_byte_round_trip(s[4], s[5], 0);
    let (r, g, b) = hex_code_channels(s);
    assert(hex_code_text(r, g, b) =~= upper_hex_text(s));
}

/// Writing a color as a hex code and reading it back gives the same color.
pub proof fn lemma_color_hex_round_trip(r: u8, g: u8, b: u8)
    ensures
        is_hex_code(hex_code_text(r, g, b)),
        hex_code_channels(hex_code_text(r, g, b)) == (r, g, b),
{
    let t = hex_code_text(r, g, b);
    lemma_hex_byte_round_trip('0', '0', r as int);
    lemma_hex_byte_round_trip('0', '0', g as int);
    lemma_hex_byte_round_trip('0', '0', b as int);
    assert(t[0] == hex_byte_text(r as int)[0] && t[1] == hex_byte_text(r as int)[1]);
    assert(t[2] == hex_byte_text(g as int)[0] && t[3] == hex_byte_text(g as int)[1]);
    assert(t[4] == hex_byte_text(b as int)[0] && t[5] == hex_byte_text(b as int)[1]);
}

} // verus!
