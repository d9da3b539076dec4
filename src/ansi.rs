use vstd::prelude::*;
use crate::color::SRGB24Color;
use crate::decimal::{padded_decimal, push_padded_decimal};

verus! {

/// The control sequence introducer: escape, then `[`.
pub open spec fn csi() -> Seq<char> {
    seq!['\x1b', '[']
}

/// The sequence that sets the text color: white, or the terminal's black.
pub open spec fn foreground_text(white: bool) -> Seq<char> {
    if white {
        csi() + "38;2;255;255;255m"@
    } else {
        csi() + "38;2;;;m"@
    }
}

/// `text` with `bg` as its true-color background and with white or black text,
/// followed by the reset sequence.
pub open spec fn background_text(text: Seq<char>, bg: SRGB24Color, white: bool) -> Seq<char> {
    foreground_text(white) + csi() + "48;2;"@ + padded_decimal(bg.r as nat, 0) + ";"@
        + padded_decimal(bg.g as nat, 0) + ";"@ + padded_decimal(bg.b as nat, 0) + "m"@ + text
        + csi() + "0m"@
}

/// Writes `text` with `bg` as its background color using ANSI escapes, with white
/// text when `white_text` holds and black text otherwise.
///
/// Which of the two reads better depends on the background's luminance; the
/// caller decides.
pub fn ansi_background(text: &str, bg: SRGB24Color, white_text: bool) -> (s: String)
    ensures
        s@ == background_text(text@, bg, white_text),
{
    let mut s = String::new();
    s.append("\x1b[");
    if white_text {
        s.append("38;2;255;255;255m");
    } else {
        s.append("38;2;;;m");
    }
    s.append("\x1b[");
    s.append("48;2;");
    push_padded_decimal(&mut s, bg.r as u16, 0);
    s.append(";");
    push_padded_decimal(&mut s, bg.g as u16, 0);
    s.append(";");
    push_padded_decimal(&mut s, bg.b as u16, 0);
    s.append("m");
    s.append(text);
    s.append("\x1b[");
    s.append("0m");
    proof {
        reveal_strlit("\x1b[");
    }
    assert(s@ =~= background_text(text@, bg, white_text));
    s
}

} // verus!
