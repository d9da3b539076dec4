//! Color representations and the integer-valued parts of the conversion engine:
//! whole-degree angles that never leave `[0, 360)`, 8- and 16-bit color triples,
//! the sRGB transfer function between 8-bit sRGB and 16-bit linear light, named
//! base colors, hex codes, and the text forms of these values.

pub mod angle;
pub mod util;
pub mod color;
pub mod hex;
pub mod decimal;
pub mod ansi;
pub mod gamma;
