//! The colour escapes that the renderer emits.
//!
//! The escape text itself comes from `better_term`; the rest of the
//! crate only ever speaks of it through [`spec_escape`], which states
//! the exact character sequence.

use vstd::prelude::*;
use crate::text::spec_dec;

verus! {

/// A foreground colour the renderer can ask for.
#[derive(Debug, Clone, Copy)]
pub enum Tint {
    /// A true-colour value, one byte per channel.
    Rgb(u8, u8, u8),
    /// The terminal's white.
    White,
    /// The terminal's bright black, a dim gray.
    Gray,
}

/// The exact ANSI escape emitted for a tint: `ESC [` followed by the
/// foreground code and `m`. An RGB tint uses the `38;2;r;g;b` form
/// with each channel in decimal.
pub open spec fn spec_escape(t: Tint) -> Seq<char> {
    match t {
        Tint::Rgb(r, g, b) => seq!['\u{1b}', '[', '3', '8', ';', '2', ';'] + spec_dec(r as int)
            + seq![';'] + spec_dec(g as int) + seq![';'] + spec_dec(b as int) + seq!['m'],
        Tint::White => seq!['\u{1b}', '[', '3', '7', 'm'],
        Tint::Gray => seq!['\u{1b}', '[', '9', '0', 'm'],
    }
}

/// Relies on `better_term::Color`'s `Display` impl: formatting a colour
/// yields `"\x1b["`, then its foreground code (`"37"` for `White`,
/// `"90"` for `BrightBlack`, `"38;2;{r};{g};{b}"` with decimal channels
/// for `RGB`), then `"m"`.
#[verifier::external_body]
pub(crate) fn escape(t: Tint) -> (out: String)
    ensures
        out@ == spec_escape(t),
{
    let color = match t {
        Tint::Rgb(r, g, b) => better_term::Color::RGB(r, g, b),
        Tint::White => better_term::Color::White,
        Tint::Gray => better_term::Color::BrightBlack,
    };
    format!("{}", color)
}

} // verus!
