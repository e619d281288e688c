//! The trusted edge of the library: the calls into the `colored` crate that
//! produce styled text, one call into std for output, and one std string
//! operation that vstd leaves unspecified. Everything else in the crate is
//! verified against the contracts stated here.

use vstd::prelude::*;
use colored::Colorize;
use std::io::Write;
use crate::ansi::{no_esc, strip_ansi, ansi_wf};
use crate::Hue;

verus! {

#[verifier::external_type_specification]
#[verifier::external_body]
pub struct ExColoredColor(colored::Color);

/// Relies on the variant names of colored's `Color` enum: maps each color of
/// this library to the same-named color constant of the colored crate
/// (purple being colored's name for magenta).
#[verifier::external_body]
pub(crate) fn colored_color(c: &Hue) -> colored::Color {
    match c {
        Hue::Black => colored::Color::Black,
        Hue::Red => colored::Color::Red,
        Hue::Green => colored::Color::Green,
        Hue::Yellow => colored::Color::Yellow,
        Hue::Blue => colored::Color::Blue,
        Hue::Magenta => colored::Color::Magenta,
        Hue::Cyan => colored::Color::Cyan,
        Hue::White => colored::Color::White,
    }
}

/// Relies on colored's `Colorize::color` and on `ColoredString`'s rendering:
/// the result is either the text itself (when the sink takes no color) or
/// the text wrapped in one complete SGR sequence on each side, so stripping
/// the styling gives the text back.
#[verifier::external_body]
pub(crate) fn paint(s: &str, c: colored::Color) -> (r: String)
    ensures
        no_esc(s@) ==> ansi_wf(r@) && strip_ansi(r@) == s@,
{
    s.color(c).to_string()
}

/// Relies on colored's `Colorize::color` and `Colorize::bold` and on
/// `ColoredString`'s rendering, exactly as `paint` does.
#[verifier::external_body]
pub(crate) fn paint_bold(s: &str, c: colored::Color) -> (r: String)
    ensures
        no_esc(s@) ==> ansi_wf(r@) && strip_ansi(r@) == s@,
{
    s.color(c).bold().to_string()
}

/// Relies on colored's `Colorize::bold` and on `ColoredString`'s rendering,
/// exactly as `paint` does.
#[verifier::external_body]
pub(crate) fn bold_only(s: &str) -> (r: String)
    ensures
        no_esc(s@) ==> ansi_wf(r@) && strip_ansi(r@) == s@,
{
    s.bold().to_string()
}

/// Relies on std's `writeln!` over standard output: writes the text and a
/// single trailing newline. A failed write is not reported, as the platform
/// default has it.
#[verifier::external_body]
pub(crate) fn write_line(s: &str) {
    let _ = writeln!(std::io::stdout(), "{}", s);
}

/// Relies on `String::push`: appends the given character at the end.
#[verifier::external_body]
pub(crate) fn push_char(s: &mut String, c: char)
    ensures
        final(s)@ == old(s)@.push(c),
{
    s.push(c);
}

} // verus!
