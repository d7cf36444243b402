use vstd::prelude::*;
use crate::strutil::dec_of;

verus! {

/// The two-character control sequence introducer that opens every ANSI
/// escape sequence the renderer emits.
pub open spec fn csi() -> Seq<char> {
    seq!['\u{1b}', '[']
}

/// The escape sequence that clears the entire screen.
pub open spec fn clear_all_seq() -> Seq<char> {
    csi() + seq!['2', 'J']
}

/// The escape sequence that clears the line under the cursor.
pub open spec fn clear_line_seq() -> Seq<char> {
    csi() + seq!['2', 'K']
}

/// The escape sequence that moves the cursor to the 1-based column `x` of
/// the 1-based row `y`.
pub open spec fn goto_seq(x: int, y: int) -> Seq<char> {
    csi() + dec_of(y) + seq![';'] + dec_of(x) + seq!['H']
}

/// The escape sequence that scrolls the terminal's own buffer up by `n`
/// rows.
pub open spec fn scroll_up_seq(n: int) -> Seq<char> {
    csi() + dec_of(n) + seq!['S']
}

/// The escape sequence that scrolls the terminal's own buffer down by `n`
/// rows.
pub open spec fn scroll_down_seq(n: int) -> Seq<char> {
    csi() + dec_of(n) + seq!['T']
}

/// The escape sequence that sets the background to the true-color value
/// `(r, g, b)`.
pub open spec fn bg_rgb_seq(r: int, g: int, b: int) -> Seq<char> {
    csi() + seq!['4', '8', ';', '2', ';'] + dec_of(r) + seq![';'] + dec_of(g) + seq![';'] + dec_of(
        b,
    ) + seq!['m']
}

/// The escape sequence that sets the foreground to ANSI palette black.
pub open spec fn fg_black_seq() -> Seq<char> {
    csi() + seq!['3', '8', ';', '5', ';', '0', 'm']
}

/// The escape sequence that resets the foreground color.
pub open spec fn fg_reset_seq() -> Seq<char> {
    csi() + seq!['3', '9', 'm']
}

/// The escape sequence that resets the background color.
pub open spec fn bg_reset_seq() -> Seq<char> {
    csi() + seq!['4', '9', 'm']
}

/// Relies on `termion::clear::All`, whose display form is the CSI
/// sequence `"2J"`.
#[verifier::external_body]
pub fn clear_all() -> (s: String)
    ensures
        s@ == clear_all_seq(),
{
    format!("{}", termion::clear::All)
}

/// Relies on `termion::clear::CurrentLine`, whose display form is the CSI
/// sequence `"2K"`.
#[verifier::external_body]
pub fn clear_line() -> (s: String)
    ensures
        s@ == clear_line_seq(),
{
    format!("{}", termion::clear::CurrentLine)
}

/// Relies on `termion::cursor::Goto`, whose display form is
/// `"\x1B[{y};{x}H"` with both 1-based coordinates in decimal; `(0, 0)` is
/// excluded because `Goto` rejects it.
#[verifier::external_body]
pub fn goto(x: u16, y: u16) -> (s: String)
    requires
        x >= 1 || y >= 1,
    ensures
        s@ == goto_seq(x as int, y as int),
{
    format!("{}", termion::cursor::Goto(x, y))
}

/// Relies on `termion::scroll::Up`, whose display form is `"\x1B[{n}S"`
/// with `n` in decimal.
#[verifier::external_body]
pub fn scroll_up(n: u16) -> (s: String)
    ensures
        s@ == scroll_up_seq(n as int),
{
    format!("{}", termion::scroll::Up(n))
}

/// Relies on `termion::scroll::Down`, whose display form is `"\x1B[{n}T"`
/// with `n` in decimal.
#[verifier::external_body]
pub fn scroll_down(n: u16) -> (s: String)
    ensures
        s@ == scroll_down_seq(n as int),
{
    format!("{}", termion::scroll::Down(n))
}

/// Relies on `termion::color::Rgb::bg_string`, which returns
/// `"\x1B[48;2;{r};{g};{b}m"` with the components in decimal.
#[verifier::external_body]
pub fn bg_rgb(r: u8, g: u8, b: u8) -> (s: String)
    ensures
        s@ == bg_rgb_seq(r as int, g as int, b as int),
{
    termion::color::Rgb(r, g, b).bg_string()
}

/// Relies on `termion::color::Black::fg_str`, which returns
/// `"\x1B[38;5;0m"`.
#[verifier::external_body]
pub fn fg_black() -> (s: String)
    ensures
        s@ == fg_black_seq(),
{
    termion::color::Black.fg_str().to_owned()
}

/// Relies on `termion::color::Reset::fg_str`, which returns `"\x1B[39m"`.
#[verifier::external_body]
pub fn fg_reset() -> (s: String)
    ensures
        s@ == fg_reset_seq(),
{
    termion::color::Reset.fg_str().to_owned()
}

/// Relies on `termion::color::Reset::bg_str`, which returns `"\x1B[49m"`.
#[verifier::external_body]
pub fn bg_reset() -> (s: String)
    ensures
        s@ == bg_reset_seq(),
{
    termion::color::Reset.bg_str().to_owned()
}

} // verus!
