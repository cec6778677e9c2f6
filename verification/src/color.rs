use vstd::prelude::*;

verus! {

/// A terminal foreground colour, as a small closed value set.
///
/// `Clear` stands for "no colour": used as a title colour it contributes no
/// escape sequence, and written as a template token it maps to the reset
/// sequence, so a template can switch styling off mid-value.
#[derive(Clone, Copy, PartialEq, Eq, Structural, Debug)]
pub enum CrabFetchColor {
    Black,
    Red,
    Green,
    Yellow,
    Blue,
    Magenta,
    Cyan,
    White,
    BrightBlack,
    BrightRed,
    BrightGreen,
    BrightYellow,
    BrightBlue,
    BrightMagenta,
    BrightCyan,
    BrightWhite,
    Clear,
}

/// The escape sequence that resets all terminal styling.
pub open spec fn reset_seq() -> Seq<char> {
    "\u{1b}[0m"@
}

/// The escape sequence that turns bold on.
pub open spec fn bold_seq() -> Seq<char> {
    "\u{1b}[1m"@
}

/// The escape sequence that turns italics on.
pub open spec fn italic_seq() -> Seq<char> {
    "\u{1b}[3m"@
}

/// The escape sequence a colour converts to. `Clear` converts to the reset
/// sequence; every other colour selects a foreground colour.
pub open spec fn color_escape_seq(c: CrabFetchColor) -> Seq<char> {
    match c {
        CrabFetchColor::Black => "\u{1b}[30m"@,
        CrabFetchColor::Red => "\u{1b}[31m"@,
        CrabFetchColor::Green => "\u{1b}[32m"@,
        CrabFetchColor::Yellow => "\u{1b}[33m"@,
        CrabFetchColor::Blue => "\u{1b}[34m"@,
        CrabFetchColor::Magenta => "\u{1b}[35m"@,
        CrabFetchColor::Cyan => "\u{1b}[36m"@,
        CrabFetchColor::White => "\u{1b}[37m"@,
        CrabFetchColor::BrightBlack => "\u{1b}[90m"@,
        CrabFetchColor::BrightRed => "\u{1b}[91m"@,
        CrabFetchColor::BrightGreen => "\u{1b}[92m"@,
        CrabFetchColor::BrightYellow => "\u{1b}[93m"@,
        CrabFetchColor::BrightBlue => "\u{1b}[94m"@,
        CrabFetchColor::BrightMagenta => "\u{1b}[95m"@,
        CrabFetchColor::BrightCyan => "\u{1b}[96m"@,
        CrabFetchColor::BrightWhite => "\u{1b}[97m"@,
        CrabFetchColor::Clear => "\u{1b}[0m"@,
    }
}

/// The token under which a colour may appear inside a format template.
pub open spec fn color_token_seq(c: CrabFetchColor) -> Seq<char> {
    match c {
        CrabFetchColor::Black => "{color-black}"@,
        CrabFetchColor::Red => "{color-red}"@,
        CrabFetchColor::Green => "{color-green}"@,
        CrabFetchColor::Yellow => "{color-yellow}"@,
        CrabFetchColor::Blue => "{color-blue}"@,
        CrabFetchColor::Magenta => "{color-magenta}"@,
        CrabFetchColor::Cyan => "{color-cyan}"@,
        CrabFetchColor::White => "{color-white}"@,
        CrabFetchColor::BrightBlack => "{color-brightblack}"@,
        CrabFetchColor::BrightRed => "{color-brightred}"@,
        CrabFetchColor::BrightGreen => "{color-brightgreen}"@,
        CrabFetchColor::BrightYellow => "{color-brightyellow}"@,
        CrabFetchColor::BrightBlue => "{color-brightblue}"@,
        CrabFetchColor::BrightMagenta => "{color-brightmagenta}"@,
        CrabFetchColor::BrightCyan => "{color-brightcyan}"@,
        CrabFetchColor::BrightWhite => "{color-brightwhite}"@,
        CrabFetchColor::Clear => "{color-clear}"@,
    }
}

/// The reset sequence as an executable string.
pub fn reset_str() -> (r: &'static str)
    ensures
        r@ == reset_seq(),
{
    "\u{1b}[0m"
}

/// The bold sequence as an executable string.
pub fn bold_str() -> (r: &'static str)
    ensures
        r@ == bold_seq(),
{
    "\u{1b}[1m"
}

/// The italic sequence as an executable string.
pub fn italic_str() -> (r: &'static str)
    ensures
        r@ == italic_seq(),
{
    "\u{1b}[3m"
}

/// The escape sequence a colour converts to, as an executable string.
pub fn color_escape_str(c: &CrabFetchColor) -> (r: &'static str)
    ensures
        r@ == color_escape_seq(*c),
{
    match c {
        CrabFetchColor::Black => "\u{1b}[30m",
        CrabFetchColor::Red => "\u{1b}[31m",
        CrabFetchColor::Green => "\u{1b}[32m",
        CrabFetchColor::Yellow => "\u{1b}[33m",
        CrabFetchColor::Blue => "\u{1b}[34m",
        CrabFetchColor::Magenta => "\u{1b}[35m",
        CrabFetchColor::Cyan => "\u{1b}[36m",
        CrabFetchColor::White => "\u{1b}[37m",
        CrabFetchColor::BrightBlack => "\u{1b}[90m",
        CrabFetchColor::BrightRed => "\u{1b}[91m",
        CrabFetchColor::BrightGreen => "\u{1b}[92m",
        CrabFetchColor::BrightYellow => "\u{1b}[93m",
        CrabFetchColor::BrightBlue => "\u{1b}[94m",
        CrabFetchColor::BrightMagenta => "\u{1b}[95m",
        CrabFetchColor::BrightCyan => "\u{1b}[96m",
        CrabFetchColor::BrightWhite => "\u{1b}[97m",
        CrabFetchColor::Clear => "\u{1b}[0m",
    }
}

/// The template token of a colour, as an executable string.
pub fn color_token_str(c: &CrabFetchColor) -> (r: &'static str)
    ensures
        r@ == color_token_seq(*c),
{
    match c {
        CrabFetchColor::Black => "{color-black}",
        CrabFetchColor::Red => "{color-red}",
        CrabFetchColor::Green => "{color-green}",
        CrabFetchColor::Yellow => "{color-yellow}",
        CrabFetchColor::Blue => "{color-blue}",
        CrabFetchColor::Magenta => "{color-magenta}",
        CrabFetchColor::Cyan => "{color-cyan}",
        CrabFetchColor::White => "{color-white}",
        CrabFetchColor::BrightBlack => "{color-brightblack}",
        CrabFetchColor::BrightRed => "{color-brightred}",
        CrabFetchColor::BrightGreen => "{color-brightgreen}",
        CrabFetchColor::BrightYellow => "{color-brightyellow}",
        CrabFetchColor::BrightBlue => "{color-brightblue}",
        CrabFetchColor::BrightMagenta => "{color-brightmagenta}",
        CrabFetchColor::BrightCyan => "{color-brightcyan}",
        CrabFetchColor::BrightWhite => "{color-brightwhite}",
        CrabFetchColor::Clear => "{color-clear}",
    }
}

} // verus!
