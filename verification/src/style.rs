//! Text styling. The report renderers color-code their output; the escape
//! sequences come from the `owo-colors` crate, whose wrapped output is pinned
//! here character for character.

use owo_colors::OwoColorize;
use vstd::prelude::*;

verus! {

/// `s` wrapped in the red foreground escape and the default-foreground escape.
pub open spec fn red_view(s: Seq<char>) -> Seq<char> {
    "\u{1b}[31m"@ + s + "\u{1b}[39m"@
}

/// `s` wrapped in the green foreground escape and the default-foreground escape.
pub open spec fn green_view(s: Seq<char>) -> Seq<char> {
    "\u{1b}[32m"@ + s + "\u{1b}[39m"@
}

/// `s` wrapped in the magenta foreground escape and the default-foreground escape.
pub open spec fn magenta_view(s: Seq<char>) -> Seq<char> {
    "\u{1b}[35m"@ + s + "\u{1b}[39m"@
}

/// `s` wrapped in the cyan foreground escape and the default-foreground escape.
pub open spec fn cyan_view(s: Seq<char>) -> Seq<char> {
    "\u{1b}[36m"@ + s + "\u{1b}[39m"@
}

/// `s` wrapped in the bold escape and the reset escape.
pub open spec fn bold_view(s: Seq<char>) -> Seq<char> {
    "\u{1b}[1m"@ + s + "\u{1b}[0m"@
}

/// Relies on owo_colors::OwoColorize::red: the Display impl of the returned
/// wrapper writes `\x1b[31m`, the text unchanged, then `\x1b[39m`.
#[verifier::external_body]
pub(crate) fn paint_red(s: &str) -> (r: String)
    ensures
        r@ == red_view(s@),
{
    format!("{}", s.red())
}

/// Relies on owo_colors::OwoColorize::green: the Display impl of the returned
/// wrapper writes `\x1b[32m`, the text unchanged, then `\x1b[39m`.
#[verifier::external_body]
pub(crate) fn paint_green(s: &str) -> (r: String)
    ensures
        r@ == green_view(s@),
{
    format!("{}", s.green())
}

/// Relies on owo_colors::OwoColorize::magenta: the Display impl of the returned
/// wrapper writes `\x1b[35m`, the text unchanged, then `\x1b[39m`.
/// (`OwoColorize::purple` produces the same escape codes.)
#[verifier::external_body]
pub(crate) fn paint_magenta(s: &str) -> (r: String)
    ensures
        r@ == magenta_view(s@),
{
    format!("{}", s.magenta())
}

/// Relies on owo_colors::OwoColorize::cyan: the Display impl of the returned
/// wrapper writes `\x1b[36m`, the text unchanged, then `\x1b[39m`.
#[verifier::external_body]
pub(crate) fn paint_cyan(s: &str) -> (r: String)
    ensures
        r@ == cyan_view(s@),
{
    format!("{}", s.cyan())
}

/// Relies on owo_colors::OwoColorize::bold: the Display impl of the returned
/// wrapper writes `\x1b[1m`, the text unchanged, then `\x1b[0m`.
#[verifier::external_body]
pub(crate) fn paint_bold(s: &str) -> (r: String)
    ensures
        r@ == bold_view(s@),
{
    format!("{}", s.bold())
}

} // verus!
