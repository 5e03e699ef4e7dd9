use vstd::prelude::*;
use crate::strutil::{contains_seq, esc_free};
use colored::Colorize;

verus! {

// Each function here hands a text to the `colored` crate for terminal
// styling.  Styling either returns the text unchanged (when colors are
// disabled) or wraps it in an escape prefix and a reset suffix; a text
// free of escape characters therefore always survives as a contiguous
// piece of the result, and the result is never shorter than the input.

/// Relies on colored's Colorize::red (and Display of ColoredString): the
/// input is kept whole, plainly or between escape sequences.
#[verifier::external_body]
pub fn paint_red(s: &str) -> (r: String)
    ensures
        r@.len() >= s@.len(),
        esc_free(s@) ==> contains_seq(r@, s@),
{
    s.red().to_string()
}

/// Relies on colored's Colorize::green: the input is kept whole, plainly
/// or between escape sequences.
#[verifier::external_body]
pub fn paint_green(s: &str) -> (r: String)
    ensures
        r@.len() >= s@.len(),
        esc_free(s@) ==> contains_seq(r@, s@),
{
    s.green().to_string()
}

/// Relies on colored's Colorize::blue: the input is kept whole, plainly
/// or between escape sequences.
#[verifier::external_body]
pub fn paint_blue(s: &str) -> (r: String)
    ensures
        r@.len() >= s@.len(),
        esc_free(s@) ==> contains_seq(r@, s@),
{
    s.blue().to_string()
}

/// Relies on colored's Colorize::yellow: the input is kept whole, plainly
/// or between escape sequences.
#[verifier::external_body]
pub fn paint_yellow(s: &str) -> (r: String)
    ensures
        r@.len() >= s@.len(),
        esc_free(s@) ==> contains_seq(r@, s@),
{
    s.yellow().to_string()
}

/// Relies on colored's Colorize::white: the input is kept whole, plainly
/// or between escape sequences.
#[verifier::external_body]
pub fn paint_white(s: &str) -> (r: String)
    ensures
        r@.len() >= s@.len(),
        esc_free(s@) ==> contains_seq(r@, s@),
{
    s.white().to_string()
}

/// Relies on colored's Colorize::bold: the input is kept whole, plainly
/// or between escape sequences.
#[verifier::external_body]
pub fn paint_bold(s: &str) -> (r: String)
    ensures
        r@.len() >= s@.len(),
        esc_free(s@) ==> contains_seq(r@, s@),
{
    s.bold().to_string()
}

} // verus!
