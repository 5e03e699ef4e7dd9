use vstd::prelude::*;
use crate::strutil::{contains_seq, esc_free};
use crate::style::paint_red;

verus! {

/// An error message already styled for the terminal.
pub struct FormattedError {
    message: String,
}

impl View for FormattedError {
    type V = Seq<char>;

    closed spec fn view(&self) -> Seq<char> {
        self.message@
    }
}

impl FormattedError {
    /// Wraps a message whose styling the caller already did.
    pub fn preformatted(formatted_string: String) -> (r: FormattedError)
        ensures
            r@ == formatted_string@,
    {
        FormattedError { message: formatted_string }
    }

    /// Styles a plain message as an error.
    pub fn from_str(string: &str) -> (r: FormattedError)
        ensures
            esc_free(string@) ==> contains_seq(r@, string@),
    {
        FormattedError { message: paint_red(string) }
    }

    /// The styled message, ready to print.
    pub fn text(&self) -> (r: &String)
        ensures
            r@ == self@,
    {
        &self.message
    }
}

} // verus!
