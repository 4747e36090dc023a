//! The errors that the library reports.

use vstd::prelude::*;

verus! {

/// What can go wrong while a filter is built.
#[derive(Debug)]
pub enum Error {
    /// A filter text is no regular expression; holds that text.
    ParsingFilter(String),
}

impl Error {
    /// The error for a filter text that does not compile.
    pub fn parsing_filter(filter: &str) -> (err: Error)
        ensures
            err.filter_text() == filter@,
    {
        Error::ParsingFilter(filter.to_owned())
    }

    /// The filter text that the error is about.
    pub open spec fn filter_text(self) -> Seq<char> {
        match self {
            Error::ParsingFilter(text) => text@,
        }
    }

    /// The filter text that could not be compiled.
    pub fn get_filter_string(&self) -> (text: String)
        ensures
            text@ == self.filter_text(),
    {
        match self {
            Error::ParsingFilter(text) => text.clone(),
        }
    }
}

} // verus!
