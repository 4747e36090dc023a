//! The boundary to the `regex` crate.
//!
//! Nothing in this module is proved. The two spec functions name what the
//! engine computes, and the two executable functions are believed to
//! compute exactly that. Everything else in the crate is verified on top
//! of these four items.

use regex::Regex;
use vstd::prelude::*;

verus! {

/// Whether `regex::Regex::new` accepts `pattern`: its syntax is valid and
/// the compiled program stays within the engine's default size limit.
pub uninterp spec fn regex_compiles(pattern: Seq<char>) -> bool;

/// Whether the regular expression written as `pattern` matches somewhere
/// within `text`, as `regex::Regex::is_match` decides it. Meaningful only
/// where `regex_compiles(pattern)` holds.
pub uninterp spec fn regex_is_match(pattern: Seq<char>, text: Seq<char>) -> bool;

/// Calls `regex::Regex::new` and reports whether it returned `Ok`.
///
/// Trusted: the outcome depends on the text of the pattern alone, and is
/// the one that `regex_compiles` names; the empty pattern is valid.
#[verifier::external_body]
pub(crate) fn compiles(pattern: &str) -> (ok: bool)
    ensures
        ok == regex_compiles(pattern@),
        pattern@.len() == 0 ==> ok,
{
    Regex::new(pattern).is_ok()
}

/// Compiles `pattern` with `regex::Regex::new` and calls
/// `regex::Regex::is_match` on `text`: an unanchored search.
///
/// Trusted: for a pattern that compiles, the answer depends on the two
/// texts alone, and is the one that `regex_is_match` names; the empty
/// pattern matches the empty string, which every text holds. The pattern
/// must compile, so the `Err` arm is never taken.
///
/// Filters keep their patterns as text, so every search compiles anew.
#[verifier::external_body]
pub(crate) fn is_match(pattern: &str, text: &str) -> (found: bool)
    requires
        regex_compiles(pattern@),
    ensures
        found == regex_is_match(pattern@, text@),
        pattern@.len() == 0 ==> found,
{
    match Regex::new(pattern) {
        Ok(compiled) => compiled.is_match(text),
        Err(_) => false,
    }
}

} // verus!
