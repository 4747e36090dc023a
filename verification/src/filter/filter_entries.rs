//! Filters that decide which feed entries are hidden.

use crate::errors::Error;
use crate::filter::pattern::{compiles, is_match, regex_compiles, regex_is_match};
use crate::youtube_feed::Entry;
use vstd::prelude::*;
use vstd::std_specs::cmp::PartialEqSpec;

verus! {

/// Filter for feed entries.
///
/// A filter is made of two regular expressions, kept as the texts they were
/// written as. Both texts always compile: `new` is the only way to make a
/// filter, and it refuses a text that does not.
#[derive(Debug)]
pub struct EntryFilter {
    /// The filter for the title.
    title_filter: String,
    /// The filter for the channel.
    channel_filter: String,
}

impl View for EntryFilter {
    type V = (Seq<char>, Seq<char>);

    /// The title filter and the channel filter, as they were written.
    closed spec fn view(&self) -> (Seq<char>, Seq<char>) {
        (self.title_filter@, self.channel_filter@)
    }
}

impl Clone for EntryFilter {
    /// A filter written the same as this one.
    fn clone(&self) -> (res: Self)
        ensures
            res@ == self@,
    {
        proof {
            use_type_invariant(self);
        }
        EntryFilter {
            title_filter: self.title_filter.clone(),
            channel_filter: self.channel_filter.clone(),
        }
    }
}

impl PartialEq for EntryFilter {
    /// Two filters are equal when they were written the same.
    fn eq(&self, other: &Self) -> (res: bool) {
        self.title_filter == other.title_filter && self.channel_filter == other.channel_filter
    }
}

impl vstd::std_specs::cmp::PartialEqSpecImpl for EntryFilter {
    open spec fn obeys_eq_spec() -> bool {
        true
    }

    open spec fn eq_spec(&self, other: &Self) -> bool {
        self@ == other@
    }
}

impl Eq for EntryFilter {

}

impl EntryFilter {
    #[verifier::type_invariant]
    spec fn both_compile(self) -> bool {
        regex_compiles(self.title_filter@) && regex_compiles(self.channel_filter@)
    }

    /// Whether the title filter matches somewhere within `title`.
    pub open spec fn title_matches(&self, title: Seq<char>) -> bool {
        regex_is_match(self@.0, title)
    }

    /// Whether the channel filter matches somewhere within `channel`.
    pub open spec fn channel_matches(&self, channel: Seq<char>) -> bool {
        regex_is_match(self@.1, channel)
    }

    /// Create a new filter from the text of its two regular expressions.
    ///
    /// The title filter is tried first: if it does not compile, the error
    /// holds its text, whatever the channel filter is. Otherwise, if the
    /// channel filter does not compile, the error holds that text. An empty
    /// text always compiles.
    pub fn new(title_filter: &str, channel_filter: &str) -> (res: Result<Self, Error>)
        ensures
            res is Ok <==> regex_compiles(title_filter@) && regex_compiles(channel_filter@),
            res matches Ok(filter) ==> filter@ == (title_filter@, channel_filter@),
            res matches Err(err) ==> err.filter_text() == if !regex_compiles(title_filter@) {
                title_filter@
            } else {
                channel_filter@
            },
            title_filter@.len() == 0 ==> (res is Ok <==> regex_compiles(channel_filter@)),
            channel_filter@.len() == 0 ==> (res is Ok <==> regex_compiles(title_filter@)),
            title_filter@.len() == 0 && channel_filter@.len() == 0 ==> res is Ok,
    {
        if !compiles(title_filter) {
            return Err(Error::parsing_filter(title_filter));
        }
        if !compiles(channel_filter) {
            return Err(Error::parsing_filter(channel_filter));
        }
        Ok(
            EntryFilter {
                title_filter: title_filter.to_owned(),
                channel_filter: channel_filter.to_owned(),
            },
        )
    }

    /// Get the title filter as a string: the text it was written as.
    pub fn get_title_filter_string(&self) -> (text: String)
        ensures
            text@ == self@.0,
            regex_compiles(text@),
    {
        proof {
            use_type_invariant(self);
        }
        self.title_filter.clone()
    }

    /// Get the channel filter as a string: the text it was written as.
    pub fn get_channel_filter_string(&self) -> (text: String)
        ensures
            text@ == self@.1,
            regex_compiles(text@),
    {
        proof {
            use_type_invariant(self);
        }
        self.channel_filter.clone()
    }

    /// Test if filter matches. A filter matches if both the title and channel matches.
    ///
    /// Each filter is searched for anywhere within its text. An empty filter
    /// matches every text, so a filter with one empty part decides by the
    /// other part alone, and one with two empty parts matches every entry.
    pub fn matches(&self, entry: &Entry) -> (res: bool)
        ensures
            res == (self.title_matches(entry.title@) && self.channel_matches(entry.author.name@)),
            self@.0.len() == 0 ==> res == self.channel_matches(entry.author.name@),
            self@.1.len() == 0 ==> res == self.title_matches(entry.title@),
            self@.0.len() == 0 && self@.1.len() == 0 ==> res,
    {
        proof {
            use_type_invariant(self);
        }
        is_match(self.title_filter.as_str(), entry.title.as_str()) && is_match(
            self.channel_filter.as_str(),
            entry.author.name.as_str(),
        )
    }
}

/// Every filter is equal to itself.
pub proof fn lemma_eq_reflexive(a: EntryFilter)
    ensures
        a.eq_spec(&a),
{
}

/// If one filter is equal to another, the other is equal to the first.
pub proof fn lemma_eq_symmetric(a: EntryFilter, b: EntryFilter)
    ensures
        a.eq_spec(&b) == b.eq_spec(&a),
{
}

/// Two filters that are equal to a third are equal to each other.
pub proof fn lemma_eq_transitive(a: EntryFilter, b: EntryFilter, c: EntryFilter)
    requires
        a.eq_spec(&b),
        b.eq_spec(&c),
    ensures
        a.eq_spec(&c),
{
}

/// Equality looks at the written texts and at nothing else: a filter made
/// from `title_a` and `channel_a` equals one made from `title_b` and
/// `channel_b` exactly when both texts agree. Filters that differ in either
/// text are never equal.
pub proof fn lemma_eq_by_text(
    a: EntryFilter,
    b: EntryFilter,
    title_a: Seq<char>,
    channel_a: Seq<char>,
    title_b: Seq<char>,
    channel_b: Seq<char>,
)
    requires
        a@ == (title_a, channel_a),
        b@ == (title_b, channel_b),
    ensures
        a.eq_spec(&b) <==> title_a == title_b && channel_a == channel_b,
{
}

} // verus!
