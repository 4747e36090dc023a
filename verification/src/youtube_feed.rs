//! The part of a feed entry that filters read.

use vstd::prelude::*;

verus! {

/// The author of an entry: the channel that published it.
#[derive(Debug)]
pub struct Author {
    /// The channel's display name.
    pub name: String,
}

/// One item of a feed.
#[derive(Debug)]
pub struct Entry {
    /// The title of the entry.
    pub title: String,
    /// Who published the entry.
    pub author: Author,
}

} // verus!
