//! The logic of a feed reader: filters made of two regular expressions, one
//! for an entry's title and one for its channel, and the state of the
//! window's header bar.

pub mod errors;
pub mod filter;
pub mod gui;
pub mod youtube_feed;
