//! Messages to the application window.

use vstd::prelude::*;

verus! {

/// What the header bar asks of the application.
#[derive(Clone, Copy, Debug, PartialEq, Eq, Structural)]
pub enum AppMsg {
    /// Fetch the feed again.
    Reload,
    /// Show or hide the form that adds a subscription.
    ToggleAddSubscription,
    /// Show or hide the form that adds a filter.
    ToggleAddFilter,
}

} // verus!
