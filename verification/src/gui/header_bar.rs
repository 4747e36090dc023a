//! The header bar: which page is shown, and under which title.

use crate::gui::app::AppMsg;
use std::str::FromStr;
use vstd::prelude::*;

verus! {

/// The page shown when the application starts.
pub const STARTING_PAGE: Page = Page::Feed;

/// The pages of the application.
#[derive(Clone, Copy, Debug, PartialEq, Eq, Structural)]
pub enum Page {
    Feed,
    WatchLater,
    Filters,
    Subscriptions,
}

impl Page {
    /// The title under which the page is shown.
    pub open spec fn title(self) -> Seq<char> {
        match self {
            Page::Feed => "Feed"@,
            Page::WatchLater => "Watch Later"@,
            Page::Filters => "Filters"@,
            Page::Subscriptions => "Subscriptions"@,
        }
    }

    /// All pages, in the order in which a title is looked up.
    pub open spec fn all_values() -> Seq<Page> {
        seq![Page::Feed, Page::WatchLater, Page::Filters, Page::Subscriptions]
    }

    /// The page with the given title, if there is one.
    pub open spec fn with_title(title: Seq<char>) -> Result<Page, ()> {
        if title == Page::Feed.title() {
            Ok(Page::Feed)
        } else if title == Page::WatchLater.title() {
            Ok(Page::WatchLater)
        } else if title == Page::Filters.title() {
            Ok(Page::Filters)
        } else if title == Page::Subscriptions.title() {
            Ok(Page::Subscriptions)
        } else {
            Err(())
        }
    }

    /// All pages of the application.
    pub fn get_all_values() -> (values: Vec<Page>)
        ensures
            values@ == Page::all_values(),
    {
        let mut values: Vec<Page> = Vec::new();
        values.push(Page::Feed);
        values.push(Page::WatchLater);
        values.push(Page::Filters);
        values.push(Page::Subscriptions);
        values
    }
}

/// A `String` cannot be written down in a specification, only its
/// characters can: what `String::from(page)` returns is stated on `from`
/// itself, over the characters, and `from_spec` is left unused.
impl vstd::std_specs::convert::FromSpecImpl<Page> for String {
    open spec fn obeys_from_spec() -> bool {
        false
    }

    open spec fn from_spec(page: Page) -> String {
        arbitrary()
    }
}

impl From<Page> for String {
    /// The title of the page.
    fn from(page: Page) -> (title: String)
        ensures
            title@ == page.title(),
    {
        match page {
            Page::Feed => "Feed".to_owned(),
            Page::WatchLater => "Watch Later".to_owned(),
            Page::Filters => "Filters".to_owned(),
            Page::Subscriptions => "Subscriptions".to_owned(),
        }
    }
}

impl FromStr for Page {
    type Err = ();

    /// The first page, in the order of `get_all_values`, whose title is
    /// `string`; an error if no page has that title.
    fn from_str(string: &str) -> (res: Result<Page, ()>)
        ensures
            res == Page::with_title(string@),
    {
        let all_values = Page::get_all_values();
        let owned = string.to_owned();

        let mut i: usize = 0;
        while i < all_values.len()
            invariant
                i <= all_values.len(),
                all_values@ == Page::all_values(),
                owned@ == string@,
                forall|j: int| 0 <= j < i ==> all_values[j].title() != string@,
            decreases all_values.len() - i,
        {
            let val = all_values[i];
            let val_str: String = String::from(val);
            if val_str == owned {
                return Ok(val);
            }
            i += 1;
        }

        Err(())
    }
}

/// What the header bar's widgets report.
#[derive(Clone, Copy, Debug, PartialEq, Eq, Structural)]
pub enum HeaderBarMsg {
    /// Another page is shown.
    SetPage(Page),
    /// The button that adds a subscription was clicked.
    AddSubscription,
    /// The button that adds a filter was clicked.
    AddFilter,
    /// The reload button was clicked.
    Reload,
}

impl HeaderBarMsg {
    /// The page shown after this message, when `page` was shown before it.
    pub open spec fn next_page(self, page: Page) -> Page {
        match self {
            HeaderBarMsg::SetPage(next) => next,
            _ => page,
        }
    }

    /// What this message asks of the application.
    pub open spec fn forwarded(self) -> Option<AppMsg> {
        match self {
            HeaderBarMsg::SetPage(_) => None,
            HeaderBarMsg::Reload => Some(AppMsg::Reload),
            HeaderBarMsg::AddSubscription => Some(AppMsg::ToggleAddSubscription),
            HeaderBarMsg::AddFilter => Some(AppMsg::ToggleAddFilter),
        }
    }
}

/// What the header bar shows: the current page and its title, which always
/// belong together.
#[derive(Debug)]
pub struct HeaderBarModel {
    page: Page,
    title: String,
}

impl View for HeaderBarModel {
    type V = Page;

    /// The page that is shown.
    closed spec fn view(&self) -> Page {
        self.page
    }
}

impl HeaderBarModel {
    #[verifier::type_invariant]
    spec fn title_belongs_to_page(self) -> bool {
        self.title@ == self.page.title()
    }

    /// The header bar as the application starts: on the starting page.
    pub fn model() -> (model: HeaderBarModel)
        ensures
            model@ == STARTING_PAGE,
    {
        HeaderBarModel { page: STARTING_PAGE, title: String::from(STARTING_PAGE) }
    }

    /// The page that is shown.
    pub fn page(&self) -> (page: Page)
        ensures
            page == self@,
    {
        self.page
    }

    /// The title that is shown: that of the current page.
    pub fn title(&self) -> (title: &str)
        ensures
            title@ == self@.title(),
    {
        proof {
            use_type_invariant(self);
        }
        self.title.as_str()
    }

    /// Takes in one message. `SetPage` changes the page and its title; every
    /// other message leaves both alone and is handed on to the application
    /// as the message returned.
    pub fn update(&mut self, event: HeaderBarMsg) -> (emitted: Option<AppMsg>)
        ensures
            final(self)@ == event.next_page(old(self)@),
            emitted == event.forwarded(),
    {
        match event {
            HeaderBarMsg::SetPage(page) => {
                self.set_page(page);
                None
            },
            HeaderBarMsg::Reload => Some(AppMsg::Reload),
            HeaderBarMsg::AddSubscription => Some(AppMsg::ToggleAddSubscription),
            HeaderBarMsg::AddFilter => Some(AppMsg::ToggleAddFilter),
        }
    }

    /// Shows `page`, under its title.
    pub fn set_page(&mut self, page: Page)
        ensures
            final(self)@ == page,
    {
        *self = HeaderBarModel { page, title: String::from(page) };
    }
}

/// No two pages share a title, so looking up a page's title gives the page
/// back.
pub proof fn lemma_title_names_page(page: Page)
    ensures
        Page::with_title(page.title()) == Ok::<Page, ()>(page),
{
    reveal_strlit("Feed");
    reveal_strlit("Watch Later");
    reveal_strlit("Filters");
    reveal_strlit("Subscriptions");
    assert("Feed"@.len() == 4);
    assert("Watch Later"@.len() == 11);
    assert("Filters"@.len() == 7);
    assert("Subscriptions"@.len() == 13);
}

} // verus!
