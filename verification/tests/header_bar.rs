use std::str::FromStr;
use tubefeeder::gui::app::AppMsg;
use tubefeeder::gui::header_bar::{HeaderBarModel, HeaderBarMsg, Page, STARTING_PAGE};

#[test]
fn all_values_lists_every_page_in_order() {
    assert_eq!(
        Page::get_all_values(),
        vec![Page::Feed, Page::WatchLater, Page::Filters, Page::Subscriptions]
    );
}

#[test]
fn page_titles() {
    assert_eq!(String::from(Page::Feed), "Feed");
    assert_eq!(String::from(Page::WatchLater), "Watch Later");
    assert_eq!(String::from(Page::Filters), "Filters");
    assert_eq!(String::from(Page::Subscriptions), "Subscriptions");
}

#[test]
fn page_into_string() {
    let title: String = Page::WatchLater.into();
    assert_eq!(title, "Watch Later");
}

#[test]
fn page_from_title() {
    assert_eq!(Page::from_str("Feed"), Ok(Page::Feed));
    assert_eq!(Page::from_str("Watch Later"), Ok(Page::WatchLater));
    assert_eq!(Page::from_str("Filters"), Ok(Page::Filters));
    assert_eq!(Page::from_str("Subscriptions"), Ok(Page::Subscriptions));
    assert_eq!("Filters".parse::<Page>(), Ok(Page::Filters));
}

#[test]
fn page_from_unknown_title() {
    assert_eq!(Page::from_str(""), Err(()));
    assert_eq!(Page::from_str("feed"), Err(()));
    assert_eq!(Page::from_str("WatchLater"), Err(()));
    assert_eq!(Page::from_str("Watch  Later"), Err(()));
    assert_eq!(Page::from_str("Feed "), Err(()));
}

#[test]
fn title_names_its_page() {
    for page in Page::get_all_values() {
        let title = String::from(page);
        assert_eq!(Page::from_str(&title), Ok(page));
    }
}

#[test]
fn model_starts_on_the_feed() {
    let model = HeaderBarModel::model();
    assert_eq!(STARTING_PAGE, Page::Feed);
    assert_eq!(model.page(), Page::Feed);
    assert_eq!(model.title(), "Feed");
}

#[test]
fn set_page_changes_page_and_title() {
    let mut model = HeaderBarModel::model();
    model.set_page(Page::WatchLater);
    assert_eq!(model.page(), Page::WatchLater);
    assert_eq!(model.title(), "Watch Later");
    model.set_page(Page::Subscriptions);
    assert_eq!(model.page(), Page::Subscriptions);
    assert_eq!(model.title(), "Subscriptions");
}

#[test]
fn update_set_page_emits_nothing() {
    let mut model = HeaderBarModel::model();
    assert_eq!(model.update(HeaderBarMsg::SetPage(Page::Filters)), None);
    assert_eq!(model.page(), Page::Filters);
    assert_eq!(model.title(), "Filters");
}

#[test]
fn update_hands_clicks_on() {
    let mut model = HeaderBarModel::model();
    model.set_page(Page::Subscriptions);
    assert_eq!(model.update(HeaderBarMsg::Reload), Some(AppMsg::Reload));
    assert_eq!(model.update(HeaderBarMsg::AddSubscription), Some(AppMsg::ToggleAddSubscription));
    assert_eq!(model.update(HeaderBarMsg::AddFilter), Some(AppMsg::ToggleAddFilter));
    assert_eq!(model.page(), Page::Subscriptions);
    assert_eq!(model.title(), "Subscriptions");
}
