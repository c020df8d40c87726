use quickview::nav::{init_model, PageId};

fn model() -> quickview::nav::NavModel {
    init_model(String::from("Home"), String::from("Config"))
}

#[test]
fn navigation_starts_with_exactly_one_active_entry_the_first() {
    let nav = model();
    assert_eq!(nav.entries.len(), 2);
    assert!(nav.entries[0].active);
    assert!(!nav.entries[1].active);
    assert_eq!(nav.entries[0].text, "Home");
    assert_eq!(nav.entries[0].page, PageId::Home);
    assert_eq!(nav.entries[1].text, "Config");
    assert_eq!(nav.entries[1].page, PageId::Config);
    assert_eq!(nav.active_index(), Some(0));
}

#[test]
fn navigation_entries_carry_their_icons() {
    let nav = model();
    assert_eq!(nav.entries[0].icon, "user-home-symbolic");
    assert_eq!(nav.entries[1].icon, "applications-system-symbolic");
}

#[test]
fn activating_an_entry_deselects_the_rest() {
    let mut nav = model();
    nav.activate(1);
    assert!(!nav.entries[0].active);
    assert!(nav.entries[1].active);
    assert_eq!(nav.active_index(), Some(1));
    assert_eq!(nav.active_text(), Some(String::from("Config")));
    assert_eq!(nav.active_page(), Some(PageId::Config));
}

#[test]
fn activating_past_the_end_changes_nothing() {
    let mut nav = model();
    nav.activate(5);
    assert!(nav.entries[0].active);
    assert!(!nav.entries[1].active);
    assert_eq!(nav.active_index(), Some(0));
}

#[test]
fn active_text_and_page_follow_the_first_active_entry() {
    let nav = model();
    assert_eq!(nav.active_text(), Some(String::from("Home")));
    assert_eq!(nav.active_page(), Some(PageId::Home));
}
