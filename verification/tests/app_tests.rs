use quickview::app::{App, AppAction, AppMessage, Effect};
use quickview::config::{QuickviewConfig, RawConfig};
use quickview::contexts::{About, Context};
use quickview::nav::PageId;
use quickview::pages::{Config, Home};
use quickview::theme::Theme;

fn fallback() -> QuickviewConfig {
    QuickviewConfig::default_with_path(String::from("/fallback/target"))
}

fn fresh_app() -> App {
    let (app, errors) = App::init(String::from("Home"), String::from("Config"), None, fallback());
    assert_eq!(errors, 0);
    app
}

#[test]
fn init_starts_on_home_with_the_drawer_hidden() {
    let app = fresh_app();
    assert_eq!(app.context_page, Context::NoPage);
    assert!(!app.show_context);
    assert_eq!(app.view(), Some(PageId::Home));
    assert_eq!(app.config, fallback());
}

#[test]
fn init_reports_one_error_per_malformed_store_field() {
    let raw = RawConfig { target_path: None, theme: Some(String::from("Noir")) };
    let (app, errors) =
        App::init(String::from("Home"), String::from("Config"), Some(raw), fallback());
    assert_eq!(errors, 2);
    assert_eq!(app.config, fallback());
}

#[test]
fn toggling_the_same_context_page_twice_hides_the_drawer() {
    let mut app = fresh_app();
    app.update(AppMessage::ToggleContextPage(Context::About));
    assert!(app.show_context);
    assert_eq!(app.context_page, Context::About);
    app.update(AppMessage::ToggleContextPage(Context::About));
    assert!(!app.show_context);
}

#[test]
fn toggling_a_different_context_page_switches_without_closing() {
    let mut app = fresh_app();
    app.update(AppMessage::ToggleContextPage(Context::About));
    assert!(app.show_context);
    app.update(AppMessage::ToggleContextPage(Context::NoPage));
    assert!(app.show_context);
    assert_eq!(app.context_page, Context::NoPage);
}

#[test]
fn updating_the_config_replaces_the_record_and_nothing_else() {
    let mut app = fresh_app();
    let replacement = QuickviewConfig { target_path: String::from("/new"), theme: Theme::Dark };
    let effects = app.update(AppMessage::UpdateConfig(replacement.clone()));
    assert!(effects.is_empty());
    assert_eq!(app.config, replacement);
    assert_eq!(app.context_page, Context::NoPage);
    assert!(!app.show_context);
}

#[test]
fn opening_a_url_is_handed_back_as_an_effect() {
    let mut app = fresh_app();
    let effects = app.update(AppMessage::OpenUrl(String::from("https://example.org")));
    assert_eq!(effects, vec![Effect::OpenUrl(String::from("https://example.org"))]);
    assert_eq!(app.context_page, Context::NoPage);
    assert!(!app.show_context);
    assert_eq!(app.config, fallback());
}

#[test]
fn the_menu_action_toggles_the_about_page() {
    let message = AppAction::MenuToggleAboutContextPage.message();
    assert!(matches!(message, AppMessage::ToggleContextPage(Context::About)));
}

#[test]
fn the_context_drawer_shows_the_about_page_only_when_open() {
    let mut app = fresh_app();
    assert_eq!(app.context_drawer(), None);
    app.update(AppMessage::ToggleContextPage(Context::About));
    assert_eq!(app.context_drawer(), Some(Context::About));
    app.update(AppMessage::ToggleContextPage(Context::NoPage));
    assert_eq!(app.context_drawer(), None);
}

#[test]
fn the_window_title_names_the_active_page() {
    let mut app = fresh_app();
    assert_eq!(app.update_title("quickview"), "quickview — Home");
    let title = app.on_nav_select(1, "quickview");
    assert_eq!(title, "quickview — Config");
    assert_eq!(app.view(), Some(PageId::Config));
}

#[test]
fn the_pages_show_their_texts_and_react_to_no_message() {
    let mut home = Home;
    let mut config = Config;
    assert_eq!(home.view_text(), "This is the home page!");
    assert_eq!(config.view_text(), "This is the config page!");
    let message = AppMessage::ToggleContextPage(Context::About);
    assert!(home.update(&message).is_empty());
    assert!(config.update(&message).is_empty());
}

#[test]
fn the_about_page_abbreviates_the_commit_hash() {
    let about = About;
    assert_eq!(about.short_hash("0123456789abcdef"), "0123456");
    assert_eq!(about.short_hash("abc"), "abc");
    assert_eq!(about.short_hash(""), "");
}

#[test]
fn the_about_page_links_to_the_commit_listing() {
    let about = About;
    let url = about.commit_url("https://example.org/repo", "0123456789abcdef");
    assert_eq!(url, "https://example.org/repo/commits/0123456789abcdef");
}
