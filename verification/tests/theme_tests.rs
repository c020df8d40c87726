use quickview::theme::{Palette, Theme};

#[test]
fn default_theme_follows_the_platform() {
    assert_eq!(Theme::default(), Theme::System);
}

#[test]
fn dark_preference_forces_dark_whatever_the_platform_prefers() {
    for platform_prefers_dark in [false, true] {
        let resolved = Theme::Dark.set_theme(platform_prefers_dark);
        assert_eq!(resolved.prefer_dark, Some(true));
        assert_eq!(resolved.palette, Palette::Dark);
    }
}

#[test]
fn light_preference_forces_light_whatever_the_platform_prefers() {
    for platform_prefers_dark in [false, true] {
        let resolved = Theme::Light.set_theme(platform_prefers_dark);
        assert_eq!(resolved.prefer_dark, Some(false));
        assert_eq!(resolved.palette, Palette::Light);
    }
}

#[test]
fn system_preference_defers_to_the_platform() {
    let on_dark = Theme::System.set_theme(true);
    assert_eq!(on_dark.prefer_dark, None);
    assert_eq!(on_dark.palette, Palette::Dark);

    let on_light = Theme::System.set_theme(false);
    assert_eq!(on_light.prefer_dark, None);
    assert_eq!(on_light.palette, Palette::Light);
}
