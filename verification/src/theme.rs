//! The theme preference and its resolution to a concrete theme.

use vstd::prelude::*;

verus! {

/// The theme preference persisted in the configuration: follow the
/// platform, or force the dark or light variant.
#[derive(Clone, Copy, Debug, PartialEq, Eq, Structural)]
pub enum Theme {
    System,
    Dark,
    Light,
}

impl Default for Theme {
    /// The default preference follows the platform.
    fn default() -> (t: Theme)
        ensures
            t == Theme::System,
    {
        Theme::System
    }
}

/// The palette a resolved theme is built from: the platform's dark or
/// light variant, whichever the preference selected.
#[derive(Clone, Copy, Debug, PartialEq, Eq, Structural)]
pub enum Palette {
    Dark,
    Light,
}

/// A resolved theme: the palette in use, and whether a dark-preference
/// override was forced on top of the platform's own preference.
#[derive(Clone, Copy, Debug, PartialEq, Eq, Structural)]
pub struct ResolvedTheme {
    /// The palette the theme was built from.
    pub palette: Palette,
    /// The forced dark-preference flag: `Some(true)` forces dark,
    /// `Some(false)` forces light, `None` defers to the platform.
    pub prefer_dark: Option<bool>,
}

/// What resolving a preference yields, given whether the platform
/// itself prefers a dark palette.
pub open spec fn spec_set_theme(t: Theme, platform_prefers_dark: bool) -> ResolvedTheme {
    match t {
        Theme::System => (ResolvedTheme {
            palette: if platform_prefers_dark { Palette::Dark } else { Palette::Light },
            prefer_dark: None,
        }),
        Theme::Dark => (ResolvedTheme { palette: Palette::Dark, prefer_dark: Some(true) }),
        Theme::Light => (ResolvedTheme { palette: Palette::Light, prefer_dark: Some(false) }),
    }
}

impl Theme {
    /// Resolves this preference to a concrete theme.
    /// `platform_prefers_dark` is the platform's own preference, which
    /// only the `System` variant defers to.
    pub fn set_theme(&self, platform_prefers_dark: bool) -> (t: ResolvedTheme)
        ensures
            t == spec_set_theme(*self, platform_prefers_dark),
    {
        match self {
            Theme::Dark => ResolvedTheme { palette: Palette::Dark, prefer_dark: Some(true) },
            Theme::Light => ResolvedTheme { palette: Palette::Light, prefer_dark: Some(false) },
            Theme::System => ResolvedTheme {
                palette: if platform_prefers_dark { Palette::Dark } else { Palette::Light },
                prefer_dark: None,
            },
        }
    }
}

/// The dark preference forces dark whatever the platform prefers.
pub proof fn lemma_dark_forces_dark(platform_prefers_dark: bool)
    ensures
        spec_set_theme(Theme::Dark, platform_prefers_dark).prefer_dark == Some(true),
{
}

/// The light preference never carries a dark-preference flag of true,
/// whatever the platform prefers.
pub proof fn lemma_light_forces_light(platform_prefers_dark: bool)
    ensures
        spec_set_theme(Theme::Light, platform_prefers_dark).prefer_dark == Some(false),
{
}

} // verus!
