//! The persisted configuration: the versioned record, its defaults, and
//! loading it from the store with per-field fallback.

use crate::theme::Theme;
use vstd::prelude::*;

verus! {

/// The schema version of the persisted configuration record.
pub const CONFIG_VERSION: u64 = 1;

/// The application's persisted configuration record.
#[derive(Debug, Clone, PartialEq, Eq)]
pub struct QuickviewConfig {
    /// The path under which the application stores the data it manages.
    pub target_path: String,
    /// The theme preference.
    pub theme: Theme,
}

/// The secondary configuration record: where the store directory lives.
#[derive(Debug, Clone, PartialEq, Eq)]
pub struct Config {
    /// The path of the store directory.
    pub store_path: String,
}

/// Relies on `xdg::BaseDirectories::with_prefix` and
/// `xdg::BaseDirectories::create_data_directory`: resolves the per-user
/// XDG data directory for `prefix`, creates `dir` under it, and returns
/// the created path. The outcome depends on the environment and the
/// filesystem, so nothing is promised of it.
#[verifier::external_body]
fn xdg_data_directory(prefix: &str, dir: &str) -> Option<String> {
    xdg::BaseDirectories::with_prefix(prefix)
        .ok()
        .and_then(|base| base.create_data_directory(dir).ok())
        .map(|path| path.to_string_lossy().into_owned())
}

impl QuickviewConfig {
    /// The record used when the store offers nothing: the given data
    /// directory and the platform-following theme.
    pub fn default_with_path(target_path: String) -> (c: QuickviewConfig)
        ensures
            c.target_path == target_path,
            c.theme == Theme::System,
    {
        QuickviewConfig { target_path, theme: Theme::System }
    }
}

impl Default for QuickviewConfig {
    /// Builds the default record; always yields a value. The per-user
    /// data directory is resolved and created outside the library, and
    /// an empty path stands in when that cannot be done.
    fn default() -> (c: QuickviewConfig)
        ensures
            c.theme == Theme::System,
    {
        let path = match xdg_data_directory("quickview", "target") {
            Some(p) => p,
            None => String::new(),
        };
        QuickviewConfig::default_with_path(path)
    }
}

impl Config {
    /// The record used when the store offers nothing: the given store
    /// directory.
    pub fn default_with_path(store_path: String) -> (c: Config)
        ensures
            c.store_path == store_path,
    {
        Config { store_path }
    }
}

impl Default for Config {
    /// Builds the default record; always yields a value. An empty path
    /// stands in when no store directory can be resolved, so nothing can
    /// be promised of the path.
    fn default() -> (c: Config) {
        let path = match xdg_data_directory("quickview", "store") {
            Some(p) => p,
            None => String::new(),
        };
        Config::default_with_path(path)
    }
}

/// What parsing the stored form of a theme preference yields: exactly
/// the three variant names are accepted.
pub open spec fn spec_parse_theme(s: Seq<char>) -> Option<Theme> {
    if s == "System"@ {
        Some(Theme::System)
    } else if s == "Dark"@ {
        Some(Theme::Dark)
    } else if s == "Light"@ {
        Some(Theme::Light)
    } else {
        None
    }
}

/// Parses the stored form of a theme preference.
pub fn parse_theme(s: &str) -> (t: Option<Theme>)
    ensures
        t == spec_parse_theme(s@),
{
    let owned = s.to_owned();
    if owned == "System".to_owned() {
        Some(Theme::System)
    } else if owned == "Dark".to_owned() {
        Some(Theme::Dark)
    } else if owned == "Light".to_owned() {
        Some(Theme::Light)
    } else {
        None
    }
}

/// The stored form of each theme preference.
pub open spec fn spec_theme_name(t: Theme) -> Seq<char> {
    match t {
        Theme::System => "System"@,
        Theme::Dark => "Dark"@,
        Theme::Light => "Light"@,
    }
}

/// Writes a theme preference in its stored form.
pub fn theme_name(t: &Theme) -> (s: String)
    ensures
        s@ == spec_theme_name(*t),
{
    match t {
        Theme::System => "System".to_owned(),
        Theme::Dark => "Dark".to_owned(),
        Theme::Light => "Light".to_owned(),
    }
}

/// Writing a theme preference and parsing it back yields the same
/// preference.
pub proof fn lemma_theme_name_round_trip(t: Theme)
    ensures
        spec_parse_theme(spec_theme_name(t)) == Some(t),
{
    reveal_strlit("System");
    reveal_strlit("Dark");
    reveal_strlit("Light");
    match t {
        Theme::System => {
            assert(spec_parse_theme("System"@) == Some(Theme::System));
        },
        Theme::Dark => {
            assert("Dark"@.len() != "System"@.len());
            assert(spec_parse_theme("Dark"@) == Some(Theme::Dark));
        },
        Theme::Light => {
            assert("Light"@.len() != "System"@.len());
            assert("Light"@.len() != "Dark"@.len());
            assert(spec_parse_theme("Light"@) == Some(Theme::Light));
        },
    }
}

/// A configuration record as the store hands it over: each field either
/// read back as raw text, or missing/unreadable.
#[derive(Debug, Clone, PartialEq, Eq)]
pub struct RawConfig {
    /// The raw target-path field, if the store could read it.
    pub target_path: Option<String>,
    /// The raw theme field, if the store could read it.
    pub theme: Option<String>,
}

impl RawConfig {
    /// Whether the raw target-path field is well-formed.
    pub open spec fn path_ok(self) -> bool {
        self.target_path is Some
    }

    /// Whether the raw theme field is well-formed.
    pub open spec fn theme_ok(self) -> bool {
        self.theme is Some && spec_parse_theme((self.theme->0)@) is Some
    }
}

/// The number of malformed fields in a raw record: one error is reported
/// for each field that is missing, unreadable, or fails to parse.
pub open spec fn spec_field_errors(raw: RawConfig) -> int {
    (if raw.path_ok() { 0int } else { 1int }) + (if raw.theme_ok() { 0int } else { 1int })
}

/// The record a raw record loads to: each well-formed field is taken as
/// read, and each malformed field is replaced by its fallback.
pub open spec fn spec_loaded_config(raw: RawConfig, fallback: QuickviewConfig) -> QuickviewConfig {
    QuickviewConfig {
        target_path: if raw.path_ok() {
            raw.target_path->0
        } else {
            fallback.target_path
        },
        theme: if raw.theme_ok() {
            spec_parse_theme((raw.theme->0)@)->0
        } else {
            fallback.theme
        },
    }
}

/// Reads a record out of what the store handed over. A record with no
/// malformed field comes back as `Ok`; otherwise the partially defaulted
/// record comes back as `Err`, together with the number of field errors
/// to report.
pub fn get_entry(raw: &RawConfig, fallback: &QuickviewConfig) -> (r: Result<
    QuickviewConfig,
    (u64, QuickviewConfig),
>)
    ensures
        spec_field_errors(*raw) == 0 ==> r == Ok::<QuickviewConfig, (u64, QuickviewConfig)>(
            spec_loaded_config(*raw, *fallback),
        ),
        spec_field_errors(*raw) > 0 ==> r == Err::<QuickviewConfig, (u64, QuickviewConfig)>(
            (spec_field_errors(*raw) as u64, spec_loaded_config(*raw, *fallback)),
        ),
{
    let mut errors: u64 = 0;

    let target_path = match &raw.target_path {
        Some(p) => p.clone(),
        None => {
            errors = errors + 1;
            fallback.target_path.clone()
        },
    };

    let theme = match &raw.theme {
        Some(name) => match parse_theme(name.as_str()) {
            Some(t) => t,
            None => {
                errors = errors + 1;
                fallback.theme
            },
        },
        None => {
            errors = errors + 1;
            fallback.theme
        },
    };

    let loaded = QuickviewConfig { target_path, theme };
    if errors == 0 {
        Ok(loaded)
    } else {
        Err((errors, loaded))
    }
}

impl QuickviewConfig {
    /// Loads the configuration. A missing or unreadable store yields the
    /// fallback record with nothing to report; otherwise each malformed
    /// field is replaced by its fallback and reported as exactly one
    /// error. Always yields a record.
    pub fn config(store: Option<RawConfig>, fallback: QuickviewConfig) -> (r: (
        QuickviewConfig,
        u64,
    ))
        ensures
            store is None ==> r.0 == fallback && r.1 == 0,
            store is Some ==> r.0 == spec_loaded_config(store->0, fallback) && r.1
                == spec_field_errors(store->0) as u64,
    {
        match store {
            None => (fallback, 0),
            Some(raw) => match get_entry(&raw, &fallback) {
                Ok(c) => (c, 0),
                Err((errors, c)) => (c, errors),
            },
        }
    }
}

} // verus!
